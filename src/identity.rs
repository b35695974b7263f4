//! Caller identities: 32-byte account hashes.

use vstd::prelude::*;
use crate::text::hex_lower;

verus! {

/// Relies on `AccountHash::to_formatted_string` of casper-types: the prefix
/// `account-hash-` followed by the lower-case hex of the 32 bytes.
#[verifier::external_body]
fn account_hash_text(bytes: [u8; 32]) -> (r: String)
    ensures
        r@ == "account-hash-"@ + hex_lower(bytes@),
{
    casper_types::account::AccountHash::new(bytes).to_formatted_string()
}

/// The identity of an account, as its 32-byte hash.
#[derive(Clone, Copy, Debug)]
pub struct AccountId {
    pub bytes: [u8; 32],
}

impl AccountId {
    pub open spec fn view(&self) -> Seq<u8> {
        self.bytes@
    }

    pub fn new(bytes: [u8; 32]) -> (r: AccountId)
        ensures
            r.bytes == bytes,
    {
        AccountId { bytes }
    }

    /// Whether both identities hold the same bytes.
    pub fn same_as(&self, other: &AccountId) -> (r: bool)
        ensures
            r == (self@ == other@),
    {
        let mut i: usize = 0;
        while i < 32
            invariant
                0 <= i <= 32,
                self@.len() == 32,
                other@.len() == 32,
                forall|j: int| 0 <= j < i ==> self@[j] == other@[j],
            decreases 32 - i,
        {
            if self.bytes[i] != other.bytes[i] {
                return false;
            }
            i = i + 1;
        }
        assert(self@ =~= other@);
        true
    }

    /// The account's formatted name, `account-hash-` and the hex of its bytes.
    pub fn to_formatted_string(&self) -> (r: String)
        ensures
            r@ == "account-hash-"@ + hex_lower(self@),
    {
        account_hash_text(self.bytes)
    }
}

} // verus!
