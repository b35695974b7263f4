//! The nonce ledger: per-account counters, an absent account counting zero.

use vstd::prelude::*;
use crate::identity::AccountId;

verus! {

/// One account's counter.
#[derive(Clone, Copy, Debug)]
pub struct NonceEntry {
    pub account: AccountId,
    pub nonce: u64,
}

/// The counter of account `a` in a ledger: its last entry, or zero.
pub open spec fn nonce_in(s: Seq<NonceEntry>, a: Seq<u8>) -> u64
    decreases s.len(),
{
    if s.len() == 0 {
        0
    } else if s.last().account@ == a {
        s.last().nonce
    } else {
        nonce_in(s.drop_last(), a)
    }
}

/// The entry at `k` is the last one of its account.
pub open spec fn last_of(s: Seq<NonceEntry>, k: int) -> bool {
    &&& 0 <= k < s.len()
    &&& forall|j: int| k < j < s.len() ==> s[j].account@ != s[k].account@
}

pub proof fn lemma_nonce_in_absent(s: Seq<NonceEntry>, a: Seq<u8>)
    requires
        forall|j: int| 0 <= j < s.len() ==> s[j].account@ != a,
    ensures
        nonce_in(s, a) == 0,
    decreases s.len(),
{
    if s.len() > 0 {
        lemma_nonce_in_absent(s.drop_last(), a);
    }
}

pub proof fn lemma_nonce_in_last(s: Seq<NonceEntry>, k: int)
    requires
        last_of(s, k),
    ensures
        nonce_in(s, s[k].account@) == s[k].nonce,
    decreases s.len(),
{
    if k < s.len() - 1 {
        lemma_nonce_in_last(s.drop_last(), k);
    }
}

pub proof fn lemma_nonce_in_update(s: Seq<NonceEntry>, k: int, e: NonceEntry, b: Seq<u8>)
    requires
        last_of(s, k),
        e.account@ == s[k].account@,
    ensures
        nonce_in(s.update(k, e), b) == if b == e.account@ { e.nonce } else { nonce_in(s, b) },
    decreases s.len(),
{
    let t = s.update(k, e);
    if k == s.len() - 1 {
        assert(t.drop_last() =~= s.drop_last());
    } else {
        assert(t.drop_last() =~= s.drop_last().update(k, e));
        lemma_nonce_in_update(s.drop_last(), k, e, b);
    }
}

pub proof fn lemma_nonce_in_push(s: Seq<NonceEntry>, e: NonceEntry, b: Seq<u8>)
    ensures
        nonce_in(s.push(e), b) == if b == e.account@ { e.nonce } else { nonce_in(s, b) },
{
    assert(s.push(e).drop_last() =~= s);
}

/// The position of the last entry of `a`, if any.
pub fn find_last(s: &Vec<NonceEntry>, a: &AccountId) -> (r: Option<usize>)
    ensures
        match r {
            Some(k) => last_of(s@, k as int) && s@[k as int].account@ == a@,
            None => forall|j: int| 0 <= j < s@.len() ==> s@[j].account@ != a@,
        },
{
    let mut i: usize = s.len();
    while i > 0
        invariant
            i <= s@.len(),
            forall|j: int| i <= j < s@.len() ==> s@[j].account@ != a@,
        decreases i,
    {
        if s[i - 1].account.same_as(a) {
            return Some(i - 1);
        }
        i = i - 1;
    }
    None
}

} // verus!
