//! Properties that hold across the controller's operations.

use vstd::prelude::*;
use crate::amount::Amount;
use crate::controller::{
    Controller, ControllerError, Governance, ONE_DAY, init_post, policy_fields,
    submit_post, update_post,
};
use crate::events::EventKind;
use crate::identity::AccountId;

verus! {

/// Each successful `submit_intent` raises the caller's nonce by exactly one
/// and returns the raised value; no other account's nonce moves, and a
/// failed call moves none. From the zero of a new controller, a caller's
/// nonces are therefore 1, 2, 3, ... whatever other callers do.
pub proof fn nonce_advances_by_one(
    pre: Controller,
    post: Controller,
    caller: AccountId,
    now: u64,
    target_chain: u64,
    target_address: Seq<char>,
    data: Seq<char>,
    value: Amount,
    r: Result<u64, ControllerError>,
    who: Seq<u8>,
)
    requires
        submit_post(pre, post, caller, now, target_chain, target_address, data, value, r),
    ensures
        post.nonce_of(who) == pre.nonce_of(who) + if r is Ok && who == caller@ {
            1int
        } else {
            0int
        },
        r is Ok ==> r->Ok_0 == post.nonce_of(caller@),
{
}

/// How many of the first `n` calls, made by `callers` with results `rs`,
/// were successful calls by account `c`.
pub open spec fn successes_of(
    callers: Seq<AccountId>,
    rs: Seq<Result<u64, ControllerError>>,
    c: Seq<u8>,
    n: nat,
) -> nat
    decreases n,
{
    if n == 0 {
        0
    } else {
        successes_of(callers, rs, c, (n - 1) as nat) + if rs[n - 1] is Ok && callers[n - 1]@ == c {
            1nat
        } else {
            0nat
        }
    }
}

/// `states[i + 1]` is what the `i`-th call of `submit_intent` left of `states[i]`.
pub open spec fn submit_run(
    states: Seq<Controller>,
    callers: Seq<AccountId>,
    nows: Seq<u64>,
    chains: Seq<u64>,
    addresses: Seq<Seq<char>>,
    datas: Seq<Seq<char>>,
    values: Seq<Amount>,
    rs: Seq<Result<u64, ControllerError>>,
) -> bool {
    &&& states.len() == rs.len() + 1
    &&& callers.len() == rs.len()
    &&& nows.len() == rs.len()
    &&& chains.len() == rs.len()
    &&& addresses.len() == rs.len()
    &&& datas.len() == rs.len()
    &&& values.len() == rs.len()
    &&& forall|i: int|
        0 <= i < rs.len() ==> submit_post(
            #[trigger] states[i],
            states[i + 1],
            callers[i],
            nows[i],
            chains[i],
            addresses[i],
            datas[i],
            values[i],
            rs[i],
        )
}

proof fn nonce_after_prefix(
    states: Seq<Controller>,
    callers: Seq<AccountId>,
    nows: Seq<u64>,
    chains: Seq<u64>,
    addresses: Seq<Seq<char>>,
    datas: Seq<Seq<char>>,
    values: Seq<Amount>,
    rs: Seq<Result<u64, ControllerError>>,
    c: Seq<u8>,
    k: nat,
)
    requires
        submit_run(states, callers, nows, chains, addresses, datas, values, rs),
        k <= rs.len(),
    ensures
        states[k as int].nonce_of(c) == states[0].nonce_of(c) + successes_of(callers, rs, c, k),
    decreases k,
{
    if k > 0 {
        let i = k - 1;
        nonce_after_prefix(states, callers, nows, chains, addresses, datas, values, rs, c, i as nat);
        assert(submit_post(
            states[i],
            states[i + 1],
            callers[i],
            nows[i],
            chains[i],
            addresses[i],
            datas[i],
            values[i],
            rs[i],
        ));
        nonce_advances_by_one(
            states[i],
            states[i + 1],
            callers[i],
            nows[i],
            chains[i],
            addresses[i],
            datas[i],
            values[i],
            rs[i],
            c,
        );
    }
}

/// Over any run of `submit_intent` calls, interleaved among callers, an
/// account's nonce is where it started plus the number of its successful
/// calls so far, and each of its successful calls returns the next number.
/// From a new controller, an account's nonces are thus 1, 2, 3, ...
pub proof fn nonces_follow_successes(
    states: Seq<Controller>,
    callers: Seq<AccountId>,
    nows: Seq<u64>,
    chains: Seq<u64>,
    addresses: Seq<Seq<char>>,
    datas: Seq<Seq<char>>,
    values: Seq<Amount>,
    rs: Seq<Result<u64, ControllerError>>,
    c: Seq<u8>,
)
    requires
        submit_run(states, callers, nows, chains, addresses, datas, values, rs),
    ensures
        forall|i: int|
            0 <= i <= rs.len() ==> #[trigger] states[i].nonce_of(c) == states[0].nonce_of(c)
                + successes_of(callers, rs, c, i as nat),
        forall|i: int|
            0 <= i < rs.len() && #[trigger] rs[i] is Ok && callers[i]@ == c ==> rs[i]->Ok_0
                == states[0].nonce_of(c) + successes_of(callers, rs, c, i as nat) + 1,
{
    assert forall|i: int| 0 <= i <= rs.len() implies #[trigger] states[i].nonce_of(c)
        == states[0].nonce_of(c) + successes_of(callers, rs, c, i as nat) by {
        nonce_after_prefix(states, callers, nows, chains, addresses, datas, values, rs, c, i as nat);
    }
    assert forall|i: int| 0 <= i < rs.len() && #[trigger] rs[i] is Ok && callers[i]@ == c implies rs[i]->Ok_0
        == states[0].nonce_of(c) + successes_of(callers, rs, c, i as nat) + 1 by {
        nonce_after_prefix(states, callers, nows, chains, addresses, datas, values, rs, c, i as nat);
        assert(submit_post(
            states[i],
            states[i + 1],
            callers[i],
            nows[i],
            chains[i],
            addresses[i],
            datas[i],
            values[i],
            rs[i],
        ));
    }
}

/// A `submit_intent` whose value exceeds the per-transaction limit fails
/// with `PerTxLimitExceeded`, and neither the daily total nor the caller's
/// nonce changes.
pub proof fn per_tx_limit_rejects(
    pre: Controller,
    post: Controller,
    caller: AccountId,
    now: u64,
    target_chain: u64,
    target_address: Seq<char>,
    data: Seq<char>,
    value: Amount,
    r: Result<u64, ControllerError>,
    g: Governance,
)
    requires
        submit_post(pre, post, caller, now, target_chain, target_address, data, value, r),
        pre.governance_spec() == Some(g),
        value.value() > g.per_tx_limit.value(),
    ensures
        r == Err::<u64, ControllerError>(ControllerError::PerTxLimitExceeded),
        post.spent() == pre.spent(),
        post.nonce_of(caller@) == pre.nonce_of(caller@),
{
}

/// A successful `submit_intent` a full day or more after the window began
/// starts a new window at its own time holding only its own value; one made
/// earlier adds its value to the current window.
pub proof fn daily_window_boundary(
    pre: Controller,
    post: Controller,
    caller: AccountId,
    now: u64,
    target_chain: u64,
    target_address: Seq<char>,
    data: Seq<char>,
    value: Amount,
    r: Result<u64, ControllerError>,
)
    requires
        submit_post(pre, post, caller, now, target_chain, target_address, data, value, r),
        r is Ok,
    ensures
        (now as int) >= pre.last_reset_spec() + ONE_DAY ==> {
            &&& post.spent() == value.value()
            &&& post.last_reset_spec() == now
        },
        (now as int) < pre.last_reset_spec() + ONE_DAY ==> {
            &&& post.spent() == pre.spent() + value.value()
            &&& post.last_reset_spec() == pre.last_reset_spec()
        },
{
}

/// After a successful `submit_intent` the window's total is within the
/// daily limit in force.
pub proof fn daily_total_within_limit(
    pre: Controller,
    post: Controller,
    caller: AccountId,
    now: u64,
    target_chain: u64,
    target_address: Seq<char>,
    data: Seq<char>,
    value: Amount,
    r: Result<u64, ControllerError>,
)
    requires
        submit_post(pre, post, caller, now, target_chain, target_address, data, value, r),
        r is Ok,
    ensures
        post.governance_spec() is Some,
        post.spent() <= post.governance_spec()->Some_0.daily_limit.value(),
{
}

/// Once `init_governance` has succeeded, a second call, with any arguments,
/// fails with `AlreadyInitialized` and leaves the first configuration and
/// the rest of the state as they were.
pub proof fn init_only_once(
    s0: Controller,
    s1: Controller,
    s2: Controller,
    caller1: AccountId,
    now1: u64,
    threshold1: u64,
    daily_limit1: Amount,
    per_tx_limit1: Amount,
    r1: Result<(), ControllerError>,
    caller2: AccountId,
    now2: u64,
    threshold2: u64,
    daily_limit2: Amount,
    per_tx_limit2: Amount,
    r2: Result<(), ControllerError>,
)
    requires
        init_post(s0, s1, caller1, now1, threshold1, daily_limit1, per_tx_limit1, r1),
        init_post(s1, s2, caller2, now2, threshold2, daily_limit2, per_tx_limit2, r2),
        r1 is Ok,
    ensures
        r2 == Err::<(), ControllerError>(ControllerError::AlreadyInitialized),
        s2 == s1,
        s2.governance_spec() == Some(
            Governance {
                owner: caller1,
                threshold: threshold1,
                daily_limit: daily_limit1,
                per_tx_limit: per_tx_limit1,
            },
        ),
{
}

/// `update_policy` by anyone but the owner fails with `Unauthorized` and
/// leaves the configuration as it was. By the owner, while the event counter
/// can still advance, it succeeds, sets both limits to exactly the given
/// values, and logs one `GovernanceUpdated` event with just those two fields.
pub proof fn update_requires_owner(
    pre: Controller,
    post: Controller,
    caller: AccountId,
    daily_limit: Amount,
    per_tx_limit: Amount,
    r: Result<(), ControllerError>,
    g: Governance,
)
    requires
        update_post(pre, post, caller, daily_limit, per_tx_limit, r),
        pre.governance_spec() == Some(g),
    ensures
        caller@ != g.owner@ ==> {
            &&& r == Err::<(), ControllerError>(ControllerError::Unauthorized)
            &&& post.governance_spec() == pre.governance_spec()
        },
        caller@ == g.owner@ && pre.counter() < u64::MAX ==> {
            &&& r is Ok
            &&& post.governance_spec() == Some(Governance { daily_limit, per_tx_limit, ..g })
            &&& post.events_view() == pre.events_view().push(
                (
                    pre.counter(),
                    EventKind::GovernanceUpdated,
                    policy_fields(daily_limit.value(), per_tx_limit.value()),
                ),
            )
        },
{
}

} // verus!
