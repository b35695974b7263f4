//! The controller's state and its three operations. Each operation either
//! succeeds and commits all of its changes, or fails and leaves the state
//! exactly as it was.

use vstd::prelude::*;
use crate::amount::{Amount, amount_bound};
use crate::events::{EventField, EventKind, EventRecord, fields_view};
use crate::identity::AccountId;
use crate::nonces::{
    NonceEntry, find_last, lemma_nonce_in_absent, lemma_nonce_in_last, lemma_nonce_in_push,
    lemma_nonce_in_update, nonce_in,
};
use crate::text::{decimal, hex_lower, u64_text};

verus! {

/// Length of the daily spending window, in seconds.
pub const ONE_DAY: u64 = 86400;

#[derive(Clone, Copy, Debug, PartialEq, Eq, Structural)]
pub enum ControllerError {
    Unauthorized,
    DailyLimitExceeded,
    PerTxLimitExceeded,
    NotInitialized,
    AlreadyInitialized,
    Overflow,
}

impl ControllerError {
    pub open spec fn code_spec(&self) -> u16 {
        match self {
            ControllerError::Unauthorized => 1,
            ControllerError::DailyLimitExceeded => 3,
            ControllerError::PerTxLimitExceeded => 4,
            ControllerError::NotInitialized => 6,
            ControllerError::AlreadyInitialized => 7,
            ControllerError::Overflow => 8,
        }
    }

    /// The numeric code surfaced to the host when an invocation aborts.
    pub fn code(&self) -> (r: u16)
        ensures
            r == self.code_spec(),
    {
        match self {
            ControllerError::Unauthorized => 1,
            ControllerError::DailyLimitExceeded => 3,
            ControllerError::PerTxLimitExceeded => 4,
            ControllerError::NotInitialized => 6,
            ControllerError::AlreadyInitialized => 7,
            ControllerError::Overflow => 8,
        }
    }
}

/// The configuration set once by `init_governance`.
#[derive(Clone, Copy, Debug)]
pub struct Governance {
    pub owner: AccountId,
    /// Stored for compatibility; no check reads it.
    pub threshold: u64,
    pub daily_limit: Amount,
    pub per_tx_limit: Amount,
}

/// A logged event as plain values: sequence number, kind and fields.
pub type EventView = (u64, EventKind, Seq<(Seq<char>, Seq<char>)>);

/// Fields of the event that records an intent.
pub open spec fn intent_fields(
    caller: Seq<u8>,
    target_chain: u64,
    target_address: Seq<char>,
    data: Seq<char>,
    value: nat,
    nonce: u64,
    timestamp: u64,
) -> Seq<(Seq<char>, Seq<char>)> {
    seq![
        ("caller"@, "account-hash-"@ + hex_lower(caller)),
        ("target_chain"@, decimal(target_chain as nat)),
        ("target_address"@, target_address),
        ("data"@, data),
        ("value"@, decimal(value)),
        ("nonce"@, decimal(nonce as nat)),
        ("timestamp"@, decimal(timestamp as nat)),
    ]
}

/// Fields of the event that records the initial configuration.
pub open spec fn init_fields(threshold: u64, daily_limit: nat, per_tx_limit: nat) -> Seq<
    (Seq<char>, Seq<char>),
> {
    seq![
        ("threshold"@, decimal(threshold as nat)),
        ("daily_limit"@, decimal(daily_limit)),
        ("per_tx_limit"@, decimal(per_tx_limit)),
    ]
}

/// Fields of the event that records a change of limits.
pub open spec fn policy_fields(daily_limit: nat, per_tx_limit: nat) -> Seq<
    (Seq<char>, Seq<char>),
> {
    seq![("daily_limit"@, decimal(daily_limit)), ("per_tx_limit"@, decimal(per_tx_limit))]
}

/// Whether a call at `now` opens a new window begun at `last_reset`.
pub open spec fn window_expired(last_reset: u64, now: u64) -> bool {
    now as int >= last_reset as int + ONE_DAY as int
}

/// The whole state of one controller.
pub struct Controller {
    governance: Option<Governance>,
    daily_spent: Amount,
    last_reset: u64,
    nonces: Vec<NonceEntry>,
    /// Sequence number of the first event held in `events`.
    first_event: u64,
    event_counter: u64,
    events: Vec<EventRecord>,
}

impl Controller {
    pub closed spec fn governance_spec(&self) -> Option<Governance> {
        self.governance
    }

    /// Amount spent in the current window.
    pub closed spec fn spent(&self) -> nat {
        self.daily_spent.value()
    }

    /// Start of the current window, in seconds.
    pub closed spec fn last_reset_spec(&self) -> u64 {
        self.last_reset
    }

    /// The last nonce issued to account `a`, zero if none was.
    pub closed spec fn nonce_of(&self, a: Seq<u8>) -> u64 {
        nonce_in(self.nonces@, a)
    }

    /// The sequence number of the first event this value holds.
    pub closed spec fn first_event_spec(&self) -> u64 {
        self.first_event
    }

    /// The sequence number the next event will carry.
    pub closed spec fn counter(&self) -> u64 {
        self.event_counter
    }

    pub closed spec fn events_view(&self) -> Seq<EventView> {
        self.events@.map_values(|e: EventRecord| e@)
    }

    /// Events are numbered on from the first one without gaps, and the
    /// counter is the number after the last.
    pub closed spec fn wf(&self) -> bool {
        &&& self.event_counter == self.first_event + self.events@.len()
        &&& forall|i: int|
            0 <= i < self.events@.len() ==> self.events@[i].sequence == self.first_event + i
    }

    /// Amount spent in the window that a call at `now` would count against.
    pub open spec fn spent_at(&self, now: u64) -> nat {
        if window_expired(self.last_reset_spec(), now) {
            0
        } else {
            self.spent()
        }
    }

    /// Start of the window that a call at `now` would count against.
    pub open spec fn reset_at(&self, now: u64) -> u64 {
        if window_expired(self.last_reset_spec(), now) {
            now
        } else {
            self.last_reset_spec()
        }
    }

    /// The failure, if any, of `submit_intent` by `caller` at `now` for `value`.
    pub open spec fn submit_error(&self, caller: Seq<u8>, now: u64, value: nat) -> Option<
        ControllerError,
    > {
        match self.governance_spec() {
            None => Some(ControllerError::NotInitialized),
            Some(g) => if value > g.per_tx_limit.value() {
                Some(ControllerError::PerTxLimitExceeded)
            } else if self.spent_at(now) + value >= amount_bound() {
                Some(ControllerError::Overflow)
            } else if self.spent_at(now) + value > g.daily_limit.value() {
                Some(ControllerError::DailyLimitExceeded)
            } else if self.nonce_of(caller) == u64::MAX || self.counter() == u64::MAX {
                Some(ControllerError::Overflow)
            } else {
                None
            },
        }
    }

    /// The failure, if any, of `init_governance`.
    pub open spec fn init_error(&self) -> Option<ControllerError> {
        if self.governance_spec() is Some {
            Some(ControllerError::AlreadyInitialized)
        } else if self.counter() == u64::MAX {
            Some(ControllerError::Overflow)
        } else {
            None
        }
    }

    /// The failure, if any, of `update_policy` by `caller`.
    pub open spec fn update_error(&self, caller: Seq<u8>) -> Option<ControllerError> {
        match self.governance_spec() {
            None => Some(ControllerError::NotInitialized),
            Some(g) => if g.owner@ != caller {
                Some(ControllerError::Unauthorized)
            } else if self.counter() == u64::MAX {
                Some(ControllerError::Overflow)
            } else {
                None
            },
        }
    }

    /// A controller that has not been initialized: no configuration, nothing
    /// spent, no nonces and no events.
    pub fn new() -> (r: Controller)
        ensures
            r.wf(),
            r.governance_spec() is None,
            r.spent() == 0,
            r.last_reset_spec() == 0,
            forall|a: Seq<u8>| r.nonce_of(a) == 0,
            r.first_event_spec() == 0,
            r.counter() == 0,
            r.events_view() == Seq::<EventView>::empty(),
    {
        let r = Controller {
            governance: None,
            daily_spent: Amount::zero(),
            last_reset: 0,
            nonces: Vec::new(),
            first_event: 0,
            event_counter: 0,
            events: Vec::new(),
        };
        assert(r.events_view() =~= Seq::<EventView>::empty());
        r
    }

    /// A controller resumed from persisted parts. It holds no events; the
    /// next one it logs is numbered `event_counter`.
    pub fn restore(
        governance: Option<Governance>,
        daily_spent: Amount,
        last_reset: u64,
        nonces: Vec<NonceEntry>,
        event_counter: u64,
    ) -> (r: Controller)
        ensures
            r.wf(),
            r.governance_spec() == governance,
            r.spent() == daily_spent.value(),
            r.last_reset_spec() == last_reset,
            forall|a: Seq<u8>| r.nonce_of(a) == nonce_in(nonces@, a),
            r.first_event_spec() == event_counter,
            r.counter() == event_counter,
            r.events_view() == Seq::<EventView>::empty(),
    {
        let r = Controller {
            governance,
            daily_spent,
            last_reset,
            nonces,
            first_event: event_counter,
            event_counter,
            events: Vec::new(),
        };
        assert(r.events_view() =~= Seq::<EventView>::empty());
        r
    }

    pub fn governance(&self) -> (r: Option<Governance>)
        ensures
            r == self.governance_spec(),
    {
        self.governance
    }

    pub fn daily_spent(&self) -> (r: Amount)
        ensures
            r.value() == self.spent(),
    {
        self.daily_spent
    }

    pub fn last_reset(&self) -> (r: u64)
        ensures
            r == self.last_reset_spec(),
    {
        self.last_reset
    }

    pub fn event_counter(&self) -> (r: u64)
        ensures
            r == self.counter(),
    {
        self.event_counter
    }

    /// The current nonce of an account, zero if it has none.
    pub fn get_nonce(&self, account: &AccountId) -> (r: u64)
        ensures
            r == self.nonce_of(account@),
    {
        match find_last(&self.nonces, account) {
            Some(k) => {
                proof {
                    lemma_nonce_in_last(self.nonces@, k as int);
                }
                self.nonces[k].nonce
            },
            None => {
                proof {
                    lemma_nonce_in_absent(self.nonces@, account@);
                }
                0
            },
        }
    }

    /// The logged events, oldest first.
    pub fn events(&self) -> (r: &Vec<EventRecord>)
        ensures
            r@.map_values(|e: EventRecord| e@) == self.events_view(),
    {
        &self.events
    }

    /// Whether `caller` is the configured owner.
    pub fn is_owner(&self, caller: &AccountId) -> (r: Result<bool, ControllerError>)
        ensures
            match self.governance_spec() {
                None => r == Err::<bool, ControllerError>(ControllerError::NotInitialized),
                Some(g) => r == Ok::<bool, ControllerError>(g.owner@ == caller@),
            },
    {
        match &self.governance {
            None => Err(ControllerError::NotInitialized),
            Some(g) => Ok(g.owner.same_as(caller)),
        }
    }

    /// The window a call at `now` counts against: what was spent in it, and
    /// when it began. An expired window starts afresh at `now`.
    pub fn reset_daily_spending_if_needed(&self, now: u64) -> (r: (Amount, u64))
        ensures
            r.0.value() == self.spent_at(now),
            r.1 == self.reset_at(now),
    {
        if now >= self.last_reset && now - self.last_reset >= ONE_DAY {
            (Amount::zero(), now)
        } else {
            (self.daily_spent, self.last_reset)
        }
    }

    /// Checks `value` against both limits in the window of `now`, and gives
    /// the window's new total and start if it passes.
    pub fn check_spending_limits(&self, now: u64, value: &Amount) -> (r: Result<
        (Amount, u64),
        ControllerError,
    >)
        ensures
            match self.governance_spec() {
                None => r == Err::<(Amount, u64), ControllerError>(ControllerError::NotInitialized),
                Some(g) => if value.value() > g.per_tx_limit.value() {
                    r == Err::<(Amount, u64), ControllerError>(ControllerError::PerTxLimitExceeded)
                } else if self.spent_at(now) + value.value() >= amount_bound() {
                    r == Err::<(Amount, u64), ControllerError>(ControllerError::Overflow)
                } else if self.spent_at(now) + value.value() > g.daily_limit.value() {
                    r == Err::<(Amount, u64), ControllerError>(ControllerError::DailyLimitExceeded)
                } else {
                    &&& r is Ok
                    &&& r->Ok_0.0.value() == self.spent_at(now) + value.value()
                    &&& r->Ok_0.1 == self.reset_at(now)
                },
            },
    {
        let g = match &self.governance {
            None => {
                return Err(ControllerError::NotInitialized);
            },
            Some(g) => g,
        };
        let (spent, start) = self.reset_daily_spending_if_needed(now);
        if value.gt(&g.per_tx_limit) {
            return Err(ControllerError::PerTxLimitExceeded);
        }
        let total = match spent.checked_add(value) {
            None => {
                return Err(ControllerError::Overflow);
            },
            Some(t) => t,
        };
        proof {
            total.lemma_value_bound();
        }
        if total.gt(&g.daily_limit) {
            return Err(ControllerError::DailyLimitExceeded);
        }
        Ok((total, start))
    }

    /// Appends an event numbered with the counter, and advances the counter.
    fn emit_event(&mut self, kind: EventKind, fields: Vec<EventField>)
        requires
            old(self).wf(),
            old(self).counter() < u64::MAX,
        ensures
            final(self).wf(),
            final(self).events_view() == old(self).events_view().push(
                (old(self).counter(), kind, fields_view(fields@)),
            ),
            final(self).counter() == old(self).counter() + 1,
            final(self).governance == old(self).governance,
            final(self).daily_spent == old(self).daily_spent,
            final(self).last_reset == old(self).last_reset,
            final(self).nonces == old(self).nonces,
            final(self).first_event == old(self).first_event,
    {
        let record = EventRecord { sequence: self.event_counter, kind, fields };
        self.events.push(record);
        self.event_counter = self.event_counter + 1;
        proof {
            assert(self.events_view() =~= old(self).events_view().push(
                (old(self).counter(), kind, fields_view(fields@)),
            ));
        }
    }
}

/// What a call of `submit_intent` did: the failure it owed and no change,
/// or the next nonce, the spend recorded in the current window and one
/// `IntentCreated` event.
pub open spec fn submit_post(
    pre: Controller,
    post: Controller,
    caller: AccountId,
    now: u64,
    target_chain: u64,
    target_address: Seq<char>,
    data: Seq<char>,
    value: Amount,
    r: Result<u64, ControllerError>,
) -> bool {
    &&& post.wf()
    &&& match r {
        Err(e) => {
            &&& pre.submit_error(caller@, now, value.value()) == Some(e)
            &&& post == pre
        },
        Ok(n) => {
            &&& pre.submit_error(caller@, now, value.value()) is None
            &&& n == pre.nonce_of(caller@) + 1
            &&& post.governance_spec() == pre.governance_spec()
            &&& post.spent() == pre.spent_at(now) + value.value()
            &&& post.last_reset_spec() == pre.reset_at(now)
            &&& forall|a: Seq<u8>|
                post.nonce_of(a) == if a == caller@ {
                    n
                } else {
                    pre.nonce_of(a)
                }
            &&& post.counter() == pre.counter() + 1
            &&& post.events_view() == pre.events_view().push(
                (
                    pre.counter(),
                    EventKind::IntentCreated,
                    intent_fields(caller@, target_chain, target_address, data, value.value(), n, now),
                ),
            )
        },
    }
}

/// What a call of `init_governance` did: the failure it owed and no change,
/// or the configuration stored, a fresh window at `now` and one
/// `GovernanceUpdated` event.
pub open spec fn init_post(
    pre: Controller,
    post: Controller,
    caller: AccountId,
    now: u64,
    threshold: u64,
    daily_limit: Amount,
    per_tx_limit: Amount,
    r: Result<(), ControllerError>,
) -> bool {
    &&& post.wf()
    &&& match r {
        Err(e) => {
            &&& pre.init_error() == Some(e)
            &&& post == pre
        },
        Ok(_) => {
            &&& pre.init_error() is None
            &&& post.governance_spec() == Some(
                Governance { owner: caller, threshold, daily_limit, per_tx_limit },
            )
            &&& post.spent() == 0
            &&& post.last_reset_spec() == now
            &&& forall|a: Seq<u8>| post.nonce_of(a) == pre.nonce_of(a)
            &&& post.counter() == pre.counter() + 1
            &&& post.events_view() == pre.events_view().push(
                (
                    pre.counter(),
                    EventKind::GovernanceUpdated,
                    init_fields(threshold, daily_limit.value(), per_tx_limit.value()),
                ),
            )
        },
    }
}

/// What a call of `update_policy` did: the failure it owed and no change,
/// or both limits replaced and one `GovernanceUpdated` event.
pub open spec fn update_post(
    pre: Controller,
    post: Controller,
    caller: AccountId,
    daily_limit: Amount,
    per_tx_limit: Amount,
    r: Result<(), ControllerError>,
) -> bool {
    &&& post.wf()
    &&& match r {
        Err(e) => {
            &&& pre.update_error(caller@) == Some(e)
            &&& post == pre
        },
        Ok(_) => {
            &&& pre.update_error(caller@) is None
            &&& post.governance_spec() == Some(
                Governance { daily_limit, per_tx_limit, ..pre.governance_spec()->Some_0 },
            )
            &&& post.spent() == pre.spent()
            &&& post.last_reset_spec() == pre.last_reset_spec()
            &&& forall|a: Seq<u8>| post.nonce_of(a) == pre.nonce_of(a)
            &&& post.counter() == pre.counter() + 1
            &&& post.events_view() == pre.events_view().push(
                (
                    pre.counter(),
                    EventKind::GovernanceUpdated,
                    policy_fields(daily_limit.value(), per_tx_limit.value()),
                ),
            )
        },
    }
}

/// Validates and records an intent of `caller` at time `now`: checks the
/// spend against both limits, issues the caller's next nonce, logs an
/// `IntentCreated` event, and returns the nonce.
pub fn submit_intent(
    state: &mut Controller,
    caller: AccountId,
    now: u64,
    target_chain: u64,
    target_address: String,
    data: String,
    value: Amount,
) -> (r: Result<u64, ControllerError>)
    requires
        old(state).wf(),
    ensures
        submit_post(
            *old(state),
            *final(state),
            caller,
            now,
            target_chain,
            target_address@,
            data@,
            value,
            r,
        ),
{
    let (spent, start) = match state.check_spending_limits(now, &value) {
        Err(e) => {
            return Err(e);
        },
        Ok(w) => w,
    };
    let slot = find_last(&state.nonces, &caller);
    let current = match slot {
        Some(k) => {
            proof {
                lemma_nonce_in_last(state.nonces@, k as int);
            }
            state.nonces[k].nonce
        },
        None => {
            proof {
                lemma_nonce_in_absent(state.nonces@, caller@);
            }
            0
        },
    };
    if current == u64::MAX || state.event_counter == u64::MAX {
        return Err(ControllerError::Overflow);
    }
    let nonce = current + 1;
    let ghost pre = *state;
    let entry = NonceEntry { account: caller, nonce };
    state.daily_spent = spent;
    state.last_reset = start;
    match slot {
        Some(k) => {
            state.nonces.set(k, entry);
            proof {
                assert forall|a: Seq<u8>| nonce_in(state.nonces@, a) == if a == caller@ {
                    nonce
                } else {
                    nonce_in(pre.nonces@, a)
                } by {
                    lemma_nonce_in_update(pre.nonces@, k as int, entry, a);
                }
            }
        },
        None => {
            state.nonces.push(entry);
            proof {
                assert forall|a: Seq<u8>| nonce_in(state.nonces@, a) == if a == caller@ {
                    nonce
                } else {
                    nonce_in(pre.nonces@, a)
                } by {
                    lemma_nonce_in_push(pre.nonces@, entry, a);
                }
            }
        },
    }
    let fields = vec![
        EventField::new("caller", caller.to_formatted_string()),
        EventField::new("target_chain", u64_text(target_chain)),
        EventField::new("target_address", target_address),
        EventField::new("data", data),
        EventField::new("value", value.to_decimal()),
        EventField::new("nonce", u64_text(nonce)),
        EventField::new("timestamp", u64_text(now)),
    ];
    state.emit_event(EventKind::IntentCreated, fields);
    proof {
        assert(fields_view(fields@) =~= intent_fields(
            caller@,
            target_chain,
            target_address@,
            data@,
            value.value(),
            nonce,
            now,
        ));
    }
    Ok(nonce)
}

/// Configures the controller once: `caller` becomes the owner, the limits
/// and threshold are stored, a fresh window opens at `now`, and a
/// `GovernanceUpdated` event is logged.
pub fn init_governance(
    state: &mut Controller,
    caller: AccountId,
    now: u64,
    threshold: u64,
    daily_limit: Amount,
    per_tx_limit: Amount,
) -> (r: Result<(), ControllerError>)
    requires
        old(state).wf(),
    ensures
        init_post(*old(state), *final(state), caller, now, threshold, daily_limit, per_tx_limit, r),
{
    if state.governance.is_some() {
        return Err(ControllerError::AlreadyInitialized);
    }
    if state.event_counter == u64::MAX {
        return Err(ControllerError::Overflow);
    }
    state.governance = Some(Governance { owner: caller, threshold, daily_limit, per_tx_limit });
    state.daily_spent = Amount::zero();
    state.last_reset = now;
    let fields = vec![
        EventField::new("threshold", u64_text(threshold)),
        EventField::new("daily_limit", daily_limit.to_decimal()),
        EventField::new("per_tx_limit", per_tx_limit.to_decimal()),
    ];
    state.emit_event(EventKind::GovernanceUpdated, fields);
    proof {
        assert(fields_view(fields@) =~= init_fields(
            threshold,
            daily_limit.value(),
            per_tx_limit.value(),
        ));
    }
    Ok(())
}

/// Replaces both limits, for the owner only, and logs a `GovernanceUpdated`
/// event that names just the two limits.
pub fn update_policy(
    state: &mut Controller,
    caller: AccountId,
    daily_limit: Amount,
    per_tx_limit: Amount,
) -> (r: Result<(), ControllerError>)
    requires
        old(state).wf(),
    ensures
        update_post(*old(state), *final(state), caller, daily_limit, per_tx_limit, r),
{
    match state.is_owner(&caller) {
        Err(e) => {
            return Err(e);
        },
        Ok(false) => {
            return Err(ControllerError::Unauthorized);
        },
        Ok(true) => {},
    }
    if state.event_counter == u64::MAX {
        return Err(ControllerError::Overflow);
    }
    let g = match state.governance {
        Some(g) => g,
        None => {
            return Err(ControllerError::NotInitialized);
        },
    };
    state.governance = Some(Governance { daily_limit, per_tx_limit, ..g });
    let fields = vec![
        EventField::new("daily_limit", daily_limit.to_decimal()),
        EventField::new("per_tx_limit", per_tx_limit.to_decimal()),
    ];
    state.emit_event(EventKind::GovernanceUpdated, fields);
    proof {
        assert(fields_view(fields@) =~= policy_fields(daily_limit.value(), per_tx_limit.value()));
    }
    Ok(())
}

/// In a well-formed controller the logged events carry consecutive sequence
/// numbers from the first one on (0, 1, 2, ... for a new controller), in
/// order, without gaps or repeats, and the counter is the number after the
/// last.
pub proof fn events_numbered_without_gaps(s: Controller)
    requires
        s.wf(),
    ensures
        s.counter() == s.first_event_spec() + s.events_view().len(),
        forall|i: int|
            0 <= i < s.events_view().len() ==> s.events_view()[i].0 == s.first_event_spec() + i,
        forall|i: int, j: int|
            0 <= i < j < s.events_view().len() ==> s.events_view()[i].0 < s.events_view()[j].0,
{
}

} // verus!
