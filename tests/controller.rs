use fulcrum_controller::{
    init_governance, submit_intent, update_policy, AccountId, Amount, Controller,
    ControllerError, EventKind, ONE_DAY,
};

fn account(b: u8) -> AccountId {
    AccountId::new([b; 32])
}

fn amount(v: u64) -> Amount {
    Amount::from_u64(v)
}

fn submit(state: &mut Controller, caller: u8, now: u64, value: u64) -> Result<u64, ControllerError> {
    submit_intent(
        state,
        account(caller),
        now,
        7,
        String::from("0xabc"),
        String::from("payload"),
        amount(value),
    )
}

fn initialized(now: u64, daily: u64, per_tx: u64) -> Controller {
    let mut state = Controller::new();
    assert_eq!(init_governance(&mut state, account(1), now, 2, amount(daily), amount(per_tx)), Ok(()));
    state
}

fn spent(state: &Controller) -> [u64; 8] {
    state.daily_spent().limbs
}

#[test]
fn nonces_count_up_per_caller() {
    let mut state = initialized(1000, 1000, 100);
    assert_eq!(submit(&mut state, 5, 1000, 1), Ok(1));
    assert_eq!(submit(&mut state, 6, 1000, 1), Ok(1));
    assert_eq!(submit(&mut state, 5, 1001, 1), Ok(2));
    assert_eq!(submit(&mut state, 6, 1001, 1), Ok(2));
    assert_eq!(submit(&mut state, 5, 1002, 1), Ok(3));
    assert_eq!(state.get_nonce(&account(5)), 3);
    assert_eq!(state.get_nonce(&account(6)), 2);
    assert_eq!(state.get_nonce(&account(9)), 0);
}

#[test]
fn failed_submit_does_not_consume_nonce() {
    let mut state = initialized(1000, 100, 60);
    assert_eq!(submit(&mut state, 5, 1000, 10), Ok(1));
    assert_eq!(submit(&mut state, 5, 1000, 61), Err(ControllerError::PerTxLimitExceeded));
    assert_eq!(submit(&mut state, 5, 1000, 10), Ok(2));
}

#[test]
fn per_tx_limit_rejects_without_change() {
    let mut state = initialized(1000, 100, 60);
    assert_eq!(submit(&mut state, 5, 1000, 20), Ok(1));
    let events_before = state.events().len();
    assert_eq!(submit(&mut state, 5, 1000, 61), Err(ControllerError::PerTxLimitExceeded));
    assert_eq!(spent(&state), amount(20).limbs);
    assert_eq!(state.get_nonce(&account(5)), 1);
    assert_eq!(state.events().len(), events_before);
}

#[test]
fn per_tx_limit_equal_value_is_accepted() {
    let mut state = initialized(1000, 100, 60);
    assert_eq!(submit(&mut state, 5, 1000, 60), Ok(1));
    assert_eq!(spent(&state), amount(60).limbs);
}

#[test]
fn daily_limit_accumulates() {
    let mut state = initialized(1000, 100, 60);
    assert_eq!(submit(&mut state, 5, 1000, 50), Ok(1));
    assert_eq!(submit(&mut state, 5, 1000, 50), Ok(2));
    assert_eq!(spent(&state), amount(100).limbs);
    assert_eq!(submit(&mut state, 5, 1000, 1), Err(ControllerError::DailyLimitExceeded));
    assert_eq!(spent(&state), amount(100).limbs);
    assert_eq!(state.get_nonce(&account(5)), 2);
}

#[test]
fn daily_window_resets_after_a_full_day() {
    let t: u64 = 5000;
    let mut state = initialized(t, 100, 60);
    assert_eq!(submit(&mut state, 5, t, 50), Ok(1));
    assert_eq!(submit(&mut state, 5, t + ONE_DAY, 30), Ok(2));
    assert_eq!(spent(&state), amount(30).limbs);
    assert_eq!(state.last_reset(), t + 86400);
}

#[test]
fn daily_window_holds_one_second_before() {
    let t: u64 = 5000;
    let mut state = initialized(t, 100, 60);
    assert_eq!(submit(&mut state, 5, t, 50), Ok(1));
    assert_eq!(submit(&mut state, 5, t + 86399, 30), Ok(2));
    assert_eq!(spent(&state), amount(80).limbs);
    assert_eq!(state.last_reset(), t);
    assert_eq!(submit(&mut state, 5, t + 86399, 30), Err(ControllerError::DailyLimitExceeded));
}

#[test]
fn reset_lets_a_full_window_through_again() {
    let t: u64 = 5000;
    let mut state = initialized(t, 100, 60);
    assert_eq!(submit(&mut state, 5, t, 50), Ok(1));
    assert_eq!(submit(&mut state, 5, t, 50), Ok(2));
    assert_eq!(submit(&mut state, 5, t + 100, 1), Err(ControllerError::DailyLimitExceeded));
    assert_eq!(state.last_reset(), t);
    assert_eq!(submit(&mut state, 5, t + 200000, 60), Ok(3));
    assert_eq!(spent(&state), amount(60).limbs);
    assert_eq!(state.last_reset(), t + 200000);
}

#[test]
fn second_init_is_rejected() {
    let mut state = initialized(1000, 100, 60);
    let r = init_governance(&mut state, account(2), 2000, 9, amount(5), amount(5));
    assert_eq!(r, Err(ControllerError::AlreadyInitialized));
    let g = state.governance().unwrap();
    assert_eq!(g.owner.bytes, [1u8; 32]);
    assert_eq!(g.threshold, 2);
    assert_eq!(g.daily_limit.limbs, amount(100).limbs);
    assert_eq!(g.per_tx_limit.limbs, amount(60).limbs);
    assert_eq!(state.last_reset(), 1000);
    assert_eq!(state.events().len(), 1);
}

#[test]
fn update_by_non_owner_is_unauthorized() {
    let mut state = initialized(1000, 100, 60);
    let r = update_policy(&mut state, account(2), amount(500), amount(300));
    assert_eq!(r, Err(ControllerError::Unauthorized));
    let g = state.governance().unwrap();
    assert_eq!(g.daily_limit.limbs, amount(100).limbs);
    assert_eq!(g.per_tx_limit.limbs, amount(60).limbs);
    assert_eq!(state.events().len(), 1);
}

#[test]
fn update_by_owner_overwrites_limits() {
    let mut state = initialized(1000, 100, 60);
    assert_eq!(update_policy(&mut state, account(1), amount(500), amount(300)), Ok(()));
    let g = state.governance().unwrap();
    assert_eq!(g.daily_limit.limbs, amount(500).limbs);
    assert_eq!(g.per_tx_limit.limbs, amount(300).limbs);
    assert_eq!(g.threshold, 2);
    assert_eq!(g.owner.bytes, [1u8; 32]);
    let events = state.events();
    assert_eq!(events.len(), 2);
    let e = &events[1];
    assert_eq!(e.kind, EventKind::GovernanceUpdated);
    assert_eq!(e.fields.len(), 2);
    assert_eq!(
        e.text(),
        "{\"event\":\"GovernanceUpdated\",\"daily_limit\":\"500\",\"per_tx_limit\":\"300\"}"
    );
    assert_eq!(submit(&mut state, 5, 1000, 250), Ok(1));
}

#[test]
fn limits_may_be_inverted() {
    let mut state = initialized(1000, 10, 60);
    assert_eq!(submit(&mut state, 5, 1000, 11), Err(ControllerError::DailyLimitExceeded));
    assert_eq!(submit(&mut state, 5, 1000, 10), Ok(1));
}

#[test]
fn calls_before_init_are_not_initialized() {
    let mut state = Controller::new();
    assert_eq!(submit(&mut state, 5, 1000, 1), Err(ControllerError::NotInitialized));
    let r = update_policy(&mut state, account(1), amount(1), amount(1));
    assert_eq!(r, Err(ControllerError::NotInitialized));
    assert_eq!(state.events().len(), 0);
    assert_eq!(state.event_counter(), 0);
    assert!(state.governance().is_none());
}

#[test]
fn events_share_one_sequence() {
    let mut state = initialized(1000, 100, 60);
    assert_eq!(submit(&mut state, 5, 1000, 10), Ok(1));
    assert_eq!(submit(&mut state, 5, 1000, 61), Err(ControllerError::PerTxLimitExceeded));
    assert_eq!(update_policy(&mut state, account(1), amount(200), amount(100)), Ok(()));
    assert_eq!(submit(&mut state, 6, 1000, 10), Ok(1));
    let events = state.events();
    assert_eq!(events.len(), 4);
    for (i, e) in events.iter().enumerate() {
        assert_eq!(e.sequence, i as u64);
    }
    assert_eq!(state.event_counter(), 4);
    assert_eq!(events[0].key(), "event_0_GovernanceUpdated");
    assert_eq!(events[1].key(), "event_1_IntentCreated");
    assert_eq!(events[2].key(), "event_2_GovernanceUpdated");
    assert_eq!(events[3].key(), "event_3_IntentCreated");
}

#[test]
fn init_event_text() {
    let state = initialized(1000, 100, 60);
    let e = &state.events()[0];
    assert_eq!(e.sequence, 0);
    assert_eq!(
        e.text(),
        "{\"event\":\"GovernanceUpdated\",\"threshold\":\"2\",\"daily_limit\":\"100\",\"per_tx_limit\":\"60\"}"
    );
}

#[test]
fn intent_event_fields() {
    let mut state = initialized(1000, 100, 60);
    assert_eq!(submit(&mut state, 0xab, 1234, 42), Ok(1));
    let e = &state.events()[1];
    assert_eq!(e.kind, EventKind::IntentCreated);
    let names: Vec<&str> = e.fields.iter().map(|f| f.name.as_str()).collect();
    assert_eq!(
        names,
        vec!["caller", "target_chain", "target_address", "data", "value", "nonce", "timestamp"]
    );
    let caller = format!("account-hash-{}", "ab".repeat(32));
    assert_eq!(e.fields[0].value, caller);
    assert_eq!(e.fields[1].value, "7");
    assert_eq!(e.fields[2].value, "0xabc");
    assert_eq!(e.fields[3].value, "payload");
    assert_eq!(e.fields[4].value, "42");
    assert_eq!(e.fields[5].value, "1");
    assert_eq!(e.fields[6].value, "1234");
    assert_eq!(
        e.text(),
        format!(
            "{{\"event\":\"IntentCreated\",\"caller\":\"{}\",\"target_chain\":\"7\",\"target_address\":\"0xabc\",\"data\":\"payload\",\"value\":\"42\",\"nonce\":\"1\",\"timestamp\":\"1234\"}}",
            caller
        )
    );
}

#[test]
fn spend_overflow_is_an_error() {
    let max = Amount::from_limbs([u64::MAX; 8]);
    let mut state = Controller::new();
    assert_eq!(init_governance(&mut state, account(1), 1000, 1, max, max), Ok(()));
    let r = submit_intent(&mut state, account(5), 1000, 1, String::new(), String::new(), max);
    assert_eq!(r, Ok(1));
    assert_eq!(submit(&mut state, 5, 1000, 1), Err(ControllerError::Overflow));
    assert_eq!(spent(&state), [u64::MAX; 8]);
    assert_eq!(state.get_nonce(&account(5)), 1);
}

#[test]
fn error_codes_are_distinct() {
    assert_eq!(ControllerError::Unauthorized.code(), 1);
    assert_eq!(ControllerError::DailyLimitExceeded.code(), 3);
    assert_eq!(ControllerError::PerTxLimitExceeded.code(), 4);
    assert_eq!(ControllerError::NotInitialized.code(), 6);
    assert_eq!(ControllerError::AlreadyInitialized.code(), 7);
    assert_eq!(ControllerError::Overflow.code(), 8);
}

#[test]
fn is_owner_checks_identity() {
    let state = initialized(1000, 100, 60);
    assert_eq!(state.is_owner(&account(1)), Ok(true));
    assert_eq!(state.is_owner(&account(2)), Ok(false));
    assert_eq!(Controller::new().is_owner(&account(1)), Err(ControllerError::NotInitialized));
}

#[test]
fn restored_controller_continues_numbering() {
    let g = fulcrum_controller::Governance {
        owner: account(1),
        threshold: 3,
        daily_limit: amount(100),
        per_tx_limit: amount(60),
    };
    let nonces = vec![fulcrum_controller::NonceEntry { account: account(5), nonce: 41 }];
    let mut state = Controller::restore(Some(g), amount(70), 1000, nonces, 12);
    assert_eq!(state.event_counter(), 12);
    assert_eq!(state.get_nonce(&account(5)), 41);
    assert_eq!(submit(&mut state, 5, 1000, 40), Err(ControllerError::DailyLimitExceeded));
    assert_eq!(submit(&mut state, 5, 1000, 30), Ok(42));
    assert_eq!(state.events().len(), 1);
    assert_eq!(state.events()[0].sequence, 12);
    assert_eq!(state.events()[0].key(), "event_12_IntentCreated");
    assert_eq!(state.event_counter(), 13);
    let r = init_governance(&mut state, account(2), 1000, 1, amount(1), amount(1));
    assert_eq!(r, Err(ControllerError::AlreadyInitialized));
}
