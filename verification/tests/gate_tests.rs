use balancebridge::backend::{balance_attempt_verdict, Attempt, AttemptOutcome, BalanceVerdict};
use balancebridge::backend::{txs_attempt_verdict, LookupError, TxsOutcome};
use balancebridge::gate::GateState;

#[test]
fn fresh_gate_has_no_cooldown_and_free_slot() {
    let mut gate = GateState::new(5_000);
    assert!(gate.check_cooldown(5_000).is_ok());
    assert_eq!(gate.cooldown_until_ms, None);
    assert!(!gate.busy);
}

#[test]
fn cooldown_blocks_until_deadline_then_clears() {
    let mut gate = GateState::new(0);
    gate.set_cooldown(1_000, 10);
    // still pending: fails fast with the exact remaining wait
    match gate.check_cooldown(3_500) {
        Err(remaining) => assert_eq!(remaining, 7_500),
        Ok(()) => panic!("cooldown should still be pending"),
    }
    assert_eq!(gate.cooldown_until_ms, Some(11_000));
    // at the deadline: passes and clears lazily
    assert!(gate.check_cooldown(11_000).is_ok());
    assert_eq!(gate.cooldown_until_ms, None);
}

#[test]
fn spacing_enforces_minimum_interval() {
    let mut gate = GateState::new(1_000);
    assert_eq!(gate.spacing_delay(1_040), 60);
    assert_eq!(gate.spacing_delay(1_100), 0);
    assert_eq!(gate.spacing_delay(2_000), 0);
    gate.record_call(2_000);
    assert_eq!(gate.spacing_delay(2_001), 99);
}

#[test]
fn admission_slot_admits_at_most_one() {
    let mut gate = GateState::new(0);
    assert!(gate.try_admit());
    assert!(!gate.try_admit());
    assert!(!gate.try_admit());
    gate.release();
    assert!(gate.try_admit());
}

#[test]
fn first_timeout_sets_short_cooldown_and_retries() {
    let mut gate = GateState::new(0);
    let verdict = balance_attempt_verdict(&mut gate, Attempt::First, AttemptOutcome::TimedOut, 90_000);
    assert!(matches!(verdict, BalanceVerdict::RetryAfterCooldown));
    assert_eq!(gate.cooldown_until_ms, Some(100_000));
}

#[test]
fn second_timeout_sets_long_cooldown_and_fails() {
    let mut gate = GateState::new(0);
    let _ = balance_attempt_verdict(&mut gate, Attempt::First, AttemptOutcome::TimedOut, 90_000);
    let verdict = balance_attempt_verdict(&mut gate, Attempt::Retry, AttemptOutcome::TimedOut, 180_000);
    match verdict {
        BalanceVerdict::Done(Err(LookupError::Timeout)) => {}
        _ => panic!("retry timeout must fail with a timeout error"),
    }
    assert_eq!(gate.cooldown_until_ms, Some(200_000));
}

#[test]
fn timed_out_backend_then_immediate_call_fails_fast() {
    // a backend that always times out: the first attempt fails after the
    // simulated 90 s and sets a 10 s cooldown
    let mut gate = GateState::new(0);
    assert!(gate.check_cooldown(0).is_ok());
    assert!(gate.try_admit());
    assert!(gate.check_cooldown(0).is_ok());
    let verdict = balance_attempt_verdict(&mut gate, Attempt::First, AttemptOutcome::TimedOut, 90_000);
    assert!(matches!(verdict, BalanceVerdict::RetryAfterCooldown));
    assert_eq!(gate.cooldown_until_ms, Some(100_000));
    gate.release();
    // a second call issued 1 s later is rejected with the remaining wait and
    // triggers no backend interaction
    let mut physical_calls = 0;
    match gate.check_cooldown(91_000) {
        Err(remaining) => assert_eq!(remaining, 9_000),
        Ok(()) => physical_calls += 1,
    }
    assert_eq!(physical_calls, 0);
    // a call issued after the deadline proceeds normally
    assert!(gate.check_cooldown(100_001).is_ok());
    assert_eq!(gate.cooldown_until_ms, None);
}

#[test]
fn completed_attempt_passes_result_through() {
    let mut gate = GateState::new(0);
    let b = balancebridge::backend::Balance { confirmed: 7, unconfirmed: 3 };
    let verdict = balance_attempt_verdict(
        &mut gate,
        Attempt::First,
        AttemptOutcome::Completed(Ok(b)),
        50,
    );
    match verdict {
        BalanceVerdict::Done(Ok(got)) => assert_eq!(got, b),
        _ => panic!("completed attempt must deliver its balance"),
    }
    assert_eq!(gate.cooldown_until_ms, None);
}

#[test]
fn backend_error_is_surfaced_without_cooldown() {
    let mut gate = GateState::new(0);
    let verdict = balance_attempt_verdict(
        &mut gate,
        Attempt::First,
        AttemptOutcome::Completed(Err("server busy".to_string())),
        50,
    );
    match verdict {
        BalanceVerdict::Done(Err(LookupError::Rpc(msg))) => assert_eq!(msg, "server busy"),
        _ => panic!("backend error must surface verbatim"),
    }
    assert_eq!(gate.cooldown_until_ms, None);
}

#[test]
fn txs_timeout_sets_short_cooldown() {
    let mut gate = GateState::new(0);
    let r = txs_attempt_verdict(&mut gate, TxsOutcome::TimedOut, 45_000);
    assert!(matches!(r, Err(LookupError::Timeout)));
    assert_eq!(gate.cooldown_until_ms, Some(55_000));
}

#[test]
fn txs_completed_passes_ids_through() {
    let mut gate = GateState::new(0);
    let ids = vec!["t1".to_string(), "t2".to_string()];
    let r = txs_attempt_verdict(&mut gate, TxsOutcome::Completed(Ok(ids.clone())), 10);
    assert_eq!(r.unwrap(), ids);
}

#[test]
fn cooldown_saturates_at_the_top_of_the_clock() {
    let mut gate = GateState::new(0);
    gate.set_cooldown(u64::MAX - 10, u64::MAX);
    assert_eq!(gate.cooldown_until_ms, Some(u64::MAX));
}
