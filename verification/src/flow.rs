//! The lookup protocols as explicit state machines, one value per in-flight
//! call. The shell owns only the clock, the semaphore wait, and the physical
//! RPC attempt; every transition — fail fast under cooldown, re-check after
//! admission, retry once after a first balance timeout, escalate cooldowns —
//! is verified here, and testable without a live backend.

use vstd::prelude::*;

use crate::backend::{
    balance_attempt_verdict, txs_attempt_verdict, Attempt, AttemptOutcome, Balance,
    BalanceVerdict, LookupError, TxsOutcome, BALANCE_ATTEMPT_TIMEOUT_SECS,
    FIRST_TIMEOUT_COOLDOWN_SECS, SECOND_TIMEOUT_COOLDOWN_SECS, TXS_ATTEMPT_TIMEOUT_SECS,
};
use crate::gate::{after_cooldown_check, cooldown_deadline, cooling_remaining, GateState};

verus! {

/// Where a balance lookup stands.
#[derive(Clone, Copy, Debug, PartialEq, Eq, Structural)]
pub enum BalancePhase {
    /// Pre-check passed; the shell is waiting for the admission slot.
    AwaitingAdmission,
    /// Admitted; the first attempt is running.
    FirstAttempt,
    /// The first attempt timed out; the single retry is running.
    RetryAttempt,
    /// The lookup is over.
    Finished,
}

/// What the shell must do next for a balance lookup.
#[derive(Debug)]
pub enum BalanceAction {
    /// Suspend until the capacity-one admission slot is free, then report
    /// admission.
    AwaitAdmission,
    /// Run one whole RPC sequence under this deadline, then report how it
    /// ended.
    RunAttempt { deadline_secs: u64 },
    /// Deliver this result (and release the slot if it was held). No
    /// physical call accompanies a failure delivered here.
    Finish(Result<Balance, LookupError>),
}

/// One balance lookup in flight.
#[derive(Debug)]
pub struct BalanceFlow {
    pub phase: BalancePhase,
}

impl BalanceFlow {
    /// Open a balance lookup: fail fast with the remaining wait while a
    /// cooldown is pending — issuing no physical call — else wait for
    /// admission.
    pub fn start(gate: &mut GateState, now_ms: u64) -> (r: (BalanceFlow, BalanceAction))
        ensures
            *final(gate) == after_cooldown_check(*old(gate), now_ms),
            match cooling_remaining(*old(gate), now_ms) {
                Some(rem) => r.0.phase is Finished && (r.1 matches BalanceAction::Finish(
                    Err(LookupError::Cooling { remaining_ms }),
                ) && remaining_ms == rem),
                None => r.0.phase is AwaitingAdmission && r.1 is AwaitAdmission,
            },
    {
        match gate.check_cooldown(now_ms) {
            Err(remaining_ms) => (
                BalanceFlow { phase: BalancePhase::Finished },
                BalanceAction::Finish(Err(LookupError::Cooling { remaining_ms })),
            ),
            Ok(()) => (
                BalanceFlow { phase: BalancePhase::AwaitingAdmission },
                BalanceAction::AwaitAdmission,
            ),
        }
    }

    /// The admission slot is held: re-check the cooldown (another waiter may
    /// have just set one) and start the first attempt under its deadline.
    pub fn on_admitted(&mut self, gate: &mut GateState, now_ms: u64) -> (r: BalanceAction)
        requires
            old(self).phase is AwaitingAdmission,
        ensures
            *final(gate) == after_cooldown_check(*old(gate), now_ms),
            match cooling_remaining(*old(gate), now_ms) {
                Some(rem) => final(self).phase is Finished && (r matches BalanceAction::Finish(
                    Err(LookupError::Cooling { remaining_ms }),
                ) && remaining_ms == rem),
                None => final(self).phase is FirstAttempt && (r
                    matches BalanceAction::RunAttempt { deadline_secs } && deadline_secs
                    == BALANCE_ATTEMPT_TIMEOUT_SECS),
            },
    {
        match gate.check_cooldown(now_ms) {
            Err(remaining_ms) => {
                self.phase = BalancePhase::Finished;
                BalanceAction::Finish(Err(LookupError::Cooling { remaining_ms }))
            },
            Ok(()) => {
                self.phase = BalancePhase::FirstAttempt;
                BalanceAction::RunAttempt { deadline_secs: BALANCE_ATTEMPT_TIMEOUT_SECS }
            },
        }
    }

    /// Fold one attempt's outcome in: a completed attempt finishes the
    /// lookup with its result; a first timeout sets the short cooldown and
    /// runs the single retry; a second timeout sets the long cooldown and
    /// fails with a timeout.
    pub fn on_attempt_outcome(
        &mut self,
        gate: &mut GateState,
        outcome: AttemptOutcome,
        now_ms: u64,
    ) -> (r: BalanceAction)
        requires
            old(self).phase is FirstAttempt || old(self).phase is RetryAttempt,
        ensures
            match outcome {
                AttemptOutcome::Completed(res) => {
                    &&& *final(gate) == *old(gate)
                    &&& final(self).phase is Finished
                    &&& match res {
                        Ok(b) => r matches BalanceAction::Finish(Ok(b2)) && b2 == b,
                        Err(m) => r matches BalanceAction::Finish(
                            Err(LookupError::Rpc(m2)),
                        ) && m2@ == m@,
                    }
                },
                AttemptOutcome::TimedOut => {
                    &&& final(gate).last_call_ms == old(gate).last_call_ms
                    &&& final(gate).busy == old(gate).busy
                    &&& if old(self).phase is FirstAttempt {
                        &&& final(gate).cooldown_until_ms == Some(
                            cooldown_deadline(now_ms, FIRST_TIMEOUT_COOLDOWN_SECS),
                        )
                        &&& final(self).phase is RetryAttempt
                        &&& (r matches BalanceAction::RunAttempt { deadline_secs }
                            && deadline_secs == BALANCE_ATTEMPT_TIMEOUT_SECS)
                    } else {
                        &&& final(gate).cooldown_until_ms == Some(
                            cooldown_deadline(now_ms, SECOND_TIMEOUT_COOLDOWN_SECS),
                        )
                        &&& final(self).phase is Finished
                        &&& r matches BalanceAction::Finish(Err(LookupError::Timeout))
                    }
                },
            },
    {
        let attempt = match self.phase {
            BalancePhase::FirstAttempt => Attempt::First,
            _ => Attempt::Retry,
        };
        match balance_attempt_verdict(gate, attempt, outcome, now_ms) {
            BalanceVerdict::Done(result) => {
                self.phase = BalancePhase::Finished;
                BalanceAction::Finish(result)
            },
            BalanceVerdict::RetryAfterCooldown => {
                self.phase = BalancePhase::RetryAttempt;
                BalanceAction::RunAttempt { deadline_secs: BALANCE_ATTEMPT_TIMEOUT_SECS }
            },
        }
    }
}

/// What the shell must do next for a transaction-history lookup.
#[derive(Debug)]
pub enum TxsAction {
    /// Suspend until the admission slot is free, then report admission.
    AwaitAdmission,
    /// Run the single RPC sequence under this deadline.
    RunAttempt { deadline_secs: u64 },
    /// Deliver this result. No physical call accompanies a failure here.
    Finish(Result<Vec<String>, LookupError>),
}

/// Where a history lookup stands.
#[derive(Clone, Copy, Debug, PartialEq, Eq, Structural)]
pub enum TxsPhase {
    AwaitingAdmission,
    Attempt,
    Finished,
}

/// One transaction-history lookup in flight: the same admission and cooldown
/// protocol, a single 45-second attempt, no fast path and no retry.
#[derive(Debug)]
pub struct TxsFlow {
    pub phase: TxsPhase,
}

impl TxsFlow {
    /// Open a history lookup: fail fast under a pending cooldown, else wait
    /// for admission.
    pub fn start(gate: &mut GateState, now_ms: u64) -> (r: (TxsFlow, TxsAction))
        ensures
            *final(gate) == after_cooldown_check(*old(gate), now_ms),
            match cooling_remaining(*old(gate), now_ms) {
                Some(rem) => r.0.phase is Finished && (r.1 matches TxsAction::Finish(
                    Err(LookupError::Cooling { remaining_ms }),
                ) && remaining_ms == rem),
                None => r.0.phase is AwaitingAdmission && r.1 is AwaitAdmission,
            },
    {
        match gate.check_cooldown(now_ms) {
            Err(remaining_ms) => (
                TxsFlow { phase: TxsPhase::Finished },
                TxsAction::Finish(Err(LookupError::Cooling { remaining_ms })),
            ),
            Ok(()) => (TxsFlow { phase: TxsPhase::AwaitingAdmission }, TxsAction::AwaitAdmission),
        }
    }

    /// The admission slot is held: re-check the cooldown and run the single
    /// attempt.
    pub fn on_admitted(&mut self, gate: &mut GateState, now_ms: u64) -> (r: TxsAction)
        requires
            old(self).phase is AwaitingAdmission,
        ensures
            *final(gate) == after_cooldown_check(*old(gate), now_ms),
            match cooling_remaining(*old(gate), now_ms) {
                Some(rem) => final(self).phase is Finished && (r matches TxsAction::Finish(
                    Err(LookupError::Cooling { remaining_ms }),
                ) && remaining_ms == rem),
                None => final(self).phase is Attempt && (r
                    matches TxsAction::RunAttempt { deadline_secs } && deadline_secs
                    == TXS_ATTEMPT_TIMEOUT_SECS),
            },
    {
        match gate.check_cooldown(now_ms) {
            Err(remaining_ms) => {
                self.phase = TxsPhase::Finished;
                TxsAction::Finish(Err(LookupError::Cooling { remaining_ms }))
            },
            Ok(()) => {
                self.phase = TxsPhase::Attempt;
                TxsAction::RunAttempt { deadline_secs: TXS_ATTEMPT_TIMEOUT_SECS }
            },
        }
    }

    /// Fold the single attempt's outcome in: pass a completed result
    /// through, or set the short cooldown and fail on a timeout.
    pub fn on_attempt_outcome(
        &mut self,
        gate: &mut GateState,
        outcome: TxsOutcome,
        now_ms: u64,
    ) -> (r: TxsAction)
        requires
            old(self).phase is Attempt,
        ensures
            final(self).phase is Finished,
            match outcome {
                TxsOutcome::Completed(res) => {
                    &&& *final(gate) == *old(gate)
                    &&& match res {
                        Ok(v) => r matches TxsAction::Finish(Ok(v2)) && v2@ == v@,
                        Err(m) => r matches TxsAction::Finish(Err(LookupError::Rpc(m2))) && m2@
                            == m@,
                    }
                },
                TxsOutcome::TimedOut => {
                    &&& final(gate).last_call_ms == old(gate).last_call_ms
                    &&& final(gate).busy == old(gate).busy
                    &&& final(gate).cooldown_until_ms == Some(
                        cooldown_deadline(now_ms, FIRST_TIMEOUT_COOLDOWN_SECS),
                    )
                    &&& r matches TxsAction::Finish(Err(LookupError::Timeout))
                },
            },
    {
        self.phase = TxsPhase::Finished;
        TxsAction::Finish(txs_attempt_verdict(gate, outcome, now_ms))
    }
}

} // verus!
