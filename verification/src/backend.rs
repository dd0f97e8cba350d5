//! The backend RPC protocol: what a lookup does with the shared gate and with
//! each attempt's outcome. A balance lookup runs under a 90-second deadline
//! with one retry after a first timeout (10-second cooldown), and a 20-second
//! cooldown plus a timeout error after a second one. A history lookup runs
//! under a single 45-second deadline with a 10-second cooldown on timeout.
//!
//! The physical calls themselves (and the clock, the timer and the admission
//! wait) live in the unverified shell; it feeds the outcomes back into the
//! verdict functions here, so every decision of the protocol is verified.

use vstd::prelude::*;

use crate::gate::{cooldown_deadline, GateState};

verus! {

/// Deadline for each balance attempt, in seconds.
pub const BALANCE_ATTEMPT_TIMEOUT_SECS: u64 = 90;

/// Deadline for the single transaction-history attempt, in seconds.
pub const TXS_ATTEMPT_TIMEOUT_SECS: u64 = 45;

/// Cooldown set after a first balance timeout and after a history timeout.
pub const FIRST_TIMEOUT_COOLDOWN_SECS: u64 = 10;

/// Cooldown set after the retry also times out.
pub const SECOND_TIMEOUT_COOLDOWN_SECS: u64 = 20;

/// A balance in satoshis, split by confirmation state. Never negative;
/// aggregation saturates instead of overflowing.
#[derive(Clone, Copy, Debug, PartialEq, Eq, Structural)]
pub struct Balance {
    pub confirmed: u64,
    pub unconfirmed: u64,
}

/// One unspent output as the backend reports it: a value in satoshis and the
/// height it confirmed at, with height zero meaning still unconfirmed.
#[derive(Clone, Copy, Debug, PartialEq, Eq, Structural)]
pub struct Utxo {
    pub value: u64,
    pub height: u64,
}

/// Why a lookup failed.
#[derive(Debug)]
pub enum LookupError {
    /// The query is neither a recognized address nor an extended key.
    InvalidQuery,
    /// A prior timeout set a cooldown that is still in effect; no physical
    /// call was attempted.
    Cooling { remaining_ms: u64 },
    /// A backend RPC sequence exceeded its deadline (for a balance lookup:
    /// both the first attempt and the retry).
    Timeout,
    /// The backend answered with a protocol-level error, surfaced verbatim.
    Rpc(String),
    /// The extended key could not be parsed.
    Derivation,
}

impl LookupError {
    /// Short wire code for this error, used in the response payload.
    pub fn code(&self) -> (r: String)
        ensures
            match self {
                LookupError::InvalidQuery => r@ == "invalid_query"@,
                LookupError::Cooling { .. } => r@ == "backend_cooling"@,
                LookupError::Timeout => r@ == "backend_timeout"@,
                LookupError::Rpc(m) => r@ == m@,
                LookupError::Derivation => r@ == "derivation_failed"@,
            },
    {
        match self {
            LookupError::InvalidQuery => String::from_str("invalid_query"),
            LookupError::Cooling { .. } => String::from_str("backend_cooling"),
            LookupError::Timeout => String::from_str("backend_timeout"),
            LookupError::Rpc(m) => m.clone(),
            LookupError::Derivation => String::from_str("derivation_failed"),
        }
    }
}

/// What to do once the receiving script's history is known.
#[derive(Clone, Copy, Debug, PartialEq, Eq, Structural)]
pub enum HistoryDecision {
    /// The address was never used: answer zero immediately, and never issue
    /// the more expensive unspent-output call.
    Finish(Balance),
    /// The address has history: fetch its unspent outputs next.
    FetchUtxos,
}

/// Fast-path decision of a balance attempt: an empty history answers `(0,0)`
/// without any further physical call; anything else asks for the UTXO list.
pub fn history_decision(history: &Vec<String>) -> (r: HistoryDecision)
    ensures
        history@.len() == 0 ==> r == HistoryDecision::Finish(
            Balance { confirmed: 0, unconfirmed: 0 },
        ),
        history@.len() > 0 ==> r == HistoryDecision::FetchUtxos,
{
    if history.len() == 0 {
        HistoryDecision::Finish(Balance { confirmed: 0, unconfirmed: 0 })
    } else {
        HistoryDecision::FetchUtxos
    }
}

/// `u64` addition that saturates at the maximum instead of overflowing.
pub open spec fn sat_add64(a: u64, b: u64) -> u64 {
    if a + b > u64::MAX {
        u64::MAX
    } else {
        (a + b) as u64
    }
}

/// Saturating sum of the confirmed outputs (height strictly positive).
pub open spec fn spec_confirmed_sum(s: Seq<Utxo>) -> u64
    decreases s.len(),
{
    if s.len() == 0 {
        0u64
    } else {
        sat_add64(
            spec_confirmed_sum(s.drop_last()),
            if s.last().height > 0 {
                s.last().value
            } else {
                0u64
            },
        )
    }
}

/// Saturating sum of the unconfirmed outputs (height zero).
pub open spec fn spec_unconfirmed_sum(s: Seq<Utxo>) -> u64
    decreases s.len(),
{
    if s.len() == 0 {
        0u64
    } else {
        sat_add64(
            spec_unconfirmed_sum(s.drop_last()),
            if s.last().height == 0 {
                s.last().value
            } else {
                0u64
            },
        )
    }
}

/// Exact (unbounded) sum of all output values, for stating when the
/// saturating sums are exact.
pub open spec fn spec_total_sum(s: Seq<Utxo>) -> int
    decreases s.len(),
{
    if s.len() == 0 {
        0
    } else {
        spec_total_sum(s.drop_last()) + s.last().value
    }
}

/// Sum a UTXO set into a balance, partitioning strictly by `height > 0` and
/// saturating on overflow.
pub fn sum_utxos(utxos: &Vec<Utxo>) -> (r: Balance)
    ensures
        r.confirmed == spec_confirmed_sum(utxos@),
        r.unconfirmed == spec_unconfirmed_sum(utxos@),
{
    let mut confirmed: u64 = 0;
    let mut unconfirmed: u64 = 0;
    let mut i: usize = 0;
    while i < utxos.len()
        invariant
            i <= utxos@.len(),
            confirmed == spec_confirmed_sum(utxos@.subrange(0, i as int)),
            unconfirmed == spec_unconfirmed_sum(utxos@.subrange(0, i as int)),
        decreases utxos@.len() - i,
    {
        let u = utxos[i];
        proof {
            assert(utxos@.subrange(0, i + 1).drop_last() =~= utxos@.subrange(0, i as int));
            assert(utxos@.subrange(0, i + 1).last() == utxos@[i as int]);
        }
        if u.height > 0 {
            confirmed = confirmed.saturating_add(u.value);
        } else {
            unconfirmed = unconfirmed.saturating_add(u.value);
        }
        i = i + 1;
    }
    proof {
        assert(utxos@.subrange(0, utxos@.len() as int) =~= utxos@);
    }
    Balance { confirmed, unconfirmed }
}

/// The total sum never shrinks as outputs are appended, so a bounded total
/// bounds every prefix.
proof fn lemma_total_sum_nonneg(s: Seq<Utxo>)
    ensures
        spec_total_sum(s) >= 0,
    decreases s.len(),
{
    if s.len() > 0 {
        lemma_total_sum_nonneg(s.drop_last());
    }
}

/// Partition law: while the total value fits in `u64`, the confirmed and
/// unconfirmed sums are exact and together equal the total, partitioned
/// strictly by `height > 0`.
pub proof fn lemma_sums_partition(s: Seq<Utxo>)
    requires
        spec_total_sum(s) <= u64::MAX,
    ensures
        spec_confirmed_sum(s) + spec_unconfirmed_sum(s) == spec_total_sum(s),
    decreases s.len(),
{
    if s.len() > 0 {
        lemma_total_sum_nonneg(s.drop_last());
        lemma_sums_partition(s.drop_last());
    }
}

/// Which attempt of the balance protocol just ran.
#[derive(Clone, Copy, Debug, PartialEq, Eq, Structural)]
pub enum Attempt {
    First,
    Retry,
}

/// How one attempt (a full RPC sequence under its deadline) ended, as the
/// shell observed it.
#[derive(Debug)]
pub enum AttemptOutcome {
    /// The sequence finished before the deadline, successfully or not.
    Completed(Result<Balance, String>),
    /// The deadline elapsed first.
    TimedOut,
}

/// What the balance protocol does after an attempt.
#[derive(Debug)]
pub enum BalanceVerdict {
    /// The lookup is over, one way or the other.
    Done(Result<Balance, LookupError>),
    /// The first attempt timed out: a cooldown is now set and the whole
    /// sequence runs once more under a fresh deadline.
    RetryAfterCooldown,
}

/// Decide what follows one balance attempt. A completed attempt ends the
/// lookup with its result; a first timeout sets the short cooldown and asks
/// for the single retry; a second timeout sets the long cooldown and fails.
/// Non-timeout backend errors are surfaced verbatim, without retry or
/// cooldown.
pub fn balance_attempt_verdict(
    gate: &mut GateState,
    attempt: Attempt,
    outcome: AttemptOutcome,
    now_ms: u64,
) -> (r: BalanceVerdict)
    ensures
        match outcome {
            AttemptOutcome::Completed(res) => {
                &&& *final(gate) == *old(gate)
                &&& match res {
                    Ok(b) => r matches BalanceVerdict::Done(Ok(b2)) && b2 == b,
                    Err(m) => r matches BalanceVerdict::Done(
                        Err(LookupError::Rpc(m2)),
                    ) && m2@ == m@,
                }
            },
            AttemptOutcome::TimedOut => {
                &&& final(gate).last_call_ms == old(gate).last_call_ms
                &&& final(gate).busy == old(gate).busy
                &&& match attempt {
                    Attempt::First => {
                        &&& final(gate).cooldown_until_ms == Some(
                            cooldown_deadline(now_ms, FIRST_TIMEOUT_COOLDOWN_SECS),
                        )
                        &&& r is RetryAfterCooldown
                    },
                    Attempt::Retry => {
                        &&& final(gate).cooldown_until_ms == Some(
                            cooldown_deadline(now_ms, SECOND_TIMEOUT_COOLDOWN_SECS),
                        )
                        &&& r matches BalanceVerdict::Done(Err(LookupError::Timeout))
                    },
                }
            },
        },
{
    match outcome {
        AttemptOutcome::Completed(res) => match res {
            Ok(b) => BalanceVerdict::Done(Ok(b)),
            Err(m) => BalanceVerdict::Done(Err(LookupError::Rpc(m))),
        },
        AttemptOutcome::TimedOut => match attempt {
            Attempt::First => {
                gate.set_cooldown(now_ms, FIRST_TIMEOUT_COOLDOWN_SECS);
                BalanceVerdict::RetryAfterCooldown
            },
            Attempt::Retry => {
                gate.set_cooldown(now_ms, SECOND_TIMEOUT_COOLDOWN_SECS);
                BalanceVerdict::Done(Err(LookupError::Timeout))
            },
        },
    }
}

/// How the single history attempt ended.
#[derive(Debug)]
pub enum TxsOutcome {
    Completed(Result<Vec<String>, String>),
    TimedOut,
}

/// Decide the result of a transaction-history lookup from its single
/// attempt: no fast path, no retry; a timeout sets the short cooldown.
pub fn txs_attempt_verdict(
    gate: &mut GateState,
    outcome: TxsOutcome,
    now_ms: u64,
) -> (r: Result<Vec<String>, LookupError>)
    ensures
        match outcome {
            TxsOutcome::Completed(res) => {
                &&& *final(gate) == *old(gate)
                &&& match res {
                    Ok(v) => r matches Ok(v2) && v2@ == v@,
                    Err(m) => r matches Err(LookupError::Rpc(m2)) && m2@ == m@,
                }
            },
            TxsOutcome::TimedOut => {
                &&& final(gate).last_call_ms == old(gate).last_call_ms
                &&& final(gate).busy == old(gate).busy
                &&& final(gate).cooldown_until_ms == Some(
                    cooldown_deadline(now_ms, FIRST_TIMEOUT_COOLDOWN_SECS),
                )
                &&& r matches Err(LookupError::Timeout)
            },
        },
{
    match outcome {
        TxsOutcome::Completed(res) => match res {
            Ok(v) => Ok(v),
            Err(m) => Err(LookupError::Rpc(m)),
        },
        TxsOutcome::TimedOut => {
            gate.set_cooldown(now_ms, FIRST_TIMEOUT_COOLDOWN_SECS);
            Err(LookupError::Timeout)
        },
    }
}

} // verus!
