//! Shared backend-access state: a soft rate limiter (minimum spacing between
//! physical calls), a cooldown deadline set after backend timeouts, and a
//! capacity-one admission slot that serializes backend RPC sequences.
//!
//! Time never flows through this module on its own: every operation takes the
//! current time as a millisecond count, so the whole protocol is a pure state
//! machine that the unverified shell drives with a real clock.

use vstd::prelude::*;

verus! {

/// Minimum spacing between two physical backend calls, in milliseconds.
pub const MIN_CALL_SPACING_MS: u64 = 100;

/// Process-lifetime state shared by every lookup: the last physical call's
/// timestamp, the cooldown deadline (if one is pending), and whether the
/// single admission slot is held.
pub struct GateState {
    pub last_call_ms: u64,
    pub cooldown_until_ms: Option<u64>,
    pub busy: bool,
}

/// Milliseconds left of a pending cooldown at time `now_ms`, or `None` when
/// no cooldown blocks a call at that time.
pub open spec fn cooling_remaining(s: GateState, now_ms: u64) -> Option<u64> {
    match s.cooldown_until_ms {
        Some(until) => if now_ms < until {
            Some((until - now_ms) as u64)
        } else {
            None
        },
        None => None,
    }
}

/// The state after a cooldown check at `now_ms`: an expired deadline is
/// cleared lazily; a pending one, and everything else, is left alone.
pub open spec fn after_cooldown_check(s: GateState, now_ms: u64) -> GateState {
    match s.cooldown_until_ms {
        Some(until) => if now_ms < until {
            s
        } else {
            GateState { cooldown_until_ms: None, ..s }
        },
        None => s,
    }
}

/// The cooldown deadline set at `now_ms` for a duration in seconds,
/// saturating at the top of the clock.
pub open spec fn cooldown_deadline(now_ms: u64, secs: u64) -> u64 {
    if secs > u64::MAX as int / 1000 {
        u64::MAX
    } else if now_ms + secs * 1000 > u64::MAX {
        u64::MAX
    } else {
        (now_ms + secs * 1000) as u64
    }
}

/// How long a caller must still wait at `now_ms` before the next physical
/// call keeps the minimum spacing.
pub open spec fn spacing_delay_spec(s: GateState, now_ms: u64) -> u64 {
    let elapsed = if now_ms >= s.last_call_ms {
        (now_ms - s.last_call_ms) as u64
    } else {
        0u64
    };
    if elapsed < MIN_CALL_SPACING_MS {
        (MIN_CALL_SPACING_MS - elapsed) as u64
    } else {
        0u64
    }
}

/// One admission attempt: it succeeds exactly when the slot was free, and the
/// slot is held afterwards either way; nothing else changes.
pub open spec fn admit_step(pre: GateState, post: GateState, admitted: bool) -> bool {
    &&& admitted == !pre.busy
    &&& post.busy
    &&& post.last_call_ms == pre.last_call_ms
    &&& post.cooldown_until_ms == pre.cooldown_until_ms
}

impl GateState {
    /// Fresh state at startup: no cooldown, slot free, spacing measured from
    /// the startup instant.
    pub fn new(now_ms: u64) -> (r: GateState)
        ensures
            r.last_call_ms == now_ms,
            r.cooldown_until_ms is None,
            !r.busy,
    {
        GateState { last_call_ms: now_ms, cooldown_until_ms: None, busy: false }
    }

    /// Fail fast while a cooldown deadline lies in the future, reporting the
    /// remaining wait; clear an expired deadline and succeed otherwise.
    pub fn check_cooldown(&mut self, now_ms: u64) -> (r: Result<(), u64>)
        ensures
            *final(self) == after_cooldown_check(*old(self), now_ms),
            match cooling_remaining(*old(self), now_ms) {
                Some(rem) => r == Err::<(), u64>(rem),
                None => r == Ok::<(), u64>(()),
            },
    {
        match self.cooldown_until_ms {
            Some(until) => {
                if now_ms < until {
                    Err(until - now_ms)
                } else {
                    self.cooldown_until_ms = None;
                    Ok(())
                }
            },
            None => Ok(()),
        }
    }

    /// (Re)set the cooldown deadline to `now_ms` plus a duration in seconds;
    /// called exactly when a backend operation times out.
    pub fn set_cooldown(&mut self, now_ms: u64, secs: u64)
        ensures
            final(self).cooldown_until_ms == Some(cooldown_deadline(now_ms, secs)),
            final(self).last_call_ms == old(self).last_call_ms,
            final(self).busy == old(self).busy,
    {
        let ms: u64 = if secs > u64::MAX / 1000 {
            u64::MAX
        } else {
            secs * 1000
        };
        self.cooldown_until_ms = Some(now_ms.saturating_add(ms));
    }

    /// The wait still owed to the minimum inter-call spacing at `now_ms`.
    pub fn spacing_delay(&self, now_ms: u64) -> (r: u64)
        ensures
            r == spacing_delay_spec(*self, now_ms),
    {
        let elapsed: u64 = if now_ms >= self.last_call_ms {
            now_ms - self.last_call_ms
        } else {
            0
        };
        if elapsed < MIN_CALL_SPACING_MS {
            MIN_CALL_SPACING_MS - elapsed
        } else {
            0
        }
    }

    /// Record `now_ms` as the reference point for the next spacing check,
    /// right before a physical backend call is issued.
    pub fn record_call(&mut self, now_ms: u64)
        ensures
            final(self).last_call_ms == now_ms,
            final(self).cooldown_until_ms == old(self).cooldown_until_ms,
            final(self).busy == old(self).busy,
    {
        self.last_call_ms = now_ms;
    }

    /// Try to take the single admission slot. The shell awaits and retries
    /// while this returns `false`; a `true` admits exactly one RPC sequence.
    pub fn try_admit(&mut self) -> (admitted: bool)
        ensures
            admit_step(*old(self), *final(self), admitted),
    {
        let admitted = !self.busy;
        self.busy = true;
        admitted
    }

    /// Release the admission slot when the admitted RPC sequence is over.
    pub fn release(&mut self)
        ensures
            !final(self).busy,
            final(self).last_call_ms == old(self).last_call_ms,
            final(self).cooldown_until_ms == old(self).cooldown_until_ms,
    {
        self.busy = false;
    }
}

/// Spacing law: waiting out the demanded delay puts the next physical call
/// at least the minimum spacing after the previous one.
pub proof fn lemma_spacing_keeps_interval(s: GateState, now_ms: u64)
    requires
        now_ms >= s.last_call_ms,
    ensures
        now_ms + spacing_delay_spec(s, now_ms) >= s.last_call_ms + MIN_CALL_SPACING_MS,
{
}

/// Cooldown law, first half: any call issued strictly before the deadline set
/// by `set_cooldown` fails the cooldown check with the exact remaining wait.
pub proof fn lemma_cooldown_blocks(s: GateState, now_ms: u64, secs: u64, later_ms: u64)
    requires
        s.cooldown_until_ms == Some(cooldown_deadline(now_ms, secs)),
        later_ms < cooldown_deadline(now_ms, secs),
    ensures
        cooling_remaining(s, later_ms) == Some(
            (cooldown_deadline(now_ms, secs) - later_ms) as u64,
        ),
        after_cooldown_check(s, later_ms) == s,
{
}

/// Cooldown law, second half: a call issued at or after the deadline passes
/// the cooldown check, and the check resets the deadline.
pub proof fn lemma_cooldown_expires(s: GateState, now_ms: u64, secs: u64, later_ms: u64)
    requires
        s.cooldown_until_ms == Some(cooldown_deadline(now_ms, secs)),
        later_ms >= cooldown_deadline(now_ms, secs),
    ensures
        cooling_remaining(s, later_ms) is None,
        after_cooldown_check(s, later_ms).cooldown_until_ms is None,
{
}

/// Single-flight law: of two admission attempts with no release in between,
/// at most one succeeds, so at most one backend RPC sequence is ever in
/// flight at a time.
pub proof fn lemma_single_flight(
    s0: GateState,
    s1: GateState,
    first: bool,
    s2: GateState,
    second: bool,
)
    requires
        admit_step(s0, s1, first),
        admit_step(s1, s2, second),
    ensures
        !(first && second),
{
}

} // verus!
