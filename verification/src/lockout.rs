//! Locking the console's authentication after repeated failures: from the
//! third consecutive failure on, submissions are refused for a while
//! (ten seconds more per failure, at most a minute) without being checked.
use vstd::prelude::*;

use std::time::Instant;

use crate::auth::{opt_str_view, unit_result_view, AuthGate};
use crate::policy::{instant_now, millis_since};
use crate::text::{decimal, u64_to_decimal};

verus! {

broadcast use vstd::string::group_string_axioms;

/// How long authentication stays locked after `failures` consecutive failures
/// (three or more): `(failures - 2) * 10` seconds, computed in 32 bits as
/// the release build does, and at most 60.
pub open spec fn lock_secs(failures: u32) -> u64 {
    let w = ((failures - 2) * 10) % 0x1_0000_0000;
    if w < 60 {
        w as u64
    } else {
        60
    }
}

/// The message of a refusal while locked.
pub open spec fn locked_message(remaining_secs: u64) -> Seq<char> {
    "authentication locked: retry in "@ + decimal(remaining_secs as nat) + "s"@
}

/// The failures so far and the lock, as its length in milliseconds.
pub struct LockoutModel {
    pub failures: u32,
    pub lock_ms: Option<u64>,
}

/// One submission: while a lock of `lock_ms` has not run out
/// (`elapsed_ms` since it began is less) it is refused with the whole
/// seconds left (at least 1) and nothing else changes; otherwise the lock
/// is lifted and the authenticator's `answer` decides: a success resets
/// the count, a failure adds one (saturating) and from the third on sets
/// a new lock.
pub open spec fn spec_lockout_step(
    m: LockoutModel,
    answer: Result<(), Seq<char>>,
    elapsed_ms: u128,
) -> (LockoutModel, Result<(), Seq<char>>) {
    match m.lock_ms {
        Some(l) if elapsed_ms < l => {
            let rem = ((l - elapsed_ms) / 1000) as u64;
            (m, Err(locked_message(if rem >= 1 { rem } else { 1 })))
        },
        _ => match answer {
            Ok(()) => (LockoutModel { failures: 0, lock_ms: None }, Ok(())),
            Err(e) => {
                let f: u32 = if m.failures == u32::MAX { u32::MAX } else { (m.failures + 1) as u32 };
                (
                    LockoutModel {
                        failures: f,
                        lock_ms: if f >= 3 { Some((lock_secs(f) * 1000) as u64) } else { None },
                    },
                    Err(e),
                )
            },
        },
    }
}

/// The line above the token field: while a lock of `lock_ms` has not run
/// out (`elapsed_ms` since it began is at most that), the failures and the
/// whole seconds left (at least 1); otherwise the failures so far, if any.
pub open spec fn spec_status_line(m: LockoutModel, elapsed_ms: u128) -> Option<Seq<char>> {
    match m.lock_ms {
        Some(l) if elapsed_ms <= l => {
            let rem = ((l - elapsed_ms) / 1000) as u64;
            Some(
                "Auth lockout: "@ + decimal(m.failures as nat) + " failures, retry in "@ + decimal(
                    (if rem >= 1 {
                        rem
                    } else {
                        1
                    }) as nat,
                ) + "s"@,
            )
        },
        _ => if m.failures > 0 {
            Some("Auth failures: "@ + decimal(m.failures as nat) + " (lockout after 3)"@)
        } else {
            None
        },
    }
}

pub open spec fn opt_string_view(o: Option<String>) -> Option<Seq<char>> {
    match o {
        Some(s) => Some(s@),
        None => None,
    }
}

/// The failure count and lock of the console's authentication.
pub struct AuthLockout {
    failures: u32,
    locked: Option<(Instant, u64)>,
}

impl AuthLockout {
    pub closed spec fn model(&self) -> LockoutModel {
        LockoutModel {
            failures: self.failures,
            lock_ms: match self.locked {
                Some((_, ms)) => Some(ms),
                None => None,
            },
        }
    }

    /// When the current lock began.
    pub closed spec fn lock_start(&self) -> Option<Instant> {
        match self.locked {
            Some((t, _)) => Some(t),
            None => None,
        }
    }

    /// No failure yet.
    pub fn new() -> (r: AuthLockout)
        ensures
            r.model() == (LockoutModel { failures: 0, lock_ms: None }),
    {
        AuthLockout { failures: 0, locked: None }
    }

    /// Checks a submission at `now_secs` (Unix time), `elapsed_ms` after
    /// the current lock began (ignored without a lock); a new lock begins
    /// at `now`.
    pub fn verify_at(
        &mut self,
        authn: &AuthGate,
        submitted: Option<&str>,
        now_secs: u64,
        elapsed_ms: u128,
        now: Instant,
    ) -> (r: Result<(), String>)
        ensures
            (final(self).model(), unit_result_view(r)) == spec_lockout_step(
                old(self).model(),
                authn.answer(opt_str_view(submitted), now_secs),
                elapsed_ms,
            ),
            final(self).model().lock_ms is Some && !(old(self).model().lock_ms matches Some(l)
                && elapsed_ms < l) ==> final(self).lock_start() == Some(now),
    {
        if let Some((_, lock_ms)) = self.locked {
            if elapsed_ms < lock_ms as u128 {
                let rem = ((lock_ms as u128 - elapsed_ms) / 1000) as u64;
                let secs = if rem >= 1 {
                    rem
                } else {
                    1
                };
                let mut m = "authentication locked: retry in ".to_owned();
                let d = u64_to_decimal(secs);
                m.append(d.as_str());
                m.append("s");
                return Err(m);
            }
            self.locked = None;
        }
        match authn.verify_submission_at(submitted, now_secs) {
            Ok(()) => {
                self.failures = 0;
                Ok(())
            },
            Err(e) => {
                self.failures = self.failures.saturating_add(1);
                if self.failures >= 3 {
                    let w = (self.failures - 2).wrapping_mul(10);
                    let secs: u64 = if w < 60 {
                        w as u64
                    } else {
                        60
                    };
                    self.locked = Some((now, secs * 1000));
                }
                Err(e)
            },
        }
    }

    /// The status line, `elapsed_ms` after the current lock began.
    pub fn status_line_at(&self, elapsed_ms: u128) -> (r: Option<String>)
        ensures
            opt_string_view(r) == spec_status_line(self.model(), elapsed_ms),
    {
        if let Some((_, lock_ms)) = self.locked {
            if elapsed_ms <= lock_ms as u128 {
                let rem = ((lock_ms as u128 - elapsed_ms) / 1000) as u64;
                let secs = if rem >= 1 {
                    rem
                } else {
                    1
                };
                let mut m = "Auth lockout: ".to_owned();
                let f = u64_to_decimal(self.failures as u64);
                m.append(f.as_str());
                m.append(" failures, retry in ");
                let d = u64_to_decimal(secs);
                m.append(d.as_str());
                m.append("s");
                return Some(m);
            }
        }
        if self.failures > 0 {
            let mut m = "Auth failures: ".to_owned();
            let f = u64_to_decimal(self.failures as u64);
            m.append(f.as_str());
            m.append(" (lockout after 3)");
            Some(m)
        } else {
            None
        }
    }

    /// The status line now.
    pub fn status_line(&self) -> (r: Option<String>)
        ensures
            exists|elapsed_ms: u128|
                opt_string_view(r) == #[trigger] spec_status_line(self.model(), elapsed_ms),
    {
        let elapsed = match &self.locked {
            Some((t, _)) => millis_since(t),
            None => 0,
        };
        self.status_line_at(elapsed)
    }

    /// Checks a submission now.
    pub fn verify(&mut self, authn: &AuthGate, submitted: Option<&str>) -> (r: Result<(), String>)
        ensures
            exists|now_secs: u64, elapsed_ms: u128|
                (final(self).model(), unit_result_view(r)) == #[trigger] spec_lockout_step(
                    old(self).model(),
                    authn.answer(opt_str_view(submitted), now_secs),
                    elapsed_ms,
                ),
    {
        let elapsed = match &self.locked {
            Some((t, _)) => millis_since(t),
            None => 0,
        };
        let now_secs = crate::audit::now_ts();
        let now = instant_now();
        self.verify_at(authn, submitted, now_secs, elapsed, now)
    }
}

/// A lock never lasts more than a minute, and while it lasts every
/// submission is refused without being checked and without changing the
/// count.
pub proof fn law_lockout_is_bounded(m: LockoutModel, answer: Result<(), Seq<char>>, elapsed_ms: u128)
    ensures
        spec_lockout_step(m, answer, elapsed_ms).0.lock_ms matches Some(l) ==> l <= 60000
            || spec_lockout_step(m, answer, elapsed_ms).0.lock_ms == m.lock_ms,
        (m.lock_ms matches Some(l) && elapsed_ms < l) ==> spec_lockout_step(m, answer, elapsed_ms).0
            == m && spec_lockout_step(m, answer, elapsed_ms).1 is Err,
{
}

/// The k-th consecutive failure (k at least 3) locks authentication for
/// min((k - 2) * 10, 60) seconds, 10 to 60 seconds in all, and the right
/// token is then refused, with the count unchanged, until the lock runs
/// out. This holds as long as the 32-bit lock arithmetic does not wrap,
/// that is up to 429496731 failures.
pub proof fn law_repeated_failures_lock(
    m: LockoutModel,
    e: Seq<char>,
    elapsed_ms: u128,
    later_ms: u128,
)
    requires
        2 <= m.failures <= 429496730,
        m.lock_ms matches Some(l) ==> elapsed_ms >= l,
    ensures
        ({
            let next = spec_lockout_step(m, Err(e), elapsed_ms).0;
            let k = m.failures + 1;
            &&& next.failures == k
            &&& next.lock_ms matches Some(l) && l == (if (k - 2) * 10 < 60 {
                (k - 2) * 10
            } else {
                60
            }) * 1000
            &&& next.lock_ms matches Some(l) && 10000 <= l <= 60000
            &&& (later_ms < next.lock_ms->0 ==> spec_lockout_step(next, Ok(()), later_ms) == (
                next,
                Err::<(), Seq<char>>(
                    locked_message(
                        if (next.lock_ms->0 - later_ms) / 1000 >= 1 {
                            ((next.lock_ms->0 - later_ms) / 1000) as u64
                        } else {
                            1
                        },
                    ),
                ),
            ))
        }),
{
}

/// A success outside a lock resets the count and lifts the lock.
pub proof fn law_success_resets(m: LockoutModel, elapsed_ms: u128)
    requires
        m.lock_ms matches Some(l) ==> elapsed_ms >= l,
    ensures
        spec_lockout_step(m, Ok(()), elapsed_ms) == (
            LockoutModel { failures: 0, lock_ms: None },
            Ok::<(), Seq<char>>(()),
        ),
{
}

} // verus!
