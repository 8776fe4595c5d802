//! The sleep timer, which stops playback after a while with a fade-out.

use vstd::prelude::*;
use crate::time::{clock_reading_millis, Duration, Timestamp};

verus! {

/// Sleep timer state
#[derive(Debug, Clone, Copy, PartialEq, Eq, Structural)]
pub enum SleepTimerState {
    Active,
    Paused,
    Expired,
}

/// Sleep timer with fade-out
#[derive(Debug, Clone, Copy)]
pub struct SleepTimer {
    pub duration: Duration,
    pub fade_duration: Duration,
    pub started_at: Timestamp,
    pub state: SleepTimerState,
}

/// The time left at instant `now`: the duration, cast to `i64` as `as`
/// casts it, less the time elapsed since the start; a difference beyond the
/// range of `i64` is clamped to it.
pub open spec fn remaining_at(t: SleepTimer, now: i64) -> i64 {
    let r = ((t.duration@ as i64) as int) - ((now as int) - (t.started_at@ as int));
    if r > i64::MAX {
        i64::MAX
    } else if r < i64::MIN {
        i64::MIN
    } else {
        r as i64
    }
}

pub open spec fn expired_at(t: SleepTimer, now: i64) -> bool {
    remaining_at(t, now) <= 0
}

/// The timer is fading at `now`: time is left, and no more than the fade
/// duration (cast to `i64` as `as` casts it).
pub open spec fn fading_at(t: SleepTimer, now: i64) -> bool {
    let r = remaining_at(t, now);
    r > 0 && r <= t.fade_duration@ as i64
}

impl SleepTimer {
    /// Creates a new active sleep timer, started now, with a ten second fade
    pub fn new(duration: Duration) -> (r: Self)
        ensures
            r.duration == duration,
            r.fade_duration@ == 10_000,
            r.state == SleepTimerState::Active,
    {
        SleepTimer {
            duration,
            fade_duration: Duration::from_seconds(10),
            started_at: Timestamp::now(),
            state: SleepTimerState::Active,
        }
    }

    /// Creates an active sleep timer, started now, with a custom fade duration
    pub fn with_fade(duration: Duration, fade_duration: Duration) -> (r: Self)
        ensures
            r.duration == duration,
            r.fade_duration == fade_duration,
            r.state == SleepTimerState::Active,
    {
        SleepTimer { duration, fade_duration, started_at: Timestamp::now(), state: SleepTimerState::Active }
    }

    /// The remaining time in milliseconds at the instant `now`
    pub fn remaining_millis_at(&self, now: Timestamp) -> (r: i64)
        ensures
            r == remaining_at(*self, now@),
    {
        let elapsed: i128 = now.as_millis() as i128 - self.started_at.as_millis() as i128;
        let duration: i64 = #[verifier::truncate] (self.duration.as_millis() as i64);
        let r: i128 = duration as i128 - elapsed;
        if r > i64::MAX as i128 {
            i64::MAX
        } else if r < i64::MIN as i128 {
            i64::MIN
        } else {
            r as i64
        }
    }

    /// Returns the remaining time in milliseconds, now: what `remaining_millis_at`
    /// gives for the clock's reading, whichever it is
    pub fn remaining_millis(&self) -> (r: i64)
        ensures
            exists|reading: Option<u128>| r == remaining_at(*self, clock_reading_millis(reading)),
    {
        let now = Timestamp::now();
        let r = self.remaining_millis_at(now);
        proof {
            let reading = choose|reading: Option<u128>| now@ == clock_reading_millis(reading);
            assert(r == remaining_at(*self, clock_reading_millis(reading)));
        }
        r
    }

    /// Whether the timer has expired at the instant `now`
    pub fn is_expired_at(&self, now: Timestamp) -> (r: bool)
        ensures
            r == expired_at(*self, now@),
    {
        self.remaining_millis_at(now) <= 0
    }

    /// Returns true if the timer has expired: what `is_expired_at` gives for
    /// the clock's reading, whichever it is
    pub fn is_expired(&self) -> (r: bool)
        ensures
            exists|reading: Option<u128>| r == expired_at(*self, clock_reading_millis(reading)),
    {
        let now = Timestamp::now();
        let r = self.is_expired_at(now);
        proof {
            let reading = choose|reading: Option<u128>| now@ == clock_reading_millis(reading);
            assert(r == expired_at(*self, clock_reading_millis(reading)));
        }
        r
    }

    /// Whether the timer is fading out at the instant `now`
    pub fn is_fading_at(&self, now: Timestamp) -> (r: bool)
        ensures
            r == fading_at(*self, now@),
    {
        let remaining = self.remaining_millis_at(now);
        let fade: i64 = #[verifier::truncate] (self.fade_duration.as_millis() as i64);
        remaining > 0 && remaining <= fade
    }

    /// Returns true if the timer is in fade-out phase: what `is_fading_at`
    /// gives for the clock's reading, whichever it is
    pub fn is_fading(&self) -> (r: bool)
        ensures
            exists|reading: Option<u128>| r == fading_at(*self, clock_reading_millis(reading)),
    {
        let now = Timestamp::now();
        let r = self.is_fading_at(now);
        proof {
            let reading = choose|reading: Option<u128>| now@ == clock_reading_millis(reading);
            assert(r == fading_at(*self, clock_reading_millis(reading)));
        }
        r
    }
}

/// A fading timer has not expired, and an expired one is not fading.
pub proof fn law_fading_excludes_expired(t: SleepTimer, now: i64)
    ensures
        fading_at(t, now) ==> !expired_at(t, now),
        expired_at(t, now) ==> !fading_at(t, now),
{
}

/// As time passes, the time left does not grow.
pub proof fn law_remaining_never_grows(t: SleepTimer, earlier: i64, later: i64)
    requires
        earlier <= later,
    ensures
        remaining_at(t, later) <= remaining_at(t, earlier),
{
}

} // verus!
