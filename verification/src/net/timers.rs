//! Countdown, stopwatch and randomized retry timers for the network stack.
//!
//! The current time is read from the hardware timer by the caller and passed in
//! as `now`, so every decision here is a function of its arguments.
use crate::hal_time::{TimeMs, TimeMsErr};
use vstd::prelude::*;

verus! {

/// Countdown tracks a one-shot countdown timer.
#[derive(Copy, Clone)]
pub struct Countdown {
    /// Expiration timestamp, None when the timer is not running
    pub done_time: Option<TimeMs>,
}

/// Status of a Countdown timer
#[derive(Copy, Clone, PartialEq, Eq, Structural, Debug)]
pub enum CountdownStatus {
    NotStarted,
    NotDone,
    Done,
}

impl Countdown {
    /// What `status` reports for this timer at time `now`.
    pub open spec fn status_at(&self, now: TimeMs) -> CountdownStatus {
        match self.done_time {
            Some(done) => if now.ms() >= done.ms() {
                CountdownStatus::Done
            } else {
                CountdownStatus::NotDone
            },
            None => CountdownStatus::NotStarted,
        }
    }

    /// Initialize a new countdown timer in halted state
    pub fn new() -> (r: Self)
        ensures
            r.done_time is None,
    {
        Self { done_time: None }
    }

    /// Start countdown timer with interval in ms
    pub fn start(&mut self, now: TimeMs, interval_ms: u32)
        ensures
            final(self).done_time == Some(now.add_ms_spec(interval_ms)),
    {
        self.done_time = Some(now.add_ms(interval_ms));
    }

    /// Start countdown timer with interval in seconds (backed by 40-bit hardware ms timer)
    pub fn start_s(&mut self, now: TimeMs, interval_s: u32)
        ensures
            final(self).done_time == Some(now.add_s_spec(interval_s)),
    {
        self.done_time = Some(now.add_s(interval_s));
    }

    /// Clear the timer
    pub fn clear(&mut self)
        ensures
            final(self).done_time is None,
    {
        self.done_time = None;
    }

    /// Return countdown timer status
    pub fn status(&self, now: TimeMs) -> (r: CountdownStatus)
        ensures
            r == self.status_at(now),
    {
        match self.done_time {
            Some(done_time) => if now.is_at_or_after(&done_time) {
                CountdownStatus::Done
            } else {
                CountdownStatus::NotDone
            },
            None => CountdownStatus::NotStarted,
        }
    }
}

/// Stopwatch tracks elapsed time relative to a starting timestamp.
#[derive(Copy, Clone)]
pub struct Stopwatch {
    /// Reference timestamp, None when the stopwatch is halted
    pub start_time: Option<TimeMs>,
}

/// Reasons a stopwatch reading is unavailable
#[derive(Copy, Clone, PartialEq, Eq, Structural, Debug)]
pub enum StopwatchErr {
    Overflow,
    Underflow,
    NotStarted,
}

/// Elapsed milliseconds from `start` to `now`, as `elapsed_ms` reports them.
pub open spec fn elapsed_ms_spec(start: Option<TimeMs>, now: TimeMs) -> Result<u32, StopwatchErr> {
    match start {
        None => Err(StopwatchErr::NotStarted),
        Some(t) => if now.ms() < t.ms() {
            Err(StopwatchErr::Underflow)
        } else if now.ms() - t.ms() > u32::MAX {
            Err(StopwatchErr::Overflow)
        } else {
            Ok((now.ms() - t.ms()) as u32)
        },
    }
}

/// Milliseconds rounded to the nearest second, with the +500 saturating at u32::MAX.
pub open spec fn round_ms_to_s(ms: u32) -> u32 {
    (if ms + 500 > u32::MAX { u32::MAX as int } else { ms + 500 }) as u32 / 1000
}

impl Stopwatch {
    /// Initialize a new stopwatch timer in halted state
    pub fn new() -> (r: Self)
        ensures
            r.start_time is None,
    {
        Self { start_time: None }
    }

    /// Start the timer by recording a reference timestamp.
    /// You can reset the timer by calling this again to start over at 0s.
    pub fn start(&mut self, now: TimeMs)
        ensures
            final(self).start_time == Some(now),
    {
        self.start_time = Some(now);
    }

    /// Reset timer to its newly initialized state (halted)
    pub fn reset(&mut self)
        ensures
            final(self).start_time is None,
    {
        self.start_time = None;
    }

    /// Return elapsed ms since stopwatch was started
    pub fn elapsed_ms(&self, now: TimeMs) -> (r: Result<u32, StopwatchErr>)
        ensures
            r == elapsed_ms_spec(self.start_time, now),
    {
        match self.start_time {
            Some(t) => match now.sub_u32(&t) {
                Ok(ms) => Ok(ms),
                Err(TimeMsErr::Underflow) => Err(StopwatchErr::Underflow),
                Err(TimeMsErr::Overflow) => Err(StopwatchErr::Overflow),
            },
            None => Err(StopwatchErr::NotStarted),
        }
    }

    /// Return elapsed seconds since stopwatch was started, rounded to the nearest second
    pub fn elapsed_s(&self, now: TimeMs) -> (r: Result<u32, StopwatchErr>)
        ensures
            r == (match elapsed_ms_spec(self.start_time, now) {
                Ok(ms) => Ok(round_ms_to_s(ms)),
                Err(e) => Err(e),
            }),
    {
        let ms = self.elapsed_ms(now)?;
        // Adding 500ms before the integer division is meant to act like a floating point
        // round(). Without the +500, the integer division would act like a floor().
        let seconds = ms.saturating_add(500) / 1000;
        Ok(seconds)
    }
}

/// Steps of the exponential backoff retry sequence
#[derive(Copy, Clone, PartialEq, Eq, Structural, Debug)]
pub enum Retry {
    R2s,
    R4s,
    R8s,
    R16s,
    RRenew,
    Halted,
}

/// Status of a RetryTimer
#[derive(Copy, Clone, PartialEq, Eq, Structural, Debug)]
pub enum RetryStatus {
    Halted,
    TimerRunning,
    TimerExpired,
}

/// RetryTimer helps track retry sequences with scheduler timestamps.
///
/// DHCP clients should use randomized exponential backoff for retries. This uses a
/// base of 2 seconds with the last attempt at 16 seconds, each delay extended by a
/// random 0..2048ms offset.
#[derive(Copy, Clone)]
pub struct RetryTimer {
    pub retry: Retry,
    pub time: Option<TimeMs>,
}

/// The random offset (0..2048 ms) drawn from `entropy` for a retry step.
pub open spec fn retry_offset(retry: Retry, entropy: u32) -> u32 {
    match retry {
        Retry::R2s => entropy % 2048,
        Retry::R4s => (entropy / 128) % 2048,
        Retry::R8s => (entropy / 16384) % 2048,
        Retry::R16s => (entropy / 2097152) % 2048,
        Retry::RRenew => entropy % 2048,
        Retry::Halted => 0,
    }
}

/// The timer that `new_random(retry, ms, entropy)` returns at time `now`.
pub open spec fn new_random_spec(retry: Retry, ms: u32, entropy: u32, now: TimeMs) -> RetryTimer {
    RetryTimer {
        retry,
        time: match retry {
            Retry::Halted => None,
            _ => Some(now.add_ms_spec((ms + retry_offset(retry, entropy)) as u32)),
        },
    }
}

/// The timer that `schedule_next` moves `t` to at time `now`.
pub open spec fn schedule_next_spec(t: RetryTimer, entropy: u32, now: TimeMs) -> RetryTimer {
    match next_retry(t.retry) {
        Some((r, ms)) => new_random_spec(r, ms, entropy, now),
        None => RetryTimer { retry: Retry::Halted, time: None },
    }
}

/// The retry step that follows `retry` in the backoff sequence (None ends it).
pub open spec fn next_retry(retry: Retry) -> Option<(Retry, u32)> {
    match retry {
        Retry::R2s => Some((Retry::R4s, 3000u32)),
        Retry::R4s => Some((Retry::R8s, 7000u32)),
        Retry::R8s => Some((Retry::R16s, 15000u32)),
        _ => None,
    }
}

impl RetryTimer {
    /// What `status` reports at time `now`.
    pub open spec fn status_at(&self, now: TimeMs) -> RetryStatus {
        match self.retry {
            Retry::Halted => RetryStatus::Halted,
            _ => match self.time {
                Some(t) => if now.ms() > t.ms() {
                    RetryStatus::TimerExpired
                } else {
                    RetryStatus::TimerRunning
                },
                None => RetryStatus::Halted,
            },
        }
    }

    /// Return a new halted timer
    pub fn new_halted() -> (r: Self)
        ensures
            r.retry == Retry::Halted,
            r.time is None,
    {
        Self { retry: Retry::Halted, time: None }
    }

    /// Return timer with randomized 0..2048ms offset added to the specified delay.
    fn new_random(retry: Retry, ms: u32, entropy: u32, now: TimeMs) -> (r: Self)
        requires
            ms <= 60000,
        ensures
            r == new_random_spec(retry, ms, entropy, now),
    {
        let offset: u32 = match retry {
            Retry::R2s => entropy & (2048 - 1),
            Retry::R4s => (entropy >> 7) & (2048 - 1),
            Retry::R8s => (entropy >> 14) & (2048 - 1),
            Retry::R16s => (entropy >> 21) & (2048 - 1),
            Retry::RRenew => entropy & (2048 - 1),
            Retry::Halted => 0,
        };
        proof {
            assert(entropy & 2047 == entropy % 2048 && (entropy >> 7) & 2047 == (entropy / 128) % 2048
                && (entropy >> 14) & 2047 == (entropy / 16384) % 2048 && (entropy >> 21) & 2047 == (
            entropy / 2097152) % 2048) by (bit_vector);
        }
        Self {
            retry: retry,
            time: match retry {
                Retry::Halted => None,
                _ => Some(now.add_ms(ms + offset)),
            },
        }
    }

    /// Schedule and return the first randomized retry
    pub fn new_first_random(entropy: u32, now: TimeMs) -> (r: Self)
        ensures
            r == new_random_spec(Retry::R2s, 1000, entropy, now),
    {
        Self::new_random(Retry::R2s, 1000, entropy, now)
    }

    /// Schedule and return the first >60s retry for renew
    pub fn new_first_random_renew(entropy: u32, now: TimeMs) -> (r: Self)
        ensures
            r == new_random_spec(Retry::RRenew, 60000, entropy, now),
    {
        Self::new_random(Retry::RRenew, 60000, entropy, now)
    }

    /// Schedule the next randomized retry timer, following the retry sequence;
    /// after the 16 second step the timer halts.
    pub fn schedule_next(&mut self, entropy: u32, now: TimeMs)
        ensures
            *final(self) == schedule_next_spec(*old(self), entropy, now),
    {
        let new_retry = match self.retry {
            Retry::R2s => Self::new_random(Retry::R4s, 3000, entropy, now),
            Retry::R4s => Self::new_random(Retry::R8s, 7000, entropy, now),
            Retry::R8s => Self::new_random(Retry::R16s, 15000, entropy, now),
            _ => Self { retry: Retry::Halted, time: None },
        };
        *self = new_retry;
    }

    /// Schedule the next DHCP Renewing retry timer for >60 seconds
    pub fn schedule_next_renew(&mut self, entropy: u32, now: TimeMs)
        ensures
            *final(self) == new_random_spec(Retry::RRenew, 60000, entropy, now),
    {
        *self = Self::new_random(Retry::RRenew, 60000, entropy, now);
    }

    /// Return timer status
    pub fn status(&self, now: TimeMs) -> (r: RetryStatus)
        ensures
            r == self.status_at(now),
    {
        match self.retry {
            Retry::Halted => RetryStatus::Halted,
            _ => {
                if let Some(time) = self.time {
                    if now.is_after(&time) {
                        RetryStatus::TimerExpired
                    } else {
                        RetryStatus::TimerRunning
                    }
                } else {
                    // Something got out of sync between .retry and .time
                    RetryStatus::Halted
                }
            },
        }
    }
}

/// The randomized exponential backoff: starting from the 2 second step, rescheduling
/// goes to the 4, 8 and 16 second steps, each delay being its base plus an offset below
/// 2048 ms, and the sequence halts after the 16 second step.
pub proof fn lemma_backoff_sequence(t: RetryTimer, e1: u32, e2: u32, e3: u32, e4: u32, now: TimeMs)
    requires
        t.retry == Retry::R2s,
    ensures
        ({
            let t1 = schedule_next_spec(t, e1, now);
            let t2 = schedule_next_spec(t1, e2, now);
            let t3 = schedule_next_spec(t2, e3, now);
            let t4 = schedule_next_spec(t3, e4, now);
            &&& t1.retry == Retry::R4s && t1.time == Some(now.add_ms_spec((3000 + retry_offset(Retry::R4s, e1)) as u32))
            &&& t2.retry == Retry::R8s && t2.time == Some(now.add_ms_spec((7000 + retry_offset(Retry::R8s, e2)) as u32))
            &&& t3.retry == Retry::R16s && t3.time == Some(now.add_ms_spec((15000 + retry_offset(Retry::R16s, e3)) as u32))
            &&& t4.retry == Retry::Halted && t4.time is None
            &&& t4.status_at(now) == RetryStatus::Halted
        }),
        forall|r: Retry, e: u32| #[trigger] retry_offset(r, e) < 2048,
{
}

} // verus!
