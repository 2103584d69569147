//! Millisecond timestamps from the 40-bit hardware tick timer, and the
//! arithmetic the timer helpers perform on raw tick counts.
//!
//! Reading the hardware registers happens outside this library; the values
//! read are handed in as plain integers.
use vstd::prelude::*;

verus! {

/// 2^32, the weight of the high timer word.
pub open spec fn word_base() -> int {
    0x1_0000_0000
}

/// 2^40, the period of the 40-bit hardware millisecond timer.
pub open spec fn timer_period() -> int {
    0x100_0000_0000
}

/// Errors from subtracting two timestamps
#[derive(Copy, Clone, PartialEq, Eq, Structural, Debug)]
pub enum TimeMsErr {
    /// The later timestamp is earlier than the reference
    Underflow,
    /// The difference does not fit in 32 bits
    Overflow,
}

/// Struct to work with 40-bit ms resolution hardware timestamps.
/// 40-bit overflow would take 34 years of uptime, so no need to worry about it.
/// 32-bit overflow would take 49.7 days of uptime, so need to consider it.
#[derive(Copy, Clone, PartialEq, Eq, Structural, Debug)]
pub struct TimeMs {
    /// Low 32-bits from hardware timer
    pub time0: u32,
    /// High 8-bits from hardware timer
    pub time1: u32,
}

impl TimeMs {
    /// The timestamp as a number of milliseconds.
    pub open spec fn ms(&self) -> int {
        self.time1 * word_base() + self.time0
    }

    /// Build a timestamp from the two hardware timer words (TIME0, TIME1).
    pub fn from_words(time0: u32, time1: u32) -> (r: TimeMs)
        ensures
            r.time0 == time0,
            r.time1 == time1,
    {
        TimeMs { time0, time1 }
    }

    /// Return the high word of the timestamp
    pub fn ms_high_word(&self) -> (r: u32)
        ensures
            r == self.time1,
    {
        self.time1
    }

    /// Return the low word of the timestamp
    pub fn ms_low_word(&self) -> (r: u32)
        ensures
            r == self.time0,
    {
        self.time0
    }

    /// The timestamp `add_ms` computes: the low word carries into the high word,
    /// and a carried high word wraps at 8 bits.
    pub open spec fn add_ms_spec(&self, interval_ms: u32) -> TimeMs {
        if self.time0 + interval_ms < word_base() {
            TimeMs { time0: (self.time0 + interval_ms) as u32, time1: self.time1 }
        } else {
            TimeMs {
                time0: (self.time0 + interval_ms - word_base()) as u32,
                time1: ((self.time1 + 1) % word_base() % 256) as u32,
            }
        }
    }

    /// Calculate a timestamp for interval ms after &self.
    /// The high word wraps at 8 bits (the 34 year boundary of the 40-bit timer).
    pub fn add_ms(&self, interval_ms: u32) -> (r: TimeMs)
        ensures
            r == self.add_ms_spec(interval_ms),
    {
        if self.time0 <= u32::MAX - interval_ms {
            TimeMs { time0: self.time0 + interval_ms, time1: self.time1 }
        } else {
            let t0: u32 = (self.time0 - (u32::MAX - interval_ms) - 1) as u32;
            let t1: u32 = self.time1.wrapping_add(1);
            let hi: u32 = t1 % 256;
            TimeMs { time0: t0, time1: hi }
        }
    }

    /// The timestamp `add_s` computes: interval_s seconds later on the 40-bit timer.
    pub open spec fn add_s_spec(&self, interval_s: u32) -> TimeMs {
        let wrapped = (self.ms() % timer_period() + interval_s * 1000) % timer_period();
        TimeMs { time0: (wrapped % word_base()) as u32, time1: (wrapped / word_base()) as u32 }
    }

    /// Calculate a timestamp for interval seconds after &self, on the 40-bit timer.
    pub fn add_s(&self, interval_s: u32) -> (r: TimeMs)
        ensures
            r == self.add_s_spec(interval_s),
            r.ms() == (self.ms() % timer_period() + interval_s * 1000) % timer_period(),
            r.time1 < 256,
    {
        let hi: u64 = (self.time1 % 256) as u64;
        let base: u64 = hi * 0x1_0000_0000 + self.time0 as u64;
        let sum: u64 = base + (interval_s as u64) * 1000;
        let wrapped: u64 = sum % 0x100_0000_0000;
        let t1: u32 = (wrapped / 0x1_0000_0000) as u32;
        let t0: u32 = (wrapped % 0x1_0000_0000) as u32;
        proof {
            assert(base == self.ms() % timer_period()) by (nonlinear_arith)
                requires
                    hi == self.time1 % 256,
                    base == hi * 0x1_0000_0000 + self.time0,
                    self.time0 < 0x1_0000_0000,
                    self.time1 >= 0,
            {
                assert(self.ms() == self.time1 * 0x1_0000_0000 + self.time0);
                assert(self.time1 == (self.time1 / 256) * 256 + hi);
                assert(self.ms() == (self.time1 / 256) * 0x100_0000_0000 + base);
                assert(0 <= base < 0x100_0000_0000);
            }
            assert(t1 * 0x1_0000_0000 + t0 == wrapped) by (nonlinear_arith)
                requires
                    t1 == wrapped / 0x1_0000_0000,
                    t0 == wrapped % 0x1_0000_0000,
            {
            }
        }
        TimeMs { time0: t0, time1: t1 }
    }

    /// Return the number of ms from `earlier` to &self, if that fits in 32 bits.
    pub fn sub_u32(&self, earlier: &TimeMs) -> (r: Result<u32, TimeMsErr>)
        ensures
            self.ms() < earlier.ms() <==> r == Err::<u32, TimeMsErr>(TimeMsErr::Underflow),
            self.ms() - earlier.ms() > u32::MAX <==> r == Err::<u32, TimeMsErr>(
                TimeMsErr::Overflow,
            ),
            r matches Ok(d) ==> d == self.ms() - earlier.ms(),
    {
        let a: u64 = (self.time1 as u64) * 0x1_0000_0000 + self.time0 as u64;
        let b: u64 = (earlier.time1 as u64) * 0x1_0000_0000 + earlier.time0 as u64;
        if a < b {
            Err(TimeMsErr::Underflow)
        } else if a - b > u32::MAX as u64 {
            Err(TimeMsErr::Overflow)
        } else {
            Ok((a - b) as u32)
        }
    }

    /// True when &self is at or after `other` (timestamps ordered as lengths of time).
    pub fn is_at_or_after(&self, other: &TimeMs) -> (r: bool)
        ensures
            r == (self.ms() >= other.ms()),
    {
        if self.time1 == other.time1 {
            self.time0 >= other.time0
        } else {
            self.time1 > other.time1
        }
    }

    /// True when &self is strictly after `other` (timestamps ordered as lengths of time).
    pub fn is_after(&self, other: &TimeMs) -> (r: bool)
        ensures
            r == (self.ms() > other.ms()),
    {
        if self.time1 == other.time1 {
            self.time0 > other.time0
        } else {
            self.time1 > other.time1
        }
    }
}

/// Longest busy wait (ms) that `delay_ms` allows: (2^32)/18MHz. A busy wait longer than
/// 10-20 ms would already hurt network latency; longer intervals call for a state
/// machine.
pub const MAX_DELAY_MS: u32 = 238;

/// The delay that a busy wait of `ms` milliseconds actually waits: requests longer than
/// `MAX_DELAY_MS` are silently cut to it, so that the event loop is never blocked longer
pub fn delay_ms_capped(ms: u32) -> (r: u32)
    ensures
        r == (if ms < MAX_DELAY_MS { ms } else { MAX_DELAY_MS }),
{
    if ms < MAX_DELAY_MS {
        ms
    } else {
        MAX_DELAY_MS
    }
}

/// The sleep alarm target for `delta_ticks` ticks after the 64-bit tick count `now`,
/// as the (high, low) words of the two target registers
pub fn msleep_target(now: u64, delta_ticks: u32) -> (r: (u32, u32))
    requires
        now + delta_ticks <= u64::MAX,
    ensures
        r.0 == (now + delta_ticks) / 0x1_0000_0000,
        r.1 == (now + delta_ticks) % 0x1_0000_0000,
{
    let time: u64 = now + delta_ticks as u64;
    ((time / 0x1_0000_0000) as u32, (time % 0x1_0000_0000) as u32)
}

/// Whether a busy wait of `ticks` ticks that started at tick `start` is over at tick
/// `cur`. When `cur` is not past `start`, the counter is taken to have rolled over and
/// the elapsed time to be `cur + (0xFFFF_FFFF - start)`; so a wait ends at once when the
/// counter has not moved yet, unless it is for 0xFFFF_FFFF ticks.
pub fn delay_ticks_done(start: u32, cur: u32, ticks: u32) -> (r: bool)
    ensures
        r == (if cur > start { cur - start > ticks } else { cur + (0xFFFF_FFFF - start) > ticks }),
{
    if cur > start {
        (cur - start) > ticks
    } else {
        // handle overflow
        (cur + (0xffff_ffff - start)) > ticks
    }
}

} // verus!
