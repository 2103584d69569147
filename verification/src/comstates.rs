//! COM link states. These constants encode the commands sent from the SoC to the EC.
use vstd::prelude::*;

verus! {

/// One command of the COM link
#[derive(Copy, Clone, PartialEq, Eq, Structural, Debug)]
pub struct ComSpec {
    /// the "verb" specifying the command
    pub verb: u16,
    /// number of payload words expected -- not counting the verb or dummies for read
    pub w_words: u16,
    /// number of words to be returned to host; host must generate dummy exchanges equal to this to empty the FIFO
    pub r_words: u16,
    /// specifies if this "verb" is a response code, or a verb
    pub response: bool,
}

/// The commands of the COM link, one function per command
#[non_exhaustive]
pub struct ComState;

impl ComState {
    pub fn ssid_check() -> (r: ComSpec)
        ensures
            r == (ComSpec { verb: 0x2000, w_words: 0, r_words: 1, response: false }),
    {
        ComSpec { verb: 0x2000, w_words: 0, r_words: 1, response: false }
    }

    pub fn ssid_fetch() -> (r: ComSpec)
        ensures
            r == (ComSpec { verb: 0x2100, w_words: 0, r_words: 96, response: false }),
    {
        ComSpec { verb: 0x2100, w_words: 0, r_words: 96, response: false }
    }

    pub fn flash_waitack() -> (r: ComSpec)
        ensures
            r == (ComSpec { verb: 0x3000, w_words: 0, r_words: 1, response: false }),
    {
        ComSpec { verb: 0x3000, w_words: 0, r_words: 1, response: false }
    }

    pub fn flash_ack() -> (r: ComSpec)
        ensures
            r == (ComSpec { verb: 0x3CC3, w_words: 0, r_words: 0, response: true }),
    {
        ComSpec { verb: 0x3CC3, w_words: 0, r_words: 0, response: true }
    }

    pub fn flash_erase() -> (r: ComSpec)
        ensures
            r == (ComSpec { verb: 0x3200, w_words: 4, r_words: 0, response: false }),
    {
        ComSpec { verb: 0x3200, w_words: 4, r_words: 0, response: false }
    }

    pub fn flash_pp() -> (r: ComSpec)
        ensures
            r == (ComSpec { verb: 0x3300, w_words: 130, r_words: 0, response: false }),
    {
        ComSpec { verb: 0x3300, w_words: 130, r_words: 0, response: false }
    }

    /// lock activity for updates
    pub fn flash_lock() -> (r: ComSpec)
        ensures
            r == (ComSpec { verb: 0x3400, w_words: 0, r_words: 0, response: false }),
    {
        ComSpec { verb: 0x3400, w_words: 0, r_words: 0, response: false }
    }

    /// unlock activity for updates
    pub fn flash_unlock() -> (r: ComSpec)
        ensures
            r == (ComSpec { verb: 0x3434, w_words: 0, r_words: 0, response: false }),
    {
        ComSpec { verb: 0x3434, w_words: 0, r_words: 0, response: false }
    }

    pub fn loop_test() -> (r: ComSpec)
        ensures
            r == (ComSpec { verb: 0x4000, w_words: 0, r_words: 1, response: false }),
    {
        ComSpec { verb: 0x4000, w_words: 0, r_words: 1, response: false }
    }

    pub fn chg_start() -> (r: ComSpec)
        ensures
            r == (ComSpec { verb: 0x5A00, w_words: 0, r_words: 0, response: false }),
    {
        ComSpec { verb: 0x5A00, w_words: 0, r_words: 0, response: false }
    }

    pub fn chg_boost_on() -> (r: ComSpec)
        ensures
            r == (ComSpec { verb: 0x5ABB, w_words: 0, r_words: 0, response: false }),
    {
        ComSpec { verb: 0x5ABB, w_words: 0, r_words: 0, response: false }
    }

    pub fn chg_boost_off() -> (r: ComSpec)
        ensures
            r == (ComSpec { verb: 0x5AFE, w_words: 0, r_words: 0, response: false }),
    {
        ComSpec { verb: 0x5AFE, w_words: 0, r_words: 0, response: false }
    }

    /// this is an odd bird: back light is set by directly using the lower 10 bits to code the backlight level
    pub fn bl_start() -> (r: ComSpec)
        ensures
            r == (ComSpec { verb: 0x6800, w_words: 0, r_words: 0, response: false }),
    {
        ComSpec { verb: 0x6800, w_words: 0, r_words: 0, response: false }
    }

    pub fn bl_end() -> (r: ComSpec)
        ensures
            r == (ComSpec { verb: 0x6BFF, w_words: 0, r_words: 0, response: false }),
    {
        ComSpec { verb: 0x6BFF, w_words: 0, r_words: 0, response: false }
    }

    pub fn gas_gauge() -> (r: ComSpec)
        ensures
            r == (ComSpec { verb: 0x7000, w_words: 0, r_words: 4, response: false }),
    {
        ComSpec { verb: 0x7000, w_words: 0, r_words: 4, response: false }
    }

    pub fn stat() -> (r: ComSpec)
        ensures
            r == (ComSpec { verb: 0x8000, w_words: 0, r_words: 16, response: false }),
    {
        ComSpec { verb: 0x8000, w_words: 0, r_words: 16, response: false }
    }

    pub fn power_off() -> (r: ComSpec)
        ensures
            r == (ComSpec { verb: 0x9000, w_words: 0, r_words: 1, response: false }),
    {
        ComSpec { verb: 0x9000, w_words: 0, r_words: 1, response: false }
    }

    pub fn read_charge_state() -> (r: ComSpec)
        ensures
            r == (ComSpec { verb: 0x9100, w_words: 0, r_words: 1, response: false }),
    {
        ComSpec { verb: 0x9100, w_words: 0, r_words: 1, response: false }
    }

    pub fn power_shipmode() -> (r: ComSpec)
        ensures
            r == (ComSpec { verb: 0x9200, w_words: 0, r_words: 0, response: false }),
    {
        ComSpec { verb: 0x9200, w_words: 0, r_words: 0, response: false }
    }

    pub fn gyro_update() -> (r: ComSpec)
        ensures
            r == (ComSpec { verb: 0xA000, w_words: 0, r_words: 0, response: false }),
    {
        ComSpec { verb: 0xA000, w_words: 0, r_words: 0, response: false }
    }

    pub fn gyro_read() -> (r: ComSpec)
        ensures
            r == (ComSpec { verb: 0xA100, w_words: 0, r_words: 4, response: false }),
    {
        ComSpec { verb: 0xA100, w_words: 0, r_words: 4, response: false }
    }

    pub fn poll_usb_cc() -> (r: ComSpec)
        ensures
            r == (ComSpec { verb: 0xB000, w_words: 0, r_words: 3, response: false }),
    {
        ComSpec { verb: 0xB000, w_words: 0, r_words: 3, response: false }
    }

    /// dummy command to "pump" the bus to read data
    pub fn link_read() -> (r: ComSpec)
        ensures
            r == (ComSpec { verb: 0xF0F0, w_words: 0, r_words: 0, response: false }),
    {
        ComSpec { verb: 0xF0F0, w_words: 0, r_words: 0, response: false }
    }

    pub fn link_sync() -> (r: ComSpec)
        ensures
            r == (ComSpec { verb: 0xFFFF, w_words: 0, r_words: 0, response: false }),
    {
        ComSpec { verb: 0xFFFF, w_words: 0, r_words: 0, response: false }
    }

    pub fn error() -> (r: ComSpec)
        ensures
            r == (ComSpec { verb: 0xDEAD, w_words: 0, r_words: 0, response: true }),
    {
        ComSpec { verb: 0xDEAD, w_words: 0, r_words: 0, response: true }
    }
}

} // verus!
