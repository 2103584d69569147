//! LM3509 backlight driver: brightness levels and the register writes that set them.
use vstd::prelude::*;

verus! {

/// I2C address of the backlight driver
pub const LM3509_ADDR: u8 = 0x36;

/// General purpose (configuration) register
pub const LM3509_GP_ADR: u8 = 0x10;
/// Main display brightness register
pub const LM3509_BMAIN_ADR: u8 = 0xA0;
/// Secondary display brightness register
pub const LM3509_BSUB_ADR: u8 = 0xB0;
pub const LM3509_GPIO_ADR: u8 = 0x80;

// Config bits
pub const CONFIG_MAIN_ENABLE: u8 = 0b0000_0001;
pub const CONFIG_SEC_ENABLE: u8 = 0b0000_0010;

/// Brightness register value for a level, clamped to 31
pub open spec fn level_byte(level: u8) -> u8 {
    (if level > 31 { 31 } else { level }) | 0xE0
}

/// Configuration value for a rate of change
pub open spec fn gp_byte(rate_of_change: u8, enable: bool) -> u8 {
    if enable {
        ((rate_of_change & 0x3) << 3) | 0xC0 | 0x03
    } else {
        0xC0 | ((rate_of_change & 0x3) << 3)
    }
}

pub struct BtBacklight {
    /// number from 0-3 which specifies how fast the brightness level changes (0 is fastest, 3 is slowest)
    rate_of_change: u8,
}

impl BtBacklight {
    /// How fast the brightness level changes
    pub closed spec fn rate(&self) -> u8 {
        self.rate_of_change
    }

    /// Slowest brightness changes
    pub fn new() -> (r: Self)
        ensures
            r.rate() == 3,
    {
        BtBacklight { rate_of_change: 3 }
    }

    /// Set how fast the brightness level changes, clamped to 3
    pub fn set_rate_of_change(&mut self, roc: u8)
        ensures
            final(self).rate() == (if roc > 3 { 3 } else { roc }),
    {
        let mut roc_local: u8 = roc;
        if roc_local > 3 {
            roc_local = 3;
        }
        self.rate_of_change = roc_local;
    }

    /// Highest brightness level
    pub fn max_brightness() -> (r: u8)
        ensures
            r == 31,
    {
        31
    }

    /// The three register writes that set the brightness, in order. Both levels zero:
    /// main and secondary brightness to zero, then the strings into shutdown. Otherwise
    /// both strings on (not in unison), then the main and secondary levels, each clamped
    /// to 31.
    pub fn set_brightness(&self, main_level: u8, sub_level: u8) -> (r: [[u8; 2]; 3])
        ensures
            main_level == 0 && sub_level == 0 ==> {
                &&& r[0]@ == seq![LM3509_BMAIN_ADR, 0xE0u8]
                &&& r[1]@ == seq![LM3509_BSUB_ADR, 0xE0u8]
                &&& r[2]@ == seq![LM3509_GP_ADR, gp_byte(self.rate(), false)]
            },
            !(main_level == 0 && sub_level == 0) ==> {
                &&& r[0]@ == seq![LM3509_GP_ADR, gp_byte(self.rate(), true)]
                &&& r[1]@ == seq![LM3509_BMAIN_ADR, level_byte(main_level)]
                &&& r[2]@ == seq![LM3509_BSUB_ADR, level_byte(sub_level)]
            },
    {
        let roc = self.rate_of_change;
        if main_level == 0 && sub_level == 0 {
            // first set the brightness control to 0, then put the string into shutdown mode
            let w0 = [LM3509_BMAIN_ADR, 0xE0u8];
            let w1 = [LM3509_BSUB_ADR, 0xE0u8];
            let w2 = [LM3509_GP_ADR, 0xC0 | ((roc & 0x3) << 3)];
            assert(w0@ =~= seq![LM3509_BMAIN_ADR, 0xE0u8]);
            assert(w1@ =~= seq![LM3509_BSUB_ADR, 0xE0u8]);
            assert(w2@ =~= seq![LM3509_GP_ADR, gp_byte(roc, false)]);
            [w0, w1, w2]
        } else {
            let w0 = [LM3509_GP_ADR, ((roc & 0x3) << 3) | 0xC0 | (CONFIG_SEC_ENABLE | CONFIG_MAIN_ENABLE)];
            assert(CONFIG_SEC_ENABLE | CONFIG_MAIN_ENABLE == 0x03u8) by (bit_vector);
            let main: u8 = if main_level > 31 { 31 } else { main_level };
            let sub: u8 = if sub_level > 31 { 31 } else { sub_level };
            let w1 = [LM3509_BMAIN_ADR, main | 0xE0];
            let w2 = [LM3509_BSUB_ADR, sub | 0xE0];
            assert(w0@ =~= seq![LM3509_GP_ADR, gp_byte(roc, true)]);
            assert(w1@ =~= seq![LM3509_BMAIN_ADR, level_byte(main_level)]);
            assert(w2@ =~= seq![LM3509_BSUB_ADR, level_byte(sub_level)]);
            [w0, w1, w2]
        }
    }
}

} // verus!
