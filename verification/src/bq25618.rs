//! BQ25618 battery charger: a cache of its twelve registers, the register values that
//! configure charging and boost mode, and the decoding of the charge status.
use vstd::prelude::*;

verus! {

/// I2C address of the charger
pub const BQ25618_ADDR: u8 = 0x6A;

// register addresses
pub const BQ25618_00_ILIM: usize = 0x00;
pub const BQ25618_01_CHG_CTL: usize = 0x01;
pub const BQ25618_02_CHG_ILIM: usize = 0x02;
pub const BQ25618_03_PRE_TERM: usize = 0x03;
pub const BQ25618_04_VOLT_LIM: usize = 0x04;
pub const BQ25618_05_CHG_CTL1: usize = 0x05;
pub const BQ25618_06_CHG_CTL2: usize = 0x06;
pub const BQ25618_07_CHG_CTL3: usize = 0x07;
pub const BQ25618_08_CHG_STAT0: usize = 0x08;
pub const BQ25618_09_CHG_STAT1: usize = 0x09;
pub const BQ25618_0A_CHG_STAT2: usize = 0x0A;
pub const BQ25618_0B_ID_RESET: usize = 0x0B;
pub const BQ25618_0C_JEITA: usize = 0x0C;

// InputCurrentLimit
pub const ILIM_TS_IGNORE: u8 = 0b0100_0000;
const IINDPM_LSB_MA: u32 = 100;
const IINDMP_OFFSET_MA: u32 = 100;
const IINDPM_MASK: u32 = 0b0001_1111;

// ChargeControl
pub const CTL_SYS_MIN_3200MV: u8 = 0b0000_0110;
pub const CTL_SYS_MIN_3400MV: u8 = 0b0000_1000;
pub const CTL_CHARGE_ON: u8 = 0b0001_0000;
pub const CTL_BOOST_ON: u8 = 0b0010_0000;
pub const CTL_BOOST_OFF: u8 = 0b0000_0000;
pub const CTL_WD_RST: u8 = 0b0100_0000;

// ChargeCurrentLimit
const ICHG_LSB_MA: u32 = 20;

// pre-charge and termination current
const IPRECHG_MASK: u32 = 0b1111_0000;
const IPRECHG_BITPOS: u32 = 4;
const IPRECHG_OFFSET_MA: u32 = 20;
const IPRECHG_LSB_MA: u32 = 20;
const ITERM_MASK: u32 = 0b0000_1111;
const ITERM_OFFSET_MA: u32 = 20;
const ITERM_LSB_MA: u32 = 20;

// BatteryVoltageLimit
pub const VRECHG_THRESH_120MV: u8 = 0b00000_000;
pub const TOPOFF_TIME_30MIN: u8 = 0b00000_100;
pub const VREG_4200MV: u8 = 0b01000_000;

// ChargeControl1
pub const TREG_110C: u8 = 0b0000_0010;
pub const CHG_TIMER_10HRS: u8 = 0b0000_0000;
pub const SAFETY_TIMER_EN: u8 = 0b0000_1000;
pub const WATCHDOG_40S: u8 = 0b0001_0000;
pub const CHG_TERM_ENABLE: u8 = 0b1000_0000;
pub const JEITA_VSET_4100MV: u8 = 0b0000_0000;

// ChargeControl2
pub const BOOSTV_5000MV: u8 = 0b0010_0000;
pub const BOOSTV_5150MV: u8 = 0b0011_0000;
pub const OVP_14200MV: u8 = 0b1100_0000;
const VINDPM_MASK: u32 = 0b0000_1111;
const VINDPM_OFFSET_MV: u32 = 3900;
const VINDPM_LSB_MV: u32 = 100;

// ChargeControl3
pub const VINDPM_TRACK_300MV: u8 = 0b0000_0011;
pub const BATFET_RST_EN: u8 = 0b0000_0100;
pub const BATFET_DLY_10S: u8 = 0b0000_1000;
pub const BATFET_RST_WAIT_VBUS: u8 = 0b0000_0000;
pub const BATFET_OFF_ALLOW: u8 = 0b0010_0000;
pub const BATFET_OFF_IGNORE: u8 = 0b0000_0000;
pub const TMR2X_EN: u8 = 0b0100_0000;

// ChargerStatus0
pub const CHG_MASK: u8 = 0b00011_000;
pub const CHG_NOT_CHARGING: u8 = 0b00000_000;
pub const CHG_PRECHARGING: u8 = 0b00001_000;
pub const CHG_FASTCHARGING: u8 = 0b00010_000;
pub const CHG_CHARGETERM: u8 = 0b00011_000;

/// Register 0: 1500mA input current limit, TS pin ignored
pub const REG_ILIM_VALUE: u8 = 0x4E;
/// Register 1: watchdog reset, charging on, boost off, minimum system voltage 3400mV
pub const REG_CHG_CTL_VALUE: u8 = 0x58;
/// Register 2: 500mA fast charge current
pub const REG_CHG_ILIM_VALUE: u8 = 0x19;
/// Register 3: 40mA pre-charge, 60mA termination current
pub const REG_PRE_TERM_VALUE: u8 = 0x12;
/// Register 4: 120mV recharge threshold, 30 min top-off, 4200mV regulation
pub const REG_VOLT_LIM_VALUE: u8 = 0x44;
/// Register 5: termination on, 40 s watchdog, 10 h safety timer on, 110C regulation
pub const REG_CHG_CTL1_VALUE: u8 = 0x9A;
/// Register 6: 4500mV VINDPM, 5000mV boost, 14200mV over-voltage protection
pub const REG_CHG_CTL2_VALUE: u8 = 0xE6;
/// Register 7: 2x safety timer during DPM, 10 s BATFET delay, VINDPM tracking 300mV
pub const REG_CHG_CTL3_VALUE: u8 = 0x4B;

/// Charging is in progress according to status register 0: pre-charge or fast charge
pub open spec fn stat0_charging(stat0: u8) -> bool {
    stat0 & CHG_MASK == CHG_PRECHARGING || stat0 & CHG_MASK == CHG_FASTCHARGING
}

/// The register values that the charging, boost and ship-mode settings compose to.
proof fn lemma_register_values()
    by (bit_vector)
    ensures
        BATFET_DLY_10S | BATFET_RST_WAIT_VBUS | BATFET_OFF_ALLOW | BATFET_RST_EN == 0x2Cu8,
        ILIM_TS_IGNORE | (((1400u32 / 100u32) & 0b0001_1111u32) as u8) == REG_ILIM_VALUE,
        CTL_WD_RST | CTL_CHARGE_ON | CTL_BOOST_OFF | CTL_SYS_MIN_3400MV == REG_CHG_CTL_VALUE,
        (((20u32 / 20u32) << 4u32) & 0b1111_0000u32) as u8 | (((40u32 / 20u32) & 0b0000_1111u32) as u8) == REG_PRE_TERM_VALUE,
        VRECHG_THRESH_120MV | TOPOFF_TIME_30MIN | VREG_4200MV == REG_VOLT_LIM_VALUE,
        CHG_TERM_ENABLE | WATCHDOG_40S | CHG_TIMER_10HRS | SAFETY_TIMER_EN | TREG_110C | JEITA_VSET_4100MV == REG_CHG_CTL1_VALUE,
        (((600u32 / 100u32) & 0b0000_1111u32) as u8) | BOOSTV_5000MV | OVP_14200MV == REG_CHG_CTL2_VALUE,
        TMR2X_EN | BATFET_DLY_10S | VINDPM_TRACK_300MV == REG_CHG_CTL3_VALUE,
        TMR2X_EN | BATFET_DLY_10S | VINDPM_TRACK_300MV | BATFET_OFF_IGNORE == 0x4Bu8,
        CTL_WD_RST | CTL_BOOST_ON | CTL_SYS_MIN_3200MV == 0x66u8,
        (((600u32 / 100u32) & 0b0000_1111u32) as u8) | BOOSTV_5150MV | OVP_14200MV == 0xF6u8,
{
}

/// Cache of the charger's registers 0x00..0x0B
pub struct BtCharger {
    pub registers: [u8; 12],
}

impl BtCharger {
    /// All cached registers zero
    pub fn new() -> (r: Self)
        ensures
            r.registers@ == Seq::new(12, |i: int| 0u8),
    {
        let r = BtCharger { registers: [0u8; 12] };
        assert(r.registers@ =~= Seq::new(12, |i: int| 0u8));
        r
    }

    /// Refresh the cache with the values read from registers 0x00..0x0B
    pub fn update_regs(&mut self, values: &[u8; 12])
        ensures
            final(self).registers == *values,
    {
        self.registers = *values;
    }

    /// Write that puts the charger in ship mode: the battery FET turns off after 10 s
    pub fn set_shipmode(&self) -> (r: [u8; 2])
        ensures
            r@ == seq![BQ25618_07_CHG_CTL3 as u8, 0x2Cu8],
    {
        let v: u8 = BATFET_DLY_10S | BATFET_RST_WAIT_VBUS | BATFET_OFF_ALLOW | BATFET_RST_EN;
        proof { lemma_register_values(); }
        let r = [BQ25618_07_CHG_CTL3 as u8, v];
        assert(r@ =~= seq![BQ25618_07_CHG_CTL3 as u8, 0x2Cu8]);
        r
    }

    /// Whether the charger is charging, from a fresh reading of status register 0, or
    /// from the cached one when `fresh` is None
    pub fn chg_is_charging(&self, fresh: Option<u8>) -> (r: bool)
        ensures
            r == stat0_charging(match fresh {
                Some(v) => v,
                None => self.registers@[BQ25618_08_CHG_STAT0 as int],
            }),
    {
        let chgstat0: u8 = match fresh {
            Some(v) => v,
            None => self.registers[BQ25618_08_CHG_STAT0],
        };
        if (chgstat0 & CHG_MASK) == CHG_NOT_CHARGING {
            false
        } else if (chgstat0 & CHG_MASK) == CHG_PRECHARGING {
            true
        } else if (chgstat0 & CHG_MASK) == CHG_FASTCHARGING {
            true
        } else if (chgstat0 & CHG_MASK) == CHG_CHARGETERM {
            false
        } else {
            false
        }
    }

    /// Write that resets the watchdog, given the value read from control register 1
    pub fn chg_keepalive_ping(&self, ctl: u8) -> (r: [u8; 2])
        ensures
            r@ == seq![BQ25618_01_CHG_CTL as u8, ctl | CTL_WD_RST],
    {
        let r = [BQ25618_01_CHG_CTL as u8, ctl | CTL_WD_RST];
        assert(r@ =~= seq![BQ25618_01_CHG_CTL as u8, ctl | CTL_WD_RST]);
        r
    }

    /// Set the charging parameters in registers 0..7 and return the write that commits
    /// them: the first register address, then the eight values
    pub fn chg_set_autoparams(&mut self) -> (r: [u8; 9])
        ensures
            final(self).registers@ == old(self).registers@.update(0, REG_ILIM_VALUE).update(
                1,
                REG_CHG_CTL_VALUE,
            ).update(2, REG_CHG_ILIM_VALUE).update(3, REG_PRE_TERM_VALUE).update(4, REG_VOLT_LIM_VALUE).update(
                5,
                REG_CHG_CTL1_VALUE,
            ).update(6, REG_CHG_CTL2_VALUE).update(7, REG_CHG_CTL3_VALUE),
            r@ == seq![0u8].add(final(self).registers@.subrange(0, 8)),
    {
        self.registers[BQ25618_00_ILIM] = ILIM_TS_IGNORE | ((((1500 - IINDMP_OFFSET_MA) / IINDPM_LSB_MA)
            & IINDPM_MASK) as u8);
        self.registers[BQ25618_01_CHG_CTL] = CTL_WD_RST | CTL_CHARGE_ON | CTL_BOOST_OFF
            | CTL_SYS_MIN_3400MV;
        // 500mA fast charge setting
        self.registers[BQ25618_02_CHG_ILIM] = (500 / ICHG_LSB_MA) as u8;
        self.registers[BQ25618_03_PRE_TERM] = (((((40 - IPRECHG_OFFSET_MA) / IPRECHG_LSB_MA)
            << IPRECHG_BITPOS) & IPRECHG_MASK) as u8) | ((((60 - ITERM_OFFSET_MA) / ITERM_LSB_MA)
            & ITERM_MASK) as u8);
        self.registers[BQ25618_04_VOLT_LIM] = VRECHG_THRESH_120MV | TOPOFF_TIME_30MIN | VREG_4200MV;
        self.registers[BQ25618_05_CHG_CTL1] = CHG_TERM_ENABLE | WATCHDOG_40S | CHG_TIMER_10HRS
            | SAFETY_TIMER_EN | TREG_110C | JEITA_VSET_4100MV;
        self.registers[BQ25618_06_CHG_CTL2] = ((((4500 - VINDPM_OFFSET_MV) / VINDPM_LSB_MV)
            & VINDPM_MASK) as u8) | BOOSTV_5000MV | OVP_14200MV;
        // charger status 2 -- no bits set, allow interrupts; JEITA registers left at default
        self.registers[BQ25618_07_CHG_CTL3] = TMR2X_EN | BATFET_DLY_10S | VINDPM_TRACK_300MV;
        proof {
            lemma_register_values();
        }
        // now commit registers 0-7
        let mut txbuf: [u8; 9] = [0u8; 9];
        txbuf[0] = BQ25618_00_ILIM as u8;
        let mut i: usize = 0;
        while i < 8
            invariant
                i <= 8,
                txbuf@.len() == 9,
                txbuf@[0] == 0,
                forall|j: int| 0 <= j < i ==> #[trigger] txbuf@[j + 1] == self.registers@[j],
            decreases 8 - i,
        {
            txbuf[i + 1] = self.registers[i];
            i = i + 1;
        }
        assert forall|k: int| 1 <= k < 9 implies #[trigger] txbuf@[k] == seq![0u8].add(
            self.registers@.subrange(0, 8),
        )[k] by {
            assert(txbuf@[(k - 1) + 1] == self.registers@[k - 1]);
        }
        assert(txbuf@ =~= seq![0u8].add(self.registers@.subrange(0, 8)));
        txbuf
    }

    /// Set registers 0..2 for charging at full current (this overrides the input current
    /// limit) and return the write that commits registers 0-2.
    pub fn chg_start(&mut self) -> (r: [u8; 4])
        ensures
            final(self).registers@ == old(self).registers@.update(0, REG_ILIM_VALUE).update(
                1,
                REG_CHG_CTL_VALUE,
            ).update(2, REG_CHG_ILIM_VALUE),
            r@ == seq![0u8, REG_ILIM_VALUE, REG_CHG_CTL_VALUE, REG_CHG_ILIM_VALUE],
    {
        self.registers[BQ25618_00_ILIM] = ILIM_TS_IGNORE | ((((1500 - IINDMP_OFFSET_MA) / IINDPM_LSB_MA)
            & IINDPM_MASK) as u8);
        self.registers[BQ25618_01_CHG_CTL] = CTL_WD_RST | CTL_CHARGE_ON | CTL_BOOST_OFF
            | CTL_SYS_MIN_3400MV;
        // 500mA fast charge setting
        self.registers[BQ25618_02_CHG_ILIM] = (500 / ICHG_LSB_MA) as u8;
        proof {
            lemma_register_values();
        }
        let r = [BQ25618_00_ILIM as u8, self.registers[0], self.registers[1], self.registers[2]];
        assert(r@ =~= seq![0u8, REG_ILIM_VALUE, REG_CHG_CTL_VALUE, REG_CHG_ILIM_VALUE]);
        r
    }

    /// Enter boost mode (5150mV out); returns the three writes in order: control 3 with
    /// the battery FET kept on, control 1 with boost on and charging off, control 2 with
    /// the boost voltage
    pub fn chg_boost(&mut self) -> (r: [[u8; 2]; 3])
        ensures
            final(self).registers@ == old(self).registers@.update(7, 0x4Bu8).update(1, 0x66u8).update(
                6,
                0xF6u8,
            ),
            r[0]@ == seq![BQ25618_07_CHG_CTL3 as u8, 0x4Bu8],
            r[1]@ == seq![BQ25618_01_CHG_CTL as u8, 0x66u8],
            r[2]@ == seq![BQ25618_06_CHG_CTL2 as u8, 0xF6u8],
    {
        // make sure BATFET_DIS is 0
        self.registers[BQ25618_07_CHG_CTL3] = TMR2X_EN | BATFET_DLY_10S | VINDPM_TRACK_300MV
            | BATFET_OFF_IGNORE;
        let w0 = [BQ25618_07_CHG_CTL3 as u8, self.registers[BQ25618_07_CHG_CTL3]];
        // CHG_CONFIG = 0, BST_CONFIG = 1
        self.registers[BQ25618_01_CHG_CTL] = CTL_WD_RST | CTL_BOOST_ON | CTL_SYS_MIN_3200MV;
        let w1 = [BQ25618_01_CHG_CTL as u8, self.registers[BQ25618_01_CHG_CTL]];
        // set boost target voltage
        self.registers[BQ25618_06_CHG_CTL2] = ((((4500 - VINDPM_OFFSET_MV) / VINDPM_LSB_MV)
            & VINDPM_MASK) as u8) | BOOSTV_5150MV | OVP_14200MV;
        let w2 = [BQ25618_06_CHG_CTL2 as u8, self.registers[BQ25618_06_CHG_CTL2]];
        proof {
            lemma_register_values();
        }
        assert(w0@ =~= seq![BQ25618_07_CHG_CTL3 as u8, 0x4Bu8]);
        assert(w1@ =~= seq![BQ25618_01_CHG_CTL as u8, 0x66u8]);
        assert(w2@ =~= seq![BQ25618_06_CHG_CTL2 as u8, 0xF6u8]);
        [w0, w1, w2]
    }

    /// Leave boost mode: charging back on; returns the write of control register 1
    pub fn chg_boost_off(&mut self) -> (r: [u8; 2])
        ensures
            final(self).registers@ == old(self).registers@.update(1, REG_CHG_CTL_VALUE),
            r@ == seq![BQ25618_01_CHG_CTL as u8, REG_CHG_CTL_VALUE],
    {
        self.registers[BQ25618_01_CHG_CTL] = CTL_WD_RST | CTL_CHARGE_ON | CTL_BOOST_OFF
            | CTL_SYS_MIN_3400MV;
        proof { lemma_register_values(); }
        let r = [BQ25618_01_CHG_CTL as u8, self.registers[BQ25618_01_CHG_CTL]];
        assert(r@ =~= seq![BQ25618_01_CHG_CTL as u8, REG_CHG_CTL_VALUE]);
        r
    }

    /// The safety limits need no write on this charger
    pub fn chg_set_safety(&self) {
    }
}

} // verus!
