//! LSM6DS3 inertial measurement unit: the register writes that boot it and configure
//! single-tap detection, and the decoding of its accelerometer and tap registers.
use crate::bits::lemma_byte_pair;
use vstd::prelude::*;

verus! {

/// I2C address: b110_1011 (SA0 is wired to Vdd)
pub const IMU_I2C_ADDR: u8 = 0x6B;
pub const WHO_AM_I: u8 = 0x0F;
pub const CTRL1_XL: u8 = 0x10;
pub const CTRL2_G: u8 = 0x11;
pub const CTRL3_C: u8 = 0x12;
pub const TAP_SRC: u8 = 0x1C;
pub const WAKE_UP_THS: u8 = 0x5B;
pub const TAP_CFG: u8 = 0x58;
pub const TAP_THS_6D: u8 = 0x59;
pub const INT_DUR2: u8 = 0x5A;
pub const MD1_CFG: u8 = 0x5E;
pub const OUTX_L_XL: u8 = 0x28;
pub const OUTX_H_XL: u8 = 0x29;
pub const OUTY_L_XL: u8 = 0x2A;
pub const OUTY_H_XL: u8 = 0x2B;
pub const OUTZ_L_XL: u8 = 0x2C;
pub const OUTZ_H_XL: u8 = 0x2D;

/// Tap source bit: a tap interrupt is latched
pub const TAP_IA: u8 = 0x40;
/// Tap source bit: the tap was a single tap
pub const SINGLE_TAP: u8 = 0x20;

/// How many times a register access is tried before it fails
pub const I2C_ATTEMPTS: usize = 3;

/// One step of a register programming sequence: write `val` to register `reg`,
/// failing with `err_tag` if the bus refuses it every time; then wait `delay_ms`.
#[derive(Copy, Clone, PartialEq, Eq, Structural, Debug)]
pub struct ImuWrite {
    pub reg: u8,
    pub val: u8,
    pub err_tag: u8,
    pub delay_ms: u32,
}

/// The steps of `Imu::init`, in order: boot and software reset, then accelerometer at
/// 416Hz/2g, block data update, tap interrupt on the Z axis with latching, tap threshold
/// 562.5mg, tap timing, no wake-up threshold, and INT1 driven by single taps only
pub open spec fn init_writes_spec() -> Seq<ImuWrite> {
    seq![
        ImuWrite { reg: CTRL2_G, val: 0x00, err_tag: 0x1, delay_ms: 0 },
        ImuWrite { reg: CTRL1_XL, val: 0x60, err_tag: 0x2, delay_ms: 0 },
        ImuWrite { reg: CTRL3_C, val: 0x80, err_tag: 0x3, delay_ms: 16 },
        ImuWrite { reg: CTRL3_C, val: 0x01, err_tag: 0x4, delay_ms: 2 },
        ImuWrite { reg: CTRL1_XL, val: 0x60, err_tag: 0x5, delay_ms: 0 },
        ImuWrite { reg: CTRL3_C, val: 0x40, err_tag: 0x6, delay_ms: 0 },
        ImuWrite { reg: TAP_CFG, val: 0x83, err_tag: 0x7, delay_ms: 0 },
        ImuWrite { reg: TAP_THS_6D, val: 0x89, err_tag: 0x8, delay_ms: 0 },
        ImuWrite { reg: INT_DUR2, val: 0x0E, err_tag: 0x9, delay_ms: 0 },
        ImuWrite { reg: WAKE_UP_THS, val: 0x00, err_tag: 0xA, delay_ms: 0 },
        ImuWrite { reg: MD1_CFG, val: 0x40, err_tag: 0xB, delay_ms: 0 },
    ]
}

/// Outcome of a register access that is tried up to `I2C_ATTEMPTS` times: Ok with the
/// value of the first attempt that the bus completed, else Err(err_tag)
pub open spec fn first_success(attempts: Seq<Option<u8>>, err_tag: u8) -> Result<u8, u8>
    decreases attempts.len(),
{
    if attempts.len() == 0 {
        Err(err_tag)
    } else {
        match attempts[0] {
            Some(v) => Ok(v),
            None => first_success(attempts.drop_first(), err_tag),
        }
    }
}

/// Driver for the IMU
pub struct Imu {}

impl Imu {
    /// The programming sequence of the boot, reset and single-tap configuration
    pub fn init_writes() -> (r: Vec<ImuWrite>)
        ensures
            r@ == init_writes_spec(),
    {
        let mut v: Vec<ImuWrite> = Vec::new();
        // Gyro -> power-down mode
        v.push(ImuWrite { reg: CTRL2_G, val: 0x00, err_tag: 0x1, delay_ms: 0 });
        // Accelerometer -> high-performance mode
        v.push(ImuWrite { reg: CTRL1_XL, val: 0x60, err_tag: 0x2, delay_ms: 0 });
        // Initiate BOOT (takes 15ms)
        v.push(ImuWrite { reg: CTRL3_C, val: 0x80, err_tag: 0x3, delay_ms: 16 });
        // Initiate SW_RESET (takes 50µs)
        v.push(ImuWrite { reg: CTRL3_C, val: 0x01, err_tag: 0x4, delay_ms: 2 });
        // CTRL1_XL = ODR_XL:416Hz, FS_XL:2g, LPF1_BW:208Hz, BW0_XL:400Hz
        v.push(ImuWrite { reg: CTRL1_XL, val: 0x60, err_tag: 0x5, delay_ms: 0 });
        // CTRL3_C = BlockDataUpdate:On
        v.push(ImuWrite { reg: CTRL3_C, val: 0x40, err_tag: 0x6, delay_ms: 0 });
        // TAP_CFG = InterruptsEn:On, InactiveEn:Off, TriggerSrc:Slope, TriggerAxis:Z, LatchIR:On
        v.push(ImuWrite { reg: TAP_CFG, val: 0x83, err_tag: 0x7, delay_ms: 0 });
        // TAP_THS_6D = b1_00_01001: 4dDetect:Off, 6dTHS:80°, TapTHS:562.5mg
        v.push(ImuWrite { reg: TAP_THS_6D, val: 0x89, err_tag: 0x8, delay_ms: 0 });
        // INT_DUR2 = b0000_10_10: DoubleTapGapDur:16*ODR, Quiet:3*(4/ODR)=29ms, Shock:2*(8/ODR)=39ms
        v.push(ImuWrite { reg: INT_DUR2, val: 0x0E, err_tag: 0x9, delay_ms: 0 });
        // WAKE_UP_THS = b0_0_000000: SingleDouble:Single, 0, WakeTHS:0g
        v.push(ImuWrite { reg: WAKE_UP_THS, val: 0x00, err_tag: 0xA, delay_ms: 0 });
        // MD1_CFG = b0_1_0_0_0_0_0_0: INT1 pin driven by single-tap interrupt (and no others)
        v.push(ImuWrite { reg: MD1_CFG, val: 0x40, err_tag: 0xB, delay_ms: 0 });
        assert(v@ =~= init_writes_spec());
        v
    }

    /// Result of a register access from its attempts: the first one that the bus
    /// completed (with the value read, 0 for a write), or Err(err_tag) if none did
    pub fn access_result(attempts: &[Option<u8>], err_tag: u8) -> (r: Result<u8, u8>)
        ensures
            r == first_success(attempts@, err_tag),
    {
        let mut i: usize = 0;
        assert(attempts@.subrange(0, attempts@.len() as int) =~= attempts@);
        while i < attempts.len()
            invariant
                i <= attempts@.len(),
                first_success(attempts@, err_tag) == first_success(attempts@.subrange(i as int, attempts@.len() as int), err_tag),
            decreases attempts.len() - i,
        {
            let ghost rest = attempts@.subrange(i as int, attempts@.len() as int);
            if let Some(v) = attempts[i] {
                return Ok(v);
            }
            assert(rest.drop_first() =~= attempts@.subrange(i as int + 1, attempts@.len() as int));
            i = i + 1;
        }
        assert(attempts@.subrange(i as int, attempts@.len() as int) =~= Seq::<Option<u8>>::empty());
        Err(err_tag)
    }

    /// An accelerometer measurement from its low and high register bytes
    pub fn accel_value(lsb: u8, msb: u8) -> (r: u16)
        ensures
            r == lsb + msb * 256,
    {
        proof {
            lemma_byte_pair(lsb, msb);
        }
        (lsb as u16) | ((msb as u16) << 8u16)
    }

    /// Whether the tap source register reports a latched single-tap interrupt
    pub fn single_tap(tap_src: u8) -> (r: bool)
        ensures
            r == (tap_src & (TAP_IA | SINGLE_TAP) == TAP_IA | SINGLE_TAP),
    {
        let mask: u8 = TAP_IA | SINGLE_TAP;
        (tap_src & mask) == mask
    }
}

} // verus!
