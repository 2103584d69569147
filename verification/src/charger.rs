//! BQ24157 battery charger: the register writes that configure it, and the decoding
//! of its status register.
use crate::litex_i2c::{i2c_master, litex_steps, LitexI2cStep};
use vstd::prelude::*;

verus! {

/// I2C address of the charger
pub const BQ24157_ADDR: u8 = 0x6a;

pub const BQ24157_STAT_ADR: u8 = 0;
pub const BQ24157_CTRL_ADR: u8 = 1;
pub const BQ24157_BATV_ADR: u8 = 2;
pub const BQ24157_ID_ADR: u8 = 3;
pub const BQ24157_IBAT_ADR: u8 = 4;
pub const BQ24157_SPCHG_ADR: u8 = 5;
pub const BQ24157_SAFE_ADR: u8 = 6;

/// The STAT field of the status register, and the register values that the charging
/// settings compose to.
proof fn lemma_charger_bits(status: u8)
    by (bit_vector)
    ensures
        (status >> 4) & 0x3 == (status / 16) % 4,
        (0x23u8 << 2u8) | 2 == 0x8Eu8,
        (0x6u8 << 4u8) | 0x3 == 0x63u8,
        (0x3u8 << 6u8) | (0x3u8 << 4u8) | 0x8 == 0xF8u8,
{
}

/// Wait limit of the charger's I2C transactions (ms)
pub const CHG_TIMEOUT_MS: u32 = 5;

/// The I2C transaction that reads the status byte for `chg_is_charging`: write the
/// byte 0x6a (the charger's own address) at the charger's address, then read one byte
/// into slot 0
pub fn chg_status_read() -> (r: Vec<LitexI2cStep>)
    ensures
        r@ == litex_steps(BQ24157_ADDR, Some(seq![BQ24157_ADDR]), Some(1)),
{
    let tx = [BQ24157_ADDR];
    let r = i2c_master(BQ24157_ADDR, &tx, 1);
    assert(tx@ =~= seq![BQ24157_ADDR]);
    r
}

/// Whether the status byte (read by `chg_status_read`) reports charging in
/// progress (STAT field = 1); ready, done and fault give false
pub fn chg_is_charging(status: u8) -> (r: bool)
    ensures
        r == ((status / 16) % 4 == 1),
{
    let stat = (status >> 4) & 0x3;
    proof {
        lemma_charger_bits(status);
    }
    match stat {
        0 => false,
        1 => true,
        2 => false,
        3 => false,
        _ => false,
    }
}

/// Write that resets the 32 s safety timer and enables the STAT pin
pub fn chg_keepalive_ping() -> (r: [u8; 2])
    ensures
        r@ == seq![BQ24157_STAT_ADR, 0xC0u8],
{
    let r = [BQ24157_STAT_ADR, 0xC0u8];
    assert(r@ =~= seq![BQ24157_STAT_ADR, 0xC0u8]);
    r
}

/// Write of the safety limits. With the 56 mOhm current sense resistor,
/// I charge = (37.4mV + 54.4mV * Vmchrg[3] + 27.2mV * Vmchrg[2] + 13.6mV * Vmchrg[1]
/// + 6.8mV * Vmchrg[0]) / 0.056ohm; 0xB0 => 1639 max current (limited by IC), 4.22V max
/// regulation voltage
pub fn chg_set_safety() -> (r: [u8; 2])
    ensures
        r@ == seq![BQ24157_SAFE_ADR, 0xB0u8],
{
    let r = [BQ24157_SAFE_ADR, 0xB0u8];
    assert(r@ =~= seq![BQ24157_SAFE_ADR, 0xB0u8]);
    r
}

/// The three writes of the charging parameters, in order: battery regulation voltage
/// 4.2V (3.5V offset, 0.7V coded as 0x23, OTG enabled when the pin is high), special
/// charger voltage (4.44V DPM threshold, normal charge current sense voltage), and charge
/// current 1.51A with 242mA termination current.
pub fn chg_set_autoparams() -> (r: [[u8; 2]; 3])
    ensures
        r[0]@ == seq![BQ24157_BATV_ADR, 0x8Eu8],
        r[1]@ == seq![BQ24157_SPCHG_ADR, 0x03u8],
        r[2]@ == seq![BQ24157_IBAT_ADR, 0x63u8],
{
    let batv: [u8; 2] = [BQ24157_BATV_ADR, (0x23u8 << 2u8) | 2];
    let spchg: [u8; 2] = [BQ24157_SPCHG_ADR, 0x3];
    let ibat: [u8; 2] = [BQ24157_IBAT_ADR, (0x6u8 << 4u8) | 0x3];
    proof {
        lemma_charger_bits(0);
    }
    assert(batv@ =~= seq![BQ24157_BATV_ADR, 0x8Eu8]);
    assert(spchg@ =~= seq![BQ24157_SPCHG_ADR, 0x03u8]);
    assert(ibat@ =~= seq![BQ24157_IBAT_ADR, 0x63u8]);
    [batv, spchg, ibat]
}

/// Write that forces the start of charging: charge mode, not hiZ, charger enabled,
/// charge current termination enabled, weak battery 3.7V, no input current limit
pub fn chg_start() -> (r: [u8; 2])
    ensures
        r@ == seq![BQ24157_CTRL_ADR, 0xF8u8],
{
    let r: [u8; 2] = [BQ24157_CTRL_ADR, (0x3u8 << 6u8) | (0x3u8 << 4u8) | 0x8];
    proof {
        lemma_charger_bits(0);
    }
    assert(r@ =~= seq![BQ24157_CTRL_ADR, 0xF8u8]);
    r
}

} // verus!
