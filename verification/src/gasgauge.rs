//! BQ27421 battery gas gauge: the bytes of its I2C commands, the decoding of its
//! replies, and the update of its state data block with a new design capacity.
use crate::bits::{lemma_byte_pair, lemma_word_bytes};
use vstd::prelude::*;

verus! {

/// I2C address of the gas gauge
pub const BQ27421_ADDR: u8 = 0x55;

// word-width commands
pub const GG_CMD_CNTL: u8 = 0x00;
/// 0.1 degrees K, of battery
pub const GG_CMD_TEMP: u8 = 0x02;
/// (mV)
pub const GG_CMD_VOLT: u8 = 0x04;
pub const GG_CMD_FLAG: u8 = 0x06;
/// nominal available capacity (mAh)
pub const GG_CMD_NOM_CAP: u8 = 0x08;
/// full available capacity (mAh)
pub const GG_CMD_FULL_CAP: u8 = 0x0A;
/// remaining capacity (mAh)
pub const GG_CMD_RM: u8 = 0x0C;
/// full charge capacity (mAh)
pub const GG_CMD_FCC: u8 = 0x0E;
/// (mA)
pub const GG_CMD_AVGCUR: u8 = 0x10;
/// standby current (mA)
pub const GG_CMD_SBYCUR: u8 = 0x12;
/// max load current (mA)
pub const GG_CMD_MAXCUR: u8 = 0x14;
/// average power (mW)
pub const GG_CMD_AVGPWR: u8 = 0x18;
/// state of charge in %
pub const GG_CMD_SOC: u8 = 0x1C;
/// temperature of gg IC
pub const GG_CMD_INTTEMP: u8 = 0x1E;
/// state of health, num / %
pub const GG_CMD_SOH: u8 = 0x20;

// single-byte extended commands
/// block data control
pub const GG_EXT_BLKDATACTL: u8 = 0x61;
/// block data class
pub const GG_EXT_BLKDATACLS: u8 = 0x3E;
/// block data offset
pub const GG_EXT_BLKDATAOFF: u8 = 0x3F;
/// block data checksum
pub const GG_EXT_BLKDATACHK: u8 = 0x60;
/// block data base
pub const GG_EXT_BLKDATABSE: u8 = 0x40;
/// design capacity MSB
pub const GG_EXT_DCAP_MSB: u8 = 0x3D;
/// design capacity LSB
pub const GG_EXT_DCAP_LSB: u8 = 0x3C;

// control command codes
pub const GG_CODE_CTLSTAT: u16 = 0x0000;
pub const GG_CODE_DEVTYPE: u16 = 0x0001;
pub const GG_CODE_UNSEAL: u16 = 0x8000;
pub const GG_CODE_SEAL: u16 = 0x0020;
pub const GG_CODE_CFGUPDATE: u16 = 0x0013;
pub const GG_CODE_RESET: u16 = 0x0042;
pub const GG_CODE_SET_HIB: u16 = 0x0011;
pub const GG_CODE_CLR_HIB: u16 = 0x0012;

/// Flag register bit that reports configuration update mode
pub const GG_FLAG_CFGUPMODE: i16 = 0x10;

/// Size of the state data block, its checksum included
pub const GG_BLOCK_LEN: usize = 33;

/// Sum of the first `n` bytes of `d`, modulo 256
pub open spec fn byte_sum(d: Seq<u8>, n: int) -> int
    decreases n,
{
    if n <= 0 {
        0
    } else {
        (byte_sum(d, n - 1) + d[n - 1]) % 256
    }
}

/// Bytes of a word-width command: the command code, then the value little-endian
pub fn gg_set_txbuf(cmd_code: u8, val: u16) -> (r: [u8; 3])
    ensures
        r@ == seq![cmd_code, (val % 256) as u8, (val / 256) as u8],
{
    let r = [cmd_code, (val & 0xff) as u8, ((val >> 8u16) & 0xff) as u8];
    proof {
        lemma_word_bytes(val);
    }
    assert(r@ =~= seq![cmd_code, (val % 256) as u8, (val / 256) as u8]);
    r
}

/// Bytes of a single-byte extended command
pub fn gg_set_byte_txbuf(cmd_code: u8, val: u8) -> (r: [u8; 2])
    ensures
        r@ == seq![cmd_code, val],
{
    let r = [cmd_code, val];
    assert(r@ =~= seq![cmd_code, val]);
    r
}

/// A word read back from the gauge: little-endian, then taken as two's complement (the
/// sign is applied only after the bytes are composited)
pub fn gg_word(rxbuf: [u8; 2]) -> (r: i16)
    ensures
        r == (if rxbuf[0] + rxbuf[1] * 256 >= 0x8000 {
            rxbuf[0] + rxbuf[1] * 256 - 0x1_0000
        } else {
            rxbuf[0] + rxbuf[1] * 256
        }),
{
    let w: u16 = (rxbuf[0] as u16) | ((rxbuf[1] as u16) << 8u16);
    proof {
        lemma_byte_pair(rxbuf[0], rxbuf[1]);
    }
    if w >= 0x8000 {
        let v: i32 = (w as i32) - 0x1_0000;
        v as i16
    } else {
        w as i16
    }
}

/// Bytes that wake the gauge from hibernation
pub fn gg_start() -> (r: [u8; 3])
    ensures
        r@ == seq![GG_CMD_CNTL, 0x12u8, 0x00u8],
{
    gg_set_txbuf(GG_CMD_CNTL, GG_CODE_CLR_HIB)
}

/// Bytes that put the gauge into hibernation
pub fn gg_set_hibernate() -> (r: [u8; 3])
    ensures
        r@ == seq![GG_CMD_CNTL, 0x11u8, 0x00u8],
{
    gg_set_txbuf(GG_CMD_CNTL, GG_CODE_SET_HIB)
}

/// Battery voltage (mV) from the reply to the voltage command
pub fn gg_voltage(rxbuf: [u8; 2]) -> (r: i16)
    ensures
        r == (if rxbuf[0] + rxbuf[1] * 256 >= 0x8000 {
            rxbuf[0] + rxbuf[1] * 256 - 0x1_0000
        } else {
            rxbuf[0] + rxbuf[1] * 256
        }),
{
    gg_word(rxbuf)
}

/// Whether the flags report that the gauge entered configuration update mode
pub fn gg_cfgupdate_ready(flags: i16) -> (r: bool)
    ensures
        r == (flags & GG_FLAG_CFGUPMODE != 0),
{
    (flags & GG_FLAG_CFGUPMODE) != 0
}

/// Checksum of a state data block: 255 minus the sum of its first 32 bytes, modulo 256
pub fn compute_checksum(blockdata: &[u8]) -> (r: u8)
    requires
        blockdata@.len() >= 32,
    ensures
        r == 255 - byte_sum(blockdata@, 32),
{
    let mut checksum: u8 = 0;
    let mut i: usize = 0;
    while i < 32
        invariant
            i <= 32,
            blockdata@.len() >= 32,
            checksum == byte_sum(blockdata@, i as int),
        decreases 32 - i,
    {
        checksum = checksum.wrapping_add(blockdata[i]);
        i = i + 1;
    }
    255 - checksum
}

/// Design capacity (mAh) stored in bytes 10 (MSB) and 11 (LSB) of the state block
pub open spec fn block_capacity(b: Seq<u8>) -> int {
    b[10] * 256 + b[11]
}

/// Put the design capacity `mah` into the state data block and recompute its checksum
/// in byte 32; returns the capacity that the block held before.
pub fn update_design_capacity(blockdata: &mut [u8; 33], mah: u16) -> (r: u16)
    ensures
        r == block_capacity(old(blockdata)@),
        final(blockdata)@ == old(blockdata)@.update(10, (mah / 256) as u8).update(11, (mah % 256) as u8).update(
            32,
            (255 - byte_sum(
                old(blockdata)@.update(10, (mah / 256) as u8).update(11, (mah % 256) as u8),
                32,
            )) as u8,
        ),
{
    let lo = blockdata[11];
    let hi = blockdata[10];
    let design_capacity: u16 = (lo as u16) | ((hi as u16) << 8u16);
    proof {
        lemma_byte_pair(lo, hi);
    }
    blockdata[11] = (mah % 256) as u8;
    blockdata[10] = (mah / 256) as u8;
    assert(blockdata@ =~= old(blockdata)@.update(10, (mah / 256) as u8).update(11, (mah % 256) as u8));
    let c = compute_checksum(blockdata.as_slice());
    blockdata[32] = c;
    design_capacity
}

/// One step of the gas gauge's configuration update protocol
#[derive(Copy, Clone, PartialEq, Eq, Structural, Debug)]
pub enum GgStep {
    /// Write a 16-bit control code to a command register
    Command { cmd: u8, code: u16 },
    /// Write one byte of extended data
    SetByte { cmd: u8, val: u8 },
    /// Poll the flags until the gauge reports configuration update mode
    WaitCfgUpdate,
    /// Wait this many milliseconds
    DelayMs(u32),
}

/// Before a design capacity change: unseal the gauge (the unseal code twice), enter
/// configuration update mode and wait for it, then select the state subclass (0x52)
/// block at offset 0 for block data access
pub open spec fn unlock_steps() -> Seq<GgStep> {
    seq![
        GgStep::Command { cmd: GG_CMD_CNTL, code: GG_CODE_UNSEAL },
        GgStep::Command { cmd: GG_CMD_CNTL, code: GG_CODE_UNSEAL },
        GgStep::Command { cmd: GG_CMD_CNTL, code: GG_CODE_CFGUPDATE },
        GgStep::WaitCfgUpdate,
        GgStep::SetByte { cmd: GG_EXT_BLKDATACTL, val: 0 },
        GgStep::SetByte { cmd: GG_EXT_BLKDATACLS, val: 0x52 },
        GgStep::SetByte { cmd: GG_EXT_BLKDATAOFF, val: 0 },
    ]
}

/// The state block with the design capacity `mah` in bytes 10 (MSB) and 11 (LSB) and
/// its checksum recomputed in byte 32 (see `update_design_capacity`)
pub open spec fn updated_block(b: Seq<u8>, mah: u16) -> Seq<u8> {
    let c = b.update(10, (mah / 256) as u8).update(11, (mah % 256) as u8);
    c.update(32, (255 - byte_sum(c, 32)) as u8)
}

/// Writes of the bytes of block `b` to the block data registers, in order
pub open spec fn block_write_steps(b: Seq<u8>) -> Seq<GgStep> {
    Seq::new(b.len(), |i: int| GgStep::SetByte { cmd: (GG_EXT_BLKDATABSE + i) as u8, val: b[i] })
}

/// After the state block `b` was read: write back the block updated with `mah`, then
/// reset the gauge so that the new data takes hold, wait for it, and seal it again. The
/// gauge needs a short delay around the block write.
pub open spec fn commit_steps(b: Seq<u8>, mah: u16) -> Seq<GgStep> {
    seq![GgStep::DelayMs(2)] + block_write_steps(updated_block(b, mah)) + seq![
        GgStep::DelayMs(2),
        GgStep::Command { cmd: GG_CMD_CNTL, code: GG_CODE_RESET },
        GgStep::WaitCfgUpdate,
        GgStep::Command { cmd: GG_CMD_CNTL, code: GG_CODE_SEAL },
    ]
}

/// The steps that open the gauge for a design capacity change (see `unlock_steps`);
/// the state block is read next
pub fn design_capacity_unlock() -> (r: Vec<GgStep>)
    ensures
        r@ == unlock_steps(),
{
    let r = vec![
        GgStep::Command { cmd: GG_CMD_CNTL, code: GG_CODE_UNSEAL },
        GgStep::Command { cmd: GG_CMD_CNTL, code: GG_CODE_UNSEAL },
        GgStep::Command { cmd: GG_CMD_CNTL, code: GG_CODE_CFGUPDATE },
        GgStep::WaitCfgUpdate,
        GgStep::SetByte { cmd: GG_EXT_BLKDATACTL, val: 0 },
        GgStep::SetByte { cmd: GG_EXT_BLKDATACLS, val: 0x52 },
        GgStep::SetByte { cmd: GG_EXT_BLKDATAOFF, val: 0 },
    ];
    assert(r@ =~= unlock_steps());
    r
}

/// Given the state block read from the gauge, the design capacity it held and the steps
/// that store `mah` (see `commit_steps`)
pub fn design_capacity_commit(block: &[u8; 33], mah: u16) -> (r: (u16, Vec<GgStep>))
    ensures
        r.0 == block_capacity(block@),
        r.1@ == commit_steps(block@, mah),
{
    let mut b = *block;
    let old_cap = update_design_capacity(&mut b, mah);
    assert(b@ =~= updated_block(block@, mah));
    let mut v: Vec<GgStep> = vec![GgStep::DelayMs(2)];
    let mut i: usize = 0;
    while i < GG_BLOCK_LEN
        invariant
            i <= GG_BLOCK_LEN,
            b@.len() == GG_BLOCK_LEN,
            v@ == seq![GgStep::DelayMs(2)] + block_write_steps(b@).subrange(0, i as int),
        decreases GG_BLOCK_LEN - i,
    {
        v.push(GgStep::SetByte { cmd: GG_EXT_BLKDATABSE + i as u8, val: b[i] });
        assert(block_write_steps(b@).subrange(0, i + 1) =~= block_write_steps(b@).subrange(0, i as int).push(
            GgStep::SetByte { cmd: (GG_EXT_BLKDATABSE + i) as u8, val: b@[i as int] },
        ));
        i = i + 1;
    }
    v.push(GgStep::DelayMs(2));
    v.push(GgStep::Command { cmd: GG_CMD_CNTL, code: GG_CODE_RESET });
    v.push(GgStep::WaitCfgUpdate);
    v.push(GgStep::Command { cmd: GG_CMD_CNTL, code: GG_CODE_SEAL });
    assert(block_write_steps(b@).subrange(0, 33) =~= block_write_steps(b@));
    assert(v@ =~= commit_steps(block@, mah));
    (old_cap, v)
}

/// Design capacity (mAh) from its MSB and LSB registers
pub fn design_capacity_of(msb: u8, lsb: u8) -> (r: u16)
    ensures
        r == msb * 256 + lsb,
{
    proof {
        lemma_byte_pair(lsb, msb);
    }
    ((msb as u16) << 8u16) | (lsb as u16)
}

/// A block whose byte 32 is the checksum of its first 32 bytes sums to 255 over its
/// 33 bytes: the gauge's acceptance condition for a written block.
pub proof fn lemma_checksummed_block_sums_to_255(b: Seq<u8>)
    requires
        b.len() == 33,
        b[32] == 255 - byte_sum(b, 32),
    ensures
        byte_sum(b, 33) == 255,
{
    assert(0 <= byte_sum(b, 32) < 256) by {
        lemma_byte_sum_range(b, 32);
    }
}

/// A byte sum is a byte
proof fn lemma_byte_sum_range(d: Seq<u8>, n: int)
    ensures
        0 <= byte_sum(d, n) < 256,
    decreases n,
{
    if n > 0 {
        lemma_byte_sum_range(d, n - 1);
    }
}

} // verus!
