//! Transactions of the LiteX (OpenCores style) I2C master: the register writes, the
//! waits for the transfer-in-progress flag and the acknowledge checks of a write phase
//! and a read phase, in bus order. The caller performs them against the block and adds
//! up the failures (timed out waits and missing acknowledges).
use vstd::prelude::*;

verus! {

/// One register access or wait of a transaction
#[derive(Copy, Clone, PartialEq, Eq, Structural, Debug)]
pub enum LitexI2cStep {
    /// Write the transmit register
    WriteTxr(u32),
    /// Write the command register with the given command bits set
    Command { start: bool, stop: bool, read: bool, write: bool, ack: bool },
    /// Wait for the transfer-in-progress flag to rise and fall, then clear the command
    /// register; a timeout counts one failure
    TipWait,
    /// Count one failure if the slave did not acknowledge the last byte
    CheckRxAck,
    /// Read the receive register into the given byte of the read buffer
    ReadRxr(usize),
}

/// Write command, with a start condition when `start`
pub open spec fn write_cmd(start: bool, stop: bool) -> LitexI2cStep {
    LitexI2cStep::Command { start, stop, read: false, write: true, ack: false }
}

/// Read command; the last byte is read with NACK and a stop condition
pub open spec fn read_cmd(last: bool) -> LitexI2cStep {
    LitexI2cStep::Command { start: false, stop: last, read: true, write: false, ack: last }
}

/// The address byte of a transfer: the 7-bit address shifted left, with the read bit
pub open spec fn litex_addr_byte(addr: u8, read: bool) -> u32 {
    (((addr as int * 2) % 256) + (if read { 1int } else { 0int })) as u32
}

/// Steps for byte `i` of the write `t`; the last byte carries the stop condition when
/// no read phase follows
pub open spec fn write_byte_steps(t: Seq<u8>, i: int, then_read: bool) -> Seq<LitexI2cStep> {
    seq![
        LitexI2cStep::CheckRxAck,
        LitexI2cStep::WriteTxr(t[i] as u32),
        write_cmd(false, i == t.len() - 1 && !then_read),
        LitexI2cStep::TipWait,
    ]
}

/// Steps for the first `n` bytes of the write `t`
pub open spec fn write_body(t: Seq<u8>, n: nat, then_read: bool) -> Seq<LitexI2cStep>
    decreases n,
{
    if n == 0 {
        Seq::empty()
    } else {
        write_body(t, (n - 1) as nat, then_read) + write_byte_steps(t, n - 1, then_read)
    }
}

/// Steps for byte `i` of an `n`-byte read
pub open spec fn read_byte_steps(n: int, i: int) -> Seq<LitexI2cStep> {
    seq![read_cmd(i == n - 1), LitexI2cStep::TipWait, LitexI2cStep::ReadRxr(i as usize)]
}

/// Steps for the first `k` bytes of an `n`-byte read
pub open spec fn read_body(n: int, k: nat) -> Seq<LitexI2cStep>
    decreases k,
{
    if k == 0 {
        Seq::empty()
    } else {
        read_body(n, (k - 1) as nat) + read_byte_steps(n, k - 1)
    }
}

/// The steps of a transaction with `addr`: an optional write phase of the bytes `tx`
/// (address with start, each byte after an acknowledge check, a final acknowledge
/// check), then an optional read phase of `rx_len` bytes
pub open spec fn litex_steps(addr: u8, tx: Option<Seq<u8>>, rx_len: Option<usize>) -> Seq<LitexI2cStep> {
    let write_phase = match tx {
        Some(t) => seq![
            LitexI2cStep::WriteTxr(litex_addr_byte(addr, false)),
            write_cmd(true, false),
            LitexI2cStep::TipWait,
        ] + write_body(t, t.len(), rx_len is Some) + seq![LitexI2cStep::CheckRxAck],
        None => Seq::empty(),
    };
    let read_phase = match rx_len {
        Some(n) => seq![
            LitexI2cStep::WriteTxr(litex_addr_byte(addr, true)),
            write_cmd(true, false),
            LitexI2cStep::TipWait,
        ] + read_body(n as int, n as nat),
        None => Seq::empty(),
    };
    write_phase + read_phase
}

/// The address byte of a transfer
fn address_byte(addr: u8, read: bool) -> (r: u32)
    ensures
        r == litex_addr_byte(addr, read),
{
    let shifted: u32 = (addr as u32 * 2) % 256;
    if read {
        shifted + 1
    } else {
        shifted
    }
}

/// The I2C master of the SoC-side LiteX block
pub struct Hardi2c {}

impl Hardi2c {
    /// The steps of a transaction (see `litex_steps`): write `txbuf` if given, then read
    /// `rx_len` bytes if given
    pub fn i2c_controller(addr: u8, txbuf: Option<&[u8]>, rx_len: Option<usize>) -> (r: Vec<LitexI2cStep>)
        ensures
            r@ == litex_steps(
                addr,
                match txbuf {
                    Some(t) => Some(t@),
                    None => None,
                },
                rx_len,
            ),
    {
        let mut v: Vec<LitexI2cStep> = Vec::new();
        let do_rx = rx_len.is_some();
        // write half
        if let Some(t) = txbuf {
            v.push(LitexI2cStep::WriteTxr(address_byte(addr, false)));
            v.push(LitexI2cStep::Command { start: true, stop: false, read: false, write: true, ack: false });
            v.push(LitexI2cStep::TipWait);
            let ghost head = v@;
            let mut i: usize = 0;
            while i < t.len()
                invariant
                    i <= t@.len(),
                    v@ == head + write_body(t@, i as nat, do_rx),
                decreases t.len() - i,
            {
                let ghost before = v@;
                v.push(LitexI2cStep::CheckRxAck);
                v.push(LitexI2cStep::WriteTxr(t[i] as u32));
                let stop = i == t.len() - 1 && !do_rx;
                v.push(LitexI2cStep::Command { start: false, stop, read: false, write: true, ack: false });
                v.push(LitexI2cStep::TipWait);
                assert(v@ =~= before + write_byte_steps(t@, i as int, do_rx));
                i = i + 1;
            }
            v.push(LitexI2cStep::CheckRxAck);
        }
        let ghost mid = v@;
        // read half
        if let Some(n) = rx_len {
            v.push(LitexI2cStep::WriteTxr(address_byte(addr, true)));
            v.push(LitexI2cStep::Command { start: true, stop: false, read: false, write: true, ack: false });
            v.push(LitexI2cStep::TipWait);
            let ghost head = v@;
            let mut i: usize = 0;
            while i < n
                invariant
                    i <= n,
                    v@ == head + read_body(n as int, i as nat),
                decreases n - i,
            {
                let ghost before = v@;
                let last = i == n - 1;
                v.push(LitexI2cStep::Command { start: false, stop: last, read: true, write: false, ack: last });
                v.push(LitexI2cStep::TipWait);
                v.push(LitexI2cStep::ReadRxr(i));
                assert(v@ =~= before + read_byte_steps(n as int, i as int));
                i = i + 1;
            }
        }
        proof {
            let tx = match txbuf {
                Some(t) => Some(t@),
                None => None,
            };
            assert(v@ =~= litex_steps(addr, tx, rx_len));
        }
        v
    }

    /// Prescaler for a system clock of `clock_hz`, for a 100kHz bus: sysclock / (5 * 100kHz)
    /// - 1. A clock below 500kHz has no prescaler.
    pub fn i2c_init(clock_hz: u32) -> (r: u32)
        requires
            clock_hz >= 500_000,
        ensures
            r == clock_hz / 500_000 - 1,
    {
        clock_hz / (5 * 100_000) - 1
    }
}

/// The steps of a transaction with plain buffers: an empty write buffer means no write
/// phase and an empty read means no read phase (see `i2c_controller`)
pub fn i2c_master(addr: u8, txbuf: &[u8], rx_len: usize) -> (r: Vec<LitexI2cStep>)
    ensures
        r@ == litex_steps(
            addr,
            if txbuf@.len() > 0 { Some(txbuf@) } else { None },
            if rx_len > 0 { Some(rx_len) } else { None },
        ),
{
    let tx = if txbuf.len() > 0 { Some(txbuf) } else { None };
    let rx = if rx_len > 0 { Some(rx_len) } else { None };
    Hardi2c::i2c_controller(addr, tx, rx)
}

/// The two prescaler register bytes (low, high) for a system clock of `clock_mhz` MHz
pub fn i2c_init(clock_mhz: u32) -> (r: (u32, u32))
    requires
        1 <= clock_mhz <= 4294,
    ensures
        r.0 == ((clock_mhz * 1_000_000) / 500_000 - 1) % 256,
        r.1 == (((clock_mhz * 1_000_000) / 500_000 - 1) / 256) % 256,
{
    let clkcode: u32 = (clock_mhz * 1_000_000) / (5 * 100_000) - 1;
    (clkcode % 256, (clkcode / 256) % 256)
}

/// Whether a wait that started at `start` ms has run out at `now` ms, for a timeout of
/// `timeout_ms`
pub fn tip_timed_out(start: u32, now: u32, timeout_ms: u32) -> (r: bool)
    requires
        start + timeout_ms <= u32::MAX,
    ensures
        r == (now > start + timeout_ms),
{
    now > start + timeout_ms
}

} // verus!
