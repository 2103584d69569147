//! The hard I2C block (SB_I2C) of the iCE40 UP5K, driven by polling: the exact sequence
//! of register accesses and waits that makes up a transaction, and the timeout rule of
//! the waits.
//!
//! The block needs the host to guide every bus cycle in lock-step, and its flow chart
//! in the vendor documentation is only semi-accurate. The sequences here follow what
//! works: wait for TIP to clear after the address cycle, always conclude a write phase
//! with a full stop (repeated starts lose the read cycles), and never read a single
//! byte (read two and keep the first).
use vstd::prelude::*;

verus! {

// Control register bits
pub const CONTROL_I2CEN: u32 = 0b1000_0000;
pub const CONTROL_SDA_DEL_SEL_75NS: u32 = 0b0000_1000;

// Status register bits
/// transmit in progress
pub const STATUS_TIP: u32 = 0b1000_0000;
/// busy -- flags only valid if this is set
pub const STATUS_BUSY: u32 = 0b0100_0000;
/// if set, we are a slave
pub const STATUS_SRW: u32 = 0b0001_0000;
/// tx or rx registers ready
pub const STATUS_TRRDY: u32 = 0b0000_0100;

// Command register bits
pub const CMD_STA: u32 = 0b1000_0000;
pub const CMD_STO: u32 = 0b0100_0000;
pub const CMD_RD: u32 = 0b0010_0000;
pub const CMD_WR: u32 = 0b0001_0000;
pub const CMD_ACK: u32 = 0b0000_1000;
pub const CMD_CKSDIS: u32 = 0b0000_0100;

/// All interrupt status bits: ARBL, TRRDY, TROE, HGC
pub const IRQSTAT_ALL: u32 = 0b1111;

/// Start + write, clock stretching disabled
pub const CMD_START_WRITE: u32 = 0x94;
/// Write
pub const CMD_WRITE: u32 = 0x14;
/// Stop
pub const CMD_STOP: u32 = 0x44;
/// Read, NACK and stop: the last byte of a read
pub const CMD_READ_LAST: u32 = 0x6C;

/// One register access or wait of a transaction
#[derive(Copy, Clone, PartialEq, Eq, Structural, Debug)]
pub enum I2cStep {
    /// Write the transmit data register
    WriteTxd(u32),
    /// Write the command register
    Command(u32),
    /// Wait for a status bit to be set; a timeout counts one failure
    WaitSet(u32),
    /// Wait for a status bit to clear; a timeout counts one failure
    WaitClear(u32),
    /// Read the receive data register into the given byte of the read buffer
    ReadRxd(usize),
}

/// Whether a wait that started at tick `start` has run out at tick `cur`, for a timeout
/// of `timeout` ticks. When the tick counter rolled over, the elapsed time is taken as
/// `cur + (0xFFFF_FFFF - start)`.
pub open spec fn timed_out_spec(start: u32, cur: u32, timeout: u32) -> bool {
    if cur >= start {
        cur - start > timeout
    } else {
        cur + (0xFFFF_FFFF - start) > timeout
    }
}

/// Whether a wait has run out (see `timed_out_spec`)
pub fn timed_out(start: u32, cur: u32, timeout: u32) -> (r: bool)
    ensures
        r == timed_out_spec(start, cur, timeout),
{
    if cur >= start {
        (cur - start) > timeout
    } else {
        // deal with roll-over
        (cur + (0xFFFF_FFFF - start)) > timeout
    }
}

/// Prescaler value for a system clock of `clock_hz`: the I2C clock is sysclock / (4 *
/// prescale), for 100kHz. Returns the LSB and the two MSB bits; the MSB write latches
/// the value and resets the core, so it goes second.
pub fn prescale(clock_hz: u32) -> (r: (u32, u32))
    ensures
        r.0 == ((clock_hz / 100_000) / 4) % 256,
        r.1 == (((clock_hz / 100_000) / 4) / 256) % 4,
{
    let clock_code: u32 = (clock_hz / 100_000) / 4;
    assert(clock_code & 0xFF == clock_code % 256 && (clock_code >> 8) & 0x3 == (clock_code / 256) % 4)
        by (bit_vector);
    (clock_code & 0xFF, (clock_code >> 8) & 0x3)
}

/// The address byte of a transfer: the 7-bit address shifted left, with the read bit
pub open spec fn addr_byte(addr: u8, read: bool) -> u32 {
    (((addr as int * 2) % 256) + (if read { 1int } else { 0int })) as u32
}

/// Steps for byte `i` of the `n`-byte write `t`; the last one is followed by a stop
pub open spec fn tx_byte_steps(t: Seq<u8>, i: int) -> Seq<I2cStep> {
    seq![
        I2cStep::WaitSet(STATUS_TRRDY),
        I2cStep::WaitClear(STATUS_TIP),
        I2cStep::WriteTxd(t[i] as u32),
        I2cStep::Command(CMD_WRITE),
    ] + if i == t.len() - 1 {
        seq![
            I2cStep::WaitSet(STATUS_TRRDY),
            I2cStep::Command(CMD_STOP),
            I2cStep::WaitClear(STATUS_BUSY),
        ]
    } else {
        Seq::empty()
    }
}

/// Steps for the first `n` bytes of the write `t`
pub open spec fn tx_body(t: Seq<u8>, n: nat) -> Seq<I2cStep>
    decreases n,
{
    if n == 0 {
        Seq::empty()
    } else {
        tx_body(t, (n - 1) as nat) + tx_byte_steps(t, n - 1)
    }
}

/// Steps for byte `i` of an `n`-byte read. The last byte is read with NACK and stop;
/// a single-byte read does a dummy read first.
pub open spec fn rx_byte_steps(n: int, i: int) -> Seq<I2cStep> {
    if i == n - 1 {
        (if n == 1 {
            seq![
                I2cStep::WaitSet(STATUS_TRRDY),
                I2cStep::ReadRxd(0),
                I2cStep::Command(CMD_READ_LAST),
                I2cStep::WaitSet(STATUS_TRRDY),
            ]
        } else {
            Seq::empty()
        }) + seq![
            I2cStep::Command(CMD_READ_LAST),
            I2cStep::WaitSet(STATUS_TRRDY),
            I2cStep::ReadRxd(i as usize),
        ]
    } else {
        seq![I2cStep::WaitSet(STATUS_TRRDY), I2cStep::ReadRxd(i as usize)]
    }
}

/// Steps for the first `k` bytes of an `n`-byte read
pub open spec fn rx_body(n: int, k: nat) -> Seq<I2cStep>
    decreases k,
{
    if k == 0 {
        Seq::empty()
    } else {
        rx_body(n, (k - 1) as nat) + rx_byte_steps(n, k - 1)
    }
}

/// The steps of a transaction with `addr`: an optional write phase of the bytes `tx`,
/// the wait for its stop to complete, and an optional read phase of `rx_len` bytes
pub open spec fn controller_steps(addr: u8, tx: Option<Seq<u8>>, rx_len: Option<usize>) -> Seq<I2cStep> {
    let write_phase = match tx {
        Some(t) => seq![
            I2cStep::WriteTxd(addr_byte(addr, false)),
            I2cStep::WaitClear(STATUS_TRRDY),
            I2cStep::Command(CMD_START_WRITE),
        ] + tx_body(t, t.len()),
        None => Seq::empty(),
    };
    let read_phase = match rx_len {
        Some(n) => seq![
            I2cStep::WriteTxd(addr_byte(addr, true)),
            I2cStep::WaitClear(STATUS_TRRDY),
            I2cStep::Command(CMD_START_WRITE),
            I2cStep::WaitSet(STATUS_SRW),
            I2cStep::Command(CMD_RD),
        ] + rx_body(n as int, n as nat),
        None => Seq::empty(),
    };
    write_phase + seq![I2cStep::WaitClear(STATUS_BUSY)] + read_phase
}

/// The address byte of a transfer
fn address_byte(addr: u8, read: bool) -> (r: u32)
    ensures
        r == addr_byte(addr, read),
{
    let shifted: u8 = #[verifier::truncate] ((addr as u32 * 2) as u8);
    assert(shifted == (addr as int * 2) % 256) by (bit_vector)
        requires
            shifted == (addr as u32 * 2) as u8,
    ;
    if read {
        shifted as u32 + 1
    } else {
        shifted as u32
    }
}

/// Append the steps of the write phase body for the bytes `t`
fn push_tx_body(v: &mut Vec<I2cStep>, t: &[u8])
    ensures
        final(v)@ == old(v)@ + tx_body(t@, t@.len()),
{
    let mut i: usize = 0;
    while i < t.len()
        invariant
            i <= t@.len(),
            v@ == old(v)@ + tx_body(t@, i as nat),
        decreases t.len() - i,
    {
        let ghost before = v@;
        v.push(I2cStep::WaitSet(STATUS_TRRDY));
        // wait until the transaction in progress is done
        v.push(I2cStep::WaitClear(STATUS_TIP));
        v.push(I2cStep::WriteTxd(t[i] as u32));
        v.push(I2cStep::Command(CMD_WRITE));
        if i == t.len() - 1 {
            // repeated-start does not work with this IP block; always stop
            v.push(I2cStep::WaitSet(STATUS_TRRDY));
            v.push(I2cStep::Command(CMD_STOP));
            v.push(I2cStep::WaitClear(STATUS_BUSY));
        }
        assert(v@ =~= before + tx_byte_steps(t@, i as int));
        assert(tx_body(t@, (i + 1) as nat) == tx_body(t@, i as nat) + tx_byte_steps(t@, i as int));
        i = i + 1;
    }
}

/// Append the steps of the read phase body for `n` bytes
fn push_rx_body(v: &mut Vec<I2cStep>, n: usize)
    ensures
        final(v)@ == old(v)@ + rx_body(n as int, n as nat),
{
    let mut i: usize = 0;
    while i < n
        invariant
            i <= n,
            v@ == old(v)@ + rx_body(n as int, i as nat),
        decreases n - i,
    {
        let ghost before = v@;
        if i == n - 1 {
            if n == 1 {
                // a single byte cannot be read: read it, then do a dummy read
                v.push(I2cStep::WaitSet(STATUS_TRRDY));
                v.push(I2cStep::ReadRxd(0));
                v.push(I2cStep::Command(CMD_READ_LAST));
                v.push(I2cStep::WaitSet(STATUS_TRRDY));
            }
            // initiate the "read stop" command
            v.push(I2cStep::Command(CMD_READ_LAST));
            v.push(I2cStep::WaitSet(STATUS_TRRDY));
            v.push(I2cStep::ReadRxd(i));
        } else {
            // RD command implicitly repeats -- no need to re-issue the command
            v.push(I2cStep::WaitSet(STATUS_TRRDY));
            v.push(I2cStep::ReadRxd(i));
        }
        assert(v@ =~= before + rx_byte_steps(n as int, i as int));
        assert(rx_body(n as int, (i + 1) as nat) == rx_body(n as int, i as nat) + rx_byte_steps(
            n as int,
            i as int,
        ));
        i = i + 1;
    }
}

/// The steps of a transaction (see `controller_steps`): write `txbuf` if given, then
/// read `rx_len` bytes if given. The caller runs them in order against the block; the
/// transaction's result is the number of waits that timed out.
pub fn i2c_controller(addr: u8, txbuf: Option<&[u8]>, rx_len: Option<usize>) -> (r: Vec<I2cStep>)
    ensures
        r@ == controller_steps(
            addr,
            match txbuf {
                Some(t) => Some(t@),
                None => None,
            },
            rx_len,
        ),
{
    let mut v: Vec<I2cStep> = Vec::new();
    // write half
    if let Some(t) = txbuf {
        v.push(I2cStep::WriteTxd(address_byte(addr, false)));
        // trrdy should drop when data is accepted
        v.push(I2cStep::WaitClear(STATUS_TRRDY));
        // issue write+start
        v.push(I2cStep::Command(CMD_START_WRITE));
        push_tx_body(&mut v, t);
    }
    // let the write "stop" condition complete
    v.push(I2cStep::WaitClear(STATUS_BUSY));
    // read half
    if let Some(n) = rx_len {
        // set "read" for address mode
        v.push(I2cStep::WriteTxd(address_byte(addr, true)));
        // ensure the address write was committed
        v.push(I2cStep::WaitClear(STATUS_TRRDY));
        // issue bus write + start
        v.push(I2cStep::Command(CMD_START_WRITE));
        // SRW goes high once the address is sent and we're in read mode
        v.push(I2cStep::WaitSet(STATUS_SRW));
        // issue the "read" command
        v.push(I2cStep::Command(CMD_RD));
        push_rx_body(&mut v, n);
    }
    proof {
        let tx = match txbuf {
            Some(t) => Some(t@),
            None => None,
        };
        assert(v@ =~= controller_steps(addr, tx, rx_len));
    }
    v
}

/// The steps that address register `reg` of device `addr` for writing: the address
/// byte with a start, then the register byte
pub open spec fn reg_select_steps(addr: u8, reg: u8) -> Seq<I2cStep> {
    seq![
        I2cStep::WriteTxd(addr_byte(addr, false)),
        I2cStep::WaitClear(STATUS_TRRDY),
        I2cStep::Command(CMD_START_WRITE),
        I2cStep::WaitSet(STATUS_TRRDY),
        I2cStep::WaitClear(STATUS_TIP),
        I2cStep::WriteTxd(reg as u32),
        I2cStep::Command(CMD_WRITE),
    ]
}

/// The steps of `i2c_controller_write_ffi`: select register `reg`, write the bytes
/// `data` (the last one followed by a stop), then wait for the stop to complete
pub open spec fn write_reg_steps(addr: u8, reg: u8, data: Seq<u8>) -> Seq<I2cStep> {
    reg_select_steps(addr, reg) + tx_body(data, data.len()) + seq![I2cStep::WaitClear(STATUS_BUSY)]
}

/// Steps for byte `i` of an `n`-byte register read. The last byte is read with NACK and
/// stop; a single-byte read reads its byte first and only issues the final command.
pub open spec fn reg_rx_byte_steps(n: int, i: int) -> Seq<I2cStep> {
    if i == n - 1 {
        if n == 1 {
            seq![
                I2cStep::WaitSet(STATUS_TRRDY),
                I2cStep::ReadRxd(0),
                I2cStep::Command(CMD_READ_LAST),
                I2cStep::WaitSet(STATUS_TRRDY),
            ]
        } else {
            seq![
                I2cStep::Command(CMD_READ_LAST),
                I2cStep::WaitSet(STATUS_TRRDY),
                I2cStep::ReadRxd(i as usize),
            ]
        }
    } else {
        seq![I2cStep::WaitSet(STATUS_TRRDY), I2cStep::ReadRxd(i as usize)]
    }
}

/// Steps for the first `k` bytes of an `n`-byte register read
pub open spec fn reg_rx_body(n: int, k: nat) -> Seq<I2cStep>
    decreases k,
{
    if k == 0 {
        Seq::empty()
    } else {
        reg_rx_body(n, (k - 1) as nat) + reg_rx_byte_steps(n, k - 1)
    }
}

/// The steps of `i2c_controller_read_ffi`: select register `reg`, wait for the register
/// byte to go out, then a repeated start in read mode and the read of `n` bytes
pub open spec fn read_reg_steps(addr: u8, reg: u8, n: usize) -> Seq<I2cStep> {
    reg_select_steps(addr, reg) + seq![
        I2cStep::WaitSet(STATUS_TRRDY),
        I2cStep::WaitClear(STATUS_TIP),
        I2cStep::WriteTxd(addr_byte(addr, true)),
        I2cStep::WaitClear(STATUS_TRRDY),
        I2cStep::Command(CMD_START_WRITE),
        I2cStep::WaitSet(STATUS_SRW),
        I2cStep::Command(CMD_RD),
    ] + reg_rx_body(n as int, n as nat)
}

/// Append the steps that select register `reg` of device `addr` for writing
fn push_reg_select(v: &mut Vec<I2cStep>, addr: u8, reg: u8)
    ensures
        final(v)@ == old(v)@ + reg_select_steps(addr, reg),
{
    v.push(I2cStep::WriteTxd(address_byte(addr, false)));
    // trrdy should drop when data is accepted
    v.push(I2cStep::WaitClear(STATUS_TRRDY));
    // issue write+start
    v.push(I2cStep::Command(CMD_START_WRITE));
    // write the register destination field
    v.push(I2cStep::WaitSet(STATUS_TRRDY));
    // wait until the transaction in progress is done
    v.push(I2cStep::WaitClear(STATUS_TIP));
    v.push(I2cStep::WriteTxd(reg as u32));
    v.push(I2cStep::Command(CMD_WRITE));
    assert(final(v)@ =~= old(v)@ + reg_select_steps(addr, reg));
}

/// The steps of a write of the bytes `data` to register `reg` of device `addr`, for
/// the C driver's register access hooks (see `write_reg_steps`). The caller runs them
/// in order; the result is the number of waits that timed out.
pub fn i2c_controller_write_ffi(addr: u8, reg: u8, data: &[u8]) -> (r: Vec<I2cStep>)
    ensures
        r@ == write_reg_steps(addr, reg, data@),
{
    let mut v: Vec<I2cStep> = Vec::new();
    push_reg_select(&mut v, addr, reg);
    // now write the data block
    push_tx_body(&mut v, data);
    // let the write "stop" condition complete
    v.push(I2cStep::WaitClear(STATUS_BUSY));
    assert(v@ =~= write_reg_steps(addr, reg, data@));
    v
}

/// The steps of a read of `rx_len` bytes from register `reg` of device `addr`, for the
/// C driver's register access hooks (see `read_reg_steps`). The caller runs them in
/// order; the result is the number of waits that timed out.
pub fn i2c_controller_read_ffi(addr: u8, reg: u8, rx_len: usize) -> (r: Vec<I2cStep>)
    ensures
        r@ == read_reg_steps(addr, reg, rx_len),
{
    let mut v: Vec<I2cStep> = Vec::new();
    push_reg_select(&mut v, addr, reg);
    // trrdy going high indicates the register byte was accepted
    v.push(I2cStep::WaitSet(STATUS_TRRDY));
    v.push(I2cStep::WaitClear(STATUS_TIP));
    // set "read" for address mode
    v.push(I2cStep::WriteTxd(address_byte(addr, true)));
    // ensure the address write was committed
    v.push(I2cStep::WaitClear(STATUS_TRRDY));
    // issue bus write + repeated start
    v.push(I2cStep::Command(CMD_START_WRITE));
    // SRW goes high once the address is sent and we're in read mode
    v.push(I2cStep::WaitSet(STATUS_SRW));
    // issue the "read" command
    v.push(I2cStep::Command(CMD_RD));
    let ghost head = v@;
    let mut i: usize = 0;
    while i < rx_len
        invariant
            i <= rx_len,
            v@ == head + reg_rx_body(rx_len as int, i as nat),
        decreases rx_len - i,
    {
        let ghost before = v@;
        if i == rx_len - 1 {
            if rx_len == 1 {
                // wait for trrdy to indicate data is available, read it, then
                // initiate the "read stop" command
                v.push(I2cStep::WaitSet(STATUS_TRRDY));
                v.push(I2cStep::ReadRxd(0));
                v.push(I2cStep::Command(CMD_READ_LAST));
                v.push(I2cStep::WaitSet(STATUS_TRRDY));
            } else {
                // initiate the "read stop" command, then read the last byte
                v.push(I2cStep::Command(CMD_READ_LAST));
                v.push(I2cStep::WaitSet(STATUS_TRRDY));
                v.push(I2cStep::ReadRxd(i));
            }
        } else {
            // RD command implicitly repeats -- no need to re-issue the command
            v.push(I2cStep::WaitSet(STATUS_TRRDY));
            v.push(I2cStep::ReadRxd(i));
        }
        assert(v@ =~= before + reg_rx_byte_steps(rx_len as int, i as int));
        assert(reg_rx_body(rx_len as int, (i + 1) as nat) == reg_rx_body(rx_len as int, i as nat)
            + reg_rx_byte_steps(rx_len as int, i as int));
        i = i + 1;
    }
    assert(v@ =~= read_reg_steps(addr, reg, rx_len));
    v
}

/// The command values are the combinations of command bits that the block needs
pub proof fn lemma_command_values()
    by (bit_vector)
    ensures
        CMD_START_WRITE == CMD_STA | CMD_WR | CMD_CKSDIS,
        CMD_WRITE == CMD_WR | CMD_CKSDIS,
        CMD_STOP == CMD_STO | CMD_CKSDIS,
        CMD_READ_LAST == CMD_RD | CMD_STO | CMD_ACK | CMD_CKSDIS,
{
}

} // verus!
