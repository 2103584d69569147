//! SPI flash commands issued by bit-banging the PicoRV SPI controller: the command
//! table, the exact sequence of bus operations that each command takes, the bit and
//! nibble order on the wires, and the choice of erase blocks for a region.
use vstd::prelude::*;

verus! {

/// A SPI flash command and how it is carried on the bus
#[derive(Copy, Clone, PartialEq, Eq, Structural, Debug)]
pub struct SpiCmd {
    pub command: u8,
    pub is_quad: bool,
    pub is_read: bool,
    pub use_addr: bool,
    pub has_data: bool,
    pub dummy: Option<u8>,
    /// if a fixed number of read bytes are stipulated by command
    pub return_count: Option<u8>,
}

/// Read identification: 3 bytes
pub fn cmd_rdid() -> (r: SpiCmd)
    ensures
        r == (SpiCmd { command: 0x9f, is_quad: false, is_read: true, use_addr: false, has_data: false, dummy: None, return_count: Some(3) }),
{
    SpiCmd { command: 0x9f, is_quad: false, is_read: true, use_addr: false, has_data: false, dummy: None, return_count: Some(3) }
}

/// Write status register; abuses "addr" as SR data
pub fn cmd_wrsr() -> (r: SpiCmd)
    ensures
        r == (SpiCmd { command: 0x01, is_quad: false, is_read: false, use_addr: true, has_data: false, dummy: None, return_count: None }),
{
    SpiCmd { command: 0x01, is_quad: false, is_read: false, use_addr: true, has_data: false, dummy: None, return_count: None }
}

/// No operation
pub fn cmd_nop() -> (r: SpiCmd)
    ensures
        r == (SpiCmd { command: 0x00, is_quad: false, is_read: false, use_addr: false, has_data: false, dummy: None, return_count: None }),
{
    SpiCmd { command: 0x00, is_quad: false, is_read: false, use_addr: false, has_data: false, dummy: None, return_count: None }
}

/// Write enable
pub fn cmd_wren() -> (r: SpiCmd)
    ensures
        r == (SpiCmd { command: 0x06, is_quad: false, is_read: false, use_addr: false, has_data: false, dummy: None, return_count: None }),
{
    SpiCmd { command: 0x06, is_quad: false, is_read: false, use_addr: false, has_data: false, dummy: None, return_count: None }
}

/// Read status register: 1 byte
pub fn cmd_rdsr() -> (r: SpiCmd)
    ensures
        r == (SpiCmd { command: 0x05, is_quad: false, is_read: true, use_addr: false, has_data: false, dummy: None, return_count: Some(1) }),
{
    SpiCmd { command: 0x05, is_quad: false, is_read: true, use_addr: false, has_data: false, dummy: None, return_count: Some(1) }
}

/// Read security register: 1 byte
pub fn cmd_rdscur() -> (r: SpiCmd)
    ensures
        r == (SpiCmd { command: 0x2B, is_quad: false, is_read: true, use_addr: false, has_data: false, dummy: None, return_count: Some(1) }),
{
    SpiCmd { command: 0x2B, is_quad: false, is_read: true, use_addr: false, has_data: false, dummy: None, return_count: Some(1) }
}

/// Read configuration register: 2 bytes
pub fn cmd_rdcr() -> (r: SpiCmd)
    ensures
        r == (SpiCmd { command: 0x15, is_quad: false, is_read: true, use_addr: false, has_data: false, dummy: None, return_count: Some(2) }),
{
    SpiCmd { command: 0x15, is_quad: false, is_read: true, use_addr: false, has_data: false, dummy: None, return_count: Some(2) }
}

/// Sector erase (4 KiB)
pub fn cmd_se() -> (r: SpiCmd)
    ensures
        r == (SpiCmd { command: 0x20, is_quad: false, is_read: false, use_addr: true, has_data: false, dummy: None, return_count: None }),
{
    SpiCmd { command: 0x20, is_quad: false, is_read: false, use_addr: true, has_data: false, dummy: None, return_count: None }
}

/// Block erase (32 KiB)
pub fn cmd_be32k() -> (r: SpiCmd)
    ensures
        r == (SpiCmd { command: 0x52, is_quad: false, is_read: false, use_addr: true, has_data: false, dummy: None, return_count: None }),
{
    SpiCmd { command: 0x52, is_quad: false, is_read: false, use_addr: true, has_data: false, dummy: None, return_count: None }
}

/// Block erase (64 KiB)
pub fn cmd_be64k() -> (r: SpiCmd)
    ensures
        r == (SpiCmd { command: 0xD8, is_quad: false, is_read: false, use_addr: true, has_data: false, dummy: None, return_count: None }),
{
    SpiCmd { command: 0xD8, is_quad: false, is_read: false, use_addr: true, has_data: false, dummy: None, return_count: None }
}

/// Quad page program
pub fn cmd_4pp() -> (r: SpiCmd)
    ensures
        r == (SpiCmd { command: 0x38, is_quad: true, is_read: false, use_addr: true, has_data: true, dummy: None, return_count: None }),
{
    SpiCmd { command: 0x38, is_quad: true, is_read: false, use_addr: true, has_data: true, dummy: None, return_count: None }
}

/// Quad read, 6 dummy cycles
pub fn cmd_4read() -> (r: SpiCmd)
    ensures
        r == (SpiCmd { command: 0xEB, is_quad: true, is_read: true, use_addr: true, has_data: true, dummy: Some(6), return_count: None }),
{
    SpiCmd { command: 0xEB, is_quad: true, is_read: true, use_addr: true, has_data: true, dummy: Some(6), return_count: None }
}

/// Write disable
pub fn cmd_wrdi() -> (r: SpiCmd)
    ensures
        r == (SpiCmd { command: 0x04, is_quad: false, is_read: false, use_addr: false, has_data: false, dummy: None, return_count: None }),
{
    SpiCmd { command: 0x04, is_quad: false, is_read: false, use_addr: false, has_data: false, dummy: None, return_count: None }
}

/// Status register: write enable latch
pub const SPI_SR_WEL_MASK: u8 = 0x2;
/// Status register: write in progress
pub const SPI_SR_WIP_MASK: u8 = 0x1;
/// Security register: erase failed
pub const SPI_RDSCUR_E_FAIL_MASK: u8 = 0x40;
/// Security register: program failed
pub const SPI_RDSCUR_P_FAIL_MASK: u8 = 0x20;

/// One operation on the bit-banged bus
#[derive(Copy, Clone, PartialEq, Eq, Structural, Debug)]
pub enum SpiStep {
    /// Set the controller mode: bit-bang on or off, chip select level
    Mode { bitbang: bool, csn: bool },
    /// Shift a byte out on one wire, most significant bit first
    Write1(u8),
    /// Shift a byte out on four wires, high nibble first
    WriteQuad(u8),
    /// Shift a byte in on one wire into the given byte of the data buffer
    Read1(usize),
    /// Shift a byte in on four wires into the given byte of the data buffer
    ReadQuad(usize),
    /// Turn the output drivers off
    DriversOff,
}

/// Entering bit-bang mode, lowering CS, then shifting out the command byte
pub open spec fn cmd_prefix(command: u8) -> Seq<SpiStep> {
    seq![
        SpiStep::Mode { bitbang: false, csn: true },
        SpiStep::Mode { bitbang: true, csn: true },
        SpiStep::Mode { bitbang: true, csn: false },
        SpiStep::Write1(command),
    ]
}

/// Raising CS, drivers off, leaving bit-bang mode: done before any exit
pub open spec fn exit_steps() -> Seq<SpiStep> {
    seq![
        SpiStep::Mode { bitbang: true, csn: true },
        SpiStep::DriversOff,
        SpiStep::Mode { bitbang: false, csn: true },
    ]
}

/// The three address bytes, most significant first, on one or four wires
pub open spec fn addr_steps(a: u32, quad: bool) -> Seq<SpiStep> {
    let b2 = ((a / 0x1_0000) % 256) as u8;
    let b1 = ((a / 0x100) % 256) as u8;
    let b0 = (a % 256) as u8;
    if quad {
        seq![SpiStep::WriteQuad(b2), SpiStep::WriteQuad(b1), SpiStep::WriteQuad(b0)]
    } else {
        seq![SpiStep::Write1(b2), SpiStep::Write1(b1), SpiStep::Write1(b0)]
    }
}

/// `n` dummy bytes on one or four wires
pub open spec fn dummy_steps(n: nat, quad: bool) -> Seq<SpiStep> {
    Seq::new(n, |i: int| if quad { SpiStep::WriteQuad(0) } else { SpiStep::Write1(0) })
}

/// Reads of `n` bytes into the data buffer, on one or four wires
pub open spec fn read_steps(n: nat, quad: bool) -> Seq<SpiStep> {
    Seq::new(n, |i: int| if quad { SpiStep::ReadQuad(i as usize) } else { SpiStep::Read1(i as usize) })
}

/// Writes of the bytes `d` on four wires
pub open spec fn quad_write_steps(d: Seq<u8>) -> Seq<SpiStep> {
    Seq::new(d.len(), |i: int| SpiStep::WriteQuad(d[i]))
}

/// The bus operations of `spi_cmd` and whether the command succeeds. The command byte
/// always goes out; a missing address, a missing or too short data buffer, or a
/// single-wire data write (not defined) ends the command there, unsuccessfully.
pub open spec fn spi_cmd_steps(cmd: SpiCmd, address: Option<u32>, data: Option<Seq<u8>>) -> (Seq<SpiStep>, bool) {
    let p = cmd_prefix(cmd.command);
    let quad = cmd.is_quad;
    if cmd.use_addr && address is None {
        (p + exit_steps(), false)
    } else {
        let a = if cmd.use_addr { addr_steps(address.unwrap(), quad) } else { Seq::empty() };
        let d = match cmd.dummy {
            Some(n) => dummy_steps(n as nat, quad),
            None => Seq::empty(),
        };
        if !quad {
            if cmd.is_read {
                match cmd.return_count {
                    Some(c) => match data {
                        Some(buf) => if buf.len() < c {
                            (p + a + d + exit_steps(), false)
                        } else {
                            (p + a + d + read_steps(c as nat, false) + exit_steps(), true)
                        },
                        None => (p + a + d + exit_steps(), false),
                    },
                    None => (p + a + d + exit_steps(), true),
                }
            } else if cmd.has_data {
                (p + a + exit_steps(), false)
            } else {
                (p + a + exit_steps(), true)
            }
        } else if cmd.is_read {
            match data {
                Some(buf) => (p + a + d + read_steps(buf.len(), true) + exit_steps(), true),
                None => (p + a + d + exit_steps(), false),
            }
        } else {
            match data {
                Some(buf) => (p + a + quad_write_steps(buf) + exit_steps(), true),
                None => (p + a + exit_steps(), false),
            }
        }
    }
}

/// Append the exit steps
fn push_exit(v: &mut Vec<SpiStep>)
    ensures
        final(v)@ == old(v)@ + exit_steps(),
{
    let ghost v0 = v@;
    // raise CS
    v.push(SpiStep::Mode { bitbang: true, csn: true });
    // ensure drivers are off to save power
    v.push(SpiStep::DriversOff);
    // exit bitbang mode
    v.push(SpiStep::Mode { bitbang: false, csn: true });
    assert(v@ =~= v0 + exit_steps());
}

/// Append the address bytes
fn push_addr(v: &mut Vec<SpiStep>, a: u32, quad: bool)
    ensures
        final(v)@ == old(v)@ + addr_steps(a, quad),
{
    let ghost v0 = v@;
    let b2: u8 = ((a >> 16) & 0xFF) as u8;
    let b1: u8 = ((a >> 8) & 0xFF) as u8;
    let b0: u8 = (a & 0xFF) as u8;
    assert((a >> 16) & 0xFF == (a / 0x1_0000) % 256 && (a >> 8) & 0xFF == (a / 0x100) % 256 && a & 0xFF == a % 256)
        by (bit_vector);
    if quad {
        v.push(SpiStep::WriteQuad(b2));
        v.push(SpiStep::WriteQuad(b1));
        v.push(SpiStep::WriteQuad(b0));
    } else {
        v.push(SpiStep::Write1(b2));
        v.push(SpiStep::Write1(b1));
        v.push(SpiStep::Write1(b0));
    }
    assert(v@ =~= v0 + addr_steps(a, quad));
}

/// Append `n` dummy bytes
fn push_dummy(v: &mut Vec<SpiStep>, n: u8, quad: bool)
    ensures
        final(v)@ == old(v)@ + dummy_steps(n as nat, quad),
{
    let ghost v0 = v@;
    let mut i: u8 = 0;
    while i < n
        invariant
            i <= n,
            v@ == v0 + dummy_steps(i as nat, quad),
        decreases n - i,
    {
        if quad {
            v.push(SpiStep::WriteQuad(0));
        } else {
            v.push(SpiStep::Write1(0));
        }
        assert(v@ =~= v0 + dummy_steps((i + 1) as nat, quad));
        i = i + 1;
    }
}

/// Append reads of `n` bytes
fn push_reads(v: &mut Vec<SpiStep>, n: usize, quad: bool)
    ensures
        final(v)@ == old(v)@ + read_steps(n as nat, quad),
{
    let ghost v0 = v@;
    let mut i: usize = 0;
    while i < n
        invariant
            i <= n,
            v@ == v0 + read_steps(i as nat, quad),
        decreases n - i,
    {
        if quad {
            v.push(SpiStep::ReadQuad(i));
        } else {
            v.push(SpiStep::Read1(i));
        }
        assert(v@ =~= v0 + read_steps((i + 1) as nat, quad));
        i = i + 1;
    }
}

/// Append quad writes of the bytes `d`
fn push_quad_writes(v: &mut Vec<SpiStep>, d: &[u8])
    ensures
        final(v)@ == old(v)@ + quad_write_steps(d@),
{
    let ghost v0 = v@;
    let mut i: usize = 0;
    while i < d.len()
        invariant
            i <= d@.len(),
            v@ == v0 + quad_write_steps(d@.subrange(0, i as int)),
        decreases d.len() - i,
    {
        v.push(SpiStep::WriteQuad(d[i]));
        assert(v@ =~= v0 + quad_write_steps(d@.subrange(0, i + 1)));
        i = i + 1;
    }
    assert(d@.subrange(0, d@.len() as int) =~= d@);
}

/// The bus operations of a SPI flash command with an optional address and data
/// buffer, and whether it succeeds (see `spi_cmd_steps`). For reads the data buffer
/// is what receives the bytes; for writes it holds them.
pub fn spi_cmd(cmd: SpiCmd, address: Option<u32>, data: Option<&[u8]>) -> (r: (Vec<SpiStep>, bool))
    ensures
        (r.0@, r.1) == spi_cmd_steps(
            cmd,
            address,
            match data {
                Some(d) => Some(d@),
                None => None,
            },
        ),
{
    let ghost dv = match data {
        Some(d) => Some(d@),
        None => None,
    };
    let mut v: Vec<SpiStep> = Vec::new();
    // turn on bitbang mode, pre-set CS so it doesn't glitch going into bitbang mode
    v.push(SpiStep::Mode { bitbang: false, csn: true });
    // turn on bitbang mode
    v.push(SpiStep::Mode { bitbang: true, csn: true });
    // lower CS
    v.push(SpiStep::Mode { bitbang: true, csn: false });
    // shift out the command
    v.push(SpiStep::Write1(cmd.command));
    let ghost p = v@;
    assert(p =~= cmd_prefix(cmd.command));
    let quad = cmd.is_quad;
    if cmd.use_addr {
        match address {
            Some(a) => push_addr(&mut v, a, quad),
            None => {
                // we expected an address, but none was given: this is a user error
                push_exit(&mut v);
                return (v, false);
            },
        }
    }
    let ghost pa = v@;
    if !quad {
        // single-bit path
        if cmd.is_read {
            if let Some(n) = cmd.dummy {
                push_dummy(&mut v, n, false);
            }
            if let Some(count) = cmd.return_count {
                match data {
                    Some(d) => {
                        if d.len() < count as usize {
                            // not enough data to return the read result
                            push_exit(&mut v);
                            return (v, false);
                        }
                        push_reads(&mut v, count as usize, false);
                    },
                    None => {
                        // we expected a return data vector, but wasn't given one
                        push_exit(&mut v);
                        return (v, false);
                    },
                }
            }
        } else if cmd.has_data {
            // a single-wire page program is not defined
            push_exit(&mut v);
            return (v, false);
        }
    } else {
        // quad path
        if cmd.is_read {
            if let Some(n) = cmd.dummy {
                push_dummy(&mut v, n, true);
            }
            // there are no 1-bit quad return counts, so we only check for return data
            match data {
                Some(d) => push_reads(&mut v, d.len(), true),
                None => {
                    push_exit(&mut v);
                    return (v, false);
                },
            }
        } else {
            // write command -- they never have dummy bytes
            match data {
                Some(d) => push_quad_writes(&mut v, d),
                None => {
                    // asked to write, but given no data
                    push_exit(&mut v);
                    return (v, false);
                },
            }
        }
    }
    push_exit(&mut v);
    (v, true)
}

/// 2 to the power `k`, for small `k`
pub open spec fn pow2_spec(k: int) -> int
    decreases k,
{
    if k <= 0 {
        1
    } else {
        2 * pow2_spec(k - 1)
    }
}

/// The data line levels of a byte shifted out on one wire, most significant bit first
pub fn bits_msb_first(byte: u8) -> (r: [u8; 8])
    ensures
        forall|i: int| 0 <= i < 8 ==> #[trigger] r@[i] == (if byte & (0x80u8 >> (i as u8)) != 0 { 1u8 } else { 0u8 }),
{
    let mut r = [0u8; 8];
    let mut sr: u8 = byte;
    let mut i: usize = 0;
    assert(((byte as u32) << 0u32) as u8 == byte) by (bit_vector);
    while i < 8
        invariant
            i <= 8,
            r@.len() == 8,
            sr == #[verifier::truncate] (((byte as u32) << (i as u32)) as u8),
            forall|j: int| 0 <= j < i ==> #[trigger] r@[j] == (if byte & (0x80u8 >> (j as u8)) != 0 { 1u8 } else { 0u8 }),
        decreases 8 - i,
    {
        let ii: u32 = i as u32;
        assert(ii < 8 ==> ((((byte as u32) << ii) as u8) & 0x80 != 0) == (byte & (0x80u8 >> (ii as u8)) != 0))
            by (bit_vector);
        r[i] = if sr & 0x80 != 0 { 1 } else { 0 };
        assert(ii < 8 ==> ((((byte as u32) << ii) as u8) << 1u8) == ((byte as u32) << (ii + 1)) as u8)
            by (bit_vector);
        sr = sr << 1u8;
        i = i + 1;
    }
    r
}

/// The byte assembled from eight bits sampled on one wire, most significant first
pub fn assemble_msb_first(bits: [u8; 8]) -> (r: u8)
    requires
        forall|i: int| 0 <= i < 8 ==> #[trigger] bits@[i] <= 1,
    ensures
        r == bits@[0] * 128 + bits@[1] * 64 + bits@[2] * 32 + bits@[3] * 16 + bits@[4] * 8 + bits@[5]
            * 4 + bits@[6] * 2 + bits@[7],
{
    let mut byte: u8 = 0;
    let mut i: usize = 0;
    while i < 8
        invariant
            i <= 8,
            forall|j: int| 0 <= j < 8 ==> #[trigger] bits@[j] <= 1,
            byte as int == assembled(bits@, i as int),
            byte < pow2_spec(i as int),
        decreases 8 - i,
    {
        let b = bits[i];
        assert(b <= 1);
        proof {
            assert(pow2_spec(i as int + 1) == 2 * pow2_spec(i as int));
            assert(pow2_spec(i as int) <= 128) by {
                reveal_with_fuel(pow2_spec, 9);
            }
        }
        byte = byte * 2 + b;
        i = i + 1;
    }
    proof {
        reveal_with_fuel(assembled, 9);
    }
    byte
}

/// Value of the first `n` bits of `bits`, most significant first
pub open spec fn assembled(bits: Seq<u8>, n: int) -> int
    decreases n,
{
    if n <= 0 {
        0
    } else {
        assembled(bits, n - 1) * 2 + bits[n - 1]
    }
}

/// The two nibbles of a byte shifted out on four wires: high, then low
pub fn nibbles(byte: u8) -> (r: (u32, u32))
    ensures
        r.0 == byte / 16,
        r.1 == byte % 16,
{
    assert(((byte as u32) >> 4) & 0xF == byte / 16 && (byte as u32) & 0xF == byte % 16) by (bit_vector);
    (((byte as u32) >> 4) & 0xF, (byte as u32) & 0xF)
}

/// The byte assembled from two nibbles sampled on four wires: high, then low
pub fn assemble_nibbles(hi: u32, lo: u32) -> (r: u8)
    requires
        hi < 16,
        lo < 16,
    ensures
        r == hi * 16 + lo,
{
    let byte: u8 = #[verifier::truncate] ((hi << 4u32) as u8);
    assert(hi < 16 ==> ((hi << 4u32) as u8) == hi * 16) by (bit_vector);
    assert(hi < 16 && lo < 16 ==> ((hi * 16) as u8) | (lo as u8) == hi * 16 + lo) by (bit_vector);
    byte | (lo as u8)
}

/// Shifting a byte out on one wire and assembling the sampled bits gives the byte back:
/// the bit levels of `bits_msb_first`, weighted most significant first, sum to the byte.
pub proof fn lemma_bit_round_trip(byte: u8)
    ensures
        byte == (if byte & 0x80u8 != 0 { 128int } else { 0 }) + (if byte & 0x40u8 != 0 { 64int } else { 0 })
            + (if byte & 0x20u8 != 0 { 32int } else { 0 }) + (if byte & 0x10u8 != 0 { 16int } else { 0 })
            + (if byte & 0x08u8 != 0 { 8int } else { 0 }) + (if byte & 0x04u8 != 0 { 4int } else { 0 })
            + (if byte & 0x02u8 != 0 { 2int } else { 0 }) + (if byte & 0x01u8 != 0 { 1int } else { 0 }),
        forall|i: u8| i < 8 ==> (#[trigger] (0x80u8 >> i)) == (if i == 0 { 0x80u8 } else if i == 1 { 0x40u8 } else if i == 2 { 0x20u8 } else if i == 3 { 0x10u8 } else if i == 4 { 0x08u8 } else if i == 5 { 0x04u8 } else if i == 6 { 0x02u8 } else { 0x01u8 }),
{
    assert(byte == (if byte & 0x80u8 != 0 { 128u8 } else { 0u8 }) + (if byte & 0x40u8 != 0 { 64u8 } else { 0u8 })
        + (if byte & 0x20u8 != 0 { 32u8 } else { 0u8 }) + (if byte & 0x10u8 != 0 { 16u8 } else { 0u8 })
        + (if byte & 0x08u8 != 0 { 8u8 } else { 0u8 }) + (if byte & 0x04u8 != 0 { 4u8 } else { 0u8 })
        + (if byte & 0x02u8 != 0 { 2u8 } else { 0u8 }) + (if byte & 0x01u8 != 0 { 1u8 } else { 0u8 })) by (bit_vector);
    assert forall|i: u8| i < 8 implies (#[trigger] (0x80u8 >> i)) == (if i == 0 { 0x80u8 } else if i == 1 { 0x40u8 } else if i == 2 { 0x20u8 } else if i == 3 { 0x10u8 } else if i == 4 { 0x08u8 } else if i == 5 { 0x04u8 } else if i == 6 { 0x02u8 } else { 0x01u8 }) by {
        assert(i < 8 ==> (0x80u8 >> i) == (if i == 0 { 0x80u8 } else if i == 1 { 0x40u8 } else if i == 2 { 0x20u8 } else if i == 3 { 0x10u8 } else if i == 4 { 0x08u8 } else if i == 5 { 0x04u8 } else if i == 6 { 0x02u8 } else { 0x01u8 })) by (bit_vector);
    }
}

/// Sending a byte's nibbles on four wires and assembling them gives the byte back
pub proof fn lemma_nibble_round_trip(byte: u8)
    ensures
        (byte / 16) * 16 + byte % 16 == byte,
{
}

/// Whether the status register shows the write enable latch set
pub fn write_enabled(sr: u8) -> (r: bool)
    ensures
        r == (sr & SPI_SR_WEL_MASK != 0),
{
    sr & SPI_SR_WEL_MASK != 0
}

/// Whether the status register shows a write in progress
pub fn write_in_progress(sr: u8) -> (r: bool)
    ensures
        r == (sr & SPI_SR_WIP_MASK != 0),
{
    sr & SPI_SR_WIP_MASK != 0
}

/// Whether the security register reports a failed erase or program
pub fn erase_or_program_failed(scur: u8) -> (r: bool)
    ensures
        r == (scur & (SPI_RDSCUR_E_FAIL_MASK | SPI_RDSCUR_P_FAIL_MASK) != 0),
{
    scur & (SPI_RDSCUR_E_FAIL_MASK | SPI_RDSCUR_P_FAIL_MASK) != 0
}

/// Where an erase or program operation stands
#[derive(Copy, Clone, PartialEq, Eq, Structural, Debug)]
pub enum FlashWriteState {
    /// Nothing sent yet
    Start,
    /// Write enable sent; the status register is read next
    AwaitEnable,
    /// The status register was read after a write enable
    EnableRead,
    /// The operation was sent; the status register is polled next
    AwaitIdle,
    /// The status register was read while waiting for the operation
    IdleRead,
    /// The security register was read
    ResultRead,
    /// Finished: whether the operation succeeded
    Done(bool),
}

/// What the bus does next in an erase or program operation
#[derive(Copy, Clone, PartialEq, Eq, Structural, Debug)]
pub enum FlashBus {
    /// Send this command (write enable or write disable)
    Command(SpiCmd),
    /// Send the erase or program command itself, with its address and data
    Operate,
    /// Read the status register; its value is the next input
    ReadStatus,
    /// Read the security register; its value is the next input
    ReadSecurity,
    /// The operation is over: whether it succeeded
    Finished(bool),
}

/// One step of an erase or program operation in state `s`, with `input` the register
/// value read by the previous step (ignored where none was read). The write enable is
/// sent until the status register shows its latch set; then the operation; then the
/// status register is polled until no write is in progress; then the security register
/// tells whether the operation failed, and write disable ends it.
pub open spec fn flash_write_spec(s: FlashWriteState, input: u8) -> (FlashWriteState, FlashBus) {
    let wren = SpiCmd { command: 0x06, is_quad: false, is_read: false, use_addr: false, has_data: false, dummy: None, return_count: None };
    let wrdi = SpiCmd { command: 0x04, is_quad: false, is_read: false, use_addr: false, has_data: false, dummy: None, return_count: None };
    match s {
        FlashWriteState::Start => (FlashWriteState::AwaitEnable, FlashBus::Command(wren)),
        FlashWriteState::AwaitEnable => (FlashWriteState::EnableRead, FlashBus::ReadStatus),
        FlashWriteState::EnableRead => if input & SPI_SR_WEL_MASK != 0 {
            (FlashWriteState::AwaitIdle, FlashBus::Operate)
        } else {
            (FlashWriteState::AwaitEnable, FlashBus::Command(wren))
        },
        FlashWriteState::AwaitIdle => (FlashWriteState::IdleRead, FlashBus::ReadStatus),
        FlashWriteState::IdleRead => if input & SPI_SR_WIP_MASK != 0 {
            (FlashWriteState::IdleRead, FlashBus::ReadStatus)
        } else {
            (FlashWriteState::ResultRead, FlashBus::ReadSecurity)
        },
        FlashWriteState::ResultRead => (
            FlashWriteState::Done(input & (SPI_RDSCUR_E_FAIL_MASK | SPI_RDSCUR_P_FAIL_MASK) == 0),
            FlashBus::Command(wrdi),
        ),
        FlashWriteState::Done(ok) => (FlashWriteState::Done(ok), FlashBus::Finished(ok)),
    }
}

/// One step of an erase or program operation (see `flash_write_spec`)
pub fn flash_write_step(s: FlashWriteState, input: u8) -> (r: (FlashWriteState, FlashBus))
    ensures
        r == flash_write_spec(s, input),
{
    match s {
        FlashWriteState::Start => (FlashWriteState::AwaitEnable, FlashBus::Command(cmd_wren())),
        FlashWriteState::AwaitEnable => (FlashWriteState::EnableRead, FlashBus::ReadStatus),
        FlashWriteState::EnableRead => {
            if write_enabled(input) {
                (FlashWriteState::AwaitIdle, FlashBus::Operate)
            } else {
                (FlashWriteState::AwaitEnable, FlashBus::Command(cmd_wren()))
            }
        },
        FlashWriteState::AwaitIdle => (FlashWriteState::IdleRead, FlashBus::ReadStatus),
        FlashWriteState::IdleRead => {
            if write_in_progress(input) {
                (FlashWriteState::IdleRead, FlashBus::ReadStatus)
            } else {
                (FlashWriteState::ResultRead, FlashBus::ReadSecurity)
            }
        },
        FlashWriteState::ResultRead => {
            let ok = !erase_or_program_failed(input);
            (FlashWriteState::Done(ok), FlashBus::Command(cmd_wrdi()))
        },
        FlashWriteState::Done(ok) => (FlashWriteState::Done(ok), FlashBus::Finished(ok)),
    }
}

/// Erase granularity
#[derive(Copy, Clone, PartialEq, Eq, Structural, Debug)]
pub enum EraseKind {
    Sector4K,
    Block32K,
    Block64K,
}

/// Bytes erased by one command of a kind
pub open spec fn erase_size(k: EraseKind) -> int {
    match k {
        EraseKind::Sector4K => 4096,
        EraseKind::Block32K => 32768,
        EraseKind::Block64K => 65536,
    }
}

/// The erase command for the region [addr, addr + len) after `erased` bytes are done:
/// a 64 KiB block where at least that much is left and the address is aligned to it,
/// else a 32 KiB block likewise, else a 4 KiB sector
pub open spec fn erase_step(addr: u32, len: u32, erased: int) -> EraseKind {
    let at = addr + erased;
    if len - erased >= 0x1_0000 && at % 0x1_0000 == 0 {
        EraseKind::Block64K
    } else if len - erased >= 0x8000 && at % 0x8000 == 0 {
        EraseKind::Block32K
    } else {
        EraseKind::Sector4K
    }
}

/// The erase commands, with their addresses, that cover [addr, addr + len) once
/// `erased` bytes are done
pub open spec fn erase_blocks(addr: u32, len: u32, erased: int) -> Seq<(EraseKind, u32)>
    decreases len + 0x1_0000 - erased,
{
    if erased < 0 || erased >= len {
        Seq::empty()
    } else {
        let k = erase_step(addr, len, erased);
        proof {
            assert(4096 <= erase_size(k) <= 0x1_0000);
        }
        seq![(k, (addr + erased) as u32)] + erase_blocks(addr, len, erased + erase_size(k))
    }
}

/// The erase commands that cover the region [addr, addr + len), in order (see
/// `erase_blocks`). The last sector may reach past the end of the region.
pub fn erase_plan(addr: u32, len: u32) -> (r: Vec<(EraseKind, u32)>)
    requires
        addr + len <= 0x1_0000_0000,
        len + 4096 <= 0x1_0000_0000,
    ensures
        r@ == erase_blocks(addr, len, 0),
{
    let mut v: Vec<(EraseKind, u32)> = Vec::new();
    let mut erased: u32 = 0;
    while erased < len
        invariant
            addr + len <= 0x1_0000_0000,
            len + 4096 <= 0x1_0000_0000,
            erased <= len + 4095,
            v@ + erase_blocks(addr, len, erased as int) == erase_blocks(addr, len, 0),
        decreases len + 4096 - erased,
    {
        let at: u32 = addr + erased;
        let ghost v0 = v@;
        assert(at & 0xFFFF == at % 0x1_0000 && at & 0x7FFF == at % 0x8000) by (bit_vector);
        if (len - erased >= 0x1_0000) && ((at & 0xFFFF) == 0) {
            v.push((EraseKind::Block64K, at));
            erased = erased + 65536;
        } else if (len - erased >= 0x8000) && ((at & 0x7FFF) == 0) {
            v.push((EraseKind::Block32K, at));
            erased = erased + 32768;
        } else {
            v.push((EraseKind::Sector4K, at));
            erased = erased + 4096;
        }
        assert(v@ + erase_blocks(addr, len, erased as int) =~= v0 + erase_blocks(
            addr,
            len,
            (erased - erase_size(v@.last().0)) as int,
        ));
    }
    assert(v@ =~= erase_blocks(addr, len, 0));
    v
}

/// The erase blocks of a region follow each other without gap, starting at its first
/// address, each block aligned to its own size unless it is a sector, and together they
/// cover the whole region.
pub proof fn lemma_erase_blocks_cover(addr: u32, len: u32, erased: int)
    requires
        0 <= erased,
        addr + len <= 0x1_0000_0000,
    ensures
        ({
            let b = erase_blocks(addr, len, erased);
            &&& erased < len ==> b.len() > 0 && b[0].1 == addr + erased
            &&& forall|i: int| 0 <= i < b.len() - 1 ==> #[trigger] b[i + 1].1 == b[i].1 + erase_size(b[i].0)
            &&& forall|i: int| 0 <= i < b.len() ==> (#[trigger] b[i].0 != EraseKind::Sector4K ==> (b[i].1 as int) % erase_size(b[i].0) == 0)
            &&& b.len() > 0 ==> b.last().1 + erase_size(b.last().0) >= addr + len
        }),
    decreases len + 0x1_0000 - erased,
{
    if erased < len {
        let k = erase_step(addr, len, erased);
        let next = erase_size(k) + erased;
        assert(4096 <= erase_size(k) <= 0x1_0000);
        lemma_erase_blocks_cover(addr, len, next);
        let b = erase_blocks(addr, len, erased);
        let rest = erase_blocks(addr, len, next);
        assert(b == seq![(k, (addr + erased) as u32)] + rest);
        assert forall|i: int| 0 <= i < b.len() - 1 implies #[trigger] b[i + 1].1 == b[i].1 + erase_size(b[i].0) by {
            if i > 0 {
                assert(b[i] == rest[i - 1]);
                assert(b[i + 1] == rest[(i - 1) + 1]);
            } else {
                if rest.len() > 0 {
                    assert(b[1] == rest[0]);
                }
            }
        }
        assert forall|i: int| 0 <= i < b.len() && #[trigger] b[i].0 != EraseKind::Sector4K implies (b[i].1 as int) % erase_size(b[i].0) == 0 by {
            if i > 0 {
                assert(b[i] == rest[i - 1]);
            }
        }
        if rest.len() == 0 {
            assert(next >= len);
        } else {
            assert(b.last() == rest.last());
        }
    }
}

/// In a chain of erase commands each starting where the previous one ends, an earlier
/// command ends at or before the start of a later one.
proof fn lemma_chain_ordered(b: Seq<(EraseKind, u32)>, i: int, j: int)
    requires
        0 <= i < j < b.len(),
        forall|k: int| 0 <= k < b.len() - 1 ==> #[trigger] b[k + 1].1 == b[k].1 + erase_size(b[k].0),
    ensures
        b[i].1 + erase_size(b[i].0) <= b[j].1,
    decreases j - i,
{
    if j > i + 1 {
        lemma_chain_ordered(b, i, j - 1);
        assert(b[(j - 1) + 1].1 == b[j - 1].1 + erase_size(b[j - 1].0));
    } else {
        assert(b[i + 1].1 == b[i].1 + erase_size(b[i].0));
    }
}

/// The erase commands for a region [addr, addr + len): the first starts at `addr`,
/// none overlaps another, each 32 KiB or 64 KiB block is aligned to its size, every
/// command starts inside the region, and together they cover it.
pub proof fn lemma_erase_plan_layout(addr: u32, len: u32)
    requires
        addr + len <= 0x1_0000_0000,
    ensures
        ({
            let b = erase_blocks(addr, len, 0);
            &&& len > 0 ==> b.len() > 0 && b[0].1 == addr
            &&& forall|i: int, j: int| 0 <= i < j < b.len() ==> #[trigger] b[i].1 + erase_size(b[i].0)
                <= #[trigger] b[j].1
            &&& forall|i: int| 0 <= i < b.len() ==> (#[trigger] b[i].0 != EraseKind::Sector4K ==> (b[i].1 as int)
                % erase_size(b[i].0) == 0)
            &&& forall|i: int| 0 <= i < b.len() ==> addr <= #[trigger] b[i].1 < addr + len
            &&& b.len() > 0 ==> b.last().1 + erase_size(b.last().0) >= addr + len
        }),
{
    lemma_erase_blocks_cover(addr, len, 0);
    let b = erase_blocks(addr, len, 0);
    assert forall|i: int, j: int| 0 <= i < j < b.len() implies #[trigger] b[i].1 + erase_size(b[i].0)
        <= #[trigger] b[j].1 by {
        lemma_chain_ordered(b, i, j);
    }
    assert forall|i: int| 0 <= i < b.len() implies addr <= #[trigger] b[i].1 < addr + len by {
        lemma_erase_starts_inside(addr, len, 0, i);
    }
}

/// Every erase command starts inside the region, at or after the bytes already erased.
proof fn lemma_erase_starts_inside(addr: u32, len: u32, erased: int, i: int)
    requires
        0 <= erased,
        addr + len <= 0x1_0000_0000,
        0 <= i < erase_blocks(addr, len, erased).len(),
    ensures
        addr + erased <= erase_blocks(addr, len, erased)[i].1 < addr + len,
    decreases len + 0x1_0000 - erased,
{
    if erased < len {
        let k = erase_step(addr, len, erased);
        let next = erase_size(k) + erased;
        assert(4096 <= erase_size(k) <= 0x1_0000);
        let b = erase_blocks(addr, len, erased);
        let rest = erase_blocks(addr, len, next);
        assert(b == seq![(k, (addr + erased) as u32)] + rest);
        if i > 0 {
            assert(b[i] == rest[i - 1]);
            lemma_erase_starts_inside(addr, len, next, i - 1);
        }
    }
}

} // verus!
