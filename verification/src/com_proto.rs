//! Encodings of the COM bus protocol between the SoC and the EC: how replies are packed
//! into 16-bit words, how received words are unpacked, and the checks applied to what
//! the host asks for.
use crate::bits::lemma_byte_pair;
use vstd::prelude::*;

verus! {

/// Largest Ethernet payload carried over the COM net bridge
pub const COM_MTU: usize = 1500;

/// Number of 16-bit words that carry `n` bytes
pub open spec fn words_for(n: int) -> int {
    if n % 2 == 0 { n / 2 } else { n / 2 + 1 }
}

/// Number of 16-bit words that carry `n` bytes
pub fn words_of_bytes(n: usize) -> (r: usize)
    ensures
        r == words_for(n as int),
{
    if n % 2 == 0 { n / 2 } else { n / 2 + 1 }
}

/// Address for a flash verify read: requests outside the EC's RAM, flash and CSR
/// windows (which could crash the EC) read from the start of flash instead; the address
/// is then aligned down to a word. Reading anywhere else in RAM and ROM is deliberately
/// allowed, so that the SoC can introspect the EC.
pub fn flash_verify_address(address: u32) -> (r: u32)
    ensures
        ({
            let a = if address < 0x1000_0000 || (0x1002_0000 <= address < 0x2000_0000) || (0x2100_0000
                <= address < 0xe000_0000) || address >= 0xe000_8000 {
                0x2000_0000u32
            } else {
                address
            };
            r == a - a % 4
        }),
{
    let mut a = address;
    if a < 0x1000_0000 || (a >= 0x1002_0000 && a < 0x2000_0000) || (a >= 0x2100_0000 && a < 0xe000_0000)
        || a >= 0xe000_8000 {
        // set to start of FLASH if it's OOB
        a = 0x2000_0000;
    }
    // force alignment
    assert(a & 0xFFFF_FFFC == a - a % 4) by (bit_vector);
    a & 0xFFFF_FFFC
}

/// Main and secondary backlight levels coded in the low 10 bits of a backlight verb
pub fn backlight_levels(rx: u16) -> (r: (u8, u8))
    ensures
        r.0 == rx % 32,
        r.1 == (rx / 32) % 32,
{
    assert(rx & 0x1F == rx % 32 && (rx >> 5) & 0x1F == (rx / 32) % 32) by (bit_vector);
    ((rx & 0x1F) as u8, ((rx >> 5) & 0x1F) as u8)
}

/// A requested battery design capacity (mAh), with some manual sanity checks so that a
/// protocol error cannot bork the gas gauge: anything outside 601..=1899 becomes 1100
pub fn sane_capacity(capacity: u16) -> (r: u16)
    ensures
        r == (if capacity >= 1900 || capacity <= 600 { 1100 } else { capacity }),
{
    let mut c = capacity;
    if c >= 1900 {
        c = 1100;
    }
    if c <= 600 {
        c = 1100;
    }
    c
}

/// Reply to a loop test: the low byte of the verb, with the low byte of the sentinel above
pub fn loop_test_reply(rx: u16, sentinel: u16) -> (r: u16)
    ensures
        r == rx % 256 + (sentinel % 256) * 256,
{
    assert((rx & 0xFF) | ((sentinel & 0xFF) << 8) == rx % 256 + (sentinel % 256) * 256) by (bit_vector);
    (rx & 0xFF) | ((sentinel & 0xFF) << 8)
}

/// Reply word of an RSSI request: the RSSI in the low byte, or the error code in the
/// high byte
pub fn rssi_word(rssi: Result<u32, u8>) -> (r: u16)
    ensures
        r == match rssi {
            Ok(v) => (v % 256) as u16,
            Err(e) => (e as u16 * 256) as u16,
        },
{
    match rssi {
        Ok(v) => {
            assert(((v & 0xff) as u16) == (v % 256) as u16) by (bit_vector);
            (v & 0xff) as u16
        },
        Err(e) => {
            assert(((e as u16) << 8u16) == (e as u16 * 256) as u16) by (bit_vector);
            (e as u16) << 8u16
        },
    }
}

/// A 64-bit tick count as four words, least significant first
pub fn uptime_words(ticks: u64) -> (r: [u16; 4])
    ensures
        r@ == seq![(ticks % 0x1_0000) as u16, ((ticks / 0x1_0000) % 0x1_0000) as u16, ((ticks / 0x1_0000_0000)
            % 0x1_0000) as u16, (ticks / 0x1_0000_0000_0000) as u16],
{
    let w0 = (ticks & 0xFFFF) as u16;
    let w1 = ((ticks >> 16) & 0xFFFF) as u16;
    let w2 = ((ticks >> 32) & 0xFFFF) as u16;
    let w3 = ((ticks >> 48) & 0xFFFF) as u16;
    assert(ticks & 0xFFFF == ticks % 0x1_0000 && (ticks >> 16) & 0xFFFF == (ticks / 0x1_0000) % 0x1_0000
        && (ticks >> 32) & 0xFFFF == (ticks / 0x1_0000_0000) % 0x1_0000 && (ticks >> 48) & 0xFFFF == ticks
        / 0x1_0000_0000_0000) by (bit_vector);
    let r = [w0, w1, w2, w3];
    assert(r@ =~= seq![(ticks % 0x1_0000) as u16, ((ticks / 0x1_0000) % 0x1_0000) as u16, ((ticks
        / 0x1_0000_0000) % 0x1_0000) as u16, (ticks / 0x1_0000_0000_0000) as u16]);
    r
}

/// A 32-bit value received as two words, most significant first ("network order")
pub fn u32_from_words(hi: u16, lo: u16) -> (r: u32)
    ensures
        r == hi * 0x1_0000 + lo,
{
    assert(((hi as u32) << 16u32) | ((lo as u32) & 0xFFFF) == hi * 0x1_0000 + lo) by (bit_vector);
    ((hi as u32) << 16u32) | ((lo as u32) & 0xFFFF)
}

/// The word that packs bytes `d[2i]` (low) and `d[2i+1]` (high)
pub open spec fn le_word(d: Seq<u8>, i: int) -> u16 {
    (d[2 * i] + d[2 * i + 1] * 256) as u16
}

/// Bytes of words received least significant byte first
pub open spec fn le_unpacked(w: Seq<u16>) -> Seq<u8> {
    Seq::new(2 * w.len(), |k: int| if k % 2 == 0 { (w[k / 2] % 256) as u8 } else { (w[k / 2] / 256) as u8 })
}

/// Words carrying an even number of bytes, least significant byte first: an SSID table
/// record as sent to the host
pub fn le_words(d: &[u8]) -> (r: Vec<u16>)
    requires
        d@.len() % 2 == 0,
    ensures
        r@.len() == d@.len() / 2,
        forall|i: int| 0 <= i < r@.len() ==> #[trigger] r@[i] == le_word(d@, i),
{
    let mut v: Vec<u16> = Vec::new();
    let mut i: usize = 0;
    while i < d.len() / 2
        invariant
            i <= d@.len() / 2,
            d@.len() % 2 == 0,
            v@.len() == i,
            forall|j: int| 0 <= j < i ==> #[trigger] v@[j] == le_word(d@, j),
        decreases d.len() / 2 - i,
    {
        let lo = d[2 * i];
        let hi = d[2 * i + 1];
        proof {
            lemma_byte_pair(lo, hi);
        }
        v.push((lo as u16) | ((hi as u16) << 8u16));
        i = i + 1;
    }
    v
}

/// Bytes of words received least significant byte first: a flash page or a PDS line
pub fn le_bytes_of_words(w: &[u16]) -> (r: Vec<u8>)
    ensures
        r@ == le_unpacked(w@),
{
    let mut v: Vec<u8> = Vec::new();
    let mut i: usize = 0;
    while i < w.len()
        invariant
            i <= w@.len(),
            v@ == le_unpacked(w@.subrange(0, i as int)),
        decreases w.len() - i,
    {
        let x = w[i];
        let ghost v0 = v@;
        v.push((x % 256) as u8);
        v.push((x / 256) as u8);
        assert(v@ =~= le_unpacked(w@.subrange(0, i + 1))) by {
            assert forall|k: int| 0 <= k < v@.len() implies v@[k] == le_unpacked(w@.subrange(0, i + 1))[k] by {
                if k < 2 * i {
                    assert(v0[k] == le_unpacked(w@.subrange(0, i as int))[k]);
                    assert(w@.subrange(0, i as int)[k / 2] == w@.subrange(0, i + 1)[k / 2]);
                }
            }
        }
        i = i + 1;
    }
    assert(w@.subrange(0, w@.len() as int) =~= w@);
    v
}

/// The word of a received packet sent to the host, most significant byte first; an odd
/// last byte goes in the high byte
pub open spec fn frame_word(p: Seq<u8>, i: int) -> u16 {
    if 2 * i + 1 < p.len() {
        (p[2 * i] * 256 + p[2 * i + 1]) as u16
    } else {
        (p[2 * i] * 256) as u16
    }
}

/// A received packet as the words sent to the host, most significant byte first
pub fn net_frame_fetch_words(packet: &[u8]) -> (r: Vec<u16>)
    requires
        packet@.len() != 1,
    ensures
        r@.len() == words_for(packet@.len() as int),
        forall|i: int| 0 <= i < r@.len() ==> #[trigger] r@[i] == frame_word(packet@, i),
{
    let packet_words = words_of_bytes(packet.len());
    let mut v: Vec<u16> = Vec::new();
    let mut words_sent: usize = 0;
    while words_sent < packet_words
        invariant
            packet_words == words_for(packet@.len() as int),
            packet@.len() != 1,
            words_sent <= packet_words,
            v@.len() == words_sent,
            forall|j: int| 0 <= j < words_sent ==> #[trigger] v@[j] == frame_word(packet@, j),
        decreases packet_words - words_sent,
    {
        assert(words_sent * 2 <= packet.len());
        let i = words_sent * 2;
        // use MSB order
        if i + 1 < packet.len() {
            let hi = packet[i];
            let lo = packet[i + 1];
            proof {
                lemma_byte_pair(lo, hi);
            }
            v.push(((hi as u16) << 8u16) | (lo as u16));
        } else {
            let hi = packet[i];
            proof {
                lemma_byte_pair(0, hi);
            }
            v.push((hi as u16) << 8u16);
        }
        words_sent = words_sent + 1;
    }
    v
}

/// The frame that the host sends as `words`, most significant byte first, for a frame of
/// `num_bytes` bytes: None when it does not fit the MTU. (All the words are received
/// either way, since the FIFO must always be drained.)
pub fn net_frame_from_words(num_bytes: u16, words: &[u16]) -> (r: Option<Vec<u8>>)
    requires
        words@.len() == words_for(num_bytes as int),
    ensures
        words@.len() * 2 > COM_MTU + 1 ==> r is None,
        words@.len() * 2 <= COM_MTU + 1 ==> (r matches Some(f) && f@.len() == num_bytes && forall|k: int|
            0 <= k < num_bytes ==> #[trigger] f@[k] == (if k % 2 == 0 {
                (words@[k / 2] / 256) as u8
            } else {
                (words@[k / 2] % 256) as u8
            })),
{
    if words.len() > (COM_MTU + 1) / 2 {
        return None;
    }
    let mut f: Vec<u8> = Vec::new();
    let mut k: usize = 0;
    while k < num_bytes as usize
        invariant
            words@.len() == words_for(num_bytes as int),
            k <= num_bytes,
            f@.len() == k,
            forall|j: int| 0 <= j < k ==> #[trigger] f@[j] == (if j % 2 == 0 {
                (words@[j / 2] / 256) as u8
            } else {
                (words@[j / 2] % 256) as u8
            }),
        decreases num_bytes - k,
    {
        let w = words[k / 2];
        if k % 2 == 0 {
            f.push((w / 256) as u8);
        } else {
            f.push((w % 256) as u8);
        }
        k = k + 1;
    }
    Some(f)
}

/// A byte string as `total_words` words: its length, then its bytes two by two least
/// significant first (an odd last byte alone), then zeros; bytes beyond what fits are
/// dropped
pub open spec fn len_prefixed_word(s: Seq<u8>, i: int) -> u16 {
    if i == 0 {
        s.len() as u16
    } else if 2 * (i - 1) + 1 < s.len() {
        (s[2 * (i - 1)] + s[2 * (i - 1) + 1] * 256) as u16
    } else if 2 * (i - 1) < s.len() {
        s[2 * (i - 1)] as u16
    } else {
        0
    }
}

/// A byte string (a software tag or an SSID) as `total_words` words (see
/// `len_prefixed_word`)
pub fn len_prefixed_words(s: &[u8], total_words: usize) -> (r: Vec<u16>)
    requires
        total_words >= 1,
    ensures
        r@.len() == total_words,
        forall|i: int| 0 <= i < total_words ==> #[trigger] r@[i] == len_prefixed_word(s@, i),
{
    let mut v: Vec<u16> = Vec::new();
    // record the length field
    let len16: u16 = #[verifier::truncate] (s.len() as u16);
    v.push(len16);
    let mut i: usize = 1;
    while i < total_words
        invariant
            1 <= i <= total_words,
            v@.len() == i,
            v@[0] == s@.len() as u16,
            forall|j: int| 1 <= j < i ==> #[trigger] v@[j] == len_prefixed_word(s@, j),
        decreases total_words - i,
    {
        let k = i - 1;
        let w: u16 = if k < s.len() / 2 {
            let lo = s[2 * k];
            let hi = s[2 * k + 1];
            proof {
                lemma_byte_pair(lo, hi);
            }
            (lo as u16) | ((hi as u16) << 8u16)
        } else if k == s.len() / 2 && s.len() % 2 == 1 {
            s[2 * k] as u16
        } else {
            0
        };
        v.push(w);
        i = i + 1;
    }
    v
}

/// A frame fetched by the host comes back byte for byte when the host sends those words
/// again: unpacking the words of `net_frame_fetch_words` as `net_frame_from_words` does
/// gives each byte of the packet.
pub proof fn lemma_frame_words_round_trip(p: Seq<u8>)
    ensures
        forall|k: int|
            0 <= k < p.len() ==> (if k % 2 == 0 {
                (#[trigger] frame_word(p, k / 2) / 256) as u8
            } else {
                (frame_word(p, k / 2) % 256) as u8
            }) == p[k],
{
    assert forall|k: int| 0 <= k < p.len() implies (if k % 2 == 0 {
        (#[trigger] frame_word(p, k / 2) / 256) as u8
    } else {
        (frame_word(p, k / 2) % 256) as u8
    }) == p[k] by {
        let i = k / 2;
        let a = p[2 * i] as int;
        if 2 * i + 1 < p.len() {
            let b = p[2 * i + 1] as int;
            assert((a * 256 + b) / 256 == a && (a * 256 + b) % 256 == b) by (nonlinear_arith)
                requires
                    0 <= a < 256,
                    0 <= b < 256,
            ;
        } else {
            assert((a * 256) / 256 == a) by (nonlinear_arith)
                requires
                    0 <= a < 256,
            ;
        }
    }
}

/// Words of bytes: unpacking the words made of pairs of bytes gives the bytes back, so an
/// SSID record or a flash page survives the trip over the bus.
pub proof fn lemma_le_word_round_trip(d: Seq<u8>, i: int)
    requires
        0 <= i,
        2 * i + 1 < d.len(),
    ensures
        (le_word(d, i) % 256) as u8 == d[2 * i],
        (le_word(d, i) / 256) as u8 == d[2 * i + 1],
{
    let a = d[2 * i] as int;
    let b = d[2 * i + 1] as int;
    assert((a + b * 256) % 256 == a && (a + b * 256) / 256 == b) by (nonlinear_arith)
        requires
            0 <= a < 256,
            0 <= b < 256,
    ;
}

} // verus!
