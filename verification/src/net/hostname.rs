//! Randomized DHCP host names.
use crate::text::str_from_utf8;
use vstd::prelude::*;
use vstd::string::StringSliceAdditionalSpecFns;
use vstd::utf8::valid_utf8;

verus! {

/// Longest host name: the 63 byte limit on a DNS label.
pub const HOSTNAME_MAX_LEN: usize = 63;

/// The charset symbol for a 5-bit value: "0123456789ABCDFGHJKLMNPQRSTVWXYZ"
/// (32 symbols; E, I, O and U are left out).
pub open spec fn charset_symbol(x: u8) -> u8 {
    if x <= 9 {
        (48 + x) as u8
    } else if x <= 13 {
        (65 + x - 10) as u8
    } else if x <= 16 {
        (70 + x - 14) as u8
    } else if x <= 21 {
        (74 + x - 17) as u8
    } else if x <= 26 {
        (80 + x - 22) as u8
    } else if x <= 31 {
        (86 + x - 27) as u8
    } else {
        48u8
    }
}

/// Byte `i` (0..8) of the little-endian bytes of `entropy0` followed by those of `entropy1`.
pub open spec fn entropy_byte(entropy0: u32, entropy1: u32, i: int) -> u8 {
    if i < 4 {
        ((entropy0 as int / pow256(i)) % 256) as u8
    } else {
        ((entropy1 as int / pow256(i - 4)) % 256) as u8
    }
}

/// 256^i for 0 <= i < 4
pub open spec fn pow256(i: int) -> int {
    if i <= 0 {
        1
    } else if i == 1 {
        0x100
    } else if i == 2 {
        0x1_0000
    } else {
        0x100_0000
    }
}

/// The symbol placed at position `i` for random byte `b`: the low 5 bits pick the
/// symbol, and the first symbol is moved past the digits and 'A'.
pub open spec fn hostname_symbol(i: int, b: u8) -> u8 {
    let masked = b % 32;
    let m = if i == 0 && masked <= 10 { (masked + 11) as u8 } else { masked };
    charset_symbol(m)
}

/// Hold a host name string
/// 63 byte max length comes from syntax spec for "label" in RFC 1035 § 2.3.1 Preferred name syntax
pub struct Hostname {
    pub length: usize,
    pub buffer: [u8; 63],
}

impl Hostname {
    /// The host name bytes (the first `length` bytes of the buffer).
    pub open spec fn bytes(&self) -> Seq<u8> {
        self.buffer@.take(self.length as int)
    }

    /// The host name that `randomize(entropy0, entropy1)` writes into `buffer`.
    pub open spec fn randomized(buffer: Seq<u8>, entropy0: u32, entropy1: u32) -> Seq<u8> {
        let len = 8 - entropy0 % 4;
        Seq::new(
            63,
            |i: int|
                if i < len {
                    hostname_symbol(i, entropy_byte(entropy0, entropy1, i))
                } else {
                    buffer[i]
                },
        )
    }

    /// A blank host name: one NUL byte.
    pub fn new_blank() -> (r: Self)
        ensures
            r.length == 1,
            r.buffer@ == Seq::new(63, |i: int| 0u8),
    {
        let r = Hostname { length: 1, buffer: [0; 63] };
        assert(r.buffer@ =~= Seq::new(63, |i: int| 0u8));
        r
    }

    /// Generate a new pseudorandom alphanumeric hostname of length 5 to 8 characters
    /// See RFC 952, RFC 1123 § 2.1, and RFC 2181 § 11
    pub fn randomize(&mut self, entropy0: u32, entropy1: u32)
        ensures
            final(self).length == 8 - entropy0 % 4,
            final(self).buffer@ == Self::randomized(old(self).buffer@, entropy0, entropy1),
    {
        // Select hostname length between 5 and 8 characters
        let low: u32 = entropy0 & 0b011;
        proof {
            assert(entropy0 & 3 == entropy0 % 4) by (bit_vector);
        }
        self.length = 8 - (low as usize);
        // Prepare enough random bytes (little-endian) for up to 8 characters
        let rbytes: [u8; 8] = [
            (entropy0 % 256) as u8,
            ((entropy0 / 0x100) % 256) as u8,
            ((entropy0 / 0x1_0000) % 256) as u8,
            ((entropy0 / 0x100_0000) % 256) as u8,
            (entropy1 % 256) as u8,
            ((entropy1 / 0x100) % 256) as u8,
            ((entropy1 / 0x1_0000) % 256) as u8,
            ((entropy1 / 0x100_0000) % 256) as u8,
        ];
        assert(forall|i: int| 0 <= i < 8 ==> rbytes@[i] == entropy_byte(entropy0, entropy1, i));
        let ghost old_buf = self.buffer@;
        let len = self.length;
        let mut i: usize = 0;
        while i < len
            invariant
                len == 8 - entropy0 % 4,
                self.length == len,
                old_buf.len() == 63,
                i <= len,
                forall|j: int| 0 <= j < 8 ==> rbytes@[j] == entropy_byte(entropy0, entropy1, j),
                self.buffer@.len() == 63,
                forall|j: int|
                    0 <= j < 63 ==> #[trigger] self.buffer@[j] == (if j < i {
                        hostname_symbol(j, entropy_byte(entropy0, entropy1, j))
                    } else {
                        old_buf[j]
                    }),
            decreases len - i,
        {
            let src = rbytes[i];
            let mut masked_src: u8 = src & 0b0001_1111;
            proof {
                assert(src & 31 == src % 32) by (bit_vector);
            }
            if (i == 0) && masked_src <= 10 {
                masked_src += 11;  // Avoid starting with a number or 'A'
            }
            let sym: u8 = if masked_src <= 9 {
                ('0' as u8) + masked_src
            } else if masked_src <= 13 {
                ('A' as u8) + masked_src - 10
            } else if masked_src <= 16 {
                ('F' as u8) + masked_src - 14
            } else if masked_src <= 21 {
                ('J' as u8) + masked_src - 17
            } else if masked_src <= 26 {
                ('P' as u8) + masked_src - 22
            } else if masked_src <= 31 {
                ('V' as u8) + masked_src - 27
            } else {
                '0' as u8
            };
            self.buffer[i] = sym;
            i = i + 1;
        }
        assert(self.buffer@ =~= Self::randomized(old_buf, entropy0, entropy1));
    }

    /// Generate a new random host name if this one is still blank (its first byte is NUL,
    /// as `new_blank` leaves it); a host name that was already set is kept.
    pub fn randomize_if_unset(&mut self, entropy0: u32, entropy1: u32)
        ensures
            old(self).buffer@[0] == 0 ==> final(self).length == 8 - entropy0 % 4
                && final(self).buffer@ == Self::randomized(old(self).buffer@, entropy0, entropy1),
            old(self).buffer@[0] != 0 ==> *final(self) == *old(self),
    {
        if self.buffer[0] == 0 {
            self.randomize(entropy0, entropy1);
        }
    }

    /// Return hostname as &str (empty if the bytes are not valid UTF-8)
    pub fn as_str(&self) -> (r: &str)
        requires
            self.length <= 63,
        ensures
            valid_utf8(self.bytes()) ==> r.spec_bytes() == self.bytes(),
            !valid_utf8(self.bytes()) ==> r@.len() == 0,
    {
        match str_from_utf8(self.as_bytes()) {
            Ok(s) => s,
            _ => {
                proof {
                    reveal_strlit("");
                }
                ""
            },
        }
    }

    /// Return a byte slice for this hostname
    pub fn as_bytes(&self) -> (r: &[u8])
        requires
            self.length <= 63,
        ensures
            r@ == self.bytes(),
    {
        vstd::slice::slice_subrange(self.buffer.as_slice(), 0, self.length)
    }

    /// Return length of hostname
    pub fn len(&self) -> (r: usize)
        ensures
            r == self.length,
    {
        self.length
    }
}


/// A host name character: a digit or an upper case letter other than E, I, O or U.
pub open spec fn is_hostname_char(c: u8) -> bool {
    (48 <= c <= 57) || (65 <= c <= 90 && c != 69 && c != 73 && c != 79 && c != 85)
}

/// A randomized host name is 5 to 8 characters long, every character is a digit or an
/// upper case letter (E, I, O and U left out), and it starts with a letter other than A.
pub proof fn lemma_randomized_hostname_shape(buffer: Seq<u8>, entropy0: u32, entropy1: u32)
    requires
        buffer.len() == 63,
    ensures
        ({
            let b = Hostname::randomized(buffer, entropy0, entropy1);
            let len = 8 - entropy0 % 4;
            &&& 5 <= len <= 8
            &&& b.len() == 63
            &&& forall|i: int| 0 <= i < len ==> is_hostname_char(#[trigger] b[i])
            &&& 66 <= b[0] <= 90
        }),
{
    let b = Hostname::randomized(buffer, entropy0, entropy1);
    let len = 8 - entropy0 % 4;
    assert forall|i: int| 0 <= i < len implies is_hostname_char(#[trigger] b[i]) by {
        let x = entropy_byte(entropy0, entropy1, i);
        let masked = x % 32;
        let m = if i == 0 && masked <= 10 { (masked + 11) as u8 } else { masked };
        assert(m < 32);
    }
}

} // verus!
