//! Facts about packing bytes into wider words with shifts and masks, shared by the
//! drivers and protocol code that assemble register and bus words.
use vstd::prelude::*;

verus! {

/// Two bytes joined into a 16-bit word by a shift and an OR, written in either order,
/// give the word `lo + 256 * hi`; the high byte shifted alone gives `256 * hi`.
pub proof fn lemma_byte_pair(lo: u8, hi: u8)
    by (bit_vector)
    ensures
        (lo as u16) | ((hi as u16) << 8u16) == lo + hi * 256,
        ((hi as u16) << 8u16) | (lo as u16) == hi * 256 + lo,
        ((hi as u16) << 8u16) == hi * 256,
{
}

/// A 16-bit word splits into its low byte and its high byte with a mask and a shift.
pub proof fn lemma_word_bytes(w: u16)
    by (bit_vector)
    ensures
        w & 0xff == w % 256,
        (w >> 8u16) & 0xff == w / 256,
        !w == 0xffff - w,
{
}

} // verus!
