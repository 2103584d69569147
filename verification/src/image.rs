//! Firmware update images: a 4 KiB header page (hash, signature, version, payload
//! length, 0xff padding) followed by the payload, sealed with a SHA-512/256 hash of
//! everything after the hash field.
use vstd::prelude::*;
use sha2::Digest;

verus! {

/// Size of the header page
pub const HEADER_LEN: usize = 4096;

/// Size of the hash field at the start of the header
pub const HASH_LEN: usize = 32;

/// Format version written in the header
pub const IMAGE_VERSION: u32 = 1;

/// Bytes of the gateware region of the EC image: the UP5K bitstream rounded up to the
/// 4 KiB erase size
pub const GATEWARE_REGION: usize = 104 * 1024;

/// Bytes of the loader region of the EC image
pub const LOADER_REGION: usize = 4096;

/// Bytes of the kernel region of the EC image, limited by the loader's copy
pub const KERNEL_REGION: usize = 76 * 1024;

/// The SHA-512/256 digest of `data`, as computed by the `sha2` crate
pub uninterp spec fn sha512_trunc256(data: Seq<u8>) -> Seq<u8>;

/// Calls `Sha512Trunc256::digest` of the `sha2` crate (SHA-512 with the SHA-512/256
/// initial hash value, truncated to 256 bits). The contract names its result and says
/// no more: a digest depends on the data alone.
#[verifier::external_body]
fn sha512_trunc256_digest(data: &[u8]) -> (r: [u8; 32])
    ensures
        r@ == sha512_trunc256(data@),
{
    let out = sha2::Sha512Trunc256::digest(data);
    let mut r = [0u8; 32];
    r.copy_from_slice(&out);
    r
}

/// Little-endian bytes of a 32-bit value
pub open spec fn le32(x: u32) -> Seq<u8> {
    seq![(x % 256) as u8, ((x / 0x100) % 256) as u8, ((x / 0x1_0000) % 256) as u8, (x / 0x100_0000) as u8]
}

/// The header and payload of an image after the hash field: signature, version and
/// payload length (truncated to 32 bits) little-endian, 0xff up to the end of the header page,
/// then the payload
pub open spec fn image_tail_spec(signature: Seq<u8>, payload: Seq<u8>) -> Seq<u8> {
    signature + le32(IMAGE_VERSION) + le32(payload.len() as u32) + Seq::new(
        (HEADER_LEN - HASH_LEN - 12) as nat,
        |i: int| 0xffu8,
    ) + payload
}

/// Append the little-endian bytes of `x`
fn push_le32(v: &mut Vec<u8>, x: u32)
    ensures
        final(v)@ == old(v)@ + le32(x),
{
    let ghost v0 = v@;
    v.push((x % 256) as u8);
    v.push(((x / 0x100) % 256) as u8);
    v.push(((x / 0x1_0000) % 256) as u8);
    v.push((x / 0x100_0000) as u8);
    assert(v@ =~= v0 + le32(x));
}

/// The part of an image that the hash covers (see `image_tail_spec`)
pub fn image_tail(signature: [u8; 4], payload: &[u8]) -> (r: Vec<u8>)
    ensures
        r@ == image_tail_spec(signature@, payload@),
{
    let mut v: Vec<u8> = Vec::new();
    v.push(signature[0]);
    v.push(signature[1]);
    v.push(signature[2]);
    v.push(signature[3]);
    assert(v@ =~= signature@);
    push_le32(&mut v, IMAGE_VERSION);
    let plen: usize = payload.len();
    let len: u32 = #[verifier::truncate] (plen as u32);
    push_le32(&mut v, len);
    let ghost h = v@;
    let mut i: usize = 0;
    while i < HEADER_LEN - HASH_LEN - 12
        invariant
            i <= HEADER_LEN - HASH_LEN - 12,
            v@ == h + Seq::new(i as nat, |k: int| 0xffu8),
        decreases HEADER_LEN - HASH_LEN - 12 - i,
    {
        v.push(0xff);
        assert(v@ =~= h + Seq::new((i + 1) as nat, |k: int| 0xffu8));
        i = i + 1;
    }
    let ghost hp = v@;
    let mut j: usize = 0;
    while j < payload.len()
        invariant
            j <= payload@.len(),
            v@ == hp + payload@.subrange(0, j as int),
        decreases payload.len() - j,
    {
        v.push(payload[j]);
        assert(v@ =~= hp + payload@.subrange(0, j + 1));
        j = j + 1;
    }
    assert(payload@.subrange(0, payload@.len() as int) =~= payload@);
    assert(v@ =~= image_tail_spec(signature@, payload@));
    v
}

/// The sealed image: the digest of the tail in the hash field, then the tail
pub fn seal_image(digest: [u8; 32], tail: &[u8]) -> (r: Vec<u8>)
    ensures
        r@ == digest@ + tail@,
{
    let mut v: Vec<u8> = Vec::new();
    let mut i: usize = 0;
    while i < 32
        invariant
            i <= 32,
            v@ == digest@.subrange(0, i as int),
        decreases 32 - i,
    {
        v.push(digest[i]);
        assert(v@ =~= digest@.subrange(0, i + 1));
        i = i + 1;
    }
    let mut j: usize = 0;
    while j < tail.len()
        invariant
            j <= tail@.len(),
            v@ == digest@ + tail@.subrange(0, j as int),
        decreases tail.len() - j,
    {
        v.push(tail[j]);
        assert(v@ =~= digest@ + tail@.subrange(0, j + 1));
        j = j + 1;
    }
    assert(tail@.subrange(0, tail@.len() as int) =~= tail@);
    v
}

/// An update image with `signature` for `payload`, sealed with the SHA-512/256 hash of
/// everything after the hash field
pub fn update_image(signature: [u8; 4], payload: &[u8]) -> (r: Vec<u8>)
    ensures
        r@ == sha512_trunc256(image_tail_spec(signature@, payload@)) + image_tail_spec(signature@, payload@),
{
    let tail = image_tail(signature, payload);
    let digest = sha512_trunc256_digest(tail.as_slice());
    seal_image(digest, tail.as_slice())
}

/// The EC flash image: the gateware, loader and kernel regions back to back
pub fn ec_flash_image(gateware: &[u8], loader: &[u8], kernel: &[u8]) -> (r: Vec<u8>)
    ensures
        r@ == gateware@ + loader@ + kernel@,
{
    let mut v: Vec<u8> = Vec::new();
    append(&mut v, gateware);
    append(&mut v, loader);
    append(&mut v, kernel);
    v
}

/// Append the bytes of `s`
fn append(v: &mut Vec<u8>, s: &[u8])
    ensures
        final(v)@ == old(v)@ + s@,
{
    let ghost v0 = v@;
    let mut j: usize = 0;
    while j < s.len()
        invariant
            j <= s@.len(),
            v@ == v0 + s@.subrange(0, j as int),
        decreases s.len() - j,
    {
        v.push(s[j]);
        assert(v@ =~= v0 + s@.subrange(0, j + 1));
        j = j + 1;
    }
    assert(s@.subrange(0, s@.len() as int) =~= s@);
}

/// The EC firmware update image: signature 'prec', payload the EC flash image
pub fn ec_update_image(gateware: &[u8], loader: &[u8], kernel: &[u8]) -> (r: Vec<u8>)
    ensures
        r@ == sha512_trunc256(image_tail_spec(seq![0x70u8, 0x72, 0x65, 0x63], gateware@ + loader@ + kernel@))
            + image_tail_spec(seq![0x70u8, 0x72, 0x65, 0x63], gateware@ + loader@ + kernel@),
{
    let payload = ec_flash_image(gateware, loader, kernel);
    let sig: [u8; 4] = [0x70, 0x72, 0x65, 0x63];
    assert(sig@ =~= seq![0x70u8, 0x72, 0x65, 0x63]);
    update_image(sig, payload.as_slice())
}

/// The WF200 firmware update image: signature 'wf20', payload the WF200 firmware
pub fn wf200_update_image(firmware: &[u8]) -> (r: Vec<u8>)
    ensures
        r@ == sha512_trunc256(image_tail_spec(seq![0x77u8, 0x66, 0x32, 0x30], firmware@))
            + image_tail_spec(seq![0x77u8, 0x66, 0x32, 0x30], firmware@),
{
    let sig: [u8; 4] = [0x77, 0x66, 0x32, 0x30];
    assert(sig@ =~= seq![0x77u8, 0x66, 0x32, 0x30]);
    update_image(sig, firmware)
}

/// The header of every image is one page: the payload starts at byte 4096, right after
/// the 32-byte hash, the 4-byte signature, the version, the length and the padding.
pub proof fn lemma_payload_starts_at_header_end(signature: Seq<u8>, payload: Seq<u8>)
    requires
        signature.len() == 4,
    ensures
        image_tail_spec(signature, payload).len() == HEADER_LEN - HASH_LEN + payload.len(),
        image_tail_spec(signature, payload).subrange(
            (HEADER_LEN - HASH_LEN) as int,
            (HEADER_LEN - HASH_LEN + payload.len()) as int,
        ) == payload,
        image_tail_spec(signature, payload).subrange(0, 4) == signature,
{
    let t = image_tail_spec(signature, payload);
    assert(t.subrange((HEADER_LEN - HASH_LEN) as int, (HEADER_LEN - HASH_LEN + payload.len()) as int) =~= payload);
    assert(t.subrange(0, 4) =~= signature);
}

} // verus!
