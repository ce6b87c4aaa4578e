//! Fixed-width integers on the wire.
//!
//! RaSTA header fields and the SCI message type are little-endian; the
//! SCI-TDS filling level and BCD values are big-endian. Every integer is
//! described byte by byte with plain arithmetic, so that contracts about
//! frames can speak of single bytes.

use vstd::prelude::*;

verus! {

/// Byte `k` (0 is the least significant) of a 16-bit value.
pub open spec fn u16_byte(x: u16, k: int) -> u8 {
    if k == 0 {
        (x % 256) as u8
    } else {
        (x / 256) as u8
    }
}

/// Byte `k` (0 is the least significant) of a 32-bit value.
pub open spec fn u32_byte(x: u32, k: int) -> u8 {
    if k == 0 {
        (x % 256) as u8
    } else if k == 1 {
        ((x / 256) % 256) as u8
    } else if k == 2 {
        ((x / 65536) % 256) as u8
    } else {
        (x / 16777216) as u8
    }
}

/// The little-endian 16-bit value held in `s[at]` and `s[at + 1]`.
pub open spec fn u16_at(s: Seq<u8>, at: int) -> u16
    recommends
        0 <= at,
        at + 2 <= s.len(),
{
    (s[at] as int + 256 * (s[at + 1] as int)) as u16
}

/// The little-endian 32-bit value held in `s[at]` to `s[at + 3]`.
pub open spec fn u32_at(s: Seq<u8>, at: int) -> u32
    recommends
        0 <= at,
        at + 4 <= s.len(),
{
    (s[at] as int + 256 * (s[at + 1] as int) + 65536 * (s[at + 2] as int) + 16777216 * (s[at
        + 3] as int)) as u32
}

/// The big-endian 16-bit value made of a high and a low byte.
pub open spec fn u16_from_be(high: u8, low: u8) -> u16 {
    (256 * (high as int) + low as int) as u16
}

/// `s` with the bytes of `src` written over it from index `at` on.
pub open spec fn overwrite(s: Seq<u8>, at: int, src: Seq<u8>) -> Seq<u8> {
    Seq::new(
        s.len(),
        |i: int|
            if at <= i < at + src.len() {
                src[i - at]
            } else {
                s[i]
            },
    )
}

/// The two bytes of `x`, least significant first.
pub open spec fn u16_le(x: u16) -> Seq<u8> {
    seq![u16_byte(x, 0), u16_byte(x, 1)]
}

/// The four bytes of `x`, least significant first.
pub open spec fn u32_le(x: u32) -> Seq<u8> {
    seq![u32_byte(x, 0), u32_byte(x, 1), u32_byte(x, 2), u32_byte(x, 3)]
}

/// Reading back a 16-bit value from the place it was written to yields it.
pub proof fn lemma_u16_read_back(s: Seq<u8>, at: int, x: u16)
    requires
        0 <= at,
        at + 2 <= s.len(),
        s[at] == u16_byte(x, 0),
        s[at + 1] == u16_byte(x, 1),
    ensures
        u16_at(s, at) == x,
{
}

/// Reading back a 32-bit value from the place it was written to yields it.
pub proof fn lemma_u32_read_back(s: Seq<u8>, at: int, x: u32)
    requires
        0 <= at,
        at + 4 <= s.len(),
        s[at] == u32_byte(x, 0),
        s[at + 1] == u32_byte(x, 1),
        s[at + 2] == u32_byte(x, 2),
        s[at + 3] == u32_byte(x, 3),
    ensures
        u32_at(s, at) == x,
{
}

/// Reads the little-endian 16-bit value at `at`.
pub fn get_u16(buf: &[u8], at: usize) -> (x: u16)
    requires
        at + 2 <= buf.len(),
    ensures
        x == u16_at(buf@, at as int),
{
    let low: u16 = buf[at] as u16;
    let high: u16 = buf[at + 1] as u16;
    low + 256 * high
}

/// Reads the little-endian 32-bit value at `at`.
pub fn get_u32(buf: &[u8], at: usize) -> (x: u32)
    requires
        at + 4 <= buf.len(),
    ensures
        x == u32_at(buf@, at as int),
{
    let b0: u32 = buf[at] as u32;
    let b1: u32 = buf[at + 1] as u32;
    let b2: u32 = buf[at + 2] as u32;
    let b3: u32 = buf[at + 3] as u32;
    b0 + 256 * b1 + 65536 * b2 + 16777216 * b3
}

/// Writes `x` at `at`, least significant byte first.
pub fn put_u16(buf: &mut Vec<u8>, at: usize, x: u16)
    requires
        at + 2 <= old(buf).len(),
    ensures
        final(buf)@ == overwrite(old(buf)@, at as int, u16_le(x)),
{
    buf[at] = (x % 256) as u8;
    buf[at + 1] = (x / 256) as u8;
    assert(buf@ =~= overwrite(old(buf)@, at as int, u16_le(x)));
}

/// Writes `x` at `at`, least significant byte first.
pub fn put_u32(buf: &mut Vec<u8>, at: usize, x: u32)
    requires
        at + 4 <= old(buf).len(),
    ensures
        final(buf)@ == overwrite(old(buf)@, at as int, u32_le(x)),
{
    buf[at] = (x % 256) as u8;
    buf[at + 1] = ((x / 256) % 256) as u8;
    buf[at + 2] = ((x / 65536) % 256) as u8;
    buf[at + 3] = (x / 16777216) as u8;
    assert(buf@ =~= overwrite(old(buf)@, at as int, u32_le(x)));
}

/// Copies `src` over `buf` from index `at` on.
pub fn put_bytes(buf: &mut Vec<u8>, at: usize, src: &[u8])
    requires
        at + src.len() <= old(buf).len(),
    ensures
        final(buf)@ == overwrite(old(buf)@, at as int, src@),
{
    let mut i: usize = 0;
    while i < src.len()
        invariant
            i <= src@.len(),
            at + src.len() <= buf.len(),
            buf@.len() == old(buf)@.len(),
            forall|k: int|
                0 <= k < buf@.len() ==> buf@[k] == if at <= k < at + i {
                    src@[k - at]
                } else {
                    old(buf)@[k]
                },
        decreases src@.len() - i,
    {
        buf[at + i] = src[i];
        i += 1;
    }
    assert(buf@ =~= overwrite(old(buf)@, at as int, src@));
}

/// The two bytes of `x`, most significant first.
pub fn u16_to_be_bytes(x: u16) -> (bytes: [u8; 2])
    ensures
        bytes@ == seq![u16_byte(x, 1), u16_byte(x, 0)],
        u16_from_be(bytes@[0], bytes@[1]) == x,
{
    let bytes: [u8; 2] = [(x / 256) as u8, (x % 256) as u8];
    assert(bytes@ =~= seq![u16_byte(x, 1), u16_byte(x, 0)]);
    bytes
}

/// The 16-bit value whose big-endian bytes are `high`, `low`.
pub fn u16_from_be_bytes(high: u8, low: u8) -> (x: u16)
    ensures
        x == u16_from_be(high, low),
{
    256 * (high as u16) + (low as u16)
}

} // verus!
