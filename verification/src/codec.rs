//! Little-endian byte access shared by the PCI configuration codec and the
//! VFIO structure codecs, and the error kinds every codec surfaces.

use vstd::prelude::*;

verus! {

/// Failure kinds of the binary codecs.
#[derive(Debug, Clone, Copy, PartialEq, Eq, Structural)]
pub enum CodecError {
    /// Input shorter than the structure requires.
    Truncated,
    /// Decode did not consume the full input.
    TrailingBytes,
    /// No variant of a tagged union matches the discriminant.
    UnknownDiscriminant,
    /// A PCI header layout other than type 0 or type 1.
    UnsupportedHeaderType,
}

/// Value of two little-endian bytes.
pub open spec fn le16(b0: u8, b1: u8) -> int {
    b0 + 256 * b1
}

/// Value of four little-endian bytes.
pub open spec fn le32(b0: u8, b1: u8, b2: u8, b3: u8) -> int {
    b0 + 256 * b1 + 65536 * b2 + 16777216 * b3
}

/// The two little-endian bytes of a 16-bit value.
pub open spec fn u16_le_bytes(v: u16) -> Seq<u8> {
    seq![(v & 0xff) as u8, ((v >> 8) & 0xff) as u8]
}

/// The four little-endian bytes of a 32-bit value.
pub open spec fn u32_le_bytes(v: u32) -> Seq<u8> {
    seq![
        (v & 0xff) as u8,
        ((v >> 8) & 0xff) as u8,
        ((v >> 16) & 0xff) as u8,
        ((v >> 24) & 0xff) as u8,
    ]
}

/// The eight little-endian bytes of a 64-bit value.
pub open spec fn u64_le_bytes(v: u64) -> Seq<u8> {
    seq![
        (v & 0xff) as u8,
        ((v >> 8) & 0xff) as u8,
        ((v >> 16) & 0xff) as u8,
        ((v >> 24) & 0xff) as u8,
        ((v >> 32) & 0xff) as u8,
        ((v >> 40) & 0xff) as u8,
        ((v >> 48) & 0xff) as u8,
        ((v >> 56) & 0xff) as u8,
    ]
}

/// Reading two little-endian bytes and writing the value back gives the
/// same bytes.
pub proof fn lemma_u16_le_roundtrip(b0: u8, b1: u8)
    ensures
        le16(b0, b1) <= u16::MAX,
        u16_le_bytes(le16(b0, b1) as u16) =~= seq![b0, b1],
{
    assert(b0 + 256 * b1 <= 0xffff) by (bit_vector);
    let v = (b0 + 256 * b1) as u16;
    assert((v & 0xff) == b0 && ((v >> 8) & 0xff) == b1) by (bit_vector)
        requires
            v == (b0 + 256 * b1) as u16,
    ;
}

/// Reading four little-endian bytes and writing the value back gives the
/// same bytes.
pub proof fn lemma_u32_le_roundtrip(b0: u8, b1: u8, b2: u8, b3: u8)
    ensures
        le32(b0, b1, b2, b3) <= u32::MAX,
        u32_le_bytes(le32(b0, b1, b2, b3) as u32) =~= seq![b0, b1, b2, b3],
{
    assert(b0 + 256 * b1 + 65536 * b2 + 16777216 * b3 <= 0xffff_ffff) by (bit_vector);
    let v = (b0 + 256 * b1 + 65536 * b2 + 16777216 * b3) as u32;
    assert((v & 0xff) == b0 && ((v >> 8) & 0xff) == b1 && ((v >> 16) & 0xff) == b2 && ((v >> 24)
        & 0xff) == b3) by (bit_vector)
        requires
            v == (b0 + 256 * b1 + 65536 * b2 + 16777216 * b3) as u32,
    ;
}

/// Read a 16-bit little-endian value at `off`.
pub fn read_u16_le(b: &[u8], off: usize) -> (r: u16)
    requires
        off + 2 <= b@.len(),
    ensures
        r as int == le16(b@[off as int], b@[off as int + 1]),
{
    let lo = b[off];
    let hi = b[off + 1];
    let r = lo as u16 | ((hi as u16) << 8);
    proof {
        assert(r == lo + 256 * hi) by (bit_vector)
            requires
                r == (lo as u16 | ((hi as u16) << 8)),
        ;
    }
    r
}

/// Read a 32-bit little-endian value at `off`.
pub fn read_u32_le(b: &[u8], off: usize) -> (r: u32)
    requires
        off + 4 <= b@.len(),
    ensures
        r as int == le32(
            b@[off as int],
            b@[off as int + 1],
            b@[off as int + 2],
            b@[off as int + 3],
        ),
{
    let b0 = b[off];
    let b1 = b[off + 1];
    let b2 = b[off + 2];
    let b3 = b[off + 3];
    let r = b0 as u32 | ((b1 as u32) << 8) | ((b2 as u32) << 16) | ((b3 as u32) << 24);
    proof {
        assert(r == b0 + 256 * b1 + 65536 * b2 + 16777216 * b3) by (bit_vector)
            requires
                r == (b0 as u32 | ((b1 as u32) << 8) | ((b2 as u32) << 16) | ((b3 as u32) << 24)),
        ;
    }
    r
}

/// Append the two little-endian bytes of a 16-bit value.
pub fn push_u16_le(out: &mut Vec<u8>, v: u16)
    ensures
        final(out)@ =~= old(out)@ + u16_le_bytes(v),
{
    out.push((v & 0xff) as u8);
    out.push(((v >> 8) & 0xff) as u8);
}

/// Append the four little-endian bytes of a 32-bit value.
pub fn push_u32_le(out: &mut Vec<u8>, v: u32)
    ensures
        final(out)@ =~= old(out)@ + u32_le_bytes(v),
{
    out.push((v & 0xff) as u8);
    out.push(((v >> 8) & 0xff) as u8);
    out.push(((v >> 16) & 0xff) as u8);
    out.push(((v >> 24) & 0xff) as u8);
}

/// Append the eight little-endian bytes of a 64-bit value.
pub fn push_u64_le(out: &mut Vec<u8>, v: u64)
    ensures
        final(out)@ =~= old(out)@ + u64_le_bytes(v),
{
    out.push((v & 0xff) as u8);
    out.push(((v >> 8) & 0xff) as u8);
    out.push(((v >> 16) & 0xff) as u8);
    out.push(((v >> 24) & 0xff) as u8);
    out.push(((v >> 32) & 0xff) as u8);
    out.push(((v >> 40) & 0xff) as u8);
    out.push(((v >> 48) & 0xff) as u8);
    out.push(((v >> 56) & 0xff) as u8);
}

/// Read a 64-bit little-endian value at `off`.
pub fn read_u64_le(b: &[u8], off: usize) -> (r: u64)
    requires
        off + 8 <= b@.len(),
    ensures
        r as int == le32(b@[off as int], b@[off as int + 1], b@[off as int + 2], b@[off as int + 3])
            + 0x1_0000_0000 * le32(
            b@[off as int + 4],
            b@[off as int + 5],
            b@[off as int + 6],
            b@[off as int + 7],
        ),
{
    let n = b.len();
    assert(off + 8 <= n);
    let lo = read_u32_le(b, off);
    let hi = read_u32_le(b, off + 4);
    let r = lo as u64 | ((hi as u64) << 32);
    proof {
        assert(r == lo + 0x1_0000_0000 * hi) by (bit_vector)
            requires
                r == (lo as u64 | ((hi as u64) << 32)),
        ;
    }
    r
}

/// Value of eight little-endian bytes.
pub open spec fn le64(
    b0: u8,
    b1: u8,
    b2: u8,
    b3: u8,
    b4: u8,
    b5: u8,
    b6: u8,
    b7: u8,
) -> int {
    le32(b0, b1, b2, b3) + 0x1_0000_0000 * le32(b4, b5, b6, b7)
}

/// Reading eight little-endian bytes and writing the value back gives the
/// same bytes.
pub proof fn lemma_u64_le_roundtrip(b0: u8, b1: u8, b2: u8, b3: u8, b4: u8, b5: u8, b6: u8, b7: u8)
    ensures
        le64(b0, b1, b2, b3, b4, b5, b6, b7) <= u64::MAX,
        u64_le_bytes(le64(b0, b1, b2, b3, b4, b5, b6, b7) as u64) =~= seq![
            b0,
            b1,
            b2,
            b3,
            b4,
            b5,
            b6,
            b7,
        ],
{
    assert(b0 + 256 * b1 + 65536 * b2 + 16777216 * b3 + 0x1_0000_0000 * (b4 + 256 * b5 + 65536 * b6
        + 16777216 * b7) <= 0xffff_ffff_ffff_ffff) by (bit_vector);
    let v = (b0 + 256 * b1 + 65536 * b2 + 16777216 * b3 + 0x1_0000_0000 * (b4 + 256 * b5 + 65536
        * b6 + 16777216 * b7)) as u64;
    assert((v & 0xff) == b0 && ((v >> 8) & 0xff) == b1 && ((v >> 16) & 0xff) == b2 && ((v >> 24)
        & 0xff) == b3 && ((v >> 32) & 0xff) == b4 && ((v >> 40) & 0xff) == b5 && ((v >> 48) & 0xff)
        == b6 && ((v >> 56) & 0xff) == b7) by (bit_vector)
        requires
            v == (b0 + 256 * b1 + 65536 * b2 + 16777216 * b3 + 0x1_0000_0000 * (b4 + 256 * b5
                + 65536 * b6 + 16777216 * b7)) as u64,
    ;
}

} // verus!
