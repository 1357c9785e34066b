use vstd::prelude::*;

verus! {

/// The unsigned value of the two little-endian bytes at `pos`.
pub open spec fn le16_at(s: Seq<u8>, pos: int) -> int {
    s[pos] + 0x100 * s[pos + 1]
}

/// The unsigned value of the four little-endian bytes at `pos`.
pub open spec fn le32_at(s: Seq<u8>, pos: int) -> int {
    s[pos] + 0x100 * s[pos + 1] + 0x1_0000 * s[pos + 2] + 0x100_0000 * s[pos + 3]
}

/// The two's-complement reading of an unsigned 16-bit value.
pub open spec fn as_signed16(v: int) -> int {
    if v < 0x8000 {
        v
    } else {
        v - 0x1_0000
    }
}

/// The two's-complement reading of an unsigned 32-bit value.
pub open spec fn as_signed32(v: int) -> int {
    if v < 0x8000_0000 {
        v
    } else {
        v - 0x1_0000_0000
    }
}

/// Read an unsigned little-endian 16-bit value.
pub fn read_u16_at(bytes: &[u8], pos: usize) -> (v: u16)
    requires
        pos + 2 <= bytes@.len(),
    ensures
        v == le16_at(bytes@, pos as int),
{
    let b0 = bytes[pos];
    let b1 = bytes[pos + 1];
    (b0 as u16) + 0x100 * (b1 as u16)
}

/// Read an unsigned little-endian 32-bit value.
pub fn read_u32_at(bytes: &[u8], pos: usize) -> (v: u32)
    requires
        pos + 4 <= bytes@.len(),
    ensures
        v == le32_at(bytes@, pos as int),
{
    let b0 = bytes[pos];
    let b1 = bytes[pos + 1];
    let b2 = bytes[pos + 2];
    let b3 = bytes[pos + 3];
    (b0 as u32) + 0x100 * (b1 as u32) + 0x1_0000 * (b2 as u32) + 0x100_0000 * (b3 as u32)
}

/// Read a signed little-endian 16-bit value: the exact bit pattern of the
/// two bytes, reinterpreted as two's complement.
pub fn read_i16_at(bytes: &[u8], pos: usize) -> (v: i16)
    requires
        pos + 2 <= bytes@.len(),
    ensures
        v == as_signed16(le16_at(bytes@, pos as int)),
{
    let u = read_u16_at(bytes, pos);
    if u < 0x8000 {
        u as i16
    } else {
        ((u as i32) - 0x1_0000) as i16
    }
}

/// Read a signed little-endian 32-bit value: the exact bit pattern of the
/// four bytes, reinterpreted as two's complement.
pub fn read_i32_at(bytes: &[u8], pos: usize) -> (v: i32)
    requires
        pos + 4 <= bytes@.len(),
    ensures
        v == as_signed32(le32_at(bytes@, pos as int)),
{
    let u = read_u32_at(bytes, pos);
    if u < 0x8000_0000 {
        u as i32
    } else {
        ((u as i64) - 0x1_0000_0000) as i32
    }
}

} // verus!
