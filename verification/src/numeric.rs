use vstd::prelude::*;

verus! {

/// Two's-complement reinterpretation of a signed 32-bit wire field as the
/// unsigned index the protocol convention says it carries.
pub open spec fn as_unsigned_index(n: i32) -> u32 {
    (if n >= 0 {
        n as int
    } else {
        (n as int) + 0x1_0000_0000
    }) as u32
}

/// Two's-complement reinterpretation of an unsigned index as the signed
/// 32-bit field that carries it on the wire.
pub open spec fn as_wire_index(n: u32) -> i32 {
    (if n <= 0x7fff_ffff {
        n as int
    } else {
        (n as int) - 0x1_0000_0000
    }) as i32
}

/// Narrows a signed wire field to the unsigned index it carries.  Negative
/// values wrap around; the wrap is deliberate: peers send only non-negative
/// values here, and wrapping instead of rejecting keeps the codec
/// wire-compatible with them.
pub fn narrow_index(n: i32) -> (r: u32)
    ensures
        r == as_unsigned_index(n),
{
    if n >= 0 {
        n as u32
    } else {
        let wide: i64 = (n as i64) + 0x1_0000_0000i64;
        wide as u32
    }
}

/// Widens an unsigned index to the signed field that carries it on the wire.
/// Indices above `i32::MAX` wrap to negative values, the exact inverse of
/// the narrowing above.
pub fn widen_index(n: u32) -> (r: i32)
    ensures
        r == as_wire_index(n),
{
    if n <= 0x7fff_ffff {
        n as i32
    } else {
        let wide: i64 = (n as i64) - 0x1_0000_0000i64;
        wide as i32
    }
}

/// Widening then narrowing an index gives it back unchanged, whatever its
/// value: the two reinterpretations are exact inverses.
pub broadcast proof fn lemma_index_round_trip(n: u32)
    ensures
        #[trigger] as_unsigned_index(as_wire_index(n)) == n,
{
}

/// The unsigned 32-bit wire code for a tab position, wrapping positions
/// that exceed the wire width.
pub open spec fn position_code(t: usize) -> u32 {
    ((t as int) % 0x1_0000_0000) as u32
}

/// Encodes a tab position into its 32-bit wire code.
pub fn position_to_wire(t: usize) -> (r: u32)
    ensures
        r == position_code(t),
{
    ((t as u64) % 0x1_0000_0000u64) as u32
}

/// A tab position that fits the wire width survives the trip onto the wire
/// and back unchanged.
pub broadcast proof fn lemma_position_round_trip(t: usize)
    ensures
        t <= u32::MAX ==> (#[trigger] position_code(t)) as usize == t,
{
}

} // verus!
