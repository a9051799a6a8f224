use vstd::prelude::*;

verus! {

/// The 16-bit value whose high byte is `hi` and low byte is `lo`.
pub open spec fn join_spec(hi: u8, lo: u8) -> u16 {
    (hi as nat * 256 + lo as nat) as u16
}

/// Splits a 16-bit value into its (high, low) bytes.
pub fn split_bytes(value: u16) -> (r: (u8, u8))
    ensures
        r.0 == value / 256,
        r.1 == value % 256,
        join_spec(r.0, r.1) == value,
{
    ((value / 256) as u8, (value % 256) as u8)
}

/// Joins a high and a low byte into a 16-bit value, high byte first.
pub fn join_bytes(a: u8, b: u8) -> (r: u16)
    ensures
        r == join_spec(a, b),
        r as nat == a as nat * 256 + b as nat,
        r == ((a as u16) << 8u16) | (b as u16),
{
    let r = (a as u16) * 256 + (b as u16);
    assert(((a as u16) * 256 + (b as u16)) == (((a as u16) << 8u16) | (b as u16))) by (bit_vector)
        requires
            (a as u16) < 256,
            (b as u16) < 256,
    ;
    r
}

/// The approximate half-carry test used by the arithmetic instructions:
/// a value is taken to have carried out of bit 3 when it exceeds 0x0F.
pub fn half_carry_occured(a: u8) -> (r: bool)
    ensures
        r == (a > 0x0F),
{
    a > 0x0F
}

/// The (high, low) bytes of a 16-bit value.
pub open spec fn split_spec(v: u16) -> (u8, u8) {
    ((v / 256) as u8, (v % 256) as u8)
}

/// Byte order: joining two bytes puts the first one high, and splitting the
/// joined value gives back exactly the two bytes; splitting then joining any
/// 16-bit value gives back that value.
pub proof fn lemma_split_join(a: u8, b: u8, v: u16)
    ensures
        split_spec(join_spec(a, b)) == (a, b),
        join_spec(split_spec(v).0, split_spec(v).1) == v,
        join_spec(a, b) == ((a as u16) << 8u16) | (b as u16),
{
    assert(((a as u16) * 256 + (b as u16)) == (((a as u16) << 8u16) | (b as u16))) by (bit_vector)
        requires
            (a as u16) < 256,
            (b as u16) < 256,
    ;
}

} // verus!
