use vstd::prelude::*;

verus! {

/// A product of two bounded factors is bounded by the product of the bounds.
pub proof fn lemma_product_bound(a: int, b: int, max_a: int, max_b: int)
    by (nonlinear_arith)
    requires
        0 <= a <= max_a,
        0 <= b <= max_b,
    ensures
        0 <= a * b <= max_a * max_b,
{
}

/// The product of two 32-bit numbers; it fits 64 bits.
pub fn product_u32(a: u32, b: u32) -> (p: u64)
    ensures
        p == a * b,
{
    proof {
        lemma_product_bound(a as int, b as int, u32::MAX as int, u32::MAX as int);
    }
    a as u64 * b as u64
}

/// The product of two 64-bit numbers; it fits 128 bits.
pub fn product_u64(a: u64, b: u64) -> (p: u128)
    ensures
        p == a * b,
{
    proof {
        lemma_product_bound(a as int, b as int, u64::MAX as int, u64::MAX as int);
    }
    a as u128 * b as u128
}

/// The size of a signed number.
pub fn size_i32(v: i32) -> (m: u32)
    ensures
        m == if v < 0 { -(v as int) } else { v as int },
{
    if v < 0 {
        (-(v as i64)) as u32
    } else {
        v as u32
    }
}

} // verus!
