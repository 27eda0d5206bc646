use vstd::prelude::*;

verus! {

/// Number of raw units in one unit of length, one pixel, or one radian.
pub const ONE: i64 = 1_000_000_000;

/// The number pi in raw units, rounded to the nearest unit.
pub const PI: i64 = 3_141_592_654;

/// `|v| <= b`.
pub open spec fn within(v: int, b: int) -> bool {
    -b <= v <= b
}

/// Each coordinate of `v` lies within `b`.
pub open spec fn within3(v: (int, int, int), b: int) -> bool {
    within(v.0, b) && within(v.1, b) && within(v.2, b)
}

/// A product of two bounded factors is bounded by the product of the bounds.
pub proof fn lemma_product_within(a: int, ka: int, x: int, kx: int)
    by (nonlinear_arith)
    requires
        within(a, ka),
        within(x, kx),
    ensures
        within(a * x, ka * kx),
{
}

} // verus!
