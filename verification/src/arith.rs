use vstd::prelude::*;

verus! {

/// Divides `a` by `b`, rounding towards zero.
///
/// Division by zero is a panic in the caller's program, so `b` must not
/// be zero.
pub fn divide(a: u32, b: u32) -> (q: u32)
    requires
        b != 0,
    ensures
        q == a / b,
        q * b <= a < q * b + b,
{
    let q = a / b;
    assert(q * b <= a < q * b + b) by (nonlinear_arith)
        requires q == a / b, b != 0;
    q
}

} // verus!
