use vstd::prelude::*;

verus! {

/// A pair of signed 32-bit integers.
#[derive(Debug, PartialEq, Eq, Structural)]
pub struct IntPair {
    pub a: i32,
    pub b: i32,
}

/// A value that is either a signed 32-bit integer or an unsigned byte.
#[derive(Debug, PartialEq, Eq, Structural)]
pub enum IntOrChar {
    I(i32),
    C(u8),
}

/// Copies field `a` over field `b`: afterwards both fields hold the
/// original value of `a`, and the original value of `b` is discarded.
pub fn swap_pair(pair: &mut IntPair)
    ensures
        final(pair).a == old(pair).a,
        final(pair).b == old(pair).a,
{
    let c = pair.a;
    pair.b = pair.a;
    pair.a = c;
}

/// Returns the sum of `a` and `b`. The caller must keep the mathematical
/// sum within the signed 32-bit range; within it, the result is exact.
pub fn add(a: i32, b: i32) -> (r: i32)
    requires
        i32::MIN <= a + b <= i32::MAX,
    ensures
        r == a + b,
{
    a + b
}

/// Three-way comparison of two signed 32-bit integers: -1 when `a` is
/// less than `b`, 1 when `a` is greater, and 0 when they are equal.
/// Exactly one of the three outcomes holds for every pair of inputs.
pub fn compare(a: &i32, b: &i32) -> (r: i32)
    ensures
        r == -1 <==> *a < *b,
        r == 1 <==> *a > *b,
        r == 0 <==> *a == *b,
{
    if a < b {
        -1
    } else if a > b {
        1
    } else {
        0
    }
}

} // verus!
