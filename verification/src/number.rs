//! The order of numbers, taken as IEEE 754 doubles and read from their bit
//! patterns.

use vstd::prelude::*;

verus! {

/// One of the five ways to compare two values.
#[derive(Debug, PartialEq, Eq, Clone, Copy, Structural)]
pub enum Comparison {
    Equals,
    LessThan,
    GreaterThan,
    LessThanEquals,
    GreaterThanEquals,
}

impl Comparison {
    /// Whether the comparison holds of two values of which the first is
    /// less than the second where `less`, and equal to it where `equal`.
    pub open spec fn holds(self, less: bool, equal: bool) -> bool {
        match self {
            Comparison::Equals => equal,
            Comparison::LessThan => less,
            Comparison::GreaterThan => !less && !equal,
            Comparison::LessThanEquals => less || equal,
            Comparison::GreaterThanEquals => !less,
        }
    }

    /// Whether the comparison holds of two values of which the first is
    /// less than the second where `less`, and equal to it where `equal`.
    pub fn decide(self, less: bool, equal: bool) -> (res: bool)
        ensures
            res == self.holds(less, equal),
    {
        match self {
            Comparison::Equals => equal,
            Comparison::LessThan => less,
            Comparison::GreaterThan => !less && !equal,
            Comparison::LessThanEquals => less || equal,
            Comparison::GreaterThanEquals => !less,
        }
    }
}

/// The place of a finite double among the finite doubles, read from its bit
/// pattern: the bits below the sign bit count up with the size of the
/// number, so the place is their value, negated where the sign bit is set.
/// Both zeros have place zero.
pub open spec fn double_rank(bits: u64) -> int {
    let magnitude = (bits & 0x7fff_ffff_ffff_ffff) as int;
    if bits >> 63 == 1 {
        -magnitude
    } else {
        magnitude
    }
}

/// The place of a finite double among the finite doubles.
pub fn rank_of(bits: u64) -> (res: i128)
    ensures
        res == double_rank(bits),
{
    let magnitude: u64 = bits & 0x7fff_ffff_ffff_ffff;
    if bits >> 63 == 1 {
        -(magnitude as i128)
    } else {
        magnitude as i128
    }
}

/// Whether the double with bits `a` is less than the double with bits `b`.
pub fn double_less(a: u64, b: u64) -> (res: bool)
    ensures
        res == (double_rank(a) < double_rank(b)),
{
    rank_of(a) < rank_of(b)
}

/// Whether the doubles with bits `a` and `b` are the same number.
pub fn double_equal(a: u64, b: u64) -> (res: bool)
    ensures
        res == (double_rank(a) == double_rank(b)),
{
    rank_of(a) == rank_of(b)
}

} // verus!
