//! Real-valued quantities as the game compares them.
//!
//! A quantity is either "not a number" or a position in the order of the
//! real numbers (infinities included): two quantities that are numbers
//! compare as their positions do, equal numbers have equal positions, and
//! "not a number" is neither smaller, greater nor equal to anything.

use vstd::prelude::*;

verus! {

/// A real-valued quantity, kept by its position in the order of the numbers.
#[derive(Clone, Copy, Debug, PartialEq, Eq, Structural)]
pub enum Measure {
    NotANumber,
    Number(i64),
}

/// `a < b` for quantities.
pub open spec fn less(a: Measure, b: Measure) -> bool {
    match (a, b) {
        (Measure::Number(x), Measure::Number(y)) => x < y,
        _ => false,
    }
}

/// `a <= b` for quantities.
pub open spec fn less_eq(a: Measure, b: Measure) -> bool {
    match (a, b) {
        (Measure::Number(x), Measure::Number(y)) => x <= y,
        _ => false,
    }
}

/// `a == 0` for a quantity.
pub open spec fn is_zero(a: Measure) -> bool {
    a == Measure::Number(0)
}

impl Measure {
    /// Whether `self < other`.
    pub fn lt(&self, other: &Measure) -> (b: bool)
        ensures
            b == less(*self, *other),
    {
        match (self, other) {
            (Measure::Number(x), Measure::Number(y)) => *x < *y,
            _ => false,
        }
    }

    /// Whether `self <= other`.
    pub fn le(&self, other: &Measure) -> (b: bool)
        ensures
            b == less_eq(*self, *other),
    {
        match (self, other) {
            (Measure::Number(x), Measure::Number(y)) => *x <= *y,
            _ => false,
        }
    }

    /// Whether the quantity is zero.
    pub fn is_zero(&self) -> (b: bool)
        ensures
            b == is_zero(*self),
    {
        match self {
            Measure::Number(x) => *x == 0,
            Measure::NotANumber => false,
        }
    }
}

} // verus!
