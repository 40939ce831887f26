//! Block numbers.

use vstd::prelude::*;

verus! {

/// Number of a block. Its mathematical value is a natural number.
pub trait BlockNumber: Copy {
    /// The number as a natural.
    spec fn as_nat(self) -> nat;

    /// Is this the number of the genesis block?
    fn is_zero(&self) -> (r: bool)
        ensures
            r == (self.as_nat() == 0),
    ;

    /// Difference of two numbers, or zero if `other` is the larger one.
    fn saturating_sub(self, other: Self) -> (r: Self)
        ensures
            r.as_nat() == saturating_difference(self.as_nat(), other.as_nat()),
    ;

    /// Does this number exceed `bound`?
    fn exceeds(&self, bound: u32) -> (r: bool)
        ensures
            r == (self.as_nat() > bound),
    ;
}

/// Difference of two naturals, with zero in place of a negative one.
pub open spec fn saturating_difference(a: nat, b: nat) -> nat {
    if a >= b {
        (a - b) as nat
    } else {
        0
    }
}

/// Calls `num_traits::Zero::is_zero` on a `u32`: true of 0 alone.
#[verifier::external_body]
fn zero_u32(n: &u32) -> (r: bool)
    ensures
        r == (*n == 0),
{
    num_traits::Zero::is_zero(n)
}

/// Calls `num_traits::Zero::is_zero` on a `u64`: true of 0 alone.
#[verifier::external_body]
fn zero_u64(n: &u64) -> (r: bool)
    ensures
        r == (*n == 0),
{
    num_traits::Zero::is_zero(n)
}

/// Calls `num_traits::Saturating::saturating_sub` on two `u32`s: `a - b`, held
/// at 0, the lower bound of the type, where `b` is larger.
#[verifier::external_body]
fn difference_u32(a: u32, b: u32) -> (r: u32)
    ensures
        r == saturating_difference(a as nat, b as nat),
{
    num_traits::Saturating::saturating_sub(a, b)
}

/// Calls `num_traits::Saturating::saturating_sub` on two `u64`s: `a - b`, held
/// at 0, the lower bound of the type, where `b` is larger.
#[verifier::external_body]
fn difference_u64(a: u64, b: u64) -> (r: u64)
    ensures
        r == saturating_difference(a as nat, b as nat),
{
    num_traits::Saturating::saturating_sub(a, b)
}

impl BlockNumber for u32 {
    open spec fn as_nat(self) -> nat {
        self as nat
    }

    fn is_zero(&self) -> bool {
        zero_u32(self)
    }

    fn saturating_sub(self, other: Self) -> Self {
        difference_u32(self, other)
    }

    fn exceeds(&self, bound: u32) -> bool {
        *self > bound
    }
}

impl BlockNumber for u64 {
    open spec fn as_nat(self) -> nat {
        self as nat
    }

    fn is_zero(&self) -> bool {
        zero_u64(self)
    }

    fn saturating_sub(self, other: Self) -> Self {
        difference_u64(self, other)
    }

    fn exceeds(&self, bound: u32) -> bool {
        *self > u64::from(bound)
    }
}

} // verus!
