//! Exact fractions for grid placement: parameters are small fractions, the
//! coordinates computed from them are wide ones.
use vstd::prelude::*;

verus! {

/// The fraction `num / den`; well formed when `den > 0`.
#[derive(Copy, Clone, PartialEq, Eq, Structural, Debug)]
pub struct Frac {
    pub num: i32,
    pub den: u32,
}

/// A computed fraction `num / den`, wide enough to hold sums of products of
/// `Frac` parts without overflow; well formed when `den > 0`.
#[derive(Copy, Clone, PartialEq, Eq, Structural, Debug)]
pub struct Ratio {
    pub num: i128,
    pub den: u64,
}

/// `an / ad <= bn / bd`, for positive denominators.
pub open spec fn le(an: int, ad: int, bn: int, bd: int) -> bool {
    an * bd <= bn * ad
}

/// `an / ad < bn / bd`, for positive denominators.
pub open spec fn lt(an: int, ad: int, bn: int, bd: int) -> bool {
    an * bd < bn * ad
}

/// `an / ad == bn / bd`, for positive denominators.
pub open spec fn same(an: int, ad: int, bn: int, bd: int) -> bool {
    an * bd == bn * ad
}

impl Frac {
    pub open spec fn wf(self) -> bool {
        self.den > 0
    }

    pub fn new(num: i32, den: u32) -> (r: Frac)
        requires
            den > 0,
        ensures
            r.wf(),
            r.num == num,
            r.den == den,
    {
        Frac { num, den }
    }

    /// The whole number `n`.
    pub fn whole(n: i32) -> (r: Frac)
        ensures
            r.wf(),
            r.num == n,
            r.den == 1,
    {
        Frac { num: n, den: 1 }
    }
}

impl Ratio {
    pub open spec fn wf(self) -> bool {
        self.den > 0
    }
}

} // verus!
