//! The fraction of a word budget that is spent at the front of a text.

use vstd::prelude::*;

verus! {

/// A fraction between zero and one, held as numerator over denominator.
#[derive(Clone, Copy, Debug)]
pub struct SplitRatio {
    numerator: u32,
    denominator: u32,
}

impl SplitRatio {
    /// The numerator.
    pub closed spec fn num(self) -> nat {
        self.numerator as nat
    }

    /// The denominator.
    pub closed spec fn den(self) -> nat {
        self.denominator as nat
    }

    /// The fraction `numerator / denominator`.
    pub closed spec fn of(numerator: u32, denominator: u32) -> SplitRatio {
        SplitRatio { numerator, denominator }
    }

    /// `of` yields the fraction it is given.
    pub broadcast proof fn lemma_of(numerator: u32, denominator: u32)
        ensures
            (#[trigger] Self::of(numerator, denominator)).num() == numerator,
            Self::of(numerator, denominator).den() == denominator,
    {
    }

    /// The fraction is defined and does not exceed one.
    #[verifier::type_invariant]
    pub open spec fn wf(self) -> bool {
        0 < self.den() && self.num() <= self.den()
    }

    /// The largest whole number that does not exceed this fraction of `n`.
    pub open spec fn share(self, n: nat) -> nat {
        n * self.num() / self.den()
    }

    /// A share never exceeds the whole.
    pub proof fn lemma_share_le(self, n: nat)
        requires
            self.wf(),
        ensures
            self.share(n) <= n,
    {
        let a = self.num();
        let d = self.den();
        assert(n * a / d <= n) by (nonlinear_arith)
            requires
                0 < d,
                a <= d,
        ;
    }

    /// The fraction `numerator / denominator`, if that lies between zero
    /// and one.
    pub fn new(numerator: u32, denominator: u32) -> (r: Option<SplitRatio>)
        ensures
            r is Some <==> 0 < denominator && numerator <= denominator,
            r matches Some(ratio) ==> ratio.wf() && ratio == Self::of(numerator, denominator),
    {
        if denominator == 0 || numerator > denominator {
            None
        } else {
            Some(SplitRatio { numerator, denominator })
        }
    }

    /// Three fifths.
    pub fn three_fifths() -> (ratio: SplitRatio)
        ensures
            ratio.wf(),
            ratio == Self::of(3, 5),
    {
        SplitRatio { numerator: 3, denominator: 5 }
    }

    /// This fraction of `n`, rounded down.
    pub fn share_of(&self, n: usize) -> (k: usize)
        ensures
            k == self.share(n as nat),
            k <= n,
            self.wf(),
    {
        proof {
            use_type_invariant(self);
            self.lemma_share_le(n as nat);
            assert(n * self.numerator <= 0xffff_ffff_ffff_ffff * 0xffff_ffff) by (nonlinear_arith)
                requires
                    n <= 0xffff_ffff_ffff_ffff,
                    self.numerator <= 0xffff_ffff,
            ;
        }
        let product: u128 = (n as u128) * (self.numerator as u128);
        (product / (self.denominator as u128)) as usize
    }
}

} // verus!
