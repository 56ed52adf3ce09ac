//! Unsigned 256-bit token amounts.
use vstd::prelude::*;

verus! {

/// 2^128: the weight of the upper half of an [`Amount`].
pub open spec fn half_base() -> nat {
    0xffff_ffff_ffff_ffff_ffff_ffff_ffff_ffff + 1
}

/// 2^256 (that is 2^128 * (2^128 - 1) + 2^128): every amount is below this
/// bound.
pub open spec fn amount_bound() -> nat {
    half_base() * 0xffff_ffff_ffff_ffff_ffff_ffff_ffff_ffff + half_base()
}

/// An unsigned 256-bit integer, as used for balances, allowances and the
/// total supply, held as its upper and lower 128-bit halves.
#[derive(Clone, Copy, Debug, PartialEq, Eq, Structural)]
pub struct Amount {
    pub hi: u128,
    pub lo: u128,
}

/// With lower parts below the base, a smaller upper part means a smaller number.
proof fn lemma_weighted_order(h1: int, l1: int, h2: int, l2: int)
    requires
        0 <= h1,
        0 <= h2,
        0 <= l1 < half_base(),
        0 <= l2 < half_base(),
    ensures
        h1 < h2 ==> h1 * half_base() + l1 < h2 * half_base() + l2,
        h1 == h2 ==> (h1 * half_base() + l1 < h2 * half_base() + l2 <==> l1 < l2),
{
    let b = half_base() as int;
    if h1 < h2 {
        assert(h1 * b + b <= h2 * b) by (nonlinear_arith)
            requires
                h1 < h2,
                b > 0,
        ;
    }
}

impl Amount {
    /// The number this amount stands for.
    pub open spec fn value(self) -> nat {
        self.hi as nat * half_base() + self.lo as nat
    }

    /// Amounts are ordered by their upper halves first, then by their lower halves.
    pub proof fn lemma_value_order(self, other: Amount)
        ensures
            self.value() < other.value() <==> (self.hi < other.hi || (self.hi == other.hi
                && self.lo < other.lo)),
            self.value() == other.value() <==> self == other,
    {
        lemma_weighted_order(self.hi as int, self.lo as int, other.hi as int, other.lo as int);
        lemma_weighted_order(other.hi as int, other.lo as int, self.hi as int, self.lo as int);
    }

    pub proof fn lemma_value_bound(self)
        ensures
            self.value() < amount_bound(),
    {
        Amount::lemma_value_order(self, Amount { hi: u128::MAX, lo: u128::MAX });
        assert(amount_bound() == (half_base() - 1) * half_base() + half_base()) by (nonlinear_arith);
    }

    /// The amount with the given halves.
    pub fn from_parts(hi: u128, lo: u128) -> (r: Amount)
        ensures
            r.value() == hi as nat * half_base() + lo as nat,
            r.hi == hi,
            r.lo == lo,
    {
        Amount { hi, lo }
    }

    pub fn from_u128(n: u128) -> (r: Amount)
        ensures
            r.value() == n as nat,
    {
        Amount { hi: 0, lo: n }
    }

    pub fn zero() -> (r: Amount)
        ensures
            r.value() == 0,
    {
        Amount { hi: 0, lo: 0 }
    }

    /// The largest amount, 2^256 - 1.
    pub fn max_value() -> (r: Amount)
        ensures
            r.value() == amount_bound() - 1,
    {
        assert(amount_bound() == (half_base() - 1) * half_base() + half_base()) by (nonlinear_arith);
        Amount { hi: u128::MAX, lo: u128::MAX }
    }

    pub fn is_zero(&self) -> (r: bool)
        ensures
            r == (self.value() == 0),
    {
        proof {
            self.lemma_value_order(Amount { hi: 0, lo: 0 });
        }
        self.hi == 0 && self.lo == 0
    }

    pub fn equals(&self, other: &Amount) -> (r: bool)
        ensures
            r == (self.value() == other.value()),
    {
        proof {
            self.lemma_value_order(*other);
        }
        self.hi == other.hi && self.lo == other.lo
    }

    pub fn less_than(&self, other: &Amount) -> (r: bool)
        ensures
            r == (self.value() < other.value()),
    {
        proof {
            self.lemma_value_order(*other);
        }
        self.hi < other.hi || (self.hi == other.hi && self.lo < other.lo)
    }

    /// The sum, or `None` where it does not fit in 256 bits.
    pub fn checked_add(&self, other: &Amount) -> (r: Option<Amount>)
        ensures
            r.is_some() == (self.value() + other.value() < amount_bound()),
            r.is_some() ==> r.unwrap().value() == self.value() + other.value(),
    {
        let (lo, carry) = if self.lo <= u128::MAX - other.lo {
            (self.lo + other.lo, 0u128)
        } else {
            (self.lo - (u128::MAX - other.lo) - 1, 1u128)
        };
        assert(lo as nat + carry as nat * half_base() == self.lo as nat + other.lo as nat);
        if self.hi <= u128::MAX - other.hi && self.hi + other.hi <= u128::MAX - carry {
            let r = Amount { hi: self.hi + other.hi + carry, lo };
            assert(r.value() == self.value() + other.value()) by (nonlinear_arith)
                requires
                    r.hi == self.hi + other.hi + carry,
                    lo as nat + carry as nat * half_base() == self.lo as nat + other.lo as nat,
                    r.lo == lo,
            ;
            proof {
                r.lemma_value_bound();
            }
            Some(r)
        } else {
            assert(self.value() + other.value() >= amount_bound()) by (nonlinear_arith)
                requires
                    self.hi as int + other.hi as int + carry as int >= half_base(),
                    lo as nat + carry as nat * half_base() == self.lo as nat + other.lo as nat,
            ;
            None
        }
    }

    /// The difference, or `None` where `other` exceeds `self`.
    pub fn checked_sub(&self, other: &Amount) -> (r: Option<Amount>)
        ensures
            r.is_some() == (other.value() <= self.value()),
            r.is_some() ==> r.unwrap().value() == self.value() - other.value(),
    {
        if self.less_than(other) {
            None
        } else {
            let (lo, borrow) = if other.lo <= self.lo {
                (self.lo - other.lo, 0u128)
            } else {
                (u128::MAX - (other.lo - self.lo) + 1, 1u128)
            };
            assert(lo as int - borrow as int * half_base() == self.lo as int - other.lo as int);
            proof {
                self.lemma_value_order(*other);
            }
            let r = Amount { hi: self.hi - other.hi - borrow, lo };
            assert(r.value() == self.value() - other.value()) by (nonlinear_arith)
                requires
                    r.hi == self.hi - other.hi - borrow,
                    lo as int - borrow as int * half_base() == self.lo as int - other.lo as int,
                    r.lo == lo,
            ;
            Some(r)
        }
    }

    /// The sum, or the largest amount where it does not fit.
    pub fn saturating_add(&self, other: &Amount) -> (r: Amount)
        ensures
            r.value() == if self.value() + other.value() < amount_bound() {
                self.value() + other.value()
            } else {
                (amount_bound() - 1) as nat
            },
    {
        match self.checked_add(other) {
            Some(s) => s,
            None => Amount::max_value(),
        }
    }

    /// The difference, or zero where `other` exceeds `self`.
    pub fn saturating_sub(&self, other: &Amount) -> (r: Amount)
        ensures
            r.value() == if other.value() <= self.value() {
                (self.value() - other.value()) as nat
            } else {
                0
            },
    {
        match self.checked_sub(other) {
            Some(d) => d,
            None => Amount::zero(),
        }
    }
}

} // verus!
