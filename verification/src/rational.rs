use vstd::prelude::*;

verus! {

/// Magnitude cap on the numerator and denominator of the rationals that the
/// mixture computation accepts.  It is generous for mixture data (masses in
/// grams, shares with nine decimal digits) while keeping every intermediate
/// product of the computation far below `i128::MAX`.
pub const INPUT_BOUND: i128 = 10_000_000_000;

/// A rational number held exactly as `num / den` with `den > 0`.
///
/// All mixture arithmetic is carried out on values of this type, so results
/// are exact: nothing is rounded.
#[derive(Clone, Copy, Debug, PartialEq, Eq, Structural)]
pub struct Rat {
    pub num: i128,
    pub den: i128,
}

/// The mathematical value of a `Rat`: a quotient of unbounded integers.
/// Two values denote the same rational exactly when `q_eq` holds.
pub struct Q {
    pub n: int,
    pub d: int,
}

impl View for Rat {
    type V = Q;

    open spec fn view(&self) -> Q {
        Q { n: self.num as int, d: self.den as int }
    }
}

/// The denominator is positive, so the pair denotes a rational number.
pub open spec fn q_wf(a: Q) -> bool {
    a.d > 0
}

/// Equality of rationals by cross-multiplication (for positive denominators).
pub open spec fn q_eq(a: Q, b: Q) -> bool {
    a.n * b.d == b.n * a.d
}

/// `a <= b` by cross-multiplication (for positive denominators).
pub open spec fn q_le(a: Q, b: Q) -> bool {
    a.n * b.d <= b.n * a.d
}

pub open spec fn q_add(a: Q, b: Q) -> Q {
    Q { n: a.n * b.d + b.n * a.d, d: a.d * b.d }
}

pub open spec fn q_sub(a: Q, b: Q) -> Q {
    Q { n: a.n * b.d - b.n * a.d, d: a.d * b.d }
}

pub open spec fn q_mul(a: Q, b: Q) -> Q {
    Q { n: a.n * b.n, d: a.d * b.d }
}

/// Division; meaningful when `b.n > 0`, which holds for the fixed densities.
pub open spec fn q_div(a: Q, b: Q) -> Q {
    Q { n: a.n * b.d, d: a.d * b.n }
}

pub open spec fn q_abs(a: Q) -> Q {
    Q { n: if a.n >= 0 { a.n } else { -a.n }, d: a.d }
}

pub open spec fn q_zero() -> Q {
    Q { n: 0, d: 1 }
}

pub open spec fn q_one() -> Q {
    Q { n: 1, d: 1 }
}

impl Rat {
    /// The representation denotes a rational: positive denominator.
    pub open spec fn wf(self) -> bool {
        self.den > 0
    }

    /// Small enough that the mixture computation cannot overflow.
    pub open spec fn in_bounds(self) -> bool {
        0 < self.den <= INPUT_BOUND && -INPUT_BOUND <= self.num <= INPUT_BOUND
    }

    pub fn new(num: i128, den: i128) -> (r: Rat)
        requires
            den > 0,
        ensures
            r.num == num,
            r.den == den,
            r.wf(),
    {
        Rat { num, den }
    }

    /// Do the two representations denote the same rational number?
    pub fn same_value(&self, other: &Rat) -> (r: bool)
        requires
            i128::MIN <= self.num * other.den <= i128::MAX,
            i128::MIN <= other.num * self.den <= i128::MAX,
        ensures
            r == q_eq(self@, other@),
    {
        self.num * other.den == other.num * self.den
    }
}

/// A product of values in `[-aa, aa]` and `[-bb, bb]` lies in `[-aa*bb, aa*bb]`.
pub proof fn lemma_mul_bound(a: int, b: int, aa: int, bb: int)
    by (nonlinear_arith)
    requires
        -aa <= a <= aa,
        -bb <= b <= bb,
    ensures
        -(aa * bb) <= a * b <= aa * bb,
{
}

/// A product of positive values is positive.
pub proof fn lemma_mul_pos(a: int, b: int)
    by (nonlinear_arith)
    requires
        0 < a,
        0 < b,
    ensures
        0 < a * b,
{
}

} // verus!
