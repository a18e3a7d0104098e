//! Arithmetic on lengths, as data.
//!
//! Lengths on the screen are floating-point numbers. The functions of this crate take their type
//! as a parameter and say which operations to perform on them, and in which order, as an
//! expression. An evaluator that the caller hands in performs the operations.
//!
//! `F` is the type of single precision numbers, `W` that of double precision numbers.

use vstd::prelude::*;

verus! {

/// A double precision expression.
pub enum Wide<W> {
    /// A number.
    Value(W),
    /// A small whole number.
    Integer(i8),
    /// The sum of two expressions.
    Add(Box<Wide<W>>, Box<Wide<W>>),
    /// The first expression less the second.
    Sub(Box<Wide<W>>, Box<Wide<W>>),
    /// The absolute value of an expression.
    Abs(Box<Wide<W>>),
}

/// A single precision expression.
pub enum Expr<F, W> {
    /// A number.
    Value(F),
    /// A whole number.
    Count(usize),
    /// A double precision expression, rounded to single precision.
    Narrow(Box<Wide<W>>),
    /// The sum of two expressions.
    Add(Box<Expr<F, W>>, Box<Expr<F, W>>),
    /// The first expression less the second.
    Sub(Box<Expr<F, W>>, Box<Expr<F, W>>),
    /// The product of two expressions.
    Mul(Box<Expr<F, W>>, Box<Expr<F, W>>),
    /// The first expression divided by the second.
    Div(Box<Expr<F, W>>, Box<Expr<F, W>>),
    /// What remains of the first expression after division by the second; it has the sign of the
    /// first.
    Rem(Box<Expr<F, W>>, Box<Expr<F, W>>),
    /// The largest whole number that is at most the expression.
    Floor(Box<Expr<F, W>>),
    /// The larger of two expressions.
    Max(Box<Expr<F, W>>, Box<Expr<F, W>>),
}

/// A test on a double precision expression.
pub enum Condition<W> {
    /// The expression is less than the distance from one to the next larger number.
    BelowEpsilon(Wide<W>),
    /// The expression is not zero.
    NonZero(Wide<W>),
}

impl<W> Wide<W> {
    /// The sum of two expressions.
    #[verifier::allow_in_spec]
    pub fn plus(self, other: Wide<W>) -> Wide<W>
        returns
            Wide::Add(Box::new(self), Box::new(other)),
    {
        Wide::Add(Box::new(self), Box::new(other))
    }

    /// This expression less the other.
    #[verifier::allow_in_spec]
    pub fn minus(self, other: Wide<W>) -> Wide<W>
        returns
            Wide::Sub(Box::new(self), Box::new(other)),
    {
        Wide::Sub(Box::new(self), Box::new(other))
    }

    /// The absolute value of this expression.
    #[verifier::allow_in_spec]
    pub fn abs(self) -> Wide<W>
        returns
            Wide::Abs(Box::new(self)),
    {
        Wide::Abs(Box::new(self))
    }
}

impl<F, W> Expr<F, W> {
    /// A double precision expression in single precision.
    #[verifier::allow_in_spec]
    pub fn narrow(wide: Wide<W>) -> Expr<F, W>
        returns
            Expr::<F, W>::Narrow(Box::new(wide)),
    {
        Expr::Narrow(Box::new(wide))
    }

    /// The sum of two expressions.
    #[verifier::allow_in_spec]
    pub fn plus(self, other: Expr<F, W>) -> Expr<F, W>
        returns
            Expr::Add(Box::new(self), Box::new(other)),
    {
        Expr::Add(Box::new(self), Box::new(other))
    }

    /// This expression less the other.
    #[verifier::allow_in_spec]
    pub fn minus(self, other: Expr<F, W>) -> Expr<F, W>
        returns
            Expr::Sub(Box::new(self), Box::new(other)),
    {
        Expr::Sub(Box::new(self), Box::new(other))
    }

    /// The product of two expressions.
    #[verifier::allow_in_spec]
    pub fn times(self, other: Expr<F, W>) -> Expr<F, W>
        returns
            Expr::Mul(Box::new(self), Box::new(other)),
    {
        Expr::Mul(Box::new(self), Box::new(other))
    }

    /// This expression divided by the other.
    #[verifier::allow_in_spec]
    pub fn divided_by(self, other: Expr<F, W>) -> Expr<F, W>
        returns
            Expr::Div(Box::new(self), Box::new(other)),
    {
        Expr::Div(Box::new(self), Box::new(other))
    }

    /// What remains of this expression after division by the other.
    #[verifier::allow_in_spec]
    pub fn modulo(self, other: Expr<F, W>) -> Expr<F, W>
        returns
            Expr::Rem(Box::new(self), Box::new(other)),
    {
        Expr::Rem(Box::new(self), Box::new(other))
    }

    /// The larger of two expressions.
    #[verifier::allow_in_spec]
    pub fn at_least(self, other: Expr<F, W>) -> Expr<F, W>
        returns
            Expr::Max(Box::new(self), Box::new(other)),
    {
        Expr::Max(Box::new(self), Box::new(other))
    }

    /// This expression, rounded down.
    #[verifier::allow_in_spec]
    pub fn floor(self) -> Expr<F, W>
        returns
            Expr::Floor(Box::new(self)),
    {
        Expr::Floor(Box::new(self))
    }
}

/// `eval` accepts every single precision expression.
pub open spec fn total<F, W, E: Fn(Expr<F, W>) -> F>(eval: E) -> bool {
    forall|e: Expr<F, W>| call_requires(eval, (e,))
}

/// `eval` may give `value` for `e`.
pub open spec fn evaluates<F, W, E: Fn(Expr<F, W>) -> F>(
    eval: E,
    e: Expr<F, W>,
    value: F,
) -> bool {
    call_ensures(eval, (e,), value)
}

/// `eval` gives one value for each expression.
pub open spec fn single_valued<F, W, E: Fn(Expr<F, W>) -> F>(eval: E) -> bool {
    forall|e: Expr<F, W>, a: F, b: F| #[trigger]
        evaluates(eval, e, a) && #[trigger] evaluates(eval, e, b) ==> a == b
}

/// `decide` accepts every condition.
pub open spec fn decides_all<W, P: Fn(Condition<W>) -> bool>(decide: P) -> bool {
    forall|c: Condition<W>| call_requires(decide, (c,))
}

/// `decide` may answer `answer` to `c`.
pub open spec fn decides<W, P: Fn(Condition<W>) -> bool>(
    decide: P,
    c: Condition<W>,
    answer: bool,
) -> bool {
    call_ensures(decide, (c,), answer)
}

/// The whole number next to `x` on the side of zero.
pub open spec fn truncated(x: real) -> int {
    if x >= 0real {
        x.floor()
    } else {
        -((-x).floor())
    }
}

/// What remains of `a` after division by `b`, with the sign of `a`.
pub open spec fn remainder(a: real, b: real) -> real {
    a - (truncated(a / b) as real) * b
}

impl<W> Wide<W> {
    /// The exact value of the expression, where `wide` is what its numbers stand for.
    pub open spec fn exact(self, wide: spec_fn(W) -> real) -> real
        decreases self,
    {
        match self {
            Wide::Value(x) => wide(x),
            Wide::Integer(n) => n as real,
            Wide::Add(a, b) => a.exact(wide) + b.exact(wide),
            Wide::Sub(a, b) => a.exact(wide) - b.exact(wide),
            Wide::Abs(a) => if a.exact(wide) >= 0real {
                a.exact(wide)
            } else {
                -a.exact(wide)
            },
        }
    }
}

impl<F, W> Expr<F, W> {
    /// The exact value of the expression, where `single` and `wide` are what its numbers stand
    /// for.
    pub open spec fn exact(self, single: spec_fn(F) -> real, wide: spec_fn(W) -> real) -> real
        decreases self,
    {
        match self {
            Expr::Value(x) => single(x),
            Expr::Count(n) => n as real,
            Expr::Narrow(x) => x.exact(wide),
            Expr::Add(a, b) => a.exact(single, wide) + b.exact(single, wide),
            Expr::Sub(a, b) => a.exact(single, wide) - b.exact(single, wide),
            Expr::Mul(a, b) => a.exact(single, wide) * b.exact(single, wide),
            Expr::Div(a, b) => a.exact(single, wide) / b.exact(single, wide),
            Expr::Rem(a, b) => remainder(a.exact(single, wide), b.exact(single, wide)),
            Expr::Floor(a) => a.exact(single, wide).floor() as real,
            Expr::Max(a, b) => if a.exact(single, wide) >= b.exact(single, wide) {
                a.exact(single, wide)
            } else {
                b.exact(single, wide)
            },
        }
    }
}

/// The distance from one to the next larger double precision number, two to the power of -52.
pub open spec fn epsilon() -> real {
    1real / 4503599627370496real
}

impl<W> Condition<W> {
    /// Whether the condition holds exactly, where `wide` is what its numbers stand for.
    pub open spec fn exact(self, wide: spec_fn(W) -> real) -> bool {
        match self {
            Condition::BelowEpsilon(x) => x.exact(wide) < epsilon(),
            Condition::NonZero(x) => x.exact(wide) != 0real,
        }
    }
}

/// The remainder of a number that is not negative, by a positive one, is at least zero and less
/// than the divisor.
pub proof fn remainder_bounds(a: real, b: real)
    requires
        a >= 0real,
        b > 0real,
    ensures
        0real <= remainder(a, b) < b,
{
    let q = a / b;
    assert(q >= 0real) by (nonlinear_arith)
        requires
            a >= 0real,
            b > 0real,
            q == a / b,
    ;
    let t = q.floor() as real;
    assert(t * b <= a < (t + 1real) * b) by (nonlinear_arith)
        requires
            t <= q < t + 1real,
            b > 0real,
            q == a / b,
    ;
    assert((t + 1real) * b == t * b + b) by (nonlinear_arith);
}

} // verus!
