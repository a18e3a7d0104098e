//! Evaluators that calculate without rounding.

use vstd::prelude::*;

use crate::arithmetic::{Condition, Expr, Wide};

verus! {

/// Whatever `eval` gives for an expression is the exact value of the expression.
pub open spec fn is_exact<F, W, E: Fn(Expr<F, W>) -> F>(
    eval: E,
    single: spec_fn(F) -> real,
    wide: spec_fn(W) -> real,
) -> bool {
    forall|e: Expr<F, W>, value: F| #[trigger]
        call_ensures(eval, (e,), value) ==> single(value) == e.exact(single, wide)
}

/// Whatever `eval` gives for a double precision expression is the exact value of the expression.
pub open spec fn is_wide_exact<W, E: Fn(Wide<W>) -> W>(eval: E, wide: spec_fn(W) -> real) -> bool {
    forall|e: Wide<W>, value: W| #[trigger]
        call_ensures(eval, (e,), value) ==> wide(value) == e.exact(wide)
}

/// Whatever `decide` answers to a condition is whether the condition holds exactly.
pub open spec fn decides_exactly<W, P: Fn(Condition<W>) -> bool>(
    decide: P,
    wide: spec_fn(W) -> real,
) -> bool {
    forall|c: Condition<W>, answer: bool| #[trigger]
        call_ensures(decide, (c,), answer) ==> answer == c.exact(wide)
}

} // verus!
