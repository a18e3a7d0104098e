//! Where the calculations of the display are rounded.
//!
//! Here the evaluator rounds: `to_single` and `to_double` say which number of its precision the
//! result of a step becomes. The laws say at which steps that happens.

use vstd::prelude::*;

use crate::arithmetic::{evaluates, remainder, Expr, Wide};
use crate::config::Offset;
use crate::draw::{is_message_bar, Overlay, RenderRect};
use crate::font::Metrics;
use crate::resize::is_pty_size;
use crate::size_info::{
    cell_expr, compute_cell_size, dynamic_padding, dynamic_padding_expr, line_top_expr,
    remaining_height_expr, scaled_padding_expr, window_padding, SizeInfo,
};

verus! {

/// The value of a double precision expression where each sum and difference is rounded.
pub open spec fn wide_rounded<W>(
    e: Wide<W>,
    wide: spec_fn(W) -> real,
    to_double: spec_fn(real) -> real,
) -> real
    decreases e,
{
    match e {
        Wide::Value(x) => wide(x),
        Wide::Integer(n) => n as real,
        Wide::Add(a, b) => to_double(
            wide_rounded(*a, wide, to_double) + wide_rounded(*b, wide, to_double),
        ),
        Wide::Sub(a, b) => to_double(
            wide_rounded(*a, wide, to_double) - wide_rounded(*b, wide, to_double),
        ),
        Wide::Abs(a) => if wide_rounded(*a, wide, to_double) >= 0real {
            wide_rounded(*a, wide, to_double)
        } else {
            -wide_rounded(*a, wide, to_double)
        },
    }
}

/// The value of a single precision expression where each step that may leave the precision is
/// rounded. A remainder, a number rounded down and the larger of two numbers never leave it.
pub open spec fn rounded<F, W>(
    e: Expr<F, W>,
    single: spec_fn(F) -> real,
    wide: spec_fn(W) -> real,
    to_single: spec_fn(real) -> real,
    to_double: spec_fn(real) -> real,
) -> real
    decreases e,
{
    match e {
        Expr::Value(x) => single(x),
        Expr::Count(n) => to_single(n as real),
        Expr::Narrow(x) => to_single(wide_rounded(*x, wide, to_double)),
        Expr::Add(a, b) => to_single(
            rounded(*a, single, wide, to_single, to_double) + rounded(
                *b,
                single,
                wide,
                to_single,
                to_double,
            ),
        ),
        Expr::Sub(a, b) => to_single(
            rounded(*a, single, wide, to_single, to_double) - rounded(
                *b,
                single,
                wide,
                to_single,
                to_double,
            ),
        ),
        Expr::Mul(a, b) => to_single(
            rounded(*a, single, wide, to_single, to_double) * rounded(
                *b,
                single,
                wide,
                to_single,
                to_double,
            ),
        ),
        Expr::Div(a, b) => to_single(
            rounded(*a, single, wide, to_single, to_double) / rounded(
                *b,
                single,
                wide,
                to_single,
                to_double,
            ),
        ),
        Expr::Rem(a, b) => remainder(
            rounded(*a, single, wide, to_single, to_double),
            rounded(*b, single, wide, to_single, to_double),
        ),
        Expr::Floor(a) => rounded(*a, single, wide, to_single, to_double).floor() as real,
        Expr::Max(a, b) => larger_of(
            rounded(*a, single, wide, to_single, to_double),
            rounded(*b, single, wide, to_single, to_double),
        ),
    }
}

/// The larger of two numbers.
pub open spec fn larger_of(a: real, b: real) -> real {
    if a >= b {
        a
    } else {
        b
    }
}

/// Whatever `eval` gives for an expression is the value of the expression with its steps rounded.
/// One and two are numbers of single precision.
pub open spec fn rounds_each_step<F, W, E: Fn(Expr<F, W>) -> F>(
    eval: E,
    single: spec_fn(F) -> real,
    wide: spec_fn(W) -> real,
    to_single: spec_fn(real) -> real,
    to_double: spec_fn(real) -> real,
) -> bool {
    &&& to_single(1real) == 1real
    &&& to_single(2real) == 2real
    &&& forall|e: Expr<F, W>, value: F| #[trigger]
        call_ensures(eval, (e,), value) ==> single(value) == rounded(
            e,
            single,
            wide,
            to_single,
            to_double,
        )
}

/// What the font asks for and the configured addition are added in double precision. The sum is
/// brought to single precision, and only then rounded down.
pub proof fn cells_are_added_up_in_double_precision<F, W: Copy, E: Fn(Expr<F, W>) -> F>(
    eval: E,
    offset: Offset,
    metrics: Metrics<W>,
    cell: (F, F),
    single: spec_fn(F) -> real,
    wide: spec_fn(W) -> real,
    to_single: spec_fn(real) -> real,
    to_double: spec_fn(real) -> real,
)
    requires
        rounds_each_step(eval, single, wide, to_single, to_double),
        call_ensures(compute_cell_size::<F, W, E>, (offset, metrics, &eval), cell),
    ensures
        ({
            let width = to_single(to_double(wide(metrics.average_advance) + offset.x as real));
            let height = to_single(to_double(wide(metrics.line_height) + offset.y as real));
            &&& single(cell.0) == larger_of(1real, width.floor() as real)
            &&& single(cell.1) == larger_of(1real, height.floor() as real)
        }),
{
    assert(call_ensures(eval, (cell_expr(metrics.average_advance, offset.x),), cell.0));
    assert(call_ensures(eval, (cell_expr(metrics.line_height, offset.y),), cell.1));
    reveal_with_fuel(rounded, 4);
    reveal_with_fuel(wide_rounded, 2);
}

/// The length of dynamic padding, with its steps rounded.
pub open spec fn spread_rounded(
    padding: real,
    dimension: real,
    cell: real,
    to_single: spec_fn(real) -> real,
) -> real {
    let content = to_single(dimension - to_single(2real * padding));
    to_single(padding + to_single(remainder(content, cell) / 2real))
}

/// Dynamic padding is calculated in single precision throughout.
pub proof fn dynamic_padding_is_calculated_in_single_precision<F: Copy, W, E: Fn(Expr<F, W>) -> F>(
    eval: E,
    padding: F,
    dimension: F,
    cell_dimension: F,
    spread: F,
    single: spec_fn(F) -> real,
    wide: spec_fn(W) -> real,
    to_single: spec_fn(real) -> real,
    to_double: spec_fn(real) -> real,
)
    requires
        rounds_each_step(eval, single, wide, to_single, to_double),
        call_ensures(
            dynamic_padding::<F, W, E>,
            (padding, dimension, cell_dimension, &eval),
            spread,
        ),
    ensures
        single(spread) == spread_rounded(
            single(padding),
            single(dimension),
            single(cell_dimension),
            to_single,
        ),
{
    assert(call_ensures(
        eval,
        (dynamic_padding_expr::<F, W>(padding, dimension, cell_dimension),),
        spread,
    ));
    reveal_with_fuel(rounded, 6);
}

/// The pixel ratio is brought to single precision before the configured padding is scaled by it, and
/// the padding is rounded down last.
pub proof fn padding_is_rounded_down_last<F: Copy, W, E: Fn(Expr<F, W>) -> F>(
    eval: E,
    padding: u8,
    dpr: W,
    dynamic: bool,
    dimension: F,
    cell_dimension: F,
    result: F,
    single: spec_fn(F) -> real,
    wide: spec_fn(W) -> real,
    to_single: spec_fn(real) -> real,
    to_double: spec_fn(real) -> real,
)
    requires
        rounds_each_step(eval, single, wide, to_single, to_double),
        call_ensures(
            window_padding::<F, W, E>,
            (padding, dpr, dynamic, dimension, cell_dimension, &eval),
            result,
        ),
    ensures
        ({
            let scaled = to_single(to_single(padding as real) * to_single(wide(dpr)));
            let padding = if dynamic {
                spread_rounded(scaled, single(dimension), single(cell_dimension), to_single)
            } else {
                scaled
            };
            single(result) == padding.floor() as real
        }),
{
    let (scaled, spread): (F, F) = choose|scaled: F, spread: F|
        #![trigger evaluates(eval, scaled_padding_expr(padding, dpr), scaled), evaluates(eval, Expr::<F, W>::Value(spread).floor(), result)]
        {
            &&& evaluates(eval, scaled_padding_expr(padding, dpr), scaled)
            &&& if dynamic {
                evaluates(eval, dynamic_padding_expr(scaled, dimension, cell_dimension), spread)
            } else {
                spread == scaled
            }
            &&& evaluates(eval, Expr::<F, W>::Value(spread).floor(), result)
        };
    assert(call_ensures(eval, (scaled_padding_expr::<F, W>(padding, dpr),), scaled));
    assert(call_ensures(eval, (Expr::<F, W>::Value(spread).floor(),), result));
    if dynamic {
        assert(call_ensures(
            eval,
            (dynamic_padding_expr::<F, W>(scaled, dimension, cell_dimension),),
            spread,
        ));
    }
    reveal_with_fuel(rounded, 6);
    reveal_with_fuel(wide_rounded, 2);
}

/// The lines of a message are taken from the window's height at once.
pub proof fn the_message_is_taken_off_at_once<F, W, E: Fn(Expr<F, W>) -> F>(
    eval: E,
    info: SizeInfo<F, W>,
    lines: usize,
    pty: SizeInfo<F, W>,
    single: spec_fn(F) -> real,
    wide: spec_fn(W) -> real,
    to_single: spec_fn(real) -> real,
    to_double: spec_fn(real) -> real,
)
    requires
        rounds_each_step(eval, single, wide, to_single, to_double),
        is_pty_size(eval, info, Some(lines), pty),
    ensures
        single(pty.height) == to_single(
            single(info.height) - to_single(single(info.cell_height) * to_single(lines as real)),
        ),
{
    assert(call_ensures(
        eval,
        (remaining_height_expr::<F, W>(info.height, info.cell_height, lines),),
        pty.height,
    ));
    reveal_with_fuel(rounded, 3);
}

/// The background of a message begins at the top of a line, counted from the top of the cells, and
/// what is left of the window from there on is its height.
pub proof fn the_background_is_measured_from_the_top<F, W, E: Fn(Expr<F, W>) -> F>(
    eval: E,
    info: SizeInfo<F, W>,
    overlay: Overlay,
    rect: RenderRect<F>,
    single: spec_fn(F) -> real,
    wide: spec_fn(W) -> real,
    to_single: spec_fn(real) -> real,
    to_double: spec_fn(real) -> real,
)
    requires
        rounds_each_step(eval, single, wide, to_single, to_double),
        is_message_bar(eval, info, overlay, Some(rect)),
        overlay.message matches Some(message) && message.text@.len() <= overlay.lines,
    ensures
        ({
            let line = overlay.lines - overlay.message->0.text@.len();
            &&& single(rect.y) == to_single(
                single(info.padding_y) + to_single(
                    single(info.cell_height) * to_single(line as real),
                ),
            )
            &&& single(rect.height) == to_single(single(info.height) - single(rect.y))
        }),
{
    let line = (overlay.lines - overlay.message->0.text@.len()) as usize;
    assert(call_ensures(
        eval,
        (line_top_expr::<F, W>(info.padding_y, info.cell_height, line),),
        rect.y,
    ));
    assert(call_ensures(
        eval,
        (Expr::<F, W>::Value(info.height).minus(Expr::Value(rect.y)),),
        rect.height,
    ));
    reveal_with_fuel(rounded, 3);
}

} // verus!
