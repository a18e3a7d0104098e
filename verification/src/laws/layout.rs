//! The size of cells and the padding around them.

use vstd::prelude::*;

use crate::arithmetic::{evaluates, remainder_bounds, truncated, Expr};
use crate::config::Offset;
use crate::font::Metrics;
use crate::laws::exactness::is_exact;
use crate::size_info::{
    cell_expr, cells_are_whole_pixels, compute_cell_size, dynamic_padding, dynamic_padding_expr,
    dynamic_padding_leaves_whole_cells, is_cell_size, is_window_padding, narrow_expr,
    scaled_padding_expr, window_padding,
};

verus! {

/// `cell` is the length of a cell where `asked` is asked for: a whole number of pixels, at least
/// one, that falls short of what is asked for by less than a pixel.
pub open spec fn is_cell_length(asked: real, cell: real) -> bool {
    &&& cell == cell.floor() as real
    &&& cell >= 1real
    &&& asked >= 1real ==> asked - 1real < cell <= asked
    &&& asked < 1real ==> cell == 1real
}

/// The length of so many pixels.
pub open spec fn pixels(n: int) -> real {
    n as real
}

/// A length that is a whole number of pixels.
#[verifier::opaque]
pub open spec fn is_whole(length: real) -> bool {
    exists|n: int| length == #[trigger] pixels(n)
}

/// The length of so many cells in a row.
#[verifier::opaque]
pub open spec fn cells_length(cells: int, cell: real) -> real {
    cells as real * cell
}

/// `cells` cells of a length, and no more, fit in `content`. Of content below zero the cells are
/// counted as negative.
#[verifier::opaque]
pub open spec fn cells_fit(content: real, cell: real, cells: int) -> bool {
    if content >= 0real {
        cells_length(cells, cell) <= content < cells_length(cells, cell) + cell
    } else {
        cells_length(cells, cell) - cell < content <= cells_length(cells, cell)
    }
}

/// `result` is half of what the cells that fit in `content` leave of `dimension`, rounded down to
/// whole pixels.
#[verifier::opaque]
pub open spec fn is_half_of_the_rest(
    content: real,
    dimension: real,
    cell: real,
    result: real,
) -> bool {
    exists|cells: int|
        {
            &&& #[trigger] cells_fit(content, cell, cells)
            &&& 2real * result <= dimension - cells_length(cells, cell) < 2real * result + 2real
        }
}

/// `result` is the padding at either end of a window of length `dimension`: a whole number of
/// pixels. It is the padding that is asked for, rounded down, or, where padding is dynamic, half of
/// what the cells that fit between the padding that is asked for leave of the window, rounded down.
pub open spec fn is_padding_length(
    asked: real,
    dynamic: bool,
    dimension: real,
    cell: real,
    result: real,
) -> bool {
    &&& is_whole(result)
    &&& if dynamic {
        is_half_of_the_rest(dimension - 2real * asked, dimension, cell, result)
    } else {
        result <= asked < result + 1real
    }
}

/// A cell is as wide as the font's advance and the addition to the width ask for, and as high as the
/// font's line height and the addition to the height ask for.
pub proof fn cells_are_as_large_as_asked_for<F, W: Copy, E: Fn(Expr<F, W>) -> F>(
    eval: E,
    offset: Offset,
    metrics: Metrics<W>,
    cell: (F, F),
    single: spec_fn(F) -> real,
    wide: spec_fn(W) -> real,
)
    requires
        is_exact(eval, single, wide),
        call_ensures(compute_cell_size::<F, W, E>, (offset, metrics, &eval), cell),
    ensures
        is_cell_length(wide(metrics.average_advance) + offset.x as real, single(cell.0)),
        is_cell_length(wide(metrics.line_height) + offset.y as real, single(cell.1)),
{
    cell_size_lengths(eval, offset, metrics, cell, single, wide);
}

/// What the sizes of cells are, wherever they come from.
pub proof fn cell_size_lengths<F, W, E: Fn(Expr<F, W>) -> F>(
    eval: E,
    offset: Offset,
    metrics: Metrics<W>,
    cell: (F, F),
    single: spec_fn(F) -> real,
    wide: spec_fn(W) -> real,
)
    requires
        is_exact(eval, single, wide),
        is_cell_size(eval, offset, metrics, cell),
    ensures
        is_cell_length(wide(metrics.average_advance) + offset.x as real, single(cell.0)),
        is_cell_length(wide(metrics.line_height) + offset.y as real, single(cell.1)),
{
    cells_are_whole_pixels::<F, W>(metrics.average_advance, offset.x, single, wide);
    cells_are_whole_pixels::<F, W>(metrics.line_height, offset.y, single, wide);
    assert(call_ensures(eval, (cell_expr(metrics.average_advance, offset.x),), cell.0));
    assert(call_ensures(eval, (cell_expr(metrics.line_height, offset.y),), cell.1));
}

/// Dynamic padding is half of what the cells that fit between the padding leave of the window.
pub proof fn dynamic_padding_is_half_of_the_rest<F: Copy, W, E: Fn(Expr<F, W>) -> F>(
    eval: E,
    padding: F,
    dimension: F,
    cell_dimension: F,
    spread: F,
    content: real,
    single: spec_fn(F) -> real,
    wide: spec_fn(W) -> real,
)
    requires
        is_exact(eval, single, wide),
        single(cell_dimension) > 0real,
        content == single(dimension) - 2real * single(padding),
        call_ensures(
            dynamic_padding::<F, W, E>,
            (padding, dimension, cell_dimension, &eval),
            spread,
        ),
    ensures
        exists|cells: int|
            {
                &&& #[trigger] cells_fit(content, single(cell_dimension), cells)
                &&& 2real * single(spread) == single(dimension) - cells_length(
                    cells,
                    single(cell_dimension),
                )
            },
{
    spread_padding_length(eval, padding, dimension, cell_dimension, spread, content, single, wide);
}

proof fn spread_padding_length<F: Copy, W, E: Fn(Expr<F, W>) -> F>(
    eval: E,
    padding: F,
    dimension: F,
    cell_dimension: F,
    spread: F,
    content: real,
    single: spec_fn(F) -> real,
    wide: spec_fn(W) -> real,
)
    requires
        is_exact(eval, single, wide),
        single(cell_dimension) > 0real,
        evaluates(eval, dynamic_padding_expr(padding, dimension, cell_dimension), spread),
        content == single(dimension) - 2real * single(padding),
    ensures
        exists|cells: int|
            {
                &&& #[trigger] cells_fit(content, single(cell_dimension), cells)
                &&& 2real * single(spread) == single(dimension) - cells_length(
                    cells,
                    single(cell_dimension),
                )
            },
{
    let cell = single(cell_dimension);
    assert(call_ensures(
        eval,
        (dynamic_padding_expr::<F, W>(padding, dimension, cell_dimension),),
        spread,
    ));
    dynamic_padding_leaves_whole_cells::<F, W>(padding, dimension, cell_dimension, single, wide);
    truncated_quotient_fits(content, cell);
    assert(cells_fit(content, cell, truncated(content / cell)));
    reveal(cells_length);
}

/// The quotient that is cut off towards zero counts the cells that fit.
proof fn truncated_quotient_fits(content: real, cell: real)
    requires
        cell > 0real,
    ensures
        cells_fit(content, cell, truncated(content / cell)),
{
    reveal(cells_fit);
    reveal(cells_length);
    if content >= 0real {
        remainder_bounds(content, cell);
        assert(content / cell >= 0real) by (nonlinear_arith)
            requires
                content >= 0real,
                cell > 0real,
        ;
    } else {
        let opposite = -content;
        remainder_bounds(opposite, cell);
        let q = content / cell;
        let p = opposite / cell;
        assert(p == -q && p > 0real) by (nonlinear_arith)
            requires
                cell > 0real,
                content < 0real,
                opposite == -content,
                q == content / cell,
                p == opposite / cell,
        ;
        let up = truncated(p);
        assert(truncated(q) == -up);
        assert((-up) as real * cell == -(up as real * cell)) by (nonlinear_arith);
    }
}

/// The padding of a window is whole pixels: the configured padding, scaled by the pixel ratio, or,
/// where padding is dynamic, half of what the cells that fit leave of the window.
pub proof fn window_padding_is_even<F: Copy, W, E: Fn(Expr<F, W>) -> F>(
    eval: E,
    padding: u8,
    dpr: W,
    dynamic: bool,
    dimension: F,
    cell_dimension: F,
    result: F,
    single: spec_fn(F) -> real,
    wide: spec_fn(W) -> real,
)
    requires
        is_exact(eval, single, wide),
        single(cell_dimension) > 0real,
        call_ensures(
            window_padding::<F, W, E>,
            (padding, dpr, dynamic, dimension, cell_dimension, &eval),
            result,
        ),
    ensures
        is_padding_length(
            padding as real * wide(dpr),
            dynamic,
            single(dimension),
            single(cell_dimension),
            single(result),
        ),
{
    window_padding_lengths(
        eval,
        padding,
        dpr,
        dynamic,
        dimension,
        cell_dimension,
        result,
        single,
        wide,
    );
}

/// What the padding of a window is, wherever it comes from.
#[verifier::spinoff_prover]
pub proof fn window_padding_lengths<F: Copy, W, E: Fn(Expr<F, W>) -> F>(
    eval: E,
    padding: u8,
    dpr: W,
    dynamic: bool,
    dimension: F,
    cell_dimension: F,
    result: F,
    single: spec_fn(F) -> real,
    wide: spec_fn(W) -> real,
)
    requires
        is_exact(eval, single, wide),
        single(cell_dimension) > 0real,
        is_window_padding(eval, padding, dpr, dynamic, dimension, cell_dimension, result),
    ensures
        is_padding_length(
            padding as real * wide(dpr),
            dynamic,
            single(dimension),
            single(cell_dimension),
            single(result),
        ),
{
    let (scaled, spread): (F, F) = choose|scaled: F, spread: F|
        #![trigger evaluates(eval, scaled_padding_expr(padding, dpr), scaled), evaluates(eval, Expr::<F, W>::Value(spread).floor(), result)]
        {
            &&& evaluates(eval, scaled_padding_expr(padding, dpr), scaled)
            &&& if dynamic {
                evaluates(eval, dynamic_padding_expr(scaled, dimension, cell_dimension), spread)
            } else {
                spread == scaled
            }
            &&& evaluates(eval, Expr::<F, W>::Value(spread).floor(), result)
        };
    scaled_padding_length(eval, padding, dpr, scaled, single, wide);
    floor_length(eval, spread, result, single, wide);
    if dynamic {
        spread_padding_length(
            eval,
            scaled,
            dimension,
            cell_dimension,
            spread,
            single(dimension) - 2real * single(scaled),
            single,
            wide,
        );
    }
    rounding_down(single(spread));
    padding_is_spread_rounded_down(
        single(scaled),
        single(dimension) - 2real * single(scaled),
        dynamic,
        single(dimension),
        single(cell_dimension),
        single(spread),
        single(spread).floor(),
    );
}

#[verifier::spinoff_prover]
proof fn padding_is_spread_rounded_down(
    asked: real,
    content: real,
    dynamic: bool,
    dimension: real,
    cell: real,
    spread: real,
    result: int,
)
    requires
        content == dimension - 2real * asked,
        if dynamic {
            exists|cells: int|
                {
                    &&& #[trigger] cells_fit(content, cell, cells)
                    &&& 2real * spread == dimension - cells_length(cells, cell)
                }
        } else {
            spread == asked
        },
        result as real <= spread < result as real + 1real,
    ensures
        is_padding_length(asked, dynamic, dimension, cell, result as real),
{
    whole_numbers_are_whole(result);
    if dynamic {
        half_of_the_rest(content, dimension, cell, spread, result as real);
    }
}

#[verifier::spinoff_prover]
proof fn whole_numbers_are_whole(n: int)
    ensures
        is_whole(n as real),
{
    reveal(is_whole);
    assert(n as real == pixels(n));
}

/// What is rounded down falls short by less than one.
#[verifier::spinoff_prover]
proof fn rounding_down(x: real)
    ensures
        x.floor() as real <= x < x.floor() as real + 1real,
{
}

#[verifier::spinoff_prover]
proof fn half_of_the_rest(content: real, dimension: real, cell: real, spread: real, result: real)
    requires
        exists|cells: int|
            {
                &&& #[trigger] cells_fit(content, cell, cells)
                &&& 2real * spread == dimension - cells_length(cells, cell)
            },
        result <= spread < result + 1real,
    ensures
        is_half_of_the_rest(content, dimension, cell, result),
{
    reveal(is_half_of_the_rest);
}

proof fn scaled_padding_length<F, W, E: Fn(Expr<F, W>) -> F>(
    eval: E,
    padding: u8,
    dpr: W,
    scaled: F,
    single: spec_fn(F) -> real,
    wide: spec_fn(W) -> real,
)
    requires
        is_exact(eval, single, wide),
        evaluates(eval, scaled_padding_expr(padding, dpr), scaled),
    ensures
        single(scaled) == padding as real * wide(dpr),
{
    assert(call_ensures(eval, (scaled_padding_expr::<F, W>(padding, dpr),), scaled));
    reveal_with_fuel(Expr::exact, 2);
}

proof fn floor_length<F, W, E: Fn(Expr<F, W>) -> F>(
    eval: E,
    x: F,
    floor: F,
    single: spec_fn(F) -> real,
    wide: spec_fn(W) -> real,
)
    requires
        is_exact(eval, single, wide),
        evaluates(eval, Expr::<F, W>::Value(x).floor(), floor),
    ensures
        single(floor) == single(x).floor() as real,
{
    assert(call_ensures(eval, (Expr::<F, W>::Value(x).floor(),), floor));
    reveal_with_fuel(Expr::exact, 2);
}

/// A number that changes its precision without rounding stays the same.
pub proof fn narrowing_keeps_the_value<F, W, E: Fn(Expr<F, W>) -> F>(
    eval: E,
    x: W,
    value: F,
    single: spec_fn(F) -> real,
    wide: spec_fn(W) -> real,
)
    requires
        is_exact(eval, single, wide),
        call_ensures(eval, (narrow_expr::<F, W>(x),), value),
    ensures
        single(value) == wide(x),
{
}

} // verus!
