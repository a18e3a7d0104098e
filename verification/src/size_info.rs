//! The size of the terminal's window and of the cells in it.

use vstd::prelude::*;

use crate::arithmetic::{
    evaluates, remainder, remainder_bounds, single_valued, total, truncated, Expr, Wide,
};
use crate::config::Offset;
use crate::font::Metrics;

verus! {

/// A size in physical pixels.
#[derive(Debug, Clone, Copy)]
pub struct PhysicalSize<W> {
    /// The width.
    pub width: W,
    /// The height.
    pub height: W,
}

/// The size of the terminal's window and of what is in it, in physical pixels.
#[derive(Debug, Clone, Copy)]
pub struct SizeInfo<F, W> {
    /// The width of the window.
    pub width: F,
    /// The height of the window.
    pub height: F,
    /// The width of a cell.
    pub cell_width: F,
    /// The height of a cell.
    pub cell_height: F,
    /// The blank space on the left and on the right.
    pub padding_x: F,
    /// The blank space at the top and at the bottom.
    pub padding_y: F,
    /// The number of physical pixels in a logical one.
    pub dpr: W,
}

/// A double precision number in single precision.
#[verifier::allow_in_spec]
pub fn narrow_expr<F, W>(x: W) -> Expr<F, W>
    returns
        Expr::<F, W>::narrow(Wide::Value(x)),
{
    Expr::narrow(Wide::Value(x))
}

/// One of a cell's two measures: what the font asks for and the configured addition, rounded down,
/// and at least one pixel.
#[verifier::allow_in_spec]
pub fn cell_expr<F, W>(measure: W, offset: i8) -> Expr<F, W>
    returns
        Expr::<F, W>::Count(1).at_least(
            Expr::narrow(Wide::Value(measure).plus(Wide::Integer(offset))).floor(),
        ),
{
    Expr::Count(1).at_least(Expr::narrow(Wide::Value(measure).plus(Wide::Integer(offset))).floor())
}

/// The configured padding in physical pixels.
#[verifier::allow_in_spec]
pub fn scaled_padding_expr<F, W>(padding: u8, dpr: W) -> Expr<F, W>
    returns
        Expr::<F, W>::Count(padding as usize).times(narrow_expr(dpr)),
{
    Expr::Count(padding as usize).times(narrow_expr(dpr))
}

/// The padding, and half of the space that fills no whole cell.
#[verifier::allow_in_spec]
pub fn dynamic_padding_expr<F: Copy, W>(
    padding: F,
    dimension: F,
    cell_dimension: F,
) -> Expr<F, W>
    returns
        Expr::<F, W>::Value(padding).plus(
            Expr::Value(dimension).minus(
                Expr::Count(2).times(Expr::Value(padding)),
            ).modulo(Expr::Value(cell_dimension)).divided_by(Expr::Count(2)),
        ),
{
    Expr::Value(padding).plus(
        Expr::Value(dimension).minus(Expr::Count(2).times(Expr::Value(padding))).modulo(
            Expr::Value(cell_dimension),
        ).divided_by(Expr::Count(2)),
    )
}

/// What is left of a height once some lines of cells are taken from it.
#[verifier::allow_in_spec]
pub fn remaining_height_expr<F, W>(height: F, cell_height: F, lines: usize) -> Expr<F, W>
    returns
        Expr::<F, W>::Value(height).minus(Expr::Value(cell_height).times(Expr::Count(lines))),
{
    Expr::Value(height).minus(Expr::Value(cell_height).times(Expr::Count(lines)))
}

/// The top of a line of cells.
#[verifier::allow_in_spec]
pub fn line_top_expr<F, W>(padding_y: F, cell_height: F, line: usize) -> Expr<F, W>
    returns
        Expr::<F, W>::Value(padding_y).plus(Expr::Value(cell_height).times(Expr::Count(line))),
{
    Expr::Value(padding_y).plus(Expr::Value(cell_height).times(Expr::Count(line)))
}

/// `cell` is the width and the height of a cell of a font with `metrics`.
pub open spec fn is_cell_size<F, W, E: Fn(Expr<F, W>) -> F>(
    eval: E,
    offset: Offset,
    metrics: Metrics<W>,
    cell: (F, F),
) -> bool {
    &&& evaluates(eval, cell_expr(metrics.average_advance, offset.x), cell.0)
    &&& evaluates(eval, cell_expr(metrics.line_height, offset.y), cell.1)
}

/// Calculates the cell dimensions, width and height, from the font's metrics.
pub fn compute_cell_size<F, W: Copy, E: Fn(Expr<F, W>) -> F>(
    offset: Offset,
    metrics: Metrics<W>,
    eval: &E,
) -> (cell: (F, F))
    requires
        total(*eval),
    ensures
        is_cell_size(*eval, offset, metrics, cell),
{
    (
        eval(cell_expr(metrics.average_advance, offset.x)),
        eval(cell_expr(metrics.line_height, offset.y)),
    )
}

/// Calculates padding to spread it evenly around the terminal content.
pub fn dynamic_padding<F: Copy, W, E: Fn(Expr<F, W>) -> F>(
    padding: F,
    dimension: F,
    cell_dimension: F,
    eval: &E,
) -> (spread: F)
    requires
        total(*eval),
    ensures
        evaluates(*eval, dynamic_padding_expr(padding, dimension, cell_dimension), spread),
{
    eval(dynamic_padding_expr(padding, dimension, cell_dimension))
}

/// `result` is the padding on one axis of a window: the configured padding in physical pixels,
/// together with the space that fills no whole cell where padding is `dynamic`, rounded down.
pub open spec fn is_window_padding<F: Copy, W, E: Fn(Expr<F, W>) -> F>(
    eval: E,
    padding: u8,
    dpr: W,
    dynamic: bool,
    dimension: F,
    cell_dimension: F,
    result: F,
) -> bool {
    exists|scaled: F, spread: F|
        #![trigger evaluates(eval, scaled_padding_expr(padding, dpr), scaled), evaluates(eval, Expr::<F, W>::Value(spread).floor(), result)]
        {
            &&& evaluates(eval, scaled_padding_expr(padding, dpr), scaled)
            &&& if dynamic {
                evaluates(eval, dynamic_padding_expr(scaled, dimension, cell_dimension), spread)
            } else {
                spread == scaled
            }
            &&& evaluates(eval, Expr::Value(spread).floor(), result)
        }
}

/// Calculates the padding on one axis of a window.
pub fn window_padding<F: Copy, W, E: Fn(Expr<F, W>) -> F>(
    padding: u8,
    dpr: W,
    dynamic: bool,
    dimension: F,
    cell_dimension: F,
    eval: &E,
) -> (result: F)
    requires
        total(*eval),
    ensures
        is_window_padding(*eval, padding, dpr, dynamic, dimension, cell_dimension, result),
{
    let scaled = eval(scaled_padding_expr(padding, dpr));
    let spread = if dynamic {
        dynamic_padding(scaled, dimension, cell_dimension, eval)
    } else {
        scaled
    };
    let result = eval(Expr::Value(spread).floor());
    assert(evaluates(*eval, scaled_padding_expr(padding, dpr), scaled));
    assert(evaluates(*eval, Expr::Value(spread).floor(), result));
    result
}

/// Dynamic padding leaves a whole number of cells between the padding on both sides, as many as
/// fit between the padding that was asked for. Where that padding fits in the window, it adds to
/// each side something less than half a cell.
#[verifier::spinoff_prover]
pub proof fn dynamic_padding_leaves_whole_cells<F: Copy, W>(
    padding: F,
    dimension: F,
    cell_dimension: F,
    single: spec_fn(F) -> real,
    wide: spec_fn(W) -> real,
)
    requires
        single(cell_dimension) > 0real,
    ensures
        ({
            let spread = dynamic_padding_expr::<F, W>(padding, dimension, cell_dimension).exact(
                single,
                wide,
            );
            let content = single(dimension) - 2real * single(padding);
            let cells = truncated(content / single(cell_dimension));
            &&& single(dimension) - 2real * spread == cells as real * single(cell_dimension)
            &&& content >= 0real ==> {
                &&& cells == (content / single(cell_dimension)).floor()
                &&& cells >= 0
                &&& single(padding) <= spread
                &&& 2real * (spread - single(padding)) < single(cell_dimension)
            }
        }),
{
    let content = single(dimension) - 2real * single(padding);
    let cell = single(cell_dimension);
    assert(dynamic_padding_expr::<F, W>(padding, dimension, cell_dimension).exact(single, wide)
        == single(padding) + remainder(content, cell) / 2real) by {
        reveal_with_fuel(Expr::exact, 6);
    }
    if content >= 0real {
        remainder_bounds(content, cell);
        assert(content / cell >= 0real) by (nonlinear_arith)
            requires
                content >= 0real,
                cell > 0real,
        ;
    }
}

/// Dynamic padding costs no cells: as many fit between the padding in the end, which is rounded
/// down to whole pixels, as fit between the configured padding. This holds where the three steps of
/// the calculation are not rounded, as with single precision and lengths of whole pixels.
#[verifier::spinoff_prover]
pub proof fn dynamic_padding_costs_no_cells<F: Copy, W, E: Fn(Expr<F, W>) -> F>(
    eval: E,
    padding: u8,
    dpr: W,
    dimension: F,
    cell_dimension: F,
    result: F,
    single: spec_fn(F) -> real,
    wide: spec_fn(W) -> real,
)
    requires
        is_window_padding(eval, padding, dpr, true, dimension, cell_dimension, result),
        forall|scaled: F| #[trigger]
            evaluates(eval, scaled_padding_expr(padding, dpr), scaled) ==> single(scaled)
                == scaled_padding_expr::<F, W>(padding, dpr).exact(single, wide),
        forall|scaled: F, spread: F|
            evaluates(eval, scaled_padding_expr(padding, dpr), scaled) && #[trigger] evaluates(
                eval,
                dynamic_padding_expr(scaled, dimension, cell_dimension),
                spread,
            ) ==> single(spread) == dynamic_padding_expr::<F, W>(
                scaled,
                dimension,
                cell_dimension,
            ).exact(single, wide),
        forall|spread: F, floor: F| #[trigger]
            evaluates(eval, Expr::<F, W>::Value(spread).floor(), floor) ==> single(floor)
                == Expr::<F, W>::Value(spread).floor().exact(single, wide),
        single(cell_dimension) > 0real,
        single(dimension) >= 2real * (padding as real * wide(dpr)),
    ensures
        ({
            let content = single(dimension) - 2real * (padding as real * wide(dpr));
            let cells = (content / single(cell_dimension)).floor();
            cells as real * single(cell_dimension) <= single(dimension) - 2real * single(result)
        }),
        single(result) == single(result).floor() as real,
{
    let (scaled, spread): (F, F) = choose|scaled: F, spread: F|
        #![trigger evaluates(eval, scaled_padding_expr(padding, dpr), scaled), evaluates(eval, Expr::<F, W>::Value(spread).floor(), result)]
        {
            &&& evaluates(eval, scaled_padding_expr(padding, dpr), scaled)
            &&& evaluates(eval, dynamic_padding_expr(scaled, dimension, cell_dimension), spread)
            &&& evaluates(eval, Expr::<F, W>::Value(spread).floor(), result)
        };
    let asked = padding as real * wide(dpr);
    assert(single(scaled) == asked) by {
        reveal_with_fuel(Expr::exact, 2);
    }
    assert(single(result) == single(spread).floor() as real) by {
        reveal_with_fuel(Expr::exact, 2);
    }
    let cells = ((single(dimension) - 2real * asked) / single(cell_dimension)).floor();
    assert(single(dimension) - 2real * single(spread) == cells as real * single(cell_dimension)) by {
        dynamic_padding_leaves_whole_cells::<F, W>(scaled, dimension, cell_dimension, single, wide);
    }
    rounding_padding_down_leaves_room(
        single(dimension),
        single(spread),
        cells as real * single(cell_dimension),
    );
}

/// Where some content fits between a padding, it fits between that padding rounded down.
proof fn rounding_padding_down_leaves_room(dimension: real, padding: real, content: real)
    requires
        dimension - 2real * padding == content,
    ensures
        content <= dimension - 2real * padding.floor() as real,
{
}

/// Each measure of a cell is a whole number of pixels, at least one, and never more than the
/// larger of one pixel and what the font asks for with the configured addition.
#[verifier::spinoff_prover]
pub proof fn cells_are_whole_pixels<F, W>(
    measure: W,
    offset: i8,
    single: spec_fn(F) -> real,
    wide: spec_fn(W) -> real,
)
    ensures
        ({
            let cell = cell_expr::<F, W>(measure, offset).exact(single, wide);
            let asked = wide(measure) + offset as real;
            &&& cell == cell.floor() as real
            &&& cell >= 1real
            &&& asked >= 1real ==> asked - 1real < cell <= asked
            &&& asked < 1real ==> cell == 1real
        }),
{
    let asked = wide(measure) + offset as real;
    let down = asked.floor();
    assert(cell_expr::<F, W>(measure, offset).exact(single, wide) == if 1real >= down as real {
        1real
    } else {
        down as real
    }) by {
        reveal_with_fuel(Expr::exact, 4);
        reveal_with_fuel(Wide::exact, 2);
    }
}

/// The axes of a cell do not mix: its width depends on the font's advance and the addition to the
/// width alone, and its height on the font's line height and the addition to the height alone.
pub proof fn the_axes_of_a_cell_do_not_mix<F, W, E: Fn(Expr<F, W>) -> F>(
    eval: E,
    offset1: Offset,
    metrics1: Metrics<W>,
    cell1: (F, F),
    offset2: Offset,
    metrics2: Metrics<W>,
    cell2: (F, F),
)
    requires
        single_valued(eval),
        is_cell_size(eval, offset1, metrics1, cell1),
        is_cell_size(eval, offset2, metrics2, cell2),
    ensures
        offset1.x == offset2.x && metrics1.average_advance == metrics2.average_advance ==> cell1.0
            == cell2.0,
        offset1.y == offset2.y && metrics1.line_height == metrics2.line_height ==> cell1.1
            == cell2.1,
{
}

/// A font that asks for more, with the configured addition, never has smaller cells.
pub proof fn larger_measures_never_give_smaller_cells<F, W>(
    measure1: W,
    offset1: i8,
    measure2: W,
    offset2: i8,
    single: spec_fn(F) -> real,
    wide: spec_fn(W) -> real,
)
    requires
        wide(measure1) + offset1 as real <= wide(measure2) + offset2 as real,
    ensures
        cell_expr::<F, W>(measure1, offset1).exact(single, wide) <= cell_expr::<F, W>(
            measure2,
            offset2,
        ).exact(single, wide),
{
    cells_are_whole_pixels::<F, W>(measure1, offset1, single, wide);
    cells_are_whole_pixels::<F, W>(measure2, offset2, single, wide);
    let cell1 = cell_expr::<F, W>(measure1, offset1).exact(single, wide);
    let cell2 = cell_expr::<F, W>(measure2, offset2).exact(single, wide);
    if cell1 > cell2 {
        assert(cell1.floor() >= cell2.floor() + 1);
    }
}

/// A measure of a cell where the sum of what the font asks for and the configured addition is
/// rounded before it is brought to whole pixels, at least one.
pub open spec fn rounded_cell(sum: real, round: spec_fn(real) -> real) -> real {
    let down = round(sum).floor() as real;
    if 1real >= down {
        1real
    } else {
        down
    }
}

/// A font that asks for more, with the configured addition, never has smaller cells, however the
/// evaluator rounds, as long as it keeps the order of what it rounds.
pub proof fn rounding_never_gives_larger_fonts_smaller_cells<F, W, E: Fn(Expr<F, W>) -> F>(
    eval: E,
    offset1: Offset,
    metrics1: Metrics<W>,
    cell1: (F, F),
    offset2: Offset,
    metrics2: Metrics<W>,
    cell2: (F, F),
    round: spec_fn(real) -> real,
    single: spec_fn(F) -> real,
    wide: spec_fn(W) -> real,
)
    requires
        is_cell_size(eval, offset1, metrics1, cell1),
        is_cell_size(eval, offset2, metrics2, cell2),
        forall|a: real, b: real| a <= b ==> #[trigger] round(a) <= #[trigger] round(b),
        forall|measure: W, offset: i8, cell: F| #[trigger]
            evaluates(eval, cell_expr(measure, offset), cell) ==> single(cell) == rounded_cell(
                wide(measure) + offset as real,
                round,
            ),
    ensures
        wide(metrics1.average_advance) + offset1.x as real <= wide(metrics2.average_advance)
            + offset2.x as real ==> single(cell1.0) <= single(cell2.0),
        wide(metrics1.line_height) + offset1.y as real <= wide(metrics2.line_height)
            + offset2.y as real ==> single(cell1.1) <= single(cell2.1),
{
    rounded_cells_keep_order(
        wide(metrics1.average_advance) + offset1.x as real,
        wide(metrics2.average_advance) + offset2.x as real,
        round,
    );
    rounded_cells_keep_order(
        wide(metrics1.line_height) + offset1.y as real,
        wide(metrics2.line_height) + offset2.y as real,
        round,
    );
}

proof fn rounded_cells_keep_order(sum1: real, sum2: real, round: spec_fn(real) -> real)
    requires
        forall|a: real, b: real| a <= b ==> #[trigger] round(a) <= #[trigger] round(b),
    ensures
        sum1 <= sum2 ==> rounded_cell(sum1, round) <= rounded_cell(sum2, round),
{
    if sum1 <= sum2 {
        assert(round(sum1) <= round(sum2));
        assert(round(sum1).floor() <= round(sum2).floor());
    }
}

/// The padding of a window depends on the configuration, the pixel ratio, the window's length and
/// the size of cells alone.
pub proof fn window_padding_is_unique<F: Copy, W, E: Fn(Expr<F, W>) -> F>(
    eval: E,
    padding: u8,
    dpr: W,
    dynamic: bool,
    dimension: F,
    cell_dimension: F,
    result1: F,
    result2: F,
)
    requires
        single_valued(eval),
        is_window_padding(eval, padding, dpr, dynamic, dimension, cell_dimension, result1),
        is_window_padding(eval, padding, dpr, dynamic, dimension, cell_dimension, result2),
    ensures
        result1 == result2,
{
}

} // verus!
