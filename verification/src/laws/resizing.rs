//! How the display answers a resize.

use vstd::prelude::*;

use crate::arithmetic::Expr;
use crate::config::{Config, Font};
use crate::display::Display;
use crate::font::{FontResize, Metrics, Size};
use crate::laws::exactness::is_exact;
use crate::laws::fonts::is_nearest_size;
use crate::laws::layout::{
    cell_size_lengths, is_cell_length, is_padding_length, narrowing_keeps_the_value,
    window_padding_lengths,
};
use crate::resize::{
    is_font_size_settled, is_handled, is_handled_through, is_pty_size, is_resized, resize_targets,
    FontRequest, Resize, ResizeStage, ResizeTarget, SettledFont, SettledSize,
};
use crate::size_info::{narrow_expr, remaining_height_expr, PhysicalSize, SizeInfo};

verus! {

/// A reset brings the display back to the configured font size.
pub proof fn a_reset_settles_the_configured_size<D, F, W>(
    config: Config<D>,
    before: Display<F, W>,
    after: Display<F, W>,
)
    requires
        is_font_size_settled(config, Some(FontResize::Reset), before, after),
    ensures
        after.font_size == config.font.size,
        after.size_info == before.size_info,
{
}

/// A step brings the display to the visible font size that is nearest to the one stepped to.
pub proof fn a_step_settles_the_nearest_visible_size<D, F, W>(
    config: Config<D>,
    delta: Size,
    before: Display<F, W>,
    after: Display<F, W>,
)
    requires
        is_font_size_settled(config, Some(FontResize::Delta(delta)), before, after),
    ensures
        is_nearest_size(
            before.font_size.half_points + delta.half_points,
            1,
            after.font_size.half_points as int,
        ),
        after.size_info == before.size_info,
{
}

/// Once a resize has been handled, the font size is the configured one after a reset, the visible
/// one nearest to the one stepped to after a step, and the same as before where no change was asked
/// for.
pub proof fn a_handled_resize_settles_the_font_size<D, F: Copy, W, E: Fn(Expr<F, W>) -> F>(
    eval: E,
    config: Config<D>,
    load: spec_fn(Font<D>, W) -> Metrics<W>,
    pending: Resize<W>,
    before: Display<F, W>,
    after: Display<F, W>,
)
    requires
        is_handled(eval, config, load, pending, before, after),
    ensures
        pending.font_size == Some(FontResize::Reset) ==> after.font_size == config.font.size,
        pending.font_size matches Some(FontResize::Delta(delta)) ==> is_nearest_size(
            before.font_size.half_points + delta.half_points,
            1,
            after.font_size.half_points as int,
        ),
        pending.font_size is None ==> after.font_size == before.font_size,
{
    let (settled, loaded): (Display<F, W>, Display<F, W>) = choose|
        settled: Display<F, W>,
        loaded: Display<F, W>,
    |
        is_handled_through(eval, config, load, pending, before, settled, loaded, after);
}

/// A resize begins with the font: a reset leads to the configured size and a step to the visible
/// size nearest to the one stepped to. The configured font is then loaded at that size, for the
/// window's pixel ratio. Where no change was asked for, the font is kept. The layout waits.
pub proof fn a_resize_begins_with_the_font<D: Copy, F: Copy, W: Copy>(
    display: &mut Display<F, W>,
    config: Config<D>,
    pending: Resize<W>,
    stage: ResizeStage<D, W>,
)
    requires
        call_ensures(
            Display::<F, W>::handle_resize::<D>,
            (display, &config, pending),
            stage,
        ),
    ensures
        final(display).size_info == old(display).size_info,
        pending.font_size == Some(FontResize::Reset) ==> final(display).font_size
            == config.font.size,
        pending.font_size matches Some(FontResize::Delta(delta)) ==> is_nearest_size(
            old(display).font_size.half_points + delta.half_points,
            1,
            final(display).font_size.half_points as int,
        ),
        pending.font_size is None ==> final(display).font_size == old(display).font_size,
        (stage is LoadFont) <==> (pending.font_size is Some),
        stage matches ResizeStage::LoadFont(request) ==> {
            &&& request.font.size == final(display).font_size
            &&& request.font.faces == config.font.faces
            &&& request.font.offset == config.font.offset
            &&& request.font.use_thin_strokes == config.font.use_thin_strokes
            &&& request.dpr == old(display).size_info.dpr
            &&& request.dimensions == pending.dimensions
        },
        stage matches ResizeStage::KeepFont(font) ==> font.dimensions == pending.dimensions,
{
}

/// A font that was loaded sets the size of cells, and nothing else, and the window's new size is
/// not forgotten.
pub proof fn a_loaded_font_sets_the_size_of_cells<
    D,
    F: Copy,
    W: Copy,
    E: Fn(Expr<F, W>) -> F,
>(
    eval: E,
    display: &mut Display<F, W>,
    request: FontRequest<D, W>,
    config: Config<D>,
    metrics: Metrics<W>,
    font: SettledFont<W>,
    single: spec_fn(F) -> real,
    wide: spec_fn(W) -> real,
)
    requires
        is_exact(eval, single, wide),
        call_ensures(
            Display::<F, W>::update_glyph_cache::<D, E>,
            (display, request, &config, metrics, &eval),
            font,
        ),
    ensures
        is_cell_length(
            wide(metrics.average_advance) + config.font.offset.x as real,
            single(final(display).size_info.cell_width),
        ),
        is_cell_length(
            wide(metrics.line_height) + config.font.offset.y as real,
            single(final(display).size_info.cell_height),
        ),
        final(display).font_size == old(display).font_size,
        final(display).size_info.width == old(display).size_info.width,
        final(display).size_info.height == old(display).size_info.height,
        final(display).size_info.padding_x == old(display).size_info.padding_x,
        final(display).size_info.padding_y == old(display).size_info.padding_y,
        final(display).size_info.dpr == old(display).size_info.dpr,
        font.dimensions == request.dimensions,
{
    let info = final(display).size_info;
    cell_size_lengths(
        eval,
        config.font.offset,
        metrics,
        (info.cell_width, info.cell_height),
        single,
        wide,
    );
}

/// What a display's size is after a resize, wherever it comes from: the window is as large as it has
/// become, or as it was where it did not change. The padding goes by the new size and by the cells
/// in use, which stay, as does the pixel ratio.
pub proof fn resized_lengths<D, F: Copy, W, E: Fn(Expr<F, W>) -> F>(
    eval: E,
    config: Config<D>,
    dimensions: Option<PhysicalSize<W>>,
    before: SizeInfo<F, W>,
    after: SizeInfo<F, W>,
    single: spec_fn(F) -> real,
    wide: spec_fn(W) -> real,
)
    requires
        is_exact(eval, single, wide),
        single(before.cell_width) > 0real,
        single(before.cell_height) > 0real,
        is_resized(eval, config, dimensions, before, after),
    ensures
        dimensions matches Some(size) ==> single(after.width) == wide(size.width),
        dimensions matches Some(size) ==> single(after.height) == wide(size.height),
        dimensions is None ==> after.width == before.width && after.height == before.height,
        after.cell_width == before.cell_width,
        after.cell_height == before.cell_height,
        after.dpr == before.dpr,
        is_padding_length(
            config.padding.x as real * wide(before.dpr),
            config.dynamic_padding,
            single(after.width),
            single(before.cell_width),
            single(after.padding_x),
        ),
        is_padding_length(
            config.padding.y as real * wide(before.dpr),
            config.dynamic_padding,
            single(after.height),
            single(before.cell_height),
            single(after.padding_y),
        ),
{
    if let Some(size) = dimensions {
        assert(call_ensures(eval, (narrow_expr::<F, W>(size.width),), after.width));
        assert(call_ensures(eval, (narrow_expr::<F, W>(size.height),), after.height));
        narrowing_keeps_the_value(eval, size.width, after.width, single, wide);
        narrowing_keeps_the_value(eval, size.height, after.height, single, wide);
    }
    window_padding_lengths(
        eval,
        config.padding.x,
        before.dpr,
        config.dynamic_padding,
        after.width,
        after.cell_width,
        after.padding_x,
        single,
        wide,
    );
    window_padding_lengths(
        eval,
        config.padding.y,
        before.dpr,
        config.dynamic_padding,
        after.height,
        after.cell_height,
        after.padding_y,
        single,
        wide,
    );
}

/// A resize makes the display as large as the window has become, with padding that goes by that
/// size and by the cells in use, and settles on just that size. The font size stays.
pub proof fn a_resize_follows_the_window<D, F: Copy, W: Copy, E: Fn(Expr<F, W>) -> F>(
    eval: E,
    display: &mut Display<F, W>,
    font: SettledFont<W>,
    config: Config<D>,
    settled: SettledSize<F, W>,
    single: spec_fn(F) -> real,
    wide: spec_fn(W) -> real,
)
    requires
        is_exact(eval, single, wide),
        single(old(display).size_info.cell_width) > 0real,
        single(old(display).size_info.cell_height) > 0real,
        call_ensures(
            Display::<F, W>::update_size::<D, E>,
            (display, font, &config, &eval),
            settled,
        ),
    ensures
        final(display).font_size == old(display).font_size,
        settled.size_info == final(display).size_info,
        font.dimensions matches Some(size) ==> single(final(display).size_info.width) == wide(
            size.width,
        ),
        font.dimensions matches Some(size) ==> single(final(display).size_info.height) == wide(
            size.height,
        ),
        font.dimensions is None ==> {
            &&& final(display).size_info.width == old(display).size_info.width
            &&& final(display).size_info.height == old(display).size_info.height
        },
        final(display).size_info.cell_width == old(display).size_info.cell_width,
        final(display).size_info.cell_height == old(display).size_info.cell_height,
        final(display).size_info.dpr == old(display).size_info.dpr,
        is_padding_length(
            config.padding.x as real * wide(old(display).size_info.dpr),
            config.dynamic_padding,
            single(final(display).size_info.width),
            single(old(display).size_info.cell_width),
            single(final(display).size_info.padding_x),
        ),
        is_padding_length(
            config.padding.y as real * wide(old(display).size_info.dpr),
            config.dynamic_padding,
            single(final(display).size_info.height),
            single(old(display).size_info.cell_height),
            single(final(display).size_info.padding_y),
        ),
{
    resized_lengths(
        eval,
        config,
        font.dimensions,
        old(display).size_info,
        final(display).size_info,
        single,
        wide,
    );
}

/// `pty` is a window's size less so many lines of cells, which are taken from its height alone.
pub open spec fn is_shorter_by<F, W>(
    info: SizeInfo<F, W>,
    lines: int,
    pty: SizeInfo<F, W>,
    single: spec_fn(F) -> real,
) -> bool {
    &&& single(pty.height) + single(info.cell_height) * lines as real == single(info.height)
    &&& pty.width == info.width
    &&& pty.cell_width == info.cell_width
    &&& pty.cell_height == info.cell_height
    &&& pty.padding_x == info.padding_x
    &&& pty.padding_y == info.padding_y
    &&& pty.dpr == info.dpr
}

/// Whatever the number of lines of a message is, those lines and the terminal's height make up the
/// window's height. Without a message the terminal has the whole window.
pub proof fn the_terminal_is_shorter_by_the_message<F, W, E: Fn(Expr<F, W>) -> F>(
    eval: E,
    info: SizeInfo<F, W>,
    message_lines: Option<usize>,
    pty: SizeInfo<F, W>,
    single: spec_fn(F) -> real,
    wide: spec_fn(W) -> real,
)
    requires
        is_exact(eval, single, wide),
        is_pty_size(eval, info, message_lines, pty),
    ensures
        message_lines matches Some(lines) ==> is_shorter_by(info, lines as int, pty, single),
        message_lines is None ==> pty == info,
{
    if let Some(lines) = message_lines {
        assert(call_ensures(
            eval,
            (remaining_height_expr::<F, W>(info.height, info.cell_height, lines),),
            pty.height,
        ));
        reveal_with_fuel(Expr::exact, 3);
    }
}

/// Four are told of a new size: first the program in the terminal and the terminal, both the size
/// that the message leaves them, then the renderer and the window, both the whole.
pub proof fn a_new_size_is_told_to_all<F: Copy, W: Copy, E: Fn(Expr<F, W>) -> F>(
    eval: E,
    settled: SettledSize<F, W>,
    message_lines: Option<usize>,
    targets: Vec<ResizeTarget<F, W>>,
    single: spec_fn(F) -> real,
    wide: spec_fn(W) -> real,
)
    requires
        is_exact(eval, single, wide),
        call_ensures(
            SettledSize::<F, W>::targets::<E>,
            (settled, message_lines, &eval),
            targets,
        ),
    ensures
        targets@.len() == 4,
        targets@[0] is Pty,
        targets@[1] is Terminal,
        targets@[2] is Renderer,
        targets@[3] is Window,
        targets@[0]->Pty_size_info == targets@[1]->Terminal_size_info,
        message_lines matches Some(lines) ==> is_shorter_by(
            settled.size_info,
            lines as int,
            targets@[0]->Pty_size_info,
            single,
        ),
        message_lines is None ==> targets@[0]->Pty_size_info == settled.size_info,
        targets@[2]->Renderer_size_info == settled.size_info,
        targets@[3]->width == settled.size_info.width,
        targets@[3]->height == settled.size_info.height,
{
    let pty = choose|pty: SizeInfo<F, W>|
        {
            &&& #[trigger] is_pty_size(eval, settled.size_info, message_lines, pty)
            &&& targets@ == resize_targets(settled.size_info, pty)
        };
    the_terminal_is_shorter_by_the_message(
        eval,
        settled.size_info,
        message_lines,
        pty,
        single,
        wide,
    );
}

} // verus!
