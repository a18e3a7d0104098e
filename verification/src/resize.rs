//! How the display answers a resize.
//!
//! `Display::handle_resize` begins with the font. Where the font size changes, the caller loads the
//! font and hands its metrics to `Display::update_glyph_cache`. `Display::update_size` then settles
//! the new size, and `SettledSize::targets` says who is to be told of it, given how many lines the
//! message bar takes up at that size.

use vstd::prelude::*;

use crate::arithmetic::{evaluates, single_valued, total, Expr};
use crate::config::{Config, Font};
use crate::display::Display;
use crate::font::{resized_half_points, FontResize, Metrics};
use crate::size_info::{
    compute_cell_size, is_cell_size, is_window_padding, narrow_expr, remaining_height_expr,
    window_padding, window_padding_is_unique, PhysicalSize, SizeInfo,
};
use crate::startup::is_startup_size_info;

verus! {

/// The changes of size that wait to be handled.
#[derive(Debug)]
pub struct Resize<W> {
    /// The new size of the window, if it changed.
    pub dimensions: Option<PhysicalSize<W>>,
    /// The change of the font size, if one was asked for.
    pub font_size: Option<FontResize>,
}

/// A change of the font size was asked for. The caller loads a font for a pixel ratio, once.
#[derive(Debug)]
#[non_exhaustive]
pub struct FontRequest<D, W> {
    /// The font to load.
    pub font: Font<D>,
    /// The number of physical pixels in a logical one.
    pub dpr: W,
    /// The new size of the window, if it changed.
    pub dimensions: Option<PhysicalSize<W>>,
}

/// The font is settled.
#[derive(Debug)]
#[non_exhaustive]
pub struct SettledFont<W> {
    /// The new size of the window, if it changed.
    pub dimensions: Option<PhysicalSize<W>>,
}

/// What comes first in a resize.
#[derive(Debug)]
pub enum ResizeStage<D, W> {
    /// The font is to be loaded.
    LoadFont(FontRequest<D, W>),
    /// The font stays.
    KeepFont(SettledFont<W>),
}

/// The size is settled. The caller counts the lines of the message bar at that size, if there is a
/// message.
#[derive(Debug)]
#[non_exhaustive]
pub struct SettledSize<F, W> {
    /// The new size.
    pub size_info: SizeInfo<F, W>,
}

/// Who is told of a new size.
#[derive(Debug)]
pub enum ResizeTarget<F, W> {
    /// The program that runs in the terminal.
    Pty { size_info: SizeInfo<F, W> },
    /// The terminal.
    Terminal { size_info: SizeInfo<F, W> },
    /// The renderer.
    Renderer { size_info: SizeInfo<F, W> },
    /// The window.
    Window { width: F, height: F },
}

/// `after` is the size of the display after a resize to `dimensions`, if there are any, where
/// `before` holds its size with the cells of the font in use.
pub open spec fn is_resized<D, F: Copy, W, E: Fn(Expr<F, W>) -> F>(
    eval: E,
    config: Config<D>,
    dimensions: Option<PhysicalSize<W>>,
    before: SizeInfo<F, W>,
    after: SizeInfo<F, W>,
) -> bool {
    &&& after.dpr == before.dpr
    &&& after.cell_width == before.cell_width
    &&& after.cell_height == before.cell_height
    &&& match dimensions {
        Some(size) => {
            &&& evaluates(eval, narrow_expr(size.width), after.width)
            &&& evaluates(eval, narrow_expr(size.height), after.height)
        },
        None => after.width == before.width && after.height == before.height,
    }
    &&& is_window_padding(
        eval,
        config.padding.x,
        before.dpr,
        config.dynamic_padding,
        after.width,
        after.cell_width,
        after.padding_x,
    )
    &&& is_window_padding(
        eval,
        config.padding.y,
        before.dpr,
        config.dynamic_padding,
        after.height,
        after.cell_height,
        after.padding_y,
    )
}

/// `pty` is the size that the terminal has in a window of size `info`, where a message bar of so
/// many lines, if there is one, takes up its part.
pub open spec fn is_pty_size<F, W, E: Fn(Expr<F, W>) -> F>(
    eval: E,
    info: SizeInfo<F, W>,
    message_lines: Option<usize>,
    pty: SizeInfo<F, W>,
) -> bool {
    match message_lines {
        Some(lines) => {
            &&& pty == (SizeInfo { height: pty.height, ..info })
            &&& evaluates(
                eval,
                remaining_height_expr(info.height, info.cell_height, lines),
                pty.height,
            )
        },
        None => pty == info,
    }
}

/// Who is told of the size `info`, in order: the terminal's side of the size `pty`, the screen's
/// side of the whole.
pub open spec fn resize_targets<F, W>(info: SizeInfo<F, W>, pty: SizeInfo<F, W>) -> Seq<
    ResizeTarget<F, W>,
> {
    seq![
        ResizeTarget::Pty { size_info: pty },
        ResizeTarget::Terminal { size_info: pty },
        ResizeTarget::Renderer { size_info: info },
        ResizeTarget::Window { width: info.width, height: info.height },
    ]
}

/// `after` is the display once the font size has been settled: changed as `resize` asks, if it does.
pub open spec fn is_font_size_settled<D, F, W>(
    config: Config<D>,
    resize: Option<FontResize>,
    before: Display<F, W>,
    after: Display<F, W>,
) -> bool {
    &&& after.size_info == before.size_info
    &&& match resize {
        Some(resize) => after.font_size.half_points == resized_half_points(
            before.font_size,
            resize,
            config.font.size,
        ),
        None => after.font_size == before.font_size,
    }
}

/// `after` is the display once its cells have been fitted to a font with `metrics`.
pub open spec fn is_font_loaded<D, F, W, E: Fn(Expr<F, W>) -> F>(
    eval: E,
    config: Config<D>,
    metrics: Metrics<W>,
    before: Display<F, W>,
    after: Display<F, W>,
) -> bool {
    let info = after.size_info;
    &&& after.font_size == before.font_size
    &&& info == (SizeInfo {
        cell_width: info.cell_width,
        cell_height: info.cell_height,
        ..before.size_info
    })
    &&& is_cell_size(eval, config.font.offset, metrics, (info.cell_width, info.cell_height))
}

impl<F: Copy, W: Copy> Display<F, W> {
    /// Begins to process resize events: updates the font size, if a change was asked for. The
    /// configured font is then to be loaded, with only its size replaced by the new one, for the
    /// window's pixel ratio, even where the size is the same as before.
    pub fn handle_resize<D: Copy>(&mut self, config: &Config<D>, pending: Resize<W>) -> (stage:
        ResizeStage<D, W>)
        ensures
            is_font_size_settled(*config, pending.font_size, *old(self), *final(self)),
            stage == match pending.font_size {
                Some(_) => ResizeStage::LoadFont(
                    FontRequest {
                        font: config.font.with_size(final(self).font_size),
                        dpr: old(self).size_info.dpr,
                        dimensions: pending.dimensions,
                    },
                ),
                None => ResizeStage::KeepFont(SettledFont { dimensions: pending.dimensions }),
            },
    {
        match pending.font_size {
            Some(resize) => {
                self.font_size = self.font_size.resized(resize, config.font.size);
                ResizeStage::LoadFont(
                    FontRequest {
                        font: config.font.with_size(self.font_size),
                        dpr: self.size_info.dpr,
                        dimensions: pending.dimensions,
                    },
                )
            },
            None => ResizeStage::KeepFont(SettledFont { dimensions: pending.dimensions }),
        }
    }

    /// Updates the cell dimensions to the font that was loaded.
    pub fn update_glyph_cache<D, E: Fn(Expr<F, W>) -> F>(
        &mut self,
        request: FontRequest<D, W>,
        config: &Config<D>,
        metrics: Metrics<W>,
        eval: &E,
    ) -> (stage: SettledFont<W>)
        requires
            total(*eval),
        ensures
            stage == (SettledFont { dimensions: request.dimensions }),
            is_font_loaded(*eval, *config, metrics, *old(self), *final(self)),
    {
        let (cell_width, cell_height) = compute_cell_size(config.font.offset, metrics, eval);
        self.size_info.cell_width = cell_width;
        self.size_info.cell_height = cell_height;
        SettledFont { dimensions: request.dimensions }
    }

    /// Updates the window dimensions, if they changed, and recalculates the padding.
    pub fn update_size<D, E: Fn(Expr<F, W>) -> F>(
        &mut self,
        font: SettledFont<W>,
        config: &Config<D>,
        eval: &E,
    ) -> (stage: SettledSize<F, W>)
        requires
            total(*eval),
        ensures
            final(self).font_size == old(self).font_size,
            is_resized(
                *eval,
                *config,
                font.dimensions,
                old(self).size_info,
                final(self).size_info,
            ),
            stage == (SettledSize { size_info: final(self).size_info }),
    {
        if let Some(size) = font.dimensions {
            self.size_info.width = eval(narrow_expr(size.width));
            self.size_info.height = eval(narrow_expr(size.height));
        }
        let info = self.size_info;
        self.size_info.padding_x = window_padding(
            config.padding.x,
            info.dpr,
            config.dynamic_padding,
            info.width,
            info.cell_width,
            eval,
        );
        self.size_info.padding_y = window_padding(
            config.padding.y,
            info.dpr,
            config.dynamic_padding,
            info.height,
            info.cell_height,
            eval,
        );
        SettledSize { size_info: self.size_info }
    }
}

impl<F: Copy, W: Copy> SettledSize<F, W> {
    /// Says who is to be told of the new size, in order. The lines of the message bar, if there is a
    /// message, are subtracted from what the terminal is told.
    pub fn targets<E: Fn(Expr<F, W>) -> F>(
        self,
        message_lines: Option<usize>,
        eval: &E,
    ) -> (targets: Vec<ResizeTarget<F, W>>)
        requires
            total(*eval),
        ensures
            exists|pty: SizeInfo<F, W>|
                {
                    &&& #[trigger] is_pty_size(*eval, self.size_info, message_lines, pty)
                    &&& targets@ == resize_targets(self.size_info, pty)
                },
    {
        let info = self.size_info;
        let mut pty = info;
        if let Some(lines) = message_lines {
            pty.height = eval(remaining_height_expr(info.height, info.cell_height, lines));
        }
        let mut targets: Vec<ResizeTarget<F, W>> = Vec::new();
        targets.push(ResizeTarget::Pty { size_info: pty });
        targets.push(ResizeTarget::Terminal { size_info: pty });
        targets.push(ResizeTarget::Renderer { size_info: info });
        targets.push(ResizeTarget::Window { width: info.width, height: info.height });
        assert(is_pty_size(*eval, self.size_info, message_lines, pty));
        assert(targets@ =~= resize_targets(self.size_info, pty));
        targets
    }
}

/// `after` is the display once a resize has been handled from beginning to end: `settled` is the
/// display with the font size settled, and `loaded` is the display with its cells fitted to the font
/// that was loaded, if one was. `load` says which metrics the font that is loaded for a pixel ratio
/// has.
pub open spec fn is_handled_through<D, F: Copy, W, E: Fn(Expr<F, W>) -> F>(
    eval: E,
    config: Config<D>,
    load: spec_fn(Font<D>, W) -> Metrics<W>,
    pending: Resize<W>,
    before: Display<F, W>,
    settled: Display<F, W>,
    loaded: Display<F, W>,
    after: Display<F, W>,
) -> bool {
    &&& is_font_size_settled(config, pending.font_size, before, settled)
    &&& match pending.font_size {
        Some(_) => is_font_loaded(
            eval,
            config,
            load(config.font.with_size(settled.font_size), before.size_info.dpr),
            settled,
            loaded,
        ),
        None => loaded == settled,
    }
    &&& after.font_size == loaded.font_size
    &&& is_resized(eval, config, pending.dimensions, loaded.size_info, after.size_info)
}

/// `after` is the display once a resize has been handled from beginning to end, where `load` says
/// which metrics the font that is loaded for a pixel ratio has.
pub open spec fn is_handled<D, F: Copy, W, E: Fn(Expr<F, W>) -> F>(
    eval: E,
    config: Config<D>,
    load: spec_fn(Font<D>, W) -> Metrics<W>,
    pending: Resize<W>,
    before: Display<F, W>,
    after: Display<F, W>,
) -> bool {
    exists|settled: Display<F, W>, loaded: Display<F, W>|
        is_handled_through(eval, config, load, pending, before, settled, loaded, after)
}

/// One size and one resize lead to one size.
proof fn resized_size_is_unique<D, F: Copy, W, E: Fn(Expr<F, W>) -> F>(
    eval: E,
    config: Config<D>,
    dimensions: Option<PhysicalSize<W>>,
    before: SizeInfo<F, W>,
    after1: SizeInfo<F, W>,
    after2: SizeInfo<F, W>,
)
    requires
        single_valued(eval),
        is_resized(eval, config, dimensions, before, after1),
        is_resized(eval, config, dimensions, before, after2),
    ensures
        after1 == after2,
{
    let padding = config.padding;
    let dynamic = config.dynamic_padding;
    assert(after1.width == after2.width && after1.height == after2.height);
    window_padding_is_unique(
        eval,
        padding.x,
        before.dpr,
        dynamic,
        after1.width,
        after1.cell_width,
        after1.padding_x,
        after2.padding_x,
    );
    window_padding_is_unique(
        eval,
        padding.y,
        before.dpr,
        dynamic,
        after1.height,
        after1.cell_height,
        after1.padding_y,
        after2.padding_y,
    );
}

/// The same display and the same resize lead to the same display.
pub proof fn a_resize_has_one_outcome<D, F: Copy, W, E: Fn(Expr<F, W>) -> F>(
    eval: E,
    config: Config<D>,
    load: spec_fn(Font<D>, W) -> Metrics<W>,
    pending: Resize<W>,
    before: Display<F, W>,
    after1: Display<F, W>,
    after2: Display<F, W>,
)
    requires
        single_valued(eval),
        is_handled(eval, config, load, pending, before, after1),
        is_handled(eval, config, load, pending, before, after2),
    ensures
        after1 == after2,
{
    let (settled1, loaded1): (Display<F, W>, Display<F, W>) = choose|
        settled: Display<F, W>,
        loaded: Display<F, W>,
    |
        is_handled_through(eval, config, load, pending, before, settled, loaded, after1);
    let (settled2, loaded2): (Display<F, W>, Display<F, W>) = choose|
        settled: Display<F, W>,
        loaded: Display<F, W>,
    |
        is_handled_through(eval, config, load, pending, before, settled, loaded, after2);
    assert(settled1.font_size == settled2.font_size);
    assert(loaded1.size_info == loaded2.size_info);
    resized_size_is_unique(
        eval,
        config,
        pending.dimensions,
        loaded1.size_info,
        after1.size_info,
        after2.size_info,
    );
}

/// The last resize counts: what the window's size was in between has no influence on the size in
/// the end. A resize without new dimensions keeps those of the resize before it.
pub proof fn the_last_resize_counts<D, F: Copy, W, E: Fn(Expr<F, W>) -> F>(
    eval: E,
    config: Config<D>,
    first: Option<PhysicalSize<W>>,
    last: Option<PhysicalSize<W>>,
    before: SizeInfo<F, W>,
    between: SizeInfo<F, W>,
    after: SizeInfo<F, W>,
    at_once: SizeInfo<F, W>,
)
    requires
        single_valued(eval),
        is_resized(eval, config, first, before, between),
        is_resized(eval, config, last, between, after),
        is_resized(
            eval,
            config,
            match last {
                Some(size) => Some(size),
                None => first,
            },
            before,
            at_once,
        ),
    ensures
        after == at_once,
{
    let dimensions = match last {
        Some(size) => Some(size),
        None => first,
    };
    resized_size_is_unique(eval, config, dimensions, before, after, at_once);
}

/// Nothing accumulates: a resize after which neither the window's size nor the font size changes
/// leaves the display as it is, and the terminal is told the same size again.
pub proof fn a_repeated_resize_changes_nothing<D, F: Copy, W, E: Fn(Expr<F, W>) -> F>(
    eval: E,
    config: Config<D>,
    load: spec_fn(Font<D>, W) -> Metrics<W>,
    pending: Resize<W>,
    repeated: Resize<W>,
    message_lines: Option<usize>,
    before: Display<F, W>,
    after: Display<F, W>,
    again: Display<F, W>,
    pty: SizeInfo<F, W>,
    pty_again: SizeInfo<F, W>,
)
    requires
        single_valued(eval),
        repeated.font_size is None,
        repeated.dimensions is None || repeated.dimensions == pending.dimensions,
        is_handled(eval, config, load, pending, before, after),
        is_handled(eval, config, load, repeated, after, again),
        is_pty_size(eval, after.size_info, message_lines, pty),
        is_pty_size(eval, again.size_info, message_lines, pty_again),
    ensures
        again == after,
        pty_again == pty,
{
    let (settled, loaded): (Display<F, W>, Display<F, W>) = choose|
        settled: Display<F, W>,
        loaded: Display<F, W>,
    |
        is_handled_through(eval, config, load, pending, before, settled, loaded, after);
    assert(is_resized(eval, config, repeated.dimensions, after.size_info, after.size_info));
    resized_size_is_unique(
        eval,
        config,
        repeated.dimensions,
        after.size_info,
        after.size_info,
        again.size_info,
    );
}

/// A change of the font size and one of the window's size may come at once or one after the other,
/// in either order: the display ends up the same, and the terminal is told the same size.
pub proof fn font_and_window_resize_in_any_order<D, F: Copy, W, E: Fn(Expr<F, W>) -> F>(
    eval: E,
    config: Config<D>,
    load: spec_fn(Font<D>, W) -> Metrics<W>,
    resize: FontResize,
    size: PhysicalSize<W>,
    font_first: bool,
    before: Display<F, W>,
    at_once: Display<F, W>,
    between: Display<F, W>,
    after: Display<F, W>,
    message_lines: Option<usize>,
    pty_at_once: SizeInfo<F, W>,
    pty_after: SizeInfo<F, W>,
)
    requires
        single_valued(eval),
        is_handled(
            eval,
            config,
            load,
            Resize { dimensions: Some(size), font_size: Some(resize) },
            before,
            at_once,
        ),
        font_first ==> {
            &&& is_handled(
                eval,
                config,
                load,
                Resize { dimensions: None, font_size: Some(resize) },
                before,
                between,
            )
            &&& is_handled(
                eval,
                config,
                load,
                Resize { dimensions: Some(size), font_size: None },
                between,
                after,
            )
        },
        !font_first ==> {
            &&& is_handled(
                eval,
                config,
                load,
                Resize { dimensions: Some(size), font_size: None },
                before,
                between,
            )
            &&& is_handled(
                eval,
                config,
                load,
                Resize { dimensions: None, font_size: Some(resize) },
                between,
                after,
            )
        },
        is_pty_size(eval, at_once.size_info, message_lines, pty_at_once),
        is_pty_size(eval, after.size_info, message_lines, pty_after),
    ensures
        after == at_once,
        pty_after == pty_at_once,
{
    let both = Resize { dimensions: Some(size), font_size: Some(resize) };
    let font_only = Resize { dimensions: None::<PhysicalSize<W>>, font_size: Some(resize) };
    let size_only = Resize { dimensions: Some(size), font_size: None::<FontResize> };
    let first = if font_first {
        font_only
    } else {
        size_only
    };
    let second = if font_first {
        size_only
    } else {
        font_only
    };
    let (settled1, loaded1): (Display<F, W>, Display<F, W>) = choose|
        settled: Display<F, W>,
        loaded: Display<F, W>,
    |
        is_handled_through(eval, config, load, first, before, settled, loaded, between);
    let (settled2, loaded2): (Display<F, W>, Display<F, W>) = choose|
        settled: Display<F, W>,
        loaded: Display<F, W>,
    |
        is_handled_through(eval, config, load, second, between, settled, loaded, after);
    let settled = Display { size_info: before.size_info, font_size: after.font_size };
    let loaded = Display {
        size_info: SizeInfo {
            cell_width: after.size_info.cell_width,
            cell_height: after.size_info.cell_height,
            ..before.size_info
        },
        font_size: after.font_size,
    };
    assert(is_handled_through(eval, config, load, both, before, settled, loaded, after));
    assert(is_handled(eval, config, load, both, before, after));
    a_resize_has_one_outcome(eval, config, load, both, before, after, at_once);
}

/// Startup and resizes agree on the layout: a resize that changes nothing, or gives the window the
/// size that it came up with, leaves the display as startup left it. The exception is a window that
/// came up at a configured size while dynamic padding is on, since startup then leaves that padding
/// out.
pub proof fn startup_and_resize_agree<D, F: Copy, W, E: Fn(Expr<F, W>) -> F>(
    eval: E,
    config: Config<D>,
    load: spec_fn(Font<D>, W) -> Metrics<W>,
    dpr: W,
    dimensions: Option<PhysicalSize<W>>,
    viewport_size: PhysicalSize<W>,
    pending: Resize<W>,
    started: Display<F, W>,
    after: Display<F, W>,
)
    requires
        single_valued(eval),
        dimensions is None || !config.dynamic_padding,
        started.font_size == config.font.size,
        is_startup_size_info(
            eval,
            config,
            dpr,
            viewport_size,
            dimensions is None && config.dynamic_padding,
            started.size_info,
        ),
        pending.font_size is None,
        pending.dimensions is None || pending.dimensions == Some(viewport_size),
        is_handled(eval, config, load, pending, started, after),
    ensures
        after == started,
        after.font_size == config.font.size,
{
    assert(is_resized(eval, config, pending.dimensions, started.size_info, started.size_info));
    resized_size_is_unique(
        eval,
        config,
        pending.dimensions,
        started.size_info,
        started.size_info,
        after.size_info,
    );
}

/// The program in the terminal and the terminal itself are told the same size, before the renderer
/// and the window are told of the whole. Without a message bar all are told the same.
pub proof fn both_sides_of_the_terminal_agree<F, W, E: Fn(Expr<F, W>) -> F>(
    eval: E,
    info: SizeInfo<F, W>,
    message_lines: Option<usize>,
    pty: SizeInfo<F, W>,
)
    requires
        is_pty_size(eval, info, message_lines, pty),
    ensures
        ({
            let targets = resize_targets(info, pty);
            &&& targets[0]->Pty_size_info == targets[1]->Terminal_size_info
            &&& targets[2]->Renderer_size_info == info
            &&& targets[3]->width == info.width
            &&& targets[3]->height == info.height
            &&& message_lines is None ==> targets[0]->Pty_size_info == info
            &&& pty.width == info.width
            &&& pty.cell_width == info.cell_width
            &&& pty.cell_height == info.cell_height
            &&& pty.padding_x == info.padding_x
            &&& pty.padding_y == info.padding_y
            &&& pty.dpr == info.dpr
        }),
{
}

/// The terminal's height and the lines of the message bar together make up the window's height.
pub proof fn the_message_bar_takes_whole_lines<F, W>(
    height: F,
    cell_height: F,
    lines: usize,
    single: spec_fn(F) -> real,
    wide: spec_fn(W) -> real,
)
    ensures
        remaining_height_expr::<F, W>(height, cell_height, lines).exact(single, wide) + single(
            cell_height,
        ) * (lines as real) == single(height),
{
    reveal_with_fuel(Expr::exact, 3);
}

} // verus!
