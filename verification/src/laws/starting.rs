//! How the display comes up.

use vstd::prelude::*;

use crate::arithmetic::{epsilon, Condition, Expr, Wide};
use crate::config::{Config, Platform, StartupMode};
use crate::display::Display;
use crate::error::{Error, FontError, RenderError, WindowError};
use crate::font::Metrics;
use crate::laws::exactness::{decides_exactly, is_exact, is_wide_exact};
use crate::laws::layout::{
    cell_size_lengths, is_cell_length, is_padding_length, narrowing_keeps_the_value,
    window_padding_lengths,
};
use crate::size_info::{narrow_expr, PhysicalSize, SizeInfo};
use crate::startup::{
    is_size_change, is_startup_size_info, same_length, startup_effects, CellEstimate, Estimate,
    GlyphCacheRequest, RasterizerRequest, RendererRequest, SizeRequest, StartupEffect,
    WindowProperties, WindowRequest,
};

verus! {

/// The pixel ratio is first taken to be that of the first monitor, and one where there is none.
pub proof fn the_first_monitor_gives_the_pixel_ratio<D, F: Copy, W: Copy, E: Fn(Wide<W>) -> W>(
    eval: E,
    config: Config<D>,
    first_monitor_dpr: Option<W>,
    stage: Estimate<D, W>,
    wide: spec_fn(W) -> real,
)
    requires
        is_wide_exact(eval, wide),
        call_ensures(
            Display::<F, W>::new::<D, E>,
            (config, first_monitor_dpr, &eval),
            stage,
        ),
    ensures
        stage.config == config,
        first_monitor_dpr matches Some(dpr) ==> stage.dpr == dpr,
        first_monitor_dpr is None ==> wide(stage.dpr) == 1real,
{
}

/// A font that can be measured gives a guess at the size of cells; one that cannot ends startup with
/// that error.
pub proof fn the_measured_font_gives_the_guess_at_cells<
    D: Copy,
    F,
    W: Copy,
    E: Fn(Expr<F, W>) -> F,
>(
    eval: E,
    before: Estimate<D, W>,
    metrics: Result<Metrics<W>, FontError>,
    after: Result<CellEstimate<D, F, W>, Error>,
    single: spec_fn(F) -> real,
    wide: spec_fn(W) -> real,
)
    requires
        is_exact(eval, single, wide),
        call_ensures(Estimate::<D, W>::measured::<F, E>, (before, metrics, &eval), after),
    ensures
        metrics matches Err(error) ==> (after matches Err(Error::Font(found)) && found == error),
        metrics matches Ok(metrics) ==> {
            &&& after matches Ok(next)
            &&& next.config == before.config
            &&& next.dpr == before.dpr
            &&& is_cell_length(
                wide(metrics.average_advance) + before.config.font.offset.x as real,
                single(next.cell_width),
            )
            &&& is_cell_length(
                wide(metrics.line_height) + before.config.font.offset.y as real,
                single(next.cell_height),
            )
        },
{
    if let (Ok(metrics), Ok(next)) = (metrics, after) {
        cell_size_lengths(
            eval,
            before.config.font.offset,
            metrics,
            (next.cell_width, next.cell_height),
            single,
            wide,
        );
    }
}

/// The window is asked for at the size that was worked out, if one was, for the guessed pixel ratio.
pub proof fn the_window_is_asked_for_at_the_guess<D: Copy, F: Copy, W: Copy>(
    before: CellEstimate<D, F, W>,
    dimensions: Option<PhysicalSize<W>>,
    after: WindowRequest<D, W>,
)
    requires
        call_ensures(CellEstimate::<D, F, W>::dimensioned, (before, dimensions), after),
    ensures
        after.config == before.config,
        after.size == dimensions,
        after.dpr == before.dpr,
{
}

/// From an open window on, its own pixel ratio and size count; without a window startup ends with
/// that error.
pub proof fn the_window_has_the_last_word<D: Copy, W: Copy, T>(
    before: WindowRequest<D, W>,
    window: Result<(T, WindowProperties<W>), WindowError>,
    after: Result<(T, RendererRequest<D, W>), Error>,
)
    requires
        call_ensures(WindowRequest::<D, W>::opened::<T>, (before, window), after),
    ensures
        window matches Err(error) ==> (after matches Err(Error::Window(found)) && found == error),
        window matches Ok((window, properties)) ==> {
            &&& after matches Ok((found, next))
            &&& found == window
            &&& next.config == before.config
            &&& next.dpr == properties.dpr
            &&& next.viewport_size == properties.inner_size
        },
{
}

/// The rasterizer is asked for at the window's pixel ratio and with the configured strokes; without
/// a renderer startup ends with that error.
pub proof fn the_rasterizer_goes_by_window_and_font<
    D: Copy,
    F,
    W: Copy,
    T,
    E: Fn(Expr<F, W>) -> F,
>(
    eval: E,
    before: RendererRequest<D, W>,
    renderer: Result<T, RenderError>,
    after: Result<(T, RasterizerRequest<D, F, W>), Error>,
    single: spec_fn(F) -> real,
    wide: spec_fn(W) -> real,
)
    requires
        is_exact(eval, single, wide),
        call_ensures(
            RendererRequest::<D, W>::created::<T, F, E>,
            (before, renderer, &eval),
            after,
        ),
    ensures
        renderer matches Err(error) ==> (after matches Err(Error::Render(found)) && found == error),
        renderer matches Ok(renderer) ==> {
            &&& after matches Ok((found, next))
            &&& found == renderer
            &&& next.config == before.config
            &&& next.dpr == before.dpr
            &&& next.viewport_size == before.viewport_size
            &&& single(next.rasterizer_dpr) == wide(before.dpr)
            &&& next.use_thin_strokes == before.config.font.use_thin_strokes
        },
{
    if let (Ok(_), Ok((_, next))) = (renderer, after) {
        assert(call_ensures(eval, (narrow_expr::<F, W>(before.dpr),), next.rasterizer_dpr));
        narrowing_keeps_the_value(eval, before.dpr, next.rasterizer_dpr, single, wide);
    }
}

/// A rasterizer changes nothing of what is known; without one startup ends with that error.
pub proof fn a_rasterizer_changes_nothing<D: Copy, F: Copy, W: Copy, T>(
    before: RasterizerRequest<D, F, W>,
    rasterizer: Result<T, FontError>,
    after: Result<(T, GlyphCacheRequest<D, W>), Error>,
)
    requires
        call_ensures(RasterizerRequest::<D, F, W>::created::<T>, (before, rasterizer), after),
    ensures
        rasterizer matches Err(error) ==> (after matches Err(Error::Font(found)) && found == error),
        rasterizer matches Ok(rasterizer) ==> {
            &&& after matches Ok((found, next))
            &&& found == rasterizer
            &&& next.config == before.config
            &&& next.dpr == before.dpr
            &&& next.viewport_size == before.viewport_size
        },
{
}

/// The glyph cache gives the size of cells; without one startup ends with that error.
pub proof fn the_glyph_cache_gives_the_size_of_cells<
    D: Copy,
    F,
    W: Copy,
    T,
    E: Fn(Expr<F, W>) -> F,
>(
    eval: E,
    before: GlyphCacheRequest<D, W>,
    glyph_cache: Result<(T, Metrics<W>), FontError>,
    after: Result<(T, SizeRequest<D, F, W>), Error>,
    single: spec_fn(F) -> real,
    wide: spec_fn(W) -> real,
)
    requires
        is_exact(eval, single, wide),
        call_ensures(
            GlyphCacheRequest::<D, W>::new_glyph_cache::<T, F, E>,
            (before, glyph_cache, &eval),
            after,
        ),
    ensures
        glyph_cache matches Err(error) ==> (after matches Err(Error::Font(found)) && found
            == error),
        glyph_cache matches Ok((cache, metrics)) ==> {
            &&& after matches Ok((found, next))
            &&& found == cache
            &&& next.config == before.config
            &&& next.dpr == before.dpr
            &&& next.viewport_size == before.viewport_size
            &&& is_cell_length(
                wide(metrics.average_advance) + before.config.font.offset.x as real,
                single(next.cell_width),
            )
            &&& is_cell_length(
                wide(metrics.line_height) + before.config.font.offset.y as real,
                single(next.cell_height),
            )
        },
{
    if let (Ok((_, metrics)), Ok((_, next))) = (glyph_cache, after) {
        cell_size_lengths(
            eval,
            before.config.font.offset,
            metrics,
            (next.cell_width, next.cell_height),
            single,
            wide,
        );
    }
}

/// The smallest difference between two lengths that counts: two to the power of -52.
pub open spec fn smallest_difference() -> real {
    1real / 4503599627370496real
}

/// A size is called for, and the window's contents differ from it on one axis or both.
pub open spec fn is_wrong_size<W>(
    dimensions: Option<PhysicalSize<W>>,
    inner_size: PhysicalSize<W>,
    wide: spec_fn(W) -> real,
) -> bool {
    dimensions matches Some(size) && {
        ||| wide(inner_size.width) - wide(size.width) >= smallest_difference()
        ||| wide(size.width) - wide(inner_size.width) >= smallest_difference()
        ||| wide(inner_size.height) - wide(size.height) >= smallest_difference()
        ||| wide(size.height) - wide(inner_size.height) >= smallest_difference()
    }
}

/// The startup mode is one that is applied on the platform.
pub open spec fn mode_is_applied(platform: Platform, mode: StartupMode) -> bool {
    ||| mode is Fullscreen
    ||| mode is SimpleFullscreen && platform is MacOs
    ||| mode is Maximized && platform is Other
}

/// A window of the wrong size is given the size called for; any other keeps its size.
pub proof fn the_size_changes_where_it_is_wrong<W, P: Fn(Condition<W>) -> bool>(
    decide: P,
    dimensions: Option<PhysicalSize<W>>,
    inner_size: PhysicalSize<W>,
    change: Option<PhysicalSize<W>>,
    wide: spec_fn(W) -> real,
)
    requires
        decides_exactly(decide, wide),
        is_size_change(decide, dimensions, inner_size, change),
    ensures
        is_wrong_size(dimensions, inner_size, wide) ==> change == dimensions,
        !is_wrong_size(dimensions, inner_size, wide) ==> change is None,
{
    if let Some(size) = dimensions {
        let same_width = same_length(inner_size.width, size.width);
        let same_height = same_length(inner_size.height, size.height);
        assert(same_width.exact(wide) <==> (-epsilon() < wide(inner_size.width) - wide(size.width)
            < epsilon())) by {
            reveal_with_fuel(Wide::exact, 3);
        }
        assert(same_height.exact(wide) <==> (-epsilon() < wide(inner_size.height) - wide(
            size.height,
        ) < epsilon())) by {
            reveal_with_fuel(Wide::exact, 3);
        }
        assert(forall|answer: bool|
            call_ensures(decide, (same_width,), answer) ==> answer == same_width.exact(wide));
        assert(forall|answer: bool|
            call_ensures(decide, (same_height,), answer) ==> answer == same_height.exact(wide));
    }
}

/// The display comes up with the configured font size, the cells of the font, and the layout of its
/// window: the size called for where the window had another, and else the size it was opened with.
/// Space that fills no whole cell goes to the padding where that is configured and no size is called
/// for.
pub proof fn the_display_comes_up_laid_out<
    D: Copy,
    F: Copy,
    W: Copy,
    E: Fn(Expr<F, W>) -> F,
    P: Fn(Condition<W>) -> bool,
>(
    eval: E,
    decide: P,
    before: SizeRequest<D, F, W>,
    dimensions: Option<PhysicalSize<W>>,
    inner_size: PhysicalSize<W>,
    platform: Platform,
    started: (Display<F, W>, Vec<StartupEffect<F, W>>),
    single: spec_fn(F) -> real,
    wide: spec_fn(W) -> real,
)
    requires
        is_exact(eval, single, wide),
        decides_exactly(decide, wide),
        single(before.cell_width) > 0real,
        single(before.cell_height) > 0real,
        call_ensures(
            SizeRequest::<D, F, W>::sized::<E, P>,
            (before, dimensions, inner_size, platform, &eval, &decide),
            started,
        ),
    ensures
        ({
            let info = started.0.size_info;
            let config = before.config;
            let wrong = is_wrong_size(dimensions, inner_size, wide);
            let viewport = if wrong {
                dimensions->0
            } else {
                before.viewport_size
            };
            let dynamic = config.dynamic_padding && dimensions is None;
            &&& started.0.font_size == config.font.size
            &&& info.cell_width == before.cell_width
            &&& info.cell_height == before.cell_height
            &&& info.dpr == before.dpr
            &&& single(info.width) == wide(viewport.width)
            &&& single(info.height) == wide(viewport.height)
            &&& is_padding_length(
                config.padding.x as real * wide(before.dpr),
                dynamic,
                wide(viewport.width),
                single(before.cell_width),
                single(info.padding_x),
            )
            &&& is_padding_length(
                config.padding.y as real * wide(before.dpr),
                dynamic,
                wide(viewport.height),
                single(before.cell_height),
                single(info.padding_y),
            )
        }),
{
    let info = started.0.size_info;
    let config = before.config;
    let dynamic = dimensions is None && config.dynamic_padding;
    let change = choose|change: Option<PhysicalSize<W>>|
        #![trigger is_size_change(decide, dimensions, inner_size, change)]
        {
            &&& is_size_change(decide, dimensions, inner_size, change)
            &&& is_startup_size_info(
                eval,
                config,
                before.dpr,
                match change {
                    Some(size) => size,
                    None => before.viewport_size,
                },
                dynamic,
                info,
            )
            &&& started.1@ == startup_effects(config, platform, change, info)
        };
    the_size_changes_where_it_is_wrong(decide, dimensions, inner_size, change, wide);
    let viewport = match change {
        Some(size) => size,
        None => before.viewport_size,
    };
    assert(call_ensures(eval, (narrow_expr::<F, W>(viewport.width),), info.width));
    assert(call_ensures(eval, (narrow_expr::<F, W>(viewport.height),), info.height));
    narrowing_keeps_the_value(eval, viewport.width, info.width, single, wide);
    narrowing_keeps_the_value(eval, viewport.height, info.height, single, wide);
    window_padding_lengths(
        eval,
        config.padding.x,
        before.dpr,
        dynamic,
        info.width,
        info.cell_width,
        info.padding_x,
        single,
        wide,
    );
    window_padding_lengths(
        eval,
        config.padding.y,
        before.dpr,
        dynamic,
        info.height,
        info.cell_height,
        info.padding_y,
        single,
        wide,
    );
}

/// The last thing that startup does is to apply the startup mode, once, where it applies: full
/// screen everywhere, simple full screen on macOS, and maximized where the system is neither macOS
/// nor Windows. The window is placed right after it is shown, once, where a position is configured.
pub proof fn the_mode_is_applied_last<D, F, W>(
    config: Config<D>,
    platform: Platform,
    size_change: Option<PhysicalSize<W>>,
    size_info: SizeInfo<F, W>,
)
    ensures
        ({
            let effects = startup_effects(config, platform, size_change, size_info);
            let last = effects.len() - 1;
            let mode = config.startup_mode;
            &&& mode is Fullscreen ==> effects[last] == StartupEffect::<F, W>::SetFullscreen {
                fullscreen: true,
            }
            &&& mode is SimpleFullscreen && platform is MacOs ==> effects[last] == StartupEffect::<
                F,
                W,
            >::SetSimpleFullscreen { simple_fullscreen: true }
            &&& mode is Maximized && platform is Other ==> effects[last] == StartupEffect::<
                F,
                W,
            >::SetMaximized { maximized: true }
            &&& forall|i: int|
                0 <= i < effects.len() ==> {
                    &&& (#[trigger] effects[i] is SetFullscreen) <==> (mode is Fullscreen && i
                        == last)
                    &&& (effects[i] is SetSimpleFullscreen) <==> (mode is SimpleFullscreen
                        && platform is MacOs && i == last)
                    &&& (effects[i] is SetMaximized) <==> (mode is Maximized && platform is Other
                        && i == last)
                    &&& effects[i] is SetOuterPosition ==> i > 0 && effects[i - 1] is SetVisible
                        && config.position is Some
                    &&& (effects[i] is SetVisible && config.position is Some) ==> i + 1
                        < effects.len() && effects[i + 1] == StartupEffect::<
                        F,
                        W,
                    >::SetOuterPosition { position: config.position->0, dpr: size_info.dpr }
                }
        }),
{
    effects_in_order(config, platform, size_change, size_info);
}

/// The effects of startup, one by one.
#[verifier::spinoff_prover]
proof fn effects_in_order<D, F, W>(
    config: Config<D>,
    platform: Platform,
    size_change: Option<PhysicalSize<W>>,
    size_info: SizeInfo<F, W>,
)
    ensures
        are_effects_in_order(
            config,
            platform,
            size_change,
            size_info,
            startup_effects(config, platform, size_change, size_info),
        ),
{
}

/// `effects` are these and no others: the window is given the size `size_change`, if there is one;
/// the renderer is told the display's size; the background is drawn at that size and brought to the
/// front; the window is shown; it is placed where a position is configured; and the startup mode is
/// applied where it applies.
pub open spec fn are_effects_in_order<D, F, W>(
    config: Config<D>,
    platform: Platform,
    size_change: Option<PhysicalSize<W>>,
    size_info: SizeInfo<F, W>,
    effects: Seq<StartupEffect<F, W>>,
) -> bool {
    let start: int = if size_change is Some {
        1
    } else {
        0
    };
    let end: int = if config.position is Some {
        start + 5
    } else {
        start + 4
    };
    let mode = config.startup_mode;
    &&& effects.len() == end + if mode_is_applied(platform, mode) {
        1int
    } else {
        0
    }
    &&& size_change matches Some(size) ==> effects[0] == StartupEffect::<F, W>::SetInnerSize {
        size,
        dpr: size_info.dpr,
    }
    &&& effects[start] == StartupEffect::<F, W>::ResizeRenderer { size_info }
    &&& effects[start + 1] == StartupEffect::<F, W>::Clear { size_info, color: config.background }
    &&& effects[start + 2] == StartupEffect::<F, W>::SwapBuffers
    &&& effects[start + 3] == StartupEffect::<F, W>::SetVisible { visible: true }
    &&& config.position matches Some(position) ==> effects[start + 4] == StartupEffect::<
        F,
        W,
    >::SetOuterPosition { position, dpr: size_info.dpr }
    &&& mode is Fullscreen ==> effects[end] == StartupEffect::<F, W>::SetFullscreen {
        fullscreen: true,
    }
    &&& mode is SimpleFullscreen && platform is MacOs ==> effects[end] == StartupEffect::<
        F,
        W,
    >::SetSimpleFullscreen { simple_fullscreen: true }
    &&& mode is Maximized && platform is Other ==> effects[end] == StartupEffect::<
        F,
        W,
    >::SetMaximized { maximized: true }
}

/// What startup does to the window and the renderer, in order, at the size that the display comes up
/// with. The window's size is changed only where it is wrong.
pub proof fn startup_shows_the_window_in_order<
    D: Copy,
    F: Copy,
    W: Copy,
    E: Fn(Expr<F, W>) -> F,
    P: Fn(Condition<W>) -> bool,
>(
    eval: E,
    decide: P,
    before: SizeRequest<D, F, W>,
    dimensions: Option<PhysicalSize<W>>,
    inner_size: PhysicalSize<W>,
    platform: Platform,
    started: (Display<F, W>, Vec<StartupEffect<F, W>>),
    wide: spec_fn(W) -> real,
)
    requires
        decides_exactly(decide, wide),
        call_ensures(
            SizeRequest::<D, F, W>::sized::<E, P>,
            (before, dimensions, inner_size, platform, &eval, &decide),
            started,
        ),
    ensures
        are_effects_in_order(
            before.config,
            platform,
            if is_wrong_size(dimensions, inner_size, wide) {
                dimensions
            } else {
                None
            },
            started.0.size_info,
            started.1@,
        ),
{
    let info = started.0.size_info;
    let config = before.config;
    let change = choose|change: Option<PhysicalSize<W>>|
        #![trigger is_size_change(decide, dimensions, inner_size, change)]
        {
            &&& is_size_change(decide, dimensions, inner_size, change)
            &&& is_startup_size_info(
                eval,
                config,
                before.dpr,
                match change {
                    Some(size) => size,
                    None => before.viewport_size,
                },
                dimensions is None && config.dynamic_padding,
                info,
            )
            &&& started.1@ == startup_effects(config, platform, change, info)
        };
    the_size_changes_where_it_is_wrong(decide, dimensions, inner_size, change, wide);
    effects_in_order(config, platform, change, info);
}

} // verus!
