//! How the display comes up.
//!
//! Startup alternates between this module and the libraries that load fonts, open the window and
//! drive the GPU. `Display::new` begins it. Each stage says in its fields what the caller is to ask
//! those libraries for, and has one method, which takes the answer and leads to the next stage. The
//! last stage leads to the display, and to what is left to be done to the window and the renderer.

use vstd::prelude::*;

use crate::arithmetic::{decides, decides_all, epsilon, evaluates, total, Condition, Expr, Wide};
use crate::config::{Config, Platform, Position, Rgb, StartupMode};
use crate::display::Display;
use crate::error::{Error, FontError, RenderError, WindowError};
use crate::font::Metrics;
use crate::size_info::{
    compute_cell_size, is_cell_size, is_window_padding, narrow_expr, window_padding, PhysicalSize,
    SizeInfo,
};

verus! {

/// The window's pixel ratio has been guessed. The caller measures the configured font at it.
#[derive(Debug)]
#[non_exhaustive]
pub struct Estimate<D, W> {
    /// The configuration.
    pub config: Config<D>,
    /// The guess at the number of physical pixels in a logical one.
    pub dpr: W,
}

/// The size of cells has been guessed. The caller works out the window size that the configured
/// number of columns and lines calls for, if one is configured.
#[derive(Debug)]
#[non_exhaustive]
pub struct CellEstimate<D, F, W> {
    /// The configuration.
    pub config: Config<D>,
    /// The guess at the number of physical pixels in a logical one.
    pub dpr: W,
    /// The guess at the width of a cell.
    pub cell_width: F,
    /// The guess at the height of a cell.
    pub cell_height: F,
}

/// The caller opens a window, of a size if there is one here.
#[derive(Debug)]
#[non_exhaustive]
pub struct WindowRequest<D, W> {
    /// The configuration.
    pub config: Config<D>,
    /// The guess at the window's size.
    pub size: Option<PhysicalSize<W>>,
    /// The guess at the number of physical pixels in a logical one, by which the size is converted.
    pub dpr: W,
}

/// What a newly opened window says of itself.
#[derive(Debug)]
pub struct WindowProperties<W> {
    /// The number of physical pixels in a logical one.
    pub dpr: W,
    /// The size of the window's contents.
    pub inner_size: PhysicalSize<W>,
}

/// The window is open. The caller creates the renderer.
#[derive(Debug)]
#[non_exhaustive]
pub struct RendererRequest<D, W> {
    /// The configuration.
    pub config: Config<D>,
    /// The number of physical pixels in a logical one.
    pub dpr: W,
    /// The size of the window's contents.
    pub viewport_size: PhysicalSize<W>,
}

/// The renderer is there. The caller creates the font rasterizer, for a pixel ratio, and with thin
/// strokes or without.
#[derive(Debug)]
#[non_exhaustive]
pub struct RasterizerRequest<D, F, W> {
    /// The configuration.
    pub config: Config<D>,
    /// The pixel ratio that the rasterizer is created for.
    pub rasterizer_dpr: F,
    /// Whether the rasterizer is created to draw thin strokes.
    pub use_thin_strokes: bool,
    /// The number of physical pixels in a logical one.
    pub dpr: W,
    /// The size of the window's contents.
    pub viewport_size: PhysicalSize<W>,
}

/// The rasterizer is there. The caller fills the glyph cache from the configured font and reads the
/// font's metrics from it.
#[derive(Debug)]
#[non_exhaustive]
pub struct GlyphCacheRequest<D, W> {
    /// The configuration.
    pub config: Config<D>,
    /// The number of physical pixels in a logical one.
    pub dpr: W,
    /// The size of the window's contents.
    pub viewport_size: PhysicalSize<W>,
}

/// The size of cells is known. The caller works out once more the window size that the configured
/// number of columns and lines calls for, if one is configured, and reads the size of the window's
/// contents.
#[derive(Debug)]
#[non_exhaustive]
pub struct SizeRequest<D, F, W> {
    /// The configuration.
    pub config: Config<D>,
    /// The number of physical pixels in a logical one.
    pub dpr: W,
    /// The size of the window's contents when it was opened.
    pub viewport_size: PhysicalSize<W>,
    /// The width of a cell.
    pub cell_width: F,
    /// The height of a cell.
    pub cell_height: F,
}

/// Something to be done to the window or the renderer.
#[derive(Debug)]
pub enum StartupEffect<F, W> {
    /// Give the window's contents a size, converted by a pixel ratio.
    SetInnerSize { size: PhysicalSize<W>, dpr: W },
    /// Tell the renderer the size to project to.
    ResizeRenderer { size_info: SizeInfo<F, W> },
    /// Fill the screen with a color.
    Clear { size_info: SizeInfo<F, W>, color: Rgb },
    /// Show what has been drawn.
    SwapBuffers,
    /// Show or hide the window.
    SetVisible { visible: bool },
    /// Move the window, to a position converted by a pixel ratio.
    SetOuterPosition { position: Position, dpr: W },
    /// Enter or leave full screen mode.
    SetFullscreen { fullscreen: bool },
    /// Enter or leave macOS's simple full screen mode.
    SetSimpleFullscreen { simple_fullscreen: bool },
    /// Maximize the window, or undo it.
    SetMaximized { maximized: bool },
}

/// The test that two lengths are the same but for rounding.
#[verifier::allow_in_spec]
pub fn same_length<W>(a: W, b: W) -> Condition<W>
    returns
        Condition::BelowEpsilon(Wide::Value(a).minus(Wide::Value(b)).abs()),
{
    Condition::BelowEpsilon(Wide::Value(a).minus(Wide::Value(b)).abs())
}

/// `change` is the size that a window of size `inner_size` is to be given so that it has the size
/// `dimensions`, if there is one: none where it has that size.
pub open spec fn is_size_change<W, P: Fn(Condition<W>) -> bool>(
    decide: P,
    dimensions: Option<PhysicalSize<W>>,
    inner_size: PhysicalSize<W>,
    change: Option<PhysicalSize<W>>,
) -> bool {
    match dimensions {
        None => change is None,
        Some(size) => {
            let same_width = same_length(inner_size.width, size.width);
            let same_height = same_length(inner_size.height, size.height);
            ||| {
                &&& change is None
                &&& decides(decide, same_width, true)
                &&& decides(decide, same_height, true)
            }
            ||| {
                &&& change == Some(size)
                &&& decides(decide, same_width, false) || decides(decide, same_height, false)
            }
        },
    }
}

/// `info` is the size of a display that starts with the contents of its window at `viewport_size`.
pub open spec fn is_startup_size_info<D, F: Copy, W, E: Fn(Expr<F, W>) -> F>(
    eval: E,
    config: Config<D>,
    dpr: W,
    viewport_size: PhysicalSize<W>,
    dynamic_padding: bool,
    info: SizeInfo<F, W>,
) -> bool {
    &&& info.dpr == dpr
    &&& evaluates(eval, narrow_expr(viewport_size.width), info.width)
    &&& evaluates(eval, narrow_expr(viewport_size.height), info.height)
    &&& is_window_padding(
        eval,
        config.padding.x,
        dpr,
        dynamic_padding,
        info.width,
        info.cell_width,
        info.padding_x,
    )
    &&& is_window_padding(
        eval,
        config.padding.y,
        dpr,
        dynamic_padding,
        info.height,
        info.cell_height,
        info.padding_y,
    )
}

/// What the startup mode asks of the window on a platform.
pub open spec fn startup_mode_effects<F, W>(platform: Platform, mode: StartupMode) -> Seq<
    StartupEffect<F, W>,
> {
    match (mode, platform) {
        (StartupMode::Fullscreen, _) => seq![StartupEffect::SetFullscreen { fullscreen: true }],
        (StartupMode::SimpleFullscreen, Platform::MacOs) => seq![
            StartupEffect::SetSimpleFullscreen { simple_fullscreen: true },
        ],
        (StartupMode::Maximized, Platform::Other) => seq![
            StartupEffect::SetMaximized { maximized: true },
        ],
        _ => seq![],
    }
}

/// What is done to the window and the renderer once the sizes are settled, in order. `size_change`
/// is the size that the window's contents are given, if any.
pub open spec fn startup_effects<D, F, W>(
    config: Config<D>,
    platform: Platform,
    size_change: Option<PhysicalSize<W>>,
    size_info: SizeInfo<F, W>,
) -> Seq<StartupEffect<F, W>> {
    let resized = match size_change {
        Some(size) => seq![StartupEffect::SetInnerSize { size, dpr: size_info.dpr }],
        None => seq![],
    };
    let shown = seq![
        StartupEffect::ResizeRenderer { size_info },
        StartupEffect::Clear { size_info, color: config.background },
        StartupEffect::SwapBuffers,
        StartupEffect::SetVisible { visible: true },
    ];
    let positioned = match config.position {
        Some(position) => seq![StartupEffect::SetOuterPosition { position, dpr: size_info.dpr }],
        None => seq![],
    };
    resized + shown + positioned + startup_mode_effects(platform, config.startup_mode)
}

impl<F: Copy, W: Copy> Display<F, W> {
    /// Begins startup. The pixel ratio is guessed from the first monitor, if there is one; else it
    /// is taken to be one.
    pub fn new<D, E: Fn(Wide<W>) -> W>(
        config: Config<D>,
        first_monitor_dpr: Option<W>,
        eval: &E,
    ) -> (stage: Estimate<D, W>)
        requires
            forall|e: Wide<W>| call_requires(*eval, (e,)),
        ensures
            stage.config == config,
            match first_monitor_dpr {
                Some(dpr) => stage.dpr == dpr,
                None => call_ensures(*eval, (Wide::Integer(1),), stage.dpr),
            },
    {
        let dpr = match first_monitor_dpr {
            Some(dpr) => dpr,
            None => eval(Wide::Integer(1)),
        };
        Estimate { config, dpr }
    }
}

impl<D: Copy, W: Copy> Estimate<D, W> {
    /// Guesses the size of cells from the font's metrics.
    pub fn measured<F, E: Fn(Expr<F, W>) -> F>(
        self,
        metrics: Result<Metrics<W>, FontError>,
        eval: &E,
    ) -> (stage: Result<CellEstimate<D, F, W>, Error>)
        requires
            total(*eval),
        ensures
            match metrics {
                Err(error) => stage == Err::<CellEstimate<D, F, W>, Error>(Error::Font(error)),
                Ok(metrics) => {
                    &&& stage matches Ok(next)
                    &&& next.config == self.config
                    &&& next.dpr == self.dpr
                    &&& is_cell_size(
                        *eval,
                        self.config.font.offset,
                        metrics,
                        (next.cell_width, next.cell_height),
                    )
                },
            },
    {
        match metrics {
            Err(error) => Err(Error::from(error)),
            Ok(metrics) => {
                let (cell_width, cell_height) = compute_cell_size(
                    self.config.font.offset,
                    metrics,
                    eval,
                );
                Ok(CellEstimate { config: self.config, dpr: self.dpr, cell_width, cell_height })
            },
        }
    }
}

impl<D: Copy, F: Copy, W: Copy> CellEstimate<D, F, W> {
    /// Asks for a window of the size that the configured number of columns and lines calls for, if
    /// one is configured.
    pub fn dimensioned(self, dimensions: Option<PhysicalSize<W>>) -> (stage: WindowRequest<D, W>)
        ensures
            stage == (WindowRequest { config: self.config, size: dimensions, dpr: self.dpr }),
    {
        WindowRequest { config: self.config, size: dimensions, dpr: self.dpr }
    }
}

impl<D: Copy, W: Copy> WindowRequest<D, W> {
    /// Goes on with the window that was opened, and hands it back. From here on its own pixel ratio
    /// counts.
    pub fn opened<T>(self, window: Result<(T, WindowProperties<W>), WindowError>) -> (stage: Result<
        (T, RendererRequest<D, W>),
        Error,
    >)
        ensures
            stage == match window {
                Err(error) => Err(Error::Window(error)),
                Ok((window, properties)) => Ok(
                    (
                        window,
                        RendererRequest {
                            config: self.config,
                            dpr: properties.dpr,
                            viewport_size: properties.inner_size,
                        },
                    ),
                ),
            },
    {
        match window {
            Err(error) => Err(Error::from(error)),
            Ok((window, properties)) => {
                let next = RendererRequest {
                    config: self.config,
                    dpr: properties.dpr,
                    viewport_size: properties.inner_size,
                };
                Ok((window, next))
            },
        }
    }
}

impl<D: Copy, W: Copy> RendererRequest<D, W> {
    /// Goes on with the renderer, and hands it back. The rasterizer is to be created for the
    /// window's own pixel ratio, with thin strokes where the configuration says so.
    pub fn created<T, F, E: Fn(Expr<F, W>) -> F>(
        self,
        renderer: Result<T, RenderError>,
        eval: &E,
    ) -> (stage: Result<(T, RasterizerRequest<D, F, W>), Error>)
        requires
            total(*eval),
        ensures
            match renderer {
                Err(error) => stage == Err::<(T, RasterizerRequest<D, F, W>), Error>(
                    Error::Render(error),
                ),
                Ok(renderer) => {
                    &&& stage matches Ok((handed_back, next))
                    &&& handed_back == renderer
                    &&& next.config == self.config
                    &&& next.dpr == self.dpr
                    &&& next.viewport_size == self.viewport_size
                    &&& next.use_thin_strokes == self.config.font.use_thin_strokes
                    &&& evaluates(*eval, narrow_expr(self.dpr), next.rasterizer_dpr)
                },
            },
    {
        match renderer {
            Err(error) => Err(Error::from(error)),
            Ok(renderer) => {
                let next = RasterizerRequest {
                    config: self.config,
                    rasterizer_dpr: eval(narrow_expr(self.dpr)),
                    use_thin_strokes: self.config.font.use_thin_strokes,
                    dpr: self.dpr,
                    viewport_size: self.viewport_size,
                };
                Ok((renderer, next))
            },
        }
    }
}

impl<D: Copy, F: Copy, W: Copy> RasterizerRequest<D, F, W> {
    /// Goes on with the rasterizer, and hands it back.
    pub fn created<T>(self, rasterizer: Result<T, FontError>) -> (stage: Result<
        (T, GlyphCacheRequest<D, W>),
        Error,
    >)
        ensures
            stage == match rasterizer {
                Err(error) => Err(Error::Font(error)),
                Ok(rasterizer) => Ok(
                    (
                        rasterizer,
                        GlyphCacheRequest {
                            config: self.config,
                            dpr: self.dpr,
                            viewport_size: self.viewport_size,
                        },
                    ),
                ),
            },
    {
        match rasterizer {
            Err(error) => Err(Error::from(error)),
            Ok(rasterizer) => {
                let next = GlyphCacheRequest {
                    config: self.config,
                    dpr: self.dpr,
                    viewport_size: self.viewport_size,
                };
                Ok((rasterizer, next))
            },
        }
    }
}

impl<D: Copy, W: Copy> GlyphCacheRequest<D, W> {
    /// Goes on with a new glyph cache, given with the font's metrics, and hands it back.
    pub fn new_glyph_cache<T, F, E: Fn(Expr<F, W>) -> F>(
        self,
        glyph_cache: Result<(T, Metrics<W>), FontError>,
        eval: &E,
    ) -> (stage: Result<(T, SizeRequest<D, F, W>), Error>)
        requires
            total(*eval),
        ensures
            match glyph_cache {
                Err(error) => stage == Err::<(T, SizeRequest<D, F, W>), Error>(Error::Font(error)),
                Ok((glyph_cache, metrics)) => {
                    &&& stage matches Ok((cache, next))
                    &&& cache == glyph_cache
                    &&& next.config == self.config
                    &&& next.dpr == self.dpr
                    &&& next.viewport_size == self.viewport_size
                    &&& is_cell_size(
                        *eval,
                        self.config.font.offset,
                        metrics,
                        (next.cell_width, next.cell_height),
                    )
                },
            },
    {
        match glyph_cache {
            Err(error) => Err(Error::from(error)),
            Ok((glyph_cache, metrics)) => {
                let (cell_width, cell_height) = compute_cell_size(
                    self.config.font.offset,
                    metrics,
                    eval,
                );
                let next = SizeRequest {
                    config: self.config,
                    dpr: self.dpr,
                    viewport_size: self.viewport_size,
                    cell_width,
                    cell_height,
                };
                Ok((glyph_cache, next))
            },
        }
    }
}

/// The size that a window is to be given so that it has the size `dimensions`, if there is one:
/// none where it has that size.
fn size_change<W: Copy, P: Fn(Condition<W>) -> bool>(
    dimensions: Option<PhysicalSize<W>>,
    inner_size: PhysicalSize<W>,
    decide: &P,
) -> (change: Option<PhysicalSize<W>>)
    requires
        decides_all(*decide),
    ensures
        is_size_change(*decide, dimensions, inner_size, change),
{
    match dimensions {
        None => None,
        Some(size) => {
            let same_width = decide(same_length(inner_size.width, size.width));
            if !same_width {
                return Some(size);
            }
            let same_height = decide(same_length(inner_size.height, size.height));
            if !same_height {
                return Some(size);
            }
            None
        },
    }
}

/// Adds to `effects` what the startup mode asks of the window.
fn push_startup_mode_effects<F, W>(
    effects: &mut Vec<StartupEffect<F, W>>,
    platform: Platform,
    mode: StartupMode,
)
    ensures
        final(effects)@ == old(effects)@ + startup_mode_effects::<F, W>(platform, mode),
{
    match mode {
        StartupMode::Fullscreen => {
            effects.push(StartupEffect::SetFullscreen { fullscreen: true });
        },
        StartupMode::SimpleFullscreen => {
            if let Platform::MacOs = platform {
                effects.push(StartupEffect::SetSimpleFullscreen { simple_fullscreen: true });
            }
        },
        StartupMode::Maximized => {
            if let Platform::Other = platform {
                effects.push(StartupEffect::SetMaximized { maximized: true });
            }
        },
        StartupMode::Windowed => {},
    }
}

impl<D: Copy, F: Copy, W: Copy> SizeRequest<D, F, W> {
    /// Ends startup, given the window size that the configured number of columns and lines calls
    /// for, if one is configured, and the size of the window's contents. Gives the display, and what
    /// is to be done to the window and the renderer, in order.
    ///
    /// A window that does not have the size called for is given it. Without such a size, space that
    /// fills no whole cell goes to the padding, where the configuration says so.
    pub fn sized<E: Fn(Expr<F, W>) -> F, P: Fn(Condition<W>) -> bool>(
        self,
        dimensions: Option<PhysicalSize<W>>,
        inner_size: PhysicalSize<W>,
        platform: Platform,
        eval: &E,
        decide: &P,
    ) -> (started: (Display<F, W>, Vec<StartupEffect<F, W>>))
        requires
            total(*eval),
            decides_all(*decide),
        ensures
            started.0.font_size == self.config.font.size,
            started.0.size_info.cell_width == self.cell_width,
            started.0.size_info.cell_height == self.cell_height,
            exists|change: Option<PhysicalSize<W>>|
                #![trigger is_size_change(*decide, dimensions, inner_size, change)]
                {
                    &&& is_size_change(*decide, dimensions, inner_size, change)
                    &&& is_startup_size_info(
                        *eval,
                        self.config,
                        self.dpr,
                        match change {
                            Some(size) => size,
                            None => self.viewport_size,
                        },
                        dimensions is None && self.config.dynamic_padding,
                        started.0.size_info,
                    )
                    &&& started.1@ == startup_effects(
                        self.config,
                        platform,
                        change,
                        started.0.size_info,
                    )
                },
    {
        let mut effects: Vec<StartupEffect<F, W>> = Vec::new();
        let change = size_change(dimensions, inner_size, decide);
        let viewport_size = match change {
            Some(size) => {
                effects.push(StartupEffect::SetInnerSize { size, dpr: self.dpr });
                size
            },
            None => self.viewport_size,
        };
        let dynamic = dimensions.is_none() && self.config.dynamic_padding;
        let width = eval(narrow_expr(viewport_size.width));
        let height = eval(narrow_expr(viewport_size.height));
        let padding_x = window_padding(
            self.config.padding.x,
            self.dpr,
            dynamic,
            width,
            self.cell_width,
            eval,
        );
        let padding_y = window_padding(
            self.config.padding.y,
            self.dpr,
            dynamic,
            height,
            self.cell_height,
            eval,
        );
        let size_info = SizeInfo {
            width,
            height,
            cell_width: self.cell_width,
            cell_height: self.cell_height,
            padding_x,
            padding_y,
            dpr: self.dpr,
        };
        effects.push(StartupEffect::ResizeRenderer { size_info });
        effects.push(StartupEffect::Clear { size_info, color: self.config.background });
        effects.push(StartupEffect::SwapBuffers);
        effects.push(StartupEffect::SetVisible { visible: true });
        if let Some(position) = self.config.position {
            effects.push(StartupEffect::SetOuterPosition { position, dpr: self.dpr });
        }
        push_startup_mode_effects(&mut effects, platform, self.config.startup_mode);
        assert(effects@ =~= startup_effects(self.config, platform, change, size_info));
        (Display { size_info, font_size: self.config.font.size }, effects)
    }
}

/// The window is shown once, and by then the renderer knows its size, and the background color has
/// been drawn and brought to the front.
pub proof fn the_window_is_shown_after_its_background<D, F, W>(
    config: Config<D>,
    platform: Platform,
    size_change: Option<PhysicalSize<W>>,
    size_info: SizeInfo<F, W>,
)
    ensures
        ({
            let effects = startup_effects(config, platform, size_change, size_info);
            exists|shown: int|
                {
                    &&& 3 <= shown < effects.len()
                    &&& #[trigger] effects[shown] == StartupEffect::<F, W>::SetVisible {
                        visible: true,
                    }
                    &&& effects[shown - 1] == StartupEffect::<F, W>::SwapBuffers
                    &&& effects[shown - 2] == (StartupEffect::Clear {
                        size_info,
                        color: config.background,
                    })
                    &&& effects[shown - 3] == (StartupEffect::ResizeRenderer { size_info })
                    &&& forall|i: int|
                        0 <= i < effects.len() && #[trigger] effects[i] is SetVisible ==> i == shown
                }
        }),
{
    let effects = startup_effects(config, platform, size_change, size_info);
    let shown: int = if size_change is Some {
        4
    } else {
        3
    };
    assert(effects[shown] == StartupEffect::<F, W>::SetVisible { visible: true });
}

/// A window has the size called for, but for rounding.
pub open spec fn has_size<W>(
    inner_size: PhysicalSize<W>,
    size: PhysicalSize<W>,
    wide: spec_fn(W) -> real,
) -> bool {
    let width = wide(inner_size.width) - wide(size.width);
    let height = wide(inner_size.height) - wide(size.height);
    -epsilon() < width < epsilon() && -epsilon() < height < epsilon()
}

/// A window that has the size called for, if one is, is left alone, and one that has not is given
/// that size, before anything else is done. This holds where the window's size is compared without
/// rounding.
pub proof fn only_a_wrong_size_is_corrected<D, F, W, P: Fn(Condition<W>) -> bool>(
    decide: P,
    config: Config<D>,
    platform: Platform,
    dimensions: Option<PhysicalSize<W>>,
    inner_size: PhysicalSize<W>,
    size_change: Option<PhysicalSize<W>>,
    size_info: SizeInfo<F, W>,
    wide: spec_fn(W) -> real,
)
    requires
        is_size_change(decide, dimensions, inner_size, size_change),
        forall|a: W, b: W, same: bool| #[trigger]
            decides(decide, same_length(a, b), same) ==> same == same_length(a, b).exact(wide),
    ensures
        ({
            let effects = startup_effects(config, platform, size_change, size_info);
            let wrong = dimensions matches Some(size) && !has_size(inner_size, size, wide);
            &&& wrong ==> effects[0] == StartupEffect::<F, W>::SetInnerSize {
                size: dimensions->0,
                dpr: size_info.dpr,
            }
            &&& forall|i: int|
                0 <= i < effects.len() ==> ((#[trigger] effects[i] is SetInnerSize) <==> i == 0
                    && wrong)
        }),
{
    reveal_with_fuel(Wide::exact, 3);
}

} // verus!
