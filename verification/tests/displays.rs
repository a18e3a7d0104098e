use alacritty_display::arithmetic::{Condition, Expr, Wide};
use alacritty_display::config::{
    Config, Font, Offset, Padding, Platform, Position, Rgb, StartupMode,
};
use alacritty_display::display::Display;
use alacritty_display::draw::{DrawCommand, Grid, Message, Overlay, RenderRect};
use alacritty_display::error::{Error, FontError, RenderError, WindowError};
use alacritty_display::font::{FontResize, Metrics, Size};
use alacritty_display::resize::{Resize, ResizeStage, ResizeTarget};
use alacritty_display::size_info::{
    compute_cell_size, dynamic_padding, window_padding, PhysicalSize, SizeInfo,
};
use alacritty_display::startup::{
    Estimate, RendererRequest, SizeRequest, StartupEffect, WindowProperties,
};

fn wide(expr: Wide<f64>) -> f64 {
    match expr {
        Wide::Value(x) => x,
        Wide::Integer(n) => f64::from(n),
        Wide::Add(a, b) => wide(*a) + wide(*b),
        Wide::Sub(a, b) => wide(*a) - wide(*b),
        Wide::Abs(a) => wide(*a).abs(),
    }
}

fn single(expr: Expr<f32, f64>) -> f32 {
    match expr {
        Expr::Value(x) => x,
        Expr::Count(n) => n as f32,
        Expr::Narrow(x) => wide(*x) as f32,
        Expr::Add(a, b) => single(*a) + single(*b),
        Expr::Sub(a, b) => single(*a) - single(*b),
        Expr::Mul(a, b) => single(*a) * single(*b),
        Expr::Div(a, b) => single(*a) / single(*b),
        Expr::Rem(a, b) => single(*a) % single(*b),
        Expr::Floor(a) => single(*a).floor(),
        Expr::Max(a, b) => f32::max(single(*a), single(*b)),
    }
}

fn decide(condition: Condition<f64>) -> bool {
    match condition {
        Condition::BelowEpsilon(x) => wide(x) < f64::EPSILON,
        Condition::NonZero(x) => wide(x) != 0.,
    }
}

const BACKGROUND: Rgb = Rgb { r: 1, g: 2, b: 3 };
const BELL: Rgb = Rgb { r: 4, g: 5, b: 6 };
const BAR: Rgb = Rgb { r: 7, g: 8, b: 9 };

fn config() -> Config<&'static str> {
    Config {
        font: Font {
            faces: "monospace",
            size: Size { half_points: 22 },
            offset: Offset { x: 0, y: 0 },
            use_thin_strokes: true,
        },
        padding: Padding { x: 2, y: 3 },
        dynamic_padding: false,
        position: None,
        startup_mode: StartupMode::Windowed,
        background: BACKGROUND,
        visual_bell_color: BELL,
        render_timer: false,
    }
}

fn metrics(average_advance: f64, line_height: f64) -> Metrics<f64> {
    Metrics { average_advance, line_height }
}

fn physical(width: f64, height: f64) -> PhysicalSize<f64> {
    PhysicalSize { width, height }
}

fn display() -> Display<f32, f64> {
    Display {
        size_info: SizeInfo {
            width: 100.,
            height: 206.,
            cell_width: 8.,
            cell_height: 20.,
            padding_x: 2.,
            padding_y: 3.,
            dpr: 1.,
        },
        font_size: Size { half_points: 22 },
    }
}

fn fields(info: &SizeInfo<f32, f64>) -> (f32, f32, f32, f32, f32, f32, f64) {
    (
        info.width,
        info.height,
        info.cell_width,
        info.cell_height,
        info.padding_x,
        info.padding_y,
        info.dpr,
    )
}

#[test]
fn cell_size_is_rounded_down() {
    let offset = Offset { x: 0, y: 0 };
    assert_eq!(compute_cell_size(offset, metrics(8.9, 17.2), &single), (8., 17.));
}

#[test]
fn cell_size_takes_offset() {
    let offset = Offset { x: 2, y: -3 };
    assert_eq!(compute_cell_size(offset, metrics(8.5, 17.25), &single), (10., 14.));
}

#[test]
fn cell_size_is_at_least_one_pixel() {
    let offset = Offset { x: -20, y: -20 };
    assert_eq!(compute_cell_size(offset, metrics(8.5, 20.5), &single), (1., 1.));
}

#[test]
fn cell_axes_do_not_mix() {
    let tall = compute_cell_size(Offset { x: 1, y: 9 }, metrics(8.5, 40.), &single);
    let flat = compute_cell_size(Offset { x: 1, y: -2 }, metrics(8.5, 12.), &single);
    assert_eq!((tall, flat), ((9., 49.), (9., 10.)));
}

#[test]
fn larger_font_has_no_smaller_cells() {
    let small = compute_cell_size(Offset { x: 3, y: 0 }, metrics(5.5, 10.9), &single);
    let large = compute_cell_size(Offset { x: 0, y: 1 }, metrics(8.75, 10.), &single);
    assert_eq!((small, large), ((8., 10.), (8., 11.)));
}

#[test]
fn rounding_keeps_cells_in_order() {
    let offset = Offset { x: 0, y: 0 };
    let small = compute_cell_size(offset, metrics(8.999_999_9, 16_777_216.4), &single);
    let large = compute_cell_size(offset, metrics(9., 16_777_216.9), &single);
    assert_eq!((small, large), ((9., 16_777_216.), (9., 16_777_216.)));
}

#[test]
fn padding_takes_half_of_the_rest() {
    assert_eq!(dynamic_padding(2., 101., 10., &single), 5.5);
    assert_eq!(dynamic_padding(0., 100., 10., &single), 0.);
}

#[test]
fn padding_of_tiny_window_shrinks() {
    let padding = dynamic_padding(10., 5., 8., &single);
    assert_eq!(padding, 6.5);
    assert_eq!(5. - 2. * padding, -8.);
}

#[test]
fn window_padding_is_scaled_and_rounded_down() {
    assert_eq!(window_padding(3, 1.5, false, 101., 10., &single), 4.);
    assert_eq!(window_padding(2, 1., true, 101., 10., &single), 5.);
    assert_eq!(window_padding(2, 1., false, 101., 10., &single), 2.);
}

#[test]
fn window_padding_rounds_as_single_precision_does() {
    assert_eq!(window_padding(10, 1.3, false, 100., 10., &single), 13.);
}

#[test]
fn dynamic_padding_keeps_every_cell() {
    let padding = window_padding(2, 1., true, 109., 10., &single);
    assert_eq!(padding, 4.);
    assert_eq!(((109. - 2. * padding) / 10.) as usize, 10);
}

#[test]
fn pixel_ratio_is_guessed_from_first_monitor() {
    let stage: Estimate<&str, f64> = Display::<f32, f64>::new(config(), Some(2.5), &wide);
    assert_eq!(stage.dpr, 2.5);
    let stage: Estimate<&str, f64> = Display::<f32, f64>::new(config(), None, &wide);
    assert_eq!(stage.dpr, 1.);
}

fn start() -> SizeRequest<&'static str, f32, f64> {
    let stage = Display::<f32, f64>::new(config(), Some(1.), &wide);
    let stage = stage.measured(Ok(metrics(7.5, 15.5)), &single).unwrap();
    assert_eq!((stage.cell_width, stage.cell_height), (7., 15.));
    let stage = stage.dimensioned(Some(physical(80., 60.)));
    assert_eq!(stage.size.map(|s| (s.width, s.height)), Some((80., 60.)));
    assert_eq!(stage.dpr, 1.);
    let properties = WindowProperties { dpr: 2., inner_size: physical(160., 120.) };
    let (window, stage) = stage.opened(Ok(("window", properties))).unwrap();
    let (renderer, stage) = stage.created(Ok("renderer"), &single).unwrap();
    assert_eq!((stage.rasterizer_dpr, stage.use_thin_strokes), (2., true));
    let (rasterizer, stage) = stage.created(Ok("rasterizer")).unwrap();
    assert_eq!((window, renderer, rasterizer), ("window", "renderer", "rasterizer"));
    assert_eq!(stage.dpr, 2.);
    assert_eq!(stage.config.font.faces, "monospace");
    let (cache, stage) = stage.new_glyph_cache(Ok(("cache", metrics(15.5, 31.5))), &single).unwrap();
    assert_eq!(cache, "cache");
    stage
}

#[test]
fn right_estimate_leaves_window_alone() {
    let (started, effects) = start().sized(
        Some(physical(160., 120.)),
        physical(160., 120.),
        Platform::Other,
        &single,
        &decide,
    );
    assert_eq!(fields(&started.size_info), (160., 120., 15., 31., 4., 6., 2.));
    assert_eq!(started.font_size, Size { half_points: 22 });
    assert_eq!(effects.len(), 4);
    assert!(matches!(effects[0], StartupEffect::ResizeRenderer { size_info }
        if fields(&size_info) == fields(&started.size_info)));
    assert!(matches!(effects[1], StartupEffect::Clear { color: BACKGROUND, .. }));
    assert!(matches!(effects[2], StartupEffect::SwapBuffers));
    assert!(matches!(effects[3], StartupEffect::SetVisible { visible: true }));
}

#[test]
fn wrong_width_is_corrected_first() {
    let (started, effects) = start().sized(
        Some(physical(170., 120.)),
        physical(160., 120.),
        Platform::Other,
        &single,
        &decide,
    );
    assert_eq!(fields(&started.size_info), (170., 120., 15., 31., 4., 6., 2.));
    assert_eq!(effects.len(), 5);
    assert!(matches!(effects[0], StartupEffect::SetInnerSize { size, dpr }
        if size.width == 170. && size.height == 120. && dpr == 2.));
    assert!(matches!(effects[4], StartupEffect::SetVisible { visible: true }));
}

#[test]
fn wrong_height_is_corrected_first() {
    let (started, effects) = start().sized(
        Some(physical(160., 121.)),
        physical(160., 120.),
        Platform::Other,
        &single,
        &decide,
    );
    assert_eq!(started.size_info.height, 121.);
    assert!(matches!(effects[0], StartupEffect::SetInnerSize { .. }));
}

#[test]
fn configured_size_overrides_dynamic_padding() {
    let mut stage = start();
    stage.config.dynamic_padding = true;
    let (with_size, _) = stage.sized(
        Some(physical(160., 120.)),
        physical(160., 120.),
        Platform::Other,
        &single,
        &decide,
    );
    assert_eq!((with_size.size_info.padding_x, with_size.size_info.padding_y), (4., 6.));
    let mut stage = start();
    stage.config.dynamic_padding = true;
    let (without_size, effects) =
        stage.sized(None, physical(160., 120.), Platform::Other, &single, &decide);
    assert_eq!((without_size.size_info.padding_x, without_size.size_info.padding_y), (5., 13.));
    assert_eq!(effects.len(), 4);
}

#[test]
fn window_is_placed_after_it_is_shown() {
    let mut stage = start();
    stage.config.position = Some(Position { x: -5, y: 9 });
    stage.config.startup_mode = StartupMode::Fullscreen;
    let (_, effects) =
        stage.sized(None, physical(160., 120.), Platform::Windows, &single, &decide);
    assert_eq!(effects.len(), 6);
    assert!(matches!(effects[3], StartupEffect::SetVisible { visible: true }));
    assert!(matches!(effects[4], StartupEffect::SetOuterPosition { position, dpr }
        if position == Position { x: -5, y: 9 } && dpr == 2.));
    assert!(matches!(effects[5], StartupEffect::SetFullscreen { fullscreen: true }));
}

fn last_effect(mode: StartupMode, platform: Platform) -> StartupEffect<f32, f64> {
    let mut stage = start();
    stage.config.startup_mode = mode;
    let (_, mut effects) = stage.sized(None, physical(160., 120.), platform, &single, &decide);
    effects.pop().unwrap()
}

#[test]
fn startup_mode_depends_on_platform() {
    let modes = [StartupMode::SimpleFullscreen, StartupMode::Maximized, StartupMode::Windowed];
    let platforms = [Platform::MacOs, Platform::Windows, Platform::Other];
    for mode in modes {
        for platform in platforms {
            let effect = last_effect(mode, platform);
            match (mode, platform) {
                (StartupMode::SimpleFullscreen, Platform::MacOs) => assert!(matches!(
                    effect,
                    StartupEffect::SetSimpleFullscreen { simple_fullscreen: true }
                )),
                (StartupMode::Maximized, Platform::Other) => {
                    assert!(matches!(effect, StartupEffect::SetMaximized { maximized: true }))
                },
                _ => assert!(matches!(effect, StartupEffect::SetVisible { visible: true })),
            }
        }
    }
}

fn broken_font() -> FontError {
    FontError { description: String::from("font"), message: String::from("broken font") }
}

#[test]
fn missing_font_ends_startup() {
    let stage = Display::<f32, f64>::new(config(), None, &wide);
    let end = stage.measured(Err(broken_font()), &single);
    assert!(matches!(end, Err(Error::Font(e)) if e.message == "broken font"));
}

#[test]
fn missing_window_ends_startup() {
    let stage = Display::<f32, f64>::new(config(), None, &wide);
    let stage = stage.measured(Ok(metrics(7., 15.)), &single).unwrap().dimensioned(None);
    assert!(stage.size.is_none());
    let error = WindowError { description: String::from("w"), message: String::from("no window") };
    let end = stage.opened::<()>(Err(error));
    assert!(matches!(end, Err(Error::Window(e)) if e.message == "no window"));
}

fn opened() -> RendererRequest<&'static str, f64> {
    let stage = Display::<f32, f64>::new(config(), None, &wide);
    let stage = stage.measured(Ok(metrics(7., 15.)), &single).unwrap().dimensioned(None);
    let properties = WindowProperties { dpr: 1., inner_size: physical(80., 60.) };
    stage.opened(Ok(((), properties))).unwrap().1
}

#[test]
fn missing_renderer_ends_startup() {
    let error = RenderError { description: String::from("r"), message: String::from("no GPU") };
    let end = opened().created::<(), f32, _>(Err(error), &single);
    assert!(matches!(end, Err(Error::Render(e)) if e.message == "no GPU"));
}

#[test]
fn missing_rasterizer_ends_startup() {
    let (_, stage) = opened().created(Ok(()), &single).unwrap();
    let end = stage.created::<()>(Err(broken_font()));
    assert!(matches!(end, Err(Error::Font(e)) if e.message == "broken font"));
}

#[test]
fn missing_glyphs_end_startup() {
    let (_, stage) = opened().created(Ok(()), &single).unwrap();
    let (_, stage) = stage.created(Ok(())).unwrap();
    let end = stage.new_glyph_cache::<(), f32, _>(Err(broken_font()), &single);
    assert!(matches!(end, Err(Error::Font(e)) if e.message == "broken font"));
}

fn padding_after_empty_resize(
    dimensions: Option<PhysicalSize<f64>>,
) -> ((f32, f32), (f32, f32)) {
    let mut stage = start();
    stage.config.dynamic_padding = true;
    let config = stage.config;
    let (mut shown, _) =
        stage.sized(dimensions, physical(160., 120.), Platform::Other, &single, &decide);
    let before = (shown.size_info.padding_x, shown.size_info.padding_y);
    match shown.handle_resize(&config, Resize { dimensions: None, font_size: None }) {
        ResizeStage::KeepFont(font) => {
            shown.update_size(font, &config, &single);
        },
        ResizeStage::LoadFont(_) => panic!("the font did not change"),
    }
    (before, (shown.size_info.padding_x, shown.size_info.padding_y))
}

#[test]
fn empty_resize_after_startup_changes_nothing() {
    assert_eq!(padding_after_empty_resize(None), ((5., 13.), (5., 13.)));
}

#[test]
fn empty_resize_makes_up_for_padding_left_out() {
    let size = Some(physical(160., 120.));
    assert_eq!(padding_after_empty_resize(size), ((4., 6.), (5., 13.)));
}

#[test]
fn empty_resize_only_recalculates_padding() {
    let mut shown = display();
    shown.size_info.padding_x = 50.;
    let stage = shown.handle_resize(&config(), Resize { dimensions: None, font_size: None });
    let font = match stage {
        ResizeStage::KeepFont(font) => font,
        ResizeStage::LoadFont(_) => panic!("the font did not change"),
    };
    let settled = shown.update_size(font, &config(), &single);
    assert_eq!(fields(&shown.size_info), fields(&display().size_info));
    assert_eq!(fields(&settled.size_info), fields(&shown.size_info));
    assert_eq!(shown.font_size, Size { half_points: 22 });
}

#[test]
fn font_resize_loads_font_and_resizes_cells() {
    let mut shown = display();
    let pending = Resize {
        dimensions: Some(physical(120., 90.)),
        font_size: Some(FontResize::Delta(Size { half_points: 4 })),
    };
    let request = match shown.handle_resize(&config(), pending) {
        ResizeStage::LoadFont(request) => request,
        ResizeStage::KeepFont(_) => panic!("the font changed"),
    };
    assert_eq!(request.font.size, Size { half_points: 26 });
    assert_eq!(request.font.faces, "monospace");
    assert_eq!(request.font.offset, Offset { x: 0, y: 0 });
    assert!(request.font.use_thin_strokes);
    assert_eq!(request.dpr, 1.);
    assert_eq!(shown.font_size, Size { half_points: 26 });
    assert_eq!(fields(&shown.size_info), fields(&display().size_info));
    let font = shown.update_glyph_cache(request, &config(), metrics(9.5, 24.9), &single);
    assert_eq!(fields(&shown.size_info), (100., 206., 9., 24., 2., 3., 1.));
    let mut dynamic = config();
    dynamic.dynamic_padding = true;
    shown.update_size(font, &dynamic, &single);
    assert_eq!(fields(&shown.size_info), (120., 90., 9., 24., 6., 9., 1.));
}

#[test]
fn font_reset_loads_font_even_if_unchanged() {
    let mut shown = display();
    let pending = Resize { dimensions: None, font_size: Some(FontResize::Reset) };
    assert!(matches!(shown.handle_resize(&config(), pending), ResizeStage::LoadFont(request)
        if request.font.size == Size { half_points: 22 } && request.dimensions.is_none()));
}

fn resized_to(shown: &mut Display<f32, f64>, dimensions: Option<PhysicalSize<f64>>) {
    match shown.handle_resize(&config(), Resize { dimensions, font_size: None }) {
        ResizeStage::KeepFont(font) => {
            shown.update_size(font, &config(), &single);
        },
        ResizeStage::LoadFont(_) => panic!("the font did not change"),
    }
}

#[test]
fn later_resize_supersedes_earlier_one() {
    let mut twice = display();
    resized_to(&mut twice, Some(physical(640., 480.)));
    resized_to(&mut twice, Some(physical(320., 240.)));
    resized_to(&mut twice, None);
    let mut once = display();
    resized_to(&mut once, Some(physical(320., 240.)));
    assert_eq!(fields(&twice.size_info), fields(&once.size_info));
    assert_eq!(once.size_info.width, 320.);
}

fn handled(shown: &mut Display<f32, f64>, pending: Resize<f64>) -> f32 {
    let mut dynamic = config();
    dynamic.dynamic_padding = true;
    let font = match shown.handle_resize(&dynamic, pending) {
        ResizeStage::KeepFont(font) => font,
        ResizeStage::LoadFont(request) => {
            let height = f64::from(request.font.size.half_points);
            shown.update_glyph_cache(request, &dynamic, metrics(height / 2., height), &single)
        },
    };
    let settled = shown.update_size(font, &dynamic, &single);
    match settled.targets(Some(1), &single)[0] {
        ResizeTarget::Pty { size_info } => size_info.height,
        _ => panic!("the program is told first"),
    }
}

#[test]
fn repeated_resize_accumulates_nothing() {
    let mut shown = display();
    let size = Some(physical(641., 483.));
    let pty = handled(&mut shown, Resize { dimensions: size, font_size: Some(FontResize::Reset) });
    let settled = fields(&shown.size_info);
    for dimensions in [None, size, None] {
        assert_eq!(handled(&mut shown, Resize { dimensions, font_size: None }), pty);
        assert_eq!(fields(&shown.size_info), settled);
    }
}

#[test]
fn font_and_window_may_resize_in_any_order() {
    let size = Some(physical(641., 483.));
    let grow = Some(FontResize::Delta(Size { half_points: 7 }));
    let mut at_once = display();
    let pty = handled(&mut at_once, Resize { dimensions: size, font_size: grow });
    let mut font_first = display();
    handled(&mut font_first, Resize { dimensions: None, font_size: grow });
    let font_first_pty = handled(&mut font_first, Resize { dimensions: size, font_size: None });
    let mut window_first = display();
    handled(&mut window_first, Resize { dimensions: size, font_size: None });
    let window_first_pty = handled(&mut window_first, Resize { dimensions: None, font_size: grow });
    assert_eq!((font_first_pty, window_first_pty), (pty, pty));
    assert_eq!(fields(&font_first.size_info), fields(&at_once.size_info));
    assert_eq!(fields(&window_first.size_info), fields(&at_once.size_info));
    assert_eq!(fields(&at_once.size_info), (641., 483., 14., 29., 5., 9., 1.));
    assert_eq!((font_first.font_size, window_first.font_size), (at_once.font_size, at_once.font_size));
}

fn settled(shown: &mut Display<f32, f64>) -> alacritty_display::resize::SettledSize<f32, f64> {
    match shown.handle_resize(&config(), Resize { dimensions: None, font_size: None }) {
        ResizeStage::KeepFont(font) => shown.update_size(font, &config(), &single),
        ResizeStage::LoadFont(_) => panic!("the font did not change"),
    }
}

#[test]
fn message_bar_is_subtracted_from_terminal() {
    let targets = settled(&mut display()).targets(Some(2), &single);
    assert_eq!(targets.len(), 4);
    let terminal = (100., 166., 8., 20., 2., 3., 1.);
    let whole = (100., 206., 8., 20., 2., 3., 1.);
    assert!(matches!(targets[0], ResizeTarget::Pty { size_info } if fields(&size_info) == terminal));
    assert!(
        matches!(targets[1], ResizeTarget::Terminal { size_info } if fields(&size_info) == terminal)
    );
    assert!(
        matches!(targets[2], ResizeTarget::Renderer { size_info } if fields(&size_info) == whole)
    );
    assert!(matches!(targets[3], ResizeTarget::Window { width, height }
        if width == 100. && height == 206.));
}

#[test]
fn without_message_all_are_told_the_same() {
    let targets = settled(&mut display()).targets(None, &single);
    let whole = (100., 206., 8., 20., 2., 3., 1.);
    assert!(matches!(targets[0], ResizeTarget::Pty { size_info } if fields(&size_info) == whole));
    assert!(
        matches!(targets[1], ResizeTarget::Terminal { size_info } if fields(&size_info) == whole)
    );
}

type Scene = (Grid<char, f64>, Overlay);

fn frame(cells: Vec<char>, message: Option<Message>) -> Scene {
    (
        Grid { cells, background: BACKGROUND, visual_bell_intensity: 0. },
        Overlay { lines: 10, message },
    )
}

fn drawn(
    config: &Config<&'static str>,
    platform: Platform,
    scene: Scene,
) -> Vec<DrawCommand<char, f32>> {
    let (mut commands, released) = display().draw(platform, scene.0);
    assert!(matches!(commands.last(), Some(DrawCommand::ReleaseTerminal)));
    assert_eq!(fields(&released.size_info), fields(&display().size_info));
    commands.extend(released.draw(config, scene.1, &single, &decide));
    commands
}

fn message(lines: &[&str]) -> Option<Message> {
    Some(Message { text: lines.iter().map(|line| String::from(*line)).collect(), color: BAR })
}

fn rect_fields(rect: &RenderRect<f32>) -> (f32, f32, f32, f32, Rgb, f32) {
    (rect.x, rect.y, rect.width, rect.height, rect.color, rect.alpha)
}

#[test]
fn plain_frame() {
    let commands =
        drawn(&config(), Platform::Other, frame(vec!['a', 'b'], None));
    assert_eq!(commands.len(), 12);
    assert!(matches!(commands[0], DrawCommand::UpdateImePosition));
    assert!(matches!(commands[1], DrawCommand::ReleaseTerminal));
    assert!(matches!(commands[2], DrawCommand::Clear { color: BACKGROUND }));
    assert!(matches!(commands[3], DrawCommand::StartSample));
    assert!(matches!(commands[4], DrawCommand::UpdateLines { cell: 'a' }));
    assert!(matches!(commands[5], DrawCommand::RenderCell { cell: 'a' }));
    assert!(matches!(commands[6], DrawCommand::UpdateLines { cell: 'b' }));
    assert!(matches!(commands[7], DrawCommand::RenderCell { cell: 'b' }));
    assert!(matches!(commands[8], DrawCommand::StopSample));
    assert!(matches!(commands[9], DrawCommand::CollectLineRects));
    assert!(matches!(commands[10], DrawCommand::DrawRects));
    assert!(matches!(commands[11], DrawCommand::SwapBuffers));
}

#[test]
fn input_method_stays_on_windows() {
    let commands =
        drawn(&config(), Platform::Windows, frame(vec![], None));
    assert_eq!(commands.len(), 7);
    assert!(matches!(commands[0], DrawCommand::ReleaseTerminal));
    assert!(matches!(commands[1], DrawCommand::Clear { .. }));
}

#[test]
fn bell_covers_the_window() {
    let mut ringing = frame(vec![], None);
    ringing.0.visual_bell_intensity = 0.25;
    let commands = drawn(&config(), Platform::Windows, ringing);
    assert_eq!(commands.len(), 8);
    assert!(matches!(commands[4], DrawCommand::CollectLineRects));
    assert!(matches!(&commands[5], DrawCommand::PushRect { rect }
        if rect_fields(rect) == (0., 0., 100., 206., BELL, 0.25)));
    assert!(matches!(commands[6], DrawCommand::DrawRects));
}

#[test]
fn message_is_drawn_above_all() {
    let mut ringing = frame(vec![], message(&["one", "two", "three"]));
    ringing.0.visual_bell_intensity = 1.;
    let commands = drawn(&config(), Platform::Windows, ringing);
    assert_eq!(commands.len(), 12);
    assert!(matches!(&commands[5], DrawCommand::PushRect { rect } if rect.color == BELL));
    assert!(matches!(&commands[6], DrawCommand::PushRect { rect }
        if rect_fields(rect) == (0., 143., 100., 63., BAR, 1.)));
    assert!(matches!(commands[7], DrawCommand::DrawRects));
    assert!(matches!(&commands[8], DrawCommand::RenderMessage { text, line: 9 } if text == "three"));
    assert!(matches!(&commands[9], DrawCommand::RenderMessage { text, line: 8 } if text == "two"));
    assert!(matches!(&commands[10], DrawCommand::RenderMessage { text, line: 7 } if text == "one"));
    assert!(matches!(commands[11], DrawCommand::SwapBuffers));
}

#[test]
fn message_may_fill_the_screen() {
    let mut small = frame(vec![], message(&["one", "two"]));
    small.1.lines = 2;
    let commands = drawn(&config(), Platform::Windows, small);
    assert!(matches!(&commands[5], DrawCommand::PushRect { rect } if rect.y == 3.));
    assert!(matches!(&commands[7], DrawCommand::RenderMessage { text, line: 1 } if text == "two"));
    assert!(matches!(&commands[8], DrawCommand::RenderMessage { text, line: 0 } if text == "one"));
}

#[test]
fn empty_message_still_has_a_background() {
    let commands =
        drawn(&config(), Platform::Windows, frame(vec![], message(&[])));
    assert_eq!(commands.len(), 8);
    assert!(matches!(&commands[5], DrawCommand::PushRect { rect }
        if rect_fields(rect) == (0., 203., 100., 3., BAR, 1.)));
}

#[test]
fn render_timer_is_on_the_last_line_but_one() {
    let mut timed = config();
    timed.render_timer = true;
    let commands =
        drawn(&timed, Platform::Windows, frame(vec![], None));
    assert_eq!(commands.len(), 8);
    let red = Rgb { r: 0xd5, g: 0x4e, b: 0x53 };
    assert!(matches!(commands[6], DrawCommand::RenderTimer { line: 8, color } if color == red));
    assert!(matches!(commands[7], DrawCommand::SwapBuffers));
}

#[test]
fn message_bar_begins_where_terminal_ends() {
    let lines = |height: f32| ((height - 2. * 3.) / 20.) as usize;
    let targets = settled(&mut display()).targets(Some(3), &single);
    let terminal_lines = match targets[1] {
        ResizeTarget::Terminal { size_info } => lines(size_info.height),
        _ => panic!("the terminal is told second"),
    };
    assert_eq!((lines(206.), terminal_lines), (10, 7));
    let commands = drawn(&config(), Platform::Windows, frame(vec![], message(&["one", "two", "three"])));
    assert!(matches!(commands[9], DrawCommand::RenderMessage { line: 7, .. }));
}
