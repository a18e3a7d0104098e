//! What the display draws.
//!
//! `Display::draw` begins a frame with what the terminal shows, and says what is to be done while
//! the terminal is at hand: in the end, to let go of it. `ReleasedFrame::draw` then says what is to
//! be drawn, given what lies above the grid.

use vstd::prelude::*;

use crate::arithmetic::{decides, decides_all, evaluates, total, Condition, Expr, Wide};
use crate::config::{Config, Platform, Rgb};
use crate::display::Display;
use crate::size_info::{line_top_expr, narrow_expr, remaining_height_expr, SizeInfo};

verus! {

/// A message to the user, split into the lines that it takes up at the bottom of the screen.
#[derive(Debug)]
pub struct Message {
    /// The lines, from the top down.
    pub text: Vec<String>,
    /// The color of the background.
    pub color: Rgb,
}

/// What there is to draw of the terminal.
#[derive(Debug)]
pub struct Grid<C, W> {
    /// The cells of the grid that are not empty.
    pub cells: Vec<C>,
    /// The color of the background.
    pub background: Rgb,
    /// How far the visual bell covers the screen.
    pub visual_bell_intensity: W,
}

/// What there is to draw above the grid.
#[derive(Debug)]
pub struct Overlay {
    /// The number of lines on the screen.
    pub lines: usize,
    /// The message to the user, if there is one.
    pub message: Option<Message>,
}

/// A frame that has been taken from the terminal. The caller splits the message to the user into
/// lines, if there is one, and counts the lines on the screen.
#[derive(Debug)]
#[non_exhaustive]
pub struct ReleasedFrame<C, F, W> {
    /// What there is to draw of the terminal.
    pub grid: Grid<C, W>,
    /// The size that the frame is drawn at.
    pub size_info: SizeInfo<F, W>,
}

/// A filled rectangle.
#[derive(Debug)]
pub struct RenderRect<F> {
    /// The distance from the left.
    pub x: F,
    /// The distance from the top.
    pub y: F,
    /// The width.
    pub width: F,
    /// The height.
    pub height: F,
    /// The color.
    pub color: Rgb,
    /// How far the rectangle covers what is below it.
    pub alpha: F,
}

/// A step in drawing the screen.
#[derive(Debug)]
pub enum DrawCommand<C, F> {
    /// Move the input method to the cursor.
    UpdateImePosition,
    /// Let go of the terminal.
    ReleaseTerminal,
    /// Fill the screen with a color.
    Clear { color: Rgb },
    /// Begin to measure the time that drawing takes.
    StartSample,
    /// Take account of a cell's underline and strikeout.
    UpdateLines { cell: C },
    /// Draw a cell.
    RenderCell { cell: C },
    /// End the measurement.
    StopSample,
    /// Begin the list of rectangles with the underlines and strikeouts of all cells.
    CollectLineRects,
    /// Put a rectangle at the end of the list. It is drawn above those before it.
    PushRect { rect: RenderRect<F> },
    /// Draw the list of rectangles.
    DrawRects,
    /// Draw a line of a message on a line of the screen.
    RenderMessage { text: String, line: usize },
    /// Draw the average time that drawing takes on a line of the screen.
    RenderTimer { line: usize, color: Rgb },
    /// Show what has been drawn.
    SwapBuffers,
}

/// The color of the render timer.
pub open spec fn timer_color() -> Rgb {
    Rgb { r: 0xd5, g: 0x4e, b: 0x53 }
}

/// The test that the visual bell is to be seen.
#[verifier::allow_in_spec]
pub fn bell_visible<W>(intensity: W) -> Condition<W>
    returns
        Condition::NonZero(Wide::Value(intensity)),
{
    Condition::NonZero(Wide::Value(intensity))
}

/// `bell` is the rectangle of the visual bell, which covers the whole window, or none where the
/// bell has no intensity.
pub open spec fn is_bell_rect<F, W, E: Fn(Expr<F, W>) -> F, P: Fn(Condition<W>) -> bool>(
    eval: E,
    decide: P,
    info: SizeInfo<F, W>,
    intensity: W,
    color: Rgb,
    bell: Option<RenderRect<F>>,
) -> bool {
    match bell {
        None => decides(decide, bell_visible(intensity), false),
        Some(rect) => {
            &&& decides(decide, bell_visible(intensity), true)
            &&& evaluates(eval, Expr::Count(0), rect.x)
            &&& evaluates(eval, Expr::Count(0), rect.y)
            &&& rect.width == info.width
            &&& rect.height == info.height
            &&& rect.color == color
            &&& evaluates(eval, narrow_expr(intensity), rect.alpha)
        },
    }
}

/// `rect` is the background of a message bar that begins at line `start_line` of the screen: as
/// wide as the window and down to its bottom.
pub open spec fn is_bar_rect<F, W, E: Fn(Expr<F, W>) -> F>(
    eval: E,
    info: SizeInfo<F, W>,
    start_line: usize,
    color: Rgb,
    rect: RenderRect<F>,
) -> bool {
    &&& evaluates(eval, Expr::Count(0), rect.x)
    &&& evaluates(eval, line_top_expr(info.padding_y, info.cell_height, start_line), rect.y)
    &&& rect.width == info.width
    &&& evaluates(eval, Expr::Value(info.height).minus(Expr::Value(rect.y)), rect.height)
    &&& rect.color == color
    &&& evaluates(eval, Expr::Count(1), rect.alpha)
}

/// The commands that draw the grid: each cell's lines are taken account of, then the cell is drawn.
pub open spec fn cell_commands<C, F>(cells: Seq<C>) -> Seq<DrawCommand<C, F>> {
    Seq::new(
        2 * cells.len(),
        |i: int|
            if i % 2 == 0 {
                DrawCommand::UpdateLines { cell: cells[i / 2] }
            } else {
                DrawCommand::RenderCell { cell: cells[i / 2] }
            },
    )
}

/// The commands that draw the lines of a message on the last lines of the screen, from the bottom
/// up.
pub open spec fn message_commands<C, F>(text: Seq<String>, lines: usize) -> Seq<
    DrawCommand<C, F>,
> {
    Seq::new(
        text.len(),
        |i: int|
            DrawCommand::RenderMessage {
                text: text[text.len() - 1 - i],
                line: (lines - 1 - i) as usize,
            },
    )
}

/// The commands that are carried out while the terminal is at hand.
pub open spec fn terminal_commands<C, F>(platform: Platform) -> Seq<DrawCommand<C, F>> {
    let ime = if platform is Windows {
        seq![]
    } else {
        seq![DrawCommand::UpdateImePosition]
    };
    ime + seq![DrawCommand::ReleaseTerminal]
}

/// The commands that come before the grid once the terminal is released.
pub open spec fn opening_commands<C, F>(background: Rgb) -> Seq<DrawCommand<C, F>> {
    seq![DrawCommand::Clear { color: background }, DrawCommand::StartSample]
}

/// The commands that draw the rectangles: underlines and strikeouts, above them the visual bell, if
/// it is to be seen, and above all the background of the message bar, if there is a message.
pub open spec fn rect_commands<C, F>(
    bell: Option<RenderRect<F>>,
    bar: Option<RenderRect<F>>,
) -> Seq<DrawCommand<C, F>> {
    let bell_rect = match bell {
        Some(rect) => seq![DrawCommand::PushRect { rect }],
        None => seq![],
    };
    let bar_rect = match bar {
        Some(rect) => seq![DrawCommand::PushRect { rect }],
        None => seq![],
    };
    seq![DrawCommand::StopSample, DrawCommand::CollectLineRects] + bell_rect + bar_rect + seq![
        DrawCommand::DrawRects,
    ]
}

/// The commands that come last.
pub open spec fn closing_commands<C, F>(render_timer: bool, lines: usize) -> Seq<
    DrawCommand<C, F>,
> {
    let timer = if render_timer {
        seq![DrawCommand::RenderTimer { line: (lines - 2) as usize, color: timer_color() }]
    } else {
        seq![]
    };
    timer + seq![DrawCommand::SwapBuffers]
}

/// The lines of the message, none where there is no message.
pub open spec fn message_text(overlay: Overlay) -> Seq<String> {
    match overlay.message {
        Some(message) => message.text@,
        None => seq![],
    }
}

/// The commands that draw a frame once the terminal is released, in order.
pub open spec fn screen_commands<D, C, F, W>(
    config: Config<D>,
    grid: Grid<C, W>,
    overlay: Overlay,
    bell: Option<RenderRect<F>>,
    bar: Option<RenderRect<F>>,
) -> Seq<DrawCommand<C, F>> {
    opening_commands::<C, F>(grid.background) + cell_commands(grid.cells@) + rect_commands(
        bell,
        bar,
    ) + message_commands(message_text(overlay), overlay.lines) + closing_commands(
        config.render_timer,
        overlay.lines,
    )
}

/// The commands that draw a frame from beginning to end, in order.
pub open spec fn draw_commands<D, C, F, W>(
    config: Config<D>,
    platform: Platform,
    grid: Grid<C, W>,
    overlay: Overlay,
    bell: Option<RenderRect<F>>,
    bar: Option<RenderRect<F>>,
) -> Seq<DrawCommand<C, F>> {
    terminal_commands::<C, F>(platform) + screen_commands(config, grid, overlay, bell, bar)
}

/// What lies above the grid fits on its screen: the message takes up no more lines than there are,
/// and there is a last line but one for the render timer, if it is shown.
pub open spec fn fits_on_screen<D>(config: Config<D>, overlay: Overlay) -> bool {
    &&& message_text(overlay).len() <= overlay.lines
    &&& config.render_timer ==> overlay.lines >= 2
}

/// `bar` is the background of the message, or none where there is no message.
pub open spec fn is_message_bar<F, W, E: Fn(Expr<F, W>) -> F>(
    eval: E,
    info: SizeInfo<F, W>,
    overlay: Overlay,
    bar: Option<RenderRect<F>>,
) -> bool {
    match overlay.message {
        Some(message) => {
            &&& bar matches Some(rect)
            &&& is_bar_rect(
                eval,
                info,
                (overlay.lines - message.text@.len()) as usize,
                message.color,
                rect,
            )
        },
        None => bar is None,
    }
}

/// Adds to `commands` those that draw the grid.
fn push_cell_commands<C: Copy, F>(commands: &mut Vec<DrawCommand<C, F>>, cells: &Vec<C>)
    ensures
        final(commands)@ == old(commands)@ + cell_commands::<C, F>(cells@),
{
    let ghost before = commands@;
    assert(commands@ =~= before + cell_commands::<C, F>(cells@.take(0)));
    let mut i: usize = 0;
    while i < cells.len()
        invariant
            i <= cells.len(),
            commands@ == before + cell_commands::<C, F>(cells@.take(i as int)),
        decreases cells.len() - i,
    {
        commands.push(DrawCommand::UpdateLines { cell: cells[i] });
        commands.push(DrawCommand::RenderCell { cell: cells[i] });
        i = i + 1;
        assert(commands@ =~= before + cell_commands::<C, F>(cells@.take(i as int)));
    }
    assert(cells@.take(i as int) =~= cells@);
}

/// Adds to `commands` those that draw the lines of a message.
fn push_message_commands<C, F>(
    commands: &mut Vec<DrawCommand<C, F>>,
    text: Vec<String>,
    lines: usize,
)
    requires
        text@.len() <= lines,
    ensures
        final(commands)@ == old(commands)@ + message_commands::<C, F>(text@, lines),
{
    let ghost before = commands@;
    let mut rest = text;
    let mut drawn: usize = 0;
    while rest.len() > 0
        invariant
            drawn + rest@.len() == text@.len(),
            text@.len() <= lines,
            rest@ == text@.take(rest@.len() as int),
            commands@ == before + message_commands::<C, F>(text@, lines).take(drawn as int),
        decreases rest.len(),
    {
        if let Some(line_text) = rest.pop() {
            drawn = drawn + 1;
            commands.push(
                DrawCommand::RenderMessage { text: line_text, line: lines.saturating_sub(drawn) },
            );
        }
        assert(commands@ =~= before + message_commands::<C, F>(text@, lines).take(drawn as int));
    }
    assert(message_commands::<C, F>(text@, lines).take(drawn as int) =~= message_commands::<C, F>(
        text@,
        lines,
    ));
}

/// The rectangle of the visual bell, or none where the bell has no intensity.
fn bell_rect<F: Copy, W: Copy, E: Fn(Expr<F, W>) -> F, P: Fn(Condition<W>) -> bool>(
    info: SizeInfo<F, W>,
    intensity: W,
    color: Rgb,
    eval: &E,
    decide: &P,
) -> (bell: Option<RenderRect<F>>)
    requires
        total(*eval),
        decides_all(*decide),
    ensures
        is_bell_rect(*eval, *decide, info, intensity, color, bell),
{
    if decide(bell_visible(intensity)) {
        Some(
            RenderRect {
                x: eval(Expr::Count(0)),
                y: eval(Expr::Count(0)),
                width: info.width,
                height: info.height,
                color,
                alpha: eval(narrow_expr(intensity)),
            },
        )
    } else {
        None
    }
}

/// The background of a message bar that begins at line `start_line` of the screen.
fn bar_rect<F: Copy, W, E: Fn(Expr<F, W>) -> F>(
    info: SizeInfo<F, W>,
    start_line: usize,
    color: Rgb,
    eval: &E,
) -> (rect: RenderRect<F>)
    requires
        total(*eval),
    ensures
        is_bar_rect(*eval, info, start_line, color, rect),
{
    let y = eval(line_top_expr(info.padding_y, info.cell_height, start_line));
    RenderRect {
        x: eval(Expr::Count(0)),
        y,
        width: info.width,
        height: eval(Expr::Value(info.height).minus(Expr::Value(y))),
        color,
        alpha: eval(Expr::Count(1)),
    }
}

impl<F: Copy, W: Copy> Display<F, W> {
    /// Begins to draw the screen: says what is to be done while the terminal is at hand, in order.
    /// The rest of the frame is drawn at this display's size.
    pub fn draw<C>(&self, platform: Platform, grid: Grid<C, W>) -> (drawn: (
        Vec<DrawCommand<C, F>>,
        ReleasedFrame<C, F, W>,
    ))
        ensures
            drawn.0@ == terminal_commands::<C, F>(platform),
            drawn.1 == (ReleasedFrame { grid, size_info: self.size_info }),
    {
        let mut commands: Vec<DrawCommand<C, F>> = Vec::new();
        match platform {
            Platform::Windows => {},
            _ => {
                commands.push(DrawCommand::UpdateImePosition);
            },
        }
        commands.push(DrawCommand::ReleaseTerminal);
        assert(commands@ =~= terminal_commands::<C, F>(platform));
        (commands, ReleasedFrame { grid, size_info: self.size_info })
    }
}

impl<C: Copy, F: Copy, W: Copy> ReleasedFrame<C, F, W> {
    /// Says what is to be done, in order, to draw the frame. All of it is drawn at the frame's size.
    pub fn draw<D, E: Fn(Expr<F, W>) -> F, P: Fn(Condition<W>) -> bool>(
        self,
        config: &Config<D>,
        overlay: Overlay,
        eval: &E,
        decide: &P,
    ) -> (commands: Vec<DrawCommand<C, F>>)
        requires
            total(*eval),
            decides_all(*decide),
            fits_on_screen(*config, overlay),
        ensures
            exists|bell: Option<RenderRect<F>>, bar: Option<RenderRect<F>>|
                {
                    &&& is_bell_rect(
                        *eval,
                        *decide,
                        self.size_info,
                        self.grid.visual_bell_intensity,
                        config.visual_bell_color,
                        bell,
                    )
                    &&& is_message_bar(*eval, self.size_info, overlay, bar)
                    &&& commands@ == #[trigger] screen_commands(
                        *config,
                        self.grid,
                        overlay,
                        bell,
                        bar,
                    )
                },
    {
        let info = self.size_info;
        let grid = self.grid;
        let mut commands: Vec<DrawCommand<C, F>> = Vec::new();
        commands.push(DrawCommand::Clear { color: grid.background });
        commands.push(DrawCommand::StartSample);
        assert(commands@ =~= opening_commands::<C, F>(grid.background));
        push_cell_commands(&mut commands, &grid.cells);
        let ghost drawn = commands@;

        commands.push(DrawCommand::StopSample);
        commands.push(DrawCommand::CollectLineRects);
        let bell = bell_rect(
            info,
            grid.visual_bell_intensity,
            config.visual_bell_color,
            eval,
            decide,
        );
        let ghost bell_spec = bell;
        if let Some(rect) = bell {
            commands.push(DrawCommand::PushRect { rect });
        }
        let ghost mut bar: Option<RenderRect<F>> = None;
        let lines = overlay.lines;
        match overlay.message {
            Some(message) => {
                let start_line: usize = lines - message.text.len();
                let rect = bar_rect(info, start_line, message.color, eval);
                proof {
                    bar = Some(rect);
                }
                commands.push(DrawCommand::PushRect { rect });
                commands.push(DrawCommand::DrawRects);
                assert(commands@ =~= drawn + rect_commands(bell_spec, bar));
                push_message_commands(&mut commands, message.text, lines);
            },
            None => {
                commands.push(DrawCommand::DrawRects);
                assert(commands@ =~= drawn + rect_commands(bell_spec, bar));
            },
        }
        assert(commands@ =~= drawn + rect_commands(bell_spec, bar) + message_commands::<C, F>(
            message_text(overlay),
            lines,
        ));
        if config.render_timer {
            let color = Rgb { r: 0xd5, g: 0x4e, b: 0x53 };
            commands.push(DrawCommand::RenderTimer { line: lines - 2, color });
        }
        commands.push(DrawCommand::SwapBuffers);
        assert(commands@ =~= screen_commands(*config, grid, overlay, bell_spec, bar));
        commands
    }
}

/// What has been drawn is shown once, as the last step.
#[verifier::spinoff_prover]
pub proof fn a_frame_is_shown_last<D, C, F, W>(
    config: Config<D>,
    platform: Platform,
    grid: Grid<C, W>,
    overlay: Overlay,
    bell: Option<RenderRect<F>>,
    bar: Option<RenderRect<F>>,
)
    ensures
        ({
            let commands = draw_commands(config, platform, grid, overlay, bell, bar);
            forall|i: int|
                0 <= i < commands.len() ==> ((#[trigger] commands[i] is SwapBuffers) <==> i
                    == commands.len() - 1)
        }),
{
}

/// The terminal is let go of before the screen is touched. Only the input method is moved before
/// that, and the very next step clears the screen, once, with the grid's background.
#[verifier::spinoff_prover]
pub proof fn the_terminal_is_released_before_drawing<D, C, F, W>(
    config: Config<D>,
    platform: Platform,
    grid: Grid<C, W>,
    overlay: Overlay,
    bell: Option<RenderRect<F>>,
    bar: Option<RenderRect<F>>,
)
    ensures
        ({
            let commands = draw_commands(config, platform, grid, overlay, bell, bar);
            let released: int = if platform is Windows {
                0
            } else {
                1
            };
            &&& released + 1 < commands.len()
            &&& commands[released + 1] == DrawCommand::<C, F>::Clear { color: grid.background }
            &&& forall|i: int|
                0 <= i < commands.len() ==> {
                    &&& (#[trigger] commands[i] is ReleaseTerminal) <==> i == released
                    &&& (commands[i] is UpdateImePosition) <==> i < released
                    &&& (commands[i] is Clear) <==> i == released + 1
                }
        }),
{
}

/// Of the steps that follow the grid, the first ends the sample, and no other touches the sample or
/// the grid.
proof fn only_the_first_step_after_the_grid_ends_the_sample<C, F>(
    bell: Option<RenderRect<F>>,
    bar: Option<RenderRect<F>>,
    text: Seq<String>,
    lines: usize,
    render_timer: bool,
)
    ensures
        ({
            let after = rect_commands::<C, F>(bell, bar) + message_commands::<C, F>(text, lines)
                + closing_commands(render_timer, lines);
            &&& after.len() > 0
            &&& forall|i: int|
                0 <= i < after.len() ==> {
                    &&& (#[trigger] after[i] is StopSample) <==> i == 0
                    &&& !(after[i] is StartSample)
                    &&& !(after[i] is UpdateLines)
                    &&& !(after[i] is RenderCell)
                }
        }),
{
    let rects = rect_commands::<C, F>(bell, bar);
    let message = message_commands::<C, F>(text, lines);
    let closing = closing_commands::<C, F>(render_timer, lines);
    let after = rects + message + closing;
    assert forall|i: int| 0 <= i < after.len() implies {
        &&& (#[trigger] after[i] is StopSample) <==> i == 0
        &&& !(after[i] is StartSample)
        &&& !(after[i] is UpdateLines)
        &&& !(after[i] is RenderCell)
    } by {
        if i < rects.len() {
            assert(after[i] == rects[i]);
        } else if i < rects.len() + message.len() {
            assert(after[i] == message[i - rects.len()]);
        } else {
            assert(after[i] == closing[i - rects.len() - message.len()]);
        }
    }
}

/// Every cell is drawn once, in order, each right after its underline and strikeout have been taken
/// account of, and the time that this takes, and no other, is measured.
#[verifier::spinoff_prover]
pub proof fn the_sample_spans_the_grid<D, C, F, W>(
    config: Config<D>,
    platform: Platform,
    grid: Grid<C, W>,
    overlay: Overlay,
    bell: Option<RenderRect<F>>,
    bar: Option<RenderRect<F>>,
)
    ensures
        ({
            let commands = draw_commands(config, platform, grid, overlay, bell, bar);
            let cells = grid.cells@;
            let start: int = if platform is Windows {
                2
            } else {
                3
            };
            let stop = start + 2 * cells.len() + 1;
            &&& stop < commands.len()
            &&& forall|i: int|
                0 <= i < commands.len() ==> {
                    &&& (#[trigger] commands[i] is StartSample) <==> i == start
                    &&& (commands[i] is StopSample) <==> i == stop
                    &&& (commands[i] is UpdateLines || commands[i] is RenderCell) <==> start < i
                        < stop
                }
            &&& forall|n: int|
                #![trigger cells[n]]
                0 <= n < cells.len() ==> {
                    &&& commands[start + 1 + 2 * n] == DrawCommand::<C, F>::UpdateLines {
                        cell: cells[n],
                    }
                    &&& commands[start + 2 + 2 * n] == DrawCommand::<C, F>::RenderCell {
                        cell: cells[n],
                    }
                }
        }),
{
    let commands = draw_commands(config, platform, grid, overlay, bell, bar);
    let cells = grid.cells@;
    let before = terminal_commands::<C, F>(platform) + opening_commands::<C, F>(grid.background);
    let in_grid = cell_commands::<C, F>(cells);
    let after = rect_commands::<C, F>(bell, bar) + message_commands::<C, F>(
        message_text(overlay),
        overlay.lines,
    ) + closing_commands(config.render_timer, overlay.lines);
    assert(commands =~= before + in_grid + after);
    let start = before.len() - 1;
    let stop = start + in_grid.len() + 1;
    only_the_first_step_after_the_grid_ends_the_sample::<C, F>(
        bell,
        bar,
        message_text(overlay),
        overlay.lines,
        config.render_timer,
    );
    assert forall|i: int| 0 <= i < commands.len() implies {
        &&& (#[trigger] commands[i] is StartSample) <==> i == start
        &&& (commands[i] is StopSample) <==> i == stop
        &&& (commands[i] is UpdateLines || commands[i] is RenderCell) <==> start < i < stop
    } by {
        if i < before.len() {
            assert(commands[i] == before[i]);
        } else if i < stop {
            assert(commands[i] == in_grid[i - before.len()]);
        } else {
            assert(commands[i] == after[i - stop]);
        }
    }
    assert forall|n: int| #![trigger cells[n]] 0 <= n < cells.len() implies {
        &&& commands[start + 1 + 2 * n] == DrawCommand::<C, F>::UpdateLines { cell: cells[n] }
        &&& commands[start + 2 + 2 * n] == DrawCommand::<C, F>::RenderCell { cell: cells[n] }
    } by {
        assert(commands[start + 1 + 2 * n] == in_grid[2 * n]);
        assert(commands[start + 2 + 2 * n] == in_grid[2 * n + 1]);
    }
}

/// The rectangles are drawn at step `drawn` and at no other. The last of them is `bar`, if there is
/// one, and `bell`, if there is one, comes right after the underlines and strikeouts. Messages are
/// drawn later.
pub open spec fn rects_are_drawn_at<C, F>(
    commands: Seq<DrawCommand<C, F>>,
    bell: Option<RenderRect<F>>,
    bar: Option<RenderRect<F>>,
    drawn: int,
) -> bool {
    let bell_place = drawn - if bar is Some {
        2int
    } else {
        1
    };
    &&& 0 <= drawn < commands.len()
    &&& commands[drawn] is DrawRects
    &&& bar matches Some(rect) ==> {
        &&& drawn >= 1
        &&& commands[drawn - 1] == DrawCommand::<C, F>::PushRect { rect }
    }
    &&& bell matches Some(rect) ==> {
        &&& bell_place >= 1
        &&& commands[bell_place] == DrawCommand::<C, F>::PushRect { rect }
        &&& commands[bell_place - 1] is CollectLineRects
    }
    &&& forall|i: int|
        0 <= i < commands.len() ==> {
            &&& (#[trigger] commands[i] is DrawRects) <==> i == drawn
            &&& commands[i] is PushRect ==> i < drawn
            &&& commands[i] is RenderMessage ==> i > drawn
        }
}

/// The rectangles are drawn once. The background of the message bar, if there is a message, is the
/// last of them, above all others, and the visual bell, if it is to be seen, is right above the
/// underlines and strikeouts. The text of the message comes after all of them.
#[verifier::spinoff_prover]
pub proof fn the_message_bar_is_above_all<D, C, F, W>(
    config: Config<D>,
    platform: Platform,
    grid: Grid<C, W>,
    overlay: Overlay,
    bell: Option<RenderRect<F>>,
    bar: Option<RenderRect<F>>,
)
    ensures
        exists|drawn: int|
            rects_are_drawn_at(
                draw_commands(config, platform, grid, overlay, bell, bar),
                bell,
                bar,
                drawn,
            ),
{
    let commands = draw_commands(config, platform, grid, overlay, bell, bar);
    let before = terminal_commands::<C, F>(platform) + opening_commands::<C, F>(
        grid.background,
    ) + cell_commands(grid.cells@);
    let rects = rect_commands::<C, F>(bell, bar);
    let after = message_commands::<C, F>(message_text(overlay), overlay.lines) + closing_commands(
        config.render_timer,
        overlay.lines,
    );
    assert(commands =~= before + rects + after);
    let drawn = before.len() + rects.len() - 1;
    assert forall|i: int| 0 <= i < commands.len() implies {
        &&& (#[trigger] commands[i] is DrawRects) <==> i == drawn
        &&& commands[i] is PushRect ==> i < drawn
        &&& commands[i] is RenderMessage ==> i > drawn
    } by {
        if i < before.len() {
            assert(commands[i] == before[i]);
        } else if i < before.len() + rects.len() {
            assert(commands[i] == rects[i - before.len()]);
        } else {
            assert(commands[i] == after[i - before.len() - rects.len()]);
        }
    }
    assert(commands[drawn] == rects.last());
    if bar is Some {
        assert(commands[drawn - 1] == rects[rects.len() - 2]);
    }
    if bell is Some {
        assert(commands[before.len() + 2int] == rects[2]);
        assert(commands[before.len() + 1int] == rects[1]);
    }
    assert(rects_are_drawn_at(commands, bell, bar, drawn));
}

/// The visual bell covers the screen while it has an intensity. This holds where the intensity is
/// compared with zero without rounding.
pub proof fn the_bell_is_seen_while_it_rings<F, W, E: Fn(Expr<F, W>) -> F, P: Fn(Condition<W>) -> bool>(
    eval: E,
    decide: P,
    info: SizeInfo<F, W>,
    intensity: W,
    color: Rgb,
    bell: Option<RenderRect<F>>,
    wide: spec_fn(W) -> real,
)
    requires
        is_bell_rect(eval, decide, info, intensity, color, bell),
        forall|visible: bool| #[trigger]
            decides(decide, bell_visible(intensity), visible) ==> visible == bell_visible(
                intensity,
            ).exact(wide),
    ensures
        bell is Some <==> wide(intensity) != 0real,
{
}

/// The lines of a message are drawn one below the other, each on a line of its own, from the line
/// that the background of the message bar begins at down to the last line of the screen.
pub proof fn a_message_fills_the_last_lines<C, F>(text: Seq<String>, lines: usize, n: int)
    requires
        text.len() <= lines,
        0 <= n < text.len(),
    ensures
        ({
            let commands = message_commands::<C, F>(text, lines);
            let start_line = lines - text.len();
            &&& commands.len() == text.len()
            &&& commands[text.len() - 1 - n] == DrawCommand::<C, F>::RenderMessage {
                text: text[n],
                line: (start_line + n) as usize,
            }
            &&& start_line <= start_line + n < lines
            &&& n == text.len() - 1 ==> start_line + n == lines - 1
        }),
{
}

/// The background of the message bar reaches from the top of its first line to the bottom of the
/// window.
pub proof fn the_message_bar_reaches_the_bottom<F, W>(
    info: SizeInfo<F, W>,
    start_line: usize,
    y: F,
    single: spec_fn(F) -> real,
    wide: spec_fn(W) -> real,
)
    requires
        single(y) == line_top_expr::<F, W>(info.padding_y, info.cell_height, start_line).exact(
            single,
            wide,
        ),
    ensures
        single(y) == single(info.padding_y) + single(info.cell_height) * (start_line as real),
        single(y) + Expr::<F, W>::Value(info.height).minus(Expr::Value(y)).exact(single, wide)
            == single(info.height),
{
    reveal_with_fuel(Expr::exact, 3);
}

/// `lines` lines of cells, and no more, fit between the paddings of a height.
pub open spec fn lines_fit(height: real, padding: real, cell_height: real, lines: int) -> bool {
    let content = height - 2real * padding;
    cell_height * (lines as real) <= content < cell_height * ((lines + 1) as real)
}

/// The message bar begins where the terminal ends: of the lines that fit in the window, the ones
/// that the terminal is left with are those above the line that the bar begins at.
pub proof fn the_message_bar_covers_no_line_of_the_terminal<F, W>(
    info: SizeInfo<F, W>,
    lines: usize,
    message_lines: usize,
    single: spec_fn(F) -> real,
    wide: spec_fn(W) -> real,
)
    requires
        message_lines <= lines,
        lines_fit(
            single(info.height),
            single(info.padding_y),
            single(info.cell_height),
            lines as int,
        ),
    ensures
        lines_fit(
            remaining_height_expr::<F, W>(info.height, info.cell_height, message_lines).exact(
                single,
                wide,
            ),
            single(info.padding_y),
            single(info.cell_height),
            lines - message_lines,
        ),
{
    reveal_with_fuel(Expr::exact, 3);
    let c = single(info.cell_height);
    let left = lines - message_lines;
    assert(c * (left as real) == c * (lines as real) - c * (message_lines as real))
        by (nonlinear_arith)
        requires
            left as real == lines as real - message_lines as real,
    ;
    assert(c * ((left + 1) as real) == c * ((lines + 1) as real) - c * (message_lines as real))
        by (nonlinear_arith)
        requires
            (left + 1) as real == (lines + 1) as real - message_lines as real,
    ;
}

} // verus!
