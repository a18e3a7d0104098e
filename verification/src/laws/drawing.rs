//! What the display draws.

use vstd::prelude::*;

use crate::arithmetic::{Condition, Expr};
use crate::config::{Config, Platform, Rgb};
use crate::display::Display;
use crate::draw::{
    bell_visible, cell_commands, closing_commands, is_bell_rect,
    is_message_bar, message_commands, message_text, opening_commands, rect_commands,
    screen_commands, DrawCommand, Grid, Overlay, ReleasedFrame, RenderRect,
};
use crate::laws::exactness::{decides_exactly, is_exact};
use crate::laws::layout::narrowing_keeps_the_value;
use crate::size_info::{line_top_expr, narrow_expr, SizeInfo};

verus! {

/// `rect` covers the whole window, in a color, as far as the intensity says.
pub open spec fn covers_window<F, W>(
    rect: RenderRect<F>,
    info: SizeInfo<F, W>,
    intensity: real,
    color: Rgb,
    single: spec_fn(F) -> real,
) -> bool {
    &&& single(rect.x) == 0real
    &&& single(rect.y) == 0real
    &&& rect.width == info.width
    &&& rect.height == info.height
    &&& rect.color == color
    &&& single(rect.alpha) == intensity
}

/// `rect` is opaque and covers the window, in a color, from the top of a line of cells down to the
/// bottom, over its whole width.
pub open spec fn covers_from_line<F, W>(
    rect: RenderRect<F>,
    info: SizeInfo<F, W>,
    line: int,
    color: Rgb,
    single: spec_fn(F) -> real,
) -> bool {
    &&& single(rect.x) == 0real
    &&& single(rect.y) == single(info.padding_y) + single(info.cell_height) * line as real
    &&& rect.width == info.width
    &&& single(rect.y) + single(rect.height) == single(info.height)
    &&& rect.color == color
    &&& single(rect.alpha) == 1real
}

/// The visual bell covers the whole window as far as its intensity says, and is not drawn where it
/// has none.
pub proof fn the_bell_fades_with_its_intensity<
    F,
    W,
    E: Fn(Expr<F, W>) -> F,
    P: Fn(Condition<W>) -> bool,
>(
    eval: E,
    decide: P,
    info: SizeInfo<F, W>,
    intensity: W,
    color: Rgb,
    bell: Option<RenderRect<F>>,
    single: spec_fn(F) -> real,
    wide: spec_fn(W) -> real,
)
    requires
        is_exact(eval, single, wide),
        decides_exactly(decide, wide),
        is_bell_rect(eval, decide, info, intensity, color, bell),
    ensures
        bell is Some <==> wide(intensity) != 0real,
        bell matches Some(rect) ==> covers_window(rect, info, wide(intensity), color, single),
{
    assert(forall|answer: bool|
        call_ensures(decide, (bell_visible(intensity),), answer) ==> answer == bell_visible(
            intensity,
        ).exact(wide));
    if let Some(rect) = bell {
        assert(call_ensures(eval, (Expr::<F, W>::Count(0),), rect.x));
        assert(call_ensures(eval, (Expr::<F, W>::Count(0),), rect.y));
        assert(call_ensures(eval, (narrow_expr::<F, W>(intensity),), rect.alpha));
        narrowing_keeps_the_value(eval, intensity, rect.alpha, single, wide);
    }
}

/// The background of a message begins at the first line that its text is drawn on, however many
/// lines it has, and reaches to the bottom of the window. Without a message there is none.
pub proof fn the_background_begins_at_the_text<C, F, W, E: Fn(Expr<F, W>) -> F>(
    eval: E,
    info: SizeInfo<F, W>,
    overlay: Overlay,
    bar: Option<RenderRect<F>>,
    single: spec_fn(F) -> real,
    wide: spec_fn(W) -> real,
)
    requires
        is_exact(eval, single, wide),
        is_message_bar(eval, info, overlay, bar),
        overlay.message matches Some(message) ==> message.text@.len() <= overlay.lines,
    ensures
        bar is Some <==> overlay.message is Some,
        overlay.message matches Some(message) ==> {
            let first = overlay.lines - message.text@.len();
            let commands = message_commands::<C, F>(message.text@, overlay.lines);
            &&& covers_from_line(bar->0, info, first, message.color, single)
            &&& forall|i: int|
                0 <= i < commands.len() ==> #[trigger] commands[i] is RenderMessage && commands[i]
                    ->RenderMessage_line >= first
            &&& message.text@.len() > 0 ==> exists|i: int|
                0 <= i < commands.len() && #[trigger] commands[i] is RenderMessage && commands[i]
                    ->RenderMessage_line == first && commands[i]->text == message.text@[0]
        },
{
    if let (Some(message), Some(rect)) = (overlay.message, bar) {
        let first = (overlay.lines - message.text@.len()) as usize;
        let top = line_top_expr::<F, W>(info.padding_y, info.cell_height, first);
        let rest = Expr::<F, W>::Value(info.height).minus(Expr::Value(rect.y));
        assert(call_ensures(eval, (Expr::<F, W>::Count(0),), rect.x));
        assert(call_ensures(eval, (top,), rect.y));
        assert(call_ensures(eval, (rest,), rect.height));
        assert(call_ensures(eval, (Expr::<F, W>::Count(1),), rect.alpha));
        assert(top.exact(single, wide) == single(info.padding_y) + single(info.cell_height)
            * first as real) by {
            reveal_with_fuel(Expr::exact, 3);
        }
        assert(rest.exact(single, wide) == single(info.height) - single(rect.y)) by {
            reveal_with_fuel(Expr::exact, 2);
        }
        let commands = message_commands::<C, F>(message.text@, overlay.lines);
        if message.text@.len() > 0 {
            let last = message.text@.len() - 1;
            assert(commands[last] is RenderMessage && commands[last]->RenderMessage_line == first
                && commands[last]->text == message.text@[0]);
        }
    }
}

/// While the terminal is at hand, the input method is moved to its cursor, save on Windows, and then
/// the terminal is let go of. What was taken from it, and the size of the display, go on as they
/// are.
pub proof fn the_terminal_is_let_go_of<C, F: Copy, W: Copy>(
    display: Display<F, W>,
    platform: Platform,
    grid: Grid<C, W>,
    drawn: (Vec<DrawCommand<C, F>>, ReleasedFrame<C, F, W>),
)
    requires
        call_ensures(Display::<F, W>::draw::<C>, (&display, platform, grid), drawn),
    ensures
        platform is Windows ==> drawn.0@.len() == 1,
        !(platform is Windows) ==> drawn.0@.len() == 2 && drawn.0@[0] is UpdateImePosition,
        drawn.0@.last() is ReleaseTerminal,
        drawn.1.grid == grid,
        drawn.1.size_info == display.size_info,
{
}

/// The number one where a condition holds, and else zero.
pub open spec fn one_if(condition: bool) -> int {
    if condition {
        1
    } else {
        0
    }
}

/// `commands` draw the grid, and it alone: the screen is cleared with the background, and then,
/// while time is measured, each cell in turn has its lines taken account of and is drawn.
pub open spec fn draws_grid<C, F, W>(commands: Seq<DrawCommand<C, F>>, grid: Grid<C, W>) -> bool {
    let cells = grid.cells@;
    &&& commands.len() > 3 + 2 * cells.len()
    &&& commands[0] == DrawCommand::<C, F>::Clear { color: grid.background }
    &&& commands[1] is StartSample
    &&& forall|n: int|
        #![trigger cells[n]]
        0 <= n < cells.len() ==> {
            &&& commands[2 + 2 * n] == DrawCommand::<C, F>::UpdateLines { cell: cells[n] }
            &&& commands[3 + 2 * n] == DrawCommand::<C, F>::RenderCell { cell: cells[n] }
        }
    &&& commands[2 + 2 * cells.len() as int] is StopSample
    &&& commands[3 + 2 * cells.len() as int] is CollectLineRects
}

/// From step `start` on, `commands` add the visual bell to the list of rectangles, if it has an
/// intensity, then the background of the message, if there is a message, and draw the list.
pub open spec fn draws_rects<C, F, W>(
    commands: Seq<DrawCommand<C, F>>,
    start: int,
    info: SizeInfo<F, W>,
    intensity: real,
    bell_color: Rgb,
    overlay: Overlay,
    single: spec_fn(F) -> real,
) -> bool {
    let bar = start + one_if(intensity != 0real);
    let drawn = bar + one_if(overlay.message is Some);
    &&& drawn < commands.len()
    &&& intensity != 0real ==> {
        &&& commands[start] is PushRect
        &&& covers_window(commands[start]->rect, info, intensity, bell_color, single)
    }
    &&& overlay.message matches Some(message) ==> {
        &&& commands[bar] is PushRect
        &&& covers_from_line(
            commands[bar]->rect,
            info,
            overlay.lines - message.text@.len(),
            message.color,
            single,
        )
    }
    &&& commands[drawn] is DrawRects
}

/// From step `start` on, `commands` draw the lines of a message from the bottom up, the last of them
/// on the last line of the screen and each other one on the line above, then the render timer on the
/// last line but one, if it is to be seen, and show what has been drawn. That is the end.
pub open spec fn draws_texts<C, F>(
    commands: Seq<DrawCommand<C, F>>,
    start: int,
    text: Seq<String>,
    lines: int,
    render_timer: bool,
) -> bool {
    let end = start + text.len();
    &&& commands.len() == end + one_if(render_timer) + 1
    &&& forall|n: int|
        #![trigger text[n]]
        0 <= n < text.len() ==> {
            let command = commands[end - 1 - n];
            &&& command is RenderMessage
            &&& command->text == text[n]
            &&& command->RenderMessage_line == lines - text.len() + n
        }
    &&& render_timer ==> {
        &&& commands[end] is RenderTimer
        &&& commands[end]->RenderTimer_line == lines - 2
        &&& commands[end]->RenderTimer_color == (Rgb { r: 0xd5, g: 0x4e, b: 0x53 })
    }
    &&& commands.last() is SwapBuffers
}

/// A frame is drawn from its grid to its buffer swap as it should be: the grid on a clean screen,
/// then the rectangles, each above the one before, then the texts, and nothing else.
pub proof fn a_frame_is_drawn_in_full<
    D,
    C: Copy,
    F: Copy,
    W: Copy,
    E: Fn(Expr<F, W>) -> F,
    P: Fn(Condition<W>) -> bool,
>(
    eval: E,
    decide: P,
    frame: ReleasedFrame<C, F, W>,
    config: Config<D>,
    overlay: Overlay,
    commands: Vec<DrawCommand<C, F>>,
    single: spec_fn(F) -> real,
    wide: spec_fn(W) -> real,
)
    requires
        is_exact(eval, single, wide),
        decides_exactly(decide, wide),
        overlay.message matches Some(message) ==> message.text@.len() <= overlay.lines,
        config.render_timer ==> overlay.lines >= 2,
        call_ensures(
            ReleasedFrame::<C, F, W>::draw::<D, E, P>,
            (frame, &config, overlay, &eval, &decide),
            commands,
        ),
    ensures
        ({
            let intensity = wide(frame.grid.visual_bell_intensity);
            let text = match overlay.message {
                Some(message) => message.text@,
                None => seq![],
            };
            let rects = 4 + 2 * frame.grid.cells@.len() as int;
            let texts = rects + one_if(intensity != 0real) + one_if(overlay.message is Some) + 1;
            &&& draws_grid(commands@, frame.grid)
            &&& draws_rects(
                commands@,
                rects,
                frame.size_info,
                intensity,
                config.visual_bell_color,
                overlay,
                single,
            )
            &&& draws_texts(commands@, texts, text, overlay.lines as int, config.render_timer)
        }),
{
    let info = frame.size_info;
    let grid = frame.grid;
    let (bell, bar): (Option<RenderRect<F>>, Option<RenderRect<F>>) = choose|
        bell: Option<RenderRect<F>>,
        bar: Option<RenderRect<F>>,
    |
        {
            &&& is_bell_rect(
                eval,
                decide,
                info,
                grid.visual_bell_intensity,
                config.visual_bell_color,
                bell,
            )
            &&& is_message_bar(eval, info, overlay, bar)
            &&& commands@ == #[trigger] screen_commands(config, grid, overlay, bell, bar)
        };
    the_bell_fades_with_its_intensity(
        eval,
        decide,
        info,
        grid.visual_bell_intensity,
        config.visual_bell_color,
        bell,
        single,
        wide,
    );
    the_background_begins_at_the_text::<C, F, W, E>(eval, info, overlay, bar, single, wide);
    screen_commands_in_order(config, grid, overlay, bell, bar);
}

/// The commands of a frame, one by one, with the rectangles as they come.
#[verifier::spinoff_prover]
proof fn screen_commands_in_order<D, C, F, W>(
    config: Config<D>,
    grid: Grid<C, W>,
    overlay: Overlay,
    bell: Option<RenderRect<F>>,
    bar: Option<RenderRect<F>>,
)
    requires
        overlay.message matches Some(message) ==> message.text@.len() <= overlay.lines,
        config.render_timer ==> overlay.lines >= 2,
        bar is Some <==> overlay.message is Some,
    ensures
        ({
            let commands = screen_commands(config, grid, overlay, bell, bar);
            let text = match overlay.message {
                Some(message) => message.text@,
                None => seq![],
            };
            let rects = 4 + 2 * grid.cells@.len() as int;
            let drawn = rects + one_if(bell is Some) + one_if(bar is Some);
            &&& draws_grid(commands, grid)
            &&& drawn < commands.len()
            &&& bell matches Some(rect) ==> commands[rects] == DrawCommand::<
                C,
                F,
            >::PushRect { rect }
            &&& bar matches Some(rect) ==> commands[drawn - 1] == DrawCommand::<C, F>::PushRect {
                rect,
            }
            &&& commands[drawn] is DrawRects
            &&& draws_texts(
                commands,
                drawn + 1,
                text,
                overlay.lines as int,
                config.render_timer,
            )
        }),
{
    let commands = screen_commands(config, grid, overlay, bell, bar);
    let cells = grid.cells@;
    let text = message_text(overlay);
    let opening = opening_commands::<C, F>(grid.background);
    let in_grid = cell_commands::<C, F>(cells);
    let rects = rect_commands::<C, F>(bell, bar);
    let message = message_commands::<C, F>(text, overlay.lines);
    let closing = closing_commands::<C, F>(config.render_timer, overlay.lines);
    let a = opening.len() as int;
    let b = a + in_grid.len();
    let c = b + rects.len();
    let d = c + message.len();
    assert(commands =~= opening + in_grid + rects + message + closing);
    assert(commands.len() == d + closing.len());
    assert(commands[0] == opening[0]);
    assert(commands[1] == opening[1]);
    assert forall|n: int| #![trigger cells[n]] 0 <= n < cells.len() implies {
        &&& commands[2 + 2 * n] == DrawCommand::<C, F>::UpdateLines { cell: cells[n] }
        &&& commands[3 + 2 * n] == DrawCommand::<C, F>::RenderCell { cell: cells[n] }
    } by {
        assert(commands[2 + 2 * n] == in_grid[2 * n]);
        assert(commands[3 + 2 * n] == in_grid[2 * n + 1]);
    }
    assert(commands[b] == rects[0]);
    assert(commands[b + 1] == rects[1]);
    if bell is Some {
        assert(commands[b + 2] == rects[2]);
    }
    if bar is Some {
        assert(commands[c - 2] == rects[rects.len() - 2]);
    }
    assert(commands[c - 1] == rects[rects.len() - 1]);
    assert forall|n: int| #![trigger text[n]] 0 <= n < text.len() implies {
        let command = commands[d - 1 - n];
        &&& command is RenderMessage
        &&& command->text == text[n]
        &&& command->RenderMessage_line == overlay.lines - text.len() + n
    } by {
        assert(commands[d - 1 - n] == message[text.len() - 1 - n]);
    }
    assert(commands[d] == closing[0]);
    assert(commands.last() == closing.last());
}

} // verus!
