# alacritty_display

The decisions of a terminal emulator's display, verified with Verus: how it starts up, how it
answers a resize and what it draws.

The library opens no window and draws no pixel. It says what is to be done, in which order and with
which numbers; its callers do it and hand the answers back.

- `src/startup.rs`: from the first guess at the pixel ratio to the window on the screen.
- `src/resize.rs`: changes of the font size and of the window's size.
- `src/draw.rs`: the steps that draw a frame.
- `src/size_info.rs`: the formulas for cells and padding.
- `src/font.rs`, `src/config.rs`, `src/display.rs`: the values that the above work on.
- `src/arithmetic.rs`: floating point arithmetic as expressions, and their exact value.
- `src/error.rs`: what can go wrong.
- `app/`: the display around the library, generic in the window, the fonts, the renderer and the
  terminal. It evaluates the expressions.
- `tests/`: examples, in single and double precision.
