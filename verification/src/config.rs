//! The part of the configuration, and of the machine, that the display's decisions depend on.

use vstd::prelude::*;

use crate::font::Size;

verus! {

/// A color, by its red, green and blue parts.
#[derive(Debug, Clone, Copy, PartialEq, Eq, Structural)]
pub struct Rgb {
    /// The red part.
    pub r: u8,
    /// The green part.
    pub g: u8,
    /// The blue part.
    pub b: u8,
}

/// The kind of system that the display runs on.
#[derive(Debug, Clone, Copy, PartialEq, Eq, Structural)]
pub enum Platform {
    /// macOS.
    MacOs,
    /// Windows.
    Windows,
    /// Any other system.
    Other,
}

/// How the window comes up.
#[derive(Debug, Clone, Copy, PartialEq, Eq, Structural)]
pub enum StartupMode {
    /// At its own size.
    Windowed,
    /// Maximized, where the system is neither macOS nor Windows.
    Maximized,
    /// On the full screen.
    Fullscreen,
    /// On the full screen without a space of its own, on macOS.
    SimpleFullscreen,
}

/// A position on the screen, in physical pixels.
#[derive(Debug, Clone, Copy, PartialEq, Eq, Structural)]
pub struct Position {
    /// The distance from the left.
    pub x: i32,
    /// The distance from the top.
    pub y: i32,
}

/// The blank space between the window's edge and its contents, before scaling.
#[derive(Debug, Clone, Copy, PartialEq, Eq, Structural)]
pub struct Padding {
    /// The space on the left and on the right.
    pub x: u8,
    /// The space at the top and at the bottom.
    pub y: u8,
}

/// What is added to each cell's measurements.
#[derive(Debug, Clone, Copy, PartialEq, Eq, Structural)]
pub struct Offset {
    /// What is added to the width.
    pub x: i8,
    /// What is added to the height.
    pub y: i8,
}

/// A font. `D` is the type of what the font libraries go by to find its faces.
#[derive(Debug, Clone, Copy)]
pub struct Font<D> {
    /// What the faces of the font are found by.
    pub faces: D,
    /// The size.
    pub size: Size,
    /// The addition to the size of cells.
    pub offset: Offset,
    /// Whether the font is drawn with thin strokes.
    pub use_thin_strokes: bool,
}

impl<D> Font<D> {
    /// This font at another size.
    #[verifier::allow_in_spec]
    pub fn with_size(self, size: Size) -> Font<D>
        returns
            (Font { size, ..self }),
    {
        Font { size, ..self }
    }
}

/// The configuration.
#[derive(Debug, Clone, Copy)]
pub struct Config<D> {
    /// The font.
    pub font: Font<D>,
    /// The padding of the window.
    pub padding: Padding,
    /// Whether space that fills no whole cell goes to the padding.
    pub dynamic_padding: bool,
    /// Where the window comes up, if that is configured.
    pub position: Option<Position>,
    /// How the window comes up.
    pub startup_mode: StartupMode,
    /// The color of the background.
    pub background: Rgb,
    /// The color of the visual bell.
    pub visual_bell_color: Rgb,
    /// Whether the time that drawing takes is shown.
    pub render_timer: bool,
}

} // verus!
