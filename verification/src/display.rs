//! The display's state.

use vstd::prelude::*;

use crate::font::Size;
use crate::size_info::SizeInfo;

verus! {

/// What the display keeps from one event to the next, apart from the window, the renderer and the
/// glyph cache.
#[derive(Debug)]
pub struct Display<F, W> {
    /// The size of the window and of the cells in it.
    pub size_info: SizeInfo<F, W>,
    /// The font size in use.
    pub font_size: Size,
}

} // verus!
