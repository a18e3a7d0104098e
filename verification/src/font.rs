//! Font sizes and the font measurements that cells are sized by.

use vstd::prelude::*;

verus! {

/// The font size change interval, half a point, in half points. It is the smallest size that a
/// change of size leads to.
pub const FONT_SIZE_STEP: i16 = 1;

/// A font size, stored as a whole number of half points.
#[derive(Debug, Clone, Copy, PartialEq, Eq, Structural)]
pub struct Size {
    /// The size in half points.
    pub half_points: i16,
}

/// A requested change of the font size.
#[derive(Debug, Clone, Copy, PartialEq, Eq, Structural)]
pub enum FontResize {
    /// Grow the font by a size, or shrink it where the size is negative.
    Delta(Size),
    /// Go back to the configured size.
    Reset,
}

/// The measurements of a font that a cell is sized by.
#[derive(Debug, Clone, Copy)]
pub struct Metrics<W> {
    /// The average horizontal distance from one glyph to the next.
    pub average_advance: W,
    /// The vertical distance from one line to the next.
    pub line_height: W,
}

/// `n`, or the end of the range of `i16` nearest to it.
pub open spec fn saturated(n: int) -> int {
    if n < i16::MIN {
        i16::MIN as int
    } else if n > i16::MAX {
        i16::MAX as int
    } else {
        n
    }
}

/// The number of half points of `size` once `resize` has been applied to it, where `configured` is
/// the configured size.
pub open spec fn resized_half_points(size: Size, resize: FontResize, configured: Size) -> int {
    match resize {
        FontResize::Delta(delta) => {
            let sum = saturated(size.half_points + delta.half_points);
            if sum < FONT_SIZE_STEP {
                FONT_SIZE_STEP as int
            } else {
                sum
            }
        },
        FontResize::Reset => configured.half_points as int,
    }
}

impl Size {
    /// The sum of two sizes; a sum out of range becomes the nearest size in range.
    pub fn plus(self, delta: Size) -> (sum: Size)
        ensures
            sum.half_points == saturated(self.half_points + delta.half_points),
    {
        let exact: i32 = self.half_points as i32 + delta.half_points as i32;
        if exact < i16::MIN as i32 {
            Size { half_points: i16::MIN }
        } else if exact > i16::MAX as i32 {
            Size { half_points: i16::MAX }
        } else {
            Size { half_points: exact as i16 }
        }
    }

    /// This size after a change. A step never leads below `FONT_SIZE_STEP`; a reset leads to the
    /// configured size, whatever it is.
    pub fn resized(self, resize: FontResize, configured: Size) -> (size: Size)
        ensures
            size.half_points == resized_half_points(self, resize, configured),
    {
        match resize {
            FontResize::Delta(delta) => {
                let sum = self.plus(delta);
                if sum.half_points < FONT_SIZE_STEP {
                    Size { half_points: FONT_SIZE_STEP }
                } else {
                    sum
                }
            },
            FontResize::Reset => configured,
        }
    }
}

/// A step never leads to a font smaller than half a point.
pub proof fn a_step_keeps_the_font_visible(size: Size, delta: Size, configured: Size)
    ensures
        resized_half_points(size, FontResize::Delta(delta), configured) >= FONT_SIZE_STEP,
{
}

/// A larger step never leads to a smaller font, nor does the same step from a larger font.
pub proof fn steps_keep_order(
    small: Size,
    large: Size,
    small_delta: Size,
    large_delta: Size,
    configured: Size,
)
    requires
        small.half_points <= large.half_points,
        small_delta.half_points <= large_delta.half_points,
    ensures
        resized_half_points(small, FontResize::Delta(small_delta), configured)
            <= resized_half_points(large, FontResize::Delta(large_delta), configured),
{
}

/// A step back undoes a step, from any visible size, as long as the step stays within the range
/// of visible sizes.
pub proof fn a_step_back_undoes_a_step(
    size: Size,
    delta: Size,
    back: Size,
    stepped: Size,
    configured: Size,
)
    requires
        size.half_points >= FONT_SIZE_STEP,
        back.half_points == -delta.half_points,
        FONT_SIZE_STEP <= size.half_points + delta.half_points <= i16::MAX,
        stepped.half_points == resized_half_points(size, FontResize::Delta(delta), configured),
    ensures
        resized_half_points(stepped, FontResize::Delta(back), configured) == size.half_points,
{
}

/// A reset leads to the configured size, whatever steps came before it.
pub proof fn a_reset_forgets_all_steps(size: Size, other: Size, configured: Size)
    ensures
        resized_half_points(size, FontResize::Reset, configured) == configured.half_points,
        resized_half_points(size, FontResize::Reset, configured) == resized_half_points(
            other,
            FontResize::Reset,
            configured,
        ),
{
}

} // verus!
