//! Font sizes.

use vstd::prelude::*;

use crate::config::Font;
use crate::font::{FontResize, Size};

verus! {

/// How far apart two numbers are.
pub open spec fn distance(a: int, b: int) -> int {
    if a <= b {
        b - a
    } else {
        a - b
    }
}

/// `half_points` is the size nearest to `wanted` among those from `smallest` up, in half points.
pub open spec fn is_nearest_size(wanted: int, smallest: int, half_points: int) -> bool {
    &&& smallest <= half_points <= i16::MAX
    &&& forall|other: int|
        smallest <= other <= i16::MAX ==> distance(half_points, wanted) <= #[trigger] distance(
            other,
            wanted,
        )
}

/// The sum of two sizes is the size nearest to the sum of their half points.
pub proof fn sums_are_the_nearest_sizes(size: Size, delta: Size, sum: Size)
    requires
        call_ensures(Size::plus, (size, delta), sum),
    ensures
        is_nearest_size(
            size.half_points + delta.half_points,
            i16::MIN as int,
            sum.half_points as int,
        ),
{
}

/// A step leads to the size nearest to the one that is stepped to, of those that are half a point or
/// more, whatever the configured size is.
pub proof fn a_step_leads_to_the_nearest_visible_size(
    size: Size,
    delta: Size,
    configured: Size,
    stepped: Size,
)
    requires
        call_ensures(Size::resized, (size, FontResize::Delta(delta), configured), stepped),
    ensures
        is_nearest_size(
            size.half_points + delta.half_points,
            1,
            stepped.half_points as int,
        ),
{
}

/// A reset leads to the configured size, whatever the size is.
pub proof fn a_reset_leads_to_the_configured_size(size: Size, configured: Size, reset: Size)
    requires
        call_ensures(Size::resized, (size, FontResize::Reset, configured), reset),
    ensures
        reset == configured,
{
}

/// A font at another size is the same font in all else.
pub proof fn only_the_size_of_a_font_is_replaced<D>(font: Font<D>, size: Size, resized: Font<D>)
    requires
        call_ensures(Font::<D>::with_size, (font, size), resized),
    ensures
        resized.size == size,
        resized.faces == font.faces,
        resized.offset == font.offset,
        resized.use_thin_strokes == font.use_thin_strokes,
{
}

} // verus!
