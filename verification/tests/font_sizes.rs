use alacritty_display::font::{FontResize, Size, FONT_SIZE_STEP};

fn size(half_points: i16) -> Size {
    Size { half_points }
}

#[test]
fn sum_of_sizes() {
    assert_eq!(size(22).plus(size(3)), size(25));
    assert_eq!(size(22).plus(size(-30)), size(-8));
}

#[test]
fn sum_of_sizes_saturates() {
    assert_eq!(size(i16::MAX).plus(size(1)), size(i16::MAX));
    assert_eq!(size(i16::MIN).plus(size(-1)), size(i16::MIN));
    assert_eq!(size(i16::MAX).plus(size(0)), size(i16::MAX));
}

#[test]
fn step_changes_font_size() {
    assert_eq!(size(22).resized(FontResize::Delta(size(FONT_SIZE_STEP)), size(11)), size(23));
    assert_eq!(size(22).resized(FontResize::Delta(size(-FONT_SIZE_STEP)), size(11)), size(21));
}

#[test]
fn step_stops_at_smallest_size() {
    assert_eq!(size(1).resized(FontResize::Delta(size(-1)), size(11)), size(1));
    assert_eq!(size(22).resized(FontResize::Delta(size(-1000)), size(11)), size(1));
    assert_eq!(size(2).resized(FontResize::Delta(size(-1)), size(11)), size(1));
}

#[test]
fn steps_from_ordered_sizes_stay_ordered() {
    let small = size(2).resized(FontResize::Delta(size(-5)), size(11));
    let large = size(9).resized(FontResize::Delta(size(-2)), size(11));
    assert_eq!((small, large), (size(1), size(7)));
}

#[test]
fn step_back_restores_size() {
    let stepped = size(22).resized(FontResize::Delta(size(5)), size(11));
    assert_eq!(stepped, size(27));
    assert_eq!(stepped.resized(FontResize::Delta(size(-5)), size(11)), size(22));
}

#[test]
fn step_back_from_smallest_size_does_not_restore() {
    let stepped = size(3).resized(FontResize::Delta(size(-5)), size(11));
    assert_eq!(stepped.resized(FontResize::Delta(size(5)), size(11)), size(6));
}

#[test]
fn reset_returns_to_configured_size() {
    assert_eq!(size(22).resized(FontResize::Reset, size(11)), size(11));
    assert_eq!(size(1).resized(FontResize::Reset, size(-4)), size(-4));
}
