use template_window::geometry::{Point, Size};
use template_window::resize::{
    cursor_for_edge, hover_cursor, resize_edge, resize_on_press, ResizeCursor, ResizeEdge,
};

const SHADOW: i32 = 10;
const ROUNDING: i32 = 10;

fn window() -> Size {
    Size::new(600, 400)
}

fn edge(x: i32, y: i32) -> Option<ResizeEdge> {
    resize_edge(Point::new(x, y), SHADOW, window(), ROUNDING)
}

#[test]
fn corners_are_found() {
    assert_eq!(edge(0, 0), Some(ResizeEdge::TopLeft));
    assert_eq!(edge(19, 19), Some(ResizeEdge::TopLeft));
    assert_eq!(edge(599, 0), Some(ResizeEdge::TopRight));
    assert_eq!(edge(581, 19), Some(ResizeEdge::TopRight));
    assert_eq!(edge(0, 399), Some(ResizeEdge::BottomLeft));
    assert_eq!(edge(599, 399), Some(ResizeEdge::BottomRight));
}

#[test]
fn sides_are_found() {
    assert_eq!(edge(300, 5), Some(ResizeEdge::Top));
    assert_eq!(edge(300, 395), Some(ResizeEdge::Bottom));
    assert_eq!(edge(5, 200), Some(ResizeEdge::Left));
    assert_eq!(edge(595, 200), Some(ResizeEdge::Right));
}

#[test]
fn band_boundaries_are_strict() {
    // Exactly a band's width in is already content.
    assert_eq!(edge(300, 10), None);
    assert_eq!(edge(300, 390), None);
    assert_eq!(edge(10, 200), None);
    assert_eq!(edge(590, 200), None);
    assert_eq!(edge(300, 9), Some(ResizeEdge::Top));
    assert_eq!(edge(300, 391), Some(ResizeEdge::Bottom));
    // The corner square reaches shadow plus rounding.
    assert_eq!(edge(20, 15), None);
    assert_eq!(edge(19, 15), Some(ResizeEdge::TopLeft));
}

#[test]
fn content_has_no_edge() {
    assert_eq!(edge(300, 200), None);
    assert_eq!(edge(20, 20), None);
}

#[test]
fn mirrored_points_grab_mirrored_edges() {
    let w = window().width;
    let h = window().height;
    for &(x, y) in &[(3, 3), (15, 100), (300, 4), (17, 395), (599, 12), (50, 50)] {
        let mirrored_lr = edge(w - x, y);
        let expected_lr = edge(x, y).map(|e| match e {
            ResizeEdge::Left => ResizeEdge::Right,
            ResizeEdge::Right => ResizeEdge::Left,
            ResizeEdge::TopLeft => ResizeEdge::TopRight,
            ResizeEdge::TopRight => ResizeEdge::TopLeft,
            ResizeEdge::BottomLeft => ResizeEdge::BottomRight,
            ResizeEdge::BottomRight => ResizeEdge::BottomLeft,
            other => other,
        });
        assert_eq!(mirrored_lr, expected_lr);
        let mirrored_tb = edge(x, h - y);
        let expected_tb = edge(x, y).map(|e| match e {
            ResizeEdge::Top => ResizeEdge::Bottom,
            ResizeEdge::Bottom => ResizeEdge::Top,
            ResizeEdge::TopLeft => ResizeEdge::BottomLeft,
            ResizeEdge::BottomLeft => ResizeEdge::TopLeft,
            ResizeEdge::TopRight => ResizeEdge::BottomRight,
            ResizeEdge::BottomRight => ResizeEdge::TopRight,
            other => other,
        });
        assert_eq!(mirrored_tb, expected_tb);
    }
}

#[test]
fn narrow_window_prefers_the_left_corner() {
    // Narrower than twice the corner reach: both corner squares overlap and
    // the left one wins, so the mirror law does not apply.
    let size = Size::new(30, 400);
    assert_eq!(resize_edge(Point::new(15, 0), SHADOW, size, ROUNDING), Some(ResizeEdge::TopLeft));
}

#[test]
fn cursors_follow_edges() {
    assert_eq!(cursor_for_edge(ResizeEdge::Top), ResizeCursor::UpDown);
    assert_eq!(cursor_for_edge(ResizeEdge::Bottom), ResizeCursor::UpDown);
    assert_eq!(cursor_for_edge(ResizeEdge::Left), ResizeCursor::LeftRight);
    assert_eq!(cursor_for_edge(ResizeEdge::Right), ResizeCursor::LeftRight);
    assert_eq!(cursor_for_edge(ResizeEdge::TopLeft), ResizeCursor::UpLeftDownRight);
    assert_eq!(cursor_for_edge(ResizeEdge::BottomRight), ResizeCursor::UpLeftDownRight);
    assert_eq!(cursor_for_edge(ResizeEdge::TopRight), ResizeCursor::UpRightDownLeft);
    assert_eq!(cursor_for_edge(ResizeEdge::BottomLeft), ResizeCursor::UpRightDownLeft);
}

#[test]
fn maximized_window_never_resizes() {
    let corner = Point::new(0, 0);
    assert_eq!(hover_cursor(true, corner, SHADOW, window(), ROUNDING), None);
    assert_eq!(resize_on_press(true, corner, SHADOW, window(), ROUNDING), None);
    assert_eq!(
        hover_cursor(false, corner, SHADOW, window(), ROUNDING),
        Some(ResizeCursor::UpLeftDownRight)
    );
    assert_eq!(
        resize_on_press(false, corner, SHADOW, window(), ROUNDING),
        Some(ResizeEdge::TopLeft)
    );
}

#[test]
fn hover_matches_press() {
    for &(x, y) in &[(0, 0), (300, 3), (300, 200), (598, 398), (5, 200)] {
        let pos = Point::new(x, y);
        let press = resize_on_press(false, pos, SHADOW, window(), ROUNDING);
        let hover = hover_cursor(false, pos, SHADOW, window(), ROUNDING);
        assert_eq!(hover, press.map(cursor_for_edge));
    }
}

#[test]
fn extreme_coordinates_do_not_overflow() {
    let size = Size::new(i32::MAX, i32::MAX);
    assert_eq!(
        resize_edge(Point::new(i32::MAX, i32::MIN), i32::MAX, size, i32::MAX),
        Some(ResizeEdge::TopLeft)
    );
    assert_eq!(
        resize_edge(Point::new(0, 0), i32::MIN, Size::new(i32::MIN, i32::MIN), i32::MIN),
        None
    );
}
