use vstd::prelude::*;

use crate::geometry::{Point, Size};

verus! {

/// The edge or corner of the window that a resize drags.
#[derive(Clone, Copy, Debug, PartialEq, Eq, Structural)]
pub enum ResizeEdge {
    Top,
    TopRight,
    Right,
    BottomRight,
    Bottom,
    BottomLeft,
    Left,
    TopLeft,
}

/// The pointer shapes shown over the resize band.
#[derive(Clone, Copy, Debug, PartialEq, Eq, Structural)]
pub enum ResizeCursor {
    UpDown,
    LeftRight,
    UpLeftDownRight,
    UpRightDownLeft,
}

/// The edge grabbed at `(x, y)` in a `w` by `h` window whose resize band is
/// `shadow` wide and whose corners reach `shadow + rounding` along each side.
/// Corners win over sides, the top over the bottom, and the left over the
/// right.
pub open spec fn edge_at(x: int, y: int, shadow: int, w: int, h: int, rounding: int) -> Option<
    ResizeEdge,
> {
    let reach = shadow + rounding;
    let top_corner = y < reach;
    let bottom_corner = y > h - reach;
    let left_corner = x < reach;
    let right_corner = x > w - reach;
    if top_corner && left_corner {
        Some(ResizeEdge::TopLeft)
    } else if top_corner && right_corner {
        Some(ResizeEdge::TopRight)
    } else if y < shadow {
        Some(ResizeEdge::Top)
    } else if bottom_corner && left_corner {
        Some(ResizeEdge::BottomLeft)
    } else if bottom_corner && right_corner {
        Some(ResizeEdge::BottomRight)
    } else if y > h - shadow {
        Some(ResizeEdge::Bottom)
    } else if x < shadow {
        Some(ResizeEdge::Left)
    } else if x > w - shadow {
        Some(ResizeEdge::Right)
    } else {
        None
    }
}

/// [`edge_at`] applied to the arguments of [`resize_edge`].
pub open spec fn spec_resize_edge(pos: Point, shadow_size: i32, size: Size, rounding: i32) -> Option<
    ResizeEdge,
> {
    edge_at(
        pos.x as int,
        pos.y as int,
        shadow_size as int,
        size.width as int,
        size.height as int,
        rounding as int,
    )
}

/// The cursor that announces a resize along `edge`.
pub open spec fn spec_cursor_for_edge(edge: ResizeEdge) -> ResizeCursor {
    match edge {
        ResizeEdge::Top | ResizeEdge::Bottom => ResizeCursor::UpDown,
        ResizeEdge::Left | ResizeEdge::Right => ResizeCursor::LeftRight,
        ResizeEdge::TopLeft | ResizeEdge::BottomRight => ResizeCursor::UpLeftDownRight,
        ResizeEdge::TopRight | ResizeEdge::BottomLeft => ResizeCursor::UpRightDownLeft,
    }
}

/// The resize cursor shown over `pos`: none while the window is maximized,
/// else the cursor of the grabbed edge, if any.
pub open spec fn spec_hover_cursor(
    is_maximized: bool,
    pos: Point,
    shadow_size: i32,
    size: Size,
    rounding: i32,
) -> Option<ResizeCursor> {
    if is_maximized {
        None
    } else {
        match spec_resize_edge(pos, shadow_size, size, rounding) {
            Some(edge) => Some(spec_cursor_for_edge(edge)),
            None => None,
        }
    }
}

/// The edge a press at `pos` resizes: none while the window is maximized,
/// else the grabbed edge, if any.
pub open spec fn spec_resize_on_press(
    is_maximized: bool,
    pos: Point,
    shadow_size: i32,
    size: Size,
    rounding: i32,
) -> Option<ResizeEdge> {
    if is_maximized {
        None
    } else {
        spec_resize_edge(pos, shadow_size, size, rounding)
    }
}

/// The edge across the window from `edge`.
pub open spec fn opposite(edge: ResizeEdge) -> ResizeEdge {
    match edge {
        ResizeEdge::Top => ResizeEdge::Bottom,
        ResizeEdge::TopRight => ResizeEdge::BottomLeft,
        ResizeEdge::Right => ResizeEdge::Left,
        ResizeEdge::BottomRight => ResizeEdge::TopLeft,
        ResizeEdge::Bottom => ResizeEdge::Top,
        ResizeEdge::BottomLeft => ResizeEdge::TopRight,
        ResizeEdge::Left => ResizeEdge::Right,
        ResizeEdge::TopLeft => ResizeEdge::BottomRight,
    }
}

/// `edge` seen in a mirror that swaps left and right.
pub open spec fn mirror_left_right(edge: ResizeEdge) -> ResizeEdge {
    match edge {
        ResizeEdge::Top => ResizeEdge::Top,
        ResizeEdge::TopRight => ResizeEdge::TopLeft,
        ResizeEdge::Right => ResizeEdge::Left,
        ResizeEdge::BottomRight => ResizeEdge::BottomLeft,
        ResizeEdge::Bottom => ResizeEdge::Bottom,
        ResizeEdge::BottomLeft => ResizeEdge::BottomRight,
        ResizeEdge::Left => ResizeEdge::Right,
        ResizeEdge::TopLeft => ResizeEdge::TopRight,
    }
}

/// `edge` seen in a mirror that swaps top and bottom.
pub open spec fn mirror_top_bottom(edge: ResizeEdge) -> ResizeEdge {
    match edge {
        ResizeEdge::Top => ResizeEdge::Bottom,
        ResizeEdge::TopRight => ResizeEdge::BottomRight,
        ResizeEdge::Right => ResizeEdge::Right,
        ResizeEdge::BottomRight => ResizeEdge::TopRight,
        ResizeEdge::Bottom => ResizeEdge::Top,
        ResizeEdge::BottomLeft => ResizeEdge::TopLeft,
        ResizeEdge::Left => ResizeEdge::Left,
        ResizeEdge::TopLeft => ResizeEdge::BottomLeft,
    }
}

/// Which edge, if any, a pointer at `pos` grabs in a window of `size` whose
/// resize band is `shadow_size` wide and whose corners are rounded by
/// `rounding`. `None` means the pointer is over the window's content.
pub fn resize_edge(pos: Point, shadow_size: i32, size: Size, rounding: i32) -> (edge: Option<
    ResizeEdge,
>)
    ensures
        edge == spec_resize_edge(pos, shadow_size, size, rounding),
{
    let x = pos.x as i64;
    let y = pos.y as i64;
    let shadow = shadow_size as i64;
    let reach = shadow_size as i64 + rounding as i64;
    let width = size.width as i64;
    let height = size.height as i64;
    let edge = if y < reach && x < reach {
        ResizeEdge::TopLeft
    } else if y < reach && x > width - reach {
        ResizeEdge::TopRight
    } else if y < shadow {
        ResizeEdge::Top
    } else if y > height - reach && x < reach {
        ResizeEdge::BottomLeft
    } else if y > height - reach && x > width - reach {
        ResizeEdge::BottomRight
    } else if y > height - shadow {
        ResizeEdge::Bottom
    } else if x < shadow {
        ResizeEdge::Left
    } else if x > width - shadow {
        ResizeEdge::Right
    } else {
        return None;
    };
    Some(edge)
}

/// The cursor shown while the pointer is over `edge`.
pub fn cursor_for_edge(edge: ResizeEdge) -> (cursor: ResizeCursor)
    ensures
        cursor == spec_cursor_for_edge(edge),
{
    match edge {
        ResizeEdge::Top | ResizeEdge::Bottom => ResizeCursor::UpDown,
        ResizeEdge::Left | ResizeEdge::Right => ResizeCursor::LeftRight,
        ResizeEdge::TopLeft | ResizeEdge::BottomRight => ResizeCursor::UpLeftDownRight,
        ResizeEdge::TopRight | ResizeEdge::BottomLeft => ResizeCursor::UpRightDownLeft,
    }
}

/// The resize cursor to show for a pointer at `pos`: none while the window
/// is maximized, else the cursor of the edge under the pointer, if any.
pub fn hover_cursor(
    is_maximized: bool,
    pos: Point,
    shadow_size: i32,
    size: Size,
    rounding: i32,
) -> (cursor: Option<ResizeCursor>)
    ensures
        cursor == spec_hover_cursor(is_maximized, pos, shadow_size, size, rounding),
{
    if is_maximized {
        return None;
    }
    match resize_edge(pos, shadow_size, size, rounding) {
        Some(edge) => Some(cursor_for_edge(edge)),
        None => None,
    }
}

/// The edge a left-button press at `pos` starts resizing: none while the
/// window is maximized, else the edge under the pointer, if any.
pub fn resize_on_press(
    is_maximized: bool,
    pos: Point,
    shadow_size: i32,
    size: Size,
    rounding: i32,
) -> (edge: Option<ResizeEdge>)
    ensures
        edge == spec_resize_on_press(is_maximized, pos, shadow_size, size, rounding),
{
    if is_maximized {
        return None;
    }
    resize_edge(pos, shadow_size, size, rounding)
}

/// No edge is grabbed exactly when the pointer lies at least a band's width
/// inside every side and outside the four corner squares.
pub proof fn lemma_no_edge_iff_inside(x: int, y: int, shadow: int, w: int, h: int, rounding: int)
    ensures
        edge_at(x, y, shadow, w, h, rounding) is None <==> {
            let reach = shadow + rounding;
            &&& shadow <= x <= w - shadow
            &&& shadow <= y <= h - shadow
            &&& !((y < reach || y > h - reach) && (x < reach || x > w - reach))
        },
{
}

/// Every grabbed edge lies where the pointer is: a side within the band of
/// that side, a corner within the corner square.
pub proof fn lemma_edge_near_pointer(x: int, y: int, shadow: int, w: int, h: int, rounding: int)
    ensures
        ({
            let reach = shadow + rounding;
            match edge_at(x, y, shadow, w, h, rounding) {
                Some(ResizeEdge::Top) => y < shadow,
                Some(ResizeEdge::Bottom) => y > h - shadow,
                Some(ResizeEdge::Left) => x < shadow,
                Some(ResizeEdge::Right) => x > w - shadow,
                Some(ResizeEdge::TopLeft) => y < reach && x < reach,
                Some(ResizeEdge::TopRight) => y < reach && x > w - reach,
                Some(ResizeEdge::BottomLeft) => y > h - reach && x < reach,
                Some(ResizeEdge::BottomRight) => y > h - reach && x > w - reach,
                None => true,
            }
        }),
{
}

/// In a window at least twice the corner reach wide, mirroring the pointer
/// left to right mirrors the grabbed edge.
pub proof fn lemma_mirror_left_right(x: int, y: int, shadow: int, w: int, h: int, rounding: int)
    requires
        0 <= rounding,
        w >= 2 * (shadow + rounding),
    ensures
        edge_at(w - x, y, shadow, w, h, rounding) == match edge_at(x, y, shadow, w, h, rounding) {
            Some(edge) => Some(mirror_left_right(edge)),
            None => None,
        },
{
}

/// In a window at least twice the corner reach tall, mirroring the pointer
/// top to bottom mirrors the grabbed edge.
pub proof fn lemma_mirror_top_bottom(x: int, y: int, shadow: int, w: int, h: int, rounding: int)
    requires
        0 <= rounding,
        h >= 2 * (shadow + rounding),
    ensures
        edge_at(x, h - y, shadow, w, h, rounding) == match edge_at(x, y, shadow, w, h, rounding) {
            Some(edge) => Some(mirror_top_bottom(edge)),
            None => None,
        },
{
}

/// An edge and the edge across from it share one cursor.
pub proof fn lemma_opposite_edges_share_cursor(edge: ResizeEdge)
    ensures
        spec_cursor_for_edge(opposite(edge)) == spec_cursor_for_edge(edge),
        opposite(opposite(edge)) == edge,
{
}

/// The cursor shown over a point is exactly the cursor of the edge that a
/// press there starts resizing, and no cursor shows where a press resizes
/// nothing.
pub proof fn lemma_hover_agrees_with_press(
    is_maximized: bool,
    pos: Point,
    shadow_size: i32,
    size: Size,
    rounding: i32,
)
    ensures
        ({
            let cursor = spec_hover_cursor(is_maximized, pos, shadow_size, size, rounding);
            let edge = spec_resize_on_press(is_maximized, pos, shadow_size, size, rounding);
            &&& cursor is Some <==> edge is Some
            &&& edge matches Some(e) ==> cursor == Some(spec_cursor_for_edge(e))
        }),
{
}

/// Every point of a corner square grabs that corner, and every point of a
/// side band between the corner squares grabs that side, in a window at
/// least twice the corner reach wide and tall.
pub proof fn lemma_corner_squares_and_bands(
    x: int,
    y: int,
    shadow: int,
    w: int,
    h: int,
    rounding: int,
)
    requires
        0 <= rounding,
        w >= 2 * (shadow + rounding),
        h >= 2 * (shadow + rounding),
    ensures
        y < shadow + rounding && x < shadow + rounding ==> edge_at(x, y, shadow, w, h, rounding)
            == Some(ResizeEdge::TopLeft),
        y < shadow + rounding && x > w - (shadow + rounding) ==> edge_at(x, y, shadow, w, h, rounding)
            == Some(ResizeEdge::TopRight),
        y > h - (shadow + rounding) && x < shadow + rounding ==> edge_at(x, y, shadow, w, h, rounding)
            == Some(ResizeEdge::BottomLeft),
        y > h - (shadow + rounding) && x > w - (shadow + rounding) ==> edge_at(
            x,
            y,
            shadow,
            w,
            h,
            rounding,
        ) == Some(ResizeEdge::BottomRight),
        y < shadow && shadow + rounding <= x <= w - (shadow + rounding) ==> edge_at(
            x,
            y,
            shadow,
            w,
            h,
            rounding,
        ) == Some(ResizeEdge::Top),
        y > h - shadow && shadow + rounding <= x <= w - (shadow + rounding) ==> edge_at(
            x,
            y,
            shadow,
            w,
            h,
            rounding,
        ) == Some(ResizeEdge::Bottom),
        x < shadow && shadow + rounding <= y <= h - (shadow + rounding) ==> edge_at(
            x,
            y,
            shadow,
            w,
            h,
            rounding,
        ) == Some(ResizeEdge::Left),
        x > w - shadow && shadow + rounding <= y <= h - (shadow + rounding) ==> edge_at(
            x,
            y,
            shadow,
            w,
            h,
            rounding,
        ) == Some(ResizeEdge::Right),
{
}

/// A maximized window never resizes: whatever the pointer, a press starts no
/// resize and no resize cursor shows.
pub proof fn lemma_maximized_never_resizes(pos: Point, shadow_size: i32, size: Size, rounding: i32)
    ensures
        spec_resize_on_press(true, pos, shadow_size, size, rounding) is None,
        spec_hover_cursor(true, pos, shadow_size, size, rounding) is None,
{
}

/// A window that is not maximized resizes along exactly the edge under the
/// pointer, and shows that edge's cursor.
pub proof fn lemma_restored_window_resizes_at_pointer(
    pos: Point,
    shadow_size: i32,
    size: Size,
    rounding: i32,
)
    ensures
        spec_resize_on_press(false, pos, shadow_size, size, rounding) == edge_at(
            pos.x as int,
            pos.y as int,
            shadow_size as int,
            size.width as int,
            size.height as int,
            rounding as int,
        ),
        spec_resize_on_press(false, pos, shadow_size, size, rounding) matches Some(e)
            ==> spec_hover_cursor(false, pos, shadow_size, size, rounding) == Some(
            spec_cursor_for_edge(e),
        ),
{
}

/// Whatever the window's proportions, corners take precedence over sides,
/// the top over the bottom, and the left over the right.
pub proof fn lemma_grab_precedence(x: int, y: int, shadow: int, w: int, h: int, rounding: int)
    ensures
        ({
            let reach = shadow + rounding;
            let e = edge_at(x, y, shadow, w, h, rounding);
            let top_square = y < reach;
            let bottom_square = y > h - reach;
            let left_square = x < reach;
            let right_square = x > w - reach;
            &&& top_square && left_square ==> e == Some(ResizeEdge::TopLeft)
            &&& top_square && right_square && !left_square ==> e == Some(ResizeEdge::TopRight)
            &&& y < shadow && !(top_square && (left_square || right_square)) ==> e == Some(
                ResizeEdge::Top,
            )
            &&& bottom_square && left_square && !top_square && y >= shadow ==> e == Some(
                ResizeEdge::BottomLeft,
            )
            &&& bottom_square && right_square && !left_square && !top_square && y >= shadow ==> e
                == Some(ResizeEdge::BottomRight)
            &&& y > h - shadow && y >= shadow && !((top_square || bottom_square) && (left_square
                || right_square)) ==> e == Some(ResizeEdge::Bottom)
            &&& x < shadow && shadow <= y <= h - shadow && !((top_square || bottom_square) && (
            left_square || right_square)) ==> e == Some(ResizeEdge::Left)
            &&& x > w - shadow && x >= shadow && shadow <= y <= h - shadow && !((top_square
                || bottom_square) && (left_square || right_square)) ==> e == Some(ResizeEdge::Right)
        }),
{
}

/// Two edges show the same cursor exactly when they are the same edge or
/// across the window from each other; the sides resize along their own axis
/// and each corner along its diagonal.
pub proof fn lemma_cursor_names_the_axis(a: ResizeEdge, b: ResizeEdge)
    ensures
        spec_cursor_for_edge(a) == spec_cursor_for_edge(b) <==> (b == a || b == opposite(a)),
        (a == ResizeEdge::Top || a == ResizeEdge::Bottom) <==> spec_cursor_for_edge(a)
            == ResizeCursor::UpDown,
        (a == ResizeEdge::Left || a == ResizeEdge::Right) <==> spec_cursor_for_edge(a)
            == ResizeCursor::LeftRight,
        (a == ResizeEdge::TopLeft || a == ResizeEdge::BottomRight) <==> spec_cursor_for_edge(a)
            == ResizeCursor::UpLeftDownRight,
        (a == ResizeEdge::TopRight || a == ResizeEdge::BottomLeft) <==> spec_cursor_for_edge(a)
            == ResizeCursor::UpRightDownLeft,
{
}

} // verus!
