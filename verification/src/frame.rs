use vstd::prelude::*;

verus! {

/// Which sides of the window the window manager has tiled against a screen
/// edge or a neighbouring window.
#[derive(Clone, Copy, Debug, PartialEq, Eq, Structural)]
pub struct Tiling {
    pub top: bool,
    pub left: bool,
    pub right: bool,
    pub bottom: bool,
}

/// Who draws the window frame: the window manager, or the window itself
/// (client side), which must then adapt the frame to its tiling.
#[derive(Clone, Copy, Debug, PartialEq, Eq, Structural)]
pub enum Decorations {
    Server,
    Client { tiling: Tiling },
}

/// One flag per corner.
#[derive(Clone, Copy, Debug, PartialEq, Eq, Structural)]
pub struct Corners {
    pub top_left: bool,
    pub top_right: bool,
    pub bottom_right: bool,
    pub bottom_left: bool,
}

/// One flag per side.
#[derive(Clone, Copy, Debug, PartialEq, Eq, Structural)]
pub struct Sides {
    pub top: bool,
    pub right: bool,
    pub bottom: bool,
    pub left: bool,
}

/// How the client-drawn frame looks and behaves.
#[derive(Clone, Copy, Debug, PartialEq, Eq, Structural)]
pub struct FrameStyle {
    /// The window draws its own frame: a resize hit area over the backdrop,
    /// a one-pixel border on all four sides, and titlebar handlers for
    /// dragging, zooming and the window menu.
    pub client_drawn: bool,
    /// Corners of the backdrop and of the border that are rounded.
    pub rounded: Corners,
    /// Sides of the backdrop padded by the shadow width (the resize band).
    pub inset: Sides,
    /// Corners of the titlebar that are rounded.
    pub titlebar_rounded: Corners,
    /// Whether the border casts a drop shadow.
    pub shadow: bool,
}

pub open spec fn spec_is_tiled(tiling: Tiling) -> bool {
    tiling.top || tiling.left || tiling.right || tiling.bottom
}

pub open spec fn no_corners() -> Corners {
    Corners { top_left: false, top_right: false, bottom_right: false, bottom_left: false }
}

pub open spec fn no_sides() -> Sides {
    Sides { top: false, right: false, bottom: false, left: false }
}

/// A corner is rounded when neither side that meets there is tiled.
pub open spec fn spec_rounded_corners(tiling: Tiling) -> Corners {
    Corners {
        top_left: !(tiling.top || tiling.left),
        top_right: !(tiling.top || tiling.right),
        bottom_right: !(tiling.bottom || tiling.right),
        bottom_left: !(tiling.bottom || tiling.left),
    }
}

/// A side keeps its resize band when it is not tiled.
pub open spec fn spec_inset_sides(tiling: Tiling) -> Sides {
    Sides { top: !tiling.top, right: !tiling.right, bottom: !tiling.bottom, left: !tiling.left }
}

pub open spec fn spec_frame_style(decorations: Decorations) -> FrameStyle {
    match decorations {
        Decorations::Server => FrameStyle {
            client_drawn: false,
            rounded: no_corners(),
            inset: no_sides(),
            titlebar_rounded: no_corners(),
            shadow: false,
        },
        Decorations::Client { tiling } => {
            let rounded = spec_rounded_corners(tiling);
            FrameStyle {
                client_drawn: true,
                rounded,
                inset: spec_inset_sides(tiling),
                titlebar_rounded: Corners {
                    top_left: rounded.top_left,
                    top_right: rounded.top_right,
                    bottom_right: false,
                    bottom_left: false,
                },
                shadow: !spec_is_tiled(tiling),
            }
        },
    }
}

impl Tiling {
    /// Whether any side is tiled.
    pub fn is_tiled(&self) -> (tiled: bool)
        ensures
            tiled == spec_is_tiled(*self),
    {
        self.top || self.left || self.right || self.bottom
    }
}

/// The corners left round under `tiling`.
pub fn rounded_corners(tiling: &Tiling) -> (corners: Corners)
    ensures
        corners == spec_rounded_corners(*tiling),
{
    Corners {
        top_left: !(tiling.top || tiling.left),
        top_right: !(tiling.top || tiling.right),
        bottom_right: !(tiling.bottom || tiling.right),
        bottom_left: !(tiling.bottom || tiling.left),
    }
}

/// The sides that keep their resize band under `tiling`.
pub fn inset_sides(tiling: &Tiling) -> (sides: Sides)
    ensures
        sides == spec_inset_sides(*tiling),
{
    Sides { top: !tiling.top, right: !tiling.right, bottom: !tiling.bottom, left: !tiling.left }
}

/// The frame the window draws for `decorations`.
pub fn frame_style(decorations: &Decorations) -> (style: FrameStyle)
    ensures
        style == spec_frame_style(*decorations),
{
    match decorations {
        Decorations::Server => FrameStyle {
            client_drawn: false,
            rounded: Corners {
                top_left: false,
                top_right: false,
                bottom_right: false,
                bottom_left: false,
            },
            inset: Sides { top: false, right: false, bottom: false, left: false },
            titlebar_rounded: Corners {
                top_left: false,
                top_right: false,
                bottom_right: false,
                bottom_left: false,
            },
            shadow: false,
        },
        Decorations::Client { tiling } => {
            let rounded = rounded_corners(tiling);
            FrameStyle {
                client_drawn: true,
                rounded,
                inset: inset_sides(tiling),
                titlebar_rounded: Corners {
                    top_left: rounded.top_left,
                    top_right: rounded.top_right,
                    bottom_right: false,
                    bottom_left: false,
                },
                shadow: !tiling.is_tiled(),
            }
        },
    }
}

/// With server-side decorations the window draws no frame of its own.
pub proof fn lemma_server_frame_is_plain()
    ensures
        ({
            let style = spec_frame_style(Decorations::Server);
            &&& !style.client_drawn
            &&& !style.shadow
            &&& style.rounded == no_corners()
            &&& style.inset == no_sides()
            &&& style.titlebar_rounded == no_corners()
        }),
{
}

/// A client-drawn window tiled on no side is fully decorated: every corner
/// round, a resize band on every side, and a shadow.
pub proof fn lemma_floating_frame_fully_decorated(tiling: Tiling)
    requires
        !spec_is_tiled(tiling),
    ensures
        ({
            let style = spec_frame_style(Decorations::Client { tiling });
            &&& style.client_drawn
            &&& style.shadow
            &&& style.rounded == Corners {
                top_left: true,
                top_right: true,
                bottom_right: true,
                bottom_left: true,
            }
            &&& style.inset == Sides { top: true, right: true, bottom: true, left: true }
        }),
{
}

/// A client-drawn window tiled on every side is square, flush and without
/// shadow.
pub proof fn lemma_fully_tiled_frame_flush(tiling: Tiling)
    requires
        tiling.top && tiling.left && tiling.right && tiling.bottom,
    ensures
        ({
            let style = spec_frame_style(Decorations::Client { tiling });
            &&& style.client_drawn
            &&& !style.shadow
            &&& style.rounded == no_corners()
            &&& style.inset == no_sides()
            &&& style.titlebar_rounded == no_corners()
        }),
{
}

/// A rounded corner always lies between two sides that keep their band, and
/// a shadow is only cast by a frame that is round everywhere.
pub proof fn lemma_round_corners_sit_between_insets(decorations: Decorations)
    ensures
        ({
            let style = spec_frame_style(decorations);
            &&& style.rounded.top_left ==> style.inset.top && style.inset.left
            &&& style.rounded.top_right ==> style.inset.top && style.inset.right
            &&& style.rounded.bottom_right ==> style.inset.bottom && style.inset.right
            &&& style.rounded.bottom_left ==> style.inset.bottom && style.inset.left
            &&& style.shadow ==> style.rounded.top_left && style.rounded.top_right
                && style.rounded.bottom_right && style.rounded.bottom_left
        }),
{
}

/// The titlebar rounds exactly the frame's top corners and never its bottom
/// ones.
pub proof fn lemma_titlebar_follows_top_corners(decorations: Decorations)
    ensures
        ({
            let style = spec_frame_style(decorations);
            &&& style.titlebar_rounded.top_left == style.rounded.top_left
            &&& style.titlebar_rounded.top_right == style.rounded.top_right
            &&& !style.titlebar_rounded.bottom_left
            &&& !style.titlebar_rounded.bottom_right
        }),
{
}

/// A side keeps its resize band exactly when that side is not tiled.
pub proof fn lemma_band_on_untiled_sides(tiling: Tiling)
    ensures
        spec_inset_sides(tiling).top <==> !tiling.top,
        spec_inset_sides(tiling).right <==> !tiling.right,
        spec_inset_sides(tiling).bottom <==> !tiling.bottom,
        spec_inset_sides(tiling).left <==> !tiling.left,
{
}

/// A corner is rounded exactly when neither side meeting there is tiled.
pub proof fn lemma_round_exactly_where_both_sides_free(tiling: Tiling)
    ensures
        spec_rounded_corners(tiling).top_left <==> !tiling.top && !tiling.left,
        spec_rounded_corners(tiling).top_right <==> !tiling.top && !tiling.right,
        spec_rounded_corners(tiling).bottom_right <==> !tiling.bottom && !tiling.right,
        spec_rounded_corners(tiling).bottom_left <==> !tiling.bottom && !tiling.left,
{
}

/// A client-drawn frame draws its own border, keeps a band on exactly the
/// untiled sides, rounds exactly the corners between two untiled sides, and
/// casts a shadow exactly when no side is tiled.
pub proof fn lemma_client_frame_follows_tiling(tiling: Tiling)
    ensures
        ({
            let style = spec_frame_style(Decorations::Client { tiling });
            &&& style.client_drawn
            &&& style.inset == Sides {
                top: !tiling.top,
                right: !tiling.right,
                bottom: !tiling.bottom,
                left: !tiling.left,
            }
            &&& (style.rounded.top_left <==> !tiling.top && !tiling.left)
            &&& (style.rounded.top_right <==> !tiling.top && !tiling.right)
            &&& (style.rounded.bottom_right <==> !tiling.bottom && !tiling.right)
            &&& (style.rounded.bottom_left <==> !tiling.bottom && !tiling.left)
            &&& (style.shadow <==> !tiling.top && !tiling.left && !tiling.right && !tiling.bottom)
        }),
{
}

/// Mirroring the tiling left to right mirrors the bands and the rounded
/// corners.
pub proof fn lemma_frame_mirrors_left_right(tiling: Tiling)
    ensures
        ({
            let mirrored = Tiling {
                top: tiling.top,
                left: tiling.right,
                right: tiling.left,
                bottom: tiling.bottom,
            };
            let a = spec_frame_style(Decorations::Client { tiling });
            let b = spec_frame_style(Decorations::Client { tiling: mirrored });
            &&& b.inset == Sides {
                top: a.inset.top,
                right: a.inset.left,
                bottom: a.inset.bottom,
                left: a.inset.right,
            }
            &&& b.rounded == Corners {
                top_left: a.rounded.top_right,
                top_right: a.rounded.top_left,
                bottom_right: a.rounded.bottom_left,
                bottom_left: a.rounded.bottom_right,
            }
            &&& b.shadow == a.shadow
        }),
{
}

/// A tiling counts as tiled exactly when some side is tiled.
pub proof fn lemma_tiled_when_some_side_is(tiling: Tiling)
    ensures
        spec_is_tiled(tiling) <==> (tiling.top || tiling.left || tiling.right || tiling.bottom),
        !spec_is_tiled(tiling) <==> (tiling == Tiling {
            top: false,
            left: false,
            right: false,
            bottom: false,
        }),
{
}

} // verus!
