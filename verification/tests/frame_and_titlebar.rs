use template_window::frame::{
    frame_style, inset_sides, rounded_corners, Corners, Decorations, Sides, Tiling,
};
use template_window::pages::{AppWindow, Page};
use template_window::titlebar::{
    titlebar_icons, titlebar_press, toggle_maximize_command, TitlebarAction, SC_MAXIMIZE,
    SC_RESTORE, WM_SYSCOMMAND,
};

fn tiling(top: bool, left: bool, right: bool, bottom: bool) -> Tiling {
    Tiling { top, left, right, bottom }
}

const ALL_CORNERS: Corners =
    Corners { top_left: true, top_right: true, bottom_right: true, bottom_left: true };
const NO_CORNERS: Corners =
    Corners { top_left: false, top_right: false, bottom_right: false, bottom_left: false };
const ALL_SIDES: Sides = Sides { top: true, right: true, bottom: true, left: true };
const NO_SIDES: Sides = Sides { top: false, right: false, bottom: false, left: false };

#[test]
fn server_frame_is_plain() {
    let style = frame_style(&Decorations::Server);
    assert!(!style.client_drawn);
    assert!(!style.shadow);
    assert_eq!(style.rounded, NO_CORNERS);
    assert_eq!(style.inset, NO_SIDES);
    assert_eq!(style.titlebar_rounded, NO_CORNERS);
}

#[test]
fn floating_frame_is_fully_decorated() {
    let style = frame_style(&Decorations::Client { tiling: tiling(false, false, false, false) });
    assert!(style.client_drawn);
    assert!(style.shadow);
    assert_eq!(style.rounded, ALL_CORNERS);
    assert_eq!(style.inset, ALL_SIDES);
    assert_eq!(
        style.titlebar_rounded,
        Corners { top_left: true, top_right: true, bottom_right: false, bottom_left: false }
    );
}

#[test]
fn fully_tiled_frame_is_flush() {
    let style = frame_style(&Decorations::Client { tiling: tiling(true, true, true, true) });
    assert!(style.client_drawn);
    assert!(!style.shadow);
    assert_eq!(style.rounded, NO_CORNERS);
    assert_eq!(style.inset, NO_SIDES);
    assert_eq!(style.titlebar_rounded, NO_CORNERS);
}

#[test]
fn left_half_tiling() {
    // Snapped to the left half of the screen: top, left and bottom touch.
    let t = tiling(true, true, false, true);
    assert!(t.is_tiled());
    assert_eq!(rounded_corners(&t), NO_CORNERS);
    assert_eq!(inset_sides(&t), Sides { top: false, right: true, bottom: false, left: false });
    let style = frame_style(&Decorations::Client { tiling: t });
    assert!(!style.shadow);
}

#[test]
fn only_top_tiled_keeps_bottom_corners() {
    let t = tiling(true, false, false, false);
    assert_eq!(
        rounded_corners(&t),
        Corners { top_left: false, top_right: false, bottom_right: true, bottom_left: true }
    );
    let style = frame_style(&Decorations::Client { tiling: t });
    assert_eq!(style.titlebar_rounded, NO_CORNERS);
    assert!(!style.shadow);
}

#[test]
fn every_tiling_keeps_corners_between_insets() {
    for bits in 0u8..16 {
        let t = tiling(bits & 1 != 0, bits & 2 != 0, bits & 4 != 0, bits & 8 != 0);
        let style = frame_style(&Decorations::Client { tiling: t });
        let (r, i) = (style.rounded, style.inset);
        assert!(!r.top_left || (i.top && i.left));
        assert!(!r.top_right || (i.top && i.right));
        assert!(!r.bottom_right || (i.bottom && i.right));
        assert!(!r.bottom_left || (i.bottom && i.left));
        assert_eq!(style.shadow, bits == 0);
        assert_eq!(t.is_tiled(), bits != 0);
    }
}

#[test]
fn titlebar_clicks() {
    assert_eq!(titlebar_press(1), TitlebarAction::StartMove);
    assert_eq!(titlebar_press(2), TitlebarAction::Zoom);
    assert_eq!(titlebar_press(0), TitlebarAction::Ignore);
    assert_eq!(titlebar_press(3), TitlebarAction::Ignore);
}

#[test]
fn maximize_icon_tracks_state() {
    let maximized = titlebar_icons(true);
    let restored = titlebar_icons(false);
    assert_eq!(maximized.maximize, "outline/squares.svg");
    assert_eq!(restored.maximize, "outline/square.svg");
    assert_ne!(maximized.maximize, restored.maximize);
    assert_eq!(maximized.close, "filled/x.svg");
    assert_eq!(maximized.minimize, "outline/minus.svg");
}

#[test]
fn toggle_command_flips() {
    assert_eq!(WM_SYSCOMMAND, 0x0112);
    assert_eq!(toggle_maximize_command(true), SC_RESTORE);
    assert_eq!(toggle_maximize_command(false), SC_MAXIMIZE);
    assert_eq!(SC_RESTORE, 0xF120);
    assert_eq!(SC_MAXIMIZE, 0xF030);
}

#[test]
fn window_shows_the_last_page_set() {
    let mut window: AppWindow<Page<&str, u32>> = AppWindow::new(Page::home("home"));
    assert_eq!(*window.page(), Page::Home("home"));
    window.set_page(Page::settings(7));
    assert_eq!(*window.page(), Page::OtherPage(7));
    window.set_page(Page::home("back"));
    assert_eq!(*window.page(), Page::Home("back"));
}
