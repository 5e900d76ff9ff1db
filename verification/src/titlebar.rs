use vstd::prelude::*;

verus! {

/// What a left-button press on the empty titlebar does.
#[derive(Clone, Copy, Debug, PartialEq, Eq, Structural)]
pub enum TitlebarAction {
    /// A single click starts dragging the window.
    StartMove,
    /// A double click maximizes or restores the window.
    Zoom,
    /// Any other click count does nothing.
    Ignore,
}

/// The icons of the titlebar's window buttons.
pub struct TitlebarIcons {
    pub close: &'static str,
    pub minimize: &'static str,
    pub maximize: &'static str,
}

/// The `WM_SYSCOMMAND` window message.
pub const WM_SYSCOMMAND: u32 = 0x0112;

/// The system command that maximizes a window.
pub const SC_MAXIMIZE: usize = 0xF030;

/// The system command that restores a maximized window.
pub const SC_RESTORE: usize = 0xF120;

pub open spec fn spec_titlebar_press(click_count: usize) -> TitlebarAction {
    if click_count == 1 {
        TitlebarAction::StartMove
    } else if click_count == 2 {
        TitlebarAction::Zoom
    } else {
        TitlebarAction::Ignore
    }
}

pub open spec fn spec_toggle_maximize_command(is_maximized: bool) -> usize {
    if is_maximized {
        SC_RESTORE
    } else {
        SC_MAXIMIZE
    }
}

/// The action of a left-button press with `click_count` clicks on the
/// titlebar.
pub fn titlebar_press(click_count: usize) -> (action: TitlebarAction)
    ensures
        action == spec_titlebar_press(click_count),
{
    if click_count == 1 {
        TitlebarAction::StartMove
    } else if click_count == 2 {
        TitlebarAction::Zoom
    } else {
        TitlebarAction::Ignore
    }
}

/// The icons of the window buttons: the maximize button shows two squares
/// (restore) while the window is maximized and one square otherwise.
pub fn titlebar_icons(is_maximized: bool) -> (icons: TitlebarIcons)
    ensures
        icons.close@ == "filled/x.svg"@,
        icons.minimize@ == "outline/minus.svg"@,
        is_maximized ==> icons.maximize@ == "outline/squares.svg"@,
        !is_maximized ==> icons.maximize@ == "outline/square.svg"@,
{
    let maximize = if is_maximized {
        "outline/squares.svg"
    } else {
        "outline/square.svg"
    };
    TitlebarIcons { close: "filled/x.svg", minimize: "outline/minus.svg", maximize }
}

/// The system command that the maximize button posts on platforms where it
/// drives the native maximize and restore: restore when maximized, maximize
/// otherwise.
pub fn toggle_maximize_command(is_maximized: bool) -> (command: usize)
    ensures
        command == spec_toggle_maximize_command(is_maximized),
{
    if is_maximized {
        SC_RESTORE
    } else {
        SC_MAXIMIZE
    }
}

/// The maximize button never posts the same command in both states, so each
/// press flips the window between maximized and restored.
pub proof fn lemma_toggle_flips(is_maximized: bool)
    ensures
        spec_toggle_maximize_command(is_maximized) != spec_toggle_maximize_command(!is_maximized),
        spec_toggle_maximize_command(true) == SC_RESTORE,
        spec_toggle_maximize_command(false) == SC_MAXIMIZE,
{
}

/// The maximize icon tells the two window states apart.
pub proof fn lemma_maximize_icons_differ()
    ensures
        "outline/squares.svg"@ != "outline/square.svg"@,
{
    reveal_strlit("outline/squares.svg");
    reveal_strlit("outline/square.svg");
    assert("outline/squares.svg"@.len() != "outline/square.svg"@.len());
}

/// Only a single click drags the window and only a double click zooms it;
/// every other click count leaves the window alone.
pub proof fn lemma_click_counts(click_count: usize)
    ensures
        spec_titlebar_press(click_count) == TitlebarAction::StartMove <==> click_count == 1,
        spec_titlebar_press(click_count) == TitlebarAction::Zoom <==> click_count == 2,
        spec_titlebar_press(click_count) == TitlebarAction::Ignore <==> (click_count != 1
            && click_count != 2),
{
}

} // verus!
