//! Decisions of the tray icon: its menu, clicks on it, where the dashboard
//! window opens, and the tooltip.

use vstd::prelude::*;

use crate::profile::{ProfileData, RankInfo};
use crate::text::same_text;

verus! {

/// Width of the dashboard window, in pixels.
pub const WINDOW_WIDTH: i32 = 460;

/// Height of the dashboard window, in pixels.
pub const WINDOW_HEIGHT: i32 = 580;

/// What a tray menu entry does.
#[derive(Debug, Clone, Copy, PartialEq, Eq)]
pub enum MenuAction {
    ShowWindow,
    Quit,
    RefreshNow,
    OpenSettings,
    Ignore,
}

/// The action of the tray menu entry with the given id.
pub open spec fn menu_action_of(id: Seq<char>) -> MenuAction {
    if id == "show"@ {
        MenuAction::ShowWindow
    } else if id == "quit"@ {
        MenuAction::Quit
    } else if id == "refresh"@ {
        MenuAction::RefreshNow
    } else if id == "settings"@ {
        MenuAction::OpenSettings
    } else {
        MenuAction::Ignore
    }
}

/// The action of the tray menu entry with the given id; unknown ids do nothing.
pub fn menu_action(id: &str) -> (action: MenuAction)
    ensures
        action == menu_action_of(id@),
{
    if same_text(id, "show") {
        MenuAction::ShowWindow
    } else if same_text(id, "quit") {
        MenuAction::Quit
    } else if same_text(id, "refresh") {
        MenuAction::RefreshNow
    } else if same_text(id, "settings") {
        MenuAction::OpenSettings
    } else {
        MenuAction::Ignore
    }
}

/// What a click on the tray icon does to the dashboard window.
#[derive(Debug, Clone, Copy, PartialEq, Eq)]
pub enum ClickAction {
    HideWindow,
    ShowAtClick,
    Nothing,
}

/// A release of the left button toggles the window: a visible window is
/// hidden, a hidden one is shown at the click. Other clicks do nothing.
pub fn click_action(left_button: bool, released: bool, window_visible: bool) -> (action: ClickAction)
    ensures
        action == (if !(left_button && released) {
            ClickAction::Nothing
        } else if window_visible {
            ClickAction::HideWindow
        } else {
            ClickAction::ShowAtClick
        }),
{
    if !(left_button && released) {
        ClickAction::Nothing
    } else if window_visible {
        ClickAction::HideWindow
    } else {
        ClickAction::ShowAtClick
    }
}

/// The larger of `v` and the screen margin 8.
pub open spec fn at_least_margin(v: int) -> int {
    if v < 8 { 8 } else { v }
}

/// Where the window opens after a click at (`cx`, `cy`): centred on the
/// click horizontally; below the click on macOS (where the menu bar is at
/// the top), above it elsewhere; never closer than 8 pixels to the top or
/// left edge of the screen.
pub fn click_position(cx: i32, cy: i32, macos: bool) -> (pos: (i32, i32))
    requires
        cx - WINDOW_WIDTH / 2 >= i32::MIN,
        macos ==> cy + 8 <= i32::MAX,
        !macos ==> cy - WINDOW_HEIGHT - 8 >= i32::MIN,
    ensures
        pos.0 == at_least_margin(cx - WINDOW_WIDTH / 2),
        pos.1 == at_least_margin(if macos { cy + 8 } else { cy - WINDOW_HEIGHT - 8 }),
{
    let x = cx - WINDOW_WIDTH / 2;
    let y = if macos { cy + 8 } else { cy - WINDOW_HEIGHT - 8 };
    let x = if x < 8 { 8 } else { x };
    let y = if y < 8 { 8 } else { y };
    (x, y)
}

/// Where the window opens from the menu: at the right edge of the screen,
/// 12 pixels in; on macOS at `top` (just below the menu bar), elsewhere 60
/// pixels above the bottom edge. `win_w` and `win_h` are the window's size
/// on this screen.
pub fn default_position(screen_w: i32, screen_h: i32, win_w: i32, win_h: i32, top: i32, macos: bool) -> (pos: (i32, i32))
    requires
        i32::MIN <= screen_w - win_w <= i32::MAX,
        i32::MIN <= screen_w - win_w - 12,
        !macos ==> i32::MIN <= screen_h - win_h <= i32::MAX,
        !macos ==> i32::MIN <= screen_h - win_h - 60,
    ensures
        pos.0 == screen_w - win_w - 12,
        pos.1 == (if macos { top as int } else { screen_h - win_h - 60 }),
{
    if macos {
        (screen_w - win_w - 12, top)
    } else {
        (screen_w - win_w - 12, screen_h - win_h - 60)
    }
}

/// The tray tooltip: "CHARACTER (REALM)", followed by
/// " | Score: VALUE W#WORLD_RANK" when the completion score is known.
pub open spec fn tooltip_text(character: Seq<char>, realm: Seq<char>, completion: Option<RankInfo>) -> Seq<char> {
    let base = character + " ("@ + realm + ")"@;
    match completion {
        Some(cs) => base + " | Score: "@ + cs.value@ + " W#"@ + cs.world_rank@,
        None => base,
    }
}

/// The tray tooltip for the tracked character and its profile.
pub fn tray_tooltip(character: &str, realm: &str, profile: &ProfileData) -> (tooltip: String)
    ensures
        tooltip@ == tooltip_text(character@, realm@, profile.completion_score),
{
    let mut tooltip = character.to_owned();
    tooltip.append(" (");
    tooltip.append(realm);
    tooltip.append(")");
    if let Some(cs) = &profile.completion_score {
        tooltip.append(" | Score: ");
        tooltip.append(cs.value.as_str());
        tooltip.append(" W#");
        tooltip.append(cs.world_rank.as_str());
    }
    tooltip
}

} // verus!
