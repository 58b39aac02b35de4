//! Window-state model: existence and visibility of the three windows the
//! application owns (`main`, `overlay`, `settings`), the idempotent show
//! logic for the overlay and the settings windows, and the close-request
//! guard that keeps the `main` window alive by hiding it.
//!
//! The window system itself is an external collaborator: this module decides
//! what to do (focus an existing window, or create one with fixed
//! parameters) and tracks the state; performing the action and reporting
//! creation or destruction back is the shell's job.

use vstd::prelude::*;

verus! {

/// The three windows the application owns.
#[derive(Clone, Copy, Debug, PartialEq, Eq, Structural)]
pub enum WindowLabel {
    Main,
    Overlay,
    Settings,
}

/// Existence and visibility of one window.
#[derive(Clone, Copy, Debug, PartialEq, Eq, Structural)]
pub struct WindowSlot {
    pub exists: bool,
    pub visible: bool,
}

/// State of all three windows.
#[derive(Clone, Copy, Debug, PartialEq, Eq, Structural)]
pub struct WindowSet {
    pub main: WindowSlot,
    pub overlay: WindowSlot,
    pub settings: WindowSlot,
}

/// What a show request asks of the window system.
#[derive(Clone, Copy, Debug, PartialEq, Eq, Structural)]
pub enum ShowAction {
    /// The window already exists: bring it to front and focus it.
    FocusExisting,
    /// The window does not exist: create it.
    CreateWindow,
}

/// What the close-request guard decides for a window.
#[derive(Clone, Copy, Debug, PartialEq, Eq, Structural)]
pub enum CloseDecision {
    /// Veto the close and hide the window instead.
    PreventAndHide,
    /// Let the window close and be destroyed normally.
    AllowClose,
}

/// Fixed creation parameters of the break overlay window.
pub struct OverlayParams {
    pub url: &'static str,
    pub fullscreen: bool,
    pub decorations: bool,
    pub skip_taskbar: bool,
    pub centered: bool,
}

/// Fixed creation parameters of the settings window.
pub struct SettingsParams {
    pub url: &'static str,
    pub title: &'static str,
    pub width: u32,
    pub height: u32,
    pub resizable: bool,
    pub centered: bool,
}

/// The label a window carries in the window system.
pub fn label_text(label: WindowLabel) -> (s: &'static str)
    ensures
        label == WindowLabel::Main ==> s@ == "main"@,
        label == WindowLabel::Overlay ==> s@ == "overlay"@,
        label == WindowLabel::Settings ==> s@ == "settings"@,
{
    match label {
        WindowLabel::Main => "main",
        WindowLabel::Overlay => "overlay",
        WindowLabel::Settings => "settings",
    }
}

/// How the overlay window is created: full-screen, chrome-less, hidden
/// from the taskbar, centered, loading the primary UI content.
pub fn overlay_params() -> (p: OverlayParams)
    ensures
        p.url@ == "index.html"@,
        p.fullscreen,
        !p.decorations,
        p.skip_taskbar,
        p.centered,
{
    OverlayParams {
        url: "index.html",
        fullscreen: true,
        decorations: false,
        skip_taskbar: true,
        centered: true,
    }
}

/// How the settings window is created: fixed 600 by 700, non-resizable,
/// centered, loading the settings UI content.
pub fn settings_params() -> (p: SettingsParams)
    ensures
        p.url@ == "settings.html"@,
        p.title@ == "Nudge Settings"@,
        p.width == 600,
        p.height == 700,
        !p.resizable,
        p.centered,
{
    SettingsParams {
        url: "settings.html",
        title: "Nudge Settings",
        width: 600,
        height: 700,
        resizable: false,
        centered: true,
    }
}

impl WindowSet {
    /// State right after startup: the `main` window, when the shell created
    /// one, is hidden; no overlay or settings window exists yet.
    pub fn at_startup(main_exists: bool) -> (w: WindowSet)
        ensures
            w.main == (WindowSlot { exists: main_exists, visible: false }),
            w.overlay == (WindowSlot { exists: false, visible: false }),
            w.settings == (WindowSlot { exists: false, visible: false }),
    {
        WindowSet {
            main: WindowSlot { exists: main_exists, visible: false },
            overlay: WindowSlot { exists: false, visible: false },
            settings: WindowSlot { exists: false, visible: false },
        }
    }
}

/// How many overlay windows are live.
pub open spec fn overlay_count(w: WindowSet) -> nat {
    if w.overlay.exists {
        1
    } else {
        0
    }
}

/// The action a show of the overlay takes: focus-only when the window
/// already exists, creation otherwise.
pub open spec fn spec_overlay_action(w: WindowSet) -> ShowAction {
    if w.overlay.exists {
        ShowAction::FocusExisting
    } else {
        ShowAction::CreateWindow
    }
}

/// The window state after a show of the overlay.
pub open spec fn spec_after_overlay_show(w: WindowSet) -> WindowSet {
    WindowSet { overlay: WindowSlot { exists: true, visible: true }, ..w }
}

/// The action a show of the settings window takes.
pub open spec fn spec_settings_action(w: WindowSet) -> ShowAction {
    if w.settings.exists {
        ShowAction::FocusExisting
    } else {
        ShowAction::CreateWindow
    }
}

/// The window state after opening the settings window.
pub open spec fn spec_after_open_settings(w: WindowSet) -> WindowSet {
    WindowSet { settings: WindowSlot { exists: true, visible: true }, ..w }
}

/// The close-request guard's decision: only `main` is vetoed and hidden.
pub open spec fn spec_close_decision(label: WindowLabel) -> CloseDecision {
    if label == WindowLabel::Main {
        CloseDecision::PreventAndHide
    } else {
        CloseDecision::AllowClose
    }
}

/// The window state after the guard handled a close request. A vetoed close
/// hides `main`; an allowed close changes nothing here (the destruction is
/// reported separately, once the window system performed it).
pub open spec fn spec_after_close_request(w: WindowSet, label: WindowLabel) -> WindowSet {
    if label == WindowLabel::Main {
        WindowSet { main: WindowSlot { exists: w.main.exists, visible: false }, ..w }
    } else {
        w
    }
}

/// Shows the break overlay, idempotently: when the overlay window already
/// exists the request is focus-only and nothing is created; otherwise a new
/// window is to be created (with the parameters of `overlay_params`).
pub fn show_overlay_window(w: &mut WindowSet) -> (a: ShowAction)
    ensures
        a == spec_overlay_action(*old(w)),
        *final(w) == spec_after_overlay_show(*old(w)),
{
    let a = if w.overlay.exists {
        ShowAction::FocusExisting
    } else {
        ShowAction::CreateWindow
    };
    w.overlay = WindowSlot { exists: true, visible: true };
    a
}

/// Manual trigger of the break overlay: exactly a show of the overlay
/// window. It touches no timer state, so a manual trigger neither resets
/// nor delays the periodic schedule.
pub fn trigger_overlay(w: &mut WindowSet) -> (a: ShowAction)
    ensures
        a == spec_overlay_action(*old(w)),
        *final(w) == spec_after_overlay_show(*old(w)),
{
    show_overlay_window(w)
}

/// Opens the settings window: focus-only when it exists, otherwise a new
/// fixed-size window is to be created (with the parameters of
/// `settings_params`).
pub fn open_settings(w: &mut WindowSet) -> (a: ShowAction)
    ensures
        a == spec_settings_action(*old(w)),
        *final(w) == spec_after_open_settings(*old(w)),
{
    let a = if w.settings.exists {
        ShowAction::FocusExisting
    } else {
        ShowAction::CreateWindow
    };
    w.settings = WindowSlot { exists: true, visible: true };
    a
}

/// Shows the persistent `main` window again. It is never recreated: the
/// show succeeds exactly when the window is still alive, and then only
/// makes it visible.
pub fn show_main_window(w: &mut WindowSet) -> (focused: bool)
    ensures
        focused == old(w).main.exists,
        focused ==> *final(w) == (WindowSet {
            main: WindowSlot { exists: true, visible: true },
            ..*old(w)
        }),
        !focused ==> *final(w) == *old(w),
{
    if w.main.exists {
        w.main = WindowSlot { exists: true, visible: true };
        true
    } else {
        false
    }
}

/// The close-request guard: a close of `main` is vetoed and the window is
/// hidden instead ("minimize to tray"); every other window closes and is
/// destroyed normally.
pub fn handle_close_requested(w: &mut WindowSet, label: WindowLabel) -> (d: CloseDecision)
    ensures
        d == spec_close_decision(label),
        *final(w) == spec_after_close_request(*old(w), label),
{
    match label {
        WindowLabel::Main => {
            w.main = WindowSlot { exists: w.main.exists, visible: false };
            CloseDecision::PreventAndHide
        },
        _ => CloseDecision::AllowClose,
    }
}

/// Records that the window system destroyed a window (a normal close, or a
/// creation that failed after being planned): the slot is empty again and
/// eligible for recreation on the next show.
pub fn note_window_destroyed(w: &mut WindowSet, label: WindowLabel)
    ensures
        *final(w) == (match label {
            WindowLabel::Main => WindowSet {
                main: WindowSlot { exists: false, visible: false },
                ..*old(w)
            },
            WindowLabel::Overlay => WindowSet {
                overlay: WindowSlot { exists: false, visible: false },
                ..*old(w)
            },
            WindowLabel::Settings => WindowSet {
                settings: WindowSlot { exists: false, visible: false },
                ..*old(w)
            },
        }),
{
    let gone = WindowSlot { exists: false, visible: false };
    match label {
        WindowLabel::Main => w.main = gone,
        WindowLabel::Overlay => w.overlay = gone,
        WindowLabel::Settings => w.settings = gone,
    }
}

/// Law: showing the overlay is idempotent, the live overlay count never
/// exceeds one, and while the overlay window already exists every sequential
/// show is focus-only: neither of two back-to-back shows plans a creation.
pub proof fn lemma_overlay_show_idempotent(w: WindowSet)
    ensures
        spec_after_overlay_show(spec_after_overlay_show(w)) == spec_after_overlay_show(w),
        overlay_count(spec_after_overlay_show(w)) == 1,
        w.overlay.exists ==> spec_overlay_action(w) == ShowAction::FocusExisting
            && spec_overlay_action(spec_after_overlay_show(w)) == ShowAction::FocusExisting,
{
}

/// Law: a close request on the `main` window is vetoed and leaves it
/// hidden-but-alive, and a subsequent show of `main` succeeds without any
/// recreation.
pub proof fn lemma_main_close_hides_but_keeps(w: WindowSet)
    requires
        w.main.exists,
    ensures
        spec_close_decision(WindowLabel::Main) == CloseDecision::PreventAndHide,
        spec_after_close_request(w, WindowLabel::Main).main.exists,
        !spec_after_close_request(w, WindowLabel::Main).main.visible,
{
}

} // verus!
