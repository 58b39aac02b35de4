use nudge_core::windows::{
    handle_close_requested, label_text, note_window_destroyed, open_settings, overlay_params,
    settings_params, show_main_window, show_overlay_window, trigger_overlay, CloseDecision,
    ShowAction, WindowLabel, WindowSet,
};

#[test]
fn overlay_show_is_focus_only_while_it_exists() {
    let mut w = WindowSet::at_startup(true);
    assert!(!w.overlay.exists);
    // first show creates the single overlay window
    assert_eq!(show_overlay_window(&mut w), ShowAction::CreateWindow);
    assert!(w.overlay.exists && w.overlay.visible);
    // two further shows while it exists: focus-only both times, still one window
    assert_eq!(show_overlay_window(&mut w), ShowAction::FocusExisting);
    assert_eq!(show_overlay_window(&mut w), ShowAction::FocusExisting);
    assert!(w.overlay.exists && w.overlay.visible);
}

#[test]
fn trigger_overlay_is_a_show_of_the_overlay_window() {
    let mut w = WindowSet::at_startup(false);
    assert_eq!(trigger_overlay(&mut w), ShowAction::CreateWindow);
    assert_eq!(trigger_overlay(&mut w), ShowAction::FocusExisting);
    assert!(w.overlay.exists);
    assert!(!w.settings.exists);
}

#[test]
fn overlay_is_recreatable_after_destruction() {
    let mut w = WindowSet::at_startup(true);
    assert_eq!(show_overlay_window(&mut w), ShowAction::CreateWindow);
    note_window_destroyed(&mut w, WindowLabel::Overlay);
    assert!(!w.overlay.exists);
    assert_eq!(show_overlay_window(&mut w), ShowAction::CreateWindow);
}

#[test]
fn overlay_creation_parameters_are_fixed() {
    let p = overlay_params();
    assert_eq!(p.url, "index.html");
    assert!(p.fullscreen);
    assert!(!p.decorations);
    assert!(p.skip_taskbar);
    assert!(p.centered);
}

#[test]
fn settings_window_focuses_or_creates_fixed_size() {
    let mut w = WindowSet::at_startup(true);
    assert_eq!(open_settings(&mut w), ShowAction::CreateWindow);
    assert_eq!(open_settings(&mut w), ShowAction::FocusExisting);
    let p = settings_params();
    assert_eq!(p.url, "settings.html");
    assert_eq!(p.title, "Nudge Settings");
    assert_eq!(p.width, 600);
    assert_eq!(p.height, 700);
    assert!(!p.resizable);
    assert!(p.centered);
}

#[test]
fn closing_main_hides_but_keeps_it() {
    let mut w = WindowSet::at_startup(true);
    show_main_window(&mut w);
    assert!(w.main.visible);
    let d = handle_close_requested(&mut w, WindowLabel::Main);
    assert_eq!(d, CloseDecision::PreventAndHide);
    // hidden but alive
    assert!(w.main.exists);
    assert!(!w.main.visible);
    // a subsequent show succeeds without recreation
    assert!(show_main_window(&mut w));
    assert!(w.main.exists && w.main.visible);
}

#[test]
fn other_windows_close_normally() {
    let mut w = WindowSet::at_startup(true);
    show_overlay_window(&mut w);
    open_settings(&mut w);
    assert_eq!(
        handle_close_requested(&mut w, WindowLabel::Overlay),
        CloseDecision::AllowClose
    );
    assert_eq!(
        handle_close_requested(&mut w, WindowLabel::Settings),
        CloseDecision::AllowClose
    );
    // the window system then destroys them
    note_window_destroyed(&mut w, WindowLabel::Overlay);
    note_window_destroyed(&mut w, WindowLabel::Settings);
    assert!(!w.overlay.exists);
    assert!(!w.settings.exists);
    assert!(w.main.exists);
}

#[test]
fn window_labels_are_stable() {
    assert_eq!(label_text(WindowLabel::Main), "main");
    assert_eq!(label_text(WindowLabel::Overlay), "overlay");
    assert_eq!(label_text(WindowLabel::Settings), "settings");
}
