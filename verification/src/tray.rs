//! The command surface and the tray menu: the five named commands the UI
//! layers invoke, the static three-entry menu, and the routing from a menu
//! click to a command. Everything here is an immutable table built once at
//! startup; the identifiers and titles are part of the contract.

use vstd::prelude::*;

verus! {

/// The command surface invoked by the tray menu and the settings UI.
#[derive(Clone, Copy, Debug, PartialEq, Eq, Structural)]
pub enum Command {
    TriggerOverlay,
    GetOverlayDuration,
    OpenSettings,
    ExitApp,
    RestartTimer,
}

/// The three tray menu entries.
#[derive(Clone, Copy, Debug, PartialEq, Eq, Structural)]
pub enum MenuId {
    Trigger,
    Settings,
    Exit,
}

/// How a menu click runs its command: spawned on the asynchronous runtime,
/// or synchronously on the event thread (only exit, which terminates the
/// process).
#[derive(Clone, Copy, Debug, PartialEq, Eq, Structural)]
pub enum Dispatch {
    Spawned(Command),
    Synchronous(Command),
}

/// One entry of the static tray menu.
pub struct MenuEntry {
    pub id: MenuId,
    pub title: &'static str,
    pub enabled: bool,
}

/// The name a command is registered under on the invoke surface.
pub fn command_name(c: Command) -> (s: &'static str)
    ensures
        c == Command::TriggerOverlay ==> s@ == "trigger_overlay"@,
        c == Command::GetOverlayDuration ==> s@ == "get_overlay_duration"@,
        c == Command::OpenSettings ==> s@ == "open_settings"@,
        c == Command::ExitApp ==> s@ == "exit_app"@,
        c == Command::RestartTimer ==> s@ == "restart_timer"@,
{
    match c {
        Command::TriggerOverlay => "trigger_overlay",
        Command::GetOverlayDuration => "get_overlay_duration",
        Command::OpenSettings => "open_settings",
        Command::ExitApp => "exit_app",
        Command::RestartTimer => "restart_timer",
    }
}

/// The stable identifier a menu entry carries in the window system.
pub fn menu_id_text(id: MenuId) -> (s: &'static str)
    ensures
        id == MenuId::Trigger ==> s@ == "trigger"@,
        id == MenuId::Settings ==> s@ == "settings"@,
        id == MenuId::Exit ==> s@ == "exit"@,
{
    match id {
        MenuId::Trigger => "trigger",
        MenuId::Settings => "settings",
        MenuId::Exit => "exit",
    }
}

/// Builds the static tray menu: exactly three enabled entries, in order
/// "Start Break Now", "Settings", "Exit".
pub fn menu_items() -> (v: Vec<MenuEntry>)
    ensures
        v@.len() == 3,
        v@[0].id == MenuId::Trigger,
        v@[0].title@ == "Start Break Now"@,
        v@[0].enabled,
        v@[1].id == MenuId::Settings,
        v@[1].title@ == "Settings"@,
        v@[1].enabled,
        v@[2].id == MenuId::Exit,
        v@[2].title@ == "Exit"@,
        v@[2].enabled,
{
    let mut v: Vec<MenuEntry> = Vec::new();
    v.push(MenuEntry { id: MenuId::Trigger, title: "Start Break Now", enabled: true });
    v.push(MenuEntry { id: MenuId::Settings, title: "Settings", enabled: true });
    v.push(MenuEntry { id: MenuId::Exit, title: "Exit", enabled: true });
    v
}

/// Routes a tray menu click to its command: the trigger and settings
/// entries spawn their command on the asynchronous runtime; exit runs
/// synchronously and terminates the process.
pub fn route_menu_click(id: MenuId) -> (d: Dispatch)
    ensures
        id == MenuId::Trigger ==> d == Dispatch::Spawned(Command::TriggerOverlay),
        id == MenuId::Settings ==> d == Dispatch::Spawned(Command::OpenSettings),
        id == MenuId::Exit ==> d == Dispatch::Synchronous(Command::ExitApp),
{
    match id {
        MenuId::Trigger => Dispatch::Spawned(Command::TriggerOverlay),
        MenuId::Settings => Dispatch::Spawned(Command::OpenSettings),
        MenuId::Exit => Dispatch::Synchronous(Command::ExitApp),
    }
}

} // verus!
