//! What the shell does when something happens to it. The host delivers an
//! event; [`react`] names the action; the host carries it out.

use vstd::prelude::*;
use crate::text::same_text;

verus! {

/// Name of the panel's window.
pub const PANEL_LABEL: &'static str = "panel";

/// Event sent to the front end when the panel should open up.
pub const EXPAND_EVENT: &'static str = "panel-should-expand";

/// Event sent to the front end to fold or unfold the panel.
pub const TOGGLE_COLLAPSE_EVENT: &'static str = "toggle-collapse";

/// Something that happened to the shell.
pub enum ShellEvent {
    /// The application finished starting.
    Launched,
    /// The application was started a second time.
    Relaunched,
    /// An item of the tray menu was chosen; the payload is its id.
    MenuItem(String),
    /// The tray icon was clicked.
    TrayClick,
    /// A global hotkey fired; the payload is its accelerator.
    Hotkey(String),
    /// The panel was asked to close.
    CloseRequested,
}

/// What the host is to do about an event.
#[derive(Clone, Copy, Debug, PartialEq, Eq, Structural)]
pub enum ShellAction {
    /// Show and focus the panel and tell the front end to expand it;
    /// `pin_on_top` says whether the panel is also set always-on-top.
    Reveal { pin_on_top: bool },
    /// Tell the front end to fold or unfold the panel.
    ToggleCollapse,
    /// End the process.
    Quit,
    /// Swallow the event.
    Nothing,
}

/// Whether `accelerator` is one of the hotkeys that bring the panel up.
pub open spec fn is_reveal_hotkey(accelerator: Seq<char>) -> bool {
    accelerator == "Alt+Cmd+Space"@ || accelerator == "Ctrl+Space"@ || accelerator
        == "Cmd+Shift+Space"@
}

/// The action a tray menu item stands for.
pub open spec fn menu_action(id: Seq<char>) -> ShellAction {
    if id == "show"@ {
        ShellAction::Reveal { pin_on_top: true }
    } else if id == "quit"@ {
        ShellAction::Quit
    } else {
        ShellAction::Nothing
    }
}

/// The action a global hotkey stands for. `Escape` is registered only to be
/// swallowed, so that it cannot close the panel.
pub open spec fn hotkey_action(accelerator: Seq<char>) -> ShellAction {
    if is_reveal_hotkey(accelerator) {
        ShellAction::Reveal { pin_on_top: true }
    } else if accelerator == "Cmd+1"@ {
        ShellAction::ToggleCollapse
    } else {
        ShellAction::Nothing
    }
}

/// The action each event stands for.
pub open spec fn action_for(event: ShellEvent) -> ShellAction {
    match event {
        ShellEvent::Launched => ShellAction::Reveal { pin_on_top: false },
        ShellEvent::Relaunched => ShellAction::Reveal { pin_on_top: false },
        ShellEvent::MenuItem(id) => menu_action(id@),
        ShellEvent::TrayClick => ShellAction::Reveal { pin_on_top: true },
        ShellEvent::Hotkey(accelerator) => hotkey_action(accelerator@),
        ShellEvent::CloseRequested => ShellAction::Nothing,
    }
}

/// The hotkeys the shell registers, in registration order.
pub open spec fn hotkeys() -> Seq<Seq<char>> {
    seq!["Alt+Cmd+Space"@, "Ctrl+Space"@, "Cmd+Shift+Space"@, "Cmd+1"@, "Escape"@]
}

/// Lists the global hotkeys to register with the host.
pub fn registered_hotkeys() -> (keys: Vec<&'static str>)
    ensures
        keys@.len() == hotkeys().len(),
        forall|i: int| 0 <= i < keys@.len() ==> (#[trigger] keys@[i])@ == hotkeys()[i],
{
    vec!["Alt+Cmd+Space", "Ctrl+Space", "Cmd+Shift+Space", "Cmd+1", "Escape"]
}

/// Reads the id of a tray menu item.
fn react_to_menu(id: &str) -> (action: ShellAction)
    ensures
        action == menu_action(id@),
{
    if same_text(id, "show") {
        ShellAction::Reveal { pin_on_top: true }
    } else if same_text(id, "quit") {
        ShellAction::Quit
    } else {
        ShellAction::Nothing
    }
}

/// Reads the accelerator of a global hotkey.
fn react_to_hotkey(accelerator: &str) -> (action: ShellAction)
    ensures
        action == hotkey_action(accelerator@),
{
    if same_text(accelerator, "Alt+Cmd+Space") || same_text(accelerator, "Ctrl+Space")
        || same_text(accelerator, "Cmd+Shift+Space") {
        ShellAction::Reveal { pin_on_top: true }
    } else if same_text(accelerator, "Cmd+1") {
        ShellAction::ToggleCollapse
    } else {
        ShellAction::Nothing
    }
}

/// Decides what the host is to do about `event`.
pub fn react(event: &ShellEvent) -> (action: ShellAction)
    ensures
        action == action_for(*event),
{
    match event {
        ShellEvent::Launched => ShellAction::Reveal { pin_on_top: false },
        ShellEvent::Relaunched => ShellAction::Reveal { pin_on_top: false },
        ShellEvent::MenuItem(id) => react_to_menu(id.as_str()),
        ShellEvent::TrayClick => ShellAction::Reveal { pin_on_top: true },
        ShellEvent::Hotkey(accelerator) => react_to_hotkey(accelerator.as_str()),
        ShellEvent::CloseRequested => ShellAction::Nothing,
    }
}

} // verus!
