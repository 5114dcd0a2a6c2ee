use sidebar_os::shell::{
    react, registered_hotkeys, ShellAction, ShellEvent, EXPAND_EVENT, PANEL_LABEL,
    TOGGLE_COLLAPSE_EVENT,
};
use sidebar_os::text::same_text;

#[test]
fn launch_and_relaunch_reveal_without_pinning() {
    assert_eq!(react(&ShellEvent::Launched), ShellAction::Reveal { pin_on_top: false });
    assert_eq!(react(&ShellEvent::Relaunched), ShellAction::Reveal { pin_on_top: false });
}

#[test]
fn tray_click_reveals_and_pins() {
    assert_eq!(react(&ShellEvent::TrayClick), ShellAction::Reveal { pin_on_top: true });
}

#[test]
fn menu_items_by_id() {
    assert_eq!(
        react(&ShellEvent::MenuItem("show".to_string())),
        ShellAction::Reveal { pin_on_top: true }
    );
    assert_eq!(react(&ShellEvent::MenuItem("quit".to_string())), ShellAction::Quit);
    assert_eq!(react(&ShellEvent::MenuItem("Quit".to_string())), ShellAction::Nothing);
    assert_eq!(react(&ShellEvent::MenuItem(String::new())), ShellAction::Nothing);
}

#[test]
fn hotkeys_by_accelerator() {
    for key in ["Alt+Cmd+Space", "Ctrl+Space", "Cmd+Shift+Space"] {
        assert_eq!(
            react(&ShellEvent::Hotkey(key.to_string())),
            ShellAction::Reveal { pin_on_top: true }
        );
    }
    assert_eq!(react(&ShellEvent::Hotkey("Cmd+1".to_string())), ShellAction::ToggleCollapse);
    assert_eq!(react(&ShellEvent::Hotkey("Escape".to_string())), ShellAction::Nothing);
    assert_eq!(react(&ShellEvent::Hotkey("Cmd+2".to_string())), ShellAction::Nothing);
}

#[test]
fn close_requests_are_swallowed() {
    assert_eq!(react(&ShellEvent::CloseRequested), ShellAction::Nothing);
}

#[test]
fn registered_hotkeys_in_order() {
    assert_eq!(
        registered_hotkeys(),
        vec!["Alt+Cmd+Space", "Ctrl+Space", "Cmd+Shift+Space", "Cmd+1", "Escape"]
    );
}

#[test]
fn shell_constants() {
    assert_eq!(PANEL_LABEL, "panel");
    assert_eq!(EXPAND_EVENT, "panel-should-expand");
    assert_eq!(TOGGLE_COLLAPSE_EVENT, "toggle-collapse");
}

#[test]
fn same_text_compares_character_by_character() {
    assert!(same_text("show", "show"));
    assert!(same_text("", ""));
    assert!(!same_text("show", "Show"));
    assert!(!same_text("show", "show "));
}
