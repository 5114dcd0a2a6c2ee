use sidebar_os::settings::{
    custom_position_key, stored_coordinates, WindowPos, CUSTOM_POSITION_PREFIX, SETTINGS_FILE,
};

#[test]
fn key_is_the_prefix_followed_by_the_mode() {
    assert_eq!(custom_position_key("top"), "custom_position_top");
    assert_eq!(custom_position_key("left"), "custom_position_left");
    assert_eq!(custom_position_key("right"), "custom_position_right");
}

#[test]
fn key_keeps_the_mode_unchanged() {
    assert_eq!(custom_position_key(""), "custom_position_");
    assert_eq!(custom_position_key(" Top "), "custom_position_ Top ");
    assert_eq!(custom_position_key("mitte-\u{fc}ber"), "custom_position_mitte-\u{fc}ber");
}

#[test]
fn different_modes_have_different_keys() {
    assert_ne!(custom_position_key("top"), custom_position_key("left"));
    assert_ne!(custom_position_key("top"), custom_position_key("Top"));
}

#[test]
fn settings_constants() {
    assert_eq!(SETTINGS_FILE, "settings.json");
    assert_eq!(CUSTOM_POSITION_PREFIX, "custom_position_");
}

#[test]
fn coordinates_are_x_then_y() {
    let position = WindowPos { x: -12, y: 34 };
    assert_eq!(position.coordinates(), (-12, 34));
}

#[test]
fn stored_coordinates_follow_the_lookup() {
    assert_eq!(stored_coordinates(Some(WindowPos { x: 5, y: -6 })), Some((5, -6)));
    assert_eq!(stored_coordinates(None), None);
}
