use tool::config::Config;
use tool::keys::{VK_ESCAPE, VK_LBUTTON, VK_RSHIFT};
use tool::tool::{binding_label, value_chain, FrameActions, FrameInput, HotkeyWrite, KeyAction, Tool, UiAction, UiEvent};

const MS: u64 = 1_000_000;

fn messages(t: &Tool) -> Vec<String> {
    (0..t.notification_count()).map(|i| t.notification(i).0.to_string()).collect()
}

fn frame(now: u64) -> FrameInput {
    FrameInput { focused: true, toggle_down: false, ui_wants_input: false, up_down: false, down_down: false, now }
}

fn toggle(t: &mut Tool, now: u64) -> bool {
    t.handle_frame(FrameInput { toggle_down: true, ..frame(now) }, &vec![]).refresh
}

fn keys(t: &mut Tool, pressed: &Vec<i32>, up_down: bool, down_down: bool, now: u64) -> KeyAction {
    t.handle_frame(FrameInput { up_down, down_down, ..frame(now) }, pressed).keys
}

fn custom() -> Config {
    Config {
        key_y_velocity_up: 0x26,
        key_y_velocity_down: 0x28,
        y_velocity_up_bits: 5.5f32.to_bits(),
        y_velocity_down_bits: (-2.0f32).to_bits(),
        notifications_enabled: false,
    }
}

#[test]
fn new_tool_reflects_settings() {
    let t = Tool::new(&custom(), 7);
    assert_eq!(messages(&t), vec!["Tool injected successfully!".to_string()]);
    assert_eq!(t.notification(0).1, 7);
    assert!(!t.show_gui());
    assert!(!t.time_locked());
    assert!(!t.notifications_enabled());
    assert_eq!(t.key_y_velocity_up(), 0x26);
    assert_eq!(t.key_y_velocity_down(), 0x28);
    assert_eq!(f32::from_bits(t.y_velocity_up_val()), 5.5);
    assert_eq!(f32::from_bits(t.y_velocity_down_val()), -2.0);
    assert_eq!(t.height_val(), 0);
    assert_eq!(t.unity_player_base(), None);
    assert_eq!(t.game_assembly_base(), None);
}

#[test]
fn settings_round_trip() {
    let mut t = Tool::new(&Config::default(), 0);
    t.handle_ui(UiEvent::UpValueInput { value: 7.0f32.to_bits(), edited: true });
    t.handle_ui(UiEvent::BindDownClicked);
    keys(&mut t, &vec![0x58], false, false, 1);
    let saved = t.current_config();
    let (loaded, _) = Config::load(tool::config::ConfigSource::Parsed(saved));
    assert_eq!(Tool::new(&loaded, 99).current_config(), saved);

    let t = Tool::new(&custom(), 0);
    assert_eq!(t.current_config(), custom());
    let t = Tool::new(&Config::default(), 0);
    assert_eq!(t.current_config(), Config::default());
}

#[test]
fn at_most_three_notifications_newest_kept() {
    let mut t = Tool::new(&Config::default(), 0);
    t.add_notification("a", 1);
    t.add_notification("b", 2);
    assert_eq!(messages(&t), vec!["Tool injected successfully!", "a", "b"]);
    t.add_notification("c", 3);
    assert_eq!(messages(&t), vec!["a", "b", "c"]);
    t.add_notification("d", 4);
    assert_eq!(messages(&t), vec!["b", "c", "d"]);
    assert_eq!(t.notification(2).1, 4);
}

#[test]
fn disabled_notifications_are_dropped() {
    let mut t = Tool::new(&Config::default(), 0);
    assert_eq!(t.handle_ui(UiEvent::NotificationsCheckbox { enabled: false, clicked: true }), UiAction::SaveConfig);
    assert!(!t.current_config().notifications_enabled);
    t.add_notification("a", 1);
    assert_eq!(messages(&t), vec!["Tool injected successfully!"]);
}

#[test]
fn notifications_expire_after_three_seconds() {
    let mut t = Tool::new(&Config::default(), 0);
    t.add_notification("a", 1_000 * MS);
    t.add_notification("b", 2_000 * MS);
    t.expire_notifications(3_000 * MS - 1);
    assert_eq!(messages(&t), vec!["Tool injected successfully!", "a", "b"]);
    t.expire_notifications(3_000 * MS);
    assert_eq!(messages(&t), vec!["a", "b"]);
    t.expire_notifications(4_500 * MS);
    assert_eq!(messages(&t), vec!["b"]);
    // A clock reading before creation counts as no time elapsed.
    t.expire_notifications(0);
    assert_eq!(messages(&t), vec!["b"]);
    t.expire_notifications(5_000 * MS);
    assert!(messages(&t).is_empty());
}

#[test]
fn toggle_is_debounced() {
    let mut t = Tool::new(&Config::default(), 0);
    assert!(!toggle(&mut t, 300 * MS));
    assert!(!toggle(&mut t, 301 * MS - 1));
    assert!(!t.handle_frame(frame(1_000 * MS), &vec![]).refresh);
    assert!(!t.show_gui());
    assert!(toggle(&mut t, 301 * MS));
    assert!(t.show_gui());
    assert!(!toggle(&mut t, 500 * MS));
    assert!(t.show_gui());
    assert!(!toggle(&mut t, 602 * MS));
    assert!(!t.show_gui());
    assert!(toggle(&mut t, 1_000 * MS));
    assert!(t.show_gui());
}

#[test]
fn binding_takes_first_allowed_key() {
    let mut t = Tool::new(&Config::default(), 0);
    assert_eq!(t.handle_ui(UiEvent::BindUpClicked), UiAction::Nothing);
    assert!(t.waiting_for_key_up());
    assert_eq!(binding_label(t.waiting_for_key_up()), "Press any key...");
    assert_eq!(binding_label(t.waiting_for_key_down()), "Bind Key");
    assert_eq!(keys(&mut t, &vec![], false, false, 1), KeyAction::Nothing);
    assert!(t.waiting_for_key_up());
    let pressed = vec![VK_LBUTTON, VK_ESCAPE, VK_RSHIFT, 0x41, 0x42];
    assert_eq!(keys(&mut t, &pressed, true, true, 2), KeyAction::SaveConfig);
    assert_eq!(t.key_y_velocity_up(), 0x41);
    assert!(!t.waiting_for_key_up());
    assert_eq!(messages(&t), vec!["Tool injected successfully!", "Bound UP action to A"]);
}

#[test]
fn binding_down_key() {
    let mut t = Tool::new(&Config::default(), 0);
    assert_eq!(t.handle_ui(UiEvent::BindUpClicked), UiAction::Nothing);
    assert_eq!(t.handle_ui(UiEvent::BindDownClicked), UiAction::Nothing);
    assert!(!t.waiting_for_key_up());
    assert!(t.waiting_for_key_down());
    assert_eq!(keys(&mut t, &vec![VK_RSHIFT, 255, 0x70], false, false, 1), KeyAction::SaveConfig);
    assert_eq!(t.key_y_velocity_down(), 0x70);
    assert!(!t.waiting_for_key_down());
    assert_eq!(messages(&t)[1], "Bound DOWN action to VK_112");
    assert_eq!(t.current_config().key_y_velocity_down, 0x70);
}

#[test]
fn reserved_keys_are_never_bound() {
    let mut t = Tool::new(&Config::default(), 0);
    assert_eq!(t.handle_ui(UiEvent::BindUpClicked), UiAction::Nothing);
    assert_eq!(keys(&mut t, &vec![VK_RSHIFT, VK_ESCAPE, VK_LBUTTON, 0, 255], false, false, 1), KeyAction::Nothing);
    assert_eq!(t.key_y_velocity_up(), 0x21);
    assert!(t.waiting_for_key_up());
}

#[test]
fn held_hotkey_writes_silently_after_first_frame() {
    let mut t = Tool::new(&Config::default(), 0);
    let up = t.y_velocity_up_val();
    let down = t.y_velocity_down_val();
    assert_eq!(
        keys(&mut t, &vec![], true, false, 1),
        KeyAction::Write { up: Some(HotkeyWrite { value: up, silent: false }), down: None }
    );
    assert_eq!(
        keys(&mut t, &vec![], true, true, 2),
        KeyAction::Write {
            up: Some(HotkeyWrite { value: up, silent: true }),
            down: Some(HotkeyWrite { value: down, silent: false }),
        }
    );
    assert_eq!(keys(&mut t, &vec![], false, true, 3), KeyAction::Write {
        up: None,
        down: Some(HotkeyWrite { value: down, silent: true }),
    });
    assert_eq!(keys(&mut t, &vec![], true, false, 4), KeyAction::Write {
        up: Some(HotkeyWrite { value: up, silent: false }),
        down: None,
    });
}

#[test]
fn write_outcomes_are_reported() {
    let mut t = Tool::new(&Config::default(), 0);
    t.record_write(true, false, "10.00", 1);
    t.record_write(false, false, "10.00", 2);
    t.record_write(true, true, "1.00", 3);
    t.record_write(false, true, "1.00", 4);
    assert_eq!(
        messages(&t),
        vec!["Tool injected successfully!", "Updated value to 10.00", "Failed to write memory!"]
    );
}

#[test]
fn time_controls() {
    let mut t = Tool::new(&Config::default(), 0);
    assert_eq!(t.time_lock_value(), None);
    let v = 12.5f32.to_bits();
    // Nothing touched: the value shown is not taken.
    assert_eq!(t.handle_ui(UiEvent::TimeControls { value: v, edited: false, locked: false, set_clicked: false }), UiAction::Nothing);
    assert_eq!(t.time_val(), 0);
    // Editing takes the value and writes it.
    assert_eq!(
        t.handle_ui(UiEvent::TimeControls { value: v, edited: true, locked: false, set_clicked: false }),
        UiAction::WriteTime { after_edit: Some(v), after_set: None }
    );
    assert_eq!(t.time_val(), v);
    // Locking takes the value and keeps writing it each frame.
    let w = 3.0f32.to_bits();
    assert_eq!(t.handle_ui(UiEvent::TimeControls { value: w, edited: false, locked: true, set_clicked: false }), UiAction::Nothing);
    assert!(t.time_locked());
    assert_eq!(t.time_lock_value(), Some(w));
    // The set button writes; editing and setting in one frame writes twice.
    assert_eq!(
        t.handle_ui(UiEvent::TimeControls { value: v, edited: true, locked: false, set_clicked: true }),
        UiAction::WriteTime { after_edit: Some(v), after_set: Some(v) }
    );
    assert!(!t.time_locked());
    assert_eq!(t.time_lock_value(), None);
    assert_eq!(t.time_val(), v);
}

#[test]
fn frame_gating() {
    let mut t = Tool::new(&Config::default(), 0);
    // Unfocused: nothing happens, even with the keys held.
    let input = FrameInput { focused: false, toggle_down: true, ui_wants_input: false, up_down: true, down_down: true, now: 400 * MS };
    assert_eq!(t.handle_frame(input, &vec![]), FrameActions { refresh: false, keys: KeyAction::Nothing });
    assert!(!t.show_gui());
    // Interface takes the input: toggling still works, hotkeys do not.
    let input = FrameInput { focused: true, toggle_down: true, ui_wants_input: true, up_down: true, down_down: false, now: 400 * MS };
    assert_eq!(t.handle_frame(input, &vec![]), FrameActions { refresh: true, keys: KeyAction::Nothing });
    assert!(t.show_gui());
    // A frame in which the overlay closes asks for no refresh.
    let input = FrameInput { toggle_down: true, ..frame(800 * MS) };
    assert_eq!(t.handle_frame(input, &vec![]).refresh, false);
    assert!(!t.show_gui());
}

#[test]
fn binding_flags_exclusive() {
    let mut t = Tool::new(&Config::default(), 0);
    assert!(!t.awaiting_binding());
    t.handle_ui(UiEvent::BindUpClicked);
    assert!(t.awaiting_binding());
    t.handle_ui(UiEvent::BindDownClicked);
    assert!(t.waiting_for_key_down() && !t.waiting_for_key_up());
    t.handle_ui(UiEvent::BindUpClicked);
    assert!(t.waiting_for_key_up() && !t.waiting_for_key_down());
    keys(&mut t, &vec![0x42], false, false, 1);
    assert!(!t.awaiting_binding());
}

#[test]
fn values_and_bases() {
    let mut t = Tool::new(&Config::default(), 0);
    t.read_values(Some(1.0f32.to_bits()), None, Some(3.0f32.to_bits()));
    assert_eq!(t.height_val(), 1.0f32.to_bits());
    assert_eq!(t.y_velocity_val(), 0);
    assert_eq!(t.time_val(), 3.0f32.to_bits());
    t.read_values(None, Some(2.0f32.to_bits()), None);
    assert_eq!(t.height_val(), 1.0f32.to_bits());
    assert_eq!(t.y_velocity_val(), 2.0f32.to_bits());
    t.update_bases(None, Some(0x4000));
    assert_eq!(t.unity_player_base(), None);
    assert_eq!(t.game_assembly_base(), Some(0x4000));
    t.update_bases(Some(0x1000), Some(0x5000));
    assert_eq!(t.unity_player_base(), Some(0x1000));
    assert_eq!(t.game_assembly_base(), Some(0x4000));
    // A later lookup that finds nothing does not clear a known base.
    t.update_bases(None, None);
    keys(&mut t, &vec![], true, true, 5);
    t.record_write(false, false, "1.00", 6);
    t.expire_notifications(7);
    assert_eq!(t.unity_player_base(), Some(0x1000));
    assert_eq!(t.game_assembly_base(), Some(0x4000));
}

#[test]
fn setters() {
    let mut t = Tool::new(&Config::default(), 0);
    assert_eq!(t.handle_ui(UiEvent::UpValueInput { value: 1.5f32.to_bits(), edited: true }), UiAction::SaveConfig);
    assert_eq!(t.handle_ui(UiEvent::DownValueInput { value: (-1.5f32).to_bits(), edited: false }), UiAction::Nothing);
    assert_eq!(f32::from_bits(t.current_config().y_velocity_up_bits), 1.5);
    assert_eq!(f32::from_bits(t.current_config().y_velocity_down_bits), -1.5);
}

#[test]
fn value_chains() {
    assert_eq!(value_chain(0), Some((0x023D5308, vec![0xB8, 0x18, 0x50, 0x20, 0x1C0])));
    assert_eq!(value_chain(1), Some((0x023D5308, vec![0xB8, 0x18, 0x50, 0x20, 0xC8])));
    assert_eq!(value_chain(2), Some((0x023C2D80, vec![0xB8, 0x28, 0x120, 0x10, 0x28, 0x220, 0x8BC])));
    assert_eq!(value_chain(3), None);
}
