use tool::config::{Config, ConfigSource};

fn custom() -> Config {
    Config {
        key_y_velocity_up: 0x26,
        key_y_velocity_down: 0x28,
        y_velocity_up_bits: 5.5f32.to_bits(),
        y_velocity_down_bits: (-2.0f32).to_bits(),
        notifications_enabled: false,
    }
}

#[test]
fn default_settings() {
    let c = Config::default();
    assert_eq!(c.key_y_velocity_up, 0x21);
    assert_eq!(c.key_y_velocity_down, 0x22);
    assert_eq!(f32::from_bits(c.y_velocity_up_bits), 10.0);
    assert_eq!(f32::from_bits(c.y_velocity_down_bits), -8.0);
    assert!(c.notifications_enabled);
}

#[test]
fn stored_settings_are_used_as_they_are() {
    assert_eq!(Config::load(ConfigSource::Parsed(custom())), (custom(), false));
}

#[test]
fn defaults_are_saved_when_nothing_usable_is_stored() {
    assert_eq!(Config::load(ConfigSource::NotFound), (Config::default(), true));
    assert_eq!(Config::load(ConfigSource::Unreadable), (Config::default(), true));
    assert_eq!(Config::load(ConfigSource::Invalid), (Config::default(), true));
}

#[test]
fn defaults_are_not_saved_without_a_settings_directory() {
    assert_eq!(Config::load(ConfigSource::NoPath), (Config::default(), false));
}
