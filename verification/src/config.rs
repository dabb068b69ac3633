//! The persisted settings of the overlay and the decision of what to do
//! with what was found on disk.
use vstd::prelude::*;
use crate::keys::{VK_NEXT, VK_PRIOR};

verus! {

/// Bit pattern of the `f32` value `10.0`.
pub const UP_VALUE_DEFAULT_BITS: u32 = 0x4120_0000;

/// Bit pattern of the `f32` value `-8.0`.
pub const DOWN_VALUE_DEFAULT_BITS: u32 = 0xC100_0000;

/// The settings that are saved between sessions. The two values written
/// by the hotkeys are `f32` values, held here by their bit patterns
/// (`f32::to_bits`).
#[derive(Clone, Copy, Debug, PartialEq, Eq, Structural)]
pub struct Config {
    pub key_y_velocity_up: i32,
    pub key_y_velocity_down: i32,
    pub y_velocity_up_bits: u32,
    pub y_velocity_down_bits: u32,
    pub notifications_enabled: bool,
}

/// The settings used when none could be loaded: page up and page down,
/// `10.0` and `-8.0`, notifications on.
pub open spec fn default_config() -> Config {
    Config {
        key_y_velocity_up: VK_PRIOR,
        key_y_velocity_down: VK_NEXT,
        y_velocity_up_bits: UP_VALUE_DEFAULT_BITS,
        y_velocity_down_bits: DOWN_VALUE_DEFAULT_BITS,
        notifications_enabled: true,
    }
}

impl Default for Config {
    fn default() -> (c: Config)
        ensures
            c == default_config(),
    {
        Config {
            key_y_velocity_up: VK_PRIOR,
            key_y_velocity_down: VK_NEXT,
            y_velocity_up_bits: UP_VALUE_DEFAULT_BITS,
            y_velocity_down_bits: DOWN_VALUE_DEFAULT_BITS,
            notifications_enabled: true,
        }
    }
}

/// What was found where the settings are kept.
#[derive(Clone, Copy, Debug, PartialEq, Eq, Structural)]
pub enum ConfigSource {
    /// The settings directory could not be determined.
    NoPath,
    /// There is no settings file.
    NotFound,
    /// The settings file could not be read.
    Unreadable,
    /// The settings file does not hold valid settings.
    Invalid,
    /// The settings file holds these settings.
    Parsed(Config),
}

/// The settings that loading from `source` yields, and whether the
/// defaults are to be written back: stored settings are used as they
/// are; otherwise the defaults are used, and written back unless the
/// settings directory is unknown.
pub open spec fn load_outcome(source: ConfigSource) -> (Config, bool) {
    match source {
        ConfigSource::Parsed(c) => (c, false),
        ConfigSource::NoPath => (default_config(), false),
        _ => (default_config(), true),
    }
}

impl Config {
    /// Decides which settings to use from what was found on disk; the
    /// second component says whether the defaults must be saved.
    pub fn load(source: ConfigSource) -> (r: (Config, bool))
        ensures
            r == load_outcome(source),
    {
        match source {
            ConfigSource::Parsed(c) => (c, false),
            ConfigSource::NoPath => (Config::default(), false),
            _ => (Config::default(), true),
        }
    }
}

/// The defaults, stated as values: page up (`0x21`) and page down
/// (`0x22`), the `f32` values `10.0` (`0x4120_0000`) and `-8.0`
/// (`0xC100_0000`), notifications on. Loading returns stored settings
/// unchanged and asks for no save; otherwise it returns the defaults and
/// asks to save them exactly when a settings directory exists.
pub proof fn lemma_load_law(source: ConfigSource)
    ensures
        default_config() == (Config {
            key_y_velocity_up: 0x21,
            key_y_velocity_down: 0x22,
            y_velocity_up_bits: 0x4120_0000,
            y_velocity_down_bits: 0xC100_0000,
            notifications_enabled: true,
        }),
        source matches ConfigSource::Parsed(c) ==> load_outcome(source) == (c, false),
        !(source is Parsed) ==> load_outcome(source).0 == default_config(),
        !(source is Parsed) ==> (load_outcome(source).1 <==> !(source is NoPath)),
{
}

} // verus!
