//! The live configuration: the settings object that gates capture
//! behavior, and the store that holds the single writable instance.

use vstd::prelude::*;

verus! {

/// Abstract value of a [`Config`]: the same fields with the preset name
/// taken as a sequence of characters.
pub ghost struct ConfigV {
    pub preset: Option<Seq<char>>,
    pub enable: bool,
    pub key_down_transition_duration: u64,
    pub key_up_transition_duration: u64,
    pub mouse_move_enable: bool,
    pub mouse_move_radius_px: u64,
    pub mouse_move_transition_duration: u64,
}

/// The process-wide settings object. `enable` gates all event emission;
/// `mouse_move_enable` additionally gates pointer-move emission. The
/// durations and the radius are transported unchanged for external
/// renderers.
#[derive(Debug, PartialEq)]
pub struct Config {
    /// Name of the selected preset, if any.
    pub preset: Option<String>,
    /// Master switch for all event emission.
    pub enable: bool,
    /// Key-down transition time in milliseconds, transported unchanged.
    pub key_down_transition_duration: u64,
    /// Key-up transition time in milliseconds, transported unchanged.
    pub key_up_transition_duration: u64,
    /// Switch for pointer-move emission.
    pub mouse_move_enable: bool,
    /// Pointer-move radius in pixels, transported unchanged.
    pub mouse_move_radius_px: u64,
    /// Pointer-move transition time in milliseconds, transported unchanged.
    pub mouse_move_transition_duration: u64,
}

impl View for Config {
    type V = ConfigV;

    open spec fn view(&self) -> ConfigV {
        ConfigV {
            preset: match self.preset {
                Some(s) => Some(s@),
                None => None,
            },
            enable: self.enable,
            key_down_transition_duration: self.key_down_transition_duration,
            key_up_transition_duration: self.key_up_transition_duration,
            mouse_move_enable: self.mouse_move_enable,
            mouse_move_radius_px: self.mouse_move_radius_px,
            mouse_move_transition_duration: self.mouse_move_transition_duration,
        }
    }
}

impl Clone for Config {
    fn clone(&self) -> (r: Self)
        ensures
            r@ == self@,
    {
        Config {
            preset: match &self.preset {
                Some(s) => Some(s.clone()),
                None => None,
            },
            enable: self.enable,
            key_down_transition_duration: self.key_down_transition_duration,
            key_up_transition_duration: self.key_up_transition_duration,
            mouse_move_enable: self.mouse_move_enable,
            mouse_move_radius_px: self.mouse_move_radius_px,
            mouse_move_transition_duration: self.mouse_move_transition_duration,
        }
    }
}

/// The abstract value of the configuration the process starts from when
/// no stored value is available.
pub open spec fn default_config() -> ConfigV {
    ConfigV {
        preset: None,
        enable: true,
        key_down_transition_duration: 0,
        key_up_transition_duration: 100,
        mouse_move_enable: true,
        mouse_move_radius_px: 50,
        mouse_move_transition_duration: 100,
    }
}

impl Default for Config {
    /// The configuration the process starts from when no stored value is
    /// available.
    fn default() -> (c: Self)
        ensures
            c@ == default_config(),
    {
        Config {
            preset: None,
            enable: true,
            key_down_transition_duration: 0,
            key_up_transition_duration: 100,
            mouse_move_enable: true,
            mouse_move_radius_px: 50,
            mouse_move_transition_duration: 100,
        }
    }
}

impl Config {
    /// Replaces every field of `self` with the corresponding field of
    /// `config`; nothing of the previous value carries over.
    pub fn set(&mut self, config: Config)
        ensures
            final(self)@ == config@,
    {
        self.preset = config.preset;
        self.enable = config.enable;
        self.key_down_transition_duration = config.key_down_transition_duration;
        self.key_up_transition_duration = config.key_up_transition_duration;
        self.mouse_move_enable = config.mouse_move_enable;
        self.mouse_move_radius_px = config.mouse_move_radius_px;
        self.mouse_move_transition_duration = config.mouse_move_transition_duration;
    }
}

/// The single writable instance of [`Config`]. The caller guards it with
/// a lock; both operations touch the value only long enough to copy or
/// swap it.
pub struct ConfigStore {
    config: Config,
}

impl View for ConfigStore {
    type V = ConfigV;

    closed spec fn view(&self) -> ConfigV {
        self.config@
    }
}

impl ConfigStore {
    /// Creates the store holding `config`.
    pub fn new(config: Config) -> (s: Self)
        ensures
            s@ == config@,
    {
        ConfigStore { config }
    }

    /// Returns a full copy of the current value.
    pub fn read(&self) -> (c: Config)
        ensures
            c@ == self@,
    {
        self.config.clone()
    }

    /// Atomically swaps in `config` wholesale; the old value is
    /// discarded, no field is merged over.
    pub fn replace(&mut self, config: Config)
        ensures
            final(self)@ == config@,
    {
        self.config.set(config);
    }
}

} // verus!
