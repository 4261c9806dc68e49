//! The daemon's configuration, read from a TOML document.

use vstd::prelude::*;
use toml::Table;
use crate::document::{
    parse_table, table_clone, table_get, table_items, toml_document, Entry, Item,
};
use crate::keymap::{commands_of, is_flat, table_is_flat, Keymap};

verus! {

/// Why a configuration is refused.
#[derive(Debug, Clone, Copy, PartialEq, Eq, Structural)]
pub enum ConfigError {
    /// The text is not a TOML document.
    InvalidToml,
    /// The document has no `hotkeys` entry.
    MissingHotkeys,
    /// The `hotkeys` entry is not a table of strings.
    MalformedHotkeys,
}

/// A setting that was given with a value that is no integer, and for which
/// the default was taken instead.
#[derive(Debug, Clone, Copy, PartialEq, Eq, Structural)]
pub enum ConfigWarning {
    /// `midi_device` is no integer; device 0 is taken.
    MidiDeviceNotInteger,
    /// `velocity_threshold` is no integer; 75 is taken.
    VelocityThresholdNotInteger,
    /// `octave_shift` is no integer; no shift is applied.
    OctaveShiftNotInteger,
}

/// What a table holds under the name of an integer setting.
#[derive(Debug, Clone, Copy, PartialEq, Eq, Structural)]
pub enum Setting {
    /// The table has no such key.
    Missing,
    /// The key is there, with a value that is no integer.
    NotInteger,
    /// The key is there with this integer.
    Integer(i64),
}

/// The settings of the daemon.
#[derive(Debug)]
pub struct Config {
    /// Index of the MIDI input port to listen on.
    pub midi_device: u64,
    /// Strike intensity below which a note is meant to be ignored. It is
    /// carried along; the dispatch of notes does not consult it.
    pub velocity_threshold: u8,
    /// The command of each note name.
    pub hotkeys: Keymap,
    /// Number of octaves by which every note name is shifted.
    pub octave_shift: i8,
    /// The settings that fell back to their default.
    pub warnings: Vec<ConfigWarning>,
}

/// What a document holds under the name of an integer setting.
pub open spec fn setting_of(items: Map<Seq<char>, Item>, key: Seq<char>) -> Setting {
    if !items.contains_key(key) {
        Setting::Missing
    } else {
        match items[key] {
            Item::Integer(i) => Setting::Integer(i),
            _ => Setting::NotInteger,
        }
    }
}

/// The device index that a document asks for: the integer under
/// `midi_device`, taken modulo 2^64; 0 if there is none.
pub open spec fn midi_device_of(items: Map<Seq<char>, Item>) -> int {
    match setting_of(items, "midi_device"@) {
        Setting::Integer(i) => i as int % 0x1_0000_0000_0000_0000,
        _ => 0,
    }
}

/// The velocity threshold that a document asks for: the integer under
/// `velocity_threshold`, taken modulo 256; 75 if there is none.
pub open spec fn velocity_threshold_of(items: Map<Seq<char>, Item>) -> int {
    match setting_of(items, "velocity_threshold"@) {
        Setting::Integer(i) => i as int % 256,
        _ => 75,
    }
}

/// The octave shift that a document asks for: the integer under
/// `octave_shift`, brought into the range from -128 to 127 by a multiple of
/// 256; 0 if there is none.
pub open spec fn octave_shift_of(items: Map<Seq<char>, Item>) -> int {
    match setting_of(items, "octave_shift"@) {
        Setting::Integer(i) => (i as int + 128) % 256 - 128,
        _ => 0,
    }
}

/// The table under `hotkeys`, or the reason why there is none.
pub open spec fn hotkeys_of(items: Map<Seq<char>, Item>) -> Result<
    Map<Seq<char>, Item>,
    ConfigError,
> {
    if !items.contains_key("hotkeys"@) {
        Err(ConfigError::MissingHotkeys)
    } else {
        match items["hotkeys"@] {
            Item::Table(section) => Ok(section),
            _ => Err(ConfigError::MalformedHotkeys),
        }
    }
}

/// The keymap that a document defines, or the reason why it defines none.
pub open spec fn keymap_of(items: Map<Seq<char>, Item>) -> Result<
    Map<Seq<char>, Seq<char>>,
    ConfigError,
> {
    match hotkeys_of(items) {
        Err(e) => Err(e),
        Ok(section) => if is_flat(section) {
            Ok(commands_of(section))
        } else {
            Err(ConfigError::MalformedHotkeys)
        },
    }
}

/// The warnings that a document gives rise to, in the order in which the
/// settings are read.
pub open spec fn warnings_of(items: Map<Seq<char>, Item>) -> Seq<ConfigWarning> {
    let device = if setting_of(items, "midi_device"@) == Setting::NotInteger {
        seq![ConfigWarning::MidiDeviceNotInteger]
    } else {
        Seq::empty()
    };
    let velocity = if setting_of(items, "velocity_threshold"@) == Setting::NotInteger {
        seq![ConfigWarning::VelocityThresholdNotInteger]
    } else {
        Seq::empty()
    };
    let octave = if setting_of(items, "octave_shift"@) == Setting::NotInteger {
        seq![ConfigWarning::OctaveShiftNotInteger]
    } else {
        Seq::empty()
    };
    device + velocity + octave
}

/// A document without a `hotkeys` entry defines no configuration: it is
/// refused with `MissingHotkeys`, whatever else it holds.
pub proof fn lemma_missing_hotkeys_is_refused(items: Map<Seq<char>, Item>)
    requires
        !items.contains_key("hotkeys"@),
    ensures
        keymap_of(items) == Err::<Map<Seq<char>, Seq<char>>, ConfigError>(
            ConfigError::MissingHotkeys,
        ),
{
}

/// A document is refused for its `hotkeys` entry alone, and exactly when
/// that entry is missing, is no table, or holds a value that is no string.
pub proof fn lemma_refused_for_hotkeys_only(items: Map<Seq<char>, Item>)
    ensures
        keymap_of(items) is Ok <==> items.contains_key("hotkeys"@) && items["hotkeys"@] is Table
            && is_flat(items["hotkeys"@]->Table_0),
        keymap_of(items) matches Err(e) ==> e == ConfigError::MissingHotkeys || e
            == ConfigError::MalformedHotkeys,
{
}

/// An empty `hotkeys` table is accepted, and the keymap it defines binds no
/// name.
pub proof fn lemma_empty_hotkeys_are_accepted(items: Map<Seq<char>, Item>, name: Seq<char>)
    requires
        items.contains_key("hotkeys"@),
        items["hotkeys"@] == Item::Table(Map::<Seq<char>, Item>::empty()),
    ensures
        keymap_of(items) is Ok,
        !keymap_of(items)->Ok_0.contains_key(name),
{
}

impl ConfigError {
    /// The error in words, for the operator.
    pub fn message(&self) -> (r: &'static str)
        ensures
            r@ == match *self {
                ConfigError::InvalidToml => "Config is not a TOML document. Quitting."@,
                ConfigError::MissingHotkeys => {
                    "Config doesn't contain hotkey definitions. Quitting."@
                },
                ConfigError::MalformedHotkeys => "Hotkey definitions are not correct. Quitting."@,
            },
    {
        match self {
            ConfigError::InvalidToml => "Config is not a TOML document. Quitting.",
            ConfigError::MissingHotkeys => "Config doesn't contain hotkey definitions. Quitting.",
            ConfigError::MalformedHotkeys => "Hotkey definitions are not correct. Quitting.",
        }
    }
}

impl ConfigWarning {
    /// The warning in words, for the operator.
    pub fn message(&self) -> (r: &'static str)
        ensures
            r@ == match *self {
                ConfigWarning::MidiDeviceNotInteger => {
                    "MIDI device id is not positive integer. Defaulting to 0."@
                },
                ConfigWarning::VelocityThresholdNotInteger => {
                    "Velocity threshold is not positive integer. Defaulting to 75."@
                },
                ConfigWarning::OctaveShiftNotInteger => {
                    "Octave shift is not an integer. Defaulting to 0."@
                },
            },
    {
        match self {
            ConfigWarning::MidiDeviceNotInteger => {
                "MIDI device id is not positive integer. Defaulting to 0."
            },
            ConfigWarning::VelocityThresholdNotInteger => {
                "Velocity threshold is not positive integer. Defaulting to 75."
            },
            ConfigWarning::OctaveShiftNotInteger => {
                "Octave shift is not an integer. Defaulting to 0."
            },
        }
    }
}

impl Config {
    /// Whether this configuration is the one that a document with the given
    /// entries defines.
    pub open spec fn reflects(&self, items: Map<Seq<char>, Item>) -> bool {
        &&& self.midi_device == midi_device_of(items)
        &&& self.velocity_threshold == velocity_threshold_of(items)
        &&& keymap_of(items) == Ok::<Map<Seq<char>, Seq<char>>, ConfigError>(self.hotkeys@)
        &&& self.octave_shift == octave_shift_of(items)
        &&& self.warnings@ == warnings_of(items)
    }
}

/// Reads one integer setting of a table.
pub fn read_setting(value: &Table, key: &str) -> (r: Setting)
    ensures
        r == setting_of(table_items(*value), key@),
{
    match table_get(value, key) {
        None => Setting::Missing,
        Some(Entry::Integer(i)) => Setting::Integer(i),
        Some(_) => Setting::NotInteger,
    }
}

/// The index of the MIDI input port: 0 unless the table gives an integer.
pub fn get_midi_device(value: &Table) -> (r: u64)
    ensures
        r == midi_device_of(table_items(*value)),
{
    match read_setting(value, "midi_device") {
        Setting::Integer(device_id) => {
            assert(device_id >= 0 ==> (device_id as u64) == device_id) by (bit_vector);
            assert(device_id < 0 ==> (device_id as u64) == device_id + 0x1_0000_0000_0000_0000)
                by (bit_vector);
            device_id as u64
        },
        _ => 0,
    }
}

/// The velocity threshold: 75 unless the table gives an integer.
pub fn get_velocity_threshold(value: &Table) -> (r: u8)
    ensures
        r == velocity_threshold_of(table_items(*value)),
{
    match read_setting(value, "velocity_threshold") {
        Setting::Integer(velocity_threshold) => {
            assert((velocity_threshold as u8) == velocity_threshold % 256) by (bit_vector);
            velocity_threshold as u8
        },
        _ => 75,
    }
}

/// The octave shift: 0 unless the table gives an integer.
pub fn get_octave_shift(value: &Table) -> (r: i8)
    ensures
        r == octave_shift_of(table_items(*value)),
{
    match read_setting(value, "octave_shift") {
        Setting::Integer(octave_shift) => {
            assert((octave_shift as i8) as i64 + 128 == (octave_shift + 128) % 256)
                by (bit_vector);
            octave_shift as i8
        },
        _ => 0,
    }
}

/// The table of hotkey definitions: a plain mapping from strings to strings,
/// which may be empty. A configuration without one is refused, and so is one
/// that has something else under that name, be it no table at all or a table
/// with a value that is no string.
pub fn get_hotkeys(value: &Table) -> (r: Result<Table, ConfigError>)
    ensures
        match r {
            Ok(hotkeys) => hotkeys_of(table_items(*value)) == Ok::<
                Map<Seq<char>, Item>,
                ConfigError,
            >(table_items(hotkeys)) && is_flat(table_items(hotkeys)),
            Err(e) => keymap_of(table_items(*value)) == Err::<
                Map<Seq<char>, Seq<char>>,
                ConfigError,
            >(e),
        },
{
    match table_get(value, "hotkeys") {
        None => Err(ConfigError::MissingHotkeys),
        Some(Entry::Table(hotkeys)) => {
            if table_is_flat(hotkeys) {
                Ok(table_clone(hotkeys))
            } else {
                Err(ConfigError::MalformedHotkeys)
            }
        },
        Some(_) => Err(ConfigError::MalformedHotkeys),
    }
}

/// The settings that fall back to their default because the table gives
/// them a value that is no integer.
pub fn get_warnings(value: &Table) -> (r: Vec<ConfigWarning>)
    ensures
        r@ == warnings_of(table_items(*value)),
{
    let mut warnings: Vec<ConfigWarning> = Vec::new();
    if read_setting(value, "midi_device") == Setting::NotInteger {
        warnings.push(ConfigWarning::MidiDeviceNotInteger);
    }
    if read_setting(value, "velocity_threshold") == Setting::NotInteger {
        warnings.push(ConfigWarning::VelocityThresholdNotInteger);
    }
    if read_setting(value, "octave_shift") == Setting::NotInteger {
        warnings.push(ConfigWarning::OctaveShiftNotInteger);
    }
    assert(warnings@ =~= warnings_of(table_items(*value)));
    warnings
}

/// Builds the configuration that a parsed document defines.
pub fn config_from_table(value: &Table) -> (r: Result<Config, ConfigError>)
    ensures
        match r {
            Ok(config) => config.reflects(table_items(*value)),
            Err(e) => keymap_of(table_items(*value)) == Err::<
                Map<Seq<char>, Seq<char>>,
                ConfigError,
            >(e),
        },
{
    let midi_device: u64 = get_midi_device(value);
    let velocity_threshold: u8 = get_velocity_threshold(value);
    let hotkeys = match get_hotkeys(value) {
        Ok(table) => match Keymap::from_table(table) {
            Ok(keymap) => keymap,
            Err(e) => {
                return Err(e);
            },
        },
        Err(e) => {
            return Err(e);
        },
    };
    let octave_shift: i8 = get_octave_shift(value);
    let warnings = get_warnings(value);
    Ok(Config { midi_device, velocity_threshold, hotkeys, octave_shift, warnings })
}

/// Reads a configuration from the text of a TOML document.
pub fn parse_config(config_text: String) -> (r: Result<Config, ConfigError>)
    ensures
        match toml_document(config_text@) {
            None => r matches Err(e) && e == ConfigError::InvalidToml,
            Some(items) => match r {
                Ok(config) => config.reflects(items),
                Err(e) => keymap_of(items) == Err::<Map<Seq<char>, Seq<char>>, ConfigError>(e),
            },
        },
{
    match parse_table(config_text.as_str()) {
        Ok(value) => config_from_table(&value),
        Err(_) => Err(ConfigError::InvalidToml),
    }
}

} // verus!
