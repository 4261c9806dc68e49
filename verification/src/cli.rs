//! What the daemon is started with: where its configuration lies and which
//! settings the command line overrides.

use std::path::PathBuf;
use vstd::prelude::*;
use vstd::utf8::encode_utf8;

verus! {

/// `std::path::PathBuf`. Nothing of its inside is known here.
#[verifier::external_type_specification]
#[verifier::external_body]
pub struct ExPathBuf(std::path::PathBuf);

/// The bytes that make up a path, as `OsStr::as_encoded_bytes` gives them.
pub uninterp spec fn path_bytes(path: PathBuf) -> Seq<u8>;

/// The bytes of the path that `PathBuf::push` makes of a path with the given
/// bytes when it is extended by `component`.
pub uninterp spec fn pushed_bytes(base: Seq<u8>, component: Seq<char>) -> Seq<u8>;

/// Why the arguments of the command line cannot be made use of.
#[derive(Debug, Clone, Copy, PartialEq, Eq, Structural)]
pub enum CliError {
    /// No configuration file was named and the home directory, under which
    /// the default one lies, cannot be determined.
    HomeDirectoryUnknown,
}

impl CliError {
    /// The error in words, for the operator.
    pub fn message(&self) -> (r: &'static str)
        ensures
            r@ == match *self {
                CliError::HomeDirectoryUnknown => "Can't determine home directory"@,
            },
    {
        match self {
            CliError::HomeDirectoryUnknown => "Can't determine home directory",
        }
    }
}

/// The arguments that the daemon was started with.
#[derive(Debug)]
pub struct AppArgs {
    /// Where the configuration is read from.
    pub config_path: PathBuf,
    /// Index of the MIDI input port to listen on.
    pub midi_device: u64,
    /// Strike intensity below which a note is meant to be ignored.
    pub velocity_threshold: u8,
    /// Whether to show the available devices and leave.
    pub list_devices: bool,
}

/// The home directory of the current user, as `home::home_dir` finds it
/// from the environment, or `None` if it finds none. Nothing is claimed of
/// the outcome.
#[verifier::external_body]
fn home_dir() -> Option<PathBuf> {
    home::home_dir()
}

/// Makes a path of a string with `PathBuf::from`: the bytes of the path are
/// the UTF-8 bytes of the string.
#[verifier::external_body]
fn path_from_string(text: &String) -> (path: PathBuf)
    ensures
        path_bytes(path) == encode_utf8(text@),
{
    PathBuf::from(text)
}

/// Extends a path by one component with `PathBuf::push`: the bytes of the
/// path afterwards are those that [`pushed_bytes`] names for its bytes before
/// and the component.
#[verifier::external_body]
fn path_push(path: &mut PathBuf, component: &str)
    ensures
        path_bytes(*final(path)) == pushed_bytes(path_bytes(*old(path)), component@),
{
    path.push(component)
}

/// The bytes of the default configuration path under a home directory:
/// `.config`, then `midi-hkd`, then `config.toml`.
pub open spec fn default_config_bytes(home: Seq<u8>) -> Seq<u8> {
    pushed_bytes(pushed_bytes(pushed_bytes(home, ".config"@), "midi-hkd"@), "config.toml"@)
}

/// Whether a result is one that the choice of a configuration path may end
/// in, given the path that the command line names, if it names one. A path
/// that is named is taken as it is. Without one, the result is the default
/// path under some home directory, or the error that there is none.
pub open spec fn is_config_path(
    config_arg: Option<Seq<char>>,
    r: Result<PathBuf, CliError>,
) -> bool {
    match config_arg {
        Some(text) => r matches Ok(path) && path_bytes(path) == encode_utf8(text),
        None => match r {
            Ok(path) => exists|home: Seq<u8>|
                path_bytes(path) == #[trigger] default_config_bytes(home),
            Err(e) => e == CliError::HomeDirectoryUnknown,
        },
    }
}

/// The default configuration path for a user whose home directory is `home`.
pub fn default_config_path_in(home: PathBuf) -> (path: PathBuf)
    ensures
        path_bytes(path) == default_config_bytes(path_bytes(home)),
{
    let mut config_directory = home;
    path_push(&mut config_directory, ".config");
    path_push(&mut config_directory, "midi-hkd");
    path_push(&mut config_directory, "config.toml");
    config_directory
}

/// The default configuration path, given what the search for the home
/// directory came to: the path under that directory, or the error that there
/// is none.
pub fn default_config_path_from(home: Option<PathBuf>) -> (r: Result<PathBuf, CliError>)
    ensures
        match home {
            Some(directory) => r matches Ok(path) && path_bytes(path) == default_config_bytes(
                path_bytes(directory),
            ),
            None => r matches Err(e) && e == CliError::HomeDirectoryUnknown,
        },
{
    match home {
        Some(directory) => Ok(default_config_path_in(directory)),
        None => Err(CliError::HomeDirectoryUnknown),
    }
}

/// The default configuration path of the current user, or the error that the
/// home directory cannot be determined. Which of the two it is, and which
/// directory, is for the environment to say: the result is what
/// [`default_config_path_from`] makes of the outcome of the search.
pub fn default_config_path() -> (r: Result<PathBuf, CliError>)
    ensures
        is_config_path(None, r),
{
    let home = home_dir();
    let ghost outcome = home;
    let r = default_config_path_from(home);
    assert(outcome matches Some(directory) ==> path_bytes(r->Ok_0) == default_config_bytes(
        path_bytes(directory),
    ));
    r
}

/// The path of the configuration: the one that the command line names, or
/// else the default path of the current user.
pub fn config_path(config_arg: Option<&String>) -> (r: Result<PathBuf, CliError>)
    ensures
        is_config_path(
            match config_arg {
                Some(text) => Some(text@),
                None => None,
            },
            r,
        ),
{
    match config_arg {
        Some(text) => Ok(path_from_string(text)),
        None => default_config_path(),
    }
}

impl AppArgs {
    /// Puts the arguments together from what the command line gave: the
    /// configuration path as [`config_path`] chooses it, device 0 and a
    /// velocity threshold of 75 unless others are given. A threshold is
    /// taken modulo 256.
    pub fn gather(
        config: Option<&String>,
        midi_device: Option<u64>,
        velocity_threshold: Option<u64>,
        list_devices: bool,
    ) -> (r: Result<AppArgs, CliError>)
        ensures
            match r {
                Ok(args) => {
                    &&& is_config_path(
                        match config {
                            Some(text) => Some(text@),
                            None => None,
                        },
                        Ok(args.config_path),
                    )
                    &&& args.midi_device == match midi_device {
                        Some(device) => device,
                        None => 0,
                    }
                    &&& args.velocity_threshold == match velocity_threshold {
                        Some(threshold) => threshold as int % 256,
                        None => 75,
                    }
                    &&& args.list_devices == list_devices
                },
                Err(e) => config is None && e == CliError::HomeDirectoryUnknown,
            },
    {
        let config_path = match config_path(config) {
            Ok(path) => path,
            Err(e) => {
                return Err(e);
            },
        };
        let midi_device: u64 = match midi_device {
            Some(device) => device,
            None => 0,
        };
        let velocity_threshold: u8 = match velocity_threshold {
            Some(threshold) => {
                assert((threshold as u8) == threshold % 256) by (bit_vector);
                threshold as u8
            },
            None => 75,
        };
        Ok(AppArgs { config_path, midi_device, velocity_threshold, list_devices })
    }
}

} // verus!
