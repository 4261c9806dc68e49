use midi_hkd::cli::{
    config_path, default_config_path, default_config_path_from, default_config_path_in, AppArgs,
    CliError,
};
use std::path::PathBuf;

#[test]
fn default_config() {
    assert_eq!(config_path(None).unwrap(), default_config_path().unwrap());
}

#[test]
fn custom_config() {
    assert_eq!(
        config_path(Some(&String::from(
            "/home/user/.config/my-custom-config.toml"
        )))
        .unwrap(),
        PathBuf::from("/home/user/.config/my-custom-config.toml")
    );
}

#[test]
fn custom_config_accented() {
    assert_eq!(
        config_path(Some(&String::from(
            "/home/àèìòùÀÈÌÒÙáéíóúýÁÉÍÓÚÝâêîôûÂÊÎÔÛãñõÃÑÕäëïöüÿÄËÏÖÜŸ/.config/my-custom-config.toml"
        )))
        .unwrap(),
        PathBuf::from("/home/àèìòùÀÈÌÒÙáéíóúýÁÉÍÓÚÝâêîôûÂÊÎÔÛãñõÃÑÕäëïöüÿÄËÏÖÜŸ/.config/my-custom-config.toml")
    );
}

#[test]
fn default_config_lies_under_the_home_directory() {
    let path = default_config_path_in(PathBuf::from("/home/user"));
    let mut expected = PathBuf::from("/home/user");
    expected.push(".config");
    expected.push("midi-hkd");
    expected.push("config.toml");
    assert_eq!(path, expected);
    assert_ne!(path, PathBuf::from("/home/user"));
    assert!(path.ends_with("midi-hkd/config.toml"));
    assert!(path.starts_with("/home/user/.config"));
}

#[test]
fn default_config_has_three_components_more_than_home() {
    let home = PathBuf::from("/srv/operator");
    let path = default_config_path_in(home.clone());
    assert_eq!(path.components().count(), home.components().count() + 3);
    assert_eq!(path.file_name().unwrap(), "config.toml");
}

#[test]
fn gather_takes_defaults() {
    let config = String::from("/etc/midi-hkd.toml");
    let args = AppArgs::gather(Some(&config), None, None, false).unwrap();
    assert_eq!(args.config_path, PathBuf::from("/etc/midi-hkd.toml"));
    assert_eq!(args.midi_device, 0);
    assert_eq!(args.velocity_threshold, 75);
    assert!(!args.list_devices);
}

#[test]
fn gather_takes_what_is_given() {
    let config = String::from("hotkeys.toml");
    let args = AppArgs::gather(Some(&config), Some(3), Some(46), true).unwrap();
    assert_eq!(args.config_path, PathBuf::from("hotkeys.toml"));
    assert_eq!(args.midi_device, 3);
    assert_eq!(args.velocity_threshold, 46);
    assert!(args.list_devices);
}

#[test]
fn gather_wraps_the_velocity_threshold() {
    let config = String::from("hotkeys.toml");
    let args = AppArgs::gather(Some(&config), Some(u64::MAX), Some(300), false).unwrap();
    assert_eq!(args.midi_device, u64::MAX);
    assert_eq!(args.velocity_threshold, 44);
    let args = AppArgs::gather(Some(&config), None, Some(256), false).unwrap();
    assert_eq!(args.velocity_threshold, 0);
    let args = AppArgs::gather(Some(&config), None, Some(255), false).unwrap();
    assert_eq!(args.velocity_threshold, 255);
}

#[test]
fn gather_without_config_uses_the_default_path() {
    match AppArgs::gather(None, Some(1), None, false) {
        Ok(args) => assert_eq!(args.config_path, default_config_path().unwrap()),
        Err(e) => {
            assert_eq!(e, CliError::HomeDirectoryUnknown);
            assert_eq!(default_config_path(), Err(CliError::HomeDirectoryUnknown));
        }
    }
}

#[test]
fn cli_error_message() {
    assert_eq!(
        CliError::HomeDirectoryUnknown.message(),
        "Can't determine home directory"
    );
}

#[test]
fn default_config_follows_the_home_directory() {
    assert_eq!(
        default_config_path_from(Some(PathBuf::from("/home/user"))),
        Ok(PathBuf::from("/home/user/.config/midi-hkd/config.toml"))
    );
    assert_eq!(
        default_config_path_from(Some(PathBuf::from("/root"))),
        Ok(default_config_path_in(PathBuf::from("/root")))
    );
}

#[test]
fn default_config_without_a_home_directory_fails() {
    assert_eq!(
        default_config_path_from(None),
        Err(CliError::HomeDirectoryUnknown)
    );
}
