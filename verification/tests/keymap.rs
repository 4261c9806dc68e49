use midi_hkd::config::ConfigError;
use midi_hkd::keymap::Keymap;
use toml::{Table, Value};

fn keymap_of(entries: &[(&str, &str)]) -> Keymap {
    let mut table = Table::new();
    for (name, command) in entries {
        table.insert(String::from(*name), Value::String(String::from(*command)));
    }
    Keymap::from_table(table).unwrap()
}

#[test]
fn lookup_finds_the_command_of_a_name() {
    let keymap = keymap_of(&[("C#5", "command 1"), ("A-5", "command -flag"), ("G3", "ls")]);
    assert_eq!(keymap.lookup("C#5"), Some("command 1"));
    assert_eq!(keymap.lookup("A-5"), Some("command -flag"));
    assert_eq!(keymap.lookup("G3"), Some("ls"));
}

#[test]
fn lookup_is_exact() {
    let keymap = keymap_of(&[("C#5", "echo hi")]);
    assert_eq!(keymap.lookup("C#5"), Some("echo hi"));
    assert_eq!(keymap.lookup("Db5"), None);
    assert_eq!(keymap.lookup("c#5"), None);
    assert_eq!(keymap.lookup("C#5 "), None);
    assert_eq!(keymap.lookup(" C#5"), None);
    assert_eq!(keymap.lookup("C#"), None);
    assert_eq!(keymap.lookup("C5"), None);
    assert_eq!(keymap.lookup(""), None);
}

#[test]
fn empty_keymap_matches_nothing() {
    let keymap = Keymap::from_table(Table::new()).unwrap();
    assert_eq!(keymap.lookup("C4"), None);
    assert_eq!(keymap.lookup("C#5"), None);
    assert_eq!(keymap.lookup(""), None);
    assert_eq!(keymap.as_table(), &Table::new());
}

#[test]
fn keys_need_not_be_note_names() {
    let keymap = keymap_of(&[("not a note", "true"), ("", "false")]);
    assert_eq!(keymap.lookup("not a note"), Some("true"));
    assert_eq!(keymap.lookup(""), Some("false"));
}

#[test]
fn a_value_that_is_no_string_is_refused() {
    let mut table = Table::new();
    table.insert(String::from("C4"), Value::String(String::from("ls")));
    table.insert(String::from("D4"), Value::Boolean(true));
    assert_eq!(
        Keymap::from_table(table).unwrap_err(),
        ConfigError::MalformedHotkeys
    );

    let mut table = Table::new();
    table.insert(String::from("C4"), Value::Float(1.0));
    assert_eq!(
        Keymap::from_table(table).unwrap_err(),
        ConfigError::MalformedHotkeys
    );

    let mut table = Table::new();
    table.insert(
        String::from("C4"),
        Value::Array(vec![Value::String(String::from("ls"))]),
    );
    assert_eq!(
        Keymap::from_table(table).unwrap_err(),
        ConfigError::MalformedHotkeys
    );
}

#[test]
fn as_table_gives_the_table_back() {
    let mut table = Table::new();
    table.insert(String::from("C4"), Value::String(String::from("ls")));
    let keymap = Keymap::from_table(table.clone()).unwrap();
    assert_eq!(keymap.as_table(), &table);
}
