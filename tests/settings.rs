use printnanny::command::{GetOutput, SettingsCommand};
use printnanny::resolver::{validate, LayeredSettings};
use printnanny::settings::{FieldRule, Layer, SettingValue, SettingsError, SettingsFormat, ValueKind};

fn text(s: &str) -> SettingValue {
    SettingValue::Text(s.to_string())
}

fn layer(entries: Vec<(&str, SettingValue)>) -> Layer {
    let mut l = Layer::new();
    for (k, v) in entries {
        l.set(k.to_string(), v);
    }
    l
}

fn sample() -> LayeredSettings {
    LayeredSettings::new(
        layer(vec![("server", text("a")), ("timeout", SettingValue::Integer(5))]),
        layer(vec![("server", text("b"))]),
        Layer::new(),
    )
}

#[test]
fn merge_defaults_file_and_override() {
    let s = sample();
    let merged = s.with_override("timeout".to_string(), SettingValue::Integer(9));
    assert_eq!(merged.entries.len(), 2);
    assert_eq!(merged.get(&"server".to_string()), Some(text("b")));
    assert_eq!(merged.get(&"timeout".to_string()), Some(SettingValue::Integer(9)));
    // the layers themselves are unchanged
    assert_eq!(s.find_value(&"timeout".to_string()).unwrap(), SettingValue::Integer(5));
}

#[test]
fn highest_layer_wins_over_three_layers() {
    let s = LayeredSettings::new(
        layer(vec![("k", SettingValue::Integer(1))]),
        layer(vec![("k", SettingValue::Integer(2))]),
        layer(vec![("k", SettingValue::Integer(3)), ("other", SettingValue::Flag(true))]),
    );
    let merged = s.resolve();
    assert_eq!(merged.get(&"k".to_string()), Some(SettingValue::Integer(3)));
    assert_eq!(merged.entries.len(), 2);
    assert_eq!(s.find_value(&"k".to_string()).unwrap(), SettingValue::Integer(3));
}

#[test]
fn later_entry_in_a_layer_overrides_earlier() {
    let l = layer(vec![("k", text("x")), ("k", text("y"))]);
    assert_eq!(l.get(&"k".to_string()), Some(text("y")));
    let s = LayeredSettings::new(l, Layer::new(), Layer::new());
    let merged = s.resolve();
    assert_eq!(merged.entries.len(), 1);
    assert_eq!(merged.get(&"k".to_string()), Some(text("y")));
}

#[test]
fn find_value_agrees_with_resolve() {
    let s = sample();
    let merged = s.resolve();
    for key in ["server", "timeout", "missing"] {
        let k = key.to_string();
        assert_eq!(s.find_value(&k).ok(), merged.get(&k));
    }
}

#[test]
fn pushed_layer_takes_precedence() {
    let mut s = sample();
    s.push_layer(layer(vec![("server", text("c"))]));
    assert_eq!(s.find_value(&"server".to_string()).unwrap(), text("c"));
}

#[test]
fn get_missing_key_in_json_is_key_not_found() {
    let s = sample();
    let r = SettingsCommand::get(&s, Some("nonexistent.key".to_string()), SettingsFormat::Json);
    match r {
        Err(SettingsError::KeyNotFound { key }) => assert_eq!(key, "nonexistent.key"),
        other => panic!("unexpected {:?}", other),
    }
}

#[test]
fn get_existing_key_and_whole_settings() {
    let s = sample();
    match SettingsCommand::get(&s, Some("server".to_string()), SettingsFormat::Toml) {
        Ok(GetOutput::Value(v)) => assert_eq!(v, text("b")),
        other => panic!("unexpected {:?}", other),
    }
    match SettingsCommand::get(&s, None, SettingsFormat::Json) {
        Ok(GetOutput::All(m)) => assert_eq!(m.entries.len(), 2),
        other => panic!("unexpected {:?}", other),
    }
}

#[test]
fn unimplemented_formats_fail() {
    let s = sample();
    for f in [SettingsFormat::Ini, SettingsFormat::Yaml] {
        match SettingsCommand::get(&s, Some("server".to_string()), f) {
            Err(SettingsError::UnsupportedFormat { format }) => assert_eq!(format, f),
            other => panic!("unexpected {:?}", other),
        }
        assert!(matches!(SettingsCommand::show(&s, f), Err(SettingsError::UnsupportedFormat { .. })));
    }
    assert!(SettingsCommand::show(&s, SettingsFormat::Json).is_ok());
}

#[test]
fn set_builds_merged_settings_and_message() {
    let s = sample();
    let out = SettingsCommand::set(&s, "server".to_string(), text("z"), "12:00");
    assert_eq!(out.merged.get(&"server".to_string()), Some(text("z")));
    assert_eq!(out.merged.get(&"timeout".to_string()), Some(SettingValue::Integer(5)));
    assert_eq!(out.message, "PrintNannySettings.server updated at 12:00");
}

#[test]
fn commit_message_keeps_callers_own() {
    let m = SettingsCommand::commit_message("k", Some("mine".to_string()), "t");
    assert_eq!(m, "mine");
}

fn rule(key: &str, kind: ValueKind, required: bool) -> FieldRule {
    FieldRule { key: key.to_string(), kind, required }
}

#[test]
fn schema_accepts_valid_settings() {
    let s = sample();
    let schema = vec![
        rule("server", ValueKind::Text, true),
        rule("timeout", ValueKind::Integer, true),
        rule("debug", ValueKind::Flag, false),
    ];
    let m = s.resolve_checked(&schema).unwrap();
    assert_eq!(m.get(&"server".to_string()), Some(text("b")));
}

#[test]
fn schema_rejects_missing_required_key() {
    let s = sample();
    let schema = vec![rule("server", ValueKind::Text, true), rule("port", ValueKind::Integer, true)];
    match s.resolve_checked(&schema) {
        Err(SettingsError::ConfigError { reason }) => assert_eq!(reason, "port"),
        other => panic!("unexpected {:?}", other),
    }
}

#[test]
fn schema_rejects_wrong_kind() {
    let s = sample();
    let merged = s.resolve();
    let schema = vec![rule("timeout", ValueKind::Text, false)];
    assert!(matches!(validate(&merged, &schema), Err(SettingsError::ConfigError { .. })));
    assert!(validate(&merged, &vec![]).is_ok());
}
