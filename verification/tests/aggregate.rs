use ajour_config::channel::SelfUpdateChannel;
use ajour_config::config::Config;
use ajour_config::flavor::Flavor;
use ajour_config::lang::Language;
use ajour_config::schema::{ColumnConfig, SchemaError};
use ajour_config::value::Value;

fn entry(k: &str, v: Value) -> (String, Value) {
    (String::from(k), v)
}

fn assert_is_default(c: &Config) {
    assert!(c.wow.directories.is_empty());
    assert_eq!(c.theme, None);
    assert_eq!(c.column_config, ColumnConfig::default());
    assert_eq!(c.window_size, None);
    assert_eq!(c.backup_directory, None);
    assert!(!c.backup_addons);
    assert!(!c.backup_wtf);
    assert!(!c.hide_ignored_addons);
    assert_eq!(c.self_update_channel, SelfUpdateChannel::Stable);
    assert!(c.weak_auras_account.is_empty());
    assert!(c.alternating_row_colors);
    assert_eq!(c.language, Language::English);
    assert!(!c.auto_update);
}

#[test]
fn empty_document_reads_as_default() {
    let c = Config::from_value(&Value::Mapping(vec![])).unwrap();
    assert_is_default(&c);
}

#[test]
fn absent_document_falls_back_to_default() {
    let c = Config::from_persisted(None);
    assert_is_default(&c);
}

#[test]
fn rejected_layout_falls_back_to_default_on_load() {
    let doc = Value::Mapping(vec![entry(
        "column_config",
        Value::Mapping(vec![entry("V9", Value::Null)]),
    )]);
    assert_eq!(
        match Config::from_value(&doc) {
            Ok(_) => None,
            Err(e) => Some(e),
        },
        Some(SchemaError::UnrecognizedTag)
    );
    let c = Config::from_persisted(Some(&doc));
    assert_is_default(&c);
}

#[test]
fn default_aggregate_round_trips_to_itself() {
    let d = Config::default();
    let written = d.serialize();
    let back = Config::from_value(&written).unwrap();
    assert_is_default(&back);
    let again = Config::from_value(&back.serialize()).unwrap();
    assert_is_default(&again);
}

#[test]
fn full_document_reads_every_field() {
    let doc = Value::Mapping(vec![
        entry(
            "wow",
            Value::Mapping(vec![entry(
                "directories",
                Value::Mapping(vec![
                    entry("retail", Value::Str(String::from("/games/wow/_retail_"))),
                    entry("classic_era", Value::Str(String::from("/games/wow/_classic_era_"))),
                ]),
            )]),
        ),
        entry("theme", Value::Str(String::from("Dark"))),
        entry("window_size", Value::List(vec![Value::Int(1024), Value::Int(768)])),
        entry("backup_directory", Value::Str(String::from("/backups"))),
        entry("backup_addons", Value::Bool(true)),
        entry("backup_wtf", Value::Bool(true)),
        entry("hide_ignored_addons", Value::Bool(true)),
        entry("self_update_channel", Value::Str(String::from("Beta"))),
        entry(
            "weak_auras_account",
            Value::Mapping(vec![entry("retail", Value::Str(String::from("Account1")))]),
        ),
        entry("alternating_row_colors", Value::Bool(false)),
        entry("language", Value::Str(String::from("German"))),
        entry("auto_update", Value::Bool(true)),
    ]);
    let c = Config::from_value(&doc).unwrap();
    assert_eq!(
        c.wow.directories,
        vec![
            (Flavor::Retail, String::from("/games/wow/_retail_")),
            (Flavor::ClassicEra, String::from("/games/wow/_classic_era_")),
        ]
    );
    assert_eq!(c.theme, Some(String::from("Dark")));
    assert_eq!(c.window_size, Some((1024, 768)));
    assert_eq!(c.backup_directory, Some(String::from("/backups")));
    assert!(c.backup_addons);
    assert!(c.backup_wtf);
    assert!(c.hide_ignored_addons);
    assert_eq!(c.self_update_channel, SelfUpdateChannel::Beta);
    assert_eq!(c.weak_auras_account, vec![(Flavor::Retail, String::from("Account1"))]);
    assert!(!c.alternating_row_colors);
    assert_eq!(c.language, Language::German);
    assert!(c.auto_update);

    let back = Config::from_value(&c.serialize()).unwrap();
    assert_eq!(back.wow.directories, c.wow.directories);
    assert_eq!(back.theme, c.theme);
    assert_eq!(back.column_config, c.column_config);
    assert_eq!(back.window_size, c.window_size);
    assert_eq!(back.backup_directory, c.backup_directory);
    assert_eq!(back.backup_addons, c.backup_addons);
    assert_eq!(back.backup_wtf, c.backup_wtf);
    assert_eq!(back.hide_ignored_addons, c.hide_ignored_addons);
    assert_eq!(back.self_update_channel, c.self_update_channel);
    assert_eq!(back.weak_auras_account, c.weak_auras_account);
    assert_eq!(back.alternating_row_colors, c.alternating_row_colors);
    assert_eq!(back.language, c.language);
    assert_eq!(back.auto_update, c.auto_update);
}

#[test]
fn ill_shaped_simple_fields_take_their_defaults() {
    let doc = Value::Mapping(vec![
        entry("wow", Value::Int(7)),
        entry("theme", Value::Bool(true)),
        entry("window_size", Value::List(vec![Value::Int(1)])),
        entry("backup_addons", Value::Str(String::from("yes"))),
        entry("self_update_channel", Value::Str(String::from("Nightly"))),
        entry("language", Value::Str(String::from("Klingon"))),
        entry("alternating_row_colors", Value::Null),
    ]);
    let c = Config::from_value(&doc).unwrap();
    assert_is_default(&c);
}

#[test]
fn repeated_flavor_keys_leave_the_mapping_empty() {
    let doc = Value::Mapping(vec![entry(
        "wow",
        Value::Mapping(vec![entry(
            "directories",
            Value::Mapping(vec![
                entry("retail", Value::Str(String::from("/a"))),
                entry("retail", Value::Str(String::from("/b"))),
            ]),
        )]),
    )]);
    let c = Config::from_value(&doc).unwrap();
    assert!(c.wow.directories.is_empty());
}

#[test]
fn relative_path_is_fixed() {
    assert_eq!(Config::relative_path(), "ajour.yml");
}
