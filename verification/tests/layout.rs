use ajour_config::schema::{ColumnConfig, ColumnConfigV2, SchemaError};
use ajour_config::value::Value;

fn entry(k: &str, v: Value) -> (String, Value) {
    (String::from(k), v)
}

fn column_value(key: &str, width: Option<i64>, hidden: bool) -> Value {
    Value::Mapping(vec![
        entry("key", Value::Str(String::from(key))),
        entry("width", match width {
            None => Value::Null,
            Some(w) => Value::Int(w),
        }),
        entry("hidden", Value::Bool(hidden)),
    ])
}

fn v1_value(a: i64, b: i64, c: i64) -> Value {
    Value::Mapping(vec![entry(
        "V1",
        Value::Mapping(vec![
            entry("local_version_width", Value::Int(a)),
            entry("remote_version_width", Value::Int(b)),
            entry("status_width", Value::Int(c)),
        ]),
    )])
}

#[test]
fn default_layout_is_v1() {
    let d = ColumnConfig::default();
    assert_eq!(
        d,
        ColumnConfig::V1 { local_version_width: 150, remote_version_width: 150, status_width: 85 }
    );
}

#[test]
fn reads_v1() {
    let c = ColumnConfig::deserialize(&v1_value(100, 120, 90)).unwrap();
    assert_eq!(
        c,
        ColumnConfig::V1 { local_version_width: 100, remote_version_width: 120, status_width: 90 }
    );
}

#[test]
fn reads_v2() {
    let doc = Value::Mapping(vec![entry(
        "V2",
        Value::Mapping(vec![entry(
            "columns",
            Value::List(vec![
                column_value("title", Some(60), false),
                column_value("status", None, true),
            ]),
        )]),
    )]);
    let c = ColumnConfig::deserialize(&doc).unwrap();
    assert_eq!(
        c,
        ColumnConfig::V2 {
            columns: vec![
                ColumnConfigV2 { key: String::from("title"), width: Some(60), hidden: false },
                ColumnConfigV2 { key: String::from("status"), width: None, hidden: true },
            ],
        }
    );
}

#[test]
fn reads_v3_with_all_lists() {
    let doc = Value::Mapping(vec![entry(
        "V3",
        Value::Mapping(vec![
            entry("my_addons_columns", Value::List(vec![column_value("a", Some(1), false)])),
            entry("catalog_columns", Value::List(vec![column_value("b", None, true)])),
            entry("aura_columns", Value::List(vec![column_value("c", Some(3), false)])),
        ]),
    )]);
    let c = ColumnConfig::deserialize(&doc).unwrap();
    match &c {
        ColumnConfig::V3 { my_addons_columns, catalog_columns, aura_columns } => {
            assert_eq!(my_addons_columns.len(), 1);
            assert_eq!(catalog_columns.len(), 1);
            assert_eq!(aura_columns.len(), 1);
            assert_eq!(my_addons_columns[0].key, "a");
            assert_eq!(catalog_columns[0].width, None);
            assert_eq!(aura_columns[0].width, Some(3));
        },
        _ => panic!("wrong version tag"),
    }
}

#[test]
fn v3_missing_aura_columns_reads_as_empty() {
    let doc = Value::Mapping(vec![entry(
        "V3",
        Value::Mapping(vec![
            entry("my_addons_columns", Value::List(vec![column_value("a", Some(1), false)])),
            entry("catalog_columns", Value::List(vec![])),
        ]),
    )]);
    let c = ColumnConfig::deserialize(&doc).unwrap();
    match &c {
        ColumnConfig::V3 { my_addons_columns, catalog_columns, aura_columns } => {
            assert_eq!(my_addons_columns.len(), 1);
            assert_eq!(catalog_columns.len(), 0);
            assert!(aura_columns.is_empty());
        },
        _ => panic!("wrong version tag"),
    }
}

#[test]
fn round_trip_keeps_value_and_tag() {
    let values = vec![
        ColumnConfig::V1 { local_version_width: 1, remote_version_width: 2, status_width: 3 },
        ColumnConfig::V2 {
            columns: vec![ColumnConfigV2 {
                key: String::from("author"),
                width: Some(85),
                hidden: false,
            }],
        },
        ColumnConfig::V3 {
            my_addons_columns: vec![ColumnConfigV2 {
                key: String::from("local"),
                width: None,
                hidden: true,
            }],
            catalog_columns: vec![],
            aura_columns: vec![],
        },
    ];
    for c in values {
        let written = c.serialize();
        let back = ColumnConfig::deserialize(&written).unwrap();
        assert_eq!(back, c);
        let again = ColumnConfig::deserialize(&back.serialize()).unwrap();
        assert_eq!(again, c);
    }
}

#[test]
fn v1_and_v3_with_same_widths_are_not_equal() {
    let a = ColumnConfig::V1 { local_version_width: 150, remote_version_width: 150, status_width: 85 };
    let b = ColumnConfig::V3 {
        my_addons_columns: vec![],
        catalog_columns: vec![],
        aura_columns: vec![],
    };
    assert!(a != b);
}

#[test]
fn unknown_tag_is_rejected() {
    let doc = Value::Mapping(vec![entry("V9", Value::Mapping(vec![]))]);
    assert_eq!(ColumnConfig::deserialize(&doc), Err(SchemaError::UnrecognizedTag));
}

#[test]
fn missing_required_fields_are_rejected() {
    let doc = Value::Mapping(vec![entry(
        "V1",
        Value::Mapping(vec![entry("local_version_width", Value::Int(10))]),
    )]);
    assert_eq!(ColumnConfig::deserialize(&doc), Err(SchemaError::MissingField));

    let doc = Value::Mapping(vec![entry("V2", Value::Mapping(vec![]))]);
    assert_eq!(ColumnConfig::deserialize(&doc), Err(SchemaError::MissingField));

    let doc = Value::Mapping(vec![entry(
        "V2",
        Value::Mapping(vec![entry(
            "columns",
            Value::List(vec![Value::Mapping(vec![entry("hidden", Value::Bool(false))])]),
        )]),
    )]);
    assert_eq!(ColumnConfig::deserialize(&doc), Err(SchemaError::MissingField));
}

#[test]
fn ill_shaped_values_are_rejected() {
    assert_eq!(
        ColumnConfig::deserialize(&Value::Int(3)),
        Err(SchemaError::InvalidValue)
    );

    let doc = Value::Mapping(vec![entry(
        "V1",
        Value::Mapping(vec![
            entry("local_version_width", Value::Int(-1)),
            entry("remote_version_width", Value::Int(1)),
            entry("status_width", Value::Int(1)),
        ]),
    )]);
    assert_eq!(ColumnConfig::deserialize(&doc), Err(SchemaError::InvalidValue));

    let doc = Value::Mapping(vec![entry(
        "V1",
        Value::Mapping(vec![
            entry("local_version_width", Value::Int(70000)),
            entry("remote_version_width", Value::Int(1)),
            entry("status_width", Value::Int(1)),
        ]),
    )]);
    assert_eq!(ColumnConfig::deserialize(&doc), Err(SchemaError::InvalidValue));

    let doc = Value::Mapping(vec![entry(
        "V2",
        Value::Mapping(vec![entry("columns", Value::Bool(true))]),
    )]);
    assert_eq!(ColumnConfig::deserialize(&doc), Err(SchemaError::InvalidValue));
}
