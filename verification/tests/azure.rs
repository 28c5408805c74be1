use pixi_logic::azure::{AzureOptions, TomlEntry, TomlError, TomlValue};

fn entry(key: &str, value: TomlValue) -> TomlEntry {
    TomlEntry {
        key: key.to_string(),
        value,
    }
}

fn text(value: &str) -> TomlValue {
    TomlValue::Text(value.to_string())
}

fn read(entries: Vec<TomlEntry>) -> Result<AzureOptions, Vec<TomlError<String, Vec<String>>>> {
    AzureOptions::deserialize(&TomlValue::Table(entries))
}

fn keys(keys: &[&str]) -> Vec<String> {
    keys.iter().map(|key| key.to_string()).collect()
}

#[test]
fn an_account_is_enough() {
    assert_eq!(
        read(vec![entry("account", text("store"))]),
        Ok(AzureOptions {
            account: "store".to_string(),
            endpoint_url: None,
        })
    );
}

#[test]
fn an_endpoint_is_written_out_as_a_url() {
    let options = read(vec![
        entry("endpoint-url", text("HTTPS://Example.com")),
        entry("account", text("store")),
    ])
    .unwrap();
    assert_eq!(options.endpoint_url.as_deref(), Some("https://example.com/"));
}

#[test]
fn an_account_is_required() {
    assert_eq!(
        read(vec![entry("endpoint-url", text("no url")), entry("other", TomlValue::Integer)]),
        Err(vec![TomlError::MissingField {
            key: "account".to_string()
        }])
    );
}

#[test]
fn an_account_is_a_string() {
    assert_eq!(
        read(vec![entry("account", TomlValue::Integer), entry("other", TomlValue::Array)]),
        Err(vec![TomlError::Wanted {
            key: Some("account".to_string()),
            expected: "a string".to_string(),
            found: "integer".to_string(),
        }])
    );
}

#[test]
fn options_are_a_table() {
    let kinds = [
        (text("x"), "string"),
        (TomlValue::Integer, "integer"),
        (TomlValue::Float, "float"),
        (TomlValue::Boolean, "boolean"),
        (TomlValue::Array, "array"),
    ];
    for (value, found) in kinds {
        assert_eq!(
            AzureOptions::deserialize(&value),
            Err(vec![TomlError::Wanted {
                key: None,
                expected: "a table".to_string(),
                found: found.to_string(),
            }])
        );
    }
    assert_eq!(TomlValue::Table(vec![]).type_str(), "table");
}

#[test]
fn errors_behind_the_account_are_collected() {
    let errors = read(vec![
        entry("account", text("store")),
        entry("container", text("x")),
        entry("endpoint-url", text("no url")),
        entry("sas", TomlValue::Boolean),
    ])
    .unwrap_err();
    assert_eq!(
        errors,
        [
            TomlError::Custom {
                key: "endpoint-url".to_string(),
                message: "relative URL without a base".to_string(),
            },
            TomlError::UnexpectedKeys {
                keys: keys(&["container", "sas"]),
                expected: keys(&["account", "endpoint-url"]),
            },
        ]
    );
}

#[test]
fn an_endpoint_is_a_string() {
    assert_eq!(
        read(vec![
            entry("account", text("store")),
            entry("endpoint-url", TomlValue::Boolean),
        ]),
        Err(vec![TomlError::Wanted {
            key: Some("endpoint-url".to_string()),
            expected: "a string".to_string(),
            found: "boolean".to_string(),
        }])
    );
}
