use bindizr::config_value::{config_value, value_form, JsonValue, ValueForm};

fn text(s: &str) -> JsonValue {
    JsonValue::Text(s.to_string())
}

fn object(members: Vec<(&str, JsonValue)>) -> JsonValue {
    JsonValue::Object(members.into_iter().map(|(k, v)| (k.to_string(), v)).collect())
}

fn document() -> JsonValue {
    object(vec![
        (
            "api",
            object(vec![
                ("listen_port", JsonValue::Number("3000".to_string())),
                ("listen_addr", text("127.0.0.1")),
            ]),
        ),
        ("dns", object(vec![("secondary_addrs", JsonValue::Array(vec![text("10.0.0.2")]))])),
        ("flag", JsonValue::Bool(true)),
    ])
}

#[test]
fn dotted_keys_walk_the_document() {
    let doc = document();
    match config_value(&doc, "api.listen_addr") {
        Ok(JsonValue::Text(s)) => assert_eq!(s, "127.0.0.1"),
        _ => panic!("api.listen_addr is a string"),
    }
    match config_value(&doc, "api.listen_port") {
        Ok(JsonValue::Number(n)) => assert_eq!(n, "3000"),
        _ => panic!("api.listen_port is a number"),
    }
    assert!(matches!(config_value(&doc, "api"), Ok(JsonValue::Object(_))));
    assert!(matches!(config_value(&doc, "dns.secondary_addrs"), Ok(JsonValue::Array(_))));
}

#[test]
fn a_key_that_names_nothing_is_reported_by_name() {
    let doc = document();
    for key in ["api.nope", "nope", "", "api.listen_port.deeper", "flag.x", "dns.secondary_addrs.0"] {
        match config_value(&doc, key) {
            Err(m) => assert_eq!(m, format!("Unknown configuration key: {}", key)),
            Ok(_) => panic!("{} names nothing", key),
        }
    }
}

#[test]
fn strings_print_bare_and_objects_pretty() {
    assert!(matches!(value_form(&text("info")), ValueForm::Bare(ref s) if s == "info"));
    assert!(matches!(value_form(&object(vec![])), ValueForm::Pretty));
    assert!(matches!(value_form(&JsonValue::Bool(false)), ValueForm::Compact));
    assert!(matches!(value_form(&JsonValue::Null), ValueForm::Compact));
    assert!(matches!(value_form(&JsonValue::Array(vec![])), ValueForm::Compact));
}
