use bindizr::commands::{bulk_records, BulkShape, BulkSource};
use bindizr::commands::global_key_warning;
use bindizr::commands::{
    print_optional, print_section, print_value, split_key, to_record_value_request, zone_lookup,
    ImportMode, ZoneLookup,
};
use bindizr::diff::RecordValue;

#[test]
fn one_value_is_a_plain_string_and_several_are_segments() {
    match to_record_value_request(vec!["192.0.2.1".to_string()]) {
        RecordValue::Text(s) => assert_eq!(s, "192.0.2.1"),
        RecordValue::Segments(_) => panic!("one value is a plain string"),
    }
    match to_record_value_request(vec!["a".to_string(), "b".to_string()]) {
        RecordValue::Segments(ss) => assert_eq!(ss, vec!["a".to_string(), "b".to_string()]),
        RecordValue::Text(_) => panic!("several values are segments"),
    }
    match to_record_value_request(vec![]) {
        RecordValue::Segments(ss) => assert!(ss.is_empty()),
        RecordValue::Text(_) => panic!("no value is no segment"),
    }
}

#[test]
fn import_modes_have_distinct_wire_names() {
    assert_eq!(ImportMode::Append.as_str(), "append");
    assert_eq!(ImportMode::Upsert.as_str(), "upsert");
    assert_eq!(ImportMode::Replace.as_str(), "replace");
}

#[test]
fn a_bare_name_is_a_single_zone_lookup() {
    assert_eq!(zone_lookup(true, false), ZoneLookup::GetZone);
    assert_eq!(zone_lookup(true, true), ZoneLookup::ListZones);
    assert_eq!(zone_lookup(false, false), ZoneLookup::ListZones);
    assert_eq!(zone_lookup(false, true), ZoneLookup::ListZones);
}

#[test]
fn configuration_lines_align_keys_in_24_columns() {
    assert_eq!(print_section(false, "api"), "[api]");
    assert_eq!(print_section(true, "api"), "\x1b[36m[api]\x1b[0m");
    assert_eq!(print_value(false, "listen_port", "3000"), format!("  {:<24} = 3000", "listen_port"));
    assert_eq!(
        print_value(true, "listen_port", "3000"),
        format!("  \x1b[33m{:<24}\x1b[0m = 3000", "listen_port")
    );
    assert_eq!(
        print_value(false, "a_key_longer_than_the_column", "x"),
        "  a_key_longer_than_the_column = x"
    );
}

#[test]
fn an_unset_optional_value_says_so() {
    assert_eq!(print_optional(false, "tls_cert_file", None), format!("  {:<24} = (unset)", "tls_cert_file"));
    assert_eq!(
        print_optional(false, "tls_cert_file", Some("/etc/cert.pem")),
        format!("  {:<24} = /etc/cert.pem", "tls_cert_file")
    );
}

#[test]
fn dotted_keys_split_like_str_split() {
    assert_eq!(split_key("api.listen_port"), vec!["api".to_string(), "listen_port".to_string()]);
    assert_eq!(split_key("dns"), vec!["dns".to_string()]);
    assert_eq!(split_key(""), vec![String::new()]);
    assert_eq!(split_key("a..b."), vec!["a".to_string(), String::new(), "b".to_string(), String::new()]);
    let k = "dns.notify.batch_ms";
    assert_eq!(split_key(k), k.split('.').map(|s| s.to_string()).collect::<Vec<_>>());
}

#[test]
fn bulk_files_hold_an_array_or_a_records_member() {
    assert_eq!(bulk_records(BulkShape::Array), Ok(BulkSource::Document));
    assert_eq!(bulk_records(BulkShape::ObjectWithRecords), Ok(BulkSource::RecordsMember));
    assert_eq!(bulk_records(BulkShape::ObjectWithoutRecords), Err("Input object must contain a 'records' array".to_string()));
    assert_eq!(
        bulk_records(BulkShape::Other),
        Err("Expected an array of records or an object with a 'records' array".to_string())
    );
}

#[test]
fn a_global_key_is_warned_about() {
    assert_eq!(global_key_warning(true), Some("Warning: this key can update every zone without any grant."));
    assert_eq!(global_key_warning(false), None);
}

#[test]
fn split_keys_rejoin_to_the_key() {
    for key in ["api.listen_port", "", ".", "a..b.", "dns"] {
        assert_eq!(split_key(key).join("."), key);
    }
}
