use bindizr::cli_error::{Failure, EXIT_FAILURE};
use bindizr::zone_commands::{
    import_diagnostics, import_outcome, zone_list_filter, zone_status_heading, ZoneListArgs,
};

fn no_options() -> ZoneListArgs {
    ZoneListArgs {
        name: None,
        mname: None,
        rname: None,
        default_ttl: None,
        min_default_ttl: None,
        max_default_ttl: None,
        serial: None,
        min_serial: None,
        max_serial: None,
        created_after: None,
        created_before: None,
        signed: false,
        enabled: None,
        search: None,
        sort: None,
        order: None,
        limit: None,
        offset: None,
    }
}

#[test]
fn a_bare_listing_sends_no_filter() {
    assert!(zone_list_filter(no_options()).is_none());
}

#[test]
fn any_option_sends_the_whole_filter() {
    let mut a = no_options();
    a.signed = true;
    let f = zone_list_filter(a).unwrap();
    assert_eq!(f.signed, Some(true));
    assert_eq!(f.id, None);
    assert_eq!(f.name, None);

    let mut a = no_options();
    a.limit = Some(10);
    a.search = Some("example".to_string());
    let f = zone_list_filter(a).unwrap();
    assert_eq!(f.signed, None);
    assert_eq!(f.limit, Some(10));
    assert_eq!(f.search, Some("example".to_string()));

    let mut a = no_options();
    a.enabled = Some(false);
    assert_eq!(zone_list_filter(a).unwrap().enabled, Some(false));
}

#[test]
fn import_diagnostics_list_errors_then_skips() {
    assert_eq!(
        import_diagnostics(&vec!["bad ttl".to_string()], &vec!["SPF record".to_string(), "HINFO".to_string()]),
        vec!["  - bad ttl".to_string(), "  ~ SPF record".to_string(), "  ~ HINFO".to_string()]
    );
    assert!(import_diagnostics(&vec![], &vec![]).is_empty());
}

#[test]
fn a_rejected_import_is_an_error() {
    assert!(import_outcome(false, 3).is_ok());
    let e = import_outcome(true, 3).unwrap_err();
    assert_eq!(e.message, "import rejected: 3 record(s) failed validation; nothing was applied");
    assert_eq!(e.failure, Failure::Request);
    assert_eq!(e.exit_code(), EXIT_FAILURE);
}

#[test]
fn zone_status_heading_notes_missing_secondaries() {
    assert_eq!(
        zone_status_heading("example.com", 42, 0),
        vec!["Zone example.com (serial 42)".to_string(), "No secondaries configured.".to_string()]
    );
    assert_eq!(zone_status_heading("example.com", -1, 2), vec!["Zone example.com (serial -1)".to_string()]);
}
