use bindizr::doctor::NotifyProbe;
use bindizr::secondary::{print_check, CatalogProbe, SecondaryCheck, SecondaryInfo};

fn check() -> SecondaryCheck {
    SecondaryCheck {
        secondary: SecondaryInfo {
            name: "ns2".to_string(),
            address: "ns2.example.net".to_string(),
            enabled: true,
            notify_key: None,
        },
        resolve_error: None,
        addresses: vec!["192.0.2.2".to_string(), "2001:db8::2".to_string()],
        listener_error: None,
        catalog: CatalogProbe { visible_serial: Some(9), status: "in_sync".to_string(), error: None },
        catalog_zone: "catalog.bind".to_string(),
        catalog_serial: Some(9),
        notifies: vec![],
    }
}

#[test]
fn a_healthy_secondary_reads_as_three_lines() {
    assert_eq!(
        print_check(&check()),
        vec![
            "Secondary ns2: ns2.example.net (enabled)",
            "Resolves to: 192.0.2.2, 2001:db8::2",
            "Catalog zone catalog.bind: in sync at serial 9",
        ]
    );
}

#[test]
fn every_failing_part_gets_its_line() {
    let mut c = check();
    c.secondary.enabled = false;
    c.secondary.notify_key = Some("xfr".to_string());
    c.resolve_error = Some("no such host".to_string());
    c.listener_error = Some("connection refused".to_string());
    c.catalog = CatalogProbe { visible_serial: Some(7), status: "behind".to_string(), error: None };
    c.notifies = vec![
        NotifyProbe { address: "192.0.2.2".to_string(), error: None },
        NotifyProbe { address: "192.0.2.3".to_string(), error: Some("REFUSED".to_string()) },
    ];
    assert_eq!(
        print_check(&c),
        vec![
            "Secondary ns2: ns2.example.net (disabled, NOTIFY signed with xfr)",
            "Resolution failed: no such host",
            "Bindizr's own listener did not answer: connection refused",
            "Catalog zone catalog.bind: behind at serial 7 (bindizr serves 9)",
            "NOTIFY to 192.0.2.2: accepted",
            "NOTIFY to 192.0.2.3: rejected (REFUSED)",
        ]
    );
}

#[test]
fn the_catalog_line_by_state() {
    let mut c = check();
    c.catalog = CatalogProbe { visible_serial: Some(3), status: "reachable".to_string(), error: None };
    assert_eq!(print_check(&c)[2], "Catalog zone catalog.bind: reachable at serial 3");
    c.catalog = CatalogProbe { visible_serial: None, status: "in_sync".to_string(), error: Some("timed out".to_string()) };
    assert_eq!(print_check(&c)[2], "Catalog zone catalog.bind: unreachable (timed out)");
    c.catalog = CatalogProbe { visible_serial: None, status: "unreachable".to_string(), error: None };
    assert_eq!(print_check(&c)[2], "Catalog zone catalog.bind: unreachable (unknown error)");
    c.catalog = CatalogProbe { visible_serial: Some(1), status: "behind".to_string(), error: None };
    c.catalog_serial = None;
    assert_eq!(print_check(&c)[2], "Catalog zone catalog.bind: behind at serial 1 (bindizr serves 0)");
}
