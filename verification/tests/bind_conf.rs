use bindizr::bind_conf::{catalog_zone_port, default_primaries_port, port_after, primaries_port};

/// Verify that the primaries port is read from both layouts and defaults to 53.
#[test]
fn primaries_port_reads_the_catalog_zone_line() {
    let one_line = "catalog-zones {\n    zone \"catalog.bind\" default-primaries { 127.0.0.1 port 5300; };\n};";
    assert_eq!(primaries_port(one_line), Some(5300));

    let nested = "catalog-zones {\n  zone \"catalog.bind\" {\n    default-primaries { 10.0.0.5 port 53; };\n  };\n};";
    assert_eq!(primaries_port(nested), Some(53));

    let no_port = "catalog-zones { zone \"catalog.bind\" default-primaries { 127.0.0.1; }; };";
    assert_eq!(primaries_port(no_port), Some(53));

    assert_eq!(primaries_port("options { };"), None);
}

/// Verify that the member-zone port is read from both layouts and defaults to 53.
#[test]
fn default_primaries_port_reads_the_catalog_zone_line() {
    let one_line = "catalog-zones {\n    zone \"catalog.bind\" default-primaries { 127.0.0.1 port 5300; };\n};";
    assert_eq!(default_primaries_port(one_line), Some(5300));

    let nested = "catalog-zones {\n  zone \"catalog.bind\" {\n    default-primaries { 10.0.0.5 port 53; };\n  };\n};";
    assert_eq!(default_primaries_port(nested), Some(53));

    let no_port = "catalog-zones { zone \"catalog.bind\" default-primaries { 127.0.0.1; }; };";
    assert_eq!(default_primaries_port(no_port), Some(53));

    assert_eq!(default_primaries_port("options { };"), None);
}

/// Verify that the catalog's own port comes from its zone block.
#[test]
fn catalog_zone_port_reads_the_zone_block_not_the_options_stanza() {
    let both = "options {\n    catalog-zones {\n        zone \"catalog.bind\" default-primaries { 127.0.0.1 port 5300; };\n    };\n};\n\nzone \"catalog.bind\" {\n    type secondary;\n    primaries { 127.0.0.1 port 5301; };\n};\n";
    assert_eq!(catalog_zone_port(both), Some(5301));
    assert_eq!(default_primaries_port(both), Some(5300));

    assert_eq!(catalog_zone_port("options { };"), None);
}

#[test]
fn port_after_strips_semicolons_and_accepts_a_plus_sign() {
    assert_eq!(port_after("primaries { 10.0.0.1 port +5302;;; };", "primaries"), Some(5302));
}

#[test]
fn port_after_rejects_a_port_out_of_range() {
    assert_eq!(port_after("primaries { 10.0.0.1 port 65536; };", "primaries"), None);
    assert_eq!(port_after("primaries { 10.0.0.1 port 65535; };", "primaries"), Some(65535));
}

#[test]
fn port_after_is_none_when_port_is_the_last_token() {
    assert_eq!(port_after("primaries { 10.0.0.1 port", "primaries"), None);
}

#[test]
fn port_after_rejects_a_non_numeric_port() {
    assert_eq!(port_after("primaries { 10.0.0.1 port 53x; };", "primaries"), None);
    assert_eq!(port_after("primaries { 10.0.0.1 port -53; };", "primaries"), None);
}

#[test]
fn port_after_splits_on_unicode_whitespace() {
    assert_eq!(port_after("primaries\u{3000}{ 1.2.3.4\u{a0}port\u{2003}99; };", "primaries"), Some(99));
}

#[test]
fn catalog_zone_port_without_a_closing_line_reads_to_the_end() {
    let text = "zone \"catalog.bind\"   {\n type secondary; primaries { 127.0.0.1; };";
    assert_eq!(catalog_zone_port(text), Some(53));
}
