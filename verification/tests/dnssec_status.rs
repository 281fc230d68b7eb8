use bindizr::dnssec_status::{
    print_ds_records, print_status, print_zone_status, Delegation, DelegationKey, DnssecStatus,
    StatusItem,
};
use bindizr::table::{DnssecKeyInfo, DnssecPolicy};
use bindizr::time::Timestamp;

fn at(secs: i64) -> Timestamp {
    Timestamp::new(secs, 0).unwrap()
}

fn policy() -> DnssecPolicy {
    DnssecPolicy {
        id: 1,
        name: "default".to_string(),
        algorithm: "ECDSAP256SHA256".to_string(),
        denial: "nsec3".to_string(),
        split_keys: false,
        signature_validity_days: 14,
        signature_refresh_days: 5,
        zsk_lifetime_days: 0,
        rollover_publish_holddown_secs: 3600,
        rollover_retire_holddown_secs: 3600,
        created_at: at(0),
    }
}

fn key_info() -> DnssecKeyInfo {
    DnssecKeyInfo {
        id: 5,
        role: "csk".to_string(),
        state: "active".to_string(),
        state_changed_at: at(0),
        eligible_at: None,
        algorithm: "ECDSAP256SHA256".to_string(),
        key_tag: 4711,
        dnskey: "257 3 13 AAAA".to_string(),
        created_at: at(0),
    }
}

fn status(enabled: bool) -> DnssecStatus {
    DnssecStatus {
        zone_name: "example.com".to_string(),
        serial: 42,
        enabled,
        policy: Some(policy()),
        withdrawing: false,
        parent_ns_addrs: None,
        delegation: None,
        earliest_signature_expires_at: None,
        next_resign_at: None,
        signatures: 12,
        expired_signatures: 0,
        keys: vec![key_info()],
        ds_records: vec![],
    }
}

fn lines(items: &[StatusItem]) -> Vec<String> {
    items
        .iter()
        .map(|i| match i {
            StatusItem::Line(l) => l.clone(),
            StatusItem::Policy(p) => format!("<policy {}>", p.name),
            StatusItem::Keys(rows) => format!("<{} keys>", rows.len()),
        })
        .collect()
}

#[test]
fn an_unsigned_zone_is_one_line() {
    let items = print_status(&status(false));
    assert_eq!(lines(&items), vec!["Zone example.com (serial 42): DNSSEC disabled".to_string()]);
    let mut s = status(true);
    s.policy = None;
    assert_eq!(lines(&print_status(&s)), vec!["Zone example.com (serial 42): DNSSEC disabled".to_string()]);
}

#[test]
fn a_signed_zone_lists_signatures_policy_and_keys() {
    let items = print_status(&status(true));
    assert_eq!(
        lines(&items),
        vec![
            "Zone example.com (serial 42): DNSSEC enabled, NSEC3 denial",
            "Signatures: 12",
            "Policy:",
            "<policy default>",
            "Keys:",
            "<1 keys>",
        ]
    );
    match &items[3] {
        StatusItem::Policy(p) => assert_eq!((p.denial.as_str(), p.keys.as_str(), p.zsk_lifetime.as_str()), ("NSEC3", "CSK", "-")),
        _ => panic!("the policy table"),
    }
}

#[test]
fn the_delegation_and_expiry_are_reported() {
    let mut s = status(true);
    s.withdrawing = true;
    s.parent_ns_addrs = Some("192.0.2.53".to_string());
    s.delegation = Some(Delegation {
        parent_ns_addrs: vec!["192.0.2.53".to_string(), "192.0.2.54".to_string()],
        ds_key_tags: vec![4711, 4712],
        ds_ttl: Some(86400),
        keys: vec![
            DelegationKey { key_tag: 4711, role: "ksk".to_string(), state: "active".to_string(), ds_published: true, ds_digest_unsupported: false, eligible_at: None },
            DelegationKey { key_tag: 4712, role: "ksk".to_string(), state: "published".to_string(), ds_published: false, ds_digest_unsupported: true, eligible_at: Some(at(60)) },
            DelegationKey { key_tag: 4713, role: "zsk".to_string(), state: "active".to_string(), ds_published: false, ds_digest_unsupported: false, eligible_at: None },
        ],
    });
    s.earliest_signature_expires_at = Some(at(86400));
    s.next_resign_at = Some(at(3600));
    s.expired_signatures = 2;
    s.ds_records = vec!["example.com. IN DS 4711 13 2 ABCD".to_string()];
    let got = lines(&print_status(&s));
    assert_eq!(
        got,
        vec![
            "Zone example.com (serial 42): DNSSEC enabled, NSEC3 denial",
            "DS withdrawal published (RFC 8078): the parent should drop this zone's DS records.",
            "Parent nameservers: 192.0.2.53",
            "Parent DS: key tags 4711, 4712 served by 192.0.2.53, 192.0.2.54 (TTL 86400s)",
            "  4711 (ksk, active): at parent",
            "  4712 (ksk, published): at parent in a digest type bindizr cannot check, promotable from 1970-01-01 00:01:00",
            "  4713 (zsk, active): not at parent",
            "Earliest signature expiry: 1970-01-02 00:00:00",
            "Next re-signing: 1970-01-01 01:00:00",
            "Signatures: 12 (2 EXPIRED)",
            "Policy:",
            "<policy default>",
            "Keys:",
            "<1 keys>",
            "DS records (register in the parent zone):",
            "  example.com. IN DS 4711 13 2 ABCD",
        ]
    );
}

#[test]
fn a_parent_without_ds_says_so() {
    let mut s = status(true);
    s.delegation = Some(Delegation {
        parent_ns_addrs: vec!["192.0.2.53".to_string()],
        ds_key_tags: vec![],
        ds_ttl: None,
        keys: vec![],
    });
    assert_eq!(lines(&print_status(&s))[1], "Parent DS: none served by 192.0.2.53");
    s.delegation = Some(Delegation {
        parent_ns_addrs: vec!["192.0.2.53".to_string()],
        ds_key_tags: vec![7],
        ds_ttl: None,
        keys: vec![],
    });
    assert_eq!(lines(&print_status(&s))[1], "Parent DS: key tag 7 served by 192.0.2.53 (TTL 0s)");
}

#[test]
fn ds_records_alone_paste_into_the_parent() {
    let mut s = status(true);
    assert_eq!(print_ds_records(&s), vec!["No DS records found".to_string()]);
    s.ds_records = vec!["a. IN DS 1 13 2 AA".to_string(), "a. IN DS 2 13 2 BB".to_string()];
    assert_eq!(print_ds_records(&s), vec!["a. IN DS 1 13 2 AA".to_string(), "a. IN DS 2 13 2 BB".to_string()]);
    s.withdrawing = true;
    assert_eq!(
        print_ds_records(&s),
        vec![
            "# DS withdrawal published: do not register these at the parent.".to_string(),
            "a. IN DS 1 13 2 AA".to_string(),
            "a. IN DS 2 13 2 BB".to_string(),
        ]
    );
}

#[test]
fn the_zone_form_summarizes_the_policy_in_one_line() {
    let mut s = status(true);
    s.withdrawing = true;
    s.earliest_signature_expires_at = Some(at(86400));
    s.ds_records = vec!["example.com. IN DS 4711 13 2 ABCD".to_string()];
    assert_eq!(
        lines(&print_zone_status(&s)),
        vec![
            "Zone example.com (serial 42): DNSSEC enabled, NSEC3 denial",
            "Policy: default (ECDSAP256SHA256, CSK; validity 14d, refresh 5d, zsk-lifetime 0d)",
            "DS withdrawal published (RFC 8078): the parent should drop this zone's DS records.",
            "Earliest signature expiry: 1970-01-02 00:00:00",
            "<1 keys>",
            "DS records (register in the parent zone):",
            "  example.com. IN DS 4711 13 2 ABCD",
        ]
    );
    assert_eq!(lines(&print_zone_status(&status(false))), vec!["Zone example.com (serial 42): DNSSEC disabled".to_string()]);
}
