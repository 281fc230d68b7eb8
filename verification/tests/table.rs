use bindizr::diff::RecordValue;
use bindizr::table::{
    display_option_i32, display_option_text, display_option_time, value_text, DnssecKeyInfo,
    DnssecKeyRow, DnssecPolicy, DnssecPolicyRow, GrantInfo, ImportSummary, ImportSummaryRow,
    RecordInfo, RecordRow, RollbackResult, RollbackSummaryRow, SecondaryStatus,
    SecondaryStatusRow, TokenGrantRow, TokenInfo, TokenRow, TsigGrantRow, TsigKeyInfo, TsigKeyRow,
    VersionRecord, VersionRecordRow, VersionRow, ZoneInfo, ZoneRow, ZoneStatus, ZoneVersion,
};
use bindizr::table::yes_no;
use bindizr::time::Timestamp;

fn at(secs: i64) -> Timestamp {
    Timestamp::new(secs, 0).expect("representable")
}

#[test]
fn cells_for_absent_values_are_a_dash() {
    assert_eq!(display_option_i32(&Some(-5)), "-5");
    assert_eq!(display_option_i32(&None), "-");
    assert_eq!(display_option_text(&Some("x".to_string())), "x");
    assert_eq!(display_option_text(&None), "-");
    assert_eq!(display_option_time(&None), "-");
    assert_eq!(display_option_time(&Some(at(0))), "1970-01-01T00:00:00+00:00");
    assert_eq!(yes_no(true), "yes");
    assert_eq!(yes_no(false), "no");
}

#[test]
fn value_cell_concatenates_txt_segments() {
    assert_eq!(value_text(&RecordValue::Text("192.0.2.1".to_string())), "192.0.2.1");
    let v = RecordValue::Segments(vec!["v=spf1 ".to_string(), "-all".to_string()]);
    assert_eq!(value_text(&v), "v=spf1 -all");
    assert_eq!(value_text(&RecordValue::Segments(vec![])), "");
}

#[test]
fn record_row_keeps_the_record() {
    let r = RecordInfo {
        id: Some(3),
        name: "www".to_string(),
        record_type: "TXT".to_string(),
        value: RecordValue::Segments(vec!["a".to_string(), "b".to_string()]),
        ttl: 300,
        priority: None,
        zone_id: 1,
        zone_name: "example.com".to_string(),
    };
    let row = RecordRow::from_record(&r);
    assert_eq!(row.id, Some(3));
    assert_eq!(row.value, "ab");
    assert_eq!(row.zone_name, "example.com");
}

fn policy(denial: &str, split: bool, zsk: i32) -> DnssecPolicy {
    DnssecPolicy {
        id: 1,
        name: "default".to_string(),
        algorithm: "ECDSAP256SHA256".to_string(),
        denial: denial.to_string(),
        split_keys: split,
        signature_validity_days: 14,
        signature_refresh_days: 5,
        zsk_lifetime_days: zsk,
        rollover_publish_holddown_secs: 3600,
        rollover_retire_holddown_secs: 7200,
        created_at: at(86400),
    }
}

#[test]
fn policy_row_upper_cases_the_denial_and_names_the_key_layout() {
    let row = DnssecPolicyRow::from_policy(&policy("nsec3", true, 90));
    assert_eq!(row.denial, "NSEC3");
    assert_eq!(row.keys, "KSK/ZSK");
    assert_eq!(row.validity, "14d");
    assert_eq!(row.refresh, "5d");
    assert_eq!(row.zsk_lifetime, "90d");
    assert_eq!(row.publish_wait, "3600s");
    assert_eq!(row.retire_wait, "7200s");
    assert_eq!(row.created_at, "1970-01-02T00:00:00+00:00");
    let row = DnssecPolicyRow::from_policy(&policy("nsec", false, 0));
    assert_eq!(row.denial, "NSEC");
    assert_eq!(row.keys, "CSK");
    assert_eq!(row.zsk_lifetime, "-");
}

#[test]
fn key_row_shows_instants_in_rfc3339() {
    let k = DnssecKeyInfo {
        id: 9,
        role: "ksk".to_string(),
        state: "active".to_string(),
        state_changed_at: at(60),
        eligible_at: None,
        algorithm: "ECDSAP256SHA256".to_string(),
        key_tag: 12345,
        dnskey: "257 3 13 AAAA".to_string(),
        created_at: at(0),
    };
    let row = DnssecKeyRow::from_key(&k);
    assert_eq!(row.state_changed_at, "1970-01-01T00:01:00+00:00");
    assert_eq!(row.eligible_at, "-");
    assert_eq!(row.key_tag, 12345);
    assert_eq!(row.created_at, "1970-01-01T00:00:00+00:00");
}

fn secondary(status: &str, serial: Option<i64>, error: Option<&str>) -> SecondaryStatus {
    SecondaryStatus {
        address: "10.0.0.2".to_string(),
        status: status.to_string(),
        visible_serial: serial,
        error: error.map(|e| e.to_string()),
    }
}

#[test]
fn secondary_rows_carry_the_lag_and_the_unreachable_reason() {
    let status = ZoneStatus {
        zone: "example.com".to_string(),
        serial: 10,
        secondaries: vec![
            secondary("in_sync", Some(10), None),
            secondary("behind", Some(7), Some("ignored")),
            secondary("unreachable", None, Some("timeout")),
        ],
    };
    let rows = SecondaryStatusRow::rows_from_status(&status);
    assert_eq!(rows.len(), 3);
    assert_eq!((rows[0].status.as_str(), rows[0].visible_serial.as_str(), rows[0].lag.as_str()), ("in_sync", "10", "0"));
    assert_eq!((rows[1].status.as_str(), rows[1].visible_serial.as_str(), rows[1].lag.as_str()), ("behind", "7", "3"));
    assert_eq!((rows[2].status.as_str(), rows[2].visible_serial.as_str(), rows[2].lag.as_str()), ("unreachable (timeout)", "-", "-"));
}

#[test]
fn token_rows_show_the_secret_only_when_created() {
    let t = TokenInfo {
        id: 2,
        name: "ci".to_string(),
        global: false,
        description: None,
        created_at: at(0),
        expires_at: None,
        last_used_at: Some(at(3600)),
    };
    let listed = TokenRow::from_token(&t);
    assert_eq!(listed.token, "-");
    assert_eq!(listed.global, "no");
    assert_eq!(listed.description, "-");
    assert_eq!(listed.expires_at, "Never");
    assert_eq!(listed.last_used_at, "1970-01-01T01:00:00+00:00");
    let created = TokenRow::from_created(&t, &"s3cret".to_string());
    assert_eq!(created.token, "s3cret");
    assert_eq!(created.name, "ci");
}

#[test]
fn tsig_rows_show_the_secret_only_when_given() {
    let k = TsigKeyInfo {
        id: 4,
        name: "xfr".to_string(),
        algorithm: "hmac-sha256".to_string(),
        global: true,
        created_at: at(0),
    };
    let listed = TsigKeyRow::from_key(&k);
    assert_eq!(listed.secret, "-");
    assert_eq!(listed.global, "yes");
    let shown = TsigKeyRow::from_key_with_secret(&k, &"c2VjcmV0".to_string());
    assert_eq!(shown.secret, "c2VjcmV0");
}

#[test]
fn zone_and_version_rows_copy_the_soa() {
    let z = ZoneInfo {
        id: 1,
        name: "example.com".to_string(),
        mname: "ns1.example.com.".to_string(),
        rname: "hostmaster.example.com.".to_string(),
        default_ttl: 3600,
        serial: 2024010101,
        refresh: 7200,
        retry: 900,
        expire: 1209600,
        minimum_ttl: 300,
    };
    let row = ZoneRow::from_zone(&z);
    assert_eq!((row.id, row.serial, row.minimum_ttl), (1, 2024010101, 300));
    assert_eq!(row.mname, "ns1.example.com.");
    let v = ZoneVersion {
        serial: 7,
        mname: "ns1.".to_string(),
        rname: "h.".to_string(),
        default_ttl: 1,
        refresh: 2,
        retry: 3,
        expire: 4,
        minimum_ttl: 5,
        created_at: at(0),
    };
    let row = VersionRow::from_version(&v);
    assert_eq!((row.serial, row.expire), (7, 4));
    assert_eq!(row.created_at, "1970-01-01T00:00:00+00:00");
    let rec = VersionRecord {
        name: "@".to_string(),
        record_type: "MX".to_string(),
        value: RecordValue::Text("mx.".to_string()),
        ttl: 60,
        priority: Some(10),
    };
    let row = VersionRecordRow::from_record(&rec);
    assert_eq!((row.value.as_str(), row.priority), ("mx.", Some(10)));
}

#[test]
fn summary_and_grant_rows() {
    let r = RollbackSummaryRow::from_rollback(&RollbackResult {
        target_serial: 5,
        new_serial: 9,
        applied: true,
        dry_run: false,
        records_added: 1,
        records_deleted: 2,
        records_unchanged: 3,
        soa_changed: true,
    });
    assert_eq!((r.target_serial, r.new_serial, r.records_deleted, r.soa_changed), (5, 9, 2, true));
    let s = ImportSummaryRow::from_summary(&ImportSummary {
        parsed: 10,
        added: 4,
        deleted: 1,
        updated: 2,
        unchanged: 3,
        skipped: 0,
    });
    assert_eq!((s.parsed, s.added, s.unchanged), (10, 4, 3));
    let g = GrantInfo {
        id: 8,
        holder: "ci".to_string(),
        zone_name: "example.com".to_string(),
        record_name_pattern: "_acme-challenge".to_string(),
        record_types: "TXT".to_string(),
        created_at: at(0),
    };
    let t = TokenGrantRow::from_grant(&g);
    assert_eq!((t.api_token.as_str(), t.created_at.as_str()), ("ci", "1970-01-01T00:00:00+00:00"));
    let k = TsigGrantRow::from_grant(&g);
    assert_eq!((k.tsig_key.as_str(), k.record_types.as_str()), ("ci", "TXT"));
}
