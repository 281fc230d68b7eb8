use bindizr::doctor::{check_bind_catalog, check_daemon_side, SerialDoctor, SerialProbe};
use bindizr::doctor::{daemon_answer_failed, DaemonAnswerError};
use bindizr::doctor::bind_layout;
use bindizr::doctor::bind_check_skipped;
use bindizr::doctor::{doctor_path, skipped_checks, DoctorPath};
use bindizr::doctor::{config_check, daemon_config_unreadable};
use bindizr::doctor::{doctor_footer, doctor_header};
use bindizr::doctor::{
    check_api, check_catalog, check_database, check_running, check_services, classify_status_line,
    database_precheck, report_port, BindOutcome, CheckStatus, ConnectOutcome, DaemonDoctor,
    DbProbe, DoctorCheck, NotifyProbe, Report, SecondaryProbe, ServiceProbe,
};
use bindizr::output::OutputFormat;

fn view(c: &DoctorCheck) -> (CheckStatus, &str) {
    (c.status, c.message.as_str())
}

#[test]
fn report_counts_failures_and_prints_table_lines() {
    let mut r = Report::new(OutputFormat::Table, false);
    assert_eq!(r.ok("database reachable".to_string()), Some("[OK] database reachable".to_string()));
    assert_eq!(r.fail("port in use".to_string()), Some("[FAIL] port in use".to_string()));
    assert_eq!(r.skip("needs root".to_string()), Some("[SKIP] needs root".to_string()));
    assert_eq!(r.failures(), 1);
    assert_eq!(r.checks().len(), 3);
    assert_eq!(r.outcome(), Err("installation has 1 failing check(s)".to_string()));
}

#[test]
fn report_colors_its_labels() {
    let mut r = Report::new(OutputFormat::Table, true);
    assert_eq!(r.ok("x".to_string()), Some("[\x1b[32mOK\x1b[0m] x".to_string()));
    assert_eq!(r.fail("y".to_string()), Some("[\x1b[31mFAIL\x1b[0m] y".to_string()));
    assert_eq!(r.skip("z".to_string()), Some("[\x1b[33mSKIP\x1b[0m] z".to_string()));
}

#[test]
fn a_document_report_prints_nothing_until_the_end() {
    let mut r = Report::new(OutputFormat::Json, false);
    assert_eq!(r.ok("a".to_string()), None);
    assert_eq!(r.skip("b".to_string()), None);
    assert_eq!(r.failures(), 0);
    assert!(matches!(r.format(), OutputFormat::Json));
    assert_eq!(r.outcome(), Ok(()));
}

#[test]
fn report_is_healthy_exactly_without_failures() {
    let mut r = Report::new(OutputFormat::Yaml, false);
    assert_eq!(r.outcome(), Ok(()));
    r.fail("one".to_string());
    r.fail("two".to_string());
    assert_eq!(r.failures(), 2);
    assert_eq!(r.outcome(), Err("installation has 2 failing check(s)".to_string()));
}

const ZONE_BLOCK: &str = "zone \"catalog.bind\" {\n    type secondary;\n    primaries { 127.0.0.1 port 5301; };\n};\n";
const OPTIONS: &str = "options {\n    catalog-zones {\n        zone \"catalog.bind\" default-primaries { 127.0.0.1 port 5300; };\n    };\n};\n";

#[test]
fn catalog_check_fails_without_the_catalog_zone() {
    let c = check_catalog("/etc/bind/named.conf", "options { };", OPTIONS, Some(5300));
    assert_eq!(
        view(&c),
        (CheckStatus::Fail, "BIND catalog zone not configured in /etc/bind/named.conf: run /usr/share/bindizr/setup_bind.sh")
    );
    let c = check_catalog("/etc/bind/named.conf", ZONE_BLOCK, "options { };", Some(5300));
    assert_eq!(c.status, CheckStatus::Fail);
}

#[test]
fn catalog_check_names_every_stale_port() {
    let c = check_catalog("/etc/bind/named.conf", ZONE_BLOCK, OPTIONS, Some(53));
    assert_eq!(
        view(&c),
        (
            CheckStatus::Fail,
            "BIND fetches the catalog zone from port 5301 and its member zones from port 5300 but bindizr listens on 53: rerun setup_bind.sh"
        )
    );
    let c = check_catalog("/etc/bind/named.conf", ZONE_BLOCK, OPTIONS, Some(5300));
    assert_eq!(
        view(&c),
        (CheckStatus::Fail, "BIND fetches the catalog zone from port 5301 but bindizr listens on 5300: rerun setup_bind.sh")
    );
}

#[test]
fn catalog_check_passes_with_the_lowest_port() {
    let c = check_catalog("/etc/bind/named.conf", ZONE_BLOCK, OPTIONS, None);
    assert_eq!(
        view(&c),
        (CheckStatus::Pass, "BIND catalog zone configured: /etc/bind/named.conf (primaries port 5300)")
    );
}

#[test]
fn listen_ports_report_by_bind_result() {
    let c = report_port("DNS", "0.0.0.0:53", BindOutcome::Free, "stop the other server");
    assert_eq!(view(&c), (CheckStatus::Pass, "DNS port free: 0.0.0.0:53"));
    let c = report_port("DNS", "0.0.0.0:53", BindOutcome::InUse, "stop the other server");
    assert_eq!(view(&c), (CheckStatus::Fail, "DNS port in use: 0.0.0.0:53 (stop the other server)"));
    let c = report_port("DNS", "0.0.0.0:53", BindOutcome::PermissionDenied, "x");
    assert_eq!(view(&c), (CheckStatus::Skip, "DNS port check skipped: binding 0.0.0.0:53 needs root"));
    let c = report_port("API", "127.0.0.1:3000", BindOutcome::Other("bad address".to_string()), "x");
    assert_eq!(view(&c), (CheckStatus::Fail, "API port not bindable: 127.0.0.1:3000 (bad address)"));
}

fn probe(ok: bool, detail: &str) -> ServiceProbe {
    ServiceProbe { ok, detail: detail.to_string() }
}

#[test]
fn daemon_checks_list_services_then_secondaries_then_notifies() {
    let d = DaemonDoctor {
        database: probe(true, "sqlite"),
        dns_server: probe(false, "timeout"),
        secondaries: vec![
            SecondaryProbe { address: "10.0.0.2".to_string(), status: "in_sync".to_string(), visible_serial: Some(7), error: None },
            SecondaryProbe { address: "10.0.0.3".to_string(), status: "unreachable".to_string(), visible_serial: None, error: None },
            SecondaryProbe { address: "10.0.0.4".to_string(), status: "behind".to_string(), visible_serial: Some(5), error: None },
        ],
        notifies: vec![
            NotifyProbe { address: "10.0.0.2".to_string(), error: None },
            NotifyProbe { address: "10.0.0.3".to_string(), error: Some("refused".to_string()) },
        ],
        catalog_zone: "catalog.bind".to_string(),
        catalog_serial: Some(7),
    };
    let checks = check_services(&d);
    let views: Vec<(CheckStatus, &str)> = checks.iter().map(view).collect();
    assert_eq!(
        views,
        vec![
            (CheckStatus::Pass, "Database connected: sqlite"),
            (CheckStatus::Fail, "DNS server not reachable: timeout"),
            (CheckStatus::Pass, "Secondary in sync: 10.0.0.2 (catalog zone catalog.bind at serial 7)"),
            (CheckStatus::Fail, "Secondary unreachable: 10.0.0.3 (unknown error)"),
            (CheckStatus::Fail, "Secondary out of sync: 10.0.0.4 (catalog zone catalog.bind at serial 5; bindizr serves 7)"),
            (CheckStatus::Pass, "NOTIFY accepted: 10.0.0.2"),
            (CheckStatus::Fail, "NOTIFY rejected: 10.0.0.3 (refused)"),
        ]
    );
}

#[test]
fn no_enabled_secondary_is_one_skipped_check() {
    let d = DaemonDoctor {
        database: probe(true, "mysql"),
        dns_server: probe(true, "127.0.0.1:53"),
        secondaries: vec![],
        notifies: vec![NotifyProbe { address: "10.0.0.2".to_string(), error: None }],
        catalog_zone: "catalog.bind".to_string(),
        catalog_serial: None,
    };
    let checks = check_services(&d);
    let views: Vec<(CheckStatus, &str)> = checks.iter().map(view).collect();
    assert_eq!(
        views,
        vec![
            (CheckStatus::Pass, "Database connected: mysql"),
            (CheckStatus::Pass, "DNS server reachable: 127.0.0.1:53"),
            (CheckStatus::Skip, "No enabled secondaries"),
        ]
    );
}

#[test]
fn running_check_names_the_pid_and_version() {
    let c = check_running(Some(4242), "1.2.3", None);
    assert_eq!(view(&c), (CheckStatus::Pass, "Daemon running: pid 4242 (version 1.2.3)"));
    let c = check_running(None, "1.2.3", None);
    assert_eq!(view(&c), (CheckStatus::Pass, "Daemon running: pid unknown (version 1.2.3)"));
    let c = check_running(Some(1), "1.2.3", Some("connection refused"));
    assert_eq!(view(&c), (CheckStatus::Fail, "Daemon not reachable: connection refused"));
}

#[test]
fn status_line_verdicts() {
    assert_eq!(
        classify_status_line("HTTP/1.1 200 OK\r\ncontent-length: 0\r\n\r\n"),
        Ok("HTTP/1.1 200 OK".to_string())
    );
    assert_eq!(
        classify_status_line("HTTP/1.1 404 Not Found\r\n"),
        Ok("HTTP/1.1 404 Not Found".to_string())
    );
    assert_eq!(
        classify_status_line("HTTP/1.1 503 Service Unavailable\r\n"),
        Err("HTTP/1.1 503 Service Unavailable".to_string())
    );
    assert_eq!(
        classify_status_line("SSH-2.0-OpenSSH\r\n"),
        Err("unexpected response: SSH-2.0-OpenSSH".to_string())
    );
    assert_eq!(classify_status_line(""), Err("unexpected response: ".to_string()));
}

#[test]
fn api_check_by_transport() {
    let c = check_api("127.0.0.1:3000", None, Ok("HTTP/1.1 200 OK".to_string()));
    assert_eq!(view(&c), (CheckStatus::Pass, "API reachable: http://127.0.0.1:3000 (HTTP/1.1 200 OK)"));
    let c = check_api("127.0.0.1:3000", None, Err("connection refused".to_string()));
    assert_eq!(view(&c), (CheckStatus::Fail, "API not reachable: http://127.0.0.1:3000 (connection refused)"));
    let c = check_api("127.0.0.1:3443", Some(ConnectOutcome::Connected), Err(String::new()));
    assert_eq!(view(&c), (CheckStatus::Pass, "API listening: https://127.0.0.1:3443 (TLS handshake not attempted)"));
    let c = check_api("127.0.0.1:3443", Some(ConnectOutcome::TimedOut), Ok(String::new()));
    assert_eq!(view(&c), (CheckStatus::Fail, "API not reachable: https://127.0.0.1:3443 (timed out)"));
    let c = check_api("h:1", Some(ConnectOutcome::Failed("reset".to_string())), Ok(String::new()));
    assert_eq!(view(&c), (CheckStatus::Fail, "API not reachable: https://h:1 (reset)"));
}

#[test]
fn database_precheck_skips_files_the_service_will_create() {
    assert!(database_precheck(false, "relative.db", false).is_none());
    let c = database_precheck(true, "data/bindizr.db", true).unwrap();
    assert_eq!(
        view(&c),
        (CheckStatus::Skip, "Database check skipped: SQLite path 'data/bindizr.db' is relative to the service's working directory")
    );
    let c = database_precheck(true, "/var/lib/bindizr/bindizr.db", false).unwrap();
    assert_eq!(
        view(&c),
        (CheckStatus::Skip, "Database check skipped: SQLite file '/var/lib/bindizr/bindizr.db' is created on first start, with its directory")
    );
    assert!(database_precheck(true, "/var/lib/bindizr/bindizr.db", true).is_none());
}

#[test]
fn database_check_reports_the_probe() {
    assert_eq!(view(&check_database("sqlite", DbProbe::Reachable)), (CheckStatus::Pass, "Database reachable: sqlite"));
    assert_eq!(
        view(&check_database("mysql", DbProbe::Failed("access denied".to_string()))),
        (CheckStatus::Fail, "Database not reachable: access denied")
    );
    assert_eq!(
        view(&check_database("mysql", DbProbe::TimedOut)),
        (CheckStatus::Fail, "Database not reachable: timed out after 5 seconds")
    );
}

#[test]
fn bind_layouts_follow_setup_bind() {
    assert_eq!(bind_layout(true, true), Some(("/etc/bind/named.conf", "/etc/bind/named.conf.options")));
    assert_eq!(bind_layout(false, true), Some(("/etc/named.conf", "/etc/named.conf")));
    assert_eq!(bind_layout(false, false), None);
}

#[test]
fn bind_check_skips_without_a_readable_configuration() {
    let c = bind_check_skipped(None, "");
    assert_eq!(view(&c), (CheckStatus::Skip, "BIND check skipped: no BIND configuration on this host"));
    let c = bind_check_skipped(Some("/etc/named.conf"), "permission denied");
    assert_eq!(view(&c), (CheckStatus::Skip, "BIND check skipped: cannot read /etc/named.conf (permission denied)"));
}

#[test]
fn doctor_runs_the_checks_its_situation_allows() {
    assert_eq!(doctor_path(true, false), DoctorPath::Daemon);
    assert_eq!(doctor_path(false, true), DoctorPath::Offline);
    assert_eq!(doctor_path(false, false), DoctorPath::NoConfig);
    assert!(skipped_checks(DoctorPath::Daemon).is_none());
    let c = skipped_checks(DoctorPath::Offline).unwrap();
    assert_eq!(view(&c), (CheckStatus::Skip, "API check skipped: daemon is not running"));
    let c = skipped_checks(DoctorPath::NoConfig).unwrap();
    assert_eq!(view(&c), (CheckStatus::Skip, "API, database, and port checks skipped: no valid configuration"));
}

#[test]
fn configuration_checks() {
    let c = config_check("/etc/bindizr/bindizr.conf.toml", None);
    assert_eq!(view(&c), (CheckStatus::Pass, "Config valid: /etc/bindizr/bindizr.conf.toml"));
    let c = config_check("/x", Some("missing field `dns`"));
    assert_eq!(view(&c), (CheckStatus::Fail, "Config invalid: missing field `dns`"));
    let c = daemon_config_unreadable("timeout");
    assert_eq!(view(&c), (CheckStatus::Fail, "Daemon config not readable: timeout"));
}

#[test]
fn doctor_header_and_footer_in_table_form_only() {
    assert_eq!(doctor_header(OutputFormat::Table), vec!["Bindizr Doctor".to_string(), String::new()]);
    assert!(doctor_header(OutputFormat::Json).is_empty());
    assert_eq!(
        doctor_footer(OutputFormat::Table, false, 0),
        vec![String::new(), "Result: installation looks healthy".to_string()]
    );
    assert_eq!(
        doctor_footer(OutputFormat::Table, true, 0),
        vec![String::new(), "Result: installation looks \x1b[32mhealthy\x1b[0m".to_string()]
    );
    assert_eq!(doctor_footer(OutputFormat::Table, false, 2), vec![String::new()]);
    assert!(doctor_footer(OutputFormat::Yaml, false, 0).is_empty());
}

#[test]
fn a_missing_daemon_diagnosis_is_one_failure() {
    let c = daemon_answer_failed(DaemonAnswerError::Request("timeout".to_string()));
    assert_eq!(view(&c), (CheckStatus::Fail, "Daemon-side checks failed: timeout"));
    let c = daemon_answer_failed(DaemonAnswerError::Malformed("missing field `dns_server`".to_string()));
    assert_eq!(view(&c), (CheckStatus::Fail, "Doctor response was malformed: missing field `dns_server`"));
}

#[test]
fn the_single_port_catalog_check_reads_default_primaries() {
    let opts = "options {\n    catalog-zones {\n        zone \"catalog.bind\" default-primaries { 127.0.0.1 port 5300; };\n    };\n};\n";
    let c = check_bind_catalog("/etc/named.conf", ZONE_BLOCK, opts, Some(53));
    assert_eq!(view(&c), (CheckStatus::Fail, "BIND fetches the catalog from port 5300 but bindizr listens on 53: rerun setup_bind.sh"));
    let c = check_bind_catalog("/etc/named.conf", ZONE_BLOCK, opts, Some(5300));
    assert_eq!(view(&c), (CheckStatus::Pass, "BIND catalog zone configured: /etc/named.conf (primaries port 5300)"));
    let c = check_bind_catalog("/etc/named.conf", ZONE_BLOCK, "catalog-zones { zone \"catalog.bind\" default-primaries { 127.0.0.1; }; };", None);
    assert_eq!(view(&c), (CheckStatus::Pass, "BIND catalog zone configured: /etc/named.conf (primaries port 53)"));
    let c = check_bind_catalog("/etc/named.conf", ZONE_BLOCK, "catalog-zones { };", Some(53));
    assert_eq!(view(&c), (CheckStatus::Pass, "BIND catalog zone configured: /etc/named.conf"));
    let c = check_bind_catalog("/etc/named.conf", "options { };", opts, Some(53));
    assert_eq!(c.status, CheckStatus::Fail);
}

#[test]
fn daemon_side_checks_judge_secondaries_by_serial() {
    let d = SerialDoctor {
        database: probe(true, "postgresql"),
        dns_server: probe(true, "0.0.0.0:53"),
        secondaries: vec![
            SerialProbe { address: "10.0.0.2".to_string(), serial: Some(9), error: None },
            SerialProbe { address: "10.0.0.3".to_string(), serial: Some(8), error: None },
            SerialProbe { address: "10.0.0.4".to_string(), serial: None, error: Some("timeout".to_string()) },
        ],
        notifies: vec![NotifyProbe { address: "10.0.0.2".to_string(), error: None }],
        catalog_serial: Some(9),
    };
    let checks = check_daemon_side(&d);
    let views: Vec<(CheckStatus, &str)> = checks.iter().map(view).collect();
    assert_eq!(
        views,
        vec![
            (CheckStatus::Pass, "Database connected: postgresql"),
            (CheckStatus::Pass, "DNS server reachable: 0.0.0.0:53"),
            (CheckStatus::Pass, "Secondary in sync: 10.0.0.2 (catalog serial 9)"),
            (CheckStatus::Fail, "Secondary out of sync: 10.0.0.3 (serving catalog serial 8, expected 9)"),
            (CheckStatus::Fail, "Secondary unreachable: 10.0.0.4 (timeout)"),
            (CheckStatus::Pass, "NOTIFY accepted: 10.0.0.2"),
        ]
    );
    let d = SerialDoctor {
        database: probe(false, "refused"),
        dns_server: probe(true, "x"),
        secondaries: vec![SerialProbe { address: "a".to_string(), serial: Some(1), error: None }],
        notifies: vec![],
        catalog_serial: None,
    };
    let checks = check_daemon_side(&d);
    assert_eq!(view(&checks[0]), (CheckStatus::Fail, "Database not reachable: refused"));
    assert_eq!(view(&checks[2]), (CheckStatus::Pass, "Secondary reachable: a (catalog serial 1)"));
    let empty = SerialDoctor { database: probe(true, "x"), dns_server: probe(true, "y"), secondaries: vec![], notifies: vec![], catalog_serial: None };
    assert_eq!(view(&check_daemon_side(&empty)[2]), (CheckStatus::Skip, "No secondaries configured"));
}
