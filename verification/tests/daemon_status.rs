use bindizr::daemon_status::{
    print_status, restart_timed_out, restarted_line, status_outcome, stop_timed_out, was_replaced,
    DaemonStatus, RESTART_DEADLINE_SECS, STOP_DEADLINE_SECS,
};

fn status() -> DaemonStatus {
    DaemonStatus {
        pid: Some(1234),
        version: "0.9.0".to_string(),
        uptime: "2h 5m".to_string(),
        api_url: "http://127.0.0.1:3000".to_string(),
        api_authentication: true,
        dns_addr: "0.0.0.0:53".to_string(),
        database_type: "sqlite".to_string(),
        database_error: None,
        zones: Some(3),
        secondaries: Some(1),
    }
}

#[test]
fn the_status_block() {
    assert_eq!(
        print_status(false, &status()),
        vec![
            "=== BINDIZR STATUS ===",
            "Status: Running",
            "PID: 1234",
            "Version: 0.9.0",
            "Uptime: 2h 5m",
            "",
            "API: http://127.0.0.1:3000 (authentication on)",
            "DNS: 0.0.0.0:53",
            "Database: sqlite (3 zones)",
            "Secondaries: 1 enabled",
        ]
    );
    assert!(status_outcome(&status()).is_ok());
}

#[test]
fn counts_of_one_are_singular_and_missing_counts_are_left_out() {
    let mut s = status();
    s.pid = None;
    s.api_authentication = false;
    s.zones = Some(1);
    s.secondaries = None;
    let lines = print_status(false, &s);
    assert_eq!(lines.len(), 9);
    assert_eq!(lines[2], "PID: Unknown");
    assert_eq!(lines[6], "API: http://127.0.0.1:3000 (authentication off)");
    assert_eq!(lines[8], "Database: sqlite (1 zone)");
    s.zones = None;
    assert_eq!(print_status(false, &s)[8], "Database: sqlite");
}

#[test]
fn a_database_that_does_not_answer_is_unhealthy() {
    let mut s = status();
    s.database_error = Some("locked".to_string());
    assert_eq!(print_status(false, &s)[8], "Database: sqlite (locked)");
    assert_eq!(print_status(true, &s)[8], "Database: sqlite (\x1b[31mlocked\x1b[0m)");
    assert_eq!(print_status(true, &s)[1], "Status: \x1b[32mRunning\x1b[0m");
    let e = status_outcome(&s).unwrap_err();
    assert_eq!(e.message, "Database unavailable: locked");
}

#[test]
fn restart_and_stop_outcomes() {
    assert!(was_replaced(1000, 2000));
    assert!(!was_replaced(1000, 1000));
    assert_eq!(restarted_line(Some(7), "1.0"), "Bindizr restarted: pid 7 (version 1.0)");
    assert_eq!(restarted_line(None, "1.0"), "Bindizr restarted: pid unknown (version 1.0)");
    assert_eq!((RESTART_DEADLINE_SECS, STOP_DEADLINE_SECS), (40, 20));
    assert_eq!(restart_timed_out().message, "Bindizr did not come back within 40 seconds after the restart request");
    assert_eq!(stop_timed_out().message, "Bindizr did not stop within 20 seconds");
}
