use bindizr::lifecycle::{token_startup, TokenStartup};
use bindizr::lifecycle::{drain_timeout_message, reexec_failure, startup_notify_line, DRAIN_TIMEOUT_SECS};
use bindizr::lifecycle::{
    finish, initial_key_outcome, initial_token_outcome, join_names, next_step,
    token_count_warning, LifecycleEvent, Outcome, Step,
};

#[test]
fn signals_and_control_requests_end_the_loop() {
    assert!(matches!(next_step(LifecycleEvent::Terminate), Step::Exit(Outcome::Stop, ref l) if l == "SIGTERM received, shutting down..."));
    assert!(matches!(next_step(LifecycleEvent::Interrupt(Ok(()))), Step::Exit(Outcome::Stop, ref l) if l == "Interrupt received, shutting down..."));
    assert!(matches!(next_step(LifecycleEvent::Control(false)), Step::Exit(Outcome::Stop, ref l) if l == "Shutdown requested, exiting gracefully..."));
    assert!(matches!(next_step(LifecycleEvent::Control(true)), Step::Exit(Outcome::Restart, ref l) if l == "Restart requested, re-executing bindizr..."));
}

#[test]
fn a_signal_handler_that_fails_aborts() {
    match next_step(LifecycleEvent::Interrupt(Err("no signals".to_string()))) {
        Step::Abort(m) => assert_eq!(m, "Failed to listen for shutdown signal: no signals"),
        _ => panic!("a failed handler aborts"),
    }
}

#[test]
fn sighup_reloads_and_keeps_serving() {
    match next_step(LifecycleEvent::Hangup(Ok(vec![]))) {
        Step::Continue(m) => assert_eq!(m, "SIGHUP received, nothing changed."),
        _ => panic!("SIGHUP keeps serving"),
    }
    match next_step(LifecycleEvent::Hangup(Ok(vec!["logging.level".to_string(), "dns.notify".to_string()]))) {
        Step::Continue(m) => assert_eq!(m, "SIGHUP received, reloaded: logging.level, dns.notify"),
        _ => panic!("SIGHUP keeps serving"),
    }
    match next_step(LifecycleEvent::Hangup(Err("bad toml".to_string()))) {
        Step::Continue(m) => assert_eq!(m, "SIGHUP received, nothing reloaded: bad toml"),
        _ => panic!("SIGHUP keeps serving"),
    }
}

#[test]
fn a_server_that_stops_on_its_own_is_a_failure() {
    match next_step(LifecycleEvent::ServerStopped("DNS server".to_string(), Ok(()))) {
        Step::Exit(Outcome::Failed(m), _) => assert_eq!(m, "The DNS server stopped"),
        _ => panic!("a stopped server fails the daemon"),
    }
    let o = Outcome::server_stopped("HTTP API", Err("panicked".to_string()));
    assert!(matches!(o, Outcome::Failed(ref m) if m == "The HTTP API failed: panicked"));
}

#[test]
fn finish_ends_the_process_by_outcome() {
    assert_eq!(finish(Outcome::Stop, None), Ok(()));
    assert_eq!(finish(Outcome::Failed("x".to_string()), None), Err("x".to_string()));
    assert_eq!(finish(Outcome::Restart, Some("exec failed".to_string())), Err("exec failed".to_string()));
}

#[test]
fn names_join_with_commas() {
    assert_eq!(join_names(&vec![]), "");
    assert_eq!(join_names(&vec!["a".to_string()]), "a");
    assert_eq!(join_names(&vec!["a".to_string(), "b".to_string(), "c".to_string()]), "a, b, c");
}

#[test]
fn seeding_reports_creation_only() {
    assert_eq!(
        initial_key_outcome("nsupdate", Ok(true)),
        Ok(Some("Created the global TSIG key 'nsupdate' from dns.nsupdate.initial_key".to_string()))
    );
    assert_eq!(initial_key_outcome("nsupdate", Ok(false)), Ok(None));
    assert_eq!(
        initial_key_outcome("nsupdate", Err("db down".to_string())),
        Err("Failed to create the initial TSIG key: db down".to_string())
    );
    assert_eq!(
        initial_token_outcome(Ok(true)),
        Ok(Some("Created the global API token 'initial' from api.authentication.initial_token".to_string()))
    );
    assert_eq!(initial_token_outcome(Ok(false)), Ok(None));
    assert_eq!(
        initial_token_outcome(Err("db down".to_string())),
        Err("Failed to create the initial API token: db down".to_string())
    );
}

#[test]
fn no_token_with_authentication_on_warns() {
    assert_eq!(
        token_count_warning(Ok(0)),
        Some("API authentication is on and no API tokens exist; create one with `bindizr token create admin --global`".to_string())
    );
    assert_eq!(token_count_warning(Ok(3)), None);
    assert_eq!(token_count_warning(Err("db".to_string())), Some("Could not count API tokens: db".to_string()));
}

#[test]
fn the_token_step_of_startup() {
    assert_eq!(token_startup(true, true), TokenStartup::Seed);
    assert_eq!(token_startup(true, false), TokenStartup::Seed);
    assert_eq!(token_startup(false, true), TokenStartup::Count);
    assert_eq!(token_startup(false, false), TokenStartup::Nothing);
}

#[test]
fn startup_notify_and_shutdown_messages() {
    assert_eq!(startup_notify_line(Ok(())), Ok("Startup DNS NOTIFY completed.".to_string()));
    assert_eq!(startup_notify_line(Err("no secondaries".to_string())), Err("Startup DNS NOTIFY failed: no secondaries".to_string()));
    assert_eq!(DRAIN_TIMEOUT_SECS, 10);
    assert_eq!(drain_timeout_message(), "Servers did not finish within 10s, exiting anyway.");
    assert_eq!(reexec_failure(None), "Failed to locate the bindizr executable");
    assert_eq!(reexec_failure(Some("ENOENT".to_string())), "Failed to re-execute bindizr: ENOENT");
}
