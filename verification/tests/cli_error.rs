use bindizr::cli_error::command_outcome;
use bindizr::cli_error::{
    CliError, ErrorCode, Failure, EXIT_CONFIG, EXIT_CONFLICT, EXIT_DENIED, EXIT_FAILURE,
    EXIT_NOT_FOUND, EXIT_UNAVAILABLE,
};

fn exit_for(code: ErrorCode) -> i32 {
    CliError { code: Some(code), failure: Failure::Request, message: String::new() }.exit_code()
}

/// Verify that exit codes separate the classes a script branches on.
#[test]
fn exit_codes_separate_the_classes_a_script_branches_on() {
    assert_eq!(exit_for(ErrorCode::ZoneNotFound), EXIT_NOT_FOUND);
    assert_eq!(exit_for(ErrorCode::RecordConflict), EXIT_CONFLICT);
    assert_eq!(exit_for(ErrorCode::Forbidden), EXIT_DENIED);
    assert_eq!(exit_for(ErrorCode::InvalidInput), EXIT_FAILURE);
    // An unreachable daemon sends no code at all, and a script retries it.
    assert_eq!(
        CliError::daemon_unreachable("connection refused".to_string()).exit_code(),
        EXIT_UNAVAILABLE
    );
    assert_eq!(CliError::from_message("malformed response").exit_code(), EXIT_FAILURE);
    // A supervisor restarts a start that failed on a late database, and
    // gives up on one that failed on the configuration file.
    assert_eq!(
        CliError::configuration("missing field `mname`".to_string()).exit_code(),
        EXIT_CONFIG
    );
}

/// Verify that the daemon's two failure classes keep their LSB values.
#[test]
fn the_daemon_classes_keep_their_lsb_values() {
    assert_eq!(EXIT_CONFIG, 6, "systemd prints 6 as NOTCONFIGURED");
    assert_eq!(EXIT_UNAVAILABLE, 7, "systemd prints 7 as NOTRUNNING");
}

#[test]
fn unreachable_and_configuration_keep_their_status_whatever_code_came_along() {
    let e = CliError { code: Some(ErrorCode::ZoneNotFound), failure: Failure::Unreachable, message: String::new() };
    assert_eq!(e.exit_code(), EXIT_UNAVAILABLE);
    let e = CliError { code: Some(ErrorCode::Forbidden), failure: Failure::Configuration, message: String::new() };
    assert_eq!(e.exit_code(), EXIT_CONFIG);
}

#[test]
fn lookups_conflicts_and_denials_exit_by_status() {
    assert_eq!(exit_for(ErrorCode::TokenNotFound), EXIT_NOT_FOUND);
    assert_eq!(exit_for(ErrorCode::TsigKeyInUse), EXIT_CONFLICT);
    assert_eq!(exit_for(ErrorCode::Unauthorized), EXIT_DENIED);
    assert_eq!(exit_for(ErrorCode::Internal), EXIT_FAILURE);
}

#[test]
fn http_status_of_codes() {
    assert_eq!(ErrorCode::ZoneNotFound.http_status(), 404);
    assert_eq!(ErrorCode::ZoneConflict.http_status(), 409);
    assert_eq!(ErrorCode::InvalidInput.http_status(), 400);
    assert_eq!(ErrorCode::Unauthorized.http_status(), 401);
    assert_eq!(ErrorCode::Forbidden.http_status(), 403);
    assert_eq!(ErrorCode::Internal.http_status(), 500);
}

#[test]
fn hints_point_at_a_command() {
    let e = CliError::from_daemon(Some(ErrorCode::ZoneNotFound), "zone missing".to_string());
    assert_eq!(e.hint(), Some("Run 'bindizr zone list' to see available zones."));
    assert_eq!(e.message, "zone missing");
    let e = CliError::from_daemon(Some(ErrorCode::Internal), String::new());
    assert_eq!(e.hint(), Some("Check the daemon logs for details."));
    let e = CliError::from_daemon(Some(ErrorCode::RecordConflict), String::new());
    assert_eq!(e.hint(), None);
    let e = CliError::from_daemon(None, String::new());
    assert_eq!(e.hint(), None);
}

#[test]
fn from_string_is_a_rejected_request() {
    let e = CliError::from("boom".to_string());
    assert_eq!(e.code, None);
    assert_eq!(e.failure, Failure::Request);
    assert_eq!(e.message, "boom");
}

#[test]
fn every_lookup_miss_has_a_hint() {
    for code in [
        ErrorCode::ZoneNotFound,
        ErrorCode::RecordNotFound,
        ErrorCode::TokenNotFound,
        ErrorCode::VersionNotFound,
        ErrorCode::TsigKeyNotFound,
        ErrorCode::TsigGrantNotFound,
        ErrorCode::TokenGrantNotFound,
        ErrorCode::DnssecPolicyNotFound,
    ] {
        assert_eq!(code.http_status(), 404);
        assert!(CliError::from_daemon(Some(code), String::new()).hint().is_some());
    }
    assert_eq!(ErrorCode::EndpointNotFound.http_status(), 404);
    assert!(CliError::from_daemon(Some(ErrorCode::EndpointNotFound), String::new()).hint().is_none());
}

#[test]
fn lost_output_fails_a_successful_command() {
    assert!(command_outcome(Ok(()), None).is_ok());
    let e = command_outcome(Ok(()), Some("broken pipe".to_string())).unwrap_err();
    assert_eq!(e.message, "output was lost: broken pipe");
    assert_eq!(e.exit_code(), EXIT_FAILURE);
    let earlier = CliError::daemon_unreachable("refused".to_string());
    let e = command_outcome(Err(earlier), Some("broken pipe".to_string())).unwrap_err();
    assert_eq!(e.message, "refused");
    assert_eq!(e.exit_code(), EXIT_UNAVAILABLE);
}

#[test]
fn a_failed_command_prints_its_error_and_hint() {
    let e = CliError::from_daemon(Some(ErrorCode::ZoneNotFound), "Zone 'x' not found".to_string());
    assert_eq!(
        e.error_lines(),
        vec!["Error: Zone 'x' not found".to_string(), "Hint: Run 'bindizr zone list' to see available zones.".to_string()]
    );
    assert_eq!(CliError::from_message("boom").error_lines(), vec!["Error: boom".to_string()]);
}
