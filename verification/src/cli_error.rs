//! Errors surfaced to the CLI user: the daemon's message, the exit status a
//! script branches on, and, when the daemon sent a machine-readable code, an
//! actionable hint derived from it; and how a command's result, with any
//! output it lost, ends the process.

use vstd::prelude::*;

verus! {

/// The machine-readable error codes the daemon sends.
#[derive(Clone, Copy, Debug, PartialEq, Eq, Structural)]
pub enum ErrorCode {
    InvalidJsonBody,
    EndpointNotFound,
    MethodNotAllowed,
    Unauthorized,
    InvalidToken,
    Forbidden,
    PayloadTooLarge,
    UnsupportedMediaType,
    InvalidInput,
    InvalidZoneField,
    InvalidRecordValue,
    InvalidRecordName,
    ZoneNotFound,
    RecordNotFound,
    TokenNotFound,
    VersionNotFound,
    TsigKeyNotFound,
    TsigGrantNotFound,
    TokenGrantNotFound,
    DnssecPolicyNotFound,
    ZoneConflict,
    RecordConflict,
    TokenConflict,
    TsigKeyConflict,
    DnssecPolicyConflict,
    TsigKeyInUse,
    DnssecPolicyInUse,
    DnssecNotEnabled,
    DnssecAlreadyEnabled,
    DnssecRolloverInProgress,
    DnssecNoRolloverInProgress,
    DnssecDsPublished,
    DnssecDsNotPublished,
    DnssecDsUnverified,
    DnssecSigningFailed,
    Internal,
}

/// The HTTP status each code is answered with: lookups that find nothing are
/// 404, requests the current state forbids are 409, malformed requests 400,
/// and the transport and authentication failures their own statuses.
pub open spec fn status_of(code: ErrorCode) -> u16 {
    match code {
        ErrorCode::InvalidJsonBody => 400,
        ErrorCode::InvalidInput => 400,
        ErrorCode::InvalidZoneField => 400,
        ErrorCode::InvalidRecordValue => 400,
        ErrorCode::InvalidRecordName => 400,
        ErrorCode::Unauthorized => 401,
        ErrorCode::InvalidToken => 401,
        ErrorCode::Forbidden => 403,
        ErrorCode::EndpointNotFound => 404,
        ErrorCode::ZoneNotFound => 404,
        ErrorCode::RecordNotFound => 404,
        ErrorCode::TokenNotFound => 404,
        ErrorCode::VersionNotFound => 404,
        ErrorCode::TsigKeyNotFound => 404,
        ErrorCode::TsigGrantNotFound => 404,
        ErrorCode::TokenGrantNotFound => 404,
        ErrorCode::DnssecPolicyNotFound => 404,
        ErrorCode::MethodNotAllowed => 405,
        ErrorCode::ZoneConflict => 409,
        ErrorCode::RecordConflict => 409,
        ErrorCode::TokenConflict => 409,
        ErrorCode::TsigKeyConflict => 409,
        ErrorCode::DnssecPolicyConflict => 409,
        ErrorCode::TsigKeyInUse => 409,
        ErrorCode::DnssecPolicyInUse => 409,
        ErrorCode::DnssecNotEnabled => 409,
        ErrorCode::DnssecAlreadyEnabled => 409,
        ErrorCode::DnssecRolloverInProgress => 409,
        ErrorCode::DnssecNoRolloverInProgress => 409,
        ErrorCode::DnssecDsPublished => 409,
        ErrorCode::DnssecDsNotPublished => 409,
        ErrorCode::DnssecDsUnverified => 409,
        ErrorCode::PayloadTooLarge => 413,
        ErrorCode::UnsupportedMediaType => 415,
        ErrorCode::DnssecSigningFailed => 500,
        ErrorCode::Internal => 500,
    }
}

impl ErrorCode {
    /// The HTTP status this code is answered with.
    pub fn http_status(self) -> (s: u16)
        ensures
            s == status_of(self),
    {
        match self {
            ErrorCode::InvalidJsonBody => 400,
            ErrorCode::InvalidInput => 400,
            ErrorCode::InvalidZoneField => 400,
            ErrorCode::InvalidRecordValue => 400,
            ErrorCode::InvalidRecordName => 400,
            ErrorCode::Unauthorized => 401,
            ErrorCode::InvalidToken => 401,
            ErrorCode::Forbidden => 403,
            ErrorCode::EndpointNotFound => 404,
            ErrorCode::ZoneNotFound => 404,
            ErrorCode::RecordNotFound => 404,
            ErrorCode::TokenNotFound => 404,
            ErrorCode::VersionNotFound => 404,
            ErrorCode::TsigKeyNotFound => 404,
            ErrorCode::TsigGrantNotFound => 404,
            ErrorCode::TokenGrantNotFound => 404,
            ErrorCode::DnssecPolicyNotFound => 404,
            ErrorCode::MethodNotAllowed => 405,
            ErrorCode::ZoneConflict => 409,
            ErrorCode::RecordConflict => 409,
            ErrorCode::TokenConflict => 409,
            ErrorCode::TsigKeyConflict => 409,
            ErrorCode::DnssecPolicyConflict => 409,
            ErrorCode::TsigKeyInUse => 409,
            ErrorCode::DnssecPolicyInUse => 409,
            ErrorCode::DnssecNotEnabled => 409,
            ErrorCode::DnssecAlreadyEnabled => 409,
            ErrorCode::DnssecRolloverInProgress => 409,
            ErrorCode::DnssecNoRolloverInProgress => 409,
            ErrorCode::DnssecDsPublished => 409,
            ErrorCode::DnssecDsNotPublished => 409,
            ErrorCode::DnssecDsUnverified => 409,
            ErrorCode::PayloadTooLarge => 413,
            ErrorCode::UnsupportedMediaType => 415,
            ErrorCode::DnssecSigningFailed => 500,
            ErrorCode::Internal => 500,
        }
    }
}

/// The kinds of failure that exit differently.
#[derive(Clone, Copy, Debug, PartialEq, Eq, Structural)]
pub enum Failure {
    /// The request was rejected, by the daemon or before it was sent.
    Request,
    /// The daemon never answered, so no reply could carry a code.
    Unreachable,
    /// The configuration is unusable, so running the same thing again changes
    /// nothing.
    Configuration,
}

/// Error surfaced to the CLI user.
#[derive(Debug)]
pub struct CliError {
    pub code: Option<ErrorCode>,
    pub failure: Failure,
    pub message: String,
}

/// 2 is left to clap's usage errors. The daemon is a systemd service, so 6
/// and 7 keep the meanings it prints for them: `NOTCONFIGURED`, `NOTRUNNING`.
pub const EXIT_FAILURE: i32 = 1;

pub const EXIT_NOT_FOUND: i32 = 3;

pub const EXIT_CONFLICT: i32 = 4;

pub const EXIT_DENIED: i32 = 5;

pub const EXIT_CONFIG: i32 = 6;

pub const EXIT_UNAVAILABLE: i32 = 7;

/// The exit status of a failure: an unreachable daemon and an unusable
/// configuration exit with their own statuses; a rejected request exits by
/// the HTTP status of its code (not found, conflict, denied), or 1.
pub open spec fn exit_status(failure: Failure, code: Option<ErrorCode>) -> i32 {
    match failure {
        Failure::Unreachable => EXIT_UNAVAILABLE,
        Failure::Configuration => EXIT_CONFIG,
        Failure::Request => match code {
            Some(c) => if status_of(c) == 404 {
                EXIT_NOT_FOUND
            } else if status_of(c) == 409 {
                EXIT_CONFLICT
            } else if status_of(c) == 401 || status_of(c) == 403 {
                EXIT_DENIED
            } else {
                EXIT_FAILURE
            },
            None => EXIT_FAILURE,
        },
    }
}

/// The hint for a code, where one can point at a command. The CLI speaks the
/// daemon socket as a global caller, so transport and token errors never
/// reach it; where the daemon's message already names the remedy, a hint
/// could only restate it.
pub open spec fn hint_of(code: ErrorCode) -> Option<Seq<char>> {
    match code {
        ErrorCode::ZoneNotFound => Some("Run 'bindizr zone list' to see available zones."@),
        ErrorCode::RecordNotFound => Some("Run 'bindizr record list' to see available records."@),
        ErrorCode::TokenNotFound => Some("Run 'bindizr token list' to see available tokens."@),
        ErrorCode::VersionNotFound => Some(
            "Run 'bindizr zone version list <NAME>' to see available serials."@,
        ),
        ErrorCode::TsigKeyNotFound => Some("Run 'bindizr tsig-key list' to see available keys."@),
        ErrorCode::DnssecPolicyNotFound => Some(
            "Run 'bindizr dnssec-policy list' to see available policies."@,
        ),
        ErrorCode::TsigKeyInUse => Some(
            "Run 'bindizr tsig-key grants <NAME>' and revoke each one before deleting the key."@,
        ),
        ErrorCode::DnssecPolicyInUse => Some(
            "Move those zones onto another policy with 'bindizr dnssec set --policy', or disable DNSSEC on them."@,
        ),
        ErrorCode::DnssecNotEnabled => Some(
            "Run 'bindizr dnssec enable <NAME> --parent-ns-addrs <ADDRS>' to sign the zone first."@,
        ),
        ErrorCode::DnssecRolloverInProgress => Some(
            "Run 'bindizr dnssec status <NAME>' to see which key is rolling and what it waits on."@,
        ),
        ErrorCode::DnssecNoRolloverInProgress => Some(
            "Start one with 'bindizr dnssec rollover start <NAME>'."@,
        ),
        ErrorCode::DnssecSigningFailed => Some(
            "Check the daemon logs; 'bindizr dnssec status <NAME>' shows whether the zone is still signed."@,
        ),
        ErrorCode::Internal => Some("Check the daemon logs for details."@),
        ErrorCode::TsigGrantNotFound => Some(
            "Run 'bindizr tsig-key grants <NAME>' to see a key's grant IDs."@,
        ),
        ErrorCode::TokenGrantNotFound => Some(
            "Run 'bindizr token grants <NAME>' to see a token's grant IDs."@,
        ),
        ErrorCode::DnssecAlreadyEnabled => Some(
            "Run 'bindizr dnssec status <NAME>' to see the settings, or 'bindizr dnssec set' to change them."@,
        ),
        ErrorCode::InvalidRecordName => Some(
            "Record names are relative to the zone: '@' is the apex, and a fully qualified name must end in the zone."@,
        ),
        _ => None,
    }
}

impl From<String> for CliError {
    /// Wrap a message as a CLI error.
    fn from(message: String) -> (r: Self) {
        CliError { code: None, failure: Failure::Request, message }
    }
}

impl vstd::std_specs::convert::FromSpecImpl<String> for CliError {
    open spec fn obeys_from_spec() -> bool {
        true
    }

    open spec fn from_spec(v: String) -> Self {
        CliError { code: None, failure: Failure::Request, message: v }
    }
}

impl CliError {
    /// Wrap a message as a CLI error (the `From<&str>` conversion).
    pub fn from_message(message: &str) -> (r: Self)
        ensures
            r.code is None,
            r.failure == Failure::Request,
            r.message@ == message@,
    {
        CliError { code: None, failure: Failure::Request, message: String::from_str(message) }
    }

    /// An error reply from the daemon, carrying whatever code it sent.
    pub fn from_daemon(code: Option<ErrorCode>, message: String) -> (r: Self)
        ensures
            r.code == code,
            r.failure == Failure::Request,
            r.message == message,
    {
        CliError { code, failure: Failure::Request, message }
    }

    /// The daemon could not be reached. Exits distinctly so a script can
    /// retry, where a rejected request would fail the same way again.
    pub fn daemon_unreachable(message: String) -> (r: Self)
        ensures
            r.code is None,
            r.failure == Failure::Unreachable,
            r.message == message,
    {
        CliError { code: None, failure: Failure::Unreachable, message }
    }

    /// The configuration is unusable. Exits distinctly so a supervisor can
    /// stop retrying a start that will fail the same way every time.
    pub fn configuration(message: String) -> (r: Self)
        ensures
            r.code is None,
            r.failure == Failure::Configuration,
            r.message == message,
    {
        CliError { code: None, failure: Failure::Configuration, message }
    }

    /// The process exit status for this error, derived from the code's HTTP
    /// status, so a new code needs no second list here.
    pub fn exit_code(&self) -> (c: i32)
        ensures
            c == exit_status(self.failure, self.code),
    {
        match self.failure {
            Failure::Unreachable => {
                return EXIT_UNAVAILABLE;
            },
            Failure::Configuration => {
                return EXIT_CONFIG;
            },
            Failure::Request => {},
        }
        match self.code {
            Some(code) => {
                let status = code.http_status();
                if status == 404 {
                    EXIT_NOT_FOUND
                } else if status == 409 {
                    EXIT_CONFLICT
                } else if status == 401 || status == 403 {
                    EXIT_DENIED
                } else {
                    EXIT_FAILURE
                }
            },
            None => EXIT_FAILURE,
        }
    }

    /// An actionable hint for the code the daemon sent, if it can point at a
    /// command.
    pub fn hint(&self) -> (h: Option<&'static str>)
        ensures
            match self.code {
                None => h is None,
                Some(c) => match h {
                    Some(s) => hint_of(c) == Some(s@),
                    None => hint_of(c) is None,
                },
            },
    {
        let code = match self.code {
            Some(code) => code,
            None => {
                return None;
            },
        };
        match code {
            ErrorCode::ZoneNotFound => Some("Run 'bindizr zone list' to see available zones."),
            ErrorCode::RecordNotFound => Some(
                "Run 'bindizr record list' to see available records.",
            ),
            ErrorCode::TokenNotFound => Some("Run 'bindizr token list' to see available tokens."),
            ErrorCode::VersionNotFound => Some(
                "Run 'bindizr zone version list <NAME>' to see available serials.",
            ),
            ErrorCode::TsigKeyNotFound => Some(
                "Run 'bindizr tsig-key list' to see available keys.",
            ),
            ErrorCode::DnssecPolicyNotFound => Some(
                "Run 'bindizr dnssec-policy list' to see available policies.",
            ),
            ErrorCode::TsigKeyInUse => Some(
                "Run 'bindizr tsig-key grants <NAME>' and revoke each one before deleting the key.",
            ),
            ErrorCode::DnssecPolicyInUse => Some(
                "Move those zones onto another policy with 'bindizr dnssec set --policy', or disable DNSSEC on them.",
            ),
            ErrorCode::DnssecNotEnabled => Some(
                "Run 'bindizr dnssec enable <NAME> --parent-ns-addrs <ADDRS>' to sign the zone first.",
            ),
            ErrorCode::DnssecRolloverInProgress => Some(
                "Run 'bindizr dnssec status <NAME>' to see which key is rolling and what it waits on.",
            ),
            ErrorCode::DnssecNoRolloverInProgress => Some(
                "Start one with 'bindizr dnssec rollover start <NAME>'.",
            ),
            ErrorCode::DnssecSigningFailed => Some(
                "Check the daemon logs; 'bindizr dnssec status <NAME>' shows whether the zone is still signed.",
            ),
            ErrorCode::Internal => Some("Check the daemon logs for details."),
            ErrorCode::TsigGrantNotFound => Some(
                "Run 'bindizr tsig-key grants <NAME>' to see a key's grant IDs.",
            ),
            ErrorCode::TokenGrantNotFound => Some(
                "Run 'bindizr token grants <NAME>' to see a token's grant IDs.",
            ),
            ErrorCode::DnssecAlreadyEnabled => Some(
                "Run 'bindizr dnssec status <NAME>' to see the settings, or 'bindizr dnssec set' to change them.",
            ),
            ErrorCode::InvalidRecordName => Some(
                "Record names are relative to the zone: '@' is the apex, and a fully qualified name must end in the zone.",
            ),
            ErrorCode::InvalidJsonBody | ErrorCode::EndpointNotFound | ErrorCode::MethodNotAllowed
            | ErrorCode::Unauthorized | ErrorCode::InvalidToken | ErrorCode::Forbidden
            | ErrorCode::PayloadTooLarge | ErrorCode::UnsupportedMediaType => None,
            ErrorCode::InvalidInput | ErrorCode::InvalidZoneField | ErrorCode::InvalidRecordValue
            | ErrorCode::ZoneConflict | ErrorCode::RecordConflict | ErrorCode::TokenConflict
            | ErrorCode::TsigKeyConflict | ErrorCode::DnssecPolicyConflict
            | ErrorCode::DnssecDsPublished | ErrorCode::DnssecDsNotPublished
            | ErrorCode::DnssecDsUnverified => None,
        }
    }
}

/// A command's result, with output that could not be written turned into a
/// failure: lost output must not read as success (a reader that stopped
/// early is not lost output, and is not reported as a write failure).
pub fn command_outcome(result: Result<(), CliError>, write_failure: Option<String>) -> (r: Result<(), CliError>)
    ensures
        result is Err ==> r == result,
        result is Ok && write_failure is None ==> r is Ok,
        result is Ok && write_failure is Some ==> (r matches Err(e) && e.code is None && e.failure
            == Failure::Request && e.message@ == "output was lost: "@ + write_failure.unwrap()@),
{
    match result {
        Err(e) => Err(e),
        Ok(()) => match write_failure {
            None => Ok(()),
            Some(f) => {
                let mut m = String::from_str("output was lost: ");
                m.append(f.as_str());
                Err(CliError::from_message(m.as_str()))
            },
        },
    }
}

/// What a failed command prints to stderr: the error, then the hint when
/// its code has one.
pub open spec fn error_lines_of(e: CliError) -> Seq<Seq<char>> {
    seq!["Error: "@ + e.message@] + match e.code {
        Some(c) => match hint_of(c) {
            Some(h) => seq!["Hint: "@ + h],
            None => Seq::empty(),
        },
        None => Seq::empty(),
    }
}

impl CliError {
    /// The lines a failed command prints to stderr before exiting with
    /// `exit_code`.
    pub fn error_lines(&self) -> (r: Vec<String>)
        ensures
            r@.map_values(|s: String| s@) == error_lines_of(*self),
    {
        let mut r: Vec<String> = Vec::new();
        let mut first = String::from_str("Error: ");
        first.append(self.message.as_str());
        r.push(first);
        match self.hint() {
            Some(h) => {
                let mut second = String::from_str("Hint: ");
                second.append(h);
                r.push(second);
            },
            None => {},
        }
        assert(r@.map_values(|s: String| s@) =~= error_lines_of(*self));
        r
    }
}

/// Exit statuses separate the classes a script branches on: every error
/// exits nonzero and never with clap's usage status 2; an unreachable daemon
/// always exits 7 and an unusable configuration always 6, whatever code came
/// with them; and a rejected request never exits with either of those two.
pub proof fn lemma_exit_classes(failure: Failure, code: Option<ErrorCode>)
    ensures
        exit_status(failure, code) != 0,
        exit_status(failure, code) != 2,
        failure == Failure::Unreachable <==> exit_status(failure, code) == EXIT_UNAVAILABLE,
        failure == Failure::Configuration <==> exit_status(failure, code) == EXIT_CONFIG,
{
}

/// A code whose HTTP status is a lookup miss, a conflict or a denial exits
/// with that class's status whenever it comes with a rejected request.
pub proof fn lemma_request_exit_follows_status(code: ErrorCode)
    ensures
        status_of(code) == 404 ==> exit_status(Failure::Request, Some(code)) == EXIT_NOT_FOUND,
        status_of(code) == 409 ==> exit_status(Failure::Request, Some(code)) == EXIT_CONFLICT,
        (status_of(code) == 401 || status_of(code) == 403) ==> exit_status(
            Failure::Request,
            Some(code),
        ) == EXIT_DENIED,
        !(status_of(code) == 404 || status_of(code) == 409 || status_of(code) == 401
            || status_of(code) == 403) ==> exit_status(Failure::Request, Some(code))
            == EXIT_FAILURE,
{
}

/// Every lookup that finds nothing points at the command that lists what
/// exists; only a missing endpoint, which the CLI never asks for, has no
/// hint.
pub proof fn lemma_lookup_misses_have_hints(code: ErrorCode)
    requires
        status_of(code) == 404,
        code != ErrorCode::EndpointNotFound,
    ensures
        hint_of(code) is Some,
{
}

/// Every conflict code is answered 409, so a rejected request carrying one
/// exits with the conflict status.
pub proof fn lemma_conflicts_exit_as_conflicts(code: ErrorCode)
    requires
        code == ErrorCode::ZoneConflict || code == ErrorCode::RecordConflict || code
            == ErrorCode::TokenConflict || code == ErrorCode::TsigKeyConflict || code
            == ErrorCode::DnssecPolicyConflict,
    ensures
        status_of(code) == 409,
        exit_status(Failure::Request, Some(code)) == 4,
{
}

} // verus!
