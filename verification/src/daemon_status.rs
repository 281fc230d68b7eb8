//! `status`, `stop` and `restart` as the CLI reports them: the daemon's
//! status block, whether a restart has taken effect, and the errors of a
//! daemon that did not go or did not come back in time.

use vstd::prelude::*;
use crate::cli_error::{CliError, Failure};
use crate::color::{green, green_text, red, red_text};
use crate::text::{nat_text, push_nat_text, views};

verus! {

/// The daemon's status as it reports it.
pub struct DaemonStatus {
    pub pid: Option<u32>,
    pub version: String,
    /// How long the daemon has been up, already rendered.
    pub uptime: String,
    pub api_url: String,
    pub api_authentication: bool,
    pub dns_addr: String,
    pub database_type: String,
    /// Why the database did not answer, when it did not.
    pub database_error: Option<String>,
    pub zones: Option<u64>,
    pub secondaries: Option<u64>,
}

pub open spec fn database_line(color: bool, s: DaemonStatus) -> Seq<char> {
    match s.database_error {
        Some(e) => "Database: "@ + s.database_type@ + " ("@ + red_text(color, e@) + ")"@,
        None => match s.zones {
            Some(n) => "Database: "@ + s.database_type@ + " ("@ + nat_text(n as nat) + (if n == 1 {
                " zone)"@
            } else {
                " zones)"@
            }),
            None => "Database: "@ + s.database_type@,
        },
    }
}

pub open spec fn secondaries_part(s: DaemonStatus) -> Seq<Seq<char>> {
    match s.secondaries {
        Some(n) => seq!["Secondaries: "@ + nat_text(n as nat) + " enabled"@],
        None => Seq::empty(),
    }
}

/// The status block: the daemon, a blank line, then what it serves.
pub open spec fn status_lines(color: bool, s: DaemonStatus) -> Seq<Seq<char>> {
    seq![
        "=== BINDIZR STATUS ==="@,
        "Status: "@ + green_text(color, "Running"@),
        "PID: "@ + match s.pid {
            Some(p) => nat_text(p as nat),
            None => "Unknown"@,
        },
        "Version: "@ + s.version@,
        "Uptime: "@ + s.uptime@,
        Seq::empty(),
        "API: "@ + s.api_url@ + " (authentication "@ + (if s.api_authentication {
            "on"@
        } else {
            "off"@
        }) + ")"@,
        "DNS: "@ + s.dns_addr@,
        database_line(color, s),
    ] + secondaries_part(s)
}

fn database_text(color: bool, s: &DaemonStatus) -> (r: String)
    ensures
        r@ == database_line(color, *s),
{
    let mut line = String::from_str("Database: ");
    line.append(s.database_type.as_str());
    match &s.database_error {
        Some(e) => {
            line.append(" (");
            line.append(red(color, e.as_str()).as_str());
            line.append(")");
        },
        None => match s.zones {
            Some(n) => {
                line.append(" (");
                push_nat_text(&mut line, n);
                if n == 1 {
                    line.append(" zone)");
                } else {
                    line.append(" zones)");
                }
            },
            None => {},
        },
    }
    line
}

/// The daemon's status block (the lines to print).
pub fn print_status(color: bool, s: &DaemonStatus) -> (r: Vec<String>)
    ensures
        views(r@) == status_lines(color, *s),
{
    let mut r: Vec<String> = Vec::new();
    r.push(String::from_str("=== BINDIZR STATUS ==="));
    let mut line = String::from_str("Status: ");
    line.append(green(color, "Running").as_str());
    r.push(line);
    let mut line = String::from_str("PID: ");
    match s.pid {
        Some(p) => push_nat_text(&mut line, p as u64),
        None => line.append("Unknown"),
    }
    r.push(line);
    let mut line = String::from_str("Version: ");
    line.append(s.version.as_str());
    r.push(line);
    let mut line = String::from_str("Uptime: ");
    line.append(s.uptime.as_str());
    r.push(line);
    r.push(String::new());
    let mut line = String::from_str("API: ");
    line.append(s.api_url.as_str());
    line.append(" (authentication ");
    if s.api_authentication {
        line.append("on");
    } else {
        line.append("off");
    }
    line.append(")");
    r.push(line);
    let mut line = String::from_str("DNS: ");
    line.append(s.dns_addr.as_str());
    r.push(line);
    r.push(database_text(color, s));
    match s.secondaries {
        Some(n) => {
            let mut line = String::from_str("Secondaries: ");
            push_nat_text(&mut line, n);
            line.append(" enabled");
            r.push(line);
        },
        None => {},
    }
    assert(views(r@) =~= status_lines(color, *s));
    r
}

/// A daemon whose database does not answer is not healthy, so the exit
/// status says so for a health wrapper and a container health check.
pub fn status_outcome(s: &DaemonStatus) -> (r: Result<(), CliError>)
    ensures
        s.database_error is None <==> r is Ok,
        r matches Err(e) ==> e.code is None && e.failure == Failure::Request && e.message@
            == "Database unavailable: "@ + s.database_error.unwrap()@,
{
    match &s.database_error {
        Some(error) => {
            let mut m = String::from_str("Database unavailable: ");
            m.append(error.as_str());
            Err(CliError::from_message(m.as_str()))
        },
        None => Ok(()),
    }
}

// ---------------------------------------------------------------------------
// Stop and restart
// ---------------------------------------------------------------------------

/// How long `stop` waits for the daemon socket to go: longer than the
/// daemon's own drain budget plus the delay before it acts on the request.
pub const STOP_DEADLINE_SECS: u64 = 20;

/// How long `restart` waits for the replacement: the stop budget again, plus
/// room for the replacement to open its database and listeners.
pub const RESTART_DEADLINE_SECS: u64 = 40;

/// exec keeps the PID, so a changed start time is what says the daemon was
/// replaced.
pub fn was_replaced(before_started_at_ms: i64, now_started_at_ms: i64) -> (r: bool)
    ensures
        r == (before_started_at_ms != now_started_at_ms),
{
    before_started_at_ms != now_started_at_ms
}

/// The line for a daemon that came back.
pub fn restarted_line(pid: Option<u32>, version: &str) -> (r: String)
    ensures
        r@ == "Bindizr restarted: pid "@ + (match pid {
            Some(p) => nat_text(p as nat),
            None => "unknown"@,
        }) + " (version "@ + version@ + ")"@,
{
    let mut line = String::from_str("Bindizr restarted: pid ");
    match pid {
        Some(p) => push_nat_text(&mut line, p as u64),
        None => line.append("unknown"),
    }
    line.append(" (version ");
    line.append(version);
    line.append(")");
    line
}

/// The error of a restart whose replacement did not answer in time.
pub fn restart_timed_out() -> (r: CliError)
    ensures
        r.code is None,
        r.failure == Failure::Request,
        r.message@ == "Bindizr did not come back within "@ + nat_text(RESTART_DEADLINE_SECS as nat)
            + " seconds after the restart request"@,
{
    let mut m = String::from_str("Bindizr did not come back within ");
    push_nat_text(&mut m, RESTART_DEADLINE_SECS);
    m.append(" seconds after the restart request");
    CliError::from_message(m.as_str())
}

/// The error of a stop whose daemon socket still answered at the deadline.
pub fn stop_timed_out() -> (r: CliError)
    ensures
        r.code is None,
        r.failure == Failure::Request,
        r.message@ == "Bindizr did not stop within "@ + nat_text(STOP_DEADLINE_SECS as nat)
            + " seconds"@,
{
    let mut m = String::from_str("Bindizr did not stop within ");
    push_nat_text(&mut m, STOP_DEADLINE_SECS);
    m.append(" seconds");
    CliError::from_message(m.as_str())
}

} // verus!
