//! The daemon's lifecycle decisions: what each signal, control request or
//! stopped server means for the serving loop, how the loop's outcome ends the
//! process, and what startup and shutdown report. The loop itself (waiting on
//! signals, sockets and tasks) belongs to the caller.

use vstd::prelude::*;
use crate::text::{nat_text, push_nat_text};

verus! {

/// Why the lifecycle loop ended.
pub enum Outcome {
    Stop,
    Restart,
    Failed(String),
}

/// What woke the lifecycle loop.
pub enum LifecycleEvent {
    /// Ctrl-C, or the error that kept the handler from being installed.
    Interrupt(Result<(), String>),
    /// SIGTERM.
    Terminate,
    /// SIGHUP, with what reloading the configuration gave: the settings that
    /// changed, or why nothing was reloaded.
    Hangup(Result<Vec<String>, String>),
    /// A server that stopped on its own: its name, and the join error if its
    /// task failed.
    ServerStopped(String, Result<(), String>),
    /// A request on the control socket: `true` for a restart, `false` for a
    /// shutdown (or the control channel closing).
    Control(bool),
}

/// What the loop does next.
pub enum Step {
    /// Keep serving, after logging the line.
    Continue(String),
    /// Leave the loop with this outcome, after logging the line (an empty
    /// line is not logged).
    Exit(Outcome, String),
    /// Give up at once with this error (no drain).
    Abort(String),
}

/// The message of a server that stopped on its own, so the exit says what
/// failed.
pub open spec fn stopped_message(name: Seq<char>, result: Result<(), Seq<char>>) -> Seq<char> {
    match result {
        Ok(()) => "The "@ + name + " stopped"@,
        Err(e) => "The "@ + name + " failed: "@ + e,
    }
}

pub open spec fn failed_with(o: Outcome, message: Seq<char>) -> bool {
    o matches Outcome::Failed(m) && m@ == message
}

impl Outcome {
    /// The outcome of a server that stopped on its own.
    pub fn server_stopped(name: &str, result: Result<(), String>) -> (r: Outcome)
        ensures
            failed_with(
                r,
                stopped_message(
                    name@,
                    match result {
                        Ok(()) => Ok(()),
                        Err(e) => Err(e@),
                    },
                ),
            ),
    {
        let mut m = String::from_str("The ");
        m.append(name);
        match result {
            Ok(()) => {
                m.append(" stopped");
            },
            Err(e) => {
                m.append(" failed: ");
                m.append(e.as_str());
            },
        }
        Outcome::Failed(m)
    }
}

/// The names joined with `", "`.
pub open spec fn joined(names: Seq<Seq<char>>) -> Seq<char>
    decreases names.len(),
{
    if names.len() == 0 {
        Seq::empty()
    } else if names.len() == 1 {
        names[0]
    } else {
        joined(names.drop_last()) + ", "@ + names.last()
    }
}

/// The log line for a SIGHUP.
pub open spec fn reload_message(result: Result<Seq<Seq<char>>, Seq<char>>) -> Seq<char> {
    match result {
        Ok(changed) => if changed.len() == 0 {
            "SIGHUP received, nothing changed."@
        } else {
            "SIGHUP received, reloaded: "@ + joined(changed)
        },
        Err(e) => "SIGHUP received, nothing reloaded: "@ + e,
    }
}

/// The names joined with `", "`.
pub fn join_names(names: &Vec<String>) -> (r: String)
    ensures
        r@ == joined(names@.map_values(|s: String| s@)),
{
    let ghost views = names@.map_values(|s: String| s@);
    let mut out = String::new();
    let mut i: usize = 0;
    while i < names.len()
        invariant
            i <= names@.len(),
            views == names@.map_values(|s: String| s@),
            out@ == joined(views.take(i as int)),
        decreases names.len() - i,
    {
        if i != 0 {
            out.append(", ");
        }
        out.append(names[i].as_str());
        assert(views.take(i + 1).drop_last() == views.take(i as int));
        assert(views.take(i + 1)[0] == views[0]);
        i = i + 1;
    }
    assert(views.take(names@.len() as int) == views);
    out
}

/// The daemon's response to one event: a signal stops it (a handler that
/// could not be installed aborts it), SIGHUP reloads and keeps serving, a
/// server that stops on its own ends it as a failure (the control socket
/// would otherwise keep answering for a process serving nothing), and a
/// control request restarts or stops it.
pub open spec fn step_kind(event: LifecycleEvent) -> int {
    match event {
        LifecycleEvent::Interrupt(Err(_)) => 0,
        LifecycleEvent::Interrupt(Ok(())) => 1,
        LifecycleEvent::Terminate => 1,
        LifecycleEvent::Hangup(_) => 2,
        LifecycleEvent::ServerStopped(_, _) => 3,
        LifecycleEvent::Control(true) => 4,
        LifecycleEvent::Control(false) => 1,
    }
}

/// The line logged when an event ends the loop by request: which signal or
/// control request it was.
pub open spec fn exit_line(event: LifecycleEvent) -> Seq<char> {
    match event {
        LifecycleEvent::Interrupt(_) => "Interrupt received, shutting down..."@,
        LifecycleEvent::Terminate => "SIGTERM received, shutting down..."@,
        LifecycleEvent::Control(true) => "Restart requested, re-executing bindizr..."@,
        LifecycleEvent::Control(false) => "Shutdown requested, exiting gracefully..."@,
        _ => Seq::empty(),
    }
}

/// What the loop does on an event.
pub fn next_step(event: LifecycleEvent) -> (r: Step)
    ensures
        step_kind(event) == 0 ==> (r matches Step::Abort(m) && m@ == "Failed to listen for shutdown signal: "@ + (match event {
            LifecycleEvent::Interrupt(Err(e)) => e@,
            _ => Seq::empty(),
        })),
        step_kind(event) == 1 ==> (r matches Step::Exit(o, l) && o is Stop && l@ == exit_line(event)),
        step_kind(event) == 2 ==> (r matches Step::Continue(m) && m@ == reload_message(
            match event {
                LifecycleEvent::Hangup(Ok(changed)) => Ok(changed@.map_values(|s: String| s@)),
                LifecycleEvent::Hangup(Err(e)) => Err(e@),
                _ => Err(Seq::empty()),
            },
        )),
        step_kind(event) == 3 ==> (r matches Step::Exit(o, l) && l@ == Seq::<char>::empty() && (match event {
            LifecycleEvent::ServerStopped(name, result) => failed_with(
                o,
                stopped_message(
                    name@,
                    match result {
                        Ok(()) => Ok(()),
                        Err(e) => Err(e@),
                    },
                ),
            ),
            _ => false,
        })),
        step_kind(event) == 4 ==> (r matches Step::Exit(o, l) && o is Restart && l@ == exit_line(event)),
{
    match event {
        LifecycleEvent::Interrupt(Err(e)) => {
            let mut m = String::from_str("Failed to listen for shutdown signal: ");
            m.append(e.as_str());
            Step::Abort(m)
        },
        LifecycleEvent::Interrupt(Ok(())) => Step::Exit(
            Outcome::Stop,
            String::from_str("Interrupt received, shutting down..."),
        ),
        LifecycleEvent::Terminate => Step::Exit(
            Outcome::Stop,
            String::from_str("SIGTERM received, shutting down..."),
        ),
        LifecycleEvent::Hangup(result) => {
            let line = match result {
                Ok(changed) => {
                    if changed.len() == 0 {
                        String::from_str("SIGHUP received, nothing changed.")
                    } else {
                        let mut m = String::from_str("SIGHUP received, reloaded: ");
                        m.append(join_names(&changed).as_str());
                        m
                    }
                },
                Err(e) => {
                    let mut m = String::from_str("SIGHUP received, nothing reloaded: ");
                    m.append(e.as_str());
                    m
                },
            };
            Step::Continue(line)
        },
        LifecycleEvent::ServerStopped(name, result) => {
            let outcome = Outcome::server_stopped(name.as_str(), result);
            Step::Exit(outcome, String::new())
        },
        LifecycleEvent::Control(true) => Step::Exit(
            Outcome::Restart,
            String::from_str("Restart requested, re-executing bindizr..."),
        ),
        LifecycleEvent::Control(false) => Step::Exit(
            Outcome::Stop,
            String::from_str("Shutdown requested, exiting gracefully..."),
        ),
    }
}

/// How the process ends once the servers have drained: a stop succeeds, a
/// failure is the error, and a restart re-executes the binary (the caller's
/// part); exec returns only on failure, with `reexec_error`, by which time
/// nothing is listening, so that failure ends the process.
pub fn finish(outcome: Outcome, reexec_error: Option<String>) -> (r: Result<(), String>)
    requires
        outcome is Restart ==> reexec_error is Some,
    ensures
        (outcome is Stop) ==> r is Ok,
        (outcome is Failed) ==> (r matches Err(m) && outcome == Outcome::Failed(m)),
        (outcome is Restart) ==> (r matches Err(m) && reexec_error == Some(m)),
{
    match outcome {
        Outcome::Stop => Ok(()),
        Outcome::Failed(e) => Err(e),
        Outcome::Restart => match reexec_error {
            Some(e) => Err(e),
            None => Err(String::new()),
        },
    }
}

/// What seeding an initial credential at startup reports: the line to log
/// when it was created, nothing when it already existed, or the error that
/// stops the start.
pub open spec fn seed_report(
    created_line: Seq<char>,
    error_prefix: Seq<char>,
    result: Result<bool, Seq<char>>,
) -> Result<Option<Seq<char>>, Seq<char>> {
    match result {
        Ok(true) => Ok(Some(created_line)),
        Ok(false) => Ok(None),
        Err(e) => Err(error_prefix + e),
    }
}

fn seed_outcome(created_line: String, error_prefix: &str, result: Result<bool, String>) -> (r:
    Result<Option<String>, String>)
    ensures
        match seed_report(
            created_line@,
            error_prefix@,
            match result {
                Ok(b) => Ok(b),
                Err(e) => Err(e@),
            },
        ) {
            Ok(Some(l)) => r matches Ok(Some(s)) && s@ == l,
            Ok(None) => r matches Ok(None),
            Err(e) => r matches Err(s) && s@ == e,
        },
{
    match result {
        Ok(true) => Ok(Some(created_line)),
        Ok(false) => Ok(None),
        Err(e) => {
            let mut m = String::from_str(error_prefix);
            m.append(e.as_str());
            Err(m)
        },
    }
}

/// Seeding the global TSIG key named in `dns.nsupdate.initial_key`.
pub fn initial_key_outcome(name: &str, result: Result<bool, String>) -> (r: Result<
    Option<String>,
    String,
>)
    ensures
        match seed_report(
            "Created the global TSIG key '"@ + name@ + "' from dns.nsupdate.initial_key"@,
            "Failed to create the initial TSIG key: "@,
            match result {
                Ok(b) => Ok(b),
                Err(e) => Err(e@),
            },
        ) {
            Ok(Some(l)) => r matches Ok(Some(s)) && s@ == l,
            Ok(None) => r matches Ok(None),
            Err(e) => r matches Err(s) && s@ == e,
        },
{
    let mut line = String::from_str("Created the global TSIG key '");
    line.append(name);
    line.append("' from dns.nsupdate.initial_key");
    seed_outcome(line, "Failed to create the initial TSIG key: ", result)
}

/// Seeding the global API token from `api.authentication.initial_token`.
pub fn initial_token_outcome(result: Result<bool, String>) -> (r: Result<Option<String>, String>)
    ensures
        match seed_report(
            "Created the global API token 'initial' from api.authentication.initial_token"@,
            "Failed to create the initial API token: "@,
            match result {
                Ok(b) => Ok(b),
                Err(e) => Err(e@),
            },
        ) {
            Ok(Some(l)) => r matches Ok(Some(s)) && s@ == l,
            Ok(None) => r matches Ok(None),
            Err(e) => r matches Err(s) && s@ == e,
        },
{
    seed_outcome(
        String::from_str(
            "Created the global API token 'initial' from api.authentication.initial_token",
        ),
        "Failed to create the initial API token: ",
        result,
    )
}

/// The warning for a start with authentication on and no initial token: a
/// fresh install answers 401 until a token exists. Nothing when tokens exist.
pub fn token_count_warning(count: Result<u64, String>) -> (r: Option<String>)
    ensures
        match count {
            Ok(0) => r matches Some(s) && s@
                == "API authentication is on and no API tokens exist; create one with `bindizr token create admin --global`"@,
            Ok(_) => r is None,
            Err(e) => r matches Some(s) && s@ == "Could not count API tokens: "@ + e@,
        },
{
    match count {
        Ok(0) => Some(
            String::from_str(
                "API authentication is on and no API tokens exist; create one with `bindizr token create admin --global`",
            ),
        ),
        Ok(_) => None,
        Err(e) => {
            let mut m = String::from_str("Could not count API tokens: ");
            m.append(e.as_str());
            Some(m)
        },
    }
}

/// What startup does about API tokens: seed the configured initial token,
/// or, with authentication on and none configured, count the tokens to warn
/// a fresh install that every request will be refused.
#[derive(Clone, Copy, Debug, PartialEq, Eq, Structural)]
pub enum TokenStartup {
    Seed,
    Count,
    Nothing,
}

/// The token step of startup.
pub fn token_startup(has_initial_token: bool, authentication_required: bool) -> (r: TokenStartup)
    ensures
        r == (if has_initial_token {
            TokenStartup::Seed
        } else if authentication_required {
            TokenStartup::Count
        } else {
            TokenStartup::Nothing
        }),
{
    if has_initial_token {
        TokenStartup::Seed
    } else if authentication_required {
        TokenStartup::Count
    } else {
        TokenStartup::Nothing
    }
}

/// The log line of the startup NOTIFY: informational when it went out, an
/// error with the reason when it did not.
pub fn startup_notify_line(result: Result<(), String>) -> (r: Result<String, String>)
    ensures
        match result {
            Ok(()) => r matches Ok(l) && l@ == "Startup DNS NOTIFY completed."@,
            Err(e) => r matches Err(l) && l@ == "Startup DNS NOTIFY failed: "@ + e@,
        },
{
    match result {
        Ok(()) => Ok(String::from_str("Startup DNS NOTIFY completed.")),
        Err(e) => {
            let mut m = String::from_str("Startup DNS NOTIFY failed: ");
            m.append(e.as_str());
            Err(m)
        },
    }
}

/// How long the servers that can finish on their own get before the daemon
/// exits anyway, in seconds.
pub const DRAIN_TIMEOUT_SECS: u64 = 10;

/// The error logged when draining ran out of time.
pub fn drain_timeout_message() -> (r: String)
    ensures
        r@ == "Servers did not finish within "@ + nat_text(DRAIN_TIMEOUT_SECS as nat)
            + "s, exiting anyway."@,
{
    let mut m = String::from_str("Servers did not finish within ");
    push_nat_text(&mut m, DRAIN_TIMEOUT_SECS);
    m.append("s, exiting anyway.");
    m
}

/// Why re-executing failed: no executable was recorded at startup, or exec
/// itself returned with an error.
pub fn reexec_failure(exec_error: Option<String>) -> (r: String)
    ensures
        match exec_error {
            None => r@ == "Failed to locate the bindizr executable"@,
            Some(e) => r@ == "Failed to re-execute bindizr: "@ + e@,
        },
{
    match exec_error {
        None => String::from_str("Failed to locate the bindizr executable"),
        Some(e) => {
            let mut m = String::from_str("Failed to re-execute bindizr: ");
            m.append(e.as_str());
            m
        },
    }
}

} // verus!
