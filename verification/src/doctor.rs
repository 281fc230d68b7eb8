//! `bindizr doctor`: installation checks reported as OK, FAIL, or SKIP. The
//! probes themselves (sockets, files, the database) run in the caller; this
//! module decides what each outcome reports and tallies the failures that
//! decide the exit status.

use vstd::prelude::*;
use crate::bind_conf::{
    catalog_port_from, catalog_zone_port, default_primaries_port, port_after_spec, primaries_port,
    scan_port,
};
use crate::color::{green, green_text, red, red_text, yellow, yellow_text};
use crate::output::OutputFormat;
use crate::text::{
    chars_of, contains, contains_chars, find, find_at, int_text, is_whitespace, is_ws,
    lemma_ws_prefix_len_char, matches_at, nat_text, next_token, next_token_at, occurs_at,
    parse_u16, parse_u16_at, push_int_text, push_nat_text, trim, trim_start, lemma_ws_suffix_len_char, ws_suffix_len,
};

verus! {

/// The outcome of one check.
#[derive(Clone, Copy, Debug, PartialEq, Eq, Structural)]
pub enum CheckStatus {
    Pass,
    Fail,
    Skip,
}

/// One check and what it found.
#[derive(Debug)]
pub struct DoctorCheck {
    pub status: CheckStatus,
    pub message: String,
}

pub open spec fn check_view(c: DoctorCheck) -> (CheckStatus, Seq<char>) {
    (c.status, c.message@)
}

/// The number of failed checks.
pub open spec fn fail_count(checks: Seq<(CheckStatus, Seq<char>)>) -> nat
    decreases checks.len(),
{
    if checks.len() == 0 {
        0
    } else {
        fail_count(checks.drop_last()) + if checks.last().0 == CheckStatus::Fail {
            1nat
        } else {
            0nat
        }
    }
}

/// How a check is printed in table form: its colored label in brackets, then
/// its message.
pub open spec fn check_line(color: bool, status: CheckStatus, message: Seq<char>) -> Seq<char> {
    "["@ + (match status {
        CheckStatus::Pass => green_text(color, "OK"@),
        CheckStatus::Fail => red_text(color, "FAIL"@),
        CheckStatus::Skip => yellow_text(color, "SKIP"@),
    }) + "] "@ + message
}

/// The message for a run with failing checks.
pub open spec fn failing_message(failures: nat) -> Seq<char> {
    "installation has "@ + nat_text(failures) + " failing check(s)"@
}

/// Collects check outcomes for the exit status, handing each back for
/// printing as it lands unless the caller asked for one document.
pub struct Report {
    format: OutputFormat,
    color: bool,
    checks: Vec<DoctorCheck>,
    failures: usize,
}

impl View for Report {
    type V = Seq<(CheckStatus, Seq<char>)>;

    closed spec fn view(&self) -> Seq<(CheckStatus, Seq<char>)> {
        self.checks@.map_values(|c: DoctorCheck| check_view(c))
    }
}

impl Report {
    /// The failure tally always equals the number of failed checks.
    #[verifier::type_invariant]
    spec fn tally_matches(self) -> bool {
        &&& self.failures == fail_count(self.checks@.map_values(|c: DoctorCheck| check_view(c)))
        &&& self.failures <= self.checks@.len()
    }

    pub closed spec fn spec_format(self) -> OutputFormat {
        self.format
    }

    pub closed spec fn spec_color(self) -> bool {
        self.color
    }

    /// An empty report.
    pub fn new(format: OutputFormat, color: bool) -> (r: Report)
        ensures
            r@ == Seq::<(CheckStatus, Seq<char>)>::empty(),
            r.spec_format() == format,
            r.spec_color() == color,
    {
        let r = Report { format, color, checks: Vec::new(), failures: 0 };
        assert(r.checks@.map_values(|c: DoctorCheck| check_view(c)) =~= Seq::<
            (CheckStatus, Seq<char>),
        >::empty());
        r
    }

    /// The number of failed checks recorded.
    pub fn failures(&self) -> (n: usize)
        ensures
            n == fail_count(self@),
    {
        proof {
            use_type_invariant(self);
        }
        self.failures
    }

    /// The format the report was made for.
    pub fn format(&self) -> (f: OutputFormat)
        ensures
            f == self.spec_format(),
    {
        self.format
    }

    /// The checks recorded so far, in order.
    pub fn checks(&self) -> (c: &Vec<DoctorCheck>)
        ensures
            c@.map_values(|c: DoctorCheck| check_view(c)) == self@,
    {
        &self.checks
    }

    /// Store one check, counting a failure. In table form the line to print
    /// now is handed back.
    pub fn push(&mut self, check: DoctorCheck) -> (line: Option<String>)
        requires
            old(self)@.len() < usize::MAX,
        ensures
            final(self)@ == old(self)@.push(check_view(check)),
            final(self).spec_format() == old(self).spec_format(),
            final(self).spec_color() == old(self).spec_color(),
            old(self).spec_format() == OutputFormat::Table ==> (line matches Some(l) && l@
                == check_line(old(self).spec_color(), check.status, check.message@)),
            old(self).spec_format() != OutputFormat::Table ==> line is None,
    {
        proof {
            use_type_invariant(&*self);
        }
        let ghost before = self.checks@;
        let is_fail = check.status == CheckStatus::Fail;
        let line = if self.format == OutputFormat::Table {
            let mut l = String::from_str("[");
            let label = match check.status {
                CheckStatus::Pass => green(self.color, "OK"),
                CheckStatus::Fail => red(self.color, "FAIL"),
                CheckStatus::Skip => yellow(self.color, "SKIP"),
            };
            l.append(label.as_str());
            l.append("] ");
            l.append(check.message.as_str());
            Some(l)
        } else {
            None
        };
        let new_failures = if is_fail {
            self.failures + 1
        } else {
            self.failures
        };
        let ghost cv = check_view(check);
        let format = self.format;
        let color = self.color;
        let mut previous = Report::new(format, color);
        std::mem::swap(self, &mut previous);
        proof {
            use_type_invariant(&previous);
        }
        let Report { checks: mut checks, .. } = previous;
        checks.push(check);
        proof {
            let mapped = checks@.map_values(|c: DoctorCheck| check_view(c));
            let old_mapped = before.map_values(|c: DoctorCheck| check_view(c));
            assert(mapped =~= old_mapped.push(cv));
            assert(mapped.drop_last() == old_mapped);
        }
        *self = Report { format, color, checks, failures: new_failures };
        line
    }

    /// Record a successful check.
    pub fn ok(&mut self, message: String) -> (line: Option<String>)
        requires
            old(self)@.len() < usize::MAX,
        ensures
            final(self)@ == old(self)@.push((CheckStatus::Pass, message@)),
            final(self).spec_format() == old(self).spec_format(),
            final(self).spec_color() == old(self).spec_color(),
            old(self).spec_format() == OutputFormat::Table ==> (line matches Some(l) && l@
                == check_line(old(self).spec_color(), CheckStatus::Pass, message@)),
            old(self).spec_format() != OutputFormat::Table ==> line is None,
    {
        self.push(DoctorCheck { status: CheckStatus::Pass, message })
    }

    /// Record a failed check.
    pub fn fail(&mut self, message: String) -> (line: Option<String>)
        requires
            old(self)@.len() < usize::MAX,
        ensures
            final(self)@ == old(self)@.push((CheckStatus::Fail, message@)),
            final(self).spec_format() == old(self).spec_format(),
            final(self).spec_color() == old(self).spec_color(),
            old(self).spec_format() == OutputFormat::Table ==> (line matches Some(l) && l@
                == check_line(old(self).spec_color(), CheckStatus::Fail, message@)),
            old(self).spec_format() != OutputFormat::Table ==> line is None,
    {
        self.push(DoctorCheck { status: CheckStatus::Fail, message })
    }

    /// Record a skipped check.
    pub fn skip(&mut self, message: String) -> (line: Option<String>)
        requires
            old(self)@.len() < usize::MAX,
        ensures
            final(self)@ == old(self)@.push((CheckStatus::Skip, message@)),
            final(self).spec_format() == old(self).spec_format(),
            final(self).spec_color() == old(self).spec_color(),
            old(self).spec_format() == OutputFormat::Table ==> (line matches Some(l) && l@
                == check_line(old(self).spec_color(), CheckStatus::Skip, message@)),
            old(self).spec_format() != OutputFormat::Table ==> line is None,
    {
        self.push(DoctorCheck { status: CheckStatus::Skip, message })
    }

    /// How the run ends: success with no failing check, otherwise an error
    /// that counts them.
    pub fn outcome(&self) -> (r: Result<(), String>)
        ensures
            fail_count(self@) == 0 ==> r is Ok,
            fail_count(self@) > 0 ==> (r matches Err(m) && m@ == failing_message(fail_count(self@))),
    {
        let n = self.failures();
        if n == 0 {
            Ok(())
        } else {
            let mut m = String::from_str("installation has ");
            push_nat_text(&mut m, n as u64);
            m.append(" failing check(s)");
            Err(m)
        }
    }
}

/// Recording a check never changes the verdict on the checks before it: the
/// failure tally grows by one exactly when the new check failed.
pub proof fn lemma_fail_count_push(checks: Seq<(CheckStatus, Seq<char>)>, c: (CheckStatus, Seq<char>))
    ensures
        fail_count(checks.push(c)) == fail_count(checks) + if c.0 == CheckStatus::Fail {
            1nat
        } else {
            0nat
        },
{
    assert(checks.push(c).drop_last() == checks);
}

/// A run is healthy exactly when none of its checks failed.
pub proof fn lemma_healthy_iff_no_failed_check(checks: Seq<(CheckStatus, Seq<char>)>)
    ensures
        fail_count(checks) == 0 <==> forall|i: int| 0 <= i < checks.len() ==> #[trigger] checks[i].0
            != CheckStatus::Fail,
    decreases checks.len(),
{
    if checks.len() > 0 {
        let d = checks.drop_last();
        lemma_healthy_iff_no_failed_check(d);
        if fail_count(checks) == 0 {
            assert forall|i: int| 0 <= i < checks.len() implies #[trigger] checks[i].0
                != CheckStatus::Fail by {
                if i < checks.len() - 1 {
                    assert(checks[i] == d[i]);
                }
            }
        } else {
            if forall|i: int| 0 <= i < checks.len() ==> #[trigger] checks[i].0 != CheckStatus::Fail {
                assert forall|i: int| 0 <= i < d.len() implies #[trigger] d[i].0
                    != CheckStatus::Fail by {
                    assert(d[i] == checks[i]);
                }
                assert(checks[checks.len() - 1].0 != CheckStatus::Fail);
            }
        }
    }
}

// ---------------------------------------------------------------------------
// The run
// ---------------------------------------------------------------------------

/// Which checks a run goes on to after the configuration file: a running
/// daemon answers for itself; without one, the checks a failed start would
/// have hit run here, given a configuration to run them from.
#[derive(Clone, Copy, Debug, PartialEq, Eq, Structural)]
pub enum DoctorPath {
    Daemon,
    Offline,
    NoConfig,
}

pub fn doctor_path(daemon_running: bool, config_valid: bool) -> (r: DoctorPath)
    ensures
        r == (if daemon_running {
            DoctorPath::Daemon
        } else if config_valid {
            DoctorPath::Offline
        } else {
            DoctorPath::NoConfig
        }),
{
    if daemon_running {
        DoctorPath::Daemon
    } else if config_valid {
        DoctorPath::Offline
    } else {
        DoctorPath::NoConfig
    }
}

/// The configuration file check: valid at its path, or invalid with the
/// loader's error.
pub fn config_check(path: &str, error: Option<&str>) -> (r: DoctorCheck)
    ensures
        check_view(r) == match error {
            None => (CheckStatus::Pass, "Config valid: "@ + path@),
            Some(e) => (CheckStatus::Fail, "Config invalid: "@ + e@),
        },
{
    match error {
        None => {
            let mut m = String::from_str("Config valid: ");
            m.append(path);
            DoctorCheck { status: CheckStatus::Pass, message: m }
        },
        Some(e) => {
            let mut m = String::from_str("Config invalid: ");
            m.append(e);
            DoctorCheck { status: CheckStatus::Fail, message: m }
        },
    }
}

/// The check that stands for the ones a path leaves out: the API check
/// without a daemon, and every check without a configuration.
pub fn skipped_checks(path: DoctorPath) -> (r: Option<DoctorCheck>)
    ensures
        path == DoctorPath::Daemon ==> r is None,
        path == DoctorPath::Offline ==> (r matches Some(c) && check_view(c) == (
            CheckStatus::Skip,
            "API check skipped: daemon is not running"@,
        )),
        path == DoctorPath::NoConfig ==> (r matches Some(c) && check_view(c) == (
            CheckStatus::Skip,
            "API, database, and port checks skipped: no valid configuration"@,
        )),
{
    match path {
        DoctorPath::Daemon => None,
        DoctorPath::Offline => Some(
            DoctorCheck {
                status: CheckStatus::Skip,
                message: String::from_str("API check skipped: daemon is not running"),
            },
        ),
        DoctorPath::NoConfig => Some(
            DoctorCheck {
                status: CheckStatus::Skip,
                message: String::from_str(
                    "API, database, and port checks skipped: no valid configuration",
                ),
            },
        ),
    }
}

/// A running daemon whose configuration could not be read back.
pub fn daemon_config_unreadable(message: &str) -> (r: DoctorCheck)
    ensures
        check_view(r) == (CheckStatus::Fail, "Daemon config not readable: "@ + message@),
{
    let mut m = String::from_str("Daemon config not readable: ");
    m.append(message);
    DoctorCheck { status: CheckStatus::Fail, message: m }
}

/// The lines printed before the checks in table form.
pub fn doctor_header(format: OutputFormat) -> (r: Vec<String>)
    ensures
        format == OutputFormat::Table ==> r@.map_values(|s: String| s@) == seq![
            "Bindizr Doctor"@,
            Seq::<char>::empty(),
        ],
        format != OutputFormat::Table ==> r@.len() == 0,
{
    let mut r: Vec<String> = Vec::new();
    if format == OutputFormat::Table {
        r.push(String::from_str("Bindizr Doctor"));
        r.push(String::new());
        assert(r@.map_values(|s: String| s@) =~= seq!["Bindizr Doctor"@, Seq::<char>::empty()]);
    }
    r
}

/// The lines printed after the checks in table form: a blank line, then the
/// verdict when nothing failed (a failure is reported as the error).
pub fn doctor_footer(format: OutputFormat, color: bool, failures: usize) -> (r: Vec<String>)
    ensures
        format == OutputFormat::Table && failures == 0 ==> r@.map_values(|s: String| s@) == seq![
            Seq::<char>::empty(),
            "Result: installation looks "@ + green_text(color, "healthy"@),
        ],
        format == OutputFormat::Table && failures > 0 ==> r@.map_values(|s: String| s@) == seq![
            Seq::<char>::empty(),
        ],
        format != OutputFormat::Table ==> r@.len() == 0,
{
    let mut r: Vec<String> = Vec::new();
    if format == OutputFormat::Table {
        r.push(String::new());
        if failures == 0 {
            let mut line = String::from_str("Result: installation looks ");
            line.append(green(color, "healthy").as_str());
            r.push(line);
            assert(r@.map_values(|s: String| s@) =~= seq![
                Seq::<char>::empty(),
                "Result: installation looks "@ + green_text(color, "healthy"@),
            ]);
        } else {
            assert(r@.map_values(|s: String| s@) =~= seq![Seq::<char>::empty()]);
        }
    }
    r
}

// ---------------------------------------------------------------------------
// BIND catalog check
// ---------------------------------------------------------------------------

/// One catalog port that differs from the port bindizr listens on.
pub open spec fn stale_part(what: Seq<char>, port: Option<u16>, listen: Option<u16>) -> Option<Seq<char>> {
    match (port, listen) {
        (Some(p), Some(expected)) => if p != expected {
            Some(what + " from port "@ + nat_text(p as nat))
        } else {
            None
        },
        _ => None,
    }
}

/// The smaller of the ports that are named.
pub open spec fn min_port(a: Option<u16>, b: Option<u16>) -> Option<u16> {
    match (a, b) {
        (Some(x), Some(y)) => Some(if x <= y { x } else { y }),
        (Some(x), None) => Some(x),
        (None, Some(y)) => Some(y),
        (None, None) => None,
    }
}

/// What the BIND catalog check reports, given the main configuration file
/// (its path and text), the options text, and the port bindizr's DNS server
/// listens on (when the configuration is known). Both catalog ports are
/// checked: the zone block fetches the catalog itself, `default-primaries`
/// only reaches the member zones.
pub open spec fn catalog_report(
    main_conf: Seq<char>,
    main: Seq<char>,
    options: Seq<char>,
    listen: Option<u16>,
) -> (CheckStatus, Seq<char>) {
    if !contains(main, "zone \"catalog.bind\""@) || !contains(options, "catalog-zones"@) {
        (
            CheckStatus::Fail,
            "BIND catalog zone not configured in "@ + main_conf
                + ": run /usr/share/bindizr/setup_bind.sh"@,
        )
    } else {
        let zone_port = catalog_port_from(main, 0);
        let member_port = port_after_spec(options, "default-primaries"@);
        let a = stale_part("the catalog zone"@, zone_port, listen);
        let b = stale_part("its member zones"@, member_port, listen);
        if (a is Some || b is Some) && listen is Some {
            let stale = match (a, b) {
                (Some(x), Some(y)) => x + " and "@ + y,
                (Some(x), None) => x,
                (None, Some(y)) => y,
                (None, None) => Seq::empty(),
            };
            (
                CheckStatus::Fail,
                "BIND fetches "@ + stale + " but bindizr listens on "@ + nat_text(
                    listen.unwrap() as nat,
                ) + ": rerun setup_bind.sh"@,
            )
        } else {
            match min_port(zone_port, member_port) {
                Some(p) => (
                    CheckStatus::Pass,
                    "BIND catalog zone configured: "@ + main_conf + " (primaries port "@ + nat_text(
                        p as nat,
                    ) + ")"@,
                ),
                None => (CheckStatus::Pass, "BIND catalog zone configured: "@ + main_conf),
            }
        }
    }
}

fn stale_text(what: &str, port: Option<u16>, listen: Option<u16>) -> (r: Option<String>)
    ensures
        match stale_part(what@, port, listen) {
            None => r is None,
            Some(t) => r matches Some(s) && s@ == t,
        },
{
    match (port, listen) {
        (Some(p), Some(expected)) => {
            if p != expected {
                let mut s = String::from_str(what);
                s.append(" from port ");
                push_nat_text(&mut s, p as u64);
                Some(s)
            } else {
                None
            }
        },
        _ => None,
    }
}

/// Check this host's BIND configuration for the catalog zone and its ports.
pub fn check_catalog(main_conf: &str, main: &str, options: &str, listen_port: Option<u16>) -> (r:
    DoctorCheck)
    ensures
        check_view(r) == catalog_report(main_conf@, main@, options@, listen_port),
{
    let main_chars = chars_of(main);
    let options_chars = chars_of(options);
    let marker = chars_of("zone \"catalog.bind\"");
    let stanza = chars_of("catalog-zones");
    if !contains_chars(&main_chars, &marker) || !contains_chars(&options_chars, &stanza) {
        let mut m = String::from_str("BIND catalog zone not configured in ");
        m.append(main_conf);
        m.append(": run /usr/share/bindizr/setup_bind.sh");
        return DoctorCheck { status: CheckStatus::Fail, message: m };
    }
    let zone_port = catalog_zone_port(main);
    let member_port = default_primaries_port(options);
    let a = stale_text("the catalog zone", zone_port, listen_port);
    let b = stale_text("its member zones", member_port, listen_port);
    if a.is_some() || b.is_some() {
        if let Some(expected) = listen_port {
            let mut m = String::from_str("BIND fetches ");
            match (&a, &b) {
                (Some(x), Some(y)) => {
                    m.append(x.as_str());
                    m.append(" and ");
                    m.append(y.as_str());
                },
                (Some(x), None) => {
                    m.append(x.as_str());
                },
                (None, Some(y)) => {
                    m.append(y.as_str());
                },
                (None, None) => {},
            }
            m.append(" but bindizr listens on ");
            push_nat_text(&mut m, expected as u64);
            m.append(": rerun setup_bind.sh");
            return DoctorCheck { status: CheckStatus::Fail, message: m };
        }
    }
    let lowest = match (zone_port, member_port) {
        (Some(x), Some(y)) => Some(
            if x <= y {
                x
            } else {
                y
            },
        ),
        (Some(x), None) => Some(x),
        (None, Some(y)) => Some(y),
        (None, None) => None,
    };
    let mut m = String::from_str("BIND catalog zone configured: ");
    m.append(main_conf);
    if let Some(p) = lowest {
        m.append(" (primaries port ");
        push_nat_text(&mut m, p as u64);
        m.append(")");
    }
    DoctorCheck { status: CheckStatus::Pass, message: m }
}

/// Where BIND keeps its configuration, by the layout `setup_bind.sh`
/// detects: Debian's `/etc/bind` (main file and options file), else Red
/// Hat's `/etc/named` (one file for both), else nowhere.
pub fn bind_layout(etc_bind_is_dir: bool, etc_named_is_dir: bool) -> (r: Option<(&'static str, &'static str)>)
    ensures
        etc_bind_is_dir ==> (r matches Some((m, o)) && m@ == "/etc/bind/named.conf"@ && o@
            == "/etc/bind/named.conf.options"@),
        !etc_bind_is_dir && etc_named_is_dir ==> (r matches Some((m, o)) && m@
            == "/etc/named.conf"@ && o@ == "/etc/named.conf"@),
        !etc_bind_is_dir && !etc_named_is_dir ==> r is None,
{
    if etc_bind_is_dir {
        Some(("/etc/bind/named.conf", "/etc/bind/named.conf.options"))
    } else if etc_named_is_dir {
        Some(("/etc/named.conf", "/etc/named.conf"))
    } else {
        None
    }
}

/// The skipped check when the BIND configuration cannot be looked at: no
/// layout on this host, or a file of it that could not be read.
pub fn bind_check_skipped(main_conf: Option<&str>, read_error: &str) -> (r: DoctorCheck)
    ensures
        check_view(r) == (CheckStatus::Skip, match main_conf {
            None => "BIND check skipped: no BIND configuration on this host"@,
            Some(m) => "BIND check skipped: cannot read "@ + m@ + " ("@ + read_error@ + ")"@,
        }),
{
    match main_conf {
        None => DoctorCheck {
            status: CheckStatus::Skip,
            message: String::from_str("BIND check skipped: no BIND configuration on this host"),
        },
        Some(m) => {
            let mut message = String::from_str("BIND check skipped: cannot read ");
            message.append(m);
            message.append(" (");
            message.append(read_error);
            message.append(")");
            DoctorCheck { status: CheckStatus::Skip, message }
        },
    }
}

/// The single-port form of the catalog check: only the `default-primaries`
/// line of the options is read for the port (from the directive itself on),
/// and a port other than the one bindizr listens on fails.
pub open spec fn single_port_catalog_report(
    main_conf: Seq<char>,
    main: Seq<char>,
    options: Seq<char>,
    listen: Option<u16>,
) -> (CheckStatus, Seq<char>) {
    if !contains(main, "zone \"catalog.bind\""@) || !contains(options, "catalog-zones"@) {
        (
            CheckStatus::Fail,
            "BIND catalog zone not configured in "@ + main_conf
                + ": run /usr/share/bindizr/setup_bind.sh"@,
        )
    } else {
        let port = match find(options, "default-primaries"@) {
            None => None,
            Some(at) => scan_port(options.skip(at)),
        };
        match (port, listen) {
            (Some(p), Some(expected)) => if p != expected {
                (
                    CheckStatus::Fail,
                    "BIND fetches the catalog from port "@ + nat_text(p as nat)
                        + " but bindizr listens on "@ + nat_text(expected as nat)
                        + ": rerun setup_bind.sh"@,
                )
            } else {
                (
                    CheckStatus::Pass,
                    "BIND catalog zone configured: "@ + main_conf + " (primaries port "@
                        + nat_text(p as nat) + ")"@,
                )
            },
            (Some(p), None) => (
                CheckStatus::Pass,
                "BIND catalog zone configured: "@ + main_conf + " (primaries port "@ + nat_text(
                    p as nat,
                ) + ")"@,
            ),
            (None, _) => (CheckStatus::Pass, "BIND catalog zone configured: "@ + main_conf),
        }
    }
}

/// Check this host's BIND configuration for the catalog zone and the port
/// its `default-primaries` line names.
pub fn check_bind_catalog(main_conf: &str, main: &str, options: &str, listen_port: Option<u16>) -> (r:
    DoctorCheck)
    ensures
        check_view(r) == single_port_catalog_report(main_conf@, main@, options@, listen_port),
{
    let main_chars = chars_of(main);
    let options_chars = chars_of(options);
    let marker = chars_of("zone \"catalog.bind\"");
    let stanza = chars_of("catalog-zones");
    if !contains_chars(&main_chars, &marker) || !contains_chars(&options_chars, &stanza) {
        let mut m = String::from_str("BIND catalog zone not configured in ");
        m.append(main_conf);
        m.append(": run /usr/share/bindizr/setup_bind.sh");
        return DoctorCheck { status: CheckStatus::Fail, message: m };
    }
    match (primaries_port(options), listen_port) {
        (Some(port), Some(expected)) if port != expected => {
            let mut m = String::from_str("BIND fetches the catalog from port ");
            push_nat_text(&mut m, port as u64);
            m.append(" but bindizr listens on ");
            push_nat_text(&mut m, expected as u64);
            m.append(": rerun setup_bind.sh");
            DoctorCheck { status: CheckStatus::Fail, message: m }
        },
        (Some(port), _) => {
            let mut m = String::from_str("BIND catalog zone configured: ");
            m.append(main_conf);
            m.append(" (primaries port ");
            push_nat_text(&mut m, port as u64);
            m.append(")");
            DoctorCheck { status: CheckStatus::Pass, message: m }
        },
        (None, _) => {
            let mut m = String::from_str("BIND catalog zone configured: ");
            m.append(main_conf);
            DoctorCheck { status: CheckStatus::Pass, message: m }
        },
    }
}

// ---------------------------------------------------------------------------
// Listen ports
// ---------------------------------------------------------------------------

/// How binding a listen address went.
pub enum BindOutcome {
    Free,
    InUse,
    PermissionDenied,
    /// Any other error, as its message.
    Other(String),
}

/// What a listen-address check reports: a free port is OK, a taken one fails
/// with `in_use_hint`, a privileged one is skipped, and anything else fails
/// with the error.
pub open spec fn port_report(label: Seq<char>, addr: Seq<char>, bound: BindOutcome, hint: Seq<char>) -> (
    CheckStatus,
    Seq<char>,
) {
    match bound {
        BindOutcome::Free => (CheckStatus::Pass, label + " port free: "@ + addr),
        BindOutcome::InUse => (
            CheckStatus::Fail,
            label + " port in use: "@ + addr + " ("@ + hint + ")"@,
        ),
        BindOutcome::PermissionDenied => (
            CheckStatus::Skip,
            label + " port check skipped: binding "@ + addr + " needs root"@,
        ),
        BindOutcome::Other(e) => (
            CheckStatus::Fail,
            label + " port not bindable: "@ + addr + " ("@ + e@ + ")"@,
        ),
    }
}

/// Report one listen address by its bind result; a taken port carries
/// `in_use_hint`.
pub fn report_port(label: &str, addr: &str, bound: BindOutcome, in_use_hint: &str) -> (r:
    DoctorCheck)
    ensures
        check_view(r) == port_report(label@, addr@, bound, in_use_hint@),
{
    let mut m = String::from_str(label);
    match bound {
        BindOutcome::Free => {
            m.append(" port free: ");
            m.append(addr);
            DoctorCheck { status: CheckStatus::Pass, message: m }
        },
        BindOutcome::InUse => {
            m.append(" port in use: ");
            m.append(addr);
            m.append(" (");
            m.append(in_use_hint);
            m.append(")");
            DoctorCheck { status: CheckStatus::Fail, message: m }
        },
        BindOutcome::PermissionDenied => {
            m.append(" port check skipped: binding ");
            m.append(addr);
            m.append(" needs root");
            DoctorCheck { status: CheckStatus::Skip, message: m }
        },
        BindOutcome::Other(e) => {
            m.append(" port not bindable: ");
            m.append(addr);
            m.append(" (");
            m.append(e.as_str());
            m.append(")");
            DoctorCheck { status: CheckStatus::Fail, message: m }
        },
    }
}


// ---------------------------------------------------------------------------
// Checks answered through the daemon
// ---------------------------------------------------------------------------

/// Whether one of the daemon's services answered, and how it describes itself.
pub struct ServiceProbe {
    pub ok: bool,
    pub detail: String,
}

/// What the daemon found probing one secondary for the catalog zone.
pub struct SecondaryProbe {
    pub address: String,
    /// `in_sync`, `reachable`, `unreachable`, or a lagging state.
    pub status: String,
    pub visible_serial: Option<i64>,
    pub error: Option<String>,
}

/// The answer of one NOTIFY target.
pub struct NotifyProbe {
    pub address: String,
    pub error: Option<String>,
}

/// The daemon's own diagnosis: its database, its DNS listener, and the
/// secondaries serving the catalog zone.
pub struct DaemonDoctor {
    pub database: ServiceProbe,
    pub dns_server: ServiceProbe,
    pub secondaries: Vec<SecondaryProbe>,
    pub notifies: Vec<NotifyProbe>,
    pub catalog_zone: String,
    pub catalog_serial: Option<i64>,
}

/// What one secondary reports. The serials are the catalog zone's, unlike
/// `zone status`, so the message says so.
pub open spec fn secondary_report(s: SecondaryProbe, catalog_zone: Seq<char>, catalog_serial: Option<i64>) -> (
    CheckStatus,
    Seq<char>,
) {
    let serial = int_text(s.visible_serial.unwrap_or(0) as int);
    if s.status@ == "in_sync"@ {
        (
            CheckStatus::Pass,
            "Secondary in sync: "@ + s.address@ + " (catalog zone "@ + catalog_zone + " at serial "@
                + serial + ")"@,
        )
    } else if s.status@ == "reachable"@ {
        (
            CheckStatus::Pass,
            "Secondary reachable: "@ + s.address@ + " (catalog zone "@ + catalog_zone
                + " at serial "@ + serial + ")"@,
        )
    } else if s.status@ == "unreachable"@ {
        (
            CheckStatus::Fail,
            "Secondary unreachable: "@ + s.address@ + " ("@ + (match s.error {
                Some(e) => e@,
                None => "unknown error"@,
            }) + ")"@,
        )
    } else {
        (
            CheckStatus::Fail,
            "Secondary out of sync: "@ + s.address@ + " (catalog zone "@ + catalog_zone
                + " at serial "@ + serial + "; bindizr serves "@ + int_text(
                catalog_serial.unwrap_or(0) as int,
            ) + ")"@,
        )
    }
}

/// What one NOTIFY target reports.
pub open spec fn notify_report(n: NotifyProbe) -> (CheckStatus, Seq<char>) {
    match n.error {
        None => (CheckStatus::Pass, "NOTIFY accepted: "@ + n.address@),
        Some(e) => (CheckStatus::Fail, "NOTIFY rejected: "@ + n.address@ + " ("@ + e@ + ")"@),
    }
}

/// What a service probe reports.
pub open spec fn service_report(p: ServiceProbe, ok_text: Seq<char>, fail_text: Seq<char>) -> (
    CheckStatus,
    Seq<char>,
) {
    if p.ok {
        (CheckStatus::Pass, ok_text + p.detail@)
    } else {
        (CheckStatus::Fail, fail_text + p.detail@)
    }
}

/// The checks the daemon's diagnosis yields, in order: the database, the DNS
/// listener, then each secondary and each NOTIFY target; with no enabled
/// secondary, one skipped check stands in for both lists.
pub open spec fn daemon_reports(d: DaemonDoctor) -> Seq<(CheckStatus, Seq<char>)> {
    let head = seq![
        service_report(d.database, "Database connected: "@, "Database not reachable: "@),
        service_report(d.dns_server, "DNS server reachable: "@, "DNS server not reachable: "@),
    ];
    if d.secondaries@.len() == 0 {
        head.push((CheckStatus::Skip, "No enabled secondaries"@))
    } else {
        head + d.secondaries@.map_values(
            |s: SecondaryProbe| secondary_report(s, d.catalog_zone@, d.catalog_serial),
        ) + d.notifies@.map_values(|n: NotifyProbe| notify_report(n))
    }
}

fn service_check(p: &ServiceProbe, ok_text: &str, fail_text: &str) -> (r: DoctorCheck)
    ensures
        check_view(r) == service_report(*p, ok_text@, fail_text@),
{
    if p.ok {
        let mut m = String::from_str(ok_text);
        m.append(p.detail.as_str());
        DoctorCheck { status: CheckStatus::Pass, message: m }
    } else {
        let mut m = String::from_str(fail_text);
        m.append(p.detail.as_str());
        DoctorCheck { status: CheckStatus::Fail, message: m }
    }
}

fn secondary_check(s: &SecondaryProbe, catalog_zone: &str, catalog_serial: Option<i64>) -> (r:
    DoctorCheck)
    ensures
        check_view(r) == secondary_report(*s, catalog_zone@, catalog_serial),
{
    let serial = s.visible_serial.unwrap_or(0);
    if crate::text::str_equal(s.status.as_str(), "in_sync") {
        let mut m = String::from_str("Secondary in sync: ");
        m.append(s.address.as_str());
        m.append(" (catalog zone ");
        m.append(catalog_zone);
        m.append(" at serial ");
        push_int_text(&mut m, serial);
        m.append(")");
        DoctorCheck { status: CheckStatus::Pass, message: m }
    } else if crate::text::str_equal(s.status.as_str(), "reachable") {
        let mut m = String::from_str("Secondary reachable: ");
        m.append(s.address.as_str());
        m.append(" (catalog zone ");
        m.append(catalog_zone);
        m.append(" at serial ");
        push_int_text(&mut m, serial);
        m.append(")");
        DoctorCheck { status: CheckStatus::Pass, message: m }
    } else if crate::text::str_equal(s.status.as_str(), "unreachable") {
        let mut m = String::from_str("Secondary unreachable: ");
        m.append(s.address.as_str());
        m.append(" (");
        match &s.error {
            Some(e) => m.append(e.as_str()),
            None => m.append("unknown error"),
        }
        m.append(")");
        DoctorCheck { status: CheckStatus::Fail, message: m }
    } else {
        let mut m = String::from_str("Secondary out of sync: ");
        m.append(s.address.as_str());
        m.append(" (catalog zone ");
        m.append(catalog_zone);
        m.append(" at serial ");
        push_int_text(&mut m, serial);
        m.append("; bindizr serves ");
        push_int_text(&mut m, catalog_serial.unwrap_or(0));
        m.append(")");
        DoctorCheck { status: CheckStatus::Fail, message: m }
    }
}

fn notify_check(n: &NotifyProbe) -> (r: DoctorCheck)
    ensures
        check_view(r) == notify_report(*n),
{
    match &n.error {
        None => {
            let mut m = String::from_str("NOTIFY accepted: ");
            m.append(n.address.as_str());
            DoctorCheck { status: CheckStatus::Pass, message: m }
        },
        Some(e) => {
            let mut m = String::from_str("NOTIFY rejected: ");
            m.append(n.address.as_str());
            m.append(" (");
            m.append(e.as_str());
            m.append(")");
            DoctorCheck { status: CheckStatus::Fail, message: m }
        },
    }
}

/// Why the daemon's own diagnosis did not arrive.
pub enum DaemonAnswerError {
    /// The request failed, with the error's message.
    Request(String),
    /// The answer did not parse, with the parser's message.
    Malformed(String),
}

/// The one failed check that stands for the daemon's diagnosis when it did
/// not arrive.
pub fn daemon_answer_failed(e: DaemonAnswerError) -> (r: DoctorCheck)
    ensures
        check_view(r) == match e {
            DaemonAnswerError::Request(m) => (
                CheckStatus::Fail,
                "Daemon-side checks failed: "@ + m@,
            ),
            DaemonAnswerError::Malformed(m) => (
                CheckStatus::Fail,
                "Doctor response was malformed: "@ + m@,
            ),
        },
{
    match e {
        DaemonAnswerError::Request(m) => {
            let mut message = String::from_str("Daemon-side checks failed: ");
            message.append(m.as_str());
            DoctorCheck { status: CheckStatus::Fail, message }
        },
        DaemonAnswerError::Malformed(m) => {
            let mut message = String::from_str("Doctor response was malformed: ");
            message.append(m.as_str());
            DoctorCheck { status: CheckStatus::Fail, message }
        },
    }
}

/// Check database, DNS listener, and secondary status as the daemon reports
/// them.
pub fn check_services(d: &DaemonDoctor) -> (r: Vec<DoctorCheck>)
    ensures
        r@.map_values(|c: DoctorCheck| check_view(c)) == daemon_reports(*d),
{
    let mut r: Vec<DoctorCheck> = Vec::new();
    r.push(service_check(&d.database, "Database connected: ", "Database not reachable: "));
    r.push(service_check(&d.dns_server, "DNS server reachable: ", "DNS server not reachable: "));
    let ghost head = r@.map_values(|c: DoctorCheck| check_view(c));
    if d.secondaries.len() == 0 {
        r.push(
            DoctorCheck {
                status: CheckStatus::Skip,
                message: String::from_str("No enabled secondaries"),
            },
        );
        assert(r@.map_values(|c: DoctorCheck| check_view(c)) =~= daemon_reports(*d));
        return r;
    }
    let ghost secs = d.secondaries@.map_values(
        |s: SecondaryProbe| secondary_report(s, d.catalog_zone@, d.catalog_serial),
    );
    let mut i: usize = 0;
    while i < d.secondaries.len()
        invariant
            i <= d.secondaries@.len(),
            r@.len() == 2 + i,
            head.len() == 2,
            r@.map_values(|c: DoctorCheck| check_view(c)) == head + secs.take(i as int),
            secs == d.secondaries@.map_values(
                |s: SecondaryProbe| secondary_report(s, d.catalog_zone@, d.catalog_serial),
            ),
        decreases d.secondaries.len() - i,
    {
        let c = secondary_check(&d.secondaries[i], d.catalog_zone.as_str(), d.catalog_serial);
        let ghost before = r@;
        r.push(c);
        proof {
            let mapped = r@.map_values(|c: DoctorCheck| check_view(c));
            assert forall|j: int| 0 <= j < mapped.len() implies mapped[j] == (head + secs.take(
                i + 1,
            ))[j] by {
                if j < before.len() {
                    assert(r@[j] == before[j]);
                    assert(before.map_values(|c: DoctorCheck| check_view(c))[j] == mapped[j]);
                } else {
                    assert(j == 2 + i);
                    assert((head + secs.take(i + 1))[j] == secs.take(i + 1)[j - 2]);
                    assert(secs.take(i + 1)[i as int] == secs[i as int]);
                }
            }
            assert(mapped =~= head + secs.take(i + 1));
        }
        i = i + 1;
    }
    let ghost nots = d.notifies@.map_values(|n: NotifyProbe| notify_report(n));
    let ghost mid = head + secs;
    assert(secs.take(secs.len() as int) == secs);
    let mut k: usize = 0;
    while k < d.notifies.len()
        invariant
            k <= d.notifies@.len(),
            r@.len() == mid.len() + k,
            r@.map_values(|c: DoctorCheck| check_view(c)) == mid + nots.take(k as int),
            nots == d.notifies@.map_values(|n: NotifyProbe| notify_report(n)),
        decreases d.notifies.len() - k,
    {
        let c = notify_check(&d.notifies[k]);
        let ghost before = r@;
        r.push(c);
        proof {
            let mapped = r@.map_values(|c: DoctorCheck| check_view(c));
            assert forall|j: int| 0 <= j < mapped.len() implies mapped[j] == (mid + nots.take(
                k + 1,
            ))[j] by {
                if j < before.len() {
                    assert(r@[j] == before[j]);
                    assert(before.map_values(|c: DoctorCheck| check_view(c))[j] == mapped[j]);
                } else {
                    assert((mid + nots.take(k + 1))[j] == nots.take(k + 1)[j - mid.len()]);
                    assert(nots.take(k + 1)[k as int] == nots[k as int]);
                }
            }
            assert(mapped =~= mid + nots.take(k + 1));
        }
        k = k + 1;
    }
    assert(nots.take(nots.len() as int) == nots);
    r
}

/// What the daemon found probing one secondary, by the catalog serial the
/// secondary serves.
pub struct SerialProbe {
    pub address: String,
    pub serial: Option<i64>,
    pub error: Option<String>,
}

/// The daemon's diagnosis with secondaries judged by their catalog serial.
pub struct SerialDoctor {
    pub database: ServiceProbe,
    pub dns_server: ServiceProbe,
    pub secondaries: Vec<SerialProbe>,
    pub notifies: Vec<NotifyProbe>,
    pub catalog_serial: Option<i64>,
}

/// One secondary by its serial: in sync at the catalog serial bindizr
/// serves, out of sync at another, reachable when bindizr's own serial is
/// unknown, and unreachable without a serial.
pub open spec fn serial_report(s: SerialProbe, expected: Option<i64>) -> (CheckStatus, Seq<char>) {
    match (s.serial, expected) {
        (Some(serial), Some(e)) => if serial == e {
            (
                CheckStatus::Pass,
                "Secondary in sync: "@ + s.address@ + " (catalog serial "@ + int_text(serial as int)
                    + ")"@,
            )
        } else {
            (
                CheckStatus::Fail,
                "Secondary out of sync: "@ + s.address@ + " (serving catalog serial "@ + int_text(
                    serial as int,
                ) + ", expected "@ + int_text(e as int) + ")"@,
            )
        },
        (Some(serial), None) => (
            CheckStatus::Pass,
            "Secondary reachable: "@ + s.address@ + " (catalog serial "@ + int_text(serial as int)
                + ")"@,
        ),
        (None, _) => (
            CheckStatus::Fail,
            "Secondary unreachable: "@ + s.address@ + " ("@ + (match s.error {
                Some(e) => e@,
                None => "unknown error"@,
            }) + ")"@,
        ),
    }
}

/// The checks of the serial-based diagnosis, in order: the database, the DNS
/// listener, then each secondary and each NOTIFY target; with no secondary,
/// one skipped check stands in for both lists.
pub open spec fn serial_reports(d: SerialDoctor) -> Seq<(CheckStatus, Seq<char>)> {
    let head = seq![
        service_report(d.database, "Database connected: "@, "Database not reachable: "@),
        service_report(d.dns_server, "DNS server reachable: "@, "DNS server not reachable: "@),
    ];
    if d.secondaries@.len() == 0 {
        head.push((CheckStatus::Skip, "No secondaries configured"@))
    } else {
        head + d.secondaries@.map_values(|s: SerialProbe| serial_report(s, d.catalog_serial))
            + d.notifies@.map_values(|n: NotifyProbe| notify_report(n))
    }
}

fn serial_check(s: &SerialProbe, expected: Option<i64>) -> (r: DoctorCheck)
    ensures
        check_view(r) == serial_report(*s, expected),
{
    match (s.serial, expected) {
        (Some(serial), Some(e)) => {
            if serial == e {
                let mut m = String::from_str("Secondary in sync: ");
                m.append(s.address.as_str());
                m.append(" (catalog serial ");
                push_int_text(&mut m, serial);
                m.append(")");
                DoctorCheck { status: CheckStatus::Pass, message: m }
            } else {
                let mut m = String::from_str("Secondary out of sync: ");
                m.append(s.address.as_str());
                m.append(" (serving catalog serial ");
                push_int_text(&mut m, serial);
                m.append(", expected ");
                push_int_text(&mut m, e);
                m.append(")");
                DoctorCheck { status: CheckStatus::Fail, message: m }
            }
        },
        (Some(serial), None) => {
            let mut m = String::from_str("Secondary reachable: ");
            m.append(s.address.as_str());
            m.append(" (catalog serial ");
            push_int_text(&mut m, serial);
            m.append(")");
            DoctorCheck { status: CheckStatus::Pass, message: m }
        },
        (None, _) => {
            let mut m = String::from_str("Secondary unreachable: ");
            m.append(s.address.as_str());
            m.append(" (");
            match &s.error {
                Some(e) => m.append(e.as_str()),
                None => m.append("unknown error"),
            }
            m.append(")");
            DoctorCheck { status: CheckStatus::Fail, message: m }
        },
    }
}

fn push_check(out: &mut Vec<DoctorCheck>, c: DoctorCheck)
    ensures
        final(out)@.map_values(|c: DoctorCheck| check_view(c)) == old(out)@.map_values(
            |c: DoctorCheck| check_view(c),
        ).push(check_view(c)),
{
    let ghost cv = check_view(c);
    out.push(c);
    assert(out@.map_values(|c: DoctorCheck| check_view(c)) =~= old(out)@.map_values(
        |c: DoctorCheck| check_view(c),
    ).push(cv));
}

/// Check database, DNS listener, and secondaries by their catalog serial, as
/// the daemon reports them.
pub fn check_daemon_side(d: &SerialDoctor) -> (r: Vec<DoctorCheck>)
    ensures
        r@.map_values(|c: DoctorCheck| check_view(c)) == serial_reports(*d),
{
    let mut r: Vec<DoctorCheck> = Vec::new();
    push_check(&mut r, service_check(&d.database, "Database connected: ", "Database not reachable: "));
    push_check(&mut r, service_check(&d.dns_server, "DNS server reachable: ", "DNS server not reachable: "));
    let ghost head = r@.map_values(|c: DoctorCheck| check_view(c));
    if d.secondaries.len() == 0 {
        push_check(
            &mut r,
            DoctorCheck {
                status: CheckStatus::Skip,
                message: String::from_str("No secondaries configured"),
            },
        );
        assert(r@.map_values(|c: DoctorCheck| check_view(c)) =~= serial_reports(*d));
        return r;
    }
    let ghost secs = d.secondaries@.map_values(|s: SerialProbe| serial_report(s, d.catalog_serial));
    let mut i: usize = 0;
    while i < d.secondaries.len()
        invariant
            i <= d.secondaries@.len(),
            secs == d.secondaries@.map_values(|s: SerialProbe| serial_report(s, d.catalog_serial)),
            r@.map_values(|c: DoctorCheck| check_view(c)) == head + secs.take(i as int),
        decreases d.secondaries.len() - i,
    {
        push_check(&mut r, serial_check(&d.secondaries[i], d.catalog_serial));
        assert(secs.take(i + 1) =~= secs.take(i as int).push(secs[i as int]));
        i = i + 1;
    }
    assert(secs.take(d.secondaries@.len() as int) =~= secs);
    let ghost mid = head + secs;
    let ghost nots = d.notifies@.map_values(|n: NotifyProbe| notify_report(n));
    let mut k: usize = 0;
    while k < d.notifies.len()
        invariant
            k <= d.notifies@.len(),
            nots == d.notifies@.map_values(|n: NotifyProbe| notify_report(n)),
            r@.map_values(|c: DoctorCheck| check_view(c)) == mid + nots.take(k as int),
        decreases d.notifies.len() - k,
    {
        push_check(&mut r, notify_check(&d.notifies[k]));
        assert(nots.take(k + 1) =~= nots.take(k as int).push(nots[k as int]));
        k = k + 1;
    }
    assert(nots.take(d.notifies@.len() as int) =~= nots);
    r
}

/// What the daemon check reports: the pid (or `unknown`) and version of a
/// daemon that answered, or why it did not.
pub open spec fn running_report(answer: Result<(Option<u32>, Seq<char>), Seq<char>>) -> (CheckStatus, Seq<char>) {
    match answer {
        Ok((pid, version)) => (
            CheckStatus::Pass,
            "Daemon running: pid "@ + (match pid {
                Some(p) => nat_text(p as nat),
                None => "unknown"@,
            }) + " (version "@ + version + ")"@,
        ),
        Err(e) => (CheckStatus::Fail, "Daemon not reachable: "@ + e),
    }
}

/// Report whether the daemon responded through its control socket, given its
/// status (pid and version) or the error that reached the client instead.
pub fn check_running(pid: Option<u32>, version: &str, error: Option<&str>) -> (r: DoctorCheck)
    ensures
        check_view(r) == running_report(
            match error {
                Some(e) => Err(e@),
                None => Ok((pid, version@)),
            },
        ),
{
    match error {
        Some(e) => {
            let mut m = String::from_str("Daemon not reachable: ");
            m.append(e);
            DoctorCheck { status: CheckStatus::Fail, message: m }
        },
        None => {
            let mut m = String::from_str("Daemon running: pid ");
            match pid {
                Some(p) => push_nat_text(&mut m, p as u64),
                None => m.append("unknown"),
            }
            m.append(" (version ");
            m.append(version);
            m.append(")");
            DoctorCheck { status: CheckStatus::Pass, message: m }
        },
    }
}


// ---------------------------------------------------------------------------
// API probe
// ---------------------------------------------------------------------------

/// The first line of a response, trimmed (`lines().next()`, empty when there
/// is none; the `\r` of a `\r\n` ending is whitespace the trim removes).
pub open spec fn status_line_of(response: Seq<char>) -> Seq<char> {
    match find(response, "\n"@) {
        Some(k) => trim(response.take(k)),
        None => trim(response),
    }
}

/// The second whitespace-separated token.
pub open spec fn second_token(s: Seq<char>) -> Option<Seq<char>> {
    match next_token(s) {
        None => None,
        Some((_, rest)) => match next_token(rest) {
            None => None,
            Some((t, _)) => Some(t),
        },
    }
}

/// Whether the status line carries a valid status code (100 to 999) of the
/// server-error class (500 to 599).
pub open spec fn answered_server_error(line: Seq<char>) -> bool {
    match second_token(line) {
        Some(t) => match parse_u16(t) {
            Some(code) => 500 <= code && code <= 599,
            None => false,
        },
        None => false,
    }
}

/// The verdict on the reply to `GET /`: its status line when it speaks HTTP
/// and answered without a server error; the line itself as the error when the
/// API answered but cannot serve; otherwise an unexpected-response error.
pub open spec fn status_line_verdict(response: Seq<char>) -> Result<Seq<char>, Seq<char>> {
    let line = status_line_of(response);
    if !(line.len() >= 5 && line.take(5) == "HTTP/"@) {
        Err("unexpected response: "@ + line)
    } else if answered_server_error(line) {
        Err(line)
    } else {
        Ok(line)
    }
}

/// The trimmed copy of `v[0..end]`.
fn trimmed_prefix(v: &[char], end: usize) -> (r: Vec<char>)
    requires
        end <= v@.len(),
    ensures
        r@ == trim(v@.take(end as int)),
{
    let ghost s = v@.take(end as int);
    let mut a: usize = 0;
    while a < end && is_whitespace(v[a])
        invariant
            a <= end <= v@.len(),
            s == v@.take(end as int),
            forall|k: int| 0 <= k < a ==> is_ws(#[trigger] s[k]),
        decreases end - a,
    {
        a = a + 1;
    }
    proof {
        if a < end {
            assert(s[a as int] == v@[a as int]);
        }
        lemma_ws_prefix_len_char(s, a as int);
    }
    let ghost t = s.skip(a as int);
    let mut b: usize = end;
    while b > a && is_whitespace(v[b - 1])
        invariant
            a <= b <= end <= v@.len(),
            s == v@.take(end as int),
            t == s.skip(a as int),
            forall|k: int| b <= k < end ==> is_ws(#[trigger] v@[k]),
        decreases b,
    {
        b = b - 1;
    }
    proof {
        assert forall|i: int| t.len() - (end - b) <= i < t.len() implies is_ws(#[trigger] t[i]) by {
            assert(t[i] == v@[a + i]);
        }
        if end - b < t.len() {
            assert(t[t.len() - (end - b) - 1] == v@[b - 1]);
        }
        lemma_ws_suffix_len_char(t, end - b);
    }
    let mut r: Vec<char> = Vec::new();
    let mut k = a;
    while k < b
        invariant
            a <= k <= b <= end <= v@.len(),
            r@ == v@.subrange(a as int, k as int),
        decreases b - k,
    {
        r.push(v[k]);
        k = k + 1;
    }
    assert(r@ =~= t.take(t.len() - ws_suffix_len(t)));
    r
}

/// The verdict on the API's reply to `GET /` (the text read, up to its first
/// line): a 5xx answer means the API is answering but cannot serve, which is a
/// failing check rather than a reachable API.
pub fn classify_status_line(response: &str) -> (r: Result<String, String>)
    ensures
        match status_line_verdict(response@) {
            Ok(l) => r matches Ok(s) && s@ == l,
            Err(e) => r matches Err(s) && s@ == e,
        },
{
    let v = chars_of(response);
    let newline = chars_of("\n");
    let end = match find_at(&v, &newline, 0) {
        Some(k) => k,
        None => v.len(),
    };
    assert(v@.take(v@.len() as int) == v@);
    let line = trimmed_prefix(&v, end);
    let http = chars_of("HTTP/");
    proof {
        reveal_strlit("HTTP/");
    }
    let speaks_http = line.len() >= 5 && matches_at(&line, &http, 0);
    proof {
        if line@.len() >= 5 {
            assert(occurs_at(line@, http@, 0) <==> line@.take(5) == "HTTP/"@);
        }
    }
    if !speaks_http {
        let mut m = String::from_str("unexpected response: ");
        crate::text::push_chars(&mut m, &line);
        return Err(m);
    }
    let server_error = match next_token_at(&line, 0) {
        None => false,
        Some((_, b)) => match next_token_at(&line, b) {
            None => false,
            Some((c, d)) => match parse_u16_at(&line, c, d) {
                Some(code) => 500 <= code && code <= 599,
                None => false,
            },
        },
    };
    proof {
        assert(line@.skip(0) == line@);
    }
    let text = crate::text::string_of(&line);
    if server_error {
        Err(text)
    } else {
        Ok(text)
    }
}

/// How connecting to the API went, under TLS where the probe stops at the
/// connection.
pub enum ConnectOutcome {
    Connected,
    Failed(String),
    TimedOut,
}

/// What the API check reports. Under TLS a listening daemon has already
/// loaded its pair, so a connection is enough; in plain HTTP the status line
/// of `GET /` (or why there is none) is shown.
pub open spec fn api_report(addr: Seq<char>, tls: Option<ConnectOutcome>, probe: Result<Seq<char>, Seq<char>>) -> (
    CheckStatus,
    Seq<char>,
) {
    match tls {
        Some(ConnectOutcome::Connected) => (
            CheckStatus::Pass,
            "API listening: https://"@ + addr + " (TLS handshake not attempted)"@,
        ),
        Some(ConnectOutcome::Failed(e)) => (
            CheckStatus::Fail,
            "API not reachable: https://"@ + addr + " ("@ + e@ + ")"@,
        ),
        Some(ConnectOutcome::TimedOut) => (
            CheckStatus::Fail,
            "API not reachable: https://"@ + addr + " (timed out)"@,
        ),
        None => match probe {
            Ok(l) => (CheckStatus::Pass, "API reachable: http://"@ + addr + " ("@ + l + ")"@),
            Err(e) => (CheckStatus::Fail, "API not reachable: http://"@ + addr + " ("@ + e + ")"@),
        },
    }
}

/// Check API reachability at the daemon's address: `tls` holds the
/// connection outcome when the API serves TLS; otherwise `probe` holds the
/// status line of `GET /` or the error.
pub fn check_api(addr: &str, tls: Option<ConnectOutcome>, probe: Result<String, String>) -> (r:
    DoctorCheck)
    ensures
        check_view(r) == api_report(
            addr@,
            tls,
            match probe {
                Ok(l) => Ok(l@),
                Err(e) => Err(e@),
            },
        ),
{
    match tls {
        Some(ConnectOutcome::Connected) => {
            let mut m = String::from_str("API listening: https://");
            m.append(addr);
            m.append(" (TLS handshake not attempted)");
            DoctorCheck { status: CheckStatus::Pass, message: m }
        },
        Some(ConnectOutcome::Failed(e)) => {
            let mut m = String::from_str("API not reachable: https://");
            m.append(addr);
            m.append(" (");
            m.append(e.as_str());
            m.append(")");
            DoctorCheck { status: CheckStatus::Fail, message: m }
        },
        Some(ConnectOutcome::TimedOut) => {
            let mut m = String::from_str("API not reachable: https://");
            m.append(addr);
            m.append(" (timed out)");
            DoctorCheck { status: CheckStatus::Fail, message: m }
        },
        None => match probe {
            Ok(l) => {
                let mut m = String::from_str("API reachable: http://");
                m.append(addr);
                m.append(" (");
                m.append(l.as_str());
                m.append(")");
                DoctorCheck { status: CheckStatus::Pass, message: m }
            },
            Err(e) => {
                let mut m = String::from_str("API not reachable: http://");
                m.append(addr);
                m.append(" (");
                m.append(e.as_str());
                m.append(")");
                DoctorCheck { status: CheckStatus::Fail, message: m }
            },
        },
    }
}

// ---------------------------------------------------------------------------
// Database, with no daemon to ask
// ---------------------------------------------------------------------------

/// The time the offline database probe is given.
pub const DB_CHECK_TIMEOUT_SECS: u64 = 5;

/// Whether a path is absolute on this platform (it starts at the root).
pub open spec fn is_absolute_path(path: Seq<char>) -> bool {
    path.len() > 0 && path[0] == '/'
}

/// The check that stands in for the database probe, if it must be skipped:
/// only the service knows what a relative SQLite path resolves against, and a
/// missing SQLite file is created on first start.
pub open spec fn database_skip(is_sqlite: bool, path: Seq<char>, exists: bool) -> Option<Seq<char>> {
    if !is_sqlite {
        None
    } else if !is_absolute_path(path) {
        Some(
            "Database check skipped: SQLite path '"@ + path
                + "' is relative to the service's working directory"@,
        )
    } else if !exists {
        Some(
            "Database check skipped: SQLite file '"@ + path
                + "' is created on first start, with its directory"@,
        )
    } else {
        None
    }
}

/// Decide whether the offline database probe runs; `exists` says whether the
/// SQLite file is present. `None` means the probe should run.
pub fn database_precheck(is_sqlite: bool, sqlite_path: &str, exists: bool) -> (r: Option<
    DoctorCheck,
>)
    ensures
        match database_skip(is_sqlite, sqlite_path@, exists) {
            None => r is None,
            Some(m) => r matches Some(c) && check_view(c) == (CheckStatus::Skip, m),
        },
{
    if !is_sqlite {
        return None;
    }
    let absolute = sqlite_path.unicode_len() > 0 && sqlite_path.get_char(0) == '/';
    if !absolute {
        let mut m = String::from_str("Database check skipped: SQLite path '");
        m.append(sqlite_path);
        m.append("' is relative to the service's working directory");
        return Some(DoctorCheck { status: CheckStatus::Skip, message: m });
    }
    if !exists {
        let mut m = String::from_str("Database check skipped: SQLite file '");
        m.append(sqlite_path);
        m.append("' is created on first start, with its directory");
        return Some(DoctorCheck { status: CheckStatus::Skip, message: m });
    }
    None
}

/// How the offline database probe went.
pub enum DbProbe {
    Reachable,
    Failed(String),
    TimedOut,
}

pub open spec fn database_report(db_type: Seq<char>, probe: DbProbe) -> (CheckStatus, Seq<char>) {
    match probe {
        DbProbe::Reachable => (CheckStatus::Pass, "Database reachable: "@ + db_type),
        DbProbe::Failed(e) => (CheckStatus::Fail, "Database not reachable: "@ + e@),
        DbProbe::TimedOut => (
            CheckStatus::Fail,
            "Database not reachable: timed out after "@ + nat_text(DB_CHECK_TIMEOUT_SECS as nat)
                + " seconds"@,
        ),
    }
}

/// Report the offline database probe.
pub fn check_database(db_type: &str, probe: DbProbe) -> (r: DoctorCheck)
    ensures
        check_view(r) == database_report(db_type@, probe),
{
    match probe {
        DbProbe::Reachable => {
            let mut m = String::from_str("Database reachable: ");
            m.append(db_type);
            DoctorCheck { status: CheckStatus::Pass, message: m }
        },
        DbProbe::Failed(e) => {
            let mut m = String::from_str("Database not reachable: ");
            m.append(e.as_str());
            DoctorCheck { status: CheckStatus::Fail, message: m }
        },
        DbProbe::TimedOut => {
            let mut m = String::from_str("Database not reachable: timed out after ");
            push_nat_text(&mut m, DB_CHECK_TIMEOUT_SECS);
            m.append(" seconds");
            DoctorCheck { status: CheckStatus::Fail, message: m }
        },
    }
}

/// The catalog check fails exactly when the catalog zone is not set up, or
/// when bindizr's listen port is known and either catalog port BIND names
/// (the zone block's, or `default-primaries` for the member zones) differs
/// from it; otherwise it passes.
pub proof fn lemma_catalog_fails_on_any_stale_port(
    main_conf: Seq<char>,
    main: Seq<char>,
    options: Seq<char>,
    listen: Option<u16>,
)
    ensures
        catalog_report(main_conf, main, options, listen).0 == CheckStatus::Fail <==> (
        !contains(main, "zone \"catalog.bind\""@) || !contains(options, "catalog-zones"@) || (
        listen matches Some(l) && ((catalog_port_from(main, 0) matches Some(z) && z != l)
            || (port_after_spec(options, "default-primaries"@) matches Some(m) && m != l)))),
        catalog_report(main_conf, main, options, listen).0 != CheckStatus::Skip,
{
}

} // verus!
