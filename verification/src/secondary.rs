//! The `secondary check` report: one line per part of what the daemon found
//! probing a secondary, the way `doctor` reports.

use vstd::prelude::*;
use crate::doctor::NotifyProbe;
use crate::lifecycle::{join_names, joined};
use crate::text::{int_text, push_int_text, push_line, str_equal, views};

verus! {

/// A secondary as configured.
pub struct SecondaryInfo {
    pub name: String,
    pub address: String,
    pub enabled: bool,
    /// The TSIG key NOTIFY messages to it are signed with.
    pub notify_key: Option<String>,
}

/// What the secondary serves of the catalog zone.
pub struct CatalogProbe {
    pub visible_serial: Option<i64>,
    /// `in_sync`, `reachable`, or a lagging state.
    pub status: String,
    pub error: Option<String>,
}

/// Everything one check of a secondary found.
pub struct SecondaryCheck {
    pub secondary: SecondaryInfo,
    pub resolve_error: Option<String>,
    pub addresses: Vec<String>,
    /// The error of bindizr's own DNS listener, when it did not answer.
    pub listener_error: Option<String>,
    pub catalog: CatalogProbe,
    pub catalog_zone: String,
    pub catalog_serial: Option<i64>,
    pub notifies: Vec<NotifyProbe>,
}

pub open spec fn identity_line(s: SecondaryInfo) -> Seq<char> {
    "Secondary "@ + s.name@ + ": "@ + s.address@ + " ("@ + (if s.enabled {
        "enabled"@
    } else {
        "disabled"@
    }) + match s.notify_key {
        Some(k) => ", NOTIFY signed with "@ + k@,
        None => Seq::empty(),
    } + ")"@
}

pub open spec fn resolution_line(c: SecondaryCheck) -> Seq<char> {
    match c.resolve_error {
        Some(e) => "Resolution failed: "@ + e@,
        None => "Resolves to: "@ + joined(views(c.addresses@)),
    }
}

pub open spec fn listener_part(c: SecondaryCheck) -> Seq<Seq<char>> {
    match c.listener_error {
        Some(e) => seq!["Bindizr's own listener did not answer: "@ + e@],
        None => Seq::empty(),
    }
}

/// The catalog zone as the secondary serves it: in sync or reachable at a
/// serial, lagging behind the serial bindizr serves, or not answering.
pub open spec fn catalog_line(c: SecondaryCheck) -> Seq<char> {
    let head = "Catalog zone "@ + c.catalog_zone@ + ": "@;
    match c.catalog.visible_serial {
        Some(serial) => if c.catalog.status@ == "in_sync"@ {
            head + "in sync at serial "@ + int_text(serial as int)
        } else if c.catalog.status@ == "reachable"@ {
            head + "reachable at serial "@ + int_text(serial as int)
        } else {
            head + c.catalog.status@ + " at serial "@ + int_text(serial as int) + " (bindizr serves "@
                + int_text(c.catalog_serial.unwrap_or(0) as int) + ")"@
        },
        None => head + "unreachable ("@ + (match c.catalog.error {
            Some(e) => e@,
            None => "unknown error"@,
        }) + ")"@,
    }
}

pub open spec fn notify_line(n: NotifyProbe) -> Seq<char> {
    match n.error {
        None => "NOTIFY to "@ + n.address@ + ": accepted"@,
        Some(e) => "NOTIFY to "@ + n.address@ + ": rejected ("@ + e@ + ")"@,
    }
}

/// The check, one line per part.
pub open spec fn check_lines(c: SecondaryCheck) -> Seq<Seq<char>> {
    seq![identity_line(c.secondary), resolution_line(c)] + listener_part(c) + seq![catalog_line(c)]
        + c.notifies@.map_values(|n: NotifyProbe| notify_line(n))
}

// ---------------------------------------------------------------------------
// Implementation
// ---------------------------------------------------------------------------

fn identity_text(s: &SecondaryInfo) -> (r: String)
    ensures
        r@ == identity_line(*s),
{
    let mut line = String::from_str("Secondary ");
    line.append(s.name.as_str());
    line.append(": ");
    line.append(s.address.as_str());
    line.append(" (");
    if s.enabled {
        line.append("enabled");
    } else {
        line.append("disabled");
    }
    let ghost before = line@;
    match &s.notify_key {
        Some(k) => {
            line.append(", NOTIFY signed with ");
            line.append(k.as_str());
        },
        None => {
            assert(before + Seq::<char>::empty() =~= before);
        },
    }
    line.append(")");
    line
}

fn resolution_text(c: &SecondaryCheck) -> (r: String)
    ensures
        r@ == resolution_line(*c),
{
    match &c.resolve_error {
        Some(e) => {
            let mut line = String::from_str("Resolution failed: ");
            line.append(e.as_str());
            line
        },
        None => {
            let mut line = String::from_str("Resolves to: ");
            line.append(join_names(&c.addresses).as_str());
            line
        },
    }
}

fn catalog_text(c: &SecondaryCheck) -> (r: String)
    ensures
        r@ == catalog_line(*c),
{
    let mut line = String::from_str("Catalog zone ");
    line.append(c.catalog_zone.as_str());
    line.append(": ");
    match c.catalog.visible_serial {
        Some(serial) => {
            if str_equal(c.catalog.status.as_str(), "in_sync") {
                line.append("in sync at serial ");
                push_int_text(&mut line, serial);
            } else if str_equal(c.catalog.status.as_str(), "reachable") {
                line.append("reachable at serial ");
                push_int_text(&mut line, serial);
            } else {
                line.append(c.catalog.status.as_str());
                line.append(" at serial ");
                push_int_text(&mut line, serial);
                line.append(" (bindizr serves ");
                push_int_text(&mut line, c.catalog_serial.unwrap_or(0));
                line.append(")");
            }
        },
        None => {
            line.append("unreachable (");
            match &c.catalog.error {
                Some(e) => line.append(e.as_str()),
                None => line.append("unknown error"),
            }
            line.append(")");
        },
    }
    line
}

fn notify_text(n: &NotifyProbe) -> (r: String)
    ensures
        r@ == notify_line(*n),
{
    let mut line = String::from_str("NOTIFY to ");
    line.append(n.address.as_str());
    match &n.error {
        None => line.append(": accepted"),
        Some(e) => {
            line.append(": rejected (");
            line.append(e.as_str());
            line.append(")");
        },
    }
    line
}

/// A check as one line per part (the lines to print).
pub fn print_check(check: &SecondaryCheck) -> (r: Vec<String>)
    ensures
        views(r@) == check_lines(*check),
{
    let mut r: Vec<String> = Vec::new();
    push_line(&mut r, identity_text(&check.secondary));
    push_line(&mut r, resolution_text(check));
    if let Some(e) = &check.listener_error {
        let mut line = String::from_str("Bindizr's own listener did not answer: ");
        line.append(e.as_str());
        push_line(&mut r, line);
    }
    push_line(&mut r, catalog_text(check));
    let ghost start = views(r@);
    assert(start =~= seq![identity_line(check.secondary), resolution_line(*check)]
        + listener_part(*check) + seq![catalog_line(*check)]);
    let ghost shown = check.notifies@.map_values(|n: NotifyProbe| notify_line(n));
    let mut i: usize = 0;
    while i < check.notifies.len()
        invariant
            i <= check.notifies@.len(),
            shown == check.notifies@.map_values(|n: NotifyProbe| notify_line(n)),
            views(r@) == start + shown.take(i as int),
        decreases check.notifies.len() - i,
    {
        push_line(&mut r, notify_text(&check.notifies[i]));
        assert(shown.take(i + 1) =~= shown.take(i as int).push(shown[i as int]));
        i = i + 1;
    }
    assert(shown.take(check.notifies@.len() as int) =~= shown);
    r
}

} // verus!
