//! What the `zone` subcommands decide around their daemon requests: whether a
//! listing carries a filter, what an import reports and whether it failed,
//! and the heading of `zone status`.

use vstd::prelude::*;
use crate::cli_error::{CliError, Failure};
use crate::text::{int_text, nat_text, push_int_text, push_nat_text, views};
use crate::time::Timestamp;

verus! {

/// The options of `zone list`.
pub struct ZoneListArgs {
    pub name: Option<String>,
    pub mname: Option<String>,
    pub rname: Option<String>,
    pub default_ttl: Option<i32>,
    pub min_default_ttl: Option<i32>,
    pub max_default_ttl: Option<i32>,
    pub serial: Option<i32>,
    pub min_serial: Option<i32>,
    pub max_serial: Option<i32>,
    pub created_after: Option<Timestamp>,
    pub created_before: Option<Timestamp>,
    /// `--signed`: only zones that are signed.
    pub signed: bool,
    pub enabled: Option<bool>,
    pub search: Option<String>,
    pub sort: Option<String>,
    pub order: Option<String>,
    pub limit: Option<u64>,
    pub offset: Option<u64>,
}

/// The filter a zone listing sends to the daemon.
pub struct ZonesFilter {
    pub name: Option<String>,
    /// The HTTP API keeps an id filter; the CLI keys zones by name, which is
    /// unique, so it never sends one.
    pub id: Option<i32>,
    pub mname: Option<String>,
    pub rname: Option<String>,
    pub default_ttl: Option<i32>,
    pub min_default_ttl: Option<i32>,
    pub max_default_ttl: Option<i32>,
    pub serial: Option<i32>,
    pub min_serial: Option<i32>,
    pub max_serial: Option<i32>,
    pub created_after: Option<Timestamp>,
    pub created_before: Option<Timestamp>,
    pub signed: Option<bool>,
    pub enabled: Option<bool>,
    pub search: Option<String>,
    pub sort: Option<String>,
    pub order: Option<String>,
    pub limit: Option<u64>,
    pub offset: Option<u64>,
}

/// Whether any option narrows or orders the listing.
pub open spec fn has_filters(a: ZoneListArgs) -> bool {
    ||| a.name is Some
    ||| a.mname is Some
    ||| a.rname is Some
    ||| a.default_ttl is Some
    ||| a.min_default_ttl is Some
    ||| a.max_default_ttl is Some
    ||| a.serial is Some
    ||| a.min_serial is Some
    ||| a.max_serial is Some
    ||| a.created_after is Some
    ||| a.created_before is Some
    ||| a.signed
    ||| a.enabled is Some
    ||| a.search is Some
    ||| a.sort is Some
    ||| a.order is Some
    ||| a.limit is Some
    ||| a.offset is Some
}

/// The filter carries every option as given, no id, and `--signed` as a
/// `signed` filter of `true` (its absence filters nothing).
pub open spec fn filter_carries(f: ZonesFilter, a: ZoneListArgs) -> bool {
    &&& f.name == a.name
    &&& f.id is None
    &&& f.mname == a.mname
    &&& f.rname == a.rname
    &&& f.default_ttl == a.default_ttl
    &&& f.min_default_ttl == a.min_default_ttl
    &&& f.max_default_ttl == a.max_default_ttl
    &&& f.serial == a.serial
    &&& f.min_serial == a.min_serial
    &&& f.max_serial == a.max_serial
    &&& f.created_after == a.created_after
    &&& f.created_before == a.created_before
    &&& f.signed == (if a.signed {
        Some(true)
    } else {
        None
    })
    &&& f.enabled == a.enabled
    &&& f.search == a.search
    &&& f.sort == a.sort
    &&& f.order == a.order
    &&& f.limit == a.limit
    &&& f.offset == a.offset
}

/// The filter for `zone list`: none at all when no option was given, so the
/// daemon lists every zone.
pub fn zone_list_filter(args: ZoneListArgs) -> (r: Option<ZonesFilter>)
    ensures
        r is None <==> !has_filters(args),
        r matches Some(f) ==> filter_carries(f, args),
{
    let has_filters = args.name.is_some() || args.mname.is_some() || args.rname.is_some()
        || args.default_ttl.is_some() || args.min_default_ttl.is_some()
        || args.max_default_ttl.is_some() || args.serial.is_some() || args.min_serial.is_some()
        || args.max_serial.is_some() || args.created_after.is_some()
        || args.created_before.is_some() || args.signed || args.enabled.is_some()
        || args.search.is_some() || args.sort.is_some() || args.order.is_some()
        || args.limit.is_some() || args.offset.is_some();
    if !has_filters {
        return None;
    }
    let signed = if args.signed {
        Some(true)
    } else {
        None
    };
    Some(
        ZonesFilter {
            name: args.name,
            id: None,
            mname: args.mname,
            rname: args.rname,
            default_ttl: args.default_ttl,
            min_default_ttl: args.min_default_ttl,
            max_default_ttl: args.max_default_ttl,
            serial: args.serial,
            min_serial: args.min_serial,
            max_serial: args.max_serial,
            created_after: args.created_after,
            created_before: args.created_before,
            signed,
            enabled: args.enabled,
            search: args.search,
            sort: args.sort,
            order: args.order,
            limit: args.limit,
            offset: args.offset,
        },
    )
}

// ---------------------------------------------------------------------------
// Import
// ---------------------------------------------------------------------------

/// The diagnostics of an import, as printed to stderr: each error after
/// `  - `, then each skipped record after `  ~ `.
pub open spec fn diagnostic_lines(errors: Seq<Seq<char>>, skipped: Seq<Seq<char>>) -> Seq<Seq<char>> {
    errors.map_values(|e: Seq<char>| "  - "@ + e) + skipped.map_values(|s: Seq<char>| "  ~ "@ + s)
}

fn push_prefixed(out: &mut Vec<String>, prefix: &str, items: &Vec<String>)
    ensures
        views(final(out)@) == views(old(out)@) + views(items@).map_values(|e: Seq<char>| prefix@ + e),
{
    let ghost start = views(out@);
    let ghost shown = views(items@).map_values(|e: Seq<char>| prefix@ + e);
    let mut i: usize = 0;
    while i < items.len()
        invariant
            i <= items@.len(),
            shown == views(items@).map_values(|e: Seq<char>| prefix@ + e),
            views(out@) == start + shown.take(i as int),
        decreases items.len() - i,
    {
        let mut line = String::from_str(prefix);
        line.append(items[i].as_str());
        let ghost before = out@;
        out.push(line);
        assert(views(out@) =~= views(before).push(shown[i as int]));
        assert(shown.take(i + 1) =~= shown.take(i as int).push(shown[i as int]));
        i = i + 1;
    }
    assert(shown.take(items@.len() as int) =~= shown);
}

/// The diagnostics of an import (the lines to print to stderr, so a pipeline
/// keeps the summary clean).
pub fn import_diagnostics(errors: &Vec<String>, skipped: &Vec<String>) -> (r: Vec<String>)
    ensures
        views(r@) == diagnostic_lines(views(errors@), views(skipped@)),
{
    let mut r: Vec<String> = Vec::new();
    push_prefixed(&mut r, "  - ", errors);
    push_prefixed(&mut r, "  ~ ", skipped);
    assert(views(r@) =~= diagnostic_lines(views(errors@), views(skipped@)));
    r
}

pub open spec fn rejected_import_message(error_count: nat) -> Seq<char> {
    "import rejected: "@ + nat_text(error_count)
        + " record(s) failed validation; nothing was applied"@
}

/// A rejected import applied nothing, so it must not exit as a success.
pub fn import_outcome(rejected: bool, error_count: usize) -> (r: Result<(), CliError>)
    ensures
        !rejected <==> r is Ok,
        r matches Err(e) ==> e.code is None && e.failure == Failure::Request && e.message@
            == rejected_import_message(error_count as nat),
{
    if rejected {
        let mut m = String::from_str("import rejected: ");
        push_nat_text(&mut m, error_count as u64);
        m.append(" record(s) failed validation; nothing was applied");
        Err(CliError::from_message(m.as_str()))
    } else {
        Ok(())
    }
}

// ---------------------------------------------------------------------------
// Status
// ---------------------------------------------------------------------------

/// The lines above the secondaries table of `zone status`; with no
/// secondaries there is no table, and a line says so.
pub open spec fn zone_status_head(zone: Seq<char>, serial: i32, secondaries: nat) -> Seq<Seq<char>> {
    let head = "Zone "@ + zone + " (serial "@ + int_text(serial as int) + ")"@;
    if secondaries == 0 {
        seq![head, "No secondaries configured."@]
    } else {
        seq![head]
    }
}

/// The heading of `zone status` (the lines to print before the table of
/// secondaries, which follows only when there are any).
pub fn zone_status_heading(zone: &str, serial: i32, secondaries: usize) -> (r: Vec<String>)
    ensures
        views(r@) == zone_status_head(zone@, serial, secondaries as nat),
{
    let mut head = String::from_str("Zone ");
    head.append(zone);
    head.append(" (serial ");
    push_int_text(&mut head, serial as i64);
    head.append(")");
    let mut r: Vec<String> = Vec::new();
    r.push(head);
    if secondaries == 0 {
        r.push(String::from_str("No secondaries configured."));
    }
    assert(views(r@) =~= zone_status_head(zone@, serial, secondaries as nat));
    r
}

/// Any one option given to `zone list` sends a filter; only a listing with
/// none sends nothing.
pub proof fn lemma_any_option_sends_a_filter(a: ZoneListArgs)
    ensures
        (a.name is Some || a.mname is Some || a.rname is Some || a.default_ttl is Some
            || a.min_default_ttl is Some || a.max_default_ttl is Some || a.serial is Some
            || a.min_serial is Some || a.max_serial is Some || a.created_after is Some
            || a.created_before is Some || a.signed || a.enabled is Some || a.search is Some
            || a.sort is Some || a.order is Some || a.limit is Some || a.offset is Some)
            <==> has_filters(a),
{
}

/// A filter sent for a listing carries every option exactly as given, and
/// `--signed` as `signed: Some(true)`.
pub proof fn lemma_filter_carries_each_option(f: ZonesFilter, a: ZoneListArgs)
    requires
        filter_carries(f, a),
    ensures
        f.name == a.name && f.mname == a.mname && f.rname == a.rname,
        f.default_ttl == a.default_ttl && f.min_default_ttl == a.min_default_ttl
            && f.max_default_ttl == a.max_default_ttl,
        f.serial == a.serial && f.min_serial == a.min_serial && f.max_serial == a.max_serial,
        f.created_after == a.created_after && f.created_before == a.created_before,
        f.enabled == a.enabled && f.search == a.search && f.sort == a.sort && f.order == a.order,
        f.limit == a.limit && f.offset == a.offset && f.id is None,
        a.signed ==> f.signed == Some(true),
        !a.signed ==> f.signed is None,
{
}

} // verus!
