//! The `dnssec status` report: what a zone's signing state, its delegation at
//! the parent and its keys look like to an operator; and the DS records alone,
//! to paste into the parent zone.

use vstd::prelude::*;
use crate::lifecycle::{join_names, joined};
use crate::table::{
    key_row_matches, policy_row_matches, to_uppercase, uppercase_of, DnssecKeyInfo,
    DnssecKeyRow, DnssecPolicy, DnssecPolicyRow,
};
use crate::text::{i64_text, int_text, push_line, views};
use crate::time::{formatted_of, wall_clock_pattern, Timestamp};

verus! {

/// One of the zone's keys as the parent sees it.
pub struct DelegationKey {
    pub key_tag: i32,
    pub role: String,
    pub state: String,
    /// The parent serves a DS record for this key.
    pub ds_published: bool,
    /// The parent serves a DS record in a digest type that cannot be checked.
    pub ds_digest_unsupported: bool,
    /// When the key may be promoted, if it is waiting for that.
    pub eligible_at: Option<Timestamp>,
}

/// What the parent zone's nameservers serve for the zone.
pub struct Delegation {
    pub parent_ns_addrs: Vec<String>,
    pub ds_key_tags: Vec<i32>,
    pub ds_ttl: Option<i64>,
    pub keys: Vec<DelegationKey>,
}

/// A zone's DNSSEC status as the daemon reports it.
pub struct DnssecStatus {
    pub zone_name: String,
    pub serial: i32,
    pub enabled: bool,
    pub policy: Option<DnssecPolicy>,
    /// A DS withdrawal (RFC 8078) is published.
    pub withdrawing: bool,
    pub parent_ns_addrs: Option<String>,
    pub delegation: Option<Delegation>,
    pub earliest_signature_expires_at: Option<Timestamp>,
    pub next_resign_at: Option<Timestamp>,
    pub signatures: i64,
    pub expired_signatures: i64,
    pub keys: Vec<DnssecKeyInfo>,
    /// DS records in presentation format.
    pub ds_records: Vec<String>,
}

/// One part of the report: a line of text, or a table.
pub enum StatusItem {
    Line(String),
    Policy(DnssecPolicyRow),
    Keys(Vec<DnssecKeyRow>),
}

/// What one part of the report shows.
pub enum StatusPiece {
    Text(Seq<char>),
    PolicyOf(DnssecPolicy),
    KeysOf(Seq<DnssecKeyInfo>),
}

/// An instant as `YYYY-MM-DD HH:MM:SS`.
pub open spec fn wall(t: Timestamp) -> Seq<char> {
    formatted_of(t.spec_secs(), t.spec_nanos(), wall_clock_pattern())
}

/// Where the parent stands on a key's DS record.
pub open spec fn ds_place(k: DelegationKey) -> Seq<char> {
    if k.ds_published {
        "at parent"@
    } else if k.ds_digest_unsupported {
        "at parent in a digest type bindizr cannot check"@
    } else {
        "not at parent"@
    }
}

pub open spec fn delegation_key_line(k: DelegationKey) -> Seq<char> {
    "  "@ + int_text(k.key_tag as int) + " ("@ + k.role@ + ", "@ + k.state@ + "): "@ + ds_place(k)
        + match k.eligible_at {
        Some(t) => ", promotable from "@ + wall(t),
        None => Seq::empty(),
    }
}

pub open spec fn tag_texts(tags: Seq<i32>) -> Seq<Seq<char>> {
    tags.map_values(|t: i32| int_text(t as int))
}

/// The DS records the parent serves, then one line per key.
pub open spec fn delegation_lines(d: Delegation) -> Seq<Seq<char>> {
    let servers = joined(views(d.parent_ns_addrs@));
    let head = if d.ds_key_tags@.len() == 0 {
        "Parent DS: none served by "@ + servers
    } else {
        "Parent DS: key tag"@ + (if d.ds_key_tags@.len() == 1 {
            Seq::empty()
        } else {
            "s"@
        }) + " "@ + joined(tag_texts(d.ds_key_tags@)) + " served by "@ + servers + " (TTL "@
            + int_text(
            match d.ds_ttl {
                Some(t) => t as int,
                None => 0,
            },
        ) + "s)"@
    };
    seq![head] + d.keys@.map_values(|k: DelegationKey| delegation_key_line(k))
}

pub open spec fn zone_head(s: DnssecStatus) -> Seq<char> {
    "Zone "@ + s.zone_name@ + " (serial "@ + int_text(s.serial as int) + "): DNSSEC "@
}

pub open spec fn signatures_line(s: DnssecStatus) -> Seq<char> {
    if s.expired_signatures == 0 {
        "Signatures: "@ + int_text(s.signatures as int)
    } else {
        "Signatures: "@ + int_text(s.signatures as int) + " ("@ + int_text(
            s.expired_signatures as int,
        ) + " EXPIRED)"@
    }
}

pub open spec fn withdrawal_line() -> Seq<char> {
    "DS withdrawal published (RFC 8078): the parent should drop this zone's DS records."@
}

pub open spec fn withdrawal_part(s: DnssecStatus) -> Seq<Seq<char>> {
    if s.withdrawing {
        seq![withdrawal_line()]
    } else {
        Seq::empty()
    }
}

pub open spec fn parent_part(s: DnssecStatus) -> Seq<Seq<char>> {
    match s.parent_ns_addrs {
        Some(a) => seq!["Parent nameservers: "@ + a@],
        None => Seq::empty(),
    }
}

pub open spec fn delegation_part(s: DnssecStatus) -> Seq<Seq<char>> {
    match s.delegation {
        Some(d) => delegation_lines(d),
        None => Seq::empty(),
    }
}

/// A line naming an instant, when there is one.
pub open spec fn instant_part(label: Seq<char>, at: Option<Timestamp>) -> Seq<Seq<char>> {
    match at {
        Some(t) => seq![label + wall(t)],
        None => Seq::empty(),
    }
}

pub open spec fn enabled_line(s: DnssecStatus, p: DnssecPolicy) -> Seq<char> {
    zone_head(s) + "enabled, "@ + uppercase_of(p.denial@) + " denial"@
}

/// The lines above the tables of a signed zone.
pub open spec fn enabled_head(s: DnssecStatus, p: DnssecPolicy) -> Seq<Seq<char>> {
    seq![enabled_line(s, p)] + withdrawal_part(s) + parent_part(s) + delegation_part(s)
        + instant_part("Earliest signature expiry: "@, s.earliest_signature_expires_at)
        + instant_part("Next re-signing: "@, s.next_resign_at) + seq![signatures_line(s)]
}

/// The DS records to register, under a heading, when there are any.
pub open spec fn ds_lines(s: DnssecStatus) -> Seq<Seq<char>> {
    if s.ds_records@.len() == 0 {
        Seq::empty()
    } else {
        seq!["DS records (register in the parent zone):"@] + views(s.ds_records@).map_values(
            |l: Seq<char>| "  "@ + l,
        )
    }
}

pub open spec fn texts(lines: Seq<Seq<char>>) -> Seq<StatusPiece> {
    lines.map_values(|l: Seq<char>| StatusPiece::Text(l))
}

/// The report: a zone that is not signed (no policy, or DNSSEC turned off)
/// in one line; a signed zone with its delegation, signature state, policy
/// table, key table and the DS records for the parent.
pub open spec fn status_pieces(s: DnssecStatus) -> Seq<StatusPiece> {
    match (if s.enabled {
        s.policy
    } else {
        None
    }) {
        None => seq![StatusPiece::Text(zone_head(s) + "disabled"@)],
        Some(p) => texts(enabled_head(s, p)) + seq![
            StatusPiece::Text("Policy:"@),
            StatusPiece::PolicyOf(p),
            StatusPiece::Text("Keys:"@),
            StatusPiece::KeysOf(s.keys@),
        ] + texts(ds_lines(s)),
    }
}

/// A policy in one line: its name, algorithm and key layout, and its
/// signature and key lifetimes in days.
pub open spec fn policy_summary(p: DnssecPolicy) -> Seq<char> {
    "Policy: "@ + p.name@ + " ("@ + p.algorithm@ + ", "@ + (if p.split_keys {
        "KSK/ZSK"@
    } else {
        "CSK"@
    }) + "; validity "@ + int_text(p.signature_validity_days as int) + "d, refresh "@ + int_text(
        p.signature_refresh_days as int,
    ) + "d, zsk-lifetime "@ + int_text(p.zsk_lifetime_days as int) + "d)"@
}

/// The zone form of the report: the policy in one line, the withdrawal and
/// the earliest signature expiry when there are any, the key table, and the
/// DS records for the parent.
pub open spec fn zone_status_pieces(s: DnssecStatus) -> Seq<StatusPiece> {
    match (if s.enabled {
        s.policy
    } else {
        None
    }) {
        None => seq![StatusPiece::Text(zone_head(s) + "disabled"@)],
        Some(p) => texts(
            seq![enabled_line(s, p), policy_summary(p)] + withdrawal_part(s) + instant_part(
                "Earliest signature expiry: "@,
                s.earliest_signature_expires_at,
            ),
        ) + seq![StatusPiece::KeysOf(s.keys@)] + texts(ds_lines(s)),
    }
}

/// An item shows a piece: the same line, or the table of the same rows.
pub open spec fn item_shows(item: StatusItem, piece: StatusPiece) -> bool {
    match (item, piece) {
        (StatusItem::Line(l), StatusPiece::Text(t)) => l@ == t,
        (StatusItem::Policy(r), StatusPiece::PolicyOf(p)) => policy_row_matches(r, p),
        (StatusItem::Keys(rows), StatusPiece::KeysOf(ks)) => rows@.len() == ks.len() && forall|
            j: int,
        |
            0 <= j < ks.len() ==> key_row_matches(#[trigger] rows@[j], ks[j]),
        _ => false,
    }
}

pub open spec fn items_show(items: Seq<StatusItem>, pieces: Seq<StatusPiece>) -> bool {
    items.len() == pieces.len() && forall|i: int|
        0 <= i < items.len() ==> item_shows(#[trigger] items[i], pieces[i])
}

// ---------------------------------------------------------------------------
// Implementation
// ---------------------------------------------------------------------------

fn push_text(out: &mut String, s: &str)
    ensures
        final(out)@ == old(out)@ + s@,
{
    out.append(s);
}

fn delegation_key_text(k: &DelegationKey) -> (r: String)
    ensures
        r@ == delegation_key_line(*k),
{
    let mut line = String::from_str("  ");
    push_text(&mut line, i64_text(k.key_tag as i64).as_str());
    push_text(&mut line, " (");
    push_text(&mut line, k.role.as_str());
    push_text(&mut line, ", ");
    push_text(&mut line, k.state.as_str());
    push_text(&mut line, "): ");
    if k.ds_published {
        push_text(&mut line, "at parent");
    } else if k.ds_digest_unsupported {
        push_text(&mut line, "at parent in a digest type bindizr cannot check");
    } else {
        push_text(&mut line, "not at parent");
    }
    let ghost before = line@;
    match &k.eligible_at {
        Some(t) => {
            push_text(&mut line, ", promotable from ");
            push_text(&mut line, t.wall_clock().as_str());
        },
        None => {
            assert(before + Seq::<char>::empty() =~= before);
        },
    }
    line
}

fn tag_list(tags: &Vec<i32>) -> (r: Vec<String>)
    ensures
        views(r@) == tag_texts(tags@),
{
    let mut r: Vec<String> = Vec::new();
    let mut i: usize = 0;
    while i < tags.len()
        invariant
            i <= tags@.len(),
            views(r@) == tag_texts(tags@.take(i as int)),
        decreases tags.len() - i,
    {
        push_line(&mut r, i64_text(tags[i] as i64));
        assert(tag_texts(tags@.take(i + 1)) =~= tag_texts(tags@.take(i as int)).push(
            int_text(tags@[i as int] as int),
        ));
        i = i + 1;
    }
    assert(tags@.take(tags@.len() as int) =~= tags@);
    r
}

fn push_delegation(out: &mut Vec<String>, d: &Delegation)
    ensures
        views(final(out)@) == views(old(out)@) + delegation_lines(*d),
{
    let servers = join_names(&d.parent_ns_addrs);
    let mut head = String::new();
    if d.ds_key_tags.len() == 0 {
        push_text(&mut head, "Parent DS: none served by ");
        push_text(&mut head, servers.as_str());
    } else {
        push_text(&mut head, "Parent DS: key tag");
        if d.ds_key_tags.len() != 1 {
            push_text(&mut head, "s");
        } else {
            assert(head@ + Seq::<char>::empty() =~= head@);
        }
        push_text(&mut head, " ");
        push_text(&mut head, join_names(&tag_list(&d.ds_key_tags)).as_str());
        push_text(&mut head, " served by ");
        push_text(&mut head, servers.as_str());
        push_text(&mut head, " (TTL ");
        let ttl: i64 = match d.ds_ttl {
            Some(t) => t,
            None => 0,
        };
        push_text(&mut head, i64_text(ttl).as_str());
        push_text(&mut head, "s)");
    }
    let ghost head_view = head@;
    assert(head_view == delegation_lines(*d)[0]);
    assert(delegation_lines(*d).take(1) =~= seq![head_view]);
    let ghost start = views(old(out)@);
    push_line(out, head);
    let ghost keyed = d.keys@.map_values(|k: DelegationKey| delegation_key_line(k));
    let mut i: usize = 0;
    while i < d.keys.len()
        invariant
            i <= d.keys@.len(),
            keyed == d.keys@.map_values(|k: DelegationKey| delegation_key_line(k)),
            views(out@) == start + delegation_lines(*d).take(i + 1),
        decreases d.keys.len() - i,
    {
        push_line(out, delegation_key_text(&d.keys[i]));
        assert(delegation_lines(*d).take(i + 2) =~= delegation_lines(*d).take(i + 1).push(
            keyed[i as int],
        ));
        i = i + 1;
    }
    assert(delegation_lines(*d).take(d.keys@.len() as int + 1) =~= delegation_lines(*d));
}

fn push_instant(out: &mut Vec<String>, label: &str, at: &Option<Timestamp>)
    ensures
        views(final(out)@) == views(old(out)@) + instant_part(label@, *at),
{
    match at {
        Some(t) => {
            let mut line = String::from_str(label);
            push_text(&mut line, t.wall_clock().as_str());
            push_line(out, line);
        },
        None => {},
    }
    assert(views(out@) =~= views(old(out)@) + instant_part(label@, *at));
}

fn enabled_text(s: &DnssecStatus, p: &DnssecPolicy) -> (r: String)
    ensures
        r@ == enabled_line(*s, *p),
{
    let mut first = String::from_str("Zone ");
    push_text(&mut first, s.zone_name.as_str());
    push_text(&mut first, " (serial ");
    push_text(&mut first, i64_text(s.serial as i64).as_str());
    push_text(&mut first, "): DNSSEC ");
    push_text(&mut first, "enabled, ");
    push_text(&mut first, to_uppercase(p.denial.as_str()).as_str());
    push_text(&mut first, " denial");
    first
}

fn signatures_text(s: &DnssecStatus) -> (r: String)
    ensures
        r@ == signatures_line(*s),
{
    let mut sig = String::from_str("Signatures: ");
    push_text(&mut sig, i64_text(s.signatures).as_str());
    if s.expired_signatures != 0 {
        push_text(&mut sig, " (");
        push_text(&mut sig, i64_text(s.expired_signatures).as_str());
        push_text(&mut sig, " EXPIRED)");
    }
    sig
}

fn push_parent_parts(out: &mut Vec<String>, s: &DnssecStatus)
    ensures
        views(final(out)@) == views(old(out)@) + withdrawal_part(*s) + parent_part(*s)
            + delegation_part(*s),
{
    if s.withdrawing {
        push_line(
            out,
            String::from_str(
                "DS withdrawal published (RFC 8078): the parent should drop this zone's DS records.",
            ),
        );
    }
    let ghost b = views(out@);
    assert(b =~= views(old(out)@) + withdrawal_part(*s));
    if let Some(addrs) = &s.parent_ns_addrs {
        let mut line = String::from_str("Parent nameservers: ");
        push_text(&mut line, addrs.as_str());
        push_line(out, line);
    }
    let ghost c = views(out@);
    assert(c =~= b + parent_part(*s));
    if let Some(d) = &s.delegation {
        push_delegation(out, d);
    }
    assert(views(out@) =~= c + delegation_part(*s));
}

fn head_lines(s: &DnssecStatus, p: &DnssecPolicy) -> (r: Vec<String>)
    ensures
        views(r@) == enabled_head(*s, *p),
{
    let mut r: Vec<String> = Vec::new();
    push_line(&mut r, enabled_text(s, p));
    assert(views(r@) =~= seq![enabled_line(*s, *p)]);
    push_parent_parts(&mut r, s);
    push_instant(&mut r, "Earliest signature expiry: ", &s.earliest_signature_expires_at);
    push_instant(&mut r, "Next re-signing: ", &s.next_resign_at);
    push_line(&mut r, signatures_text(s));
    let ghost before = views(r@).drop_last();
    assert(views(r@) =~= before + seq![signatures_line(*s)]);
    r
}

fn push_item(items: &mut Vec<StatusItem>, item: StatusItem, Ghost(pieces): Ghost<Seq<StatusPiece>>, Ghost(piece): Ghost<StatusPiece>)
    requires
        items_show(old(items)@, pieces),
        item_shows(item, piece),
    ensures
        items_show(final(items)@, pieces.push(piece)),
{
    items.push(item);
    assert forall|i: int| 0 <= i < items@.len() implies item_shows(
        #[trigger] items@[i],
        pieces.push(piece)[i],
    ) by {
        if i < old(items)@.len() {
            assert(items@[i] == old(items)@[i]);
        }
    }
}

fn push_lines(items: &mut Vec<StatusItem>, lines: Vec<String>, Ghost(pieces): Ghost<Seq<StatusPiece>>)
    requires
        items_show(old(items)@, pieces),
    ensures
        items_show(final(items)@, pieces + texts(views(lines@))),
{
    let ghost want = texts(views(lines@));
    let mut lines = lines;
    let ghost all = lines@;
    let mut taken: Vec<String> = Vec::new();
    let mut i: usize = 0;
    let n = lines.len();
    while i < n
        invariant
            n == all.len(),
            i <= n,
            want == texts(views(all)),
            lines@ == all.skip(i as int),
            items_show(items@, pieces + want.take(i as int)),
        decreases n - i,
    {
        let line = lines.remove(0);
        assert(line == all[i as int]);
        push_item(items, StatusItem::Line(line), Ghost(pieces + want.take(i as int)), Ghost(want[i as int]));
        assert(pieces + want.take(i as int) + seq![want[i as int]] =~= pieces + want.take(i + 1));
        assert((pieces + want.take(i as int)).push(want[i as int]) =~= pieces + want.take(i + 1));
        assert(lines@ =~= all.skip(i + 1));
        i = i + 1;
    }
    assert(want.take(n as int) =~= want);
}

fn key_rows(keys: &Vec<DnssecKeyInfo>) -> (r: Vec<DnssecKeyRow>)
    ensures
        r@.len() == keys@.len(),
        forall|j: int| 0 <= j < keys@.len() ==> key_row_matches(#[trigger] r@[j], keys@[j]),
{
    let mut r: Vec<DnssecKeyRow> = Vec::new();
    let mut i: usize = 0;
    while i < keys.len()
        invariant
            i <= keys@.len(),
            r@.len() == i,
            forall|j: int| 0 <= j < i ==> key_row_matches(#[trigger] r@[j], keys@[j]),
        decreases keys.len() - i,
    {
        r.push(DnssecKeyRow::from_key(&keys[i]));
        i = i + 1;
    }
    r
}

fn ds_text(s: &DnssecStatus) -> (r: Vec<String>)
    ensures
        views(r@) == ds_lines(*s),
{
    let mut r: Vec<String> = Vec::new();
    if s.ds_records.len() == 0 {
        assert(views(r@) =~= ds_lines(*s));
        return r;
    }
    push_line(&mut r, String::from_str("DS records (register in the parent zone):"));
    let ghost shown = views(s.ds_records@).map_values(|l: Seq<char>| "  "@ + l);
    let mut i: usize = 0;
    while i < s.ds_records.len()
        invariant
            i <= s.ds_records@.len(),
            shown == views(s.ds_records@).map_values(|l: Seq<char>| "  "@ + l),
            views(r@) == seq!["DS records (register in the parent zone):"@] + shown.take(i as int),
        decreases s.ds_records.len() - i,
    {
        let mut line = String::from_str("  ");
        push_text(&mut line, s.ds_records[i].as_str());
        push_line(&mut r, line);
        assert(shown.take(i + 1) =~= shown.take(i as int).push(shown[i as int]));
        i = i + 1;
    }
    assert(shown.take(s.ds_records@.len() as int) =~= shown);
    r
}

/// The zone's DNSSEC status and key information, as the items to print.
pub fn print_status(s: &DnssecStatus) -> (r: Vec<StatusItem>)
    ensures
        items_show(r@, status_pieces(*s)),
{
    let mut items: Vec<StatusItem> = Vec::new();
    match &s.policy {
        Some(p) if s.enabled => {
            let ghost head = texts(enabled_head(*s, *p));
            push_lines(&mut items, head_lines(s, p), Ghost(Seq::empty()));
            assert(Seq::<StatusPiece>::empty() + head =~= head);
            push_item(&mut items, StatusItem::Line(String::from_str("Policy:")), Ghost(head), Ghost(StatusPiece::Text("Policy:"@)));
            let ghost h1 = head.push(StatusPiece::Text("Policy:"@));
            push_item(&mut items, StatusItem::Policy(DnssecPolicyRow::from_policy(p)), Ghost(h1), Ghost(StatusPiece::PolicyOf(*p)));
            let ghost h2 = h1.push(StatusPiece::PolicyOf(*p));
            push_item(&mut items, StatusItem::Line(String::from_str("Keys:")), Ghost(h2), Ghost(StatusPiece::Text("Keys:"@)));
            let ghost h3 = h2.push(StatusPiece::Text("Keys:"@));
            push_item(&mut items, StatusItem::Keys(key_rows(&s.keys)), Ghost(h3), Ghost(StatusPiece::KeysOf(s.keys@)));
            let ghost h4 = h3.push(StatusPiece::KeysOf(s.keys@));
            push_lines(&mut items, ds_text(s), Ghost(h4));
            assert(h4 + texts(ds_lines(*s)) =~= status_pieces(*s));
        },
        _ => {
            let mut line = String::from_str("Zone ");
            push_text(&mut line, s.zone_name.as_str());
            push_text(&mut line, " (serial ");
            push_text(&mut line, i64_text(s.serial as i64).as_str());
            push_text(&mut line, "): DNSSEC ");
            push_text(&mut line, "disabled");
            push_item(&mut items, StatusItem::Line(line), Ghost(Seq::empty()), Ghost(status_pieces(*s)[0]));
            assert(Seq::<StatusPiece>::empty().push(status_pieces(*s)[0]) =~= status_pieces(*s));
        },
    }
    items
}

/// The DS records alone, to paste into the parent zone: a note first while a
/// withdrawal is published, so they are not registered by mistake.
pub open spec fn ds_record_lines(s: DnssecStatus) -> Seq<Seq<char>> {
    if s.ds_records@.len() == 0 {
        seq!["No DS records found"@]
    } else {
        (if s.withdrawing {
            seq!["# DS withdrawal published: do not register these at the parent."@]
        } else {
            Seq::empty()
        }) + views(s.ds_records@)
    }
}

fn policy_summary_text(p: &DnssecPolicy) -> (r: String)
    ensures
        r@ == policy_summary(*p),
{
    let mut line = String::from_str("Policy: ");
    push_text(&mut line, p.name.as_str());
    push_text(&mut line, " (");
    push_text(&mut line, p.algorithm.as_str());
    push_text(&mut line, ", ");
    if p.split_keys {
        push_text(&mut line, "KSK/ZSK");
    } else {
        push_text(&mut line, "CSK");
    }
    push_text(&mut line, "; validity ");
    push_text(&mut line, i64_text(p.signature_validity_days as i64).as_str());
    push_text(&mut line, "d, refresh ");
    push_text(&mut line, i64_text(p.signature_refresh_days as i64).as_str());
    push_text(&mut line, "d, zsk-lifetime ");
    push_text(&mut line, i64_text(p.zsk_lifetime_days as i64).as_str());
    push_text(&mut line, "d)");
    line
}

fn zone_head_lines(s: &DnssecStatus, p: &DnssecPolicy) -> (r: Vec<String>)
    ensures
        views(r@) == seq![enabled_line(*s, *p), policy_summary(*p)] + withdrawal_part(*s)
            + instant_part("Earliest signature expiry: "@, s.earliest_signature_expires_at),
{
    let mut r: Vec<String> = Vec::new();
    push_line(&mut r, enabled_text(s, p));
    push_line(&mut r, policy_summary_text(p));
    let ghost a = views(r@);
    assert(a =~= seq![enabled_line(*s, *p), policy_summary(*p)]);
    if s.withdrawing {
        push_line(
            &mut r,
            String::from_str(
                "DS withdrawal published (RFC 8078): the parent should drop this zone's DS records.",
            ),
        );
    }
    assert(views(r@) =~= a + withdrawal_part(*s));
    push_instant(&mut r, "Earliest signature expiry: ", &s.earliest_signature_expires_at);
    r
}

/// The zone form of the status report, as the items to print.
pub fn print_zone_status(s: &DnssecStatus) -> (r: Vec<StatusItem>)
    ensures
        items_show(r@, zone_status_pieces(*s)),
{
    let mut items: Vec<StatusItem> = Vec::new();
    match &s.policy {
        Some(p) if s.enabled => {
            let ghost head = texts(
                seq![enabled_line(*s, *p), policy_summary(*p)] + withdrawal_part(*s) + instant_part(
                    "Earliest signature expiry: "@,
                    s.earliest_signature_expires_at,
                ),
            );
            push_lines(&mut items, zone_head_lines(s, p), Ghost(Seq::empty()));
            assert(Seq::<StatusPiece>::empty() + head =~= head);
            push_item(&mut items, StatusItem::Keys(key_rows(&s.keys)), Ghost(head), Ghost(StatusPiece::KeysOf(s.keys@)));
            let ghost h1 = head.push(StatusPiece::KeysOf(s.keys@));
            push_lines(&mut items, ds_text(s), Ghost(h1));
            assert(h1 + texts(ds_lines(*s)) =~= zone_status_pieces(*s));
        },
        _ => {
            let mut line = String::from_str("Zone ");
            push_text(&mut line, s.zone_name.as_str());
            push_text(&mut line, " (serial ");
            push_text(&mut line, i64_text(s.serial as i64).as_str());
            push_text(&mut line, "): DNSSEC ");
            push_text(&mut line, "disabled");
            push_item(&mut items, StatusItem::Line(line), Ghost(Seq::empty()), Ghost(zone_status_pieces(*s)[0]));
            assert(Seq::<StatusPiece>::empty().push(zone_status_pieces(*s)[0]) =~= zone_status_pieces(*s));
        },
    }
    items
}

/// The zone's DS records in presentation form (the lines to print).
pub fn print_ds_records(s: &DnssecStatus) -> (r: Vec<String>)
    ensures
        views(r@) == ds_record_lines(*s),
{
    let mut r: Vec<String> = Vec::new();
    if s.ds_records.len() == 0 {
        push_line(&mut r, String::from_str("No DS records found"));
        assert(views(r@) =~= ds_record_lines(*s));
        return r;
    }
    if s.withdrawing {
        push_line(&mut r, String::from_str("# DS withdrawal published: do not register these at the parent."));
    }
    let ghost start = views(r@);
    let mut i: usize = 0;
    while i < s.ds_records.len()
        invariant
            i <= s.ds_records@.len(),
            views(r@) == start + views(s.ds_records@).take(i as int),
        decreases s.ds_records.len() - i,
    {
        push_line(&mut r, s.ds_records[i].clone());
        assert(views(s.ds_records@).take(i + 1) =~= views(s.ds_records@).take(i as int).push(
            s.ds_records@[i as int]@,
        ));
        i = i + 1;
    }
    assert(views(s.ds_records@).take(s.ds_records@.len() as int) =~= views(s.ds_records@));
    assert(views(r@) =~= ds_record_lines(*s));
    r
}

} // verus!
