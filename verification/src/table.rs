//! Table rows for CLI output, each built from the typed daemon response, so
//! the column set and the cell texts are all this module decides. Rendering
//! the rows into a table is the caller's.

use vstd::prelude::*;
use crate::diff::{concat_all, segments_of, RecordValue};
use crate::text::{int_text, push_int_text};
use crate::time::{rfc3339_of, Timestamp};

verus! {

/// `str::to_uppercase` (full Unicode case mapping).
pub uninterp spec fn uppercase_of(s: Seq<char>) -> Seq<char>;

/// `str::to_uppercase`.
#[verifier::external_body]
pub(crate) fn to_uppercase(s: &str) -> (r: String)
    ensures
        r@ == uppercase_of(s@),
{
    s.to_uppercase()
}

/// The placeholder for an empty cell.
pub open spec fn dash() -> Seq<char> {
    "-"@
}

/// An optional number as a cell: the number, or `-`.
pub open spec fn option_i32_cell(opt: Option<i32>) -> Seq<char> {
    match opt {
        Some(v) => int_text(v as int),
        None => dash(),
    }
}

/// An optional number as a cell: the number, or `-`.
pub fn display_option_i32(opt: &Option<i32>) -> (r: String)
    ensures
        r@ == option_i32_cell(*opt),
{
    match opt {
        Some(val) => crate::text::i64_text(*val as i64),
        None => String::from_str("-"),
    }
}

/// A flag as `yes` or `no`.
pub fn yes_no(value: bool) -> (r: String)
    ensures
        r@ == (if value {
            "yes"@
        } else {
            "no"@
        }),
{
    if value {
        String::from_str("yes")
    } else {
        String::from_str("no")
    }
}

/// Optional text as a cell: the text, or `-`.
pub fn display_option_text(opt: &Option<String>) -> (r: String)
    ensures
        r@ == (match opt {
            Some(s) => s@,
            None => dash(),
        }),
{
    match opt {
        Some(s) => s.clone(),
        None => String::from_str("-"),
    }
}

/// An optional instant as a cell: RFC 3339 text, or `-`.
pub fn display_option_time(opt: &Option<Timestamp>) -> (r: String)
    ensures
        r@ == (match opt {
            Some(t) => rfc3339_of(t.spec_secs(), t.spec_nanos()),
            None => dash(),
        }),
{
    match opt {
        Some(at) => at.to_rfc3339(),
        None => String::from_str("-"),
    }
}

/// A record value as one table cell; TXT segments concatenate into the
/// string they encode.
pub fn value_text(value: &RecordValue) -> (r: String)
    ensures
        r@ == concat_all(segments_of(*value)),
{
    let mut out = String::new();
    match value {
        RecordValue::Text(s) => {
            out.append(s.as_str());
            assert(concat_all(seq![s@]) == concat_all(seq![s@].drop_last()) + s@);
            assert(seq![s@].drop_last() =~= Seq::<Seq<char>>::empty());
        },
        RecordValue::Segments(ss) => {
            let ghost views = ss@.map_values(|s: String| s@);
            let mut i: usize = 0;
            while i < ss.len()
                invariant
                    i <= ss@.len(),
                    views == ss@.map_values(|s: String| s@),
                    out@ == concat_all(views.take(i as int)),
                decreases ss.len() - i,
            {
                out.append(ss[i].as_str());
                assert(views.take(i + 1).drop_last() == views.take(i as int));
                i = i + 1;
            }
            assert(views.take(ss@.len() as int) == views);
        },
    }
    out
}

// ---------------------------------------------------------------------------
// Records
// ---------------------------------------------------------------------------

/// A record as the daemon lists it.
pub struct RecordInfo {
    pub id: Option<i32>,
    pub name: String,
    pub record_type: String,
    pub value: RecordValue,
    pub ttl: i32,
    pub priority: Option<i32>,
    pub zone_id: i32,
    pub zone_name: String,
}

/// ID, NAME, TYPE, VALUE, TTL, PRIORITY, ZONE-ID, ZONE.
pub struct RecordRow {
    pub id: Option<i32>,
    pub name: String,
    pub record_type: String,
    pub value: String,
    pub ttl: i32,
    pub priority: Option<i32>,
    pub zone_id: i32,
    pub zone_name: String,
}

impl RecordRow {
    /// The row for one record.
    pub fn from_record(record: &RecordInfo) -> (r: RecordRow)
        ensures
            r.id == record.id,
            r.name@ == record.name@,
            r.record_type@ == record.record_type@,
            r.value@ == concat_all(segments_of(record.value)),
            r.ttl == record.ttl,
            r.priority == record.priority,
            r.zone_id == record.zone_id,
            r.zone_name@ == record.zone_name@,
    {
        RecordRow {
            id: record.id,
            name: record.name.clone(),
            record_type: record.record_type.clone(),
            value: value_text(&record.value),
            ttl: record.ttl,
            priority: record.priority,
            zone_id: record.zone_id,
            zone_name: record.zone_name.clone(),
        }
    }
}

// ---------------------------------------------------------------------------
// DNSSEC
// ---------------------------------------------------------------------------

/// A zone signing key.
pub struct DnssecKeyInfo {
    pub id: i32,
    pub role: String,
    pub state: String,
    pub state_changed_at: Timestamp,
    pub eligible_at: Option<Timestamp>,
    pub algorithm: String,
    pub key_tag: i32,
    pub dnskey: String,
    pub created_at: Timestamp,
}

/// ID, ROLE, STATE, STATE-CHANGED-AT, ELIGIBLE-AT, ALGORITHM, KEY-TAG, DNSKEY,
/// CREATED-AT.
pub struct DnssecKeyRow {
    pub id: i32,
    pub role: String,
    pub state: String,
    pub state_changed_at: String,
    pub eligible_at: String,
    pub algorithm: String,
    pub key_tag: i32,
    pub dnskey: String,
    pub created_at: String,
}

/// The row a key is shown as.
pub open spec fn key_row_matches(r: DnssecKeyRow, key: DnssecKeyInfo) -> bool {
    &&& r.id == key.id
    &&& r.role@ == key.role@
    &&& r.state@ == key.state@
    &&& r.state_changed_at@ == rfc3339_of(
        key.state_changed_at.spec_secs(),
        key.state_changed_at.spec_nanos(),
    )
    &&& r.eligible_at@ == (match key.eligible_at {
        Some(t) => rfc3339_of(t.spec_secs(), t.spec_nanos()),
        None => dash(),
    })
    &&& r.algorithm@ == key.algorithm@
    &&& r.key_tag == key.key_tag
    &&& r.dnskey@ == key.dnskey@
    &&& r.created_at@ == rfc3339_of(key.created_at.spec_secs(), key.created_at.spec_nanos())
}

impl DnssecKeyRow {
    /// The row for one key; instants in RFC 3339, an unknown eligibility `-`.
    pub fn from_key(key: &DnssecKeyInfo) -> (r: DnssecKeyRow)
        ensures
            key_row_matches(r, *key),
    {
        DnssecKeyRow {
            id: key.id,
            role: key.role.clone(),
            state: key.state.clone(),
            state_changed_at: key.state_changed_at.to_rfc3339(),
            eligible_at: display_option_time(&key.eligible_at),
            algorithm: key.algorithm.clone(),
            key_tag: key.key_tag,
            dnskey: key.dnskey.clone(),
            created_at: key.created_at.to_rfc3339(),
        }
    }
}

/// A DNSSEC policy: the signing parameters zones sign under.
pub struct DnssecPolicy {
    pub id: i32,
    pub name: String,
    pub algorithm: String,
    pub denial: String,
    pub split_keys: bool,
    pub signature_validity_days: i32,
    pub signature_refresh_days: i32,
    pub zsk_lifetime_days: i32,
    pub rollover_publish_holddown_secs: i64,
    pub rollover_retire_holddown_secs: i64,
    pub created_at: Timestamp,
}

/// ID, NAME, ALGORITHM, DENIAL, KEYS, VALIDITY, REFRESH, ZSK-LIFETIME,
/// PUBLISH-WAIT, RETIRE-WAIT, CREATED-AT.
pub struct DnssecPolicyRow {
    pub id: i32,
    pub name: String,
    pub algorithm: String,
    pub denial: String,
    pub keys: String,
    pub validity: String,
    pub refresh: String,
    pub zsk_lifetime: String,
    pub publish_wait: String,
    pub retire_wait: String,
    pub created_at: String,
}

/// A duration with its unit letter.
pub open spec fn with_unit(n: int, unit: char) -> Seq<char> {
    int_text(n).push(unit)
}

fn unit_text(n: i64, unit: char) -> (r: String)
    ensures
        r@ == with_unit(n as int, unit),
{
    let mut s = String::new();
    push_int_text(&mut s, n);
    crate::text::push_char(&mut s, unit);
    s
}

/// The row a policy is shown as: the denial mode upper-cased, the key
/// layout as `KSK/ZSK` or `CSK`, day and second counts with their unit, and a
/// ZSK lifetime of 0 (never rolled) as `-`.
pub open spec fn policy_row_matches(r: DnssecPolicyRow, policy: DnssecPolicy) -> bool {
    &&& r.id == policy.id
    &&& r.name@ == policy.name@
    &&& r.algorithm@ == policy.algorithm@
    &&& r.denial@ == uppercase_of(policy.denial@)
    &&& r.keys@ == (if policy.split_keys {
        "KSK/ZSK"@
    } else {
        "CSK"@
    })
    &&& r.validity@ == with_unit(policy.signature_validity_days as int, 'd')
    &&& r.refresh@ == with_unit(policy.signature_refresh_days as int, 'd')
    &&& r.zsk_lifetime@ == (if policy.zsk_lifetime_days == 0 {
        dash()
    } else {
        with_unit(policy.zsk_lifetime_days as int, 'd')
    })
    &&& r.publish_wait@ == with_unit(policy.rollover_publish_holddown_secs as int, 's')
    &&& r.retire_wait@ == with_unit(policy.rollover_retire_holddown_secs as int, 's')
    &&& r.created_at@ == rfc3339_of(policy.created_at.spec_secs(), policy.created_at.spec_nanos())
}

impl DnssecPolicyRow {
    /// The row for one policy.
    pub fn from_policy(policy: &DnssecPolicy) -> (r: DnssecPolicyRow)
        ensures
            policy_row_matches(r, *policy),
    {
        DnssecPolicyRow {
            id: policy.id,
            name: policy.name.clone(),
            algorithm: policy.algorithm.clone(),
            denial: to_uppercase(policy.denial.as_str()),
            keys: if policy.split_keys {
                String::from_str("KSK/ZSK")
            } else {
                String::from_str("CSK")
            },
            validity: unit_text(policy.signature_validity_days as i64, 'd'),
            refresh: unit_text(policy.signature_refresh_days as i64, 'd'),
            zsk_lifetime: if policy.zsk_lifetime_days == 0 {
                String::from_str("-")
            } else {
                unit_text(policy.zsk_lifetime_days as i64, 'd')
            },
            publish_wait: unit_text(policy.rollover_publish_holddown_secs, 's'),
            retire_wait: unit_text(policy.rollover_retire_holddown_secs, 's'),
            created_at: policy.created_at.to_rfc3339(),
        }
    }
}

// ---------------------------------------------------------------------------
// Secondaries
// ---------------------------------------------------------------------------

/// How far one secondary has caught up with a zone.
pub struct SecondaryStatus {
    pub address: String,
    /// `in_sync`, `behind`, `unreachable`, ...
    pub status: String,
    pub visible_serial: Option<i64>,
    pub error: Option<String>,
}

/// A zone's serial and the state of each secondary serving it.
pub struct ZoneStatus {
    pub zone: String,
    pub serial: i32,
    pub secondaries: Vec<SecondaryStatus>,
}

/// ADDRESS, STATUS, VISIBLE-SERIAL, LAG.
pub struct SecondaryStatusRow {
    pub address: String,
    pub status: String,
    pub visible_serial: String,
    pub lag: String,
}

/// The status cell: an unreachable secondary carries the reason.
pub open spec fn status_cell(s: SecondaryStatus) -> Seq<char> {
    match s.error {
        Some(e) => if s.status@ == "unreachable"@ {
            s.status@ + " ("@ + e@ + ")"@
        } else {
            s.status@
        },
        None => s.status@,
    }
}

/// The lag cell: how many serials the secondary is behind the zone, or `-`
/// when it shows none.
pub open spec fn lag_cell(s: SecondaryStatus, zone_serial: i32) -> Seq<char> {
    match s.visible_serial {
        Some(v) => int_text(zone_serial - v),
        None => dash(),
    }
}

/// Whether the lag of a secondary can be computed in 64 bits.
pub open spec fn lag_fits(s: SecondaryStatus, zone_serial: i32) -> bool {
    s.visible_serial matches Some(v) ==> i64::MIN <= zone_serial - v <= i64::MAX
}

pub open spec fn row_matches(r: SecondaryStatusRow, s: SecondaryStatus, zone_serial: i32) -> bool {
    &&& r.address@ == s.address@
    &&& r.status@ == status_cell(s)
    &&& r.visible_serial@ == (match s.visible_serial {
        Some(v) => int_text(v as int),
        None => dash(),
    })
    &&& r.lag@ == lag_cell(s, zone_serial)
}

impl SecondaryStatusRow {
    /// The row for one secondary, with its lag behind the zone serial its
    /// status was classified against.
    pub fn from_secondary(secondary: &SecondaryStatus, zone_serial: i32) -> (r: SecondaryStatusRow)
        requires
            lag_fits(*secondary, zone_serial),
        ensures
            row_matches(r, *secondary, zone_serial),
    {
        let unreachable = crate::text::str_equal(secondary.status.as_str(), "unreachable");
        let status = match &secondary.error {
            Some(error) => {
                if unreachable {
                    let mut s = secondary.status.clone();
                    s.append(" (");
                    s.append(error.as_str());
                    s.append(")");
                    s
                } else {
                    secondary.status.clone()
                }
            },
            None => secondary.status.clone(),
        };
        let (visible_serial, lag) = match secondary.visible_serial {
            Some(serial) => (
                crate::text::i64_text(serial),
                crate::text::i64_text(zone_serial as i64 - serial),
            ),
            None => (String::from_str("-"), String::from_str("-")),
        };
        SecondaryStatusRow { address: secondary.address.clone(), status, visible_serial, lag }
    }

    /// One row per secondary, in order.
    pub fn rows_from_status(status: &ZoneStatus) -> (r: Vec<SecondaryStatusRow>)
        requires
            forall|i: int|
                0 <= i < status.secondaries@.len() ==> lag_fits(
                    #[trigger] status.secondaries@[i],
                    status.serial,
                ),
        ensures
            r@.len() == status.secondaries@.len(),
            forall|i: int|
                0 <= i < r@.len() ==> row_matches(
                    #[trigger] r@[i],
                    status.secondaries@[i],
                    status.serial,
                ),
    {
        let mut r: Vec<SecondaryStatusRow> = Vec::new();
        let mut i: usize = 0;
        while i < status.secondaries.len()
            invariant
                i <= status.secondaries@.len(),
                r@.len() == i,
                forall|j: int|
                    0 <= j < status.secondaries@.len() ==> lag_fits(
                        #[trigger] status.secondaries@[j],
                        status.serial,
                    ),
                forall|j: int|
                    0 <= j < i ==> row_matches(
                        #[trigger] r@[j],
                        status.secondaries@[j],
                        status.serial,
                    ),
            decreases status.secondaries.len() - i,
        {
            let row = Self::from_secondary(&status.secondaries[i], status.serial);
            r.push(row);
            i = i + 1;
        }
        r
    }
}

// ---------------------------------------------------------------------------
// Tokens and TSIG keys
// ---------------------------------------------------------------------------

/// An API token (its secret is never listed).
pub struct TokenInfo {
    pub id: i32,
    pub name: String,
    pub global: bool,
    pub description: Option<String>,
    pub created_at: Timestamp,
    pub expires_at: Option<Timestamp>,
    pub last_used_at: Option<Timestamp>,
}

/// ID, NAME, TOKEN, GLOBAL, DESCRIPTION, CREATED-AT, EXPIRES-AT, LAST-USED-AT.
/// TOKEN is filled only from a create response, the one time the secret is
/// shown.
pub struct TokenRow {
    pub id: i32,
    pub name: String,
    pub token: String,
    pub global: String,
    pub description: String,
    pub created_at: String,
    pub expires_at: String,
    pub last_used_at: String,
}

pub open spec fn yes_no_text(b: bool) -> Seq<char> {
    if b {
        "yes"@
    } else {
        "no"@
    }
}

pub open spec fn token_row_matches(r: TokenRow, t: TokenInfo, secret: Option<Seq<char>>) -> bool {
    &&& r.id == t.id
    &&& r.name@ == t.name@
    &&& r.token@ == (match secret {
        Some(s) => s,
        None => dash(),
    })
    &&& r.global@ == yes_no_text(t.global)
    &&& r.description@ == (match t.description {
        Some(d) => d@,
        None => dash(),
    })
    &&& r.created_at@ == rfc3339_of(t.created_at.spec_secs(), t.created_at.spec_nanos())
    &&& r.expires_at@ == (match t.expires_at {
        Some(e) => rfc3339_of(e.spec_secs(), e.spec_nanos()),
        None => "Never"@,
    })
    &&& r.last_used_at@ == (match t.last_used_at {
        Some(l) => rfc3339_of(l.spec_secs(), l.spec_nanos()),
        None => dash(),
    })
}

impl TokenRow {
    /// The row for a listed token: no secret, `Never` for a token that does
    /// not expire.
    pub fn from_token(token: &TokenInfo) -> (r: TokenRow)
        ensures
            token_row_matches(r, *token, None),
    {
        TokenRow {
            id: token.id,
            name: token.name.clone(),
            token: display_option_text(&None),
            global: yes_no(token.global),
            description: display_option_text(&token.description),
            created_at: token.created_at.to_rfc3339(),
            expires_at: match &token.expires_at {
                Some(at) => at.to_rfc3339(),
                None => String::from_str("Never"),
            },
            last_used_at: display_option_time(&token.last_used_at),
        }
    }

    /// The row for a token just created, showing its secret.
    pub fn from_created(token: &TokenInfo, secret: &String) -> (r: TokenRow)
        ensures
            token_row_matches(r, *token, Some(secret@)),
    {
        let row = Self::from_token(token);
        TokenRow { token: secret.clone(), ..row }
    }
}

/// A TSIG key (its secret is only in create and get responses).
pub struct TsigKeyInfo {
    pub id: i32,
    pub name: String,
    pub algorithm: String,
    pub global: bool,
    pub created_at: Timestamp,
}

/// ID, NAME, ALGORITHM, SECRET, GLOBAL, CREATED-AT.
pub struct TsigKeyRow {
    pub id: i32,
    pub name: String,
    pub algorithm: String,
    pub secret: String,
    pub global: String,
    pub created_at: String,
}

pub open spec fn tsig_row_matches(r: TsigKeyRow, k: TsigKeyInfo, secret: Option<Seq<char>>) -> bool {
    &&& r.id == k.id
    &&& r.name@ == k.name@
    &&& r.algorithm@ == k.algorithm@
    &&& r.secret@ == (match secret {
        Some(s) => s,
        None => dash(),
    })
    &&& r.global@ == yes_no_text(k.global)
    &&& r.created_at@ == rfc3339_of(k.created_at.spec_secs(), k.created_at.spec_nanos())
}

impl TsigKeyRow {
    /// The row for a listed key: no secret.
    pub fn from_key(key: &TsigKeyInfo) -> (r: TsigKeyRow)
        ensures
            tsig_row_matches(r, *key, None),
    {
        TsigKeyRow {
            id: key.id,
            name: key.name.clone(),
            algorithm: key.algorithm.clone(),
            secret: display_option_text(&None),
            global: yes_no(key.global),
            created_at: key.created_at.to_rfc3339(),
        }
    }

    /// The row for a key fetched or created with its secret.
    pub fn from_key_with_secret(key: &TsigKeyInfo, secret: &String) -> (r: TsigKeyRow)
        ensures
            tsig_row_matches(r, *key, Some(secret@)),
    {
        let row = Self::from_key(key);
        TsigKeyRow { secret: secret.clone(), ..row }
    }
}

// ---------------------------------------------------------------------------
// Zones and their versions
// ---------------------------------------------------------------------------

/// A zone as the daemon lists it.
pub struct ZoneInfo {
    pub id: i32,
    pub name: String,
    pub mname: String,
    pub rname: String,
    pub default_ttl: i32,
    pub serial: i32,
    pub refresh: i32,
    pub retry: i32,
    pub expire: i32,
    pub minimum_ttl: i32,
}

/// ID, NAME, MNAME, RNAME, DEFAULT-TTL, SERIAL, REFRESH, RETRY, EXPIRE,
/// MINIMUM-TTL.
pub struct ZoneRow {
    pub id: i32,
    pub name: String,
    pub mname: String,
    pub rname: String,
    pub default_ttl: i32,
    pub serial: i32,
    pub refresh: i32,
    pub retry: i32,
    pub expire: i32,
    pub minimum_ttl: i32,
}

impl ZoneRow {
    /// The row for one zone: its SOA fields as they are.
    pub fn from_zone(zone: &ZoneInfo) -> (r: ZoneRow)
        ensures
            r.id == zone.id,
            r.name@ == zone.name@,
            r.mname@ == zone.mname@,
            r.rname@ == zone.rname@,
            r.default_ttl == zone.default_ttl,
            r.serial == zone.serial,
            r.refresh == zone.refresh,
            r.retry == zone.retry,
            r.expire == zone.expire,
            r.minimum_ttl == zone.minimum_ttl,
    {
        ZoneRow {
            id: zone.id,
            name: zone.name.clone(),
            mname: zone.mname.clone(),
            rname: zone.rname.clone(),
            default_ttl: zone.default_ttl,
            serial: zone.serial,
            refresh: zone.refresh,
            retry: zone.retry,
            expire: zone.expire,
            minimum_ttl: zone.minimum_ttl,
        }
    }
}

/// One recorded version of a zone's SOA.
pub struct ZoneVersion {
    pub serial: i32,
    pub mname: String,
    pub rname: String,
    pub default_ttl: i32,
    pub refresh: i32,
    pub retry: i32,
    pub expire: i32,
    pub minimum_ttl: i32,
    pub created_at: Timestamp,
}

/// SERIAL, MNAME, RNAME, DEFAULT-TTL, REFRESH, RETRY, EXPIRE, MINIMUM-TTL,
/// CREATED-AT.
pub struct VersionRow {
    pub serial: i32,
    pub mname: String,
    pub rname: String,
    pub default_ttl: i32,
    pub refresh: i32,
    pub retry: i32,
    pub expire: i32,
    pub minimum_ttl: i32,
    pub created_at: String,
}

impl VersionRow {
    /// The row for one version; its creation time in RFC 3339.
    pub fn from_version(version: &ZoneVersion) -> (r: VersionRow)
        ensures
            r.serial == version.serial,
            r.mname@ == version.mname@,
            r.rname@ == version.rname@,
            r.default_ttl == version.default_ttl,
            r.refresh == version.refresh,
            r.retry == version.retry,
            r.expire == version.expire,
            r.minimum_ttl == version.minimum_ttl,
            r.created_at@ == rfc3339_of(
                version.created_at.spec_secs(),
                version.created_at.spec_nanos(),
            ),
    {
        VersionRow {
            serial: version.serial,
            mname: version.mname.clone(),
            rname: version.rname.clone(),
            default_ttl: version.default_ttl,
            refresh: version.refresh,
            retry: version.retry,
            expire: version.expire,
            minimum_ttl: version.minimum_ttl,
            created_at: version.created_at.to_rfc3339(),
        }
    }
}

/// A record as a version holds it (no database id).
pub struct VersionRecord {
    pub name: String,
    pub record_type: String,
    pub value: RecordValue,
    pub ttl: i32,
    pub priority: Option<i32>,
}

/// NAME, TYPE, VALUE, TTL, PRIORITY.
pub struct VersionRecordRow {
    pub name: String,
    pub record_type: String,
    pub value: String,
    pub ttl: i32,
    pub priority: Option<i32>,
}

impl VersionRecordRow {
    /// The row for a record reconstructed at a version serial.
    pub fn from_record(record: &VersionRecord) -> (r: VersionRecordRow)
        ensures
            r.name@ == record.name@,
            r.record_type@ == record.record_type@,
            r.value@ == concat_all(segments_of(record.value)),
            r.ttl == record.ttl,
            r.priority == record.priority,
    {
        VersionRecordRow {
            name: record.name.clone(),
            record_type: record.record_type.clone(),
            value: value_text(&record.value),
            ttl: record.ttl,
            priority: record.priority,
        }
    }
}

/// What a rollback changed, or would change.
pub struct RollbackResult {
    pub target_serial: i32,
    pub new_serial: i32,
    pub applied: bool,
    pub dry_run: bool,
    pub records_added: usize,
    pub records_deleted: usize,
    pub records_unchanged: usize,
    pub soa_changed: bool,
}

/// TARGET-SERIAL, NEW-SERIAL, APPLIED, DRY-RUN, ADDED, DELETED, UNCHANGED,
/// SOA-CHANGED.
pub struct RollbackSummaryRow {
    pub target_serial: i32,
    pub new_serial: i32,
    pub applied: bool,
    pub dry_run: bool,
    pub records_added: usize,
    pub records_deleted: usize,
    pub records_unchanged: usize,
    pub soa_changed: bool,
}

impl RollbackSummaryRow {
    /// The summary row of a rollback.
    pub fn from_rollback(response: &RollbackResult) -> (r: RollbackSummaryRow)
        ensures
            r.target_serial == response.target_serial,
            r.new_serial == response.new_serial,
            r.applied == response.applied,
            r.dry_run == response.dry_run,
            r.records_added == response.records_added,
            r.records_deleted == response.records_deleted,
            r.records_unchanged == response.records_unchanged,
            r.soa_changed == response.soa_changed,
    {
        RollbackSummaryRow {
            target_serial: response.target_serial,
            new_serial: response.new_serial,
            applied: response.applied,
            dry_run: response.dry_run,
            records_added: response.records_added,
            records_deleted: response.records_deleted,
            records_unchanged: response.records_unchanged,
            soa_changed: response.soa_changed,
        }
    }
}

/// The counts of a zone import.
pub struct ImportSummary {
    pub parsed: usize,
    pub added: usize,
    pub deleted: usize,
    pub updated: usize,
    pub unchanged: usize,
    pub skipped: usize,
}

/// PARSED, ADDED, DELETED, UPDATED, UNCHANGED, SKIPPED.
pub struct ImportSummaryRow {
    pub parsed: usize,
    pub added: usize,
    pub deleted: usize,
    pub updated: usize,
    pub unchanged: usize,
    pub skipped: usize,
}

impl ImportSummaryRow {
    /// The summary row of an import.
    pub fn from_summary(summary: &ImportSummary) -> (r: ImportSummaryRow)
        ensures
            r.parsed == summary.parsed,
            r.added == summary.added,
            r.deleted == summary.deleted,
            r.updated == summary.updated,
            r.unchanged == summary.unchanged,
            r.skipped == summary.skipped,
    {
        ImportSummaryRow {
            parsed: summary.parsed,
            added: summary.added,
            deleted: summary.deleted,
            updated: summary.updated,
            unchanged: summary.unchanged,
            skipped: summary.skipped,
        }
    }
}

// ---------------------------------------------------------------------------
// Grants
// ---------------------------------------------------------------------------

/// A grant letting a token, or a TSIG key, change matching records of a zone.
pub struct GrantInfo {
    pub id: i32,
    /// The token's or the TSIG key's name.
    pub holder: String,
    pub zone_name: String,
    pub record_name_pattern: String,
    pub record_types: String,
    pub created_at: Timestamp,
}

/// ID, TOKEN, ZONE, NAME-PATTERN, RECORD-TYPES, CREATED-AT.
pub struct TokenGrantRow {
    pub id: i32,
    pub api_token: String,
    pub zone_name: String,
    pub record_name_pattern: String,
    pub record_types: String,
    pub created_at: String,
}

impl TokenGrantRow {
    /// The row for one token grant; its creation time in RFC 3339.
    pub fn from_grant(grant: &GrantInfo) -> (r: TokenGrantRow)
        ensures
            r.id == grant.id,
            r.api_token@ == grant.holder@,
            r.zone_name@ == grant.zone_name@,
            r.record_name_pattern@ == grant.record_name_pattern@,
            r.record_types@ == grant.record_types@,
            r.created_at@ == rfc3339_of(grant.created_at.spec_secs(), grant.created_at.spec_nanos()),
    {
        TokenGrantRow {
            id: grant.id,
            api_token: grant.holder.clone(),
            zone_name: grant.zone_name.clone(),
            record_name_pattern: grant.record_name_pattern.clone(),
            record_types: grant.record_types.clone(),
            created_at: grant.created_at.to_rfc3339(),
        }
    }
}

/// ID, TSIG-KEY, ZONE, NAME-PATTERN, RECORD-TYPES, CREATED-AT.
pub struct TsigGrantRow {
    pub id: i32,
    pub tsig_key: String,
    pub zone_name: String,
    pub record_name_pattern: String,
    pub record_types: String,
    pub created_at: String,
}

impl TsigGrantRow {
    /// The row for one TSIG grant; its creation time in RFC 3339.
    pub fn from_grant(grant: &GrantInfo) -> (r: TsigGrantRow)
        ensures
            r.id == grant.id,
            r.tsig_key@ == grant.holder@,
            r.zone_name@ == grant.zone_name@,
            r.record_name_pattern@ == grant.record_name_pattern@,
            r.record_types@ == grant.record_types@,
            r.created_at@ == rfc3339_of(grant.created_at.spec_secs(), grant.created_at.spec_nanos()),
    {
        TsigGrantRow {
            id: grant.id,
            tsig_key: grant.holder.clone(),
            zone_name: grant.zone_name.clone(),
            record_name_pattern: grant.record_name_pattern.clone(),
            record_types: grant.record_types.clone(),
            created_at: grant.created_at.to_rfc3339(),
        }
    }
}

} // verus!
