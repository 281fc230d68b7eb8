//! What the CLI commands decide before or after they talk to the daemon: the
//! record value a `--value` list stands for, the import mode's wire name,
//! which lookup a filtered listing turns into, the lines of the configuration
//! listing and the dotted keys that name its values, where a bulk file keeps
//! its records, and the warning a global TSIG key gets.

use vstd::prelude::*;
use crate::color::{cyan, cyan_text, yellow, yellow_text};
use crate::diff::RecordValue;
use crate::text::{chars_of, pad_right, push_padded_right};

verus! {

/// The value a list of `--value` arguments stands for: one value is a plain
/// string; several (or none) are the character-string segments, in order.
pub fn to_record_value_request(values: Vec<String>) -> (r: RecordValue)
    ensures
        values@.len() == 1 ==> (r matches RecordValue::Text(s) && s == values@[0]),
        values@.len() != 1 ==> (r matches RecordValue::Segments(ss) && ss@ == values@),
{
    let mut values = values;
    if values.len() == 1 {
        RecordValue::Text(values.remove(0))
    } else {
        RecordValue::Segments(values)
    }
}

/// How `zone import` reconciles parsed records with the records already in
/// the zone.
#[derive(Clone, Copy, Debug, PartialEq, Eq, Structural)]
pub enum ImportMode {
    /// Add parsed records; records already present are left untouched.
    Append,
    /// Replace the records of every name and type that appears in the file.
    Upsert,
    /// Replace all non-protected records in the zone.
    Replace,
}

pub open spec fn import_mode_name(mode: ImportMode) -> Seq<char> {
    match mode {
        ImportMode::Append => "append"@,
        ImportMode::Upsert => "upsert"@,
        ImportMode::Replace => "replace"@,
    }
}

impl ImportMode {
    /// The mode's lowercase wire name.
    pub fn as_str(self) -> (r: &'static str)
        ensures
            r@ == import_mode_name(self),
    {
        match self {
            ImportMode::Append => "append",
            ImportMode::Upsert => "upsert",
            ImportMode::Replace => "replace",
        }
    }
}

/// Distinct modes have distinct wire names, so the daemon reads back the mode
/// the user chose.
pub proof fn lemma_import_mode_names_distinct(a: ImportMode, b: ImportMode)
    ensures
        import_mode_name(a) == import_mode_name(b) ==> a == b,
{
    reveal_strlit("append");
    reveal_strlit("upsert");
    reveal_strlit("replace");
    if a != b {
        assert(import_mode_name(a)[0] != import_mode_name(b)[0] || import_mode_name(a).len()
            != import_mode_name(b).len() || import_mode_name(a)[1] != import_mode_name(b)[1]);
    }
}

/// The daemon command a `get zones` request turns into.
#[derive(Clone, Copy, Debug, PartialEq, Eq, Structural)]
pub enum ZoneLookup {
    /// One zone by its name.
    GetZone,
    /// A listing, filtered when the request carries filters.
    ListZones,
}

/// A name with no other filter is a single-zone lookup; anything else is a
/// listing.
pub fn zone_lookup(has_name: bool, has_other_filters: bool) -> (r: ZoneLookup)
    ensures
        r == (if has_name && !has_other_filters {
            ZoneLookup::GetZone
        } else {
            ZoneLookup::ListZones
        }),
{
    if has_name && !has_other_filters {
        ZoneLookup::GetZone
    } else {
        ZoneLookup::ListZones
    }
}

// ---------------------------------------------------------------------------
// Configuration listing
// ---------------------------------------------------------------------------

/// A section heading: the name in brackets, in cyan.
pub open spec fn section_line(color: bool, name: Seq<char>) -> Seq<char> {
    cyan_text(color, "["@ + name + "]"@)
}

/// One key and its value: the key left-aligned in 24 columns, in yellow.
pub open spec fn value_line(color: bool, key: Seq<char>, value: Seq<char>) -> Seq<char> {
    "  "@ + yellow_text(color, pad_right(key, 24)) + " = "@ + value
}

/// Print a configuration section heading (the line to print).
pub fn print_section(color: bool, name: &str) -> (r: String)
    ensures
        r@ == section_line(color, name@),
{
    let mut heading = String::from_str("[");
    heading.append(name);
    heading.append("]");
    cyan(color, heading.as_str())
}

/// Print one configuration key and its value (the line to print).
pub fn print_value(color: bool, key: &str, value: &str) -> (r: String)
    ensures
        r@ == value_line(color, key@, value@),
{
    let key_chars = chars_of(key);
    let mut padded = String::new();
    push_padded_right(&mut padded, &key_chars, 24);
    let mut line = String::from_str("  ");
    line.append(yellow(color, padded.as_str()).as_str());
    line.append(" = ");
    line.append(value);
    line
}

/// A value the configuration may leave out, shown as unset rather than absent
/// so the list says what the daemon actually holds (the line to print).
pub fn print_optional(color: bool, key: &str, value: Option<&str>) -> (r: String)
    ensures
        r@ == value_line(
            color,
            key@,
            match value {
                Some(v) => v@,
                None => "(unset)"@,
            },
        ),
{
    match value {
        Some(v) => print_value(color, key, v),
        None => print_value(color, key, "(unset)"),
    }
}

/// The parts of a dotted configuration key (`api.listen_port`), in order;
/// empty parts are kept, as `split('.')` keeps them.
pub open spec fn key_parts(key: Seq<char>) -> Seq<Seq<char>>
    decreases key.len(),
{
    if key.len() == 0 {
        seq![Seq::empty()]
    } else {
        let rest = key_parts(key.drop_last());
        if key.last() == '.' {
            rest.push(Seq::empty())
        } else {
            rest.update(rest.len() - 1, rest.last().push(key.last()))
        }
    }
}

proof fn lemma_key_parts_nonempty(key: Seq<char>)
    ensures
        key_parts(key).len() >= 1,
    decreases key.len(),
{
    if key.len() > 0 {
        lemma_key_parts_nonempty(key.drop_last());
    }
}

/// Split a dotted configuration key on `.`.
pub fn split_key(key: &str) -> (r: Vec<String>)
    ensures
        r@.map_values(|s: String| s@) == key_parts(key@),
{
    let v = chars_of(key);
    let mut parts: Vec<Vec<char>> = Vec::new();
    parts.push(Vec::new());
    let mut i: usize = 0;
    while i < v.len()
        invariant
            i <= v@.len(),
            v@ == key@,
            parts@.len() >= 1,
            parts@.map_values(|p: Vec<char>| p@) == key_parts(v@.take(i as int)),
        decreases v.len() - i,
    {
        proof {
            lemma_key_parts_nonempty(v@.take(i as int));
            assert(v@.take(i + 1).drop_last() == v@.take(i as int));
            assert(v@.take(i + 1).last() == v@[i as int]);
        }
        let ghost before = parts@.map_values(|p: Vec<char>| p@);
        if v[i] == '.' {
            parts.push(Vec::new());
            assert(parts@.map_values(|p: Vec<char>| p@) =~= before.push(Seq::empty()));
        } else {
            let last = parts.len() - 1;
            let mut tail = parts.pop().unwrap();
            tail.push(v[i]);
            parts.push(tail);
            assert(parts@.map_values(|p: Vec<char>| p@) =~= before.update(
                last as int,
                before[last as int].push(v[i as int]),
            ));
        }
        i = i + 1;
    }
    assert(v@.take(v@.len() as int) == v@);
    let mut r: Vec<String> = Vec::new();
    let mut k: usize = 0;
    while k < parts.len()
        invariant
            k <= parts@.len(),
            r@.len() == k,
            r@.map_values(|s: String| s@) == parts@.map_values(|p: Vec<char>| p@).take(k as int),
        decreases parts.len() - k,
    {
        let ghost before = r@;
        r.push(crate::text::string_of(&parts[k]));
        proof {
            let mapped = r@.map_values(|s: String| s@);
            let want = parts@.map_values(|p: Vec<char>| p@).take(k + 1);
            assert forall|j: int| 0 <= j < mapped.len() implies mapped[j] == want[j] by {
                if j < k {
                    assert(r@[j] == before[j]);
                    assert(before.map_values(|s: String| s@)[j] == mapped[j]);
                }
            }
            assert(mapped =~= want);
        }
        k = k + 1;
    }
    assert(parts@.map_values(|p: Vec<char>| p@).take(parts@.len() as int) == parts@.map_values(
        |p: Vec<char>| p@,
    ));
    r
}

/// The parts joined back with `.`.
pub open spec fn dot_joined(parts: Seq<Seq<char>>) -> Seq<char>
    decreases parts.len(),
{
    if parts.len() == 0 {
        Seq::empty()
    } else if parts.len() == 1 {
        parts[0]
    } else {
        dot_joined(parts.drop_last()) + seq!['.'] + parts.last()
    }
}

proof fn lemma_dot_joined_extend_last(parts: Seq<Seq<char>>, c: char)
    requires
        parts.len() >= 1,
    ensures
        dot_joined(parts.update(parts.len() - 1, parts.last().push(c))) == dot_joined(parts).push(c),
{
    let n = parts.len();
    let updated = parts.update(n - 1, parts.last().push(c));
    if n > 1 {
        assert(updated.drop_last() =~= parts.drop_last());
        assert(dot_joined(parts.drop_last()) + seq!['.'] + parts.last().push(c) =~= (dot_joined(
            parts.drop_last(),
        ) + seq!['.'] + parts.last()).push(c));
    }
}

/// Splitting a key loses nothing: its parts joined back with `.` are the key.
pub proof fn lemma_key_parts_rejoin(key: Seq<char>)
    ensures
        dot_joined(key_parts(key)) == key,
    decreases key.len(),
{
    if key.len() == 0 {
        assert(dot_joined(key_parts(key)) =~= key);
    } else {
        let prefix = key.drop_last();
        lemma_key_parts_rejoin(prefix);
        lemma_key_parts_nonempty(prefix);
        let rest = key_parts(prefix);
        if key.last() == '.' {
            assert(rest.push(Seq::<char>::empty()).drop_last() =~= rest);
            assert(dot_joined(rest) + seq!['.'] + Seq::<char>::empty() =~= key);
        } else {
            lemma_dot_joined_extend_last(rest, key.last());
            assert(prefix.push(key.last()) =~= key);
        }
    }
}

// ---------------------------------------------------------------------------
// Record and key commands
// ---------------------------------------------------------------------------

/// The top-level shape of a bulk-create input file, once parsed (YAML is a
/// superset of JSON, so one parse reads both).
#[derive(Clone, Copy, Debug, PartialEq, Eq, Structural)]
pub enum BulkShape {
    /// An array, taken as the records.
    Array,
    /// An object with a `records` member.
    ObjectWithRecords,
    /// An object without one.
    ObjectWithoutRecords,
    /// Anything else.
    Other,
}

/// Where the records of a bulk-create file are.
#[derive(Clone, Copy, Debug, PartialEq, Eq, Structural)]
pub enum BulkSource {
    /// The whole document.
    Document,
    /// The document's `records` member.
    RecordsMember,
}

/// Find the records of a bulk-create file, or say what shape it should have.
pub fn bulk_records(shape: BulkShape) -> (r: Result<BulkSource, String>)
    ensures
        shape == BulkShape::Array ==> r == Ok::<BulkSource, String>(BulkSource::Document),
        shape == BulkShape::ObjectWithRecords ==> r == Ok::<BulkSource, String>(
            BulkSource::RecordsMember,
        ),
        shape == BulkShape::ObjectWithoutRecords ==> (r matches Err(m) && m@
            == "Input object must contain a 'records' array"@),
        shape == BulkShape::Other ==> (r matches Err(m) && m@
            == "Expected an array of records or an object with a 'records' array"@),
{
    match shape {
        BulkShape::Array => Ok(BulkSource::Document),
        BulkShape::ObjectWithRecords => Ok(BulkSource::RecordsMember),
        BulkShape::ObjectWithoutRecords => Err(
            String::from_str("Input object must contain a 'records' array"),
        ),
        BulkShape::Other => Err(
            String::from_str("Expected an array of records or an object with a 'records' array"),
        ),
    }
}

/// The warning for a newly created global TSIG key, which can update every
/// zone without a grant (printed to stderr, so `--output json` stays
/// parseable).
pub fn global_key_warning(global: bool) -> (r: Option<&'static str>)
    ensures
        global ==> (r matches Some(w) && w@
            == "Warning: this key can update every zone without any grant."@),
        !global ==> r is None,
{
    if global {
        Some("Warning: this key can update every zone without any grant.")
    } else {
        None
    }
}

} // verus!
