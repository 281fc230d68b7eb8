//! Output formats and the notes printed around a table page.

use vstd::prelude::*;
use crate::text::{chars_of, nat_text, push_nat_text};

verus! {

/// How a command prints its result.
#[derive(Clone, Copy, Debug, PartialEq, Eq, Structural)]
pub enum OutputFormat {
    Json,
    Yaml,
    Table,
}

/// ASCII letters in lower case, other characters unchanged.
pub open spec fn ascii_lower(c: char) -> char {
    if 'A' <= c && c <= 'Z' {
        ((c as u32) + 32) as char
    } else {
        c
    }
}

pub open spec fn lower_text(s: Seq<char>) -> Seq<char> {
    s.map_values(|c: char| ascii_lower(c))
}

/// The format a name selects, ignoring case. Only ASCII letters lower-case to
/// the letters of `json`, `yaml` and `table`, so ASCII case folding decides
/// exactly what full Unicode lower-casing would.
pub open spec fn format_named(s: Seq<char>) -> Option<OutputFormat> {
    if lower_text(s) == "json"@ {
        Some(OutputFormat::Json)
    } else if lower_text(s) == "yaml"@ {
        Some(OutputFormat::Yaml)
    } else if lower_text(s) == "table"@ {
        Some(OutputFormat::Table)
    } else {
        None
    }
}

/// The message for a name that selects no format.
pub open spec fn invalid_format_message(s: Seq<char>) -> Seq<char> {
    "Invalid output format: "@ + s + ". Valid options are: json, yaml, table"@
}

fn lower_char(c: char) -> (r: char)
    ensures
        r == ascii_lower(c),
{
    if 'A' <= c && c <= 'Z' {
        ((c as u32 + 32) as u8) as char
    } else {
        c
    }
}

fn lowered(s: &str) -> (r: Vec<char>)
    ensures
        r@ == lower_text(s@),
{
    let v = chars_of(s);
    let mut r: Vec<char> = Vec::new();
    let mut i: usize = 0;
    while i < v.len()
        invariant
            i <= v@.len(),
            v@ == s@,
            r@ == lower_text(s@).take(i as int),
        decreases v.len() - i,
    {
        r.push(lower_char(v[i]));
        assert(lower_text(s@).take(i + 1) == lower_text(s@).take(i as int).push(
            ascii_lower(s@[i as int]),
        ));
        i = i + 1;
    }
    assert(lower_text(s@).take(v@.len() as int) == lower_text(s@));
    r
}

impl OutputFormat {
    /// Parse an output format from its text representation, ignoring case.
    pub fn from_str(s: &str) -> (r: Result<OutputFormat, String>)
        ensures
            match format_named(s@) {
                Some(f) => r == Ok::<OutputFormat, String>(f),
                None => r matches Err(m) && m@ == invalid_format_message(s@),
            },
    {
        let l = lowered(s);
        let json = chars_of("json");
        let yaml = chars_of("yaml");
        let table = chars_of("table");
        if crate::text::chars_equal(&l, &json) {
            Ok(OutputFormat::Json)
        } else if crate::text::chars_equal(&l, &yaml) {
            Ok(OutputFormat::Yaml)
        } else if crate::text::chars_equal(&l, &table) {
            Ok(OutputFormat::Table)
        } else {
            let mut m = String::from_str("Invalid output format: ");
            m.append(s);
            m.append(". Valid options are: json, yaml, table");
            Err(m)
        }
    }
}

/// The note under a table page that does not reach the end of the listing:
/// how many rows have been seen (the page's offset plus its rows) out of the
/// total. Nothing when the page reaches the end, or the response carries no
/// total or no items.
pub open spec fn page_remainder_text(total: Option<u64>, shown: Option<u64>, offset: Option<u64>) -> Option<
    Seq<char>,
> {
    match (total, shown) {
        (Some(t), Some(s)) => {
            let seen = offset.unwrap_or(0) + s;
            if seen < t {
                Some(
                    "Showing "@ + nat_text(seen as nat) + " of "@ + nat_text(t as nat)
                        + "; page the rest with --limit and --offset."@,
                )
            } else {
                None
            }
        },
        _ => None,
    }
}

/// The number of omitted rows, so a table page is not mistaken for the
/// complete listing.
pub fn page_remainder(total: Option<u64>, shown: Option<u64>, offset: Option<u64>) -> (r: Option<
    String,
>)
    requires
        shown matches Some(s) ==> offset.unwrap_or(0) + s <= u64::MAX,
    ensures
        match page_remainder_text(total, shown, offset) {
            None => r is None,
            Some(t) => r matches Some(m) && m@ == t,
        },
{
    let (t, s) = match (total, shown) {
        (Some(t), Some(s)) => (t, s),
        _ => {
            return None;
        },
    };
    let seen = offset.unwrap_or(0) + s;
    if seen < t {
        let mut m = String::from_str("Showing ");
        push_nat_text(&mut m, seen);
        m.append(" of ");
        push_nat_text(&mut m, t);
        m.append("; page the rest with --limit and --offset.");
        Some(m)
    } else {
        None
    }
}

/// A format's name is read without regard to case: two spellings that
/// differ only in the case of their letters select the same format, or
/// both none.
pub proof fn lemma_format_ignores_case(s: Seq<char>, t: Seq<char>)
    requires
        lower_text(s) == lower_text(t),
    ensures
        format_named(s) == format_named(t),
{
}

} // verus!
