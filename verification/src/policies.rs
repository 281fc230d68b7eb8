//! The per-zone token and TSIG policy listings: fixed-width columns under a
//! heading and a rule, or a line saying there are none.

use vstd::prelude::*;
use crate::text::{
    chars_of, i64_text, int_text, pad_right, push_char, push_line, push_padded_right, views,
};

verus! {

/// A policy letting a token, or a TSIG key, change matching records of one
/// zone.
pub struct ZonePolicy {
    pub id: i32,
    /// The token's or the TSIG key's name.
    pub holder: String,
    pub record_name_pattern: String,
    pub record_types: String,
}

/// `n` dashes.
pub open spec fn rule(n: nat) -> Seq<char> {
    Seq::new(n, |i: int| '-')
}

/// One row: ID in 5 columns, the holder in `w`, pattern and types in 20 each.
pub open spec fn policy_row(id: Seq<char>, holder: Seq<char>, pattern: Seq<char>, types: Seq<char>, w: nat) -> Seq<char> {
    pad_right(id, 5) + " "@ + pad_right(holder, w) + " "@ + pad_right(pattern, 20) + " "@
        + pad_right(types, 20)
}

/// The listing: `none` when there are no policies; otherwise the title, the
/// column headings, a rule of `rule_len` dashes, and one row per policy.
pub open spec fn policy_lines(
    none: Seq<char>,
    title: Seq<char>,
    holder_heading: Seq<char>,
    w: nat,
    rule_len: nat,
    policies: Seq<ZonePolicy>,
) -> Seq<Seq<char>> {
    if policies.len() == 0 {
        seq![none]
    } else {
        seq![
            title,
            policy_row("ID"@, holder_heading, "NAME PATTERN"@, "RECORD TYPES"@, w),
            rule(rule_len),
        ] + policies.map_values(
            |p: ZonePolicy|
                policy_row(
                    int_text(p.id as int),
                    p.holder@,
                    p.record_name_pattern@,
                    p.record_types@,
                    w,
                ),
        )
    }
}

pub open spec fn token_policy_lines(policies: Seq<ZonePolicy>) -> Seq<Seq<char>> {
    policy_lines("No token policies found"@, "Token Policies:"@, "TOKEN"@, 25, 75, policies)
}

pub open spec fn tsig_policy_lines(policies: Seq<ZonePolicy>) -> Seq<Seq<char>> {
    policy_lines("No TSIG policies found"@, "TSIG Policies:"@, "TSIG KEY"@, 30, 80, policies)
}

// ---------------------------------------------------------------------------
// Implementation
// ---------------------------------------------------------------------------

fn row_text(id: &str, holder: &str, pattern: &str, types: &str, w: usize) -> (r: String)
    ensures
        r@ == policy_row(id@, holder@, pattern@, types@, w as nat),
{
    let mut line = String::new();
    push_padded_right(&mut line, &chars_of(id), 5);
    line.append(" ");
    push_padded_right(&mut line, &chars_of(holder), w);
    line.append(" ");
    push_padded_right(&mut line, &chars_of(pattern), 20);
    line.append(" ");
    push_padded_right(&mut line, &chars_of(types), 20);
    line
}

fn rule_text(n: usize) -> (r: String)
    ensures
        r@ == rule(n as nat),
{
    let mut s = String::new();
    let mut i: usize = 0;
    while i < n
        invariant
            i <= n,
            s@ == rule(i as nat),
        decreases n - i,
    {
        push_char(&mut s, '-');
        assert(rule((i + 1) as nat) =~= rule(i as nat).push('-'));
        i = i + 1;
    }
    s
}

fn policy_listing(
    none: &str,
    title: &str,
    holder_heading: &str,
    w: usize,
    rule_len: usize,
    policies: &Vec<ZonePolicy>,
) -> (r: Vec<String>)
    ensures
        views(r@) == policy_lines(none@, title@, holder_heading@, w as nat, rule_len as nat, policies@),
{
    let mut r: Vec<String> = Vec::new();
    if policies.len() == 0 {
        push_line(&mut r, String::from_str(none));
        assert(views(r@) =~= seq![none@]);
        return r;
    }
    push_line(&mut r, String::from_str(title));
    push_line(&mut r, row_text("ID", holder_heading, "NAME PATTERN", "RECORD TYPES", w));
    push_line(&mut r, rule_text(rule_len));
    let ghost start = views(r@);
    let ghost rows = policies@.map_values(
        |p: ZonePolicy|
            policy_row(int_text(p.id as int), p.holder@, p.record_name_pattern@, p.record_types@, w as nat),
    );
    assert(start =~= seq![
        title@,
        policy_row("ID"@, holder_heading@, "NAME PATTERN"@, "RECORD TYPES"@, w as nat),
        rule(rule_len as nat),
    ]);
    let mut i: usize = 0;
    while i < policies.len()
        invariant
            i <= policies@.len(),
            rows == policies@.map_values(
                |p: ZonePolicy|
                    policy_row(
                        int_text(p.id as int),
                        p.holder@,
                        p.record_name_pattern@,
                        p.record_types@,
                        w as nat,
                    ),
            ),
            views(r@) == start + rows.take(i as int),
        decreases policies.len() - i,
    {
        let p = &policies[i];
        let id = i64_text(p.id as i64);
        push_line(
            &mut r,
            row_text(id.as_str(), p.holder.as_str(), p.record_name_pattern.as_str(), p.record_types.as_str(), w),
        );
        assert(rows.take(i + 1) =~= rows.take(i as int).push(rows[i as int]));
        i = i + 1;
    }
    assert(rows.take(policies@.len() as int) =~= rows);
    r
}

/// A zone's token policies as a fixed-width listing (the lines to print).
pub fn print_token_policies(policies: &Vec<ZonePolicy>) -> (r: Vec<String>)
    ensures
        views(r@) == token_policy_lines(policies@),
{
    policy_listing("No token policies found", "Token Policies:", "TOKEN", 25, 75, policies)
}

/// A zone's TSIG policies as a fixed-width listing (the lines to print).
pub fn print_tsig_policies(policies: &Vec<ZonePolicy>) -> (r: Vec<String>)
    ensures
        views(r@) == tsig_policy_lines(policies@),
{
    policy_listing("No TSIG policies found", "TSIG Policies:", "TSIG KEY", 30, 80, policies)
}

} // verus!
