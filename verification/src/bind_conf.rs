//! Reading the ports out of this host's BIND configuration: the port the
//! catalog zone itself is fetched from (its zone block's `primaries` line) and
//! the port its member zones are fetched from (`default-primaries` in the
//! `catalog-zones` stanza). BIND's default port is 53.

use vstd::prelude::*;
use crate::text::{
    chars_of, find, find_at, find_from, lemma_find_from_bounds, lemma_token_len_bound,
    lemma_ws_prefix_len_bound, matches_at, next_token, next_token_at, parse_u16, parse_u16_at,
    skip_ws, trim_start, ws_prefix_len,
};

verus! {

/// The port BIND uses when an address list names none.
pub const DEFAULT_DNS_PORT: u16 = 53;

/// `s` without its trailing run of `c` (`str::trim_end_matches(c)`).
pub open spec fn trim_end_char(s: Seq<char>, c: char) -> Seq<char>
    decreases s.len(),
{
    if s.len() > 0 && s.last() == c {
        trim_end_char(s.drop_last(), c)
    } else {
        s
    }
}

/// Walks the whitespace-separated tokens of `s`: the token after the first
/// `port` token, with trailing `;` removed, parsed as a port; or 53 when a
/// token starting with `}` closes the address list first; or nothing when
/// the text ends, or `port` is the last token.
pub open spec fn scan_port(s: Seq<char>) -> Option<u16>
    decreases s.len(),
{
    match next_token(s) {
        None => None,
        Some((tok, rest)) => {
            if tok == "port"@ {
                match next_token(rest) {
                    None => None,
                    Some((value, _)) => parse_u16(trim_end_char(value, ';')),
                }
            } else if tok.len() > 0 && tok[0] == '}' {
                Some(53u16)
            } else {
                proof {
                    lemma_next_token_shrinks(s);
                }
                scan_port(rest)
            }
        },
    }
}

/// What follows a token is shorter than the text it was taken from.
pub proof fn lemma_next_token_shrinks(s: Seq<char>)
    ensures
        next_token(s) matches Some((tok, rest)) ==> rest.len() < s.len() && tok.len() >= 1,
{
    lemma_ws_prefix_len_bound(s);
    let t = trim_start(s);
    if t.len() > 0 {
        lemma_token_len_bound(t);
    }
}

/// The port named after the first occurrence of `directive` in `text`
/// (scanning the tokens that follow it), or BIND's default when the address
/// list closes without one; nothing when the directive does not occur.
pub open spec fn port_after_spec(text: Seq<char>, directive: Seq<char>) -> Option<u16> {
    match find(text, directive) {
        None => None,
        Some(at) => scan_port(text.skip(at + directive.len())),
    }
}

/// The zone statement that opens the catalog zone's block, or names it in
/// the `catalog-zones` stanza.
pub open spec fn catalog_zone_marker() -> Seq<char> {
    "zone \"catalog.bind\""@
}

/// The port the catalog zone itself is fetched from: looking at each
/// occurrence of `zone "catalog.bind"` from position `from` on, the first one
/// followed (after whitespace) by `{` opens the zone's own block; its text up
/// to and including the first `\n};` (or to the end) is searched for the
/// `primaries` port. Occurrences not followed by `{` (the options stanza) are
/// passed over.
pub open spec fn catalog_port_from(s: Seq<char>, from: int) -> Option<u16>
    decreases s.len() + 1 - from,
{
    if from < 0 {
        None
    } else {
        match find_from(s, catalog_zone_marker(), from) {
            None => None,
            Some(at) => {
                let body_start = at + catalog_zone_marker().len() + ws_prefix_len(
                    s.skip(at + catalog_zone_marker().len()),
                );
                if body_start < s.len() && s[body_start] == '{' {
                    let end = match find_from(s, "\n};"@, body_start) {
                        Some(k) => k + 3,
                        None => s.len() as int,
                    };
                    port_after_spec(s.subrange(body_start, end), "primaries"@)
                } else {
                    proof {
                        lemma_find_from_bounds(s, catalog_zone_marker(), from);
                    }
                    catalog_port_from(s, at + 1)
                }
            },
        }
    }
}

/// `trim_end_matches(c)` on `v[a..b]`: the end of what remains.
fn trim_end_at(v: &[char], a: usize, b: usize, c: char) -> (e: usize)
    requires
        a <= b <= v@.len(),
    ensures
        a <= e <= b,
        v@.subrange(a as int, e as int) == trim_end_char(v@.subrange(a as int, b as int), c),
{
    let mut e = b;
    while e > a && v[e - 1] == c
        invariant
            a <= e <= b <= v@.len(),
            trim_end_char(v@.subrange(a as int, b as int), c) == trim_end_char(
                v@.subrange(a as int, e as int),
                c,
            ),
        decreases e,
    {
        assert(v@.subrange(a as int, e as int).drop_last() == v@.subrange(a as int, e - 1));
        e = e - 1;
    }
    e
}

/// Whether `v[a..b]` is exactly `p`.
fn range_is(v: &[char], a: usize, b: usize, p: &[char]) -> (r: bool)
    requires
        a <= b <= v@.len(),
    ensures
        r == (v@.subrange(a as int, b as int) == p@),
{
    if b - a != p.len() {
        return false;
    }
    matches_at(v, p, a)
}

/// [`scan_port`] on the text from position `i`.
fn scan_port_at(v: &[char], i: usize) -> (r: Option<u16>)
    requires
        i <= v@.len(),
    ensures
        r == scan_port(v@.skip(i as int)),
{
    let port_word = chars_of("port");
    let mut pos = i;
    loop
        invariant
            i <= pos <= v@.len(),
            port_word@ == "port"@,
            scan_port(v@.skip(i as int)) == scan_port(v@.skip(pos as int)),
        decreases v@.len() - pos,
    {
        match next_token_at(v, pos) {
            None => {
                return None;
            },
            Some((a, b)) => {
                let ghost tok = v@.subrange(a as int, b as int);
                if range_is(v, a, b, &port_word) {
                    match next_token_at(v, b) {
                        None => {
                            return None;
                        },
                        Some((c, d)) => {
                            let e = trim_end_at(v, c, d, ';');
                            return parse_u16_at(v, c, e);
                        },
                    }
                } else if v[a] == '}' {
                    assert(tok[0] == v@[a as int]);
                    return Some(DEFAULT_DNS_PORT);
                } else {
                    assert(tok[0] == v@[a as int]);
                    pos = b;
                }
            },
        }
    }
}

/// [`port_after`] on character runs.
fn port_after_chars(v: &[char], directive: &[char]) -> (r: Option<u16>)
    ensures
        r == port_after_spec(v@, directive@),
{
    match find_at(v, directive, 0) {
        None => None,
        Some(at) => scan_port_at(v, at + directive.len()),
    }
}

/// The port named after `directive`, or BIND's default when the address list
/// closes without one.
pub fn port_after(text: &str, directive: &str) -> (r: Option<u16>)
    ensures
        r == port_after_spec(text@, directive@),
{
    let v = chars_of(text);
    let d = chars_of(directive);
    port_after_chars(&v, &d)
}

/// The port the catalog's member zones are fetched from.
pub fn default_primaries_port(options: &str) -> (r: Option<u16>)
    ensures
        r == port_after_spec(options@, "default-primaries"@),
{
    port_after(options, "default-primaries")
}

/// The port on the catalog zone's `default-primaries` line: the tokens from
/// the directive itself on are scanned.
pub fn primaries_port(options: &str) -> (r: Option<u16>)
    ensures
        r == (match find(options@, "default-primaries"@) {
            None => None,
            Some(at) => scan_port(options@.skip(at)),
        }),
{
    let v = chars_of(options);
    let d = chars_of("default-primaries");
    match find_at(&v, &d, 0) {
        None => None,
        Some(at) => scan_port_at(&v, at),
    }
}

/// A copy of `v[a..b]`.
fn copy_range(v: &[char], a: usize, b: usize) -> (r: Vec<char>)
    requires
        a <= b <= v@.len(),
    ensures
        r@ == v@.subrange(a as int, b as int),
{
    let mut r: Vec<char> = Vec::new();
    let mut k = a;
    while k < b
        invariant
            a <= k <= b <= v@.len(),
            r@ == v@.subrange(a as int, k as int),
        decreases b - k,
    {
        r.push(v[k]);
        k = k + 1;
    }
    r
}

/// The port the catalog zone itself is fetched from, on the `primaries` line
/// of its own zone block.
pub fn catalog_zone_port(main: &str) -> (r: Option<u16>)
    ensures
        r == catalog_port_from(main@, 0),
{
    let v = chars_of(main);
    let marker = chars_of("zone \"catalog.bind\"");
    let closing = chars_of("\n};");
    let primaries = chars_of("primaries");
    let mut from: usize = 0;
    loop
        invariant
            v@ == main@,
            from <= v@.len() + 1,
            marker@ == catalog_zone_marker(),
            closing@ == "\n};"@,
            primaries@ == "primaries"@,
            catalog_port_from(v@, 0) == catalog_port_from(v@, from as int),
        decreases v@.len() + 1 - from,
    {
        if from > v.len() {
            assert(find_from(v@, catalog_zone_marker(), from as int) is None);
            return None;
        }
        match find_at(&v, &marker, from) {
            None => {
                return None;
            },
            Some(at) => {
                proof {
                    lemma_find_from_bounds(v@, catalog_zone_marker(), from as int);
                    reveal_strlit("zone \"catalog.bind\"");
                }
                let after = at + marker.len();
                let body_start = skip_ws(&v, after);
                if body_start < v.len() && v[body_start] == '{' {
                    proof {
                        lemma_find_from_bounds(v@, closing@, body_start as int);
                    }
                    let end = match find_at(&v, &closing, body_start) {
                        Some(k) => {
                            proof {
                                reveal_strlit("\n};");
                            }
                            k + closing.len()
                        },
                        None => v.len(),
                    };
                    let block = copy_range(&v, body_start, end);
                    return port_after_chars(&block, &primaries);
                }
                from = at + 1;
            },
        }
    }
}

} // verus!
