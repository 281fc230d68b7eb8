//! Client-side rendering of a record diff as a zone-file `+`/`-`/`~` patch:
//! the daemon sends structured records, and rdata assembly lives here.

use vstd::prelude::*;
use crate::color::{green, green_text, red, red_text, yellow, yellow_text};
use crate::text::{
    chars_of, digit, digit_char, i64_text, int_text, is_digit, lemma_digit_char_value, nat_text,
    pad_left, pad_right, push_char,
    push_int_text, push_nat_text, push_padded_left, push_padded_right, str_equal, u64_text,
};
use vstd::utf8::{encode_utf8, encode_utf8_decode_utf8};

verus! {

/// A record value as the daemon sends it: one string, or the character-string
/// segments of a TXT record.
pub enum RecordValue {
    Text(String),
    Segments(Vec<String>),
}

/// One record on one side of a diff.
pub struct RecordDiffValue {
    pub value: RecordValue,
    pub ttl: i32,
    pub priority: Option<i32>,
}

/// One RRset of a diff: the records it held before and after.
pub struct RecordDiffEntry {
    pub name: String,
    pub record_type: String,
    /// `added`, `removed`, or `changed`.
    pub change: String,
    pub from: Vec<RecordDiffValue>,
    pub to: Vec<RecordDiffValue>,
}

// ---------------------------------------------------------------------------
// Specification
// ---------------------------------------------------------------------------

/// The segments of a value: a plain string is a single segment.
pub open spec fn segments_of(value: RecordValue) -> Seq<Seq<char>> {
    match value {
        RecordValue::Text(s) => seq![s@],
        RecordValue::Segments(ss) => ss@.map_values(|s: String| s@),
    }
}

/// The segments written one after another.
pub open spec fn concat_all(ss: Seq<Seq<char>>) -> Seq<char>
    decreases ss.len(),
{
    if ss.len() == 0 {
        Seq::empty()
    } else {
        concat_all(ss.drop_last()) + ss.last()
    }
}

/// The three decimal digits of a byte (`\DDD`).
pub open spec fn three_digits(b: u8) -> Seq<char> {
    seq![
        digit_char((b / 100) as nat),
        digit_char(((b / 10) % 10) as nat),
        digit_char((b % 10) as nat),
    ]
}

/// One byte of a zone-file character-string: `"` and `\` escaped with a
/// backslash, other printable ASCII as itself, anything else as `\DDD`.
pub open spec fn quote_byte(b: u8) -> Seq<char> {
    if b == 0x22 {
        seq!['\\', '"']
    } else if b == 0x5c {
        seq!['\\', '\\']
    } else if 0x20 <= b && b <= 0x7e {
        seq![b as char]
    } else {
        seq!['\\'] + three_digits(b)
    }
}

pub open spec fn quote_bytes(bs: Seq<u8>) -> Seq<char>
    decreases bs.len(),
{
    if bs.len() == 0 {
        Seq::empty()
    } else {
        quote_bytes(bs.drop_last()) + quote_byte(bs.last())
    }
}

/// A segment as a quoted zone-file character-string over its UTF-8 bytes.
pub open spec fn quoted_charstr(s: Seq<char>) -> Seq<char> {
    seq!['"'] + quote_bytes(encode_utf8(s)) + seq!['"']
}

/// The segments, each quoted, separated by single spaces.
pub open spec fn join_quoted(ss: Seq<Seq<char>>) -> Seq<char>
    decreases ss.len(),
{
    if ss.len() == 0 {
        Seq::empty()
    } else if ss.len() == 1 {
        quoted_charstr(ss[0])
    } else {
        join_quoted(ss.drop_last()) + " "@ + quoted_charstr(ss.last())
    }
}

/// One record's value as zone-file rdata: MX and SRV carry the priority
/// (10 when absent) inline, TXT is quoted per character-string, other types
/// use the value as-is.
pub open spec fn rdata_text(value: RecordValue, priority: Option<i32>, record_type: Seq<char>) -> Seq<
    char,
> {
    if record_type == "TXT"@ {
        join_quoted(segments_of(value))
    } else if record_type == "MX"@ || record_type == "SRV"@ {
        int_text(
            match priority {
                Some(p) => p as int,
                None => 10,
            },
        ) + " "@ + concat_all(segments_of(value))
    } else {
        concat_all(segments_of(value))
    }
}

/// A record as its (TTL, rdata) line content.
pub open spec fn value_line(v: RecordDiffValue, record_type: Seq<char>) -> (Seq<char>, Seq<char>) {
    (int_text(v.ttl as int), rdata_text(v.value, v.priority, record_type))
}

pub open spec fn value_lines(vs: Seq<RecordDiffValue>, record_type: Seq<char>) -> Seq<
    (Seq<char>, Seq<char>),
> {
    vs.map_values(|v: RecordDiffValue| value_line(v, record_type))
}

/// The lines of `a` that `b` does not hold, in their order.
pub open spec fn absent_from<L>(a: Seq<L>, b: Seq<L>) -> Seq<L>
    decreases a.len(),
{
    if a.len() == 0 {
        Seq::empty()
    } else if b.contains(a.last()) {
        absent_from(a.drop_last(), b)
    } else {
        absent_from(a.drop_last(), b).push(a.last())
    }
}

/// The sign that labels an RRset.
pub open spec fn change_sign(change: Seq<char>) -> char {
    if change == "added"@ {
        '+'
    } else if change == "removed"@ {
        '-'
    } else {
        '~'
    }
}

/// The delta of an entry: records removed, then records added.
pub open spec fn delta_lines(e: RecordDiffEntry) -> Seq<(Seq<char>, Seq<char>)> {
    let from = value_lines(e.from@, e.record_type@);
    let to = value_lines(e.to@, e.record_type@);
    absent_from(from, to) + absent_from(to, from)
}

/// How many of the delta lines are removals.
pub open spec fn removed_count(e: RecordDiffEntry) -> nat {
    absent_from(
        value_lines(e.from@, e.record_type@),
        value_lines(e.to@, e.record_type@),
    ).len()
}

/// One patch line: the sign and name label only the first line of the RRset;
/// the TTL stays on every line. Removals are red, additions green.
pub open spec fn diff_line(
    enabled: bool,
    sign: char,
    name: Seq<char>,
    record_type: Seq<char>,
    removed: nat,
    index: nat,
    line: (Seq<char>, Seq<char>),
) -> Seq<char> {
    let head = if index == 0 {
        sign
    } else {
        ' '
    };
    let name_col = if index == 0 {
        name
    } else {
        Seq::<char>::empty()
    };
    let text = seq![head] + " "@ + pad_right(name_col, 24) + " "@ + pad_left(line.0, 5) + " IN "@
        + pad_right(record_type, 6) + " "@ + line.1;
    (if index < removed {
        red_text(enabled, text)
    } else {
        green_text(enabled, text)
    }) + "\n"@
}

/// The first `k` delta lines of an entry.
pub open spec fn entry_text_upto(enabled: bool, e: RecordDiffEntry, k: nat) -> Seq<char>
    decreases k,
{
    if k == 0 {
        Seq::empty()
    } else {
        entry_text_upto(enabled, e, (k - 1) as nat) + diff_line(
            enabled,
            change_sign(e.change@),
            e.name@,
            e.record_type@,
            removed_count(e),
            (k - 1) as nat,
            delta_lines(e)[k - 1],
        )
    }
}

/// All the delta lines of an entry.
pub open spec fn entry_text(enabled: bool, e: RecordDiffEntry) -> Seq<char> {
    entry_text_upto(enabled, e, delta_lines(e).len())
}

/// The patch for a list of entries (no summary footer).
pub open spec fn diff_text(enabled: bool, entries: Seq<RecordDiffEntry>) -> Seq<char>
    decreases entries.len(),
{
    if entries.len() == 0 {
        Seq::empty()
    } else {
        diff_text(enabled, entries.drop_last()) + entry_text(enabled, entries.last())
    }
}

/// The number of entries whose change is `change`.
pub open spec fn change_count(entries: Seq<RecordDiffEntry>, change: Seq<char>) -> nat
    decreases entries.len(),
{
    if entries.len() == 0 {
        0
    } else {
        change_count(entries.drop_last(), change) + if entries.last().change@ == change {
            1nat
        } else {
            0nat
        }
    }
}

/// A preview: the patch, a blank line, and the summary footer.
pub open spec fn preview_text(enabled: bool, entries: Seq<RecordDiffEntry>) -> Seq<char> {
    diff_text(enabled, entries) + "\n"@ + "Records: "@ + green_text(
        enabled,
        seq!['+'] + nat_text(change_count(entries, "added"@)),
    ) + " "@ + red_text(enabled, seq!['-'] + nat_text(change_count(entries, "removed"@)))
        + " "@ + yellow_text(enabled, seq!['~'] + nat_text(change_count(entries, "changed"@)))
        + "\n"@
}

// ---------------------------------------------------------------------------
// Laws
// ---------------------------------------------------------------------------

pub proof fn lemma_absent_from_members<L>(a: Seq<L>, b: Seq<L>, x: L)
    ensures
        absent_from(a, b).contains(x) <==> (a.contains(x) && !b.contains(x)),
    decreases a.len(),
{
    if a.len() > 0 {
        let r = absent_from(a.drop_last(), b);
        lemma_absent_from_members(a.drop_last(), b, x);
        if a.contains(x) && !b.contains(x) {
            let i = choose|i: int| 0 <= i < a.len() && a[i] == x;
            if i < a.len() - 1 {
                assert(a.drop_last()[i] == x);
            }
        }
        if a.drop_last().contains(x) {
            let i = choose|i: int| 0 <= i < a.drop_last().len() && a.drop_last()[i] == x;
            assert(a[i] == x);
        }
        if !b.contains(a.last()) {
            assert(r.push(a.last()).last() == a.last());
            if r.push(a.last()).contains(x) {
                let i = choose|i: int| 0 <= i < r.push(a.last()).len() && r.push(a.last())[i] == x;
                if i < r.len() {
                    assert(r[i] == x);
                }
            }
            if r.contains(x) {
                let i = choose|i: int| 0 <= i < r.len() && r[i] == x;
                assert(r.push(a.last())[i] == x);
            }
        }
    }
}

/// A patch shows only the delta: a line is shown exactly when it is on one
/// side of the change but not the other, so a record the change left alone is
/// never shown, and every record it added or removed is.
pub proof fn lemma_delta_is_symmetric_difference(e: RecordDiffEntry, line: (Seq<char>, Seq<char>))
    ensures
        delta_lines(e).contains(line) <==> (value_lines(e.from@, e.record_type@).contains(line)
            != value_lines(e.to@, e.record_type@).contains(line)),
{
    let from = value_lines(e.from@, e.record_type@);
    let to = value_lines(e.to@, e.record_type@);
    let x = absent_from(from, to);
    let y = absent_from(to, from);
    lemma_absent_from_members(from, to, line);
    lemma_absent_from_members(to, from, line);
    if (x + y).contains(line) {
        let i = choose|i: int| 0 <= i < (x + y).len() && (x + y)[i] == line;
        if i < x.len() {
            assert(x[i] == line);
        } else {
            assert(y[i - x.len()] == line);
        }
    }
    if x.contains(line) {
        let i = choose|i: int| 0 <= i < x.len() && x[i] == line;
        assert((x + y)[i] == line);
    }
    if y.contains(line) {
        let i = choose|i: int| 0 <= i < y.len() && y[i] == line;
        assert((x + y)[x.len() + i] == line);
    }
}

/// The red lines of a patch are its removals and the green lines its
/// additions: every line before the `removed_count` mark was in the old
/// RRset and is gone from the new one, and every line after it is new.
pub proof fn lemma_removals_come_first(e: RecordDiffEntry, i: int)
    requires
        0 <= i < delta_lines(e).len(),
    ensures
        i < removed_count(e) ==> value_lines(e.from@, e.record_type@).contains(delta_lines(e)[i])
            && !value_lines(e.to@, e.record_type@).contains(delta_lines(e)[i]),
        i >= removed_count(e) ==> value_lines(e.to@, e.record_type@).contains(delta_lines(e)[i])
            && !value_lines(e.from@, e.record_type@).contains(delta_lines(e)[i]),
{
    let from = value_lines(e.from@, e.record_type@);
    let to = value_lines(e.to@, e.record_type@);
    let x = absent_from(from, to);
    let y = absent_from(to, from);
    let line = delta_lines(e)[i];
    if i < x.len() {
        assert(line == x[i]);
        assert(x.contains(line));
        lemma_absent_from_members(from, to, line);
    } else {
        assert(line == y[i - x.len()]);
        assert(y.contains(line));
        lemma_absent_from_members(to, from, line);
    }
}

/// The value of a decimal digit.
pub open spec fn digit_value(c: char) -> int {
    (c as u32) as int - ('0' as u32) as int
}

/// Reads the escaped content of a character-string up to its closing quote,
/// as a zone-file parser does: the bytes it stands for, and what follows the
/// quote.
pub open spec fn unquote_bytes(cs: Seq<char>) -> Option<(Seq<u8>, Seq<char>)>
    decreases cs.len(),
{
    if cs.len() == 0 {
        None
    } else if cs[0] == '"' {
        Some((Seq::empty(), cs.drop_first()))
    } else if cs[0] == '\\' {
        if cs.len() >= 2 && (cs[1] == '"' || cs[1] == '\\') {
            match unquote_bytes(cs.skip(2)) {
                Some((bs, rest)) => Some((seq![cs[1] as u8] + bs, rest)),
                None => None,
            }
        } else if cs.len() >= 4 && is_digit(cs[1]) && is_digit(cs[2]) && is_digit(cs[3]) {
            let v = digit_value(cs[1]) * 100 + digit_value(cs[2]) * 10 + digit_value(cs[3]);
            if v < 256 {
                match unquote_bytes(cs.skip(4)) {
                    Some((bs, rest)) => Some((seq![v as u8] + bs, rest)),
                    None => None,
                }
            } else {
                None
            }
        } else {
            None
        }
    } else if ' ' <= cs[0] && cs[0] <= '~' {
        match unquote_bytes(cs.drop_first()) {
            Some((bs, rest)) => Some((seq![cs[0] as u8] + bs, rest)),
            None => None,
        }
    } else {
        None
    }
}

/// Reads one quoted character-string from the front of `cs`.
pub open spec fn unquote(cs: Seq<char>) -> Option<(Seq<u8>, Seq<char>)> {
    if cs.len() > 0 && cs[0] == '"' {
        unquote_bytes(cs.drop_first())
    } else {
        None
    }
}

proof fn lemma_quote_bytes_front(bs: Seq<u8>)
    requires
        bs.len() > 0,
    ensures
        quote_bytes(bs) == quote_byte(bs[0]) + quote_bytes(bs.drop_first()),
    decreases bs.len(),
{
    if bs.len() == 1 {
        assert(bs.drop_last() =~= Seq::<u8>::empty());
        assert(bs.drop_first() =~= Seq::<u8>::empty());
        assert(quote_bytes(Seq::<u8>::empty()) == Seq::<char>::empty());
        assert(quote_bytes(bs) == quote_bytes(bs.drop_last()) + quote_byte(bs.last()));
        assert(bs.last() == bs[0]);
        assert(quote_bytes(bs) =~= quote_byte(bs[0]));
        assert(quote_byte(bs[0]) + Seq::<char>::empty() =~= quote_byte(bs[0]));
    } else {
        lemma_quote_bytes_front(bs.drop_last());
        assert(bs.drop_last().drop_first() =~= bs.drop_first().drop_last());
        assert(bs.drop_first().last() == bs.last());
        assert(bs.drop_last()[0] == bs[0]);
        assert(quote_bytes(bs) =~= quote_byte(bs[0]) + quote_bytes(bs.drop_first()));
    }
}

proof fn lemma_unquote_byte(b: u8, bs: Seq<u8>, x: Seq<char>, rest: Seq<char>)
    requires
        unquote_bytes(x) == Some((bs, rest)),
    ensures
        unquote_bytes(quote_byte(b) + x) == Some((seq![b] + bs, rest)),
{
    let cs = quote_byte(b) + x;
    if b == 0x22 {
        assert(cs.skip(2) =~= x);
        assert(cs[1] == '"');
    } else if b == 0x5c {
        assert(cs.skip(2) =~= x);
        assert(cs[1] == '\\');
    } else if 0x20 <= b && b <= 0x7e {
        assert(cs.drop_first() =~= x);
        assert(cs[0] == b as char);
        assert((b as char) as u8 == b);
    } else {
        let d1 = (b / 100) as nat;
        let d2 = ((b / 10) % 10) as nat;
        let d3 = (b % 10) as nat;
        lemma_digit_char_value(d1);
        lemma_digit_char_value(d2);
        lemma_digit_char_value(d3);
        assert(cs[1] == digit_char(d1));
        assert(cs[2] == digit_char(d2));
        assert(cs[3] == digit_char(d3));
        assert(cs.skip(4) =~= x);
        assert(d1 * 100 + d2 * 10 + d3 == b) by (nonlinear_arith)
            requires
                d1 == (b / 100) as nat,
                d2 == ((b / 10) % 10) as nat,
                d3 == (b % 10) as nat,
        ;
        assert(digit_value(cs[1]) * 100 + digit_value(cs[2]) * 10 + digit_value(cs[3]) == b);
    }
}

proof fn lemma_unquote_bytes_round_trip(bs: Seq<u8>, rest: Seq<char>)
    ensures
        unquote_bytes(quote_bytes(bs) + seq!['"'] + rest) == Some((bs, rest)),
    decreases bs.len(),
{
    if bs.len() == 0 {
        assert(quote_bytes(bs) + seq!['"'] + rest =~= seq!['"'] + rest);
        assert((seq!['"'] + rest).drop_first() =~= rest);
    } else {
        lemma_quote_bytes_front(bs);
        let tail = bs.drop_first();
        lemma_unquote_bytes_round_trip(tail, rest);
        lemma_unquote_byte(bs[0], tail, quote_bytes(tail) + seq!['"'] + rest, rest);
        assert(quote_bytes(bs) + seq!['"'] + rest =~= quote_byte(bs[0]) + (quote_bytes(tail)
            + seq!['"'] + rest));
        assert(seq![bs[0]] + tail =~= bs);
    }
}

/// A quoted character-string reads back as the UTF-8 bytes of its segment,
/// wherever it stands: what follows its closing quote is left as it was.
pub proof fn lemma_unquote_round_trip(s: Seq<char>, rest: Seq<char>)
    ensures
        unquote(quoted_charstr(s) + rest) == Some((encode_utf8(s), rest)),
{
    let q = quoted_charstr(s) + rest;
    lemma_unquote_bytes_round_trip(encode_utf8(s), rest);
    assert(q.drop_first() =~= quote_bytes(encode_utf8(s)) + seq!['"'] + rest);
}

proof fn lemma_join_quoted_front(ss: Seq<Seq<char>>)
    requires
        ss.len() >= 2,
    ensures
        join_quoted(ss) == quoted_charstr(ss[0]) + " "@ + join_quoted(ss.drop_first()),
    decreases ss.len(),
{
    if ss.len() == 2 {
        assert(ss.drop_last() =~= seq![ss[0]]);
        assert(ss.drop_first() =~= seq![ss[1]]);
        assert(join_quoted(seq![ss[0]]) == quoted_charstr(ss[0]));
        assert(join_quoted(seq![ss[1]]) == quoted_charstr(ss[1]));
        assert(join_quoted(ss) =~= quoted_charstr(ss[0]) + " "@ + join_quoted(ss.drop_first()));
    } else {
        lemma_join_quoted_front(ss.drop_last());
        assert(ss.drop_last().drop_first() =~= ss.drop_first().drop_last());
        assert(ss.drop_first().last() == ss.last());
        assert(ss.drop_last()[0] == ss[0]);
        assert(join_quoted(ss) =~= quoted_charstr(ss[0]) + " "@ + join_quoted(ss.drop_first()));
    }
}

/// The rdata of a TXT record determines its character-strings: two lists of
/// segments that quote to the same text are the same list.
pub proof fn lemma_txt_rdata_determines_segments(ss: Seq<Seq<char>>, tt: Seq<Seq<char>>)
    requires
        join_quoted(ss) == join_quoted(tt),
    ensures
        ss == tt,
    decreases ss.len(),
{
    reveal_strlit(" ");
    if ss.len() == 0 || tt.len() == 0 {
        if ss.len() != 0 {
            assert(join_quoted(ss).len() > 0) by {
                if ss.len() >= 2 {
                    lemma_join_quoted_front(ss);
                }
            }
        }
        if tt.len() != 0 {
            assert(join_quoted(tt).len() > 0) by {
                if tt.len() >= 2 {
                    lemma_join_quoted_front(tt);
                }
            }
        }
        assert(ss =~= tt);
    } else {
        let rs = if ss.len() >= 2 {
            lemma_join_quoted_front(ss);
            " "@ + join_quoted(ss.drop_first())
        } else {
            Seq::<char>::empty()
        };
        let rt = if tt.len() >= 2 {
            lemma_join_quoted_front(tt);
            " "@ + join_quoted(tt.drop_first())
        } else {
            Seq::<char>::empty()
        };
        assert(join_quoted(ss) =~= quoted_charstr(ss[0]) + rs);
        assert(join_quoted(tt) =~= quoted_charstr(tt[0]) + rt);
        lemma_unquote_round_trip(ss[0], rs);
        lemma_unquote_round_trip(tt[0], rt);
        assert(encode_utf8(ss[0]) == encode_utf8(tt[0]));
        assert(rs == rt);
        encode_utf8_decode_utf8(ss[0]);
        encode_utf8_decode_utf8(tt[0]);
        assert(ss[0] == tt[0]);
        assert(rs.len() > 0 <==> ss.len() >= 2);
        assert(rt.len() > 0 <==> tt.len() >= 2);
        if ss.len() >= 2 {
            assert(join_quoted(ss.drop_first()) =~= rs.drop_first());
            assert(join_quoted(tt.drop_first()) =~= rt.drop_first());
            lemma_txt_rdata_determines_segments(ss.drop_first(), tt.drop_first());
            assert(ss =~= seq![ss[0]] + ss.drop_first());
            assert(tt =~= seq![tt[0]] + tt.drop_first());
        } else {
            assert(ss =~= tt);
        }
    }
}

// ---------------------------------------------------------------------------
// Implementation
// ---------------------------------------------------------------------------

/// Appends the quoted character-string of `s`.
fn push_quoted(out: &mut String, s: &str)
    ensures
        final(out)@ == old(out)@ + quoted_charstr(s@),
{
    let ghost start = out@;
    push_char(out, '"');
    let bytes = s.as_bytes();
    let mut i: usize = 0;
    while i < bytes.len()
        invariant
            i <= bytes@.len(),
            bytes@ == encode_utf8(s@),
            out@ == start + seq!['"'] + quote_bytes(bytes@.take(i as int)),
        decreases bytes.len() - i,
    {
        let b = bytes[i];
        let ghost before = out@;
        if b == 0x22 {
            push_char(out, '\\');
            push_char(out, '"');
        } else if b == 0x5c {
            push_char(out, '\\');
            push_char(out, '\\');
        } else if 0x20 <= b && b <= 0x7e {
            push_char(out, b as char);
        } else {
            push_char(out, '\\');
            push_char(out, digit((b / 100) as u64));
            push_char(out, digit(((b / 10) % 10) as u64));
            push_char(out, digit((b % 10) as u64));
        }
        proof {
            assert(bytes@.take(i + 1).drop_last() == bytes@.take(i as int));
            assert(bytes@.take(i + 1).last() == b);
            assert(out@ == before + quote_byte(b));
        }
        i = i + 1;
    }
    assert(bytes@.take(bytes@.len() as int) == bytes@);
    push_char(out, '"');
}

/// Appends the segments one after another.
fn push_concat(out: &mut String, value: &RecordValue)
    ensures
        final(out)@ == old(out)@ + concat_all(segments_of(*value)),
{
    match value {
        RecordValue::Text(s) => {
            out.append(s.as_str());
            assert(concat_all(seq![s@]) == concat_all(seq![s@].drop_last()) + s@);
            assert(seq![s@].drop_last() =~= Seq::<Seq<char>>::empty());
        },
        RecordValue::Segments(ss) => {
            let ghost start = out@;
            let ghost views = ss@.map_values(|s: String| s@);
            let mut i: usize = 0;
            while i < ss.len()
                invariant
                    i <= ss@.len(),
                    views == ss@.map_values(|s: String| s@),
                    out@ == start + concat_all(views.take(i as int)),
                decreases ss.len() - i,
            {
                out.append(ss[i].as_str());
                assert(views.take(i + 1).drop_last() == views.take(i as int));
                i = i + 1;
            }
            assert(views.take(ss@.len() as int) == views);
        },
    }
}

/// Appends the segments quoted and space-separated.
fn push_join_quoted(out: &mut String, value: &RecordValue)
    ensures
        final(out)@ == old(out)@ + join_quoted(segments_of(*value)),
{
    match value {
        RecordValue::Text(s) => {
            push_quoted(out, s.as_str());
        },
        RecordValue::Segments(ss) => {
            let ghost start = out@;
            let ghost views = ss@.map_values(|s: String| s@);
            let mut i: usize = 0;
            while i < ss.len()
                invariant
                    i <= ss@.len(),
                    views == ss@.map_values(|s: String| s@),
                    out@ == start + join_quoted(views.take(i as int)),
                decreases ss.len() - i,
            {
                if i != 0 {
                    out.append(" ");
                }
                push_quoted(out, ss[i].as_str());
                assert(views.take(i + 1).drop_last() == views.take(i as int));
                assert(views.take(i + 1)[0] == views[0]);
                i = i + 1;
            }
            assert(views.take(ss@.len() as int) == views);
        },
    }
}

/// Render one record's value as zone-file rdata.
pub fn rdata(value: &RecordValue, priority: Option<i32>, record_type: &str) -> (r: String)
    ensures
        r@ == rdata_text(*value, priority, record_type@),
{
    let mut out = String::new();
    if str_equal(record_type, "TXT") {
        push_join_quoted(&mut out, value);
    } else if str_equal(record_type, "MX") || str_equal(record_type, "SRV") {
        let p: i32 = match priority {
            Some(p) => p,
            None => 10,
        };
        push_int_text(&mut out, p as i64);
        out.append(" ");
        push_concat(&mut out, value);
    } else {
        push_concat(&mut out, value);
    }
    out
}

/// The (TTL, rdata) pairs of one side of a diff.
fn rendered_lines(values: &Vec<RecordDiffValue>, record_type: &str) -> (r: Vec<(String, String)>)
    ensures
        r@.map_values(|p: (String, String)| (p.0@, p.1@)) == value_lines(values@, record_type@),
{
    let mut r: Vec<(String, String)> = Vec::new();
    let mut i: usize = 0;
    while i < values.len()
        invariant
            i <= values@.len(),
            r@.len() == i,
            r@.map_values(|p: (String, String)| (p.0@, p.1@)) == value_lines(
                values@.take(i as int),
                record_type@,
            ),
        decreases values.len() - i,
    {
        let v = &values[i];
        let ttl = i64_text(v.ttl as i64);
        let data = rdata(&v.value, v.priority, record_type);
        let ghost before = r@;
        r.push((ttl, data));
        proof {
            let mapped = r@.map_values(|p: (String, String)| (p.0@, p.1@));
            let expect = value_lines(values@.take(i + 1), record_type@);
            assert(values@.take(i + 1) == values@.take(i as int).push(values@[i as int]));
            assert(mapped.len() == expect.len());
            assert forall|j: int| 0 <= j < mapped.len() implies mapped[j] == expect[j] by {
                if j < i {
                    assert(r@[j] == before[j]);
                    assert(before.map_values(|p: (String, String)| (p.0@, p.1@))[j] == mapped[j]);
                    assert(values@.take(i + 1)[j] == values@.take(i as int)[j]);
                } else {
                    assert(values@.take(i + 1)[j] == values@[i as int]);
                }
            }
        }
        assert(r@.map_values(|p: (String, String)| (p.0@, p.1@)) =~= value_lines(
            values@.take(i + 1),
            record_type@,
        ));
        i = i + 1;
    }
    assert(values@.take(values@.len() as int) == values@);
    r
}

pub open spec fn pair_views(v: Seq<(String, String)>) -> Seq<(Seq<char>, Seq<char>)> {
    v.map_values(|p: (String, String)| (p.0@, p.1@))
}

/// Whether `lines` holds `line` (both columns equal).
fn holds_line(lines: &Vec<(String, String)>, line: &(String, String)) -> (r: bool)
    ensures
        r == pair_views(lines@).contains((line.0@, line.1@)),
{
    let ghost target = (line.0@, line.1@);
    let mut i: usize = 0;
    while i < lines.len()
        invariant
            i <= lines@.len(),
            target == (line.0@, line.1@),
            forall|j: int| 0 <= j < i ==> pair_views(lines@)[j] != target,
        decreases lines.len() - i,
    {
        if str_equal(lines[i].0.as_str(), line.0.as_str()) && str_equal(
            lines[i].1.as_str(),
            line.1.as_str(),
        ) {
            assert(pair_views(lines@)[i as int] == target);
            return true;
        }
        i = i + 1;
    }
    false
}

/// The lines of `a` that `b` does not hold, in order.
fn lines_absent_from(a: &Vec<(String, String)>, b: &Vec<(String, String)>) -> (r: Vec<
    (String, String),
>)
    ensures
        pair_views(r@) == absent_from(pair_views(a@), pair_views(b@)),
{
    let mut r: Vec<(String, String)> = Vec::new();
    let mut i: usize = 0;
    while i < a.len()
        invariant
            i <= a@.len(),
            pair_views(r@) == absent_from(pair_views(a@).take(i as int), pair_views(b@)),
        decreases a.len() - i,
    {
        let held = holds_line(b, &a[i]);
        proof {
            let av = pair_views(a@);
            assert(av.take(i + 1).drop_last() == av.take(i as int));
            assert(av.take(i + 1).last() == (a@[i as int].0@, a@[i as int].1@));
        }
        if !held {
            let line = (a[i].0.clone(), a[i].1.clone());
            r.push(line);
            assert(pair_views(r@) =~= absent_from(pair_views(a@).take(i as int), pair_views(b@)).push(
                (a@[i as int].0@, a@[i as int].1@),
            ));
        }
        i = i + 1;
    }
    assert(pair_views(a@).take(a@.len() as int) == pair_views(a@));
    r
}

/// Appends one patch line.
fn push_diff_line(
    out: &mut String,
    enabled: bool,
    head: char,
    name_col: &[char],
    ttl: &String,
    record_type: &[char],
    data: &String,
    is_removal: bool,
)
    ensures
        final(out)@ == old(out)@ + ({
            let text = seq![head] + " "@ + pad_right(name_col@, 24) + " "@ + pad_left(ttl@, 5)
                + " IN "@ + pad_right(record_type@, 6) + " "@ + data@;
            (if is_removal {
                red_text(enabled, text)
            } else {
                green_text(enabled, text)
            }) + "\n"@
        }),
{
    let mut line = String::new();
    push_char(&mut line, head);
    assert(line@ == seq![head]);
    line.append(" ");
    push_padded_right(&mut line, name_col, 24);
    line.append(" ");
    let ttl_chars = chars_of(ttl.as_str());
    push_padded_left(&mut line, &ttl_chars, 5);
    line.append(" IN ");
    push_padded_right(&mut line, record_type, 6);
    line.append(" ");
    line.append(data.as_str());
    let colored = if is_removal {
        red(enabled, line.as_str())
    } else {
        green(enabled, line.as_str())
    };
    out.append(colored.as_str());
    out.append("\n");
}

/// Appends the `+`/`-`/`~` lines of one entry.
fn push_entry(out: &mut String, enabled: bool, e: &RecordDiffEntry)
    ensures
        final(out)@ == old(out)@ + entry_text(enabled, *e),
{
    let sign = if str_equal(e.change.as_str(), "added") {
        '+'
    } else if str_equal(e.change.as_str(), "removed") {
        '-'
    } else {
        '~'
    };
    let rtype = e.record_type.as_str();
    let from_lines = rendered_lines(&e.from, rtype);
    let to_lines = rendered_lines(&e.to, rtype);
    let mut lines = lines_absent_from(&from_lines, &to_lines);
    let removed = lines.len();
    let added = lines_absent_from(&to_lines, &from_lines);
    let mut k: usize = 0;
    let ghost first = lines@;
    while k < added.len()
        invariant
            k <= added@.len(),
            lines@ == first + added@.take(k as int),
        decreases added.len() - k,
    {
        lines.push((added[k].0.clone(), added[k].1.clone()));
        assert(added@.take(k + 1) == added@.take(k as int).push(added@[k as int]));
        k = k + 1;
    }
    proof {
        assert(added@.take(added@.len() as int) == added@);
        assert(pair_views(lines@) =~= pair_views(first) + pair_views(added@));
        assert(pair_views(lines@) == delta_lines(*e));
        assert(removed == removed_count(*e));
    }
    let name = chars_of(e.name.as_str());
    let type_chars = chars_of(rtype);
    let empty: Vec<char> = Vec::new();
    let ghost start = out@;
    let mut i: usize = 0;
    while i < lines.len()
        invariant
            i <= lines@.len(),
            pair_views(lines@) == delta_lines(*e),
            removed == removed_count(*e),
            name@ == e.name@,
            type_chars@ == e.record_type@,
            empty@ == Seq::<char>::empty(),
            sign == change_sign(e.change@),
            out@ == start + entry_text_upto(enabled, *e, i as nat),
        decreases lines.len() - i,
    {
        let head = if i == 0 {
            sign
        } else {
            ' '
        };
        let name_col: &[char] = if i == 0 {
            name.as_slice()
        } else {
            empty.as_slice()
        };
        push_diff_line(
            out,
            enabled,
            head,
            name_col,
            &lines[i].0,
            &type_chars,
            &lines[i].1,
            i < removed,
        );
        assert(pair_views(lines@)[i as int] == (lines@[i as int].0@, lines@[i as int].1@));
        i = i + 1;
    }
}

/// Render the `+`/`-`/`~` lines for a diff's entries (no summary footer). A
/// changed RRset stacks its removed records above its added ones.
pub fn render_diff_lines(enabled: bool, entries: &Vec<RecordDiffEntry>) -> (r: String)
    ensures
        r@ == diff_text(enabled, entries@),
{
    let mut out = String::new();
    let mut i: usize = 0;
    while i < entries.len()
        invariant
            i <= entries@.len(),
            out@ == diff_text(enabled, entries@.take(i as int)),
        decreases entries.len() - i,
    {
        push_entry(&mut out, enabled, &entries[i]);
        assert(entries@.take(i + 1).drop_last() == entries@.take(i as int));
        i = i + 1;
    }
    assert(entries@.take(entries@.len() as int) == entries@);
    out
}

/// The number of entries whose change is `change`.
pub fn count(entries: &Vec<RecordDiffEntry>, change: &str) -> (n: usize)
    ensures
        n == change_count(entries@, change@),
{
    let mut n: usize = 0;
    let mut i: usize = 0;
    while i < entries.len()
        invariant
            i <= entries@.len(),
            n == change_count(entries@.take(i as int), change@),
            n <= i,
        decreases entries.len() - i,
    {
        assert(entries@.take(i + 1).drop_last() == entries@.take(i as int));
        if str_equal(entries[i].change.as_str(), change) {
            n = n + 1;
        }
        i = i + 1;
    }
    assert(entries@.take(entries@.len() as int) == entries@);
    n
}

/// Render a preview of a diff: the change lines plus a summary footer.
pub fn render_change_preview(enabled: bool, entries: &Vec<RecordDiffEntry>) -> (r: String)
    ensures
        r@ == preview_text(enabled, entries@),
{
    let mut out = render_diff_lines(enabled, entries);
    out.append("\n");
    out.append("Records: ");
    let mut plus = String::new();
    push_char(&mut plus, '+');
    push_nat_text(&mut plus, count(entries, "added") as u64);
    let mut minus = String::new();
    push_char(&mut minus, '-');
    push_nat_text(&mut minus, count(entries, "removed") as u64);
    let mut tilde = String::new();
    push_char(&mut tilde, '~');
    push_nat_text(&mut tilde, count(entries, "changed") as u64);
    proof {
        assert(Seq::<char>::empty().push('+') == seq!['+']);
        assert(Seq::<char>::empty().push('-') == seq!['-']);
        assert(Seq::<char>::empty().push('~') == seq!['~']);
    }
    out.append(green(enabled, plus.as_str()).as_str());
    out.append(" ");
    out.append(red(enabled, minus.as_str()).as_str());
    out.append(" ");
    out.append(yellow(enabled, tilde.as_str()).as_str());
    out.append("\n");
    out
}

/// A version diff: the patch, then the SOA serials it spans and the counts
/// of added, removed and changed RRsets.
pub open spec fn version_diff_text(
    enabled: bool,
    entries: Seq<RecordDiffEntry>,
    from_serial: i64,
    to_serial: i64,
    added: u64,
    removed: u64,
    changed: u64,
) -> Seq<char> {
    diff_text(enabled, entries) + "\n"@ + "SOA serial: "@ + int_text(from_serial as int) + " -> "@
        + int_text(to_serial as int) + "\n"@ + "Records: +"@ + nat_text(added as nat) + " -"@
        + nat_text(removed as nat) + " ~"@ + nat_text(changed as nat) + "\n"@
}

/// Render a version diff: the `+`/`-`/`~` lines plus the SOA-serial and count
/// footers. Serials and counts the daemon left out read as 0.
pub fn render_snapshot_diff(
    enabled: bool,
    entries: &Vec<RecordDiffEntry>,
    from_serial: Option<i64>,
    to_serial: Option<i64>,
    added: Option<u64>,
    removed: Option<u64>,
    changed: Option<u64>,
) -> (r: String)
    ensures
        r@ == version_diff_text(
            enabled,
            entries@,
            from_serial.unwrap_or(0),
            to_serial.unwrap_or(0),
            added.unwrap_or(0),
            removed.unwrap_or(0),
            changed.unwrap_or(0),
        ),
{
    let mut out = render_diff_lines(enabled, entries);
    out.append("\n");
    out.append("SOA serial: ");
    push_int_text(&mut out, from_serial.unwrap_or(0));
    out.append(" -> ");
    push_int_text(&mut out, to_serial.unwrap_or(0));
    out.append("\n");
    out.append("Records: +");
    push_nat_text(&mut out, added.unwrap_or(0));
    out.append(" -");
    push_nat_text(&mut out, removed.unwrap_or(0));
    out.append(" ~");
    push_nat_text(&mut out, changed.unwrap_or(0));
    out.append("\n");
    out
}

/// An MX or SRV record's rdata leads with the record's own priority: the
/// decimal priority, a space, then the value's text. Only a record without a
/// priority shows the default 10; any other type shows the value alone.
pub proof fn lemma_rdata_priority_inline(value: RecordValue, priority: Option<i32>, record_type: Seq<char>)
    ensures
        (record_type == "MX"@ || record_type == "SRV"@) && priority is Some ==> rdata_text(
            value,
            priority,
            record_type,
        ) == int_text(priority.unwrap() as int) + " "@ + concat_all(segments_of(value)),
        (record_type == "MX"@ || record_type == "SRV"@) && priority is None ==> rdata_text(
            value,
            priority,
            record_type,
        ) == int_text(10) + " "@ + concat_all(segments_of(value)),
        record_type != "MX"@ && record_type != "SRV"@ && record_type != "TXT"@ ==> rdata_text(
            value,
            priority,
            record_type,
        ) == concat_all(segments_of(value)),
{
    reveal_strlit("MX");
    reveal_strlit("SRV");
    reveal_strlit("TXT");
    assert("MX"@.len() != "TXT"@.len());
    assert("SRV"@[0] != "TXT"@[0]);
}

} // verus!
