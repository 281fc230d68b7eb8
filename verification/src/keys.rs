//! Key material as files BIND tooling reads: DNSSEC key pairs under the
//! `K<zone>.+<alg>+<tag>` names `dnssec-keygen` gives them, and a TSIG key as
//! the `key` statement BIND, Knot and NSD all read.

use vstd::prelude::*;
use crate::text::{
    chars_of, digit_char, digits_value, is_digit, lemma_digit_char_value, nat_text, push_char,
    push_chars, trim_end, trim_end_str, u64_text,
};

verus! {

/// One exported DNSSEC key: its public record and private key file text.
pub struct ExportedKey {
    pub role: String,
    pub algorithm: u32,
    pub key_tag: u32,
    pub dnskey_record: String,
    pub private_key: String,
}

/// `n` zeros.
pub open spec fn zeros(n: nat) -> Seq<char> {
    Seq::new(n, |i: int| '0')
}

/// Zero-padded on the left to `w` characters (`{:0w}`).
pub open spec fn zero_pad(s: Seq<char>, w: nat) -> Seq<char> {
    if s.len() < w {
        zeros((w - s.len()) as nat) + s
    } else {
        s
    }
}

/// How many times `x` occurs in `s`.
pub open spec fn count_equal(s: Seq<(u32, u32)>, x: (u32, u32)) -> nat
    decreases s.len(),
{
    if s.len() == 0 {
        0
    } else {
        count_equal(s.drop_last(), x) + if s.last() == x {
            1nat
        } else {
            0nat
        }
    }
}

/// How many keys before the `i`th share its (algorithm, tag).
pub open spec fn same_before(keys: Seq<(u32, u32)>, i: int) -> nat {
    count_equal(keys.take(i), keys[i])
}

/// The base file name of a key: `K<zone>.+<alg:03>+<tag:05>`, and, for the
/// `n`th key sharing an (algorithm, tag) with earlier ones, `.<n+1>` so the
/// names stay unique.
pub open spec fn key_file_base(zone: Seq<char>, algorithm: u32, key_tag: u32, dup: nat) -> Seq<char> {
    seq!['K'] + zone + seq!['.', '+'] + zero_pad(nat_text(algorithm as nat), 3) + seq!['+']
        + zero_pad(nat_text(key_tag as nat), 5) + (if dup > 0 {
        seq!['.'] + nat_text(dup + 1)
    } else {
        Seq::empty()
    })
}

pub open spec fn key_pairs(keys: Seq<ExportedKey>) -> Seq<(u32, u32)> {
    keys.map_values(|k: ExportedKey| (k.algorithm, k.key_tag))
}

/// The four lines printed for one key: a comment naming its `.key` file,
/// the DNSKEY record, a comment naming its `.private` file, and the private
/// key text without trailing whitespace.
pub open spec fn key_lines(zone: Seq<char>, keys: Seq<ExportedKey>, i: int) -> Seq<Seq<char>> {
    let k = keys[i];
    let base = key_file_base(zone, k.algorithm, k.key_tag, same_before(key_pairs(keys), i));
    seq![
        "; "@ + base + ".key ("@ + k.role@ + ", tag "@ + nat_text(k.key_tag as nat) + ")"@,
        k.dnskey_record@,
        "; "@ + base + ".private"@,
        trim_end(k.private_key@),
    ]
}

/// The lines for the first `n` keys.
pub open spec fn material_lines(zone: Seq<char>, keys: Seq<ExportedKey>, n: nat) -> Seq<Seq<char>>
    decreases n,
{
    if n == 0 {
        Seq::empty()
    } else {
        material_lines(zone, keys, (n - 1) as nat) + key_lines(zone, keys, n - 1)
    }
}

// ---------------------------------------------------------------------------
// Unique names
// ---------------------------------------------------------------------------

proof fn lemma_nat_text_digits(n: nat)
    ensures
        forall|i: int| 0 <= i < nat_text(n).len() ==> is_digit(#[trigger] nat_text(n)[i]),
        digits_value(nat_text(n)) == n,
        nat_text(n).len() >= 1,
    decreases n,
{
    lemma_digit_char_value(n % 10);
    if n >= 10 {
        lemma_nat_text_digits(n / 10);
        let t = nat_text(n);
        assert(t.drop_last() == nat_text(n / 10));
        assert forall|i: int| 0 <= i < t.len() implies is_digit(#[trigger] t[i]) by {
            if i < t.len() - 1 {
                assert(t[i] == nat_text(n / 10)[i]);
            }
        }
        assert(t.last() == digit_char(n % 10));
        assert(digits_value(t) == digits_value(nat_text(n / 10)) * 10 + ((t.last() as u32 - '0' as u32) as nat));
        assert((n / 10) * 10 + n % 10 == n) by (nonlinear_arith);
    } else {
        assert(nat_text(n).drop_last() =~= Seq::<char>::empty());
        assert(digits_value(Seq::<char>::empty()) == 0);
        assert(digits_value(nat_text(n)) == digits_value(nat_text(n).drop_last()) * 10 + ((nat_text(n).last() as u32 - '0' as u32) as nat));
    }
}

proof fn lemma_zeros_prefix_value(k: nat, s: Seq<char>)
    ensures
        digits_value(zeros(k) + s) == digits_value(s),
    decreases s.len(), k,
{
    if s.len() == 0 {
        assert(zeros(k) + s == zeros(k));
        if k > 0 {
            assert(zeros(k).drop_last() == zeros((k - 1) as nat));
            lemma_zeros_prefix_value((k - 1) as nat, s);
            assert(zeros((k - 1) as nat) + s == zeros((k - 1) as nat));
        }
    } else {
        assert((zeros(k) + s).drop_last() == zeros(k) + s.drop_last());
        assert((zeros(k) + s).last() == s.last());
        lemma_zeros_prefix_value(k, s.drop_last());
    }
}

proof fn lemma_padded_number(n: nat, w: nat)
    ensures
        forall|i: int|
            0 <= i < zero_pad(nat_text(n), w).len() ==> is_digit(#[trigger] zero_pad(nat_text(n), w)[i]),
        digits_value(zero_pad(nat_text(n), w)) == n,
        zero_pad(nat_text(n), w).len() >= 1,
{
    lemma_nat_text_digits(n);
    let s = nat_text(n);
    if s.len() < w {
        let z = zeros((w - s.len()) as nat);
        lemma_zeros_prefix_value((w - s.len()) as nat, s);
        assert forall|i: int| 0 <= i < (z + s).len() implies is_digit(#[trigger] (z + s)[i]) by {
            if i >= z.len() {
                assert((z + s)[i] == s[i - z.len()]);
            }
        }
    }
}

/// Two digit runs each followed by a separator that is not a digit: equal
/// texts split at the same place.
proof fn lemma_split_after_digits(a1: Seq<char>, r1: Seq<char>, a2: Seq<char>, r2: Seq<char>)
    requires
        forall|i: int| 0 <= i < a1.len() ==> is_digit(#[trigger] a1[i]),
        forall|i: int| 0 <= i < a2.len() ==> is_digit(#[trigger] a2[i]),
        r1.len() > 0 ==> !is_digit(r1[0]),
        r2.len() > 0 ==> !is_digit(r2[0]),
        a1 + r1 == a2 + r2,
    ensures
        a1 == a2,
        r1 == r2,
{
    let x = a1 + r1;
    if a1.len() < a2.len() {
        assert(x[a1.len() as int] == a2[a1.len() as int]);
        if r1.len() > 0 {
            assert(x[a1.len() as int] == r1[0]);
        }
        assert(false);
    } else if a2.len() < a1.len() {
        assert(x[a2.len() as int] == a1[a2.len() as int]);
        assert((a2 + r2)[a2.len() as int] == r2[0]);
        assert(false);
    }
    assert(a1 =~= x.take(a1.len() as int));
    assert(a2 =~= (a2 + r2).take(a2.len() as int));
    assert(r1 =~= x.skip(a1.len() as int));
    assert(r2 =~= (a2 + r2).skip(a2.len() as int));
}

/// Equal base names (for one zone) mean equal algorithms, tags and
/// duplicate counts.
pub proof fn lemma_key_file_base_injective(
    zone: Seq<char>,
    a1: u32,
    t1: u32,
    d1: nat,
    a2: u32,
    t2: u32,
    d2: nat,
)
    requires
        key_file_base(zone, a1, t1, d1) == key_file_base(zone, a2, t2, d2),
    ensures
        a1 == a2,
        t1 == t2,
        d1 == d2,
{
    let p = seq!['K'] + zone + seq!['.', '+'];
    let pa1 = zero_pad(nat_text(a1 as nat), 3);
    let pa2 = zero_pad(nat_text(a2 as nat), 3);
    let pt1 = zero_pad(nat_text(t1 as nat), 5);
    let pt2 = zero_pad(nat_text(t2 as nat), 5);
    let s1 = if d1 > 0 {
        seq!['.'] + nat_text(d1 + 1)
    } else {
        Seq::<char>::empty()
    };
    let s2 = if d2 > 0 {
        seq!['.'] + nat_text(d2 + 1)
    } else {
        Seq::<char>::empty()
    };
    let rest1 = pa1 + (seq!['+'] + (pt1 + s1));
    let rest2 = pa2 + (seq!['+'] + (pt2 + s2));
    assert(key_file_base(zone, a1, t1, d1) =~= p + rest1);
    assert(key_file_base(zone, a2, t2, d2) =~= p + rest2);
    assert(rest1 =~= (p + rest1).skip(p.len() as int));
    assert(rest2 =~= (p + rest2).skip(p.len() as int));
    lemma_padded_number(a1 as nat, 3);
    lemma_padded_number(a2 as nat, 3);
    lemma_padded_number(t1 as nat, 5);
    lemma_padded_number(t2 as nat, 5);
    lemma_split_after_digits(pa1, seq!['+'] + (pt1 + s1), pa2, seq!['+'] + (pt2 + s2));
    assert(pt1 + s1 =~= (seq!['+'] + (pt1 + s1)).skip(1));
    assert(pt2 + s2 =~= (seq!['+'] + (pt2 + s2)).skip(1));
    lemma_split_after_digits(pt1, s1, pt2, s2);
    if d1 > 0 && d2 > 0 {
        let n1 = nat_text(d1 + 1);
        let n2 = nat_text(d2 + 1);
        assert(n1 =~= s1.skip(1));
        assert(n2 =~= s2.skip(1));
        lemma_nat_text_digits(d1 + 1);
        lemma_nat_text_digits(d2 + 1);
    } else if d1 > 0 {
        lemma_nat_text_digits(d1 + 1);
        assert(s1.len() > 0);
    } else if d2 > 0 {
        lemma_nat_text_digits(d2 + 1);
        assert(s2.len() > 0);
    }
}

proof fn lemma_count_equal_grows(s: Seq<(u32, u32)>, i: int, j: int)
    requires
        0 <= i < j <= s.len(),
    ensures
        count_equal(s.take(j), s[i]) >= count_equal(s.take(i), s[i]) + 1,
    decreases j - i,
{
    let x = s[i];
    if j == i + 1 {
        assert(s.take(j).drop_last() == s.take(i));
        assert(s.take(j).last() == x);
    } else {
        lemma_count_equal_grows(s, i, j - 1);
        assert(s.take(j).drop_last() == s.take(j - 1));
    }
}

/// Every key of an export gets its own file name: keys that share an
/// algorithm and a tag are told apart by their suffix.
pub proof fn lemma_key_file_names_unique(zone: Seq<char>, keys: Seq<(u32, u32)>, i: int, j: int)
    requires
        0 <= i < j < keys.len(),
    ensures
        key_file_base(zone, keys[i].0, keys[i].1, same_before(keys, i)) != key_file_base(
            zone,
            keys[j].0,
            keys[j].1,
            same_before(keys, j),
        ),
{
    if key_file_base(zone, keys[i].0, keys[i].1, same_before(keys, i)) == key_file_base(
        zone,
        keys[j].0,
        keys[j].1,
        same_before(keys, j),
    ) {
        lemma_key_file_base_injective(
            zone,
            keys[i].0,
            keys[i].1,
            same_before(keys, i),
            keys[j].0,
            keys[j].1,
            same_before(keys, j),
        );
        assert(keys[i] == keys[j]);
        lemma_count_equal_grows(keys, i, j);
    }
}

// ---------------------------------------------------------------------------
// Implementation
// ---------------------------------------------------------------------------

/// Appends `n` zero-padded to `w` characters.
fn push_zero_padded(out: &mut String, n: u32, w: usize)
    ensures
        final(out)@ == old(out)@ + zero_pad(nat_text(n as nat), w as nat),
{
    let digits = chars_of(u64_text(n as u64).as_str());
    if digits.len() < w {
        let mut k: usize = 0;
        let fill = w - digits.len();
        let ghost start = out@;
        while k < fill
            invariant
                k <= fill,
                out@ == start + zeros(k as nat),
            decreases fill - k,
        {
            push_char(out, '0');
            assert(zeros((k + 1) as nat) == zeros(k as nat).push('0'));
            k = k + 1;
        }
    }
    push_chars(out, &digits);
}

/// The base file name of the `i`th key.
pub fn key_file_base_name(zone: &str, keys: &Vec<ExportedKey>, i: usize) -> (r: String)
    requires
        i < keys@.len(),
    ensures
        r@ == key_file_base(
            zone@,
            keys@[i as int].algorithm,
            keys@[i as int].key_tag,
            same_before(key_pairs(keys@), i as int),
        ),
{
    let ghost pairs = key_pairs(keys@);
    let target = (keys[i].algorithm, keys[i].key_tag);
    let mut dup: usize = 0;
    let mut j: usize = 0;
    while j < i
        invariant
            j <= i < keys@.len(),
            pairs == key_pairs(keys@),
            target == pairs[i as int],
            dup == count_equal(pairs.take(j as int), target),
            dup <= j,
        decreases i - j,
    {
        assert(pairs.take(j + 1).drop_last() == pairs.take(j as int));
        assert(pairs.take(j + 1).last() == pairs[j as int]);
        if keys[j].algorithm == target.0 && keys[j].key_tag == target.1 {
            dup = dup + 1;
        }
        j = j + 1;
    }
    let mut base = String::new();
    push_char(&mut base, 'K');
    base.append(zone);
    push_char(&mut base, '.');
    push_char(&mut base, '+');
    push_zero_padded(&mut base, keys[i].algorithm, 3);
    push_char(&mut base, '+');
    push_zero_padded(&mut base, keys[i].key_tag, 5);
    let ghost before = base@;
    if dup > 0 {
        push_char(&mut base, '.');
        assert(dup <= i && i < keys.len());
        let suffix = u64_text(dup as u64 + 1);
        base.append(suffix.as_str());
    }
    proof {
        let s = if dup > 0 {
            seq!['.'] + nat_text((dup + 1) as nat)
        } else {
            Seq::<char>::empty()
        };
        assert(base@ =~= before + s);
        assert(Seq::<char>::empty().push('K') =~= seq!['K']);
    }
    base
}

/// Print each key as its BIND file pair, headed by the file name BIND
/// tooling expects, so the stream splits cleanly into `K*.key`/`K*.private`
/// (the lines to print).
pub fn print_key_material(zone: &str, keys: &Vec<ExportedKey>) -> (r: Vec<String>)
    ensures
        r@.map_values(|s: String| s@) == material_lines(zone@, keys@, keys@.len()),
{
    let mut r: Vec<String> = Vec::new();
    let mut i: usize = 0;
    while i < keys.len()
        invariant
            i <= keys@.len(),
            r@.map_values(|s: String| s@) == material_lines(zone@, keys@, i as nat),
        decreases keys.len() - i,
    {
        let base = key_file_base_name(zone, keys, i);
        let k = &keys[i];
        let mut first = String::from_str("; ");
        first.append(base.as_str());
        first.append(".key (");
        first.append(k.role.as_str());
        first.append(", tag ");
        first.append(u64_text(k.key_tag as u64).as_str());
        first.append(")");
        let mut third = String::from_str("; ");
        third.append(base.as_str());
        third.append(".private");
        let ghost before = r@;
        r.push(first);
        r.push(k.dnskey_record.clone());
        r.push(third);
        r.push(trim_end_str(k.private_key.as_str()));
        proof {
            let mapped = r@.map_values(|s: String| s@);
            let want = material_lines(zone@, keys@, (i + 1) as nat);
            assert(want == material_lines(zone@, keys@, i as nat) + key_lines(zone@, keys@, i as int));
            assert(mapped.len() == want.len());
            assert forall|j: int| 0 <= j < mapped.len() implies mapped[j] == want[j] by {
                if j < before.len() {
                    assert(r@[j] == before[j]);
                    assert(before.map_values(|s: String| s@)[j] == mapped[j]);
                }
            }
            assert(mapped =~= want);
        }
        i = i + 1;
    }
    r
}

/// A TSIG key as the `key` statement BIND, Knot and NSD all read, so the
/// secret reaches a secondary as something to paste rather than reformat.
pub open spec fn bind_key_lines(name: Seq<char>, algorithm: Seq<char>, secret: Seq<char>) -> Seq<Seq<char>> {
    seq![
        "key \""@ + name + "\" {"@,
        "    algorithm "@ + algorithm + ";"@,
        "    secret \""@ + secret + "\";"@,
        "};"@,
    ]
}

/// The `key` statement for a TSIG key (the lines to print).
pub fn print_bind_key(name: &str, algorithm: &str, secret: &str) -> (r: Vec<String>)
    ensures
        r@.map_values(|s: String| s@) == bind_key_lines(name@, algorithm@, secret@),
{
    let mut a = String::from_str("key \"");
    a.append(name);
    a.append("\" {");
    let mut b = String::from_str("    algorithm ");
    b.append(algorithm);
    b.append(";");
    let mut c = String::from_str("    secret \"");
    c.append(secret);
    c.append("\";");
    let d = String::from_str("};");
    let r = vec![a, b, c, d];
    assert(r@.map_values(|s: String| s@) =~= bind_key_lines(name@, algorithm@, secret@));
    r
}

/// The key material is four lines per key, in the keys' order: the `.key`
/// header, then that key's own DNSKEY record, the `.private` header, then
/// that key's own private key text without trailing whitespace.
pub proof fn lemma_material_lines_per_key(zone: Seq<char>, keys: Seq<ExportedKey>, n: nat, i: int)
    requires
        n <= keys.len(),
        0 <= i < n,
    ensures
        material_lines(zone, keys, n).len() == 4 * n,
        material_lines(zone, keys, n)[4 * i + 1] == keys[i].dnskey_record@,
        material_lines(zone, keys, n)[4 * i + 3] == trim_end(keys[i].private_key@),
    decreases n,
{
    lemma_material_lines_len(zone, keys, (n - 1) as nat);
    if i < n - 1 {
        lemma_material_lines_per_key(zone, keys, (n - 1) as nat, i);
    }
}

proof fn lemma_material_lines_len(zone: Seq<char>, keys: Seq<ExportedKey>, n: nat)
    ensures
        material_lines(zone, keys, n).len() == 4 * n,
    decreases n,
{
    if n > 0 {
        lemma_material_lines_len(zone, keys, (n - 1) as nat);
    }
}

} // verus!
