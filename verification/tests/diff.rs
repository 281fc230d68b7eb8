use bindizr::diff::{
    count, rdata, render_change_preview, render_diff_lines, render_snapshot_diff, RecordDiffEntry,
    RecordDiffValue, RecordValue,
};

fn text(s: &str) -> RecordValue {
    RecordValue::Text(s.to_string())
}

fn value(v: RecordValue, ttl: i32, priority: Option<i32>) -> RecordDiffValue {
    RecordDiffValue { value: v, ttl, priority }
}

fn entry(name: &str, rtype: &str, change: &str, from: Vec<RecordDiffValue>, to: Vec<RecordDiffValue>) -> RecordDiffEntry {
    RecordDiffEntry {
        name: name.to_string(),
        record_type: rtype.to_string(),
        change: change.to_string(),
        from,
        to,
    }
}

fn line(sign: char, name: &str, ttl: &str, rtype: &str, data: &str) -> String {
    format!("{} {:<24} {:>5} IN {:<6} {}\n", sign, name, ttl, rtype, data)
}

#[test]
fn rdata_puts_the_priority_inline_for_mx_and_srv() {
    assert_eq!(rdata(&text("mail.example.com."), Some(5), "MX"), "5 mail.example.com.");
    assert_eq!(rdata(&text("0 5060 sip.example.com."), None, "SRV"), "10 0 5060 sip.example.com.");
    assert_eq!(rdata(&text("192.0.2.1"), Some(5), "A"), "192.0.2.1");
}

#[test]
fn rdata_quotes_each_txt_segment() {
    let v = RecordValue::Segments(vec!["hello world".to_string(), "a\"b\\c".to_string()]);
    assert_eq!(rdata(&v, None, "TXT"), "\"hello world\" \"a\\\"b\\\\c\"");
    assert_eq!(rdata(&text("v=spf1 -all"), None, "TXT"), "\"v=spf1 -all\"");
}

#[test]
fn rdata_escapes_bytes_outside_printable_ascii() {
    assert_eq!(rdata(&text("\u{e9}\n"), None, "TXT"), "\"\\195\\169\\010\"");
}

#[test]
fn rdata_concatenates_segments_of_other_types() {
    let v = RecordValue::Segments(vec!["ab".to_string(), "cd".to_string()]);
    assert_eq!(rdata(&v, None, "CNAME"), "abcd");
}

#[test]
fn a_changed_rrset_stacks_removed_above_added() {
    let e = entry(
        "www",
        "A",
        "changed",
        vec![value(text("192.0.2.1"), 3600, None), value(text("192.0.2.9"), 3600, None)],
        vec![value(text("192.0.2.2"), 3600, None), value(text("192.0.2.9"), 3600, None)],
    );
    let expected = line('~', "www", "3600", "A", "192.0.2.1") + &line(' ', "", "3600", "A", "192.0.2.2");
    assert_eq!(render_diff_lines(false, &vec![e]), expected);
}

#[test]
fn a_ttl_only_change_shows_both_lines() {
    let e = entry(
        "@",
        "MX",
        "changed",
        vec![value(text("mx."), 300, Some(10))],
        vec![value(text("mx."), 600, Some(10))],
    );
    let expected = line('~', "@", "300", "MX", "10 mx.") + &line(' ', "", "600", "MX", "10 mx.");
    assert_eq!(render_diff_lines(false, &vec![e]), expected);
}

#[test]
fn diff_lines_are_colored_by_side() {
    let e = entry("a", "A", "removed", vec![value(text("192.0.2.1"), 60, None)], vec![]);
    let plain = format!("- {:<24} {:>5} IN {:<6} {}", "a", "60", "A", "192.0.2.1");
    assert_eq!(render_diff_lines(true, &vec![e]), format!("\x1b[31m{}\x1b[0m\n", plain));
    let e = entry("b", "A", "added", vec![], vec![value(text("192.0.2.2"), 60, None)]);
    let plain = format!("+ {:<24} {:>5} IN {:<6} {}", "b", "60", "A", "192.0.2.2");
    assert_eq!(render_diff_lines(true, &vec![e]), format!("\x1b[32m{}\x1b[0m\n", plain));
}

#[test]
fn an_empty_diff_renders_nothing() {
    assert_eq!(render_diff_lines(false, &vec![]), "");
}

#[test]
fn preview_ends_with_the_summary_footer() {
    let entries = vec![
        entry("a", "A", "added", vec![], vec![value(text("192.0.2.1"), 60, None)]),
        entry("b", "A", "added", vec![], vec![value(text("192.0.2.2"), 60, None)]),
        entry("c", "A", "removed", vec![value(text("192.0.2.3"), 60, None)], vec![]),
    ];
    assert_eq!(count(&entries, "added"), 2);
    assert_eq!(count(&entries, "removed"), 1);
    assert_eq!(count(&entries, "changed"), 0);
    let body = line('+', "a", "60", "A", "192.0.2.1")
        + &line('+', "b", "60", "A", "192.0.2.2")
        + &line('-', "c", "60", "A", "192.0.2.3");
    assert_eq!(render_change_preview(false, &entries), body + "\nRecords: +2 -1 ~0\n");
}

#[test]
fn snapshot_diff_ends_with_the_serial_and_count_footers() {
    let entries = vec![entry("a", "A", "added", vec![], vec![value(text("192.0.2.1"), 60, None)])];
    let out = render_snapshot_diff(false, &entries, Some(2024010101), Some(2024010102), Some(1), None, Some(0));
    let expected = line('+', "a", "60", "A", "192.0.2.1")
        + "\nSOA serial: 2024010101 -> 2024010102\nRecords: +1 -0 ~0\n";
    assert_eq!(out, expected);
}

#[test]
fn snapshot_diff_reads_missing_serials_as_zero() {
    let out = render_snapshot_diff(false, &vec![], None, None, None, None, None);
    assert_eq!(out, "\nSOA serial: 0 -> 0\nRecords: +0 -0 ~0\n");
}

#[test]
fn txt_rdata_tells_segment_lists_apart() {
    let seg = |v: &[&str]| RecordValue::Segments(v.iter().map(|s| s.to_string()).collect());
    let one = rdata(&seg(&["a b"]), None, "TXT");
    let two = rdata(&seg(&["a", "b"]), None, "TXT");
    let quote = rdata(&seg(&["a\" \"b"]), None, "TXT");
    assert_eq!(one, "\"a b\"");
    assert_eq!(two, "\"a\" \"b\"");
    assert_eq!(quote, "\"a\\\" \\\"b\"");
    assert_ne!(one, two);
    assert_ne!(two, quote);
    assert_ne!(rdata(&seg(&[]), None, "TXT"), rdata(&seg(&[""]), None, "TXT"));
}
