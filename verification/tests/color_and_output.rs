use bindizr::color::{cyan, green, paint, red, yellow};
use bindizr::output::{page_remainder, OutputFormat};

#[test]
fn paint_wraps_text_in_the_sgr_sequence_when_enabled() {
    assert_eq!(paint(true, "1", "bold"), "\x1b[1mbold\x1b[0m");
    assert_eq!(green(true, "ok"), "\x1b[32mok\x1b[0m");
    assert_eq!(red(true, "no"), "\x1b[31mno\x1b[0m");
    assert_eq!(yellow(true, "eh"), "\x1b[33meh\x1b[0m");
    assert_eq!(cyan(true, "[api]"), "\x1b[36m[api]\x1b[0m");
}

#[test]
fn uncolored_text_is_plain() {
    assert_eq!(paint(false, "1", "bold"), "bold");
    assert_eq!(green(false, "ok"), "ok");
    assert_eq!(red(false, "no"), "no");
    assert_eq!(yellow(false, ""), "");
    assert_eq!(cyan(false, "[api]"), "[api]");
}

#[test]
fn output_format_parses_any_case() {
    assert!(matches!(OutputFormat::from_str("json"), Ok(OutputFormat::Json)));
    assert!(matches!(OutputFormat::from_str("YAML"), Ok(OutputFormat::Yaml)));
    assert!(matches!(OutputFormat::from_str("Table"), Ok(OutputFormat::Table)));
}

#[test]
fn output_format_rejects_other_names() {
    match OutputFormat::from_str("xml") {
        Err(m) => assert_eq!(m, "Invalid output format: xml. Valid options are: json, yaml, table"),
        Ok(_) => panic!("xml is not a format"),
    }
    assert!(OutputFormat::from_str("").is_err());
    assert!(OutputFormat::from_str("jsonx").is_err());
}

#[test]
fn page_remainder_counts_rows_seen_so_far() {
    assert_eq!(
        page_remainder(Some(120), Some(50), Some(20)),
        Some("Showing 70 of 120; page the rest with --limit and --offset.".to_string())
    );
    assert_eq!(
        page_remainder(Some(3), Some(2), None),
        Some("Showing 2 of 3; page the rest with --limit and --offset.".to_string())
    );
}

#[test]
fn page_remainder_is_silent_at_the_end_or_without_counts() {
    assert_eq!(page_remainder(Some(70), Some(50), Some(20)), None);
    assert_eq!(page_remainder(None, Some(50), Some(0)), None);
    assert_eq!(page_remainder(Some(70), None, Some(0)), None);
}
