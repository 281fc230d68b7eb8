use bindizr::time::Timestamp;

#[test]
fn timestamps_render_in_rfc3339_and_wall_clock_form() {
    let t = Timestamp::new(1_700_000_000, 0).unwrap();
    assert_eq!(t.to_rfc3339(), "2023-11-14T22:13:20+00:00");
    assert_eq!(t.wall_clock(), "2023-11-14 22:13:20");
}

#[test]
fn timestamps_keep_their_nanoseconds() {
    let t = Timestamp::new(0, 500_000_000).unwrap();
    assert_eq!(t.to_rfc3339(), "1970-01-01T00:00:00.500+00:00");
    assert_eq!(t.wall_clock(), "1970-01-01 00:00:00");
}

#[test]
fn unrepresentable_instants_are_refused() {
    assert!(Timestamp::new(i64::MAX, 0).is_none());
    assert!(Timestamp::new(0, 2_000_000_000).is_none());
}
