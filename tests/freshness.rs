use rym_bridge::release_date::{compute_ttl_seconds, is_fresh, parse_release_date_to_timestamp};

const DAY: i64 = 86400;
const NOW: i64 = 1792368000; // 2026-10-19T00:00:00Z

#[test]
fn ttl_unknown_release_is_180_days() {
    assert_eq!(compute_ttl_seconds(NOW, None), 180 * DAY);
}

#[test]
fn ttl_buckets_by_age() {
    assert_eq!(compute_ttl_seconds(NOW, Some(NOW - 13 * DAY)), DAY);
    assert_eq!(compute_ttl_seconds(NOW, Some(NOW - 14 * DAY)), 3 * DAY);
    assert_eq!(compute_ttl_seconds(NOW, Some(NOW - 29 * DAY)), 3 * DAY);
    assert_eq!(compute_ttl_seconds(NOW, Some(NOW - 30 * DAY)), 14 * DAY);
    assert_eq!(compute_ttl_seconds(NOW, Some(NOW - 179 * DAY)), 14 * DAY);
    assert_eq!(compute_ttl_seconds(NOW, Some(NOW - 180 * DAY)), 30 * DAY);
    assert_eq!(compute_ttl_seconds(NOW, Some(NOW - 364 * DAY)), 30 * DAY);
    assert_eq!(compute_ttl_seconds(NOW, Some(NOW - 365 * DAY)), 90 * DAY);
    assert_eq!(compute_ttl_seconds(NOW, Some(NOW - 729 * DAY)), 90 * DAY);
    assert_eq!(compute_ttl_seconds(NOW, Some(NOW - 730 * DAY)), 180 * DAY);
    assert_eq!(compute_ttl_seconds(NOW, Some(0)), 180 * DAY);
}

#[test]
fn ttl_future_release_counts_as_new() {
    assert_eq!(compute_ttl_seconds(NOW, Some(NOW + 40 * DAY)), DAY);
}

#[test]
fn ttl_extreme_instants_do_not_overflow() {
    assert_eq!(compute_ttl_seconds(i64::MAX, Some(i64::MIN)), 180 * DAY);
    assert_eq!(compute_ttl_seconds(i64::MIN, Some(i64::MAX)), DAY);
}

#[test]
fn fresh_boundary_excludes_equality() {
    assert!(!is_fresh(NOW - DAY, DAY, NOW));
    assert!(is_fresh(NOW - 23 * 3600, DAY, NOW));
    assert!(is_fresh(NOW, DAY, NOW));
}

#[test]
fn parse_day_month_year() {
    assert_eq!(parse_release_date_to_timestamp("24 December 2025"), Some(1766534400));
    assert_eq!(parse_release_date_to_timestamp("24 Dec 2025"), Some(1766534400));
    assert_eq!(parse_release_date_to_timestamp("  24 December 2025 "), Some(1766534400));
}

#[test]
fn parse_month_year_takes_the_first() {
    assert_eq!(parse_release_date_to_timestamp("December 2025"), Some(1764547200));
    assert_eq!(parse_release_date_to_timestamp("Dec 2025"), Some(1764547200));
}

#[test]
fn parse_bare_year_takes_new_year() {
    assert_eq!(parse_release_date_to_timestamp("1997"), Some(852076800));
}

#[test]
fn parse_rejects_what_it_cannot_read() {
    assert_eq!(parse_release_date_to_timestamp(""), None);
    assert_eq!(parse_release_date_to_timestamp("soon"), None);
    assert_eq!(parse_release_date_to_timestamp("1850"), None);
    assert_eq!(parse_release_date_to_timestamp("2100"), None);
}

#[test]
fn year_only_release_gets_long_ttl_and_stays_fresh_for_ten_days() {
    let release = parse_release_date_to_timestamp("1997");
    assert_eq!(release, Some(852076800));
    let ttl = compute_ttl_seconds(NOW, release);
    assert_eq!(ttl, 180 * DAY);
    assert!(is_fresh(NOW - 10 * DAY, ttl, NOW));
}
