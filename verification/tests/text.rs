use animus_tui::text::{
    decimal_string, format_thousands, short_id, signed_decimal_string, trim, truncate,
};
use animus_tui::views::health::humanize_uptime;
use animus_tui::views::{elapsed_seconds, humanize_age, Timestamp};

#[test]
fn thousands_grouping() {
    assert_eq!(format_thousands(0), "0");
    assert_eq!(format_thousands(999), "999");
    assert_eq!(format_thousands(1000), "1,000");
    assert_eq!(format_thousands(1234567), "1,234,567");
    assert_eq!(format_thousands(1000001), "1,000,001");
    assert_eq!(format_thousands(u64::MAX), "18,446,744,073,709,551,615");
}

#[test]
fn thousands_without_commas_is_decimal() {
    for n in [0u64, 7, 12, 999, 1000, 65536, 123456789, 9_000_000_000] {
        assert_eq!(format_thousands(n).replace(',', ""), n.to_string());
    }
}

#[test]
fn decimal_rendering() {
    assert_eq!(decimal_string(0), "0");
    assert_eq!(decimal_string(40960), "40960");
    assert_eq!(signed_decimal_string(-12), "-12");
    assert_eq!(signed_decimal_string(i64::MIN), i64::MIN.to_string());
    assert_eq!(signed_decimal_string(i64::MAX), i64::MAX.to_string());
}

#[test]
fn truncation() {
    assert_eq!(truncate("short", 14), "short");
    assert_eq!(truncate("exactly-14-chr", 14), "exactly-14-chr");
    assert_eq!(truncate("wf-0123456789abcdef", 14), "wf-0123456789…");
    assert_eq!(truncate("héllo wörld", 5), "héll…");
    assert_eq!(truncate("abc", 0), "…");
    assert_eq!(short_id("abcdef", 3), "ab…");
}

#[test]
fn trimming_matches_std() {
    for s in ["", "  ", " a ", "\t x y \n", "\u{3000}z\u{2028}", "\u{85}q"] {
        assert_eq!(trim(s), s.trim());
    }
}

#[test]
fn uptime_formats() {
    assert_eq!(humanize_uptime(59), "59s");
    assert_eq!(humanize_uptime(61), "1m 1s");
    assert_eq!(humanize_uptime(3661), "1h 1m");
    assert_eq!(humanize_uptime(90061), "1d 1h");
}

#[test]
fn age_formats() {
    assert_eq!(humanize_age(-5), "0s");
    assert_eq!(humanize_age(42), "42s");
    assert_eq!(humanize_age(300), "5m");
    assert_eq!(humanize_age(7200), "2h");
    assert_eq!(humanize_age(172800), "2d");
    let t = |secs: i64, nanos: u32| Timestamp { secs, nanos };
    assert_eq!(elapsed_seconds(t(100, 0), t(40, 0)), 60);
    assert_eq!(elapsed_seconds(t(40, 0), t(100, 0)), 0);
    // Sub-second parts count: 59.2 s is 59 whole seconds, not 60.
    assert_eq!(elapsed_seconds(t(100, 100_000_000), t(40, 900_000_000)), 59);
    assert_eq!(elapsed_seconds(t(100, 900_000_000), t(41, 0)), 59);
    assert_eq!(elapsed_seconds(t(100, 5), t(100, 9)), 0);
    assert_eq!(elapsed_seconds(t(i64::MAX, 0), t(i64::MIN, 0)), i64::MAX);
}
