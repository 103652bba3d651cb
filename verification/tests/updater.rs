use network_monitor::text::decimal_text;
use network_monitor::updater::{
    is_check_due, is_newer_release, is_newer_version, last_check_text, parse_timestamp,
    pending_from_version, pending_update, rate_limited_check, should_check,
    update_from_release, LastCheck, CHECK_INTERVAL_SECS, CONFIG_SUBDIR, LAST_CHECK_FILE,
    UPDATE_AVAILABLE_FILE,
};

#[test]
fn test_version_comparison() {
    assert!(is_newer_version("0.2.0", "0.1.0"));
    assert!(is_newer_version("1.0.0", "0.9.9"));
    assert!(is_newer_version("0.1.1", "0.1.0"));
    assert!(!is_newer_version("0.1.0", "0.1.0"));
    assert!(!is_newer_version("0.1.0", "0.2.0"));
}

#[test]
fn missing_components_count_as_zero() {
    assert!(!is_newer_version("1", "1.0.0"));
    assert!(!is_newer_version("1.0.0", "1"));
    assert!(is_newer_version("1.1", "1"));
    assert!(is_newer_version("1.0.1", "1.0"));
    assert!(!is_newer_version("", ""));
    assert!(is_newer_version("0.0.1", ""));
}

#[test]
fn comparison_is_numeric_not_textual() {
    assert!(is_newer_version("0.10.0", "0.9.0"));
    assert!(!is_newer_version("0.9.0", "0.10.0"));
    assert!(is_newer_version("10.0.0", "9.99.99"));
}

#[test]
fn fourth_component_is_ignored() {
    assert!(!is_newer_version("1.2.3.4", "1.2.3"));
    assert!(!is_newer_version("1.2.3", "1.2.3.4"));
}

#[test]
fn fields_that_are_no_number_are_skipped() {
    // "x" is dropped, so the version reads 1.2
    assert!(is_newer_version("1.x.2", "1.1.9"));
    assert!(!is_newer_version("1.x.2", "1.2"));
    // "v1" is no number: what is left reads 2.3
    assert!(is_newer_version("v1.2.3", "2.2.9"));
    assert!(!is_newer_version("v1.2.3", "2.3"));
    // a plus sign is accepted, a minus sign is not
    assert!(is_newer_version("+2.0", "1.9"));
    assert!(!is_newer_version("-2.0", "0.1"));
}

#[test]
fn components_are_compared_as_numbers_of_any_size() {
    assert!(is_newer_version("4294967295", "4294967294"));
    assert!(is_newer_version("4294967296.1", "1"));
    assert!(is_newer_version("4294967296", "4294967295"));
    assert!(is_newer_version("0.4294967296.0", "0.1.0"));
    assert!(!is_newer_version("0.1.0", "0.4294967296.0"));
    assert!(is_newer_version("0.4294967296.0", "0.0.0"));
    assert!(!is_newer_version("0.0.0", "0.4294967296.0"));
    assert!(is_newer_version("0.0.18446744073709551616", "0.0.18446744073709551615"));
    let huge = "1".repeat(60);
    let huger = format!("{}2", "1".repeat(59));
    assert!(is_newer_version(&huger, &huge));
    assert!(!is_newer_version(&huge, &huger));
    assert!(!is_newer_version(&huge, &huge));
    assert!(is_newer_version(&format!("{}0", huge), &huger));
    assert!(is_newer_version(&format!("1.{}", huge), &format!("1.{}", "9".repeat(59))));
}

#[test]
fn leading_zeros_do_not_count() {
    assert!(!is_newer_version("01.002.0003", "1.2.3"));
    assert!(!is_newer_version("1.2.3", "01.002.0003"));
    assert!(is_newer_version("0010", "9"));
    assert!(!is_newer_version("0009", "10"));
    assert!(!is_newer_version("000000000000000000000000000000000000000001", "1"));
    assert!(is_newer_version("000000000000000000000000000000000000000002", "1"));
    assert!(!is_newer_version("0", "000"));
    assert!(!is_newer_version("000", ""));
}

#[test]
fn version_order_is_strict_and_total_on_samples() {
    let versions = ["0.1.0", "0.1.1", "0.2.0", "0.9.9", "1.0.0", "1", "2.5", "10.0.0"];
    for a in versions {
        assert!(!is_newer_version(a, a));
        for b in versions {
            let ab = is_newer_version(a, b);
            let ba = is_newer_version(b, a);
            assert!(!(ab && ba));
            for c in versions {
                if ab && is_newer_version(b, c) {
                    assert!(is_newer_version(a, c));
                }
            }
        }
    }
    assert!(is_newer_version("1.0.0", "0.9.9") || is_newer_version("0.9.9", "1.0.0"));
}

#[test]
fn release_tag_may_start_with_v() {
    assert!(is_newer_release("v0.2.0", "0.1.0"));
    assert!(is_newer_release("vv0.2.0", "0.1.0"));
    assert!(is_newer_release("0.2.0", "0.1.0"));
    assert!(!is_newer_release("v0.1.0", "0.1.0"));
    assert!(!is_newer_release("v0.0.9", "0.1.0"));
}

#[test]
fn update_is_the_tag_of_a_newer_release() {
    assert_eq!(
        update_from_release(Some("v0.3.0".to_string()), "0.2.1"),
        Some("v0.3.0".to_string())
    );
    assert_eq!(update_from_release(Some("v0.2.1".to_string()), "0.2.1"), None);
    assert_eq!(update_from_release(Some("v0.2.0".to_string()), "0.2.1"), None);
    assert_eq!(update_from_release(None, "0.2.1"), None);
}

#[test]
fn check_is_due_after_a_full_day() {
    assert_eq!(CHECK_INTERVAL_SECS, 86400);
    assert!(is_check_due(None, 5));
    assert!(!is_check_due(Some(1000), 1000));
    assert!(!is_check_due(Some(1000), 1000 + 86399));
    assert!(is_check_due(Some(1000), 1000 + 86400));
    assert!(is_check_due(Some(0), u64::MAX));
}

#[test]
fn check_is_not_due_when_the_last_one_lies_ahead() {
    assert!(!is_check_due(Some(2000), 1000));
    assert!(!is_check_due(Some(u64::MAX), 0));
}

#[test]
fn should_check_reads_the_kept_time() {
    let now = 1_700_000_000;
    assert!(should_check(&LastCheck::Missing, now));
    assert!(should_check(&LastCheck::Recorded("not a number".to_string()), now));
    assert!(should_check(&LastCheck::Recorded("".to_string()), now));
    assert!(!should_check(&LastCheck::Recorded("1699999999".to_string()), now));
    assert!(should_check(&LastCheck::Recorded("1699913600".to_string()), now));
    assert!(!should_check(&LastCheck::Recorded("1699913601".to_string()), now));
}

#[test]
fn should_check_ignores_white_space_around_the_time() {
    let now = 1_700_000_000;
    assert!(!should_check(&LastCheck::Recorded("  1699999999\n".to_string()), now));
    assert!(should_check(&LastCheck::Recorded("\t1699913600 \r\n".to_string()), now));
    // white space inside the number is not removed
    assert!(should_check(&LastCheck::Recorded("1699 999999".to_string()), now));
}

#[test]
fn timestamp_is_a_plain_decimal_number() {
    assert_eq!(parse_timestamp("0"), Some(0));
    assert_eq!(parse_timestamp("1700000000"), Some(1_700_000_000));
    assert_eq!(parse_timestamp("+12"), Some(12));
    assert_eq!(parse_timestamp("007"), Some(7));
    assert_eq!(parse_timestamp("18446744073709551615"), Some(u64::MAX));
    assert_eq!(parse_timestamp("18446744073709551616"), None);
    assert_eq!(parse_timestamp("99999999999999999999999"), None);
    assert_eq!(parse_timestamp(""), None);
    assert_eq!(parse_timestamp("+"), None);
    assert_eq!(parse_timestamp("-1"), None);
    assert_eq!(parse_timestamp("12a"), None);
    assert_eq!(parse_timestamp(" 12"), None);
    assert_eq!(parse_timestamp("1_000"), None);
    assert_eq!(parse_timestamp("\u{664}\u{662}"), None);
}

/// Version comparison written with the standard library's own splitting
/// and parsing, on numbers of 128 bits: wide enough for every number in
/// `TEXTS`.
fn newer_by_std(latest: &str, current: &str) -> bool {
    let parse = |v: &str| -> Vec<u128> { v.split('.').filter_map(|s| s.parse().ok()).collect() };
    let latest_parts = parse(latest);
    let current_parts = parse(current);
    for i in 0..3 {
        let l = latest_parts.get(i).copied().unwrap_or(0);
        let c = current_parts.get(i).copied().unwrap_or(0);
        if l > c {
            return true;
        }
        if l < c {
            return false;
        }
    }
    false
}

const TEXTS: [&str; 40] = [
    "", ".", "..", "...", "0", "1", "1.", ".1", "1..2", "1.2", "1.2.3", "1.2.3.4", "0.0.0",
    "0.0.1", "0.1.0", "1.0.0", "01.002.0003", "+1.+2.+3", "-1.2.3", "1.-2.3", "v1.2.3", "1.2.3v",
    "1.x.3", "x.y.z", "1.2.3-beta", "1.2.3+build", " 1.2.3", "1.2.3 ", "1. 2.3", "4294967295",
    "4294967296", "4294967295.4294967295.4294967295", "99999999999999999999.1", "1_0.2",
    "\u{664}.1", "1\u{ff0e}2", "+", "+.+", "0.10.0", "0.9.0",
];

#[test]
fn version_comparison_agrees_with_the_standard_parser() {
    for a in TEXTS {
        for b in TEXTS {
            assert_eq!(is_newer_version(a, b), newer_by_std(a, b), "{:?} against {:?}", a, b);
        }
    }
}

#[test]
fn timestamp_agrees_with_the_standard_parser() {
    let more = [
        "18446744073709551615",
        "18446744073709551616",
        "18446744073709551614",
        "1844674407370955161",
        "184467440737095516150",
        "000000000000000000000000000001",
        "+0",
        "++1",
        "1+",
        "12\n",
    ];
    for text in TEXTS.iter().chain(more.iter()) {
        assert_eq!(parse_timestamp(text), text.parse::<u64>().ok(), "{:?}", text);
    }
}

#[test]
fn release_tag_is_stripped_as_the_standard_library_strips_it() {
    for tag in ["v1.2.3", "vv1.2.3", "V1.2.3", "1.2.3", "v", "", "v1.v2", "va.1"] {
        for current in ["1.2.2", "1.2.3", "0", "2"] {
            assert_eq!(
                is_newer_release(tag, current),
                newer_by_std(tag.trim_start_matches('v'), current),
                "{:?} against {:?}",
                tag,
                current
            );
        }
    }
}

#[test]
fn last_check_text_is_decimal_and_reads_back() {
    assert_eq!(last_check_text(0), "0");
    assert_eq!(last_check_text(9), "9");
    assert_eq!(last_check_text(10), "10");
    assert_eq!(last_check_text(1_700_000_000), "1700000000");
    assert_eq!(last_check_text(u64::MAX), "18446744073709551615");
    for now in [0u64, 1, 86400, 1_700_000_000, u64::MAX] {
        assert_eq!(parse_timestamp(&last_check_text(now)), Some(now));
        assert_eq!(decimal_text(now), now.to_string());
    }
}

#[test]
fn kept_time_decides_the_next_check() {
    let then = 1_700_000_000u64;
    let kept = LastCheck::Recorded(last_check_text(then));
    assert!(!should_check(&kept, then));
    assert!(!should_check(&kept, then + 86399));
    assert!(should_check(&kept, then + 86400));
}

#[test]
fn pending_update_is_offered_if_newer() {
    let pending = pending_update(Some("v0.3.0\n"), "0.2.0");
    assert_eq!(pending.version, Some("v0.3.0".to_string()));
    assert!(!pending.stale);
    let pending = pending_update(Some("  0.2.1  "), "0.2.0");
    assert_eq!(pending.version, Some("0.2.1".to_string()));
    assert!(!pending.stale);
}

#[test]
fn stale_pending_update_is_dropped_and_stays_dropped() {
    let pending = pending_update(Some("v0.2.0\n"), "0.2.0");
    assert_eq!(pending.version, None);
    assert!(pending.stale);
    let pending = pending_update(Some("v0.1.9"), "0.2.0");
    assert_eq!(pending.version, None);
    assert!(pending.stale);
    let pending = pending_update(Some("garbage"), "0.2.0");
    assert_eq!(pending.version, None);
    assert!(pending.stale);
    // what was stale has been removed: the next load finds nothing
    let again = pending_update(None, "0.2.0");
    assert_eq!(again.version, None);
    assert!(!again.stale);
}

#[test]
fn pending_from_version_takes_the_text_as_it_is() {
    let pending = pending_from_version("v1.0.0", "0.9.0");
    assert_eq!(pending.version, Some("v1.0.0".to_string()));
    assert!(!pending.stale);
    let pending = pending_from_version(" v1.0.0", "0.9.0");
    assert_eq!(pending.version, None);
    assert!(pending.stale);
}

#[test]
fn state_files_have_fixed_names() {
    assert_eq!(CONFIG_SUBDIR, "network-monitor");
    assert_eq!(LAST_CHECK_FILE, "last-check");
    assert_eq!(UPDATE_AVAILABLE_FILE, "update-available");
}

#[test]
fn rate_limited_check_keeps_the_time_when_it_runs() {
    let now = 1_700_000_000;
    assert_eq!(rate_limited_check(&LastCheck::Missing, now), Some("1700000000".to_string()));
    assert_eq!(
        rate_limited_check(&LastCheck::Recorded("1699913600".to_string()), now),
        Some("1700000000".to_string())
    );
    assert_eq!(rate_limited_check(&LastCheck::Recorded("1699913601".to_string()), now), None);
    assert_eq!(
        rate_limited_check(&LastCheck::Recorded("unreadable".to_string()), now),
        Some("1700000000".to_string())
    );
}

#[test]
fn check_runs_every_time_while_nothing_can_be_kept() {
    // without a place to keep the time, every call finds nothing kept
    for now in [0u64, 1, 1_700_000_000, 1_700_000_001] {
        assert!(should_check(&LastCheck::Missing, now));
        assert!(rate_limited_check(&LastCheck::Missing, now).is_some());
    }
}

#[test]
fn white_space_is_what_unicode_calls_so() {
    let now = 1_700_000_000;
    let spaces = [
        '\u{9}', '\u{a}', '\u{b}', '\u{c}', '\u{d}', '\u{20}', '\u{85}', '\u{a0}',
        '\u{1680}', '\u{2000}', '\u{2001}', '\u{2002}', '\u{2003}', '\u{2004}', '\u{2005}',
        '\u{2006}', '\u{2007}', '\u{2008}', '\u{2009}', '\u{200a}', '\u{2028}', '\u{2029}',
        '\u{202f}', '\u{205f}', '\u{3000}',
    ];
    for space in spaces {
        assert!(space.is_whitespace());
        let kept = format!("{}1699999999{}{}", space, space, space);
        assert!(!should_check(&LastCheck::Recorded(kept), now), "{:?}", space);
    }
    // neighbours of these are no white space: the text is no number
    for other in ['\u{8}', '\u{e}', '\u{1f}', '\u{200b}', '\u{180e}', '\u{feff}', '\u{2060}'] {
        assert!(!other.is_whitespace());
        let kept = format!("{}1699999999", other);
        assert!(should_check(&LastCheck::Recorded(kept), now), "{:?}", other);
        let kept = format!("1699999999{}", other);
        assert!(should_check(&LastCheck::Recorded(kept), now), "{:?}", other);
    }
    assert_eq!(pending_update(Some("\u{3000}v9.0.0\u{2028}"), "1.0.0").version.unwrap(), "v9.0.0");
}

#[test]
fn second_check_within_a_day_does_not_run() {
    let first = 1_700_000_000;
    let kept = rate_limited_check(&LastCheck::Missing, first).unwrap();
    let record = LastCheck::Recorded(kept);
    assert_eq!(rate_limited_check(&record, first + 1), None);
    assert_eq!(rate_limited_check(&record, first + 86399), None);
    assert_eq!(rate_limited_check(&record, first + 86400), Some("1700086400".to_string()));
}

#[test]
fn standard_library_knows_no_other_white_space() {
    let listed = |c: char| {
        let n = c as u32;
        (0x09..=0x0d).contains(&n)
            || n == 0x20
            || n == 0x85
            || n == 0xa0
            || n == 0x1680
            || (0x2000..=0x200a).contains(&n)
            || n == 0x2028
            || n == 0x2029
            || n == 0x202f
            || n == 0x205f
            || n == 0x3000
    };
    let mut count = 0;
    for n in 0..=0x10ffffu32 {
        if let Some(c) = char::from_u32(n) {
            assert_eq!(c.is_whitespace(), listed(c), "U+{:04X}", n);
            if listed(c) {
                count += 1;
            }
        }
    }
    assert_eq!(count, 25);
}
