use rvkit::version::{decimal_string, version_at_least};

#[test]
fn version_at_least_reads_major_and_minor() {
    assert_eq!(version_at_least("0.15.2", (0, 14)), Some(true));
    assert_eq!(version_at_least("0.16.0-dev.1+abc", (0, 14)), Some(true));
    assert_eq!(version_at_least("0.14.0", (0, 14)), Some(true));
    assert_eq!(version_at_least("0.14", (0, 14)), Some(true));
    assert_eq!(version_at_least("0.13.0", (0, 14)), Some(false));
    assert_eq!(version_at_least("1.0", (0, 14)), Some(true));
    assert_eq!(version_at_least("0.9.1", (0, 14)), Some(false));
    assert_eq!(version_at_least("0-14", (0, 14)), Some(true));
    assert_eq!(version_at_least("0+13", (0, 14)), Some(false));
}

#[test]
fn version_at_least_rejects_unreadable_versions() {
    assert_eq!(version_at_least("", (0, 14)), None);
    assert_eq!(version_at_least("0", (0, 14)), None);
    assert_eq!(version_at_least("14", (0, 14)), None);
    assert_eq!(version_at_least("abc", (0, 14)), None);
    assert_eq!(version_at_least("0..14", (0, 14)), None);
    assert_eq!(version_at_least("0.x", (0, 14)), None);
    assert_eq!(version_at_least("v0.14.0", (0, 14)), None);
    assert_eq!(version_at_least(" 0.14", (0, 14)), None);
    assert_eq!(version_at_least("+0.14", (0, 14)), None);
    assert_eq!(version_at_least("0.14 ", (0, 14)), None);
    assert_eq!(version_at_least("٠.14", (0, 14)), None);
}

#[test]
fn version_at_least_handles_32_bit_limits() {
    assert_eq!(version_at_least("4294967295.0", (0, 14)), Some(true));
    assert_eq!(version_at_least("4294967296.0", (0, 14)), None);
    assert_eq!(version_at_least("0.4294967295", (0, 4294967295)), Some(true));
    assert_eq!(version_at_least("0.99999999999", (0, 14)), None);
    assert_eq!(version_at_least("007.010", (7, 10)), Some(true));
    assert_eq!(version_at_least("007.009", (7, 10)), Some(false));
}

#[test]
fn version_of_decimal_text_reads_back() {
    for (major, minor) in [(0u32, 14u32), (1, 0), (12, 345), (4294967295, 7)] {
        let text = format!("{}.{}-rc.1", decimal_string(major), decimal_string(minor));
        assert_eq!(version_at_least(&text, (major, minor)), Some(true));
        assert_eq!(version_at_least(&text, (0, 14)), Some((major, minor) >= (0, 14)));
    }
}

#[test]
fn decimal_string_matches_to_string() {
    for n in [0u32, 7, 9, 10, 14, 99, 100, 115200, 4294967295] {
        assert_eq!(decimal_string(n), n.to_string());
    }
}

#[test]
fn lower_minimum_is_met_too() {
    for v in ["0.14.1", "0.13.9", "2.0", "x.1"] {
        let at_14 = version_at_least(v, (0, 14));
        let at_13 = version_at_least(v, (0, 13));
        assert_eq!(at_14.is_some(), at_13.is_some());
        if at_14 == Some(true) {
            assert_eq!(at_13, Some(true));
        }
    }
}
