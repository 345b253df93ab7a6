use rvkit::doctor::{doctor_report, zig_version_from_output, MIN_ZIG};
use rvkit::text::{trim_white_space, trimmed_output};

#[test]
fn doctor_report_all_tools_present() {
    let report = doctor_report(Some("0.15.2"), true, Some("esptool"), true);
    assert!(report.success);
    assert!(report.err.is_empty());
    assert_eq!(
        report.out,
        vec![
            "Checking rvkit environment...\n",
            "ok   zig 0.15.2 found",
            "ok   wlink found",
            "ok   esptool found (as 'esptool')",
            "ok   rvkit.toml found",
            "\nDoctor completed.",
        ]
    );
}

#[test]
fn doctor_report_old_zig_is_missing() {
    let report = doctor_report(Some("0.13.0"), true, None, false);
    assert!(!report.success);
    assert_eq!(report.err, vec!["\nDoctor found missing required tools."]);
    assert_eq!(
        report.out,
        vec![
            "Checking rvkit environment...\n",
            "miss zig 0.13.0 is too old",
            "     rvkit projects need Zig 0.14 or newer — https://ziglang.org/download/",
            "ok   wlink found",
            "warn esptool not found",
            "     Required to flash ESP32-C3 boards",
            "info rvkit.toml not found in current directory",
            "     Run doctor inside an rvkit project for project-specific checks",
        ]
    );
}

#[test]
fn doctor_report_no_zig_is_missing() {
    let report = doctor_report(None, false, Some("esptool.py"), true);
    assert!(!report.success);
    assert_eq!(
        report.out,
        vec![
            "Checking rvkit environment...\n",
            "miss zig not found",
            "     Install Zig from https://ziglang.org/download/",
            "warn wlink not found",
            "     Required to flash CH32V003 boards",
            "ok   esptool found (as 'esptool.py')",
            "ok   rvkit.toml found",
        ]
    );
}

#[test]
fn doctor_report_unparsable_zig_only_warns() {
    let report = doctor_report(Some("master"), false, None, false);
    assert!(report.success);
    assert!(report.err.is_empty());
    assert_eq!(report.out[1], "warn zig found but version 'master' could not be parsed");
    assert_eq!(report.out.last().unwrap(), "\nDoctor completed.");
}

#[test]
fn min_zig_is_0_14() {
    assert_eq!(MIN_ZIG, (0, 14));
}

#[test]
fn zig_version_is_trimmed_output_of_a_successful_run() {
    assert_eq!(zig_version_from_output(true, b"0.14.0\n"), Some("0.14.0".to_string()));
    assert_eq!(zig_version_from_output(true, b"0.14.1\n"), Some("0.14.1".to_string()));
    assert_eq!(zig_version_from_output(true, &[0xff, b'\n']), Some("\u{FFFD}".to_string()));
    assert_eq!(zig_version_from_output(true, b"  0.15.1 \r\n"), Some("0.15.1".to_string()));
    assert_eq!(zig_version_from_output(false, b"0.14.0\n"), None);
    assert_eq!(zig_version_from_output(true, b""), Some(String::new()));
}

#[test]
fn invalid_utf8_output_is_replaced_not_kept() {
    assert_eq!(trimmed_output(&[0x30, 0xff, 0x31]), "0\u{FFFD}1");
    assert_eq!(trimmed_output(&[b' ', 0xc3, 0xa9, b'\n']), "é");
}

#[test]
fn trim_removes_unicode_white_space_only_at_the_ends() {
    assert_eq!(trim_white_space("\u{3000}\t a b \u{2028}\u{85}"), "a b");
    assert_eq!(trim_white_space(" \n "), "");
    assert_eq!(trim_white_space("x"), "x");
    assert_eq!(trim_white_space("\u{200B}x"), "\u{200B}x");
    for s in ["  0.14.0\n", "\u{a0}v\u{a0}", "\u{1680}z\u{205f}"] {
        assert_eq!(trim_white_space(s), s.trim());
    }
}
