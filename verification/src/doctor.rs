//! `rvkit doctor`: checks the local toolchain and reports what is missing.

use vstd::prelude::*;
use vstd::string::*;
use vstd::utf8::{decode_utf8, valid_utf8};
use crate::text::{join3, lines_of, push_line, push_str_line, trimmed, trimmed_output, utf8_lossy, Report, ReportView};
use crate::version::{decimal_digits, decimal_string, version_at_least, version_at_least_spec};

verus! {

/// Generated build.zig files use the `root_module`/`createModule` API and
/// `callconv(.c)`, which require Zig 0.14 or newer.
pub const MIN_ZIG: (u32, u32) = (0, 14);

/// The lines about Zig, and whether Zig counts as missing.
pub open spec fn zig_check(zig_version: Option<Seq<char>>) -> (Seq<Seq<char>>, bool) {
    match zig_version {
        Some(v) => match version_at_least_spec(v, MIN_ZIG) {
            Some(true) => (seq!["ok   zig "@ + v + " found"@], false),
            Some(false) => (
                seq![
                    "miss zig "@ + v + " is too old"@,
                    "     rvkit projects need Zig "@ + decimal_digits(MIN_ZIG.0 as nat) + "."@
                        + decimal_digits(MIN_ZIG.1 as nat)
                        + " or newer — https://ziglang.org/download/"@,
                ],
                true,
            ),
            None => (seq!["warn zig found but version '"@ + v + "' could not be parsed"@], false),
        },
        None => (seq!["miss zig not found"@, "     Install Zig from https://ziglang.org/download/"@], true),
    }
}

/// The lines about wlink.
pub open spec fn wlink_check(wlink_found: bool) -> Seq<Seq<char>> {
    if wlink_found {
        seq!["ok   wlink found"@]
    } else {
        seq!["warn wlink not found"@, "     Required to flash CH32V003 boards"@]
    }
}

/// The lines about esptool, given the name under which it was found.
pub open spec fn esptool_check(esptool: Option<Seq<char>>) -> Seq<Seq<char>> {
    match esptool {
        Some(name) => seq!["ok   esptool found (as '"@ + name + "')"@],
        None => seq!["warn esptool not found"@, "     Required to flash ESP32-C3 boards"@],
    }
}

/// The lines about the project file in the current directory.
pub open spec fn project_check(config_found: bool) -> Seq<Seq<char>> {
    if config_found {
        seq!["ok   rvkit.toml found"@]
    } else {
        seq![
            "info rvkit.toml not found in current directory"@,
            "     Run doctor inside an rvkit project for project-specific checks"@,
        ]
    }
}

/// What `rvkit doctor` reports, given the output of `zig version` (if Zig
/// ran), whether wlink runs, the name under which esptool runs (if it
/// does) and whether rvkit.toml is in the current directory.
pub open spec fn doctor_report_spec(
    zig_version: Option<Seq<char>>,
    wlink_found: bool,
    esptool: Option<Seq<char>>,
    config_found: bool,
) -> ReportView {
    let (zig_lines, missing) = zig_check(zig_version);
    let checks = seq!["Checking rvkit environment...\n"@] + zig_lines + wlink_check(wlink_found)
        + esptool_check(esptool) + project_check(config_found);
    if missing {
        ReportView { out: checks, err: seq!["\nDoctor found missing required tools."@], success: false }
    } else {
        ReportView { out: checks.push("\nDoctor completed."@), err: seq![], success: true }
    }
}

/// The view of an optional string.
pub open spec fn opt_view(s: Option<&str>) -> Option<Seq<char>> {
    match s {
        Some(t) => Some(t@),
        None => None,
    }
}

/// The version that `zig version` printed, read from its exit status and
/// its raw standard output: the output as text, trimmed, when Zig exited
/// successfully.
pub fn zig_version_from_output(succeeded: bool, stdout: &[u8]) -> (version: Option<String>)
    ensures
        match version {
            Some(v) => succeeded && v@ == trimmed(utf8_lossy(stdout@)) && (valid_utf8(stdout@)
                ==> v@ == trimmed(decode_utf8(stdout@))),
            None => !succeeded,
        },
{
    if !succeeded {
        return None;
    }
    Some(trimmed_output(stdout))
}

/// Writes the lines about Zig and tells whether Zig counts as missing.
fn check_zig(out: &mut Vec<String>, zig_version: Option<&str>) -> (missing: bool)
    ensures
        lines_of(final(out)@) == lines_of(old(out)@) + zig_check(opt_view(zig_version)).0,
        missing == zig_check(opt_view(zig_version)).1,
{
    let ghost before = lines_of(out@);
    match zig_version {
        Some(v) => match version_at_least(v, MIN_ZIG) {
            Some(true) => {
                push_line(out, join3("ok   zig ", v, " found"));
                assert(lines_of(out@) =~= before + zig_check(opt_view(zig_version)).0);
                false
            },
            Some(false) => {
                push_line(out, join3("miss zig ", v, " is too old"));
                let major = decimal_string(MIN_ZIG.0);
                let minor = decimal_string(MIN_ZIG.1);
                let need = join3("     rvkit projects need Zig ", major.as_str(), ".").concat(
                    minor.as_str(),
                ).concat(" or newer — https://ziglang.org/download/");
                push_line(out, need);
                assert(lines_of(out@) =~= before + zig_check(opt_view(zig_version)).0);
                true
            },
            None => {
                push_line(out, join3("warn zig found but version '", v, "' could not be parsed"));
                assert(lines_of(out@) =~= before + zig_check(opt_view(zig_version)).0);
                false
            },
        },
        None => {
            push_str_line(out, "miss zig not found");
            push_str_line(out, "     Install Zig from https://ziglang.org/download/");
            assert(lines_of(out@) =~= before + zig_check(opt_view(zig_version)).0);
            true
        },
    }
}

/// Writes the lines about wlink, esptool and the project file.
fn check_flash_tools_and_project(
    out: &mut Vec<String>,
    wlink_found: bool,
    esptool: Option<&str>,
    config_found: bool,
)
    ensures
        lines_of(final(out)@) == lines_of(old(out)@) + wlink_check(wlink_found) + esptool_check(
            opt_view(esptool),
        ) + project_check(config_found),
{
    let ghost before = lines_of(out@);
    if wlink_found {
        push_str_line(out, "ok   wlink found");
    } else {
        push_str_line(out, "warn wlink not found");
        push_str_line(out, "     Required to flash CH32V003 boards");
    }
    assert(lines_of(out@) =~= before + wlink_check(wlink_found));
    let ghost after_wlink = lines_of(out@);
    match esptool {
        Some(name) => push_line(out, join3("ok   esptool found (as '", name, "')")),
        None => {
            push_str_line(out, "warn esptool not found");
            push_str_line(out, "     Required to flash ESP32-C3 boards");
        },
    }
    assert(lines_of(out@) =~= after_wlink + esptool_check(opt_view(esptool)));
    let ghost after_esptool = lines_of(out@);
    if config_found {
        push_str_line(out, "ok   rvkit.toml found");
    } else {
        push_str_line(out, "info rvkit.toml not found in current directory");
        push_str_line(out, "     Run doctor inside an rvkit project for project-specific checks");
    }
    assert(lines_of(out@) =~= after_esptool + project_check(config_found));
}

/// The report of `rvkit doctor`. Zig (0.14 or newer) is required; wlink,
/// esptool and a project file only draw a warning or a note.
pub fn doctor_report(
    zig_version: Option<&str>,
    wlink_found: bool,
    esptool: Option<&str>,
    config_found: bool,
) -> (report: Report)
    ensures
        report@ == doctor_report_spec(
            opt_view(zig_version),
            wlink_found,
            opt_view(esptool),
            config_found,
        ),
{
    let mut out: Vec<String> = Vec::new();
    let mut err: Vec<String> = Vec::new();
    push_str_line(&mut out, "Checking rvkit environment...\n");
    let missing = check_zig(&mut out, zig_version);
    check_flash_tools_and_project(&mut out, wlink_found, esptool, config_found);
    assert(lines_of(Seq::<String>::empty()) =~= Seq::<Seq<char>>::empty());
    if missing {
        push_str_line(&mut err, "\nDoctor found missing required tools.");
    } else {
        push_str_line(&mut out, "\nDoctor completed.");
    }
    let report = Report { out, err, success: !missing };
    assert(report@.out =~= doctor_report_spec(
        opt_view(zig_version),
        wlink_found,
        opt_view(esptool),
        config_found,
    ).out);
    assert(report@.err =~= doctor_report_spec(
        opt_view(zig_version),
        wlink_found,
        opt_view(esptool),
        config_found,
    ).err);
    report
}

/// `line` is not `other`: they differ at position `k`.
proof fn lemma_lines_differ(line: Seq<char>, other: Seq<char>, k: int)
    requires
        0 <= k < line.len(),
        k < other.len(),
        line[k] != other[k],
    ensures
        line != other,
{
}

/// No line of `lines` equals `text`.
pub open spec fn never_writes(lines: Seq<Seq<char>>, text: Seq<char>) -> bool {
    forall|i: int| 0 <= i < lines.len() ==> lines[i] != text
}

proof fn lemma_never_writes_concat(a: Seq<Seq<char>>, b: Seq<Seq<char>>, text: Seq<char>)
    requires
        never_writes(a, text),
        never_writes(b, text),
    ensures
        never_writes(a + b, text),
{
    assert forall|i: int| 0 <= i < (a + b).len() implies (a + b)[i] != text by {
        if i < a.len() {
            assert((a + b)[i] == a[i]);
        } else {
            assert((a + b)[i] == b[i - a.len()]);
        }
    }
}

/// The lines about Zig, esptool, the project file and the closing line
/// never claim or deny wlink.
proof fn lemma_other_lines_leave_wlink_alone(
    zig_version: Option<Seq<char>>,
    esptool: Option<Seq<char>>,
    config_found: bool,
)
    ensures
        never_writes(zig_check(zig_version).0, "ok   wlink found"@),
        never_writes(zig_check(zig_version).0, "warn wlink not found"@),
        never_writes(esptool_check(esptool), "ok   wlink found"@),
        never_writes(esptool_check(esptool), "warn wlink not found"@),
        never_writes(project_check(config_found), "ok   wlink found"@),
        never_writes(project_check(config_found), "warn wlink not found"@),
        never_writes(seq!["Checking rvkit environment...\n"@], "ok   wlink found"@),
        never_writes(seq!["Checking rvkit environment...\n"@], "warn wlink not found"@),
        never_writes(seq!["\nDoctor completed."@], "ok   wlink found"@),
        never_writes(seq!["\nDoctor completed."@], "warn wlink not found"@),
{
    reveal_strlit("ok   wlink found");
    reveal_strlit("warn wlink not found");
    reveal_strlit("ok   zig ");
    reveal_strlit(" found");
    reveal_strlit("miss zig ");
    reveal_strlit(" is too old");
    reveal_strlit("     rvkit projects need Zig ");
    reveal_strlit("warn zig found but version '");
    reveal_strlit("miss zig not found");
    reveal_strlit("     Install Zig from https://ziglang.org/download/");
    reveal_strlit("ok   esptool found (as '");
    reveal_strlit("warn esptool not found");
    reveal_strlit("     Required to flash ESP32-C3 boards");
    reveal_strlit("ok   rvkit.toml found");
    reveal_strlit("info rvkit.toml not found in current directory");
    reveal_strlit("     Run doctor inside an rvkit project for project-specific checks");
    reveal_strlit("Checking rvkit environment...\n");
    reveal_strlit("\nDoctor completed.");
    let ok = "ok   wlink found"@;
    let warn = "warn wlink not found"@;
    let zl = zig_check(zig_version).0;
    assert forall|i: int| 0 <= i < zl.len() implies zl[i] != ok && zl[i] != warn by {
        let line = zl[i];
        match zig_version {
            Some(v) => match version_at_least_spec(v, MIN_ZIG) {
                Some(true) => {
                    assert(line[5] == 'z');
                    lemma_lines_differ(line, ok, 5);
                    lemma_lines_differ(line, warn, 0);
                },
                Some(false) => {
                    if i == 0 {
                        assert(line[0] == 'm');
                    } else {
                        assert(line[0] == ' ');
                    }
                    lemma_lines_differ(line, ok, 0);
                    lemma_lines_differ(line, warn, 0);
                },
                None => {
                    assert(line[5] == 'z');
                    lemma_lines_differ(line, ok, 0);
                    lemma_lines_differ(line, warn, 5);
                },
            },
            None => {
                if i == 0 {
                    assert(line[0] == 'm');
                } else {
                    assert(line[0] == ' ');
                }
                lemma_lines_differ(line, ok, 0);
                lemma_lines_differ(line, warn, 0);
            },
        }
    }
    let el = esptool_check(esptool);
    assert forall|i: int| 0 <= i < el.len() implies el[i] != ok && el[i] != warn by {
        let line = el[i];
        match esptool {
            Some(name) => {
                assert(line[5] == 'e');
                lemma_lines_differ(line, ok, 5);
                lemma_lines_differ(line, warn, 0);
            },
            None => {
                if i == 0 {
                    lemma_lines_differ(line, ok, 0);
                    lemma_lines_differ(line, warn, 5);
                } else {
                    lemma_lines_differ(line, ok, 0);
                    lemma_lines_differ(line, warn, 0);
                }
            },
        }
    }
    let pl = project_check(config_found);
    assert forall|i: int| 0 <= i < pl.len() implies pl[i] != ok && pl[i] != warn by {
        let line = pl[i];
        if config_found {
            lemma_lines_differ(line, ok, 5);
            lemma_lines_differ(line, warn, 0);
        } else {
            lemma_lines_differ(line, ok, 0);
            lemma_lines_differ(line, warn, 0);
        }
    }
    lemma_lines_differ("Checking rvkit environment...\n"@, ok, 0);
    lemma_lines_differ("Checking rvkit environment...\n"@, warn, 0);
    lemma_lines_differ("\nDoctor completed."@, ok, 0);
    lemma_lines_differ("\nDoctor completed."@, warn, 0);
}

/// The wlink part of the report depends only on whether wlink was found.
/// Without wlink, standard output holds "warn wlink not found" followed by
/// "     Required to flash CH32V003 boards" and never "ok   wlink found";
/// with wlink, it holds "ok   wlink found" in the same place and never
/// "warn wlink not found"; all other lines, the errors and the exit status
/// are the same either way, whatever Zig, esptool and the project file are.
pub proof fn lemma_wlink_lines(
    zig_version: Option<Seq<char>>,
    esptool: Option<Seq<char>>,
    config_found: bool,
)
    ensures
        exists|before: Seq<Seq<char>>, after: Seq<Seq<char>>|
            doctor_report_spec(zig_version, false, esptool, config_found).out == before + seq![
                "warn wlink not found"@,
                "     Required to flash CH32V003 boards"@,
            ] + after && doctor_report_spec(zig_version, true, esptool, config_found).out == before
                + seq!["ok   wlink found"@] + after && never_writes(before, "ok   wlink found"@)
                && never_writes(after, "ok   wlink found"@) && never_writes(
                before,
                "warn wlink not found"@,
            ) && never_writes(after, "warn wlink not found"@),
        never_writes(
            doctor_report_spec(zig_version, false, esptool, config_found).out,
            "ok   wlink found"@,
        ),
        never_writes(
            doctor_report_spec(zig_version, true, esptool, config_found).out,
            "warn wlink not found"@,
        ),
        doctor_report_spec(zig_version, false, esptool, config_found).err == doctor_report_spec(
            zig_version,
            true,
            esptool,
            config_found,
        ).err,
        doctor_report_spec(zig_version, false, esptool, config_found).success
            == doctor_report_spec(zig_version, true, esptool, config_found).success,
{
    lemma_other_lines_leave_wlink_alone(zig_version, esptool, config_found);
    reveal_strlit("ok   wlink found");
    reveal_strlit("warn wlink not found");
    reveal_strlit("     Required to flash CH32V003 boards");
    let ok = "ok   wlink found"@;
    let warn = "warn wlink not found"@;
    let before = seq!["Checking rvkit environment...\n"@] + zig_check(zig_version).0;
    let (_, missing) = zig_check(zig_version);
    let tail: Seq<Seq<char>> = if missing {
        seq![]
    } else {
        seq!["\nDoctor completed."@]
    };
    let after = esptool_check(esptool) + project_check(config_found) + tail;
    lemma_never_writes_concat(seq!["Checking rvkit environment...\n"@], zig_check(zig_version).0, ok);
    lemma_never_writes_concat(seq!["Checking rvkit environment...\n"@], zig_check(zig_version).0, warn);
    assert(never_writes(tail, ok));
    assert(never_writes(tail, warn));
    lemma_never_writes_concat(esptool_check(esptool), project_check(config_found), ok);
    lemma_never_writes_concat(esptool_check(esptool), project_check(config_found), warn);
    lemma_never_writes_concat(esptool_check(esptool) + project_check(config_found), tail, ok);
    lemma_never_writes_concat(esptool_check(esptool) + project_check(config_found), tail, warn);
    let off = seq![warn, "     Required to flash CH32V003 boards"@];
    let on = seq![ok];
    assert(doctor_report_spec(zig_version, false, esptool, config_found).out =~= before + off + after);
    assert(doctor_report_spec(zig_version, true, esptool, config_found).out =~= before + on + after);
    lemma_lines_differ("     Required to flash CH32V003 boards"@, ok, 0);
    lemma_lines_differ(warn, ok, 0);
    assert(never_writes(off, ok)) by {
        assert(off[0] == warn);
        assert(off[1] == "     Required to flash CH32V003 boards"@);
    }
    assert(never_writes(on, warn)) by {
        lemma_lines_differ(ok, warn, 0);
    }
    lemma_never_writes_concat(before, off, ok);
    lemma_never_writes_concat(before + off, after, ok);
    lemma_never_writes_concat(before, on, warn);
    lemma_never_writes_concat(before + on, after, warn);
}

/// What the report says of Zig, of esptool and of the project file, and
/// how it ends.
///
/// - It opens with "Checking rvkit environment...\n", and the next lines are
///   about Zig: "ok   zig <v> found" for a version of at least 0.14, "miss zig
///   <v> is too old" and the 0.14 requirement for an older one, a warning for
///   a version that cannot be read, and "miss zig not found" with the
///   download page when Zig does not run.
/// - Finding esptool or not changes only the esptool lines: "ok   esptool
///   found (as '<name>')" in place of "warn esptool not found" and "     Required
///   to flash ESP32-C3 boards"; likewise for the project file.
/// - A successful run ends with "\nDoctor completed." and writes no error; a
///   failed one writes "\nDoctor found missing required tools." as its only
///   error and does not claim completion.
pub proof fn lemma_doctor_report_parts(
    zig_version: Option<Seq<char>>,
    wlink_found: bool,
    esptool: Option<Seq<char>>,
    config_found: bool,
    name: Seq<char>,
)
    ensures
        doctor_report_spec(zig_version, wlink_found, esptool, config_found).out[0]
            == "Checking rvkit environment...\n"@,
        zig_version is None ==> doctor_report_spec(zig_version, wlink_found, esptool, config_found).out[1]
            == "miss zig not found"@ && doctor_report_spec(
            zig_version,
            wlink_found,
            esptool,
            config_found,
        ).out[2] == "     Install Zig from https://ziglang.org/download/"@,
        zig_version matches Some(v) ==> (version_at_least_spec(v, (0, 14)) == Some(true)
            ==> doctor_report_spec(zig_version, wlink_found, esptool, config_found).out[1]
            == "ok   zig "@ + v + " found"@),
        zig_version matches Some(v) ==> (version_at_least_spec(v, (0, 14)) == Some(false) ==> (
        doctor_report_spec(zig_version, wlink_found, esptool, config_found).out[1] == "miss zig "@
            + v + " is too old"@ && doctor_report_spec(
            zig_version,
            wlink_found,
            esptool,
            config_found,
        ).out[2] == "     rvkit projects need Zig 0.14 or newer — https://ziglang.org/download/"@)),
        zig_version matches Some(v) ==> (version_at_least_spec(v, (0, 14)) is None
            ==> doctor_report_spec(zig_version, wlink_found, esptool, config_found).out[1]
            == "warn zig found but version '"@ + v + "' could not be parsed"@),
        exists|before: Seq<Seq<char>>, after: Seq<Seq<char>>|
            doctor_report_spec(zig_version, wlink_found, None, config_found).out == before + seq![
                "warn esptool not found"@,
                "     Required to flash ESP32-C3 boards"@,
            ] + after && doctor_report_spec(zig_version, wlink_found, Some(name), config_found).out
                == before + seq!["ok   esptool found (as '"@ + name + "')"@] + after,
        exists|before: Seq<Seq<char>>, after: Seq<Seq<char>>|
            doctor_report_spec(zig_version, wlink_found, esptool, false).out == before + seq![
                "info rvkit.toml not found in current directory"@,
                "     Run doctor inside an rvkit project for project-specific checks"@,
            ] + after && doctor_report_spec(zig_version, wlink_found, esptool, true).out == before
                + seq!["ok   rvkit.toml found"@] + after,
        doctor_report_spec(zig_version, wlink_found, esptool, config_found).success ==> (
        doctor_report_spec(zig_version, wlink_found, esptool, config_found).out.last()
            == "\nDoctor completed."@ && doctor_report_spec(
            zig_version,
            wlink_found,
            esptool,
            config_found,
        ).err.len() == 0),
        !doctor_report_spec(zig_version, wlink_found, esptool, config_found).success ==> (
        doctor_report_spec(zig_version, wlink_found, esptool, config_found).err == seq![
            "\nDoctor found missing required tools."@,
        ] && never_writes(
            doctor_report_spec(zig_version, wlink_found, esptool, config_found).out,
            "\nDoctor completed."@,
        )),
{
    let r = doctor_report_spec(zig_version, wlink_found, esptool, config_found);
    let zl = zig_check(zig_version).0;
    let missing = zig_check(zig_version).1;
    let head = seq!["Checking rvkit environment...\n"@];
    let checks = head + zl + wlink_check(wlink_found) + esptool_check(esptool) + project_check(
        config_found,
    );
    assert(checks[0] == head[0]);
    if zl.len() > 0 {
        assert(checks[1] == zl[0]);
    }
    if zl.len() > 1 {
        assert(checks[2] == zl[1]);
    }
    assert(r.out[0] == checks[0]);
    assert(r.out[1] == checks[1]);
    assert(r.out[2] == checks[2]);
    if let Some(v) = zig_version {
        if version_at_least_spec(v, (0, 14)) == Some(false) {
            reveal_strlit("     rvkit projects need Zig ");
            reveal_strlit(".");
            reveal_strlit(" or newer — https://ziglang.org/download/");
            reveal_strlit("     rvkit projects need Zig 0.14 or newer — https://ziglang.org/download/");
            let z = decimal_digits(0);
            let f = decimal_digits(14);
            assert(z =~= seq!['0']);
            assert(decimal_digits(1) =~= seq!['1']);
            assert(f =~= seq!['1', '4']);
            assert("     rvkit projects need Zig "@ + z + "."@ + f
                + " or newer — https://ziglang.org/download/"@
                =~= "     rvkit projects need Zig 0.14 or newer — https://ziglang.org/download/"@);
        }
    }
    // esptool lines
    let pre_e = head + zl + wlink_check(wlink_found);
    let tail: Seq<Seq<char>> = if missing {
        seq![]
    } else {
        seq!["\nDoctor completed."@]
    };
    let post_e = project_check(config_found) + tail;
    assert(doctor_report_spec(zig_version, wlink_found, None, config_found).out =~= pre_e
        + seq!["warn esptool not found"@, "     Required to flash ESP32-C3 boards"@] + post_e);
    assert(doctor_report_spec(zig_version, wlink_found, Some(name), config_found).out =~= pre_e
        + seq!["ok   esptool found (as '"@ + name + "')"@] + post_e);
    // project lines
    let pre_p = head + zl + wlink_check(wlink_found) + esptool_check(esptool);
    assert(doctor_report_spec(zig_version, wlink_found, esptool, false).out =~= pre_p + seq![
        "info rvkit.toml not found in current directory"@,
        "     Run doctor inside an rvkit project for project-specific checks"@,
    ] + tail);
    assert(doctor_report_spec(zig_version, wlink_found, esptool, true).out =~= pre_p + seq![
        "ok   rvkit.toml found"@,
    ] + tail);
    // closing
    if !r.success {
        lemma_other_lines_leave_wlink_alone(zig_version, esptool, config_found);
        reveal_strlit("\nDoctor completed.");
        reveal_strlit("Checking rvkit environment...\n");
        reveal_strlit("ok   wlink found");
        reveal_strlit("warn wlink not found");
        reveal_strlit("     Required to flash CH32V003 boards");
        let done = "\nDoctor completed."@;
        assert forall|i: int| 0 <= i < r.out.len() implies r.out[i] != done by {
            let line = r.out[i];
            lemma_closing_differs(zig_version, wlink_found, esptool, config_found, line);
        }
    }
}

/// No line about the checks themselves is the closing line.
proof fn lemma_closing_differs(
    zig_version: Option<Seq<char>>,
    wlink_found: bool,
    esptool: Option<Seq<char>>,
    config_found: bool,
    line: Seq<char>,
)
    requires
        (seq!["Checking rvkit environment...\n"@] + zig_check(zig_version).0 + wlink_check(
            wlink_found,
        ) + esptool_check(esptool) + project_check(config_found)).contains(line),
    ensures
        line != "\nDoctor completed."@,
{
    reveal_strlit("\nDoctor completed.");
    reveal_strlit("Checking rvkit environment...\n");
    reveal_strlit("ok   zig ");
    reveal_strlit("miss zig ");
    reveal_strlit("     rvkit projects need Zig ");
    reveal_strlit("warn zig found but version '");
    reveal_strlit("miss zig not found");
    reveal_strlit("     Install Zig from https://ziglang.org/download/");
    reveal_strlit("ok   wlink found");
    reveal_strlit("warn wlink not found");
    reveal_strlit("     Required to flash CH32V003 boards");
    reveal_strlit("ok   esptool found (as '");
    reveal_strlit("warn esptool not found");
    reveal_strlit("     Required to flash ESP32-C3 boards");
    reveal_strlit("ok   rvkit.toml found");
    reveal_strlit("info rvkit.toml not found in current directory");
    reveal_strlit("     Run doctor inside an rvkit project for project-specific checks");
    let all = seq!["Checking rvkit environment...\n"@] + zig_check(zig_version).0 + wlink_check(
        wlink_found,
    ) + esptool_check(esptool) + project_check(config_found);
    let i = choose|i: int| 0 <= i < all.len() && all[i] == line;
    assert(line[0] != '\n');
    lemma_lines_differ(line, "\nDoctor completed."@, 0);
}

/// Doctor fails exactly when Zig is missing or older than 0.14: a missing
/// wlink or esptool, an unreadable Zig version or the absence of a project
/// file never make it fail.
pub proof fn lemma_doctor_fails_only_for_zig(
    zig_version: Option<Seq<char>>,
    wlink_found: bool,
    esptool: Option<Seq<char>>,
    config_found: bool,
)
    ensures
        !doctor_report_spec(zig_version, wlink_found, esptool, config_found).success <==> (
        zig_version is None || version_at_least_spec(zig_version->0, MIN_ZIG) == Some(false)),
        doctor_report_spec(zig_version, wlink_found, esptool, config_found).success <==> doctor_report_spec(
            zig_version,
            wlink_found,
            esptool,
            config_found,
        ).err.len() == 0,
{
}

} // verus!
