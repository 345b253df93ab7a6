//! `rvkit build`: what to report about a run of `zig build`.

use vstd::prelude::*;
use vstd::string::*;
use crate::text::{join2, lines_of, push_line, push_str_line, Report, ReportView};
use crate::tools::ToolOutcome;

verus! {

/// The line written before `zig build` starts.
pub const BUILD_BANNER: &'static str = "Building...";

/// What `rvkit build` reports after `zig build` ended with `outcome`.
pub open spec fn build_report_spec(outcome: ToolOutcome) -> ReportView {
    match outcome {
        ToolOutcome::Succeeded => ReportView { out: seq!["Build succeeded!"@], err: seq![], success: true },
        ToolOutcome::Failed => ReportView { out: seq![], err: seq!["Build failed."@], success: false },
        ToolOutcome::NotFound => ReportView {
            out: seq![],
            err: seq!["Error: 'zig' not found. Install Zig from https://ziglang.org/download/"@],
            success: false,
        },
        ToolOutcome::CouldNotRun { detail } => ReportView {
            out: seq![],
            err: seq!["Error: failed to run 'zig build': "@ + detail@],
            success: false,
        },
    }
}

/// What `rvkit build` reports after `zig build` ended with `outcome`; the
/// build succeeds only when Zig ran and exited successfully.
pub fn build_report(outcome: &ToolOutcome) -> (report: Report)
    ensures
        report@ == build_report_spec(*outcome),
        report.success <==> *outcome is Succeeded,
        *outcome is Succeeded ==> report@.out == seq!["Build succeeded!"@] && report@.err.len() == 0,
        !(*outcome is Succeeded) ==> report@.out.len() == 0 && report@.err.len() == 1,
{
    let mut out: Vec<String> = Vec::new();
    let mut err: Vec<String> = Vec::new();
    assert(lines_of(Seq::<String>::empty()) =~= Seq::<Seq<char>>::empty());
    let success = match outcome {
        ToolOutcome::Succeeded => {
            push_str_line(&mut out, "Build succeeded!");
            true
        },
        ToolOutcome::Failed => {
            push_str_line(&mut err, "Build failed.");
            false
        },
        ToolOutcome::NotFound => {
            push_str_line(
                &mut err,
                "Error: 'zig' not found. Install Zig from https://ziglang.org/download/",
            );
            false
        },
        ToolOutcome::CouldNotRun { detail } => {
            push_line(&mut err, join2("Error: failed to run 'zig build': ", detail.as_str()));
            false
        },
    };
    let report = Report { out, err, success };
    assert(report@.out =~= build_report_spec(*outcome).out);
    assert(report@.err =~= build_report_spec(*outcome).err);
    report
}

/// "Build succeeded!" is written, and written alone on standard output,
/// exactly when `zig build` ran and exited successfully; every other ending
/// writes nothing on standard output and one error line: "Build failed." when
/// Zig ran and failed, a "not found" line naming the Zig download page when
/// Zig is missing, and the reason when Zig could not be started.
pub proof fn lemma_build_succeeds_only_when_zig_does(outcome: ToolOutcome)
    ensures
        build_report_spec(outcome).success <==> outcome is Succeeded,
        outcome is Succeeded ==> build_report_spec(outcome).out == seq!["Build succeeded!"@]
            && build_report_spec(outcome).err.len() == 0,
        !(outcome is Succeeded) ==> build_report_spec(outcome).out.len() == 0
            && build_report_spec(outcome).err.len() == 1,
        outcome is Failed ==> build_report_spec(outcome).err == seq!["Build failed."@],
        outcome is NotFound ==> build_report_spec(outcome).err == seq![
            "Error: 'zig' not found. Install Zig from https://ziglang.org/download/"@,
        ],
        outcome matches ToolOutcome::CouldNotRun { detail } ==> build_report_spec(outcome).err
            == seq!["Error: failed to run 'zig build': "@ + detail@],
{
}

} // verus!
