//! The external tools that rvkit drives, and how their runs end.

use vstd::prelude::*;

verus! {

/// How a run of an external tool ended.
pub enum ToolOutcome {
    /// The tool ran and exited successfully.
    Succeeded,
    /// The tool ran and exited with a failure status.
    Failed,
    /// The tool is not installed (not found on PATH).
    NotFound,
    /// The tool could not be started for another reason, described by `detail`.
    CouldNotRun { detail: String },
}

/// The next thing to do while looking for esptool.
pub enum EsptoolStep {
    /// Run `program arg`; whether it could be started is the next answer.
    Probe { program: &'static str, arg: &'static str },
    /// esptool runs under `name`; the search is over.
    Found { name: &'static str },
    /// esptool runs under neither name; the search is over.
    Absent,
}

/// esptool is installed as `esptool` by recent pip releases and as
/// `esptool.py` by older ones; accept either, preferring the first.
/// `answers[i]` tells whether the `i`-th probe could be started: first
/// `esptool version`, then, only when that failed, `esptool.py version`.
pub open spec fn esptool_step_spec(answers: Seq<bool>) -> EsptoolStep {
    if answers.len() == 0 {
        EsptoolStep::Probe { program: "esptool", arg: "version" }
    } else if answers[0] {
        EsptoolStep::Found { name: "esptool" }
    } else if answers.len() == 1 {
        EsptoolStep::Probe { program: "esptool.py", arg: "version" }
    } else if answers[1] {
        EsptoolStep::Found { name: "esptool.py" }
    } else {
        EsptoolStep::Absent
    }
}

/// The next step of the search for esptool, given the answers of the
/// probes run so far, in order.
pub fn next_esptool_step(answers: &[bool]) -> (step: EsptoolStep)
    ensures
        step == esptool_step_spec(answers@),
{
    if answers.len() == 0 {
        EsptoolStep::Probe { program: "esptool", arg: "version" }
    } else if answers[0] {
        EsptoolStep::Found { name: "esptool" }
    } else if answers.len() == 1 {
        EsptoolStep::Probe { program: "esptool.py", arg: "version" }
    } else if answers[1] {
        EsptoolStep::Found { name: "esptool.py" }
    } else {
        EsptoolStep::Absent
    }
}

/// Driven from no answers, the search runs `esptool version` first, runs
/// `esptool.py version` only when the first could not be started, runs
/// nothing else, and ends after at most these two probes.
pub proof fn lemma_esptool_search(first: bool, second: bool)
    ensures
        esptool_step_spec(seq![]) == (EsptoolStep::Probe { program: "esptool", arg: "version" }),
        first ==> esptool_step_spec(seq![first]) == (EsptoolStep::Found { name: "esptool" }),
        !first ==> esptool_step_spec(seq![first]) == (EsptoolStep::Probe {
            program: "esptool.py",
            arg: "version",
        }),
        !first && second ==> esptool_step_spec(seq![first, second]) == (EsptoolStep::Found {
            name: "esptool.py",
        }),
        !first && !second ==> esptool_step_spec(seq![first, second]) is Absent,
{
}

/// Looks for esptool by driving [`next_esptool_step`]: `is_installed` is
/// asked about `esptool`, then, only when it answers `false`, about
/// `esptool.py`; the first name it accepts is returned.
pub fn find_esptool<F: Fn(&'static str) -> bool>(is_installed: F) -> (found: Option<&'static str>)
    requires
        is_installed.requires(("esptool",)),
        is_installed.requires(("esptool.py",)),
    ensures
        found == Some("esptool") ==> is_installed.ensures(("esptool",), true),
        found == Some("esptool.py") ==> is_installed.ensures(("esptool",), false) && is_installed.ensures(
            ("esptool.py",),
            true,
        ),
        found is None ==> is_installed.ensures(("esptool",), false) && is_installed.ensures(
            ("esptool.py",),
            false,
        ),
        found is None || found == Some("esptool") || found == Some("esptool.py"),
{
    let mut answers: Vec<bool> = Vec::new();
    loop
        invariant
            is_installed.requires(("esptool",)),
            is_installed.requires(("esptool.py",)),
            answers@.len() <= 2,
            answers@.len() >= 1 ==> is_installed.ensures(("esptool",), answers@[0]),
            answers@.len() == 2 ==> !answers@[0] && is_installed.ensures(
                ("esptool.py",),
                answers@[1],
            ),
        decreases 2 - answers@.len(),
    {
        match next_esptool_step(answers.as_slice()) {
            EsptoolStep::Probe { program, arg: _ } => {
                let answer = is_installed(program);
                answers.push(answer);
            },
            EsptoolStep::Found { name } => return Some(name),
            EsptoolStep::Absent => return None,
        }
    }
}

} // verus!
