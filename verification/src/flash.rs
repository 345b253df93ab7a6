//! `rvkit flash`: which board and firmware to flash, with which tool, and
//! what to report about it.

use vstd::prelude::*;
use vstd::string::*;
use crate::boards::{board_named, get, supported_boards, Board, BoardView};
use crate::text::{join2, join3, lines_of, push_line, str_eq};
use crate::tools::ToolOutcome;

verus! {

/// Why `rvkit flash` stops without flashing. Each of them ends the command
/// with exit status 1.
pub enum FlashError {
    /// The project names a board that rvkit does not know.
    UnsupportedBoard { name: String },
    /// The board is experimental: it scaffolds and builds but is not flashed.
    ExperimentalBoard { board: Board },
    /// The firmware has not been built.
    MissingFirmware { path: String },
    /// No flashing procedure is known for the board's flash tool.
    UnsupportedTool { tool: String },
    /// The flash tool ran and reported a failure.
    FlashFailed,
    /// The flash tool is not installed.
    ToolNotFound { tool: String },
    /// The flash tool could not be started; `detail` says why.
    ToolFailed { tool: String, detail: String },
}

/// The board of that name that rvkit flashes: a supported board that is
/// not experimental.
pub open spec fn flashable_board(name: Seq<char>) -> Option<BoardView> {
    match board_named(name) {
        Some(b) => if b.experimental {
            None
        } else {
            Some(b)
        },
        None => None,
    }
}

impl FlashError {
    /// The lines that `rvkit flash` writes to standard error for this error.
    pub open spec fn message_spec(&self) -> Seq<Seq<char>> {
        match self {
            FlashError::UnsupportedBoard { name } => seq!["Board '"@ + name@ + "' is not supported."@],
            FlashError::ExperimentalBoard { board } => seq![
                "Error: '"@ + board.name@ + "' support is experimental — flashing is not implemented yet."@,
                "       Flashing this board safely requires the "@ + board.flash_tool@
                    + " image pipeline; see the roadmap in the README."@,
            ],
            FlashError::MissingFirmware { path } => seq![
                "Error: '"@ + path@ + "' not found. Run 'rvkit build' first."@,
            ],
            FlashError::UnsupportedTool { tool } => seq!["Flash tool '"@ + tool@ + "' is not supported."@],
            FlashError::FlashFailed => seq!["✗ Flash failed."@],
            FlashError::ToolNotFound { tool } => seq![
                "Error: '"@ + tool@ + "' not found. Install it and try again."@,
            ],
            FlashError::ToolFailed { tool, detail } => seq![
                "Error: failed to run '"@ + tool@ + "': "@ + detail@,
            ],
        }
    }

    /// The lines that `rvkit flash` writes to standard error for this error.
    pub fn message(&self) -> (lines: Vec<String>)
        ensures
            lines_of(lines@) == self.message_spec(),
    {
        let mut lines: Vec<String> = Vec::new();
        match self {
            FlashError::UnsupportedBoard { name } => {
                push_line(&mut lines, join3("Board '", name.as_str(), "' is not supported."));
            },
            FlashError::ExperimentalBoard { board } => {
                push_line(
                    &mut lines,
                    join3(
                        "Error: '",
                        board.name,
                        "' support is experimental — flashing is not implemented yet.",
                    ),
                );
                push_line(
                    &mut lines,
                    join3(
                        "       Flashing this board safely requires the ",
                        board.flash_tool,
                        " image pipeline; see the roadmap in the README.",
                    ),
                );
            },
            FlashError::MissingFirmware { path } => {
                push_line(
                    &mut lines,
                    join3("Error: '", path.as_str(), "' not found. Run 'rvkit build' first."),
                );
            },
            FlashError::UnsupportedTool { tool } => {
                push_line(&mut lines, join3("Flash tool '", tool.as_str(), "' is not supported."));
            },
            FlashError::FlashFailed => {
                push_line(&mut lines, String::from_str("✗ Flash failed."));
            },
            FlashError::ToolNotFound { tool } => {
                push_line(
                    &mut lines,
                    join3("Error: '", tool.as_str(), "' not found. Install it and try again."),
                );
            },
            FlashError::ToolFailed { tool, detail } => {
                push_line(
                    &mut lines,
                    join3("Error: failed to run '", tool.as_str(), "': ").concat(detail.as_str()),
                );
            },
        }
        assert(lines_of(lines@) =~= self.message_spec());
        lines
    }
}

/// Picks the board to flash from the board name in rvkit.toml: an unknown
/// name and an experimental board are refused.
pub fn select_board(board_name: &str) -> (selected: Result<Board, FlashError>)
    ensures
        match selected {
            Ok(board) => flashable_board(board_name@) == Some(board@),
            Err(FlashError::UnsupportedBoard { name }) => board_named(board_name@) is None
                && name@ == board_name@,
            Err(FlashError::ExperimentalBoard { board }) => board_named(board_name@) == Some(board@)
                && board@.experimental,
            Err(_) => false,
        },
        selected is Ok <==> flashable_board(board_name@) is Some,
{
    match get(board_name) {
        None => Err(FlashError::UnsupportedBoard { name: String::from_str(board_name) }),
        Some(board) => if board.experimental {
            Err(FlashError::ExperimentalBoard { board })
        } else {
            Ok(board)
        },
    }
}

/// Where `zig build` puts the firmware of the project called `project_name`.
pub fn firmware_path(project_name: &str) -> (path: String)
    ensures
        path@ == "zig-out/bin/"@ + project_name@,
{
    join2("zig-out/bin/", project_name)
}

/// The line written before flashing starts.
pub fn flashing_banner(firmware: &str, board: &Board) -> (line: String)
    ensures
        line@ == "Flashing '"@ + firmware@ + "' onto board '"@ + board.name@ + "'..."@,
{
    join3("Flashing '", firmware, "' onto board '").concat(board.name).concat("'...")
}

/// The command line that flashes `firmware` onto `board`: only boards
/// flashed with wlink have one (`wlink flash <firmware>`).
pub fn flash_command(board: &Board, firmware: &str) -> (command: Result<Vec<String>, FlashError>)
    ensures
        match command {
            Ok(argv) => board.flash_tool@ == "wlink"@ && lines_of(argv@) == seq![
                "wlink"@,
                "flash"@,
                firmware@,
            ],
            Err(FlashError::UnsupportedTool { tool }) => board.flash_tool@ != "wlink"@ && tool@
                == board.flash_tool@,
            Err(_) => false,
        },
{
    if str_eq(board.flash_tool, "wlink") {
        let mut argv: Vec<String> = Vec::new();
        push_line(&mut argv, String::from_str("wlink"));
        push_line(&mut argv, String::from_str("flash"));
        push_line(&mut argv, String::from_str(firmware));
        assert(lines_of(argv@) =~= seq!["wlink"@, "flash"@, firmware@]);
        Ok(argv)
    } else {
        Err(FlashError::UnsupportedTool { tool: String::from_str(board.flash_tool) })
    }
}

/// What the run of the flash tool means: the line to write on success, or
/// the error.
pub fn flash_outcome(board: &Board, outcome: &ToolOutcome) -> (result: Result<String, FlashError>)
    ensures
        match (outcome, result) {
            (ToolOutcome::Succeeded, Ok(line)) => line@ == "✓ Flash succeeded!"@,
            (ToolOutcome::Failed, Err(FlashError::FlashFailed)) => true,
            (ToolOutcome::NotFound, Err(FlashError::ToolNotFound { tool })) => tool@
                == board.flash_tool@,
            (
                ToolOutcome::CouldNotRun { detail },
                Err(FlashError::ToolFailed { tool, detail: reported }),
            ) => tool@ == board.flash_tool@ && reported@ == detail@,
            _ => false,
        },
{
    match outcome {
        ToolOutcome::Succeeded => Ok(String::from_str("✓ Flash succeeded!")),
        ToolOutcome::Failed => Err(FlashError::FlashFailed),
        ToolOutcome::NotFound => Err(FlashError::ToolNotFound { tool: String::from_str(board.flash_tool) }),
        ToolOutcome::CouldNotRun { detail } => Err(
            FlashError::ToolFailed { tool: String::from_str(board.flash_tool), detail: detail.clone() },
        ),
    }
}

/// What `rvkit flash` does once the board is accepted and the firmware is
/// there: write `banner`, then run `command`, or report its error when the
/// board's tool has no flashing procedure.
pub struct FlashPlan {
    pub board: Board,
    pub firmware: String,
    pub banner: String,
    pub command: Result<Vec<String>, FlashError>,
}

/// The decisions of `rvkit flash` before the flash tool runs, in the order
/// the command takes them: the board named in rvkit.toml must be supported
/// and not experimental, then the firmware of the project must have been
/// built (`firmware_exists` tells whether `zig-out/bin/<project_name>` is
/// there), then the board's flash tool must have a flashing procedure.
pub fn plan_flash(board_name: &str, project_name: &str, firmware_exists: bool) -> (plan: Result<
    FlashPlan,
    FlashError,
>)
    ensures
        match plan {
            Ok(p) => {
                &&& flashable_board(board_name@) == Some(p.board@)
                &&& firmware_exists
                &&& p.firmware@ == "zig-out/bin/"@ + project_name@
                &&& p.banner@ == "Flashing '"@ + p.firmware@ + "' onto board '"@ + p.board.name@
                    + "'..."@
                &&& match p.command {
                    Ok(argv) => p.board.flash_tool@ == "wlink"@ && lines_of(argv@) == seq![
                        "wlink"@,
                        "flash"@,
                        p.firmware@,
                    ],
                    Err(FlashError::UnsupportedTool { tool }) => p.board.flash_tool@ != "wlink"@
                        && tool@ == p.board.flash_tool@,
                    Err(_) => false,
                }
            },
            Err(FlashError::UnsupportedBoard { name }) => board_named(board_name@) is None && name@
                == board_name@,
            Err(FlashError::ExperimentalBoard { board }) => board_named(board_name@) == Some(board@)
                && board@.experimental,
            Err(FlashError::MissingFirmware { path }) => flashable_board(board_name@) is Some
                && !firmware_exists && path@ == "zig-out/bin/"@ + project_name@,
            Err(_) => false,
        },
        plan is Ok <==> flashable_board(board_name@) is Some && firmware_exists,
{
    let board = match select_board(board_name) {
        Ok(b) => b,
        Err(e) => return Err(e),
    };
    let firmware = firmware_path(project_name);
    if !firmware_exists {
        return Err(FlashError::MissingFirmware { path: firmware });
    }
    let banner = flashing_banner(firmware.as_str(), &board);
    let command = flash_command(&board, firmware.as_str());
    Ok(FlashPlan { board, firmware, banner, command })
}

/// `part` occurs in `line`.
pub open spec fn mentions(line: Seq<char>, part: Seq<char>) -> bool {
    exists|k: int|
        0 <= k && k + part.len() <= line.len() && #[trigger] line.subrange(k, k + part.len()) == part
}

proof fn lemma_mentions(line: Seq<char>, before: Seq<char>, part: Seq<char>, after: Seq<char>)
    requires
        line =~= before + part + after,
    ensures
        mentions(line, part),
{
    let k: int = before.len() as int;
    assert(line.subrange(k, k + part.len()) =~= part);
}

/// Every refusal names what it is about, quoted, and says what went wrong:
/// an unknown board or tool is "not supported", an experimental board is
/// called "experimental" and its flash tool is named, missing firmware
/// points to "rvkit build", a missing tool is "not found", a tool that
/// cannot be started is followed by the reason, and a failed flash says so.
pub proof fn lemma_flash_messages_name_their_subject(error: FlashError)
    ensures
        error.message_spec().len() >= 1,
        error matches FlashError::UnsupportedBoard { name } ==> error.message_spec().len() == 1
            && mentions(error.message_spec()[0], "'"@ + name@ + "'"@) && mentions(
            error.message_spec()[0],
            "not supported"@,
        ),
        error matches FlashError::ExperimentalBoard { board } ==> error.message_spec().len() == 2
            && mentions(error.message_spec()[0], "'"@ + board.name@ + "'"@) && mentions(
            error.message_spec()[0],
            "experimental"@,
        ) && mentions(error.message_spec()[1], board.flash_tool@),
        error matches FlashError::MissingFirmware { path } ==> error.message_spec().len() == 1
            && mentions(error.message_spec()[0], "'"@ + path@ + "'"@) && mentions(
            error.message_spec()[0],
            "rvkit build"@,
        ),
        error matches FlashError::UnsupportedTool { tool } ==> error.message_spec().len() == 1
            && mentions(error.message_spec()[0], "'"@ + tool@ + "'"@) && mentions(
            error.message_spec()[0],
            "not supported"@,
        ),
        error matches FlashError::ToolNotFound { tool } ==> error.message_spec().len() == 1
            && mentions(error.message_spec()[0], "'"@ + tool@ + "'"@) && mentions(
            error.message_spec()[0],
            "not found"@,
        ),
        error matches FlashError::ToolFailed { tool, detail } ==> error.message_spec().len() == 1
            && mentions(error.message_spec()[0], "'"@ + tool@ + "'"@) && error.message_spec()[0].len()
            >= detail@.len() && error.message_spec()[0].subrange(
            error.message_spec()[0].len() - detail@.len(),
            error.message_spec()[0].len() as int,
        ) == detail@,
        error is FlashFailed ==> error.message_spec() == seq!["✗ Flash failed."@],
{
    reveal_strlit("'");
    match error {
        FlashError::UnsupportedBoard { name } => {
            reveal_strlit("Board '");
            reveal_strlit("' is not supported.");
            reveal_strlit("Board ");
            reveal_strlit(" is not supported.");
            reveal_strlit("not supported");
            reveal_strlit("' is ");
            reveal_strlit(".");
            let line = error.message_spec()[0];
            lemma_mentions(line, "Board "@, "'"@ + name@ + "'"@, " is not supported."@);
            lemma_mentions(line, "Board '"@ + name@ + "' is "@, "not supported"@, "."@);
        },
        FlashError::ExperimentalBoard { board } => {
            reveal_strlit("Error: '");
            reveal_strlit("Error: ");
            reveal_strlit("' support is experimental — flashing is not implemented yet.");
            reveal_strlit(" support is experimental — flashing is not implemented yet.");
            reveal_strlit("' support is ");
            reveal_strlit("experimental");
            reveal_strlit(" — flashing is not implemented yet.");
            reveal_strlit("       Flashing this board safely requires the ");
            reveal_strlit(" image pipeline; see the roadmap in the README.");
            let line = error.message_spec()[0];
            lemma_mentions(
                line,
                "Error: "@,
                "'"@ + board.name@ + "'"@,
                " support is experimental — flashing is not implemented yet."@,
            );
            lemma_mentions(
                line,
                "Error: '"@ + board.name@ + "' support is "@,
                "experimental"@,
                " — flashing is not implemented yet."@,
            );
            lemma_mentions(
                error.message_spec()[1],
                "       Flashing this board safely requires the "@,
                board.flash_tool@,
                " image pipeline; see the roadmap in the README."@,
            );
        },
        FlashError::MissingFirmware { path } => {
            reveal_strlit("Error: '");
            reveal_strlit("Error: ");
            reveal_strlit("' not found. Run 'rvkit build' first.");
            reveal_strlit(" not found. Run 'rvkit build' first.");
            reveal_strlit("' not found. Run '");
            reveal_strlit("rvkit build");
            reveal_strlit("' first.");
            let line = error.message_spec()[0];
            lemma_mentions(line, "Error: "@, "'"@ + path@ + "'"@, " not found. Run 'rvkit build' first."@);
            lemma_mentions(line, "Error: '"@ + path@ + "' not found. Run '"@, "rvkit build"@, "' first."@);
        },
        FlashError::UnsupportedTool { tool } => {
            reveal_strlit("Flash tool '");
            reveal_strlit("Flash tool ");
            reveal_strlit("' is not supported.");
            reveal_strlit(" is not supported.");
            reveal_strlit("' is ");
            reveal_strlit("not supported");
            reveal_strlit(".");
            let line = error.message_spec()[0];
            lemma_mentions(line, "Flash tool "@, "'"@ + tool@ + "'"@, " is not supported."@);
            lemma_mentions(line, "Flash tool '"@ + tool@ + "' is "@, "not supported"@, "."@);
        },
        FlashError::FlashFailed => {},
        FlashError::ToolNotFound { tool } => {
            reveal_strlit("Error: '");
            reveal_strlit("Error: ");
            reveal_strlit("' not found. Install it and try again.");
            reveal_strlit(" not found. Install it and try again.");
            reveal_strlit("' ");
            reveal_strlit("not found");
            reveal_strlit(". Install it and try again.");
            let line = error.message_spec()[0];
            lemma_mentions(line, "Error: "@, "'"@ + tool@ + "'"@, " not found. Install it and try again."@);
            lemma_mentions(line, "Error: '"@ + tool@ + "' "@, "not found"@, ". Install it and try again."@);
        },
        FlashError::ToolFailed { tool, detail } => {
            reveal_strlit("Error: failed to run '");
            reveal_strlit("Error: failed to run ");
            reveal_strlit("': ");
            reveal_strlit(": ");
            let line = error.message_spec()[0];
            lemma_mentions(line, "Error: failed to run "@, "'"@ + tool@ + "'"@, ": "@ + detail@);
            assert(line.subrange(line.len() - detail@.len(), line.len() as int) =~= detail@);
        },
    }
}

/// `rvkit flash` never flashes an experimental board: every board it
/// accepts is a supported, non-experimental one, and every experimental
/// supported board is refused.
pub proof fn lemma_flash_refuses_experimental(name: Seq<char>)
    ensures
        flashable_board(name) matches Some(b) ==> supported_boards().contains(b) && !b.experimental,
        board_named(name) matches Some(b) ==> (b.experimental <==> flashable_board(name) is None),
        forall|i: int|
            0 <= i < supported_boards().len() && (#[trigger] supported_boards()[i]).experimental
                ==> flashable_board(supported_boards()[i].name) is None,
{
    crate::boards::lemma_list_and_get_agree(name);
}

} // verus!
