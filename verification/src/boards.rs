//! The boards that rvkit knows how to scaffold, build and flash.

use vstd::prelude::*;
use vstd::string::*;
use crate::text::{join3, lines_of, push_line, push_str_line, str_eq};

verus! {

/// A supported board.
#[derive(Clone, Copy)]
pub struct Board {
    pub name: &'static str,
    /// The CPU architecture of the board's core.
    pub cpu_arch: &'static str,
    /// `std.Target.Query` fields injected into the generated build.zig.
    pub target_query: &'static str,
    /// Path, inside the rvkit repository, of the board's linker script.
    pub linker_script_path: &'static str,
    pub flash_tool: &'static str,
    /// Experimental boards scaffold and build, but `rvkit flash` refuses them.
    pub experimental: bool,
}

/// The mathematical content of a [`Board`].
pub struct BoardView {
    pub name: Seq<char>,
    pub cpu_arch: Seq<char>,
    pub target_query: Seq<char>,
    pub linker_script_path: Seq<char>,
    pub flash_tool: Seq<char>,
    pub experimental: bool,
}

impl View for Board {
    type V = BoardView;

    open spec fn view(&self) -> BoardView {
        BoardView {
            name: self.name@,
            cpu_arch: self.cpu_arch@,
            target_query: self.target_query@,
            linker_script_path: self.linker_script_path@,
            flash_tool: self.flash_tool@,
            experimental: self.experimental,
        }
    }
}

/// CH32V003: QingKe V2A core (RV32EC), flashed through a WCH-LinkE.
pub open spec fn ch32v003_spec() -> BoardView {
    BoardView {
        name: "ch32v003"@,
        cpu_arch: "riscv32"@,
        target_query: CH32V003_TARGET_QUERY@,
        linker_script_path: "framework/linker/ch32v003.ld"@,
        flash_tool: "wlink"@,
        experimental: false,
    }
}

/// ESP32-C3: an RV32IMC core.
pub open spec fn esp32_c3_spec() -> BoardView {
    BoardView {
        name: "esp32-c3"@,
        cpu_arch: "riscv32"@,
        target_query: ESP32_C3_TARGET_QUERY@,
        linker_script_path: "framework/linker/esp32c3.ld"@,
        flash_tool: "esptool"@,
        experimental: true,
    }
}

/// Target query of the CH32V003. Its core is RV32EC: 16 registers,
/// compressed instructions, no hardware multiply/divide. `e` and `i` are
/// mutually exclusive base ISAs, so `i` (implied by generic_rv32) is removed.
pub const CH32V003_TARGET_QUERY: &'static str = r"        .cpu_arch = .riscv32,
        .cpu_model = .{ .explicit = &std.Target.riscv.cpu.generic_rv32 },
        .cpu_features_add = std.Target.riscv.featureSet(&.{ .e, .c }),
        .cpu_features_sub = std.Target.riscv.featureSet(&.{ .i }),
        .os_tag = .freestanding,
        .abi = .none,";

/// Target query of the ESP32-C3, an RV32IMC core.
pub const ESP32_C3_TARGET_QUERY: &'static str = r"        .cpu_arch = .riscv32,
        .cpu_model = .{ .explicit = &std.Target.riscv.cpu.generic_rv32 },
        .cpu_features_add = std.Target.riscv.featureSet(&.{ .m, .c }),
        .os_tag = .freestanding,
        .abi = .none,";

/// The supported boards, in the order `rvkit boards` lists them.
pub open spec fn supported_boards() -> Seq<BoardView> {
    seq![ch32v003_spec(), esp32_c3_spec()]
}

/// The supported board called `name`, if there is one.
pub open spec fn board_named(name: Seq<char>) -> Option<BoardView> {
    if name == "ch32v003"@ {
        Some(ch32v003_spec())
    } else if name == "esp32-c3"@ {
        Some(esp32_c3_spec())
    } else {
        None
    }
}

/// The CH32V003 board.
pub fn ch32v003() -> (board: Board)
    ensures
        board@ == ch32v003_spec(),
{
    Board {
        name: "ch32v003",
        cpu_arch: "riscv32",
        target_query: CH32V003_TARGET_QUERY,
        linker_script_path: "framework/linker/ch32v003.ld",
        flash_tool: "wlink",
        experimental: false,
    }
}

/// The ESP32-C3 board.
pub fn esp32_c3() -> (board: Board)
    ensures
        board@ == esp32_c3_spec(),
{
    Board {
        name: "esp32-c3",
        cpu_arch: "riscv32",
        target_query: ESP32_C3_TARGET_QUERY,
        linker_script_path: "framework/linker/esp32c3.ld",
        flash_tool: "esptool",
        experimental: true,
    }
}

/// Looks a supported board up by name.
pub fn get(name: &str) -> (board: Option<Board>)
    ensures
        match board {
            Some(b) => board_named(name@) == Some(b@),
            None => board_named(name@) is None,
        },
{
    if str_eq(name, "ch32v003") {
        Some(ch32v003())
    } else if str_eq(name, "esp32-c3") {
        Some(esp32_c3())
    } else {
        None
    }
}

/// All supported boards, in the order `rvkit boards` lists them.
pub fn list() -> (boards: Vec<Board>)
    ensures
        boards@.map_values(|b: Board| b@) == supported_boards(),
{
    let boards = vec![ch32v003(), esp32_c3()];
    assert(boards@.map_values(|b: Board| b@) =~= supported_boards());
    boards
}

/// The marker that `rvkit boards` puts after an experimental board.
pub open spec fn experimental_marker(board: BoardView) -> Seq<char> {
    if board.experimental {
        " (experimental — flash not implemented yet)"@
    } else {
        ""@
    }
}

/// The line that `rvkit boards` writes for `board`.
pub open spec fn board_line(board: BoardView) -> Seq<char> {
    "  "@ + board.name + " — flash via "@ + board.flash_tool + experimental_marker(board)
}

/// What `rvkit boards` writes: a heading, then one line per supported board.
pub open spec fn boards_listing_spec() -> Seq<Seq<char>> {
    seq!["Supported boards:\n"@] + supported_boards().map_values(|b: BoardView| board_line(b))
}

/// The line that `rvkit boards` writes for `board`.
pub fn board_line_text(board: &Board) -> (line: String)
    ensures
        line@ == board_line(board@),
{
    let marker = if board.experimental {
        " (experimental — flash not implemented yet)"
    } else {
        ""
    };
    join3("  ", board.name, " — flash via ").concat(board.flash_tool).concat(marker)
}

/// The lines that `rvkit boards` writes.
pub fn boards_listing() -> (lines: Vec<String>)
    ensures
        lines_of(lines@) == boards_listing_spec(),
{
    let boards = list();
    let mut lines: Vec<String> = Vec::new();
    push_str_line(&mut lines, "Supported boards:\n");
    let mut i: usize = 0;
    while i < boards.len()
        invariant
            i <= boards@.len(),
            boards@.map_values(|b: Board| b@) == supported_boards(),
            lines_of(lines@) == seq!["Supported boards:\n"@] + supported_boards().take(
                i as int,
            ).map_values(|b: BoardView| board_line(b)),
        decreases boards@.len() - i,
    {
        assert(boards@[i as int]@ == supported_boards()[i as int]);
        push_line(&mut lines, board_line_text(&boards[i]));
        assert(supported_boards().take(i + 1).map_values(|b: BoardView| board_line(b))
            =~= supported_boards().take(i as int).map_values(|b: BoardView| board_line(b)).push(
            board_line(supported_boards()[i as int]),
        ));
        i += 1;
    }
    assert(supported_boards().take(i as int) =~= supported_boards());
    lines
}

/// `list` and `get` agree: every listed board is found under its own name,
/// `get` finds nothing that is not listed, and no two listed boards share a name.
pub proof fn lemma_list_and_get_agree(name: Seq<char>)
    ensures
        forall|i: int|
            0 <= i < supported_boards().len() ==> board_named(#[trigger] supported_boards()[i].name)
                == Some(supported_boards()[i]),
        board_named(name) matches Some(b) ==> supported_boards().contains(b) && b.name == name,
        forall|i: int, j: int|
            0 <= i < supported_boards().len() && 0 <= j < supported_boards().len() && i != j
                ==> #[trigger] supported_boards()[i].name != #[trigger] supported_boards()[j].name,
{
    reveal_strlit("ch32v003");
    reveal_strlit("esp32-c3");
    assert("ch32v003"@[0] != "esp32-c3"@[0]);
    if let Some(b) = board_named(name) {
        if name == "ch32v003"@ {
            assert(supported_boards()[0] == b);
        } else {
            assert(supported_boards()[1] == b);
        }
    }
}

/// The start of the target query of a 32-bit RISC-V board built on Zig's
/// generic_rv32 CPU model.
pub const RV32_TARGET_PREFIX: &'static str = r"        .cpu_arch = .riscv32,
        .cpu_model = .{ .explicit = &std.Target.riscv.cpu.generic_rv32 },";

/// Each board carries its own fixed target query, and every supported
/// board's query selects the 32-bit RISC-V architecture with the
/// generic_rv32 CPU model, as its `cpu_arch` says.
pub proof fn lemma_target_queries_are_rv32()
    ensures
        ch32v003_spec().target_query == CH32V003_TARGET_QUERY@,
        esp32_c3_spec().target_query == ESP32_C3_TARGET_QUERY@,
        forall|i: int|
            0 <= i < supported_boards().len() ==> {
                &&& #[trigger] supported_boards()[i].cpu_arch == "riscv32"@
                &&& supported_boards()[i].target_query.len() >= RV32_TARGET_PREFIX@.len()
                &&& supported_boards()[i].target_query.subrange(0, RV32_TARGET_PREFIX@.len() as int)
                    == RV32_TARGET_PREFIX@
            },
{
    reveal_strlit(r"        .cpu_arch = .riscv32,
        .cpu_model = .{ .explicit = &std.Target.riscv.cpu.generic_rv32 },");
    reveal_strlit(r"        .cpu_arch = .riscv32,
        .cpu_model = .{ .explicit = &std.Target.riscv.cpu.generic_rv32 },
        .cpu_features_add = std.Target.riscv.featureSet(&.{ .e, .c }),
        .cpu_features_sub = std.Target.riscv.featureSet(&.{ .i }),
        .os_tag = .freestanding,
        .abi = .none,");
    reveal_strlit(r"        .cpu_arch = .riscv32,
        .cpu_model = .{ .explicit = &std.Target.riscv.cpu.generic_rv32 },
        .cpu_features_add = std.Target.riscv.featureSet(&.{ .m, .c }),
        .os_tag = .freestanding,
        .abi = .none,");
    reveal_strlit("riscv32");
    assert(CH32V003_TARGET_QUERY@.subrange(0, RV32_TARGET_PREFIX@.len() as int)
        =~= RV32_TARGET_PREFIX@);
    assert(ESP32_C3_TARGET_QUERY@.subrange(0, RV32_TARGET_PREFIX@.len() as int)
        =~= RV32_TARGET_PREFIX@);
    assert(supported_boards()[0] == ch32v003_spec());
    assert(supported_boards()[1] == esp32_c3_spec());
}

/// `rvkit boards` writes a heading and then one line per supported board,
/// in order: two spaces, the board's name, " — flash via ", its flash tool,
/// and, for an experimental board only, " (experimental — flash not
/// implemented yet)". In particular the CH32V003 is listed with wlink and
/// the ESP32-C3 with esptool and the experimental marker.
pub proof fn lemma_listing_names_every_board()
    ensures
        boards_listing_spec().len() == supported_boards().len() + 1,
        boards_listing_spec()[0] == "Supported boards:\n"@,
        forall|i: int|
            0 <= i < supported_boards().len() ==> #[trigger] boards_listing_spec()[i + 1] == "  "@
                + supported_boards()[i].name + " — flash via "@ + supported_boards()[i].flash_tool
                + if supported_boards()[i].experimental {
                " (experimental — flash not implemented yet)"@
            } else {
                ""@
            },
        boards_listing_spec()[1] == "  "@ + "ch32v003"@ + " — flash via "@ + "wlink"@ + ""@,
        boards_listing_spec()[2] == "  "@ + "esp32-c3"@ + " — flash via "@ + "esptool"@
            + " (experimental — flash not implemented yet)"@,
{
    assert forall|i: int| 0 <= i < supported_boards().len() implies #[trigger] boards_listing_spec()[i
        + 1] == board_line(supported_boards()[i]) by {}
}

/// Every supported board is a 32-bit RISC-V board.
pub proof fn lemma_boards_are_riscv32()
    ensures
        forall|i: int|
            0 <= i < supported_boards().len() ==> #[trigger] supported_boards()[i].cpu_arch
                == "riscv32"@,
{
}

} // verus!
