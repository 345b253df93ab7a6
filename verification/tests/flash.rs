use rvkit::boards::{ch32v003, esp32_c3, get};
use rvkit::config::ConfigError;
use rvkit::flash::{
    firmware_path, flash_command, flash_outcome, flashing_banner, plan_flash, select_board, FlashError,
};
use rvkit::tools::ToolOutcome;

#[test]
fn flash_fails_outside_a_project() {
    let stderr = ConfigError::NotFound.message();
    assert!(stderr.contains("rvkit.toml not found"));
}

#[test]
fn flash_refuses_experimental_board() {
    let err = match select_board("esp32-c3") {
        Err(e) => e,
        Ok(_) => panic!("esp32-c3 must be refused"),
    };
    let stderr = err.message().join("\n");
    assert!(stderr.contains("experimental"));
    assert_eq!(
        err.message(),
        vec![
            "Error: 'esp32-c3' support is experimental — flashing is not implemented yet.",
            "       Flashing this board safely requires the esptool image pipeline; see the roadmap in the README.",
        ]
    );
}

#[test]
fn select_board_accepts_ch32v003() {
    let board = match select_board("ch32v003") {
        Ok(b) => b,
        Err(_) => panic!("ch32v003 must be accepted"),
    };
    assert_eq!(board.name, "ch32v003");
}

#[test]
fn select_board_refuses_unknown_board() {
    match select_board("atmega328") {
        Err(e) => {
            assert!(matches!(&e, FlashError::UnsupportedBoard { name } if name == "atmega328"));
            assert_eq!(e.message(), vec!["Board 'atmega328' is not supported."]);
        }
        Ok(_) => panic!("unknown boards must be refused"),
    }
}

#[test]
fn firmware_and_banner_text() {
    let path = firmware_path("blink");
    assert_eq!(path, "zig-out/bin/blink");
    assert_eq!(
        flashing_banner(&path, &ch32v003()),
        "Flashing 'zig-out/bin/blink' onto board 'ch32v003'..."
    );
    assert_eq!(
        FlashError::MissingFirmware { path }.message(),
        vec!["Error: 'zig-out/bin/blink' not found. Run 'rvkit build' first."]
    );
}

#[test]
fn flash_command_only_for_wlink() {
    match flash_command(&ch32v003(), "zig-out/bin/blink") {
        Ok(argv) => assert_eq!(argv, vec!["wlink", "flash", "zig-out/bin/blink"]),
        Err(_) => panic!("wlink boards have a flash command"),
    }
    match flash_command(&esp32_c3(), "zig-out/bin/wifi") {
        Err(e) => {
            assert!(matches!(&e, FlashError::UnsupportedTool { tool } if tool == "esptool"));
            assert_eq!(e.message(), vec!["Flash tool 'esptool' is not supported."]);
        }
        Ok(_) => panic!("esptool has no flash command"),
    }
}

#[test]
fn flash_outcome_reports_each_ending() {
    let board = get("ch32v003").unwrap();
    match flash_outcome(&board, &ToolOutcome::Succeeded) {
        Ok(line) => assert_eq!(line, "✓ Flash succeeded!"),
        Err(_) => panic!("success is success"),
    }
    match flash_outcome(&board, &ToolOutcome::Failed) {
        Err(e) => assert_eq!(e.message(), vec!["✗ Flash failed."]),
        Ok(_) => panic!("failure is failure"),
    }
    match flash_outcome(&board, &ToolOutcome::NotFound) {
        Err(e) => assert_eq!(e.message(), vec!["Error: 'wlink' not found. Install it and try again."]),
        Ok(_) => panic!("a missing tool is an error"),
    }
    let outcome = ToolOutcome::CouldNotRun { detail: "permission denied".to_string() };
    match flash_outcome(&board, &outcome) {
        Err(e) => assert_eq!(e.message(), vec!["Error: failed to run 'wlink': permission denied"]),
        Ok(_) => panic!("a tool that cannot start is an error"),
    }
}

#[test]
fn no_supported_experimental_board_is_flashable() {
    for board in rvkit::boards::list() {
        assert_eq!(select_board(board.name).is_ok(), !board.experimental);
    }
}

#[test]
fn plan_flash_checks_board_before_firmware() {
    match plan_flash("esp32-c3", "wifi", false) {
        Err(e) => assert!(matches!(e, FlashError::ExperimentalBoard { .. })),
        Ok(_) => panic!("an experimental board is refused before the firmware is looked for"),
    }
    match plan_flash("atmega328", "nope", false) {
        Err(e) => assert_eq!(e.message(), vec!["Board 'atmega328' is not supported."]),
        Ok(_) => panic!("unknown boards are refused"),
    }
    match plan_flash("ch32v003", "blink", false) {
        Err(e) => assert_eq!(
            e.message(),
            vec!["Error: 'zig-out/bin/blink' not found. Run 'rvkit build' first."]
        ),
        Ok(_) => panic!("unbuilt firmware is refused"),
    }
}

#[test]
fn plan_flash_gives_banner_and_command() {
    match plan_flash("ch32v003", "blink", true) {
        Ok(plan) => {
            assert_eq!(plan.board.name, "ch32v003");
            assert_eq!(plan.firmware, "zig-out/bin/blink");
            assert_eq!(plan.banner, "Flashing 'zig-out/bin/blink' onto board 'ch32v003'...");
            match plan.command {
                Ok(argv) => assert_eq!(argv, vec!["wlink", "flash", "zig-out/bin/blink"]),
                Err(_) => panic!("wlink boards have a command"),
            }
        }
        Err(_) => panic!("a built ch32v003 project is flashed"),
    }
}
