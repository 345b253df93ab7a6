use rvkit::boards::{board_line_text, boards_listing, esp32_c3, get, list, ch32v003};

#[test]
fn get_returns_known_board_with_correct_metadata() {
    let b = get("ch32v003").expect("ch32v003 should be supported");
    assert_eq!(b.name, "ch32v003");
    assert_eq!(b.flash_tool, "wlink");
    assert_eq!(b.cpu_arch, "riscv32");
}

#[test]
fn esp32c3_is_flashed_with_esptool() {
    assert_eq!(get("esp32-c3").unwrap().flash_tool, "esptool");
}

#[test]
fn get_unknown_board_returns_none() {
    assert!(get("does-not-exist").is_none());
}

#[test]
fn list_contains_every_supported_board() {
    let boards = list();
    assert_eq!(boards.len(), 2);
    assert!(boards.iter().any(|b| b.name == "ch32v003"));
    assert!(boards.iter().any(|b| b.name == "esp32-c3"));
}

#[test]
fn boards_command_lists_supported_boards() {
    let stdout = boards_listing().join("\n");
    assert!(stdout.contains("ch32v003"));
    assert!(stdout.contains("esp32-c3"));
    assert!(stdout.contains("wlink"));
    assert!(stdout.contains("esptool"));
    assert!(stdout.contains("experimental"));
}

#[test]
fn boards_listing_is_exact() {
    let lines = boards_listing();
    assert_eq!(
        lines,
        vec![
            "Supported boards:\n".to_string(),
            "  ch32v003 — flash via wlink".to_string(),
            "  esp32-c3 — flash via esptool (experimental — flash not implemented yet)".to_string(),
        ]
    );
}

#[test]
fn board_line_marks_only_experimental_boards() {
    assert_eq!(board_line_text(&ch32v003()), "  ch32v003 — flash via wlink");
    assert!(board_line_text(&esp32_c3()).ends_with("(experimental — flash not implemented yet)"));
}

#[test]
fn get_is_exact_about_names() {
    assert!(get("CH32V003").is_none());
    assert!(get("ch32v003 ").is_none());
    assert!(get("esp32c3").is_none());
    assert!(get("").is_none());
    let esp = get("esp32-c3").unwrap();
    assert!(esp.experimental);
    assert_eq!(esp.linker_script_path, "framework/linker/esp32c3.ld");
    let ch = get("ch32v003").unwrap();
    assert!(!ch.experimental);
    assert_eq!(ch.linker_script_path, "framework/linker/ch32v003.ld");
}

#[test]
fn listed_boards_are_found_by_name() {
    for board in list() {
        let found = get(board.name).unwrap();
        assert_eq!(found.name, board.name);
        assert_eq!(found.flash_tool, board.flash_tool);
        assert_eq!(found.experimental, board.experimental);
        assert_eq!(found.cpu_arch, "riscv32");
    }
}

#[test]
fn target_queries_select_the_right_extensions() {
    let ch = ch32v003();
    assert!(ch.target_query.contains(".cpu_arch = .riscv32"));
    assert!(ch.target_query.contains(".cpu_features_add = std.Target.riscv.featureSet(&.{ .e, .c })"));
    assert!(ch.target_query.contains(".cpu_features_sub = std.Target.riscv.featureSet(&.{ .i })"));
    let esp = esp32_c3();
    assert!(esp.target_query.contains(".cpu_features_add = std.Target.riscv.featureSet(&.{ .m, .c })"));
    assert!(!esp.target_query.contains("cpu_features_sub"));
}
