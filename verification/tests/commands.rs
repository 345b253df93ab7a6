use rvkit::config::{flash_settings, Config, ConfigError, Flash, Project, CONFIG_FILE};
use rvkit::monitor::{
    connecting_banner, no_port_message, no_port_report, on_read, open_error_message,
    open_error_report, ports_report, resolve_baud, resolve_port, ReadAction, ReadEvent, DEFAULT_BAUD,
};
use rvkit::tools::{find_esptool, next_esptool_step, EsptoolStep, ToolOutcome};
use rvkit::zig_build::{build_report, BUILD_BANNER};

#[test]
fn build_report_for_each_outcome() {
    assert_eq!(BUILD_BANNER, "Building...");
    let ok = build_report(&ToolOutcome::Succeeded);
    assert!(ok.success);
    assert_eq!(ok.out, vec!["Build succeeded!"]);
    assert!(ok.err.is_empty());
    let failed = build_report(&ToolOutcome::Failed);
    assert!(!failed.success);
    assert_eq!(failed.err, vec!["Build failed."]);
    let missing = build_report(&ToolOutcome::NotFound);
    assert!(!missing.success);
    assert_eq!(missing.err, vec!["Error: 'zig' not found. Install Zig from https://ziglang.org/download/"]);
    let broken = build_report(&ToolOutcome::CouldNotRun { detail: "oops".to_string() });
    assert!(!broken.success);
    assert_eq!(broken.err, vec!["Error: failed to run 'zig build': oops"]);
}

#[test]
fn find_esptool_prefers_esptool() {
    assert_eq!(find_esptool(|_name: &'static str| true), Some("esptool"));
    assert_eq!(find_esptool(|name: &'static str| name == "esptool.py"), Some("esptool.py"));
    assert_eq!(find_esptool(|_name: &'static str| false), None);
}

#[test]
fn find_esptool_stops_at_the_first_hit() {
    let asked = std::cell::RefCell::new(Vec::new());
    let found = find_esptool(|name: &'static str| {
        asked.borrow_mut().push(name);
        true
    });
    assert_eq!(found, Some("esptool"));
    assert_eq!(*asked.borrow(), vec!["esptool"]);
}

#[test]
fn port_and_baud_precedence() {
    assert_eq!(resolve_port(Some("COM3".to_string()), Some("/dev/ttyUSB0".to_string())), Some("COM3".to_string()));
    assert_eq!(resolve_port(None, Some("/dev/ttyUSB0".to_string())), Some("/dev/ttyUSB0".to_string()));
    assert_eq!(resolve_port(None, None), None);
    assert_eq!(resolve_baud(Some(9600), Some(57600)), 9600);
    assert_eq!(resolve_baud(None, Some(57600)), 57600);
    assert_eq!(resolve_baud(None, None), 115200);
    assert_eq!(DEFAULT_BAUD, 115200);
}

#[test]
fn monitor_messages() {
    assert_eq!(
        no_port_message(),
        vec!["Error: no serial port specified.", "Pass --port <PORT> or set [flash] port in rvkit.toml."]
    );
    assert_eq!(
        connecting_banner("/dev/ttyUSB0", 115200),
        "Connecting to /dev/ttyUSB0 at 115200 baud... (Ctrl+C to quit)"
    );
    assert_eq!(open_error_message("COM3", "busy"), "Error: could not open COM3: busy");
}

#[test]
fn ports_report_lists_or_says_none() {
    assert_eq!(
        ports_report(Some(vec!["/dev/ttyUSB0".to_string(), "/dev/ttyACM0".to_string()])),
        vec!["Available ports:", "  /dev/ttyUSB0", "  /dev/ttyACM0"]
    );
    assert_eq!(ports_report(Some(Vec::new())), vec!["No serial ports detected."]);
    assert_eq!(ports_report(None), vec!["No serial ports detected."]);
}

#[test]
fn read_loop_steps() {
    assert!(matches!(on_read(ReadEvent::Data { len: 0 }), ReadAction::Wait));
    assert!(matches!(on_read(ReadEvent::Data { len: 17 }), ReadAction::Write { len: 17 }));
    assert!(matches!(on_read(ReadEvent::TimedOut), ReadAction::Wait));
    assert!(matches!(on_read(ReadEvent::Interrupted), ReadAction::Wait));
    match on_read(ReadEvent::Failed { detail: "device gone".to_string() }) {
        ReadAction::Stop { message } => assert_eq!(message, "\nRead error: device gone"),
        _ => panic!("a failed read stops the monitor"),
    }
}

#[test]
fn config_defaults_and_errors() {
    assert_eq!(CONFIG_FILE, "rvkit.toml");
    let flash = Flash::default();
    assert!(flash.port.is_none() && flash.baud_rate.is_none());
    let none = flash_settings(None);
    assert!(none.port.is_none() && none.baud_rate.is_none());
    let config = Config {
        project: Project { name: "blink".to_string(), board: "ch32v003".to_string() },
        flash: Flash { port: Some("/dev/ttyUSB0".to_string()), baud_rate: Some(9600) },
    };
    let some = flash_settings(Some(config));
    assert_eq!(some.port, Some("/dev/ttyUSB0".to_string()));
    assert_eq!(some.baud_rate, Some(9600));
    assert_eq!(
        ConfigError::NotFound.message(),
        "Error: rvkit.toml not found. Are you inside an rvkit project?"
    );
    assert_eq!(
        ConfigError::Invalid { detail: "missing field `board`".to_string() }.message(),
        "Error: rvkit.toml is invalid: missing field `board`"
    );
}

#[test]
fn monitor_start_failures_list_ports() {
    assert_eq!(
        no_port_report(Some(vec!["COM3".to_string()])),
        vec![
            "Error: no serial port specified.",
            "Pass --port <PORT> or set [flash] port in rvkit.toml.",
            "Available ports:",
            "  COM3",
        ]
    );
    assert_eq!(
        open_error_report("COM4", "busy", None),
        vec!["Error: could not open COM4: busy", "No serial ports detected."]
    );
}

#[test]
fn esptool_search_steps() {
    assert!(matches!(
        next_esptool_step(&[]),
        EsptoolStep::Probe { program: "esptool", arg: "version" }
    ));
    assert!(matches!(next_esptool_step(&[true]), EsptoolStep::Found { name: "esptool" }));
    assert!(matches!(
        next_esptool_step(&[false]),
        EsptoolStep::Probe { program: "esptool.py", arg: "version" }
    ));
    assert!(matches!(next_esptool_step(&[false, true]), EsptoolStep::Found { name: "esptool.py" }));
    assert!(matches!(next_esptool_step(&[false, false]), EsptoolStep::Absent));
}

#[test]
fn esptool_search_never_probes_twice_after_a_hit() {
    let asked = std::cell::RefCell::new(Vec::new());
    let found = find_esptool(|name: &'static str| {
        asked.borrow_mut().push(name);
        name == "esptool.py"
    });
    assert_eq!(found, Some("esptool.py"));
    assert_eq!(*asked.borrow(), vec!["esptool", "esptool.py"]);
}
