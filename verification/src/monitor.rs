//! `rvkit monitor`: which serial port and baud rate to open, and what to do
//! with each read from the port.

use vstd::prelude::*;
use vstd::string::*;
use crate::text::{join2, join3, lines_of, push_line, push_str_line};
use crate::version::{decimal_digits, decimal_string};

verus! {

/// The baud rate used when neither the command line nor rvkit.toml gives one.
pub const DEFAULT_BAUD: u32 = 115200;

/// The serial port to open: the one given on the command line, else the
/// one in rvkit.toml, else none.
pub fn resolve_port(port_arg: Option<String>, configured: Option<String>) -> (port: Option<String>)
    ensures
        port == match port_arg {
            Some(p) => Some(p),
            None => configured,
        },
{
    match port_arg {
        Some(p) => Some(p),
        None => configured,
    }
}

/// The baud rate to use: the one given on the command line, else the one in
/// rvkit.toml, else 115200.
pub fn resolve_baud(baud_arg: Option<u32>, configured: Option<u32>) -> (baud: u32)
    ensures
        baud == match baud_arg {
            Some(b) => b,
            None => match configured {
                Some(b) => b,
                None => DEFAULT_BAUD,
            },
        },
{
    match baud_arg {
        Some(b) => b,
        None => match configured {
            Some(b) => b,
            None => DEFAULT_BAUD,
        },
    }
}

/// The lines written to standard error when no serial port is given.
pub fn no_port_message() -> (lines: Vec<String>)
    ensures
        lines_of(lines@) == seq![
            "Error: no serial port specified."@,
            "Pass --port <PORT> or set [flash] port in rvkit.toml."@,
        ],
{
    let mut lines: Vec<String> = Vec::new();
    push_str_line(&mut lines, "Error: no serial port specified.");
    push_str_line(&mut lines, "Pass --port <PORT> or set [flash] port in rvkit.toml.");
    assert(lines_of(lines@) =~= seq![
        "Error: no serial port specified."@,
        "Pass --port <PORT> or set [flash] port in rvkit.toml."@,
    ]);
    lines
}

/// The line written before the port is opened.
pub fn connecting_banner(port: &str, baud: u32) -> (line: String)
    ensures
        line@ == "Connecting to "@ + port@ + " at "@ + decimal_digits(baud as nat)
            + " baud... (Ctrl+C to quit)"@,
{
    let baud_text = decimal_string(baud);
    join3("Connecting to ", port, " at ").concat(baud_text.as_str()).concat(
        " baud... (Ctrl+C to quit)",
    )
}

/// The line written to standard error when the port cannot be opened.
pub fn open_error_message(port: &str, detail: &str) -> (line: String)
    ensures
        line@ == "Error: could not open "@ + port@ + ": "@ + detail@,
{
    join3("Error: could not open ", port, ": ").concat(detail)
}

/// The lines about the serial ports present, given their names, or `None`
/// when they could not be listed.
pub open spec fn ports_report_spec(ports: Option<Vec<String>>) -> Seq<Seq<char>> {
    match ports {
        Some(names) => if names@.len() > 0 {
            seq!["Available ports:"@] + lines_of(names@).map_values(|n: Seq<char>| "  "@ + n)
        } else {
            seq!["No serial ports detected."@]
        },
        None => seq!["No serial ports detected."@],
    }
}

/// The lines written to standard error about the serial ports present,
/// given their names, or `None` when they could not be listed.
pub fn ports_report(ports: Option<Vec<String>>) -> (lines: Vec<String>)
    ensures
        lines_of(lines@) == ports_report_spec(ports),
        match ports {
            Some(names) => names@.len() > 0 ==> {
                &&& lines@.len() == names@.len() + 1
                &&& lines@[0]@ == "Available ports:"@
                &&& forall|i: int| 0 <= i < names@.len() ==> #[trigger] lines@[i + 1]@ == "  "@ + names@[i]@
            },
            None => true,
        },
        (ports is None || ports->0@.len() == 0) ==> lines_of(lines@) == seq!["No serial ports detected."@],
{
    let mut lines: Vec<String> = Vec::new();
    match ports {
        Some(names) => if names.len() > 0 {
            push_str_line(&mut lines, "Available ports:");
            let mut i: usize = 0;
            while i < names.len()
                invariant
                    i <= names@.len(),
                    lines_of(lines@) == seq!["Available ports:"@] + lines_of(names@.take(i as int)).map_values(
                        |n: Seq<char>| "  "@ + n,
                    ),
                decreases names@.len() - i,
            {
                push_line(&mut lines, join2("  ", names[i].as_str()));
                assert(lines_of(names@.take(i + 1)).map_values(|n: Seq<char>| "  "@ + n)
                    =~= lines_of(names@.take(i as int)).map_values(|n: Seq<char>| "  "@ + n).push(
                    "  "@ + names@[i as int]@,
                ));
                i += 1;
            }
            assert(names@.take(i as int) =~= names@);
            assert(lines_of(lines@)[0] == lines@[0]@);
            assert forall|j: int| 0 <= j < names@.len() implies #[trigger] lines@[j + 1]@ == "  "@
                + names@[j]@ by {
                assert(lines_of(lines@)[j + 1] == lines@[j + 1]@);
                assert(lines_of(names@)[j] == names@[j]@);
            }
        } else {
            push_str_line(&mut lines, "No serial ports detected.");
            assert(lines_of(lines@) =~= seq!["No serial ports detected."@]);
        },
        None => {
            push_str_line(&mut lines, "No serial ports detected.");
            assert(lines_of(lines@) =~= seq!["No serial ports detected."@]);
        },
    }
    lines
}

/// The lines written to standard error when no serial port is given: the
/// error, then the serial ports present (see [`ports_report`]). The monitor
/// then exits with status 1.
pub fn no_port_report(ports: Option<Vec<String>>) -> (lines: Vec<String>)
    ensures
        lines_of(lines@) == seq![
            "Error: no serial port specified."@,
            "Pass --port <PORT> or set [flash] port in rvkit.toml."@,
        ] + ports_report_spec(ports),
{
    let mut lines = no_port_message();
    let mut listing = ports_report(ports);
    let ghost head = lines@;
    let ghost tail = listing@;
    lines.append(&mut listing);
    assert(lines@ =~= head + tail);
    assert(lines_of(lines@) =~= lines_of(head) + lines_of(tail));
    lines
}

/// The lines written to standard error when the port cannot be opened: the
/// error, then the serial ports present. The monitor then exits with status 1.
pub fn open_error_report(port: &str, detail: &str, ports: Option<Vec<String>>) -> (lines: Vec<
    String,
>)
    ensures
        lines_of(lines@) == seq!["Error: could not open "@ + port@ + ": "@ + detail@]
            + ports_report_spec(ports),
{
    let mut lines: Vec<String> = Vec::new();
    push_line(&mut lines, open_error_message(port, detail));
    let mut listing = ports_report(ports);
    let ghost head = lines@;
    let ghost tail = listing@;
    lines.append(&mut listing);
    assert(lines@ =~= head + tail);
    assert(lines_of(lines@) =~= lines_of(head) + lines_of(tail));
    lines
}

/// Every port given is listed, once and in order: for `n > 0` names the
/// report has `n + 1` lines, "Available ports:" and then "  " followed by
/// each name; with no names, or none to be had, it is the single line
/// "No serial ports detected.".
pub proof fn lemma_ports_report_lists_every_port(ports: Option<Vec<String>>)
    ensures
        match ports {
            Some(names) => if names@.len() > 0 {
                &&& ports_report_spec(ports).len() == names@.len() + 1
                &&& ports_report_spec(ports)[0] == "Available ports:"@
                &&& forall|i: int|
                    0 <= i < names@.len() ==> #[trigger] ports_report_spec(ports)[i + 1] == "  "@
                        + names@[i]@
            } else {
                ports_report_spec(ports) == seq!["No serial ports detected."@]
            },
            None => ports_report_spec(ports) == seq!["No serial ports detected."@],
        },
{
}

/// How a read from the serial port ended.
pub enum ReadEvent {
    /// `len` bytes arrived (possibly none).
    Data { len: usize },
    /// Nothing arrived before the read timed out.
    TimedOut,
    /// The read was interrupted by a signal.
    Interrupted,
    /// The read failed; `detail` says why.
    Failed { detail: String },
}

/// What the monitor does after a read.
pub enum ReadAction {
    /// Read again.
    Wait,
    /// Copy the first `len` bytes read to standard output, then read again.
    Write { len: usize },
    /// Write `message` to standard error and exit with status 1.
    Stop { message: String },
}

/// The monitor's step: bytes read are copied out, empty reads, time-outs
/// and interruptions are waited through, and any other failure stops it.
pub fn on_read(event: ReadEvent) -> (action: ReadAction)
    ensures
        match event {
            ReadEvent::Data { len } => if len == 0 {
                action is Wait
            } else {
                action == (ReadAction::Write { len })
            },
            ReadEvent::TimedOut => action is Wait,
            ReadEvent::Interrupted => action is Wait,
            ReadEvent::Failed { detail } => match action {
                ReadAction::Stop { message } => message@ == "\nRead error: "@ + detail@,
                _ => false,
            },
        },
{
    match event {
        ReadEvent::Data { len } => if len == 0 {
            ReadAction::Wait
        } else {
            ReadAction::Write { len }
        },
        ReadEvent::TimedOut => ReadAction::Wait,
        ReadEvent::Interrupted => ReadAction::Wait,
        ReadEvent::Failed { detail } => ReadAction::Stop {
            message: join2("\nRead error: ", detail.as_str()),
        },
    }
}

} // verus!
