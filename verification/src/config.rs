//! The project file, rvkit.toml, as the commands read it.

use vstd::prelude::*;
use vstd::string::*;
use crate::text::join2;

verus! {

/// The name of the project file, looked up in the current directory.
pub const CONFIG_FILE: &'static str = "rvkit.toml";

/// The contents of rvkit.toml.
pub struct Config {
    pub project: Project,
    /// The `[flash]` table; all of its keys are unset when it is absent.
    pub flash: Flash,
}

/// The `[project]` table.
pub struct Project {
    pub name: String,
    pub board: String,
}

/// The `[flash]` table.
pub struct Flash {
    pub port: Option<String>,
    pub baud_rate: Option<u32>,
}

impl Default for Flash {
    fn default() -> (flash: Flash)
        ensures
            flash.port is None,
            flash.baud_rate is None,
    {
        Flash { port: None, baud_rate: None }
    }
}

/// The `[flash]` settings of an optional project file: those of the file
/// when there is one, none otherwise.
pub fn flash_settings(config: Option<Config>) -> (flash: Flash)
    ensures
        match config {
            Some(c) => flash == c.flash,
            None => flash.port is None && flash.baud_rate is None,
        },
{
    match config {
        Some(c) => c.flash,
        None => Flash::default(),
    }
}

/// Why the project file could not be used.
pub enum ConfigError {
    /// There is no rvkit.toml in the current directory.
    NotFound,
    /// rvkit.toml is there but does not parse; `detail` is the parser's message.
    Invalid { detail: String },
}

impl ConfigError {
    /// The line written to standard error before exiting with status 1.
    pub fn message(&self) -> (line: String)
        ensures
            line@ == match self {
                ConfigError::NotFound => "Error: rvkit.toml not found. Are you inside an rvkit project?"@,
                ConfigError::Invalid { detail } => "Error: rvkit.toml is invalid: "@ + detail@,
            },
    {
        match self {
            ConfigError::NotFound => String::from_str(
                "Error: rvkit.toml not found. Are you inside an rvkit project?",
            ),
            ConfigError::Invalid { detail } => join2("Error: rvkit.toml is invalid: ", detail.as_str()),
        }
    }
}

} // verus!
