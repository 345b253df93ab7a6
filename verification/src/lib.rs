//! Verified core of the rvkit command-line tool: the supported boards, the
//! decisions each command takes and the exact text it reports.

pub mod boards;
pub mod version;
pub mod text;
pub mod tools;
pub mod doctor;
pub mod flash;
pub mod zig_build;
pub mod config;
pub mod monitor;
