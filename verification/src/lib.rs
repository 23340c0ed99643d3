//! Restore rehearsal for SQLite backups: the configuration rules, the drill
//! sequencing and its verdicts, report rendering and report history selection.
//! File, database and terminal work is done by the caller, which hands the
//! results of that work to the functions here.

pub mod cli;
pub mod config;
pub mod duration;
pub mod order;
pub mod query;
pub mod report;
pub mod restore;
pub mod runner;
pub mod text;
