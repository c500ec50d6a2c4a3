//! Core of a small diagnostic command-line tool: it resolves the fields of a
//! mock error report (applying defaults and drawing a random position where
//! none was given), formats the report's five lines, and lays out the plan of
//! a fixed 101-step progress animation together with its exit status.

pub mod command;
pub mod diag;
pub mod text;
pub mod update;
