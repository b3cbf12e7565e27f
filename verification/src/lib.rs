//! Command-routing core of a fleet-update CLI.
//!
//! The crate turns textual command and subcommand tokens into typed values,
//! validates the named parameters each subcommand requires, and routes the
//! validated invocation to exactly one backend operation. Resolution is
//! case-insensitive over a fixed literal set; extraction fails fast on a
//! missing or malformed parameter, before any backend work is attempted.

pub mod command;
pub mod error;
pub mod ident;
pub mod params;
pub mod route;
pub mod token;
