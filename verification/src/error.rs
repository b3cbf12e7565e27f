//! Failures of resolution, extraction and routing.
//!
//! Every failure is reported before any backend work is attempted, except
//! `BackendFailure`, which belongs to the caller that performs the routed
//! operation and never arises inside this crate.

use vstd::prelude::*;

use crate::command::Command;
use crate::ident::ParseFailure;

verus! {

/// The named parameters a subcommand may require.
#[derive(PartialEq, Eq, Structural, Clone, Copy, Debug)]
pub enum ParamName {
    Name,
    Id,
    Device,
    Group,
    Campaign,
    Update,
    Targets,
    Version,
    Type,
}

/// A failure of resolution or extraction, raised before any backend call.
#[derive(PartialEq, Debug)]
pub enum CommandError {
    /// The top-level token names no command.
    UnknownCommand(String),
    /// The second-level token names no subcommand of the resolved command.
    UnknownSubcommand(Command, String),
    /// A parameter the subcommand requires was not supplied.
    MissingParameter(ParamName),
    /// A supplied parameter could not be parsed, with the raw token and
    /// the cause.
    InvalidIdentifier(ParamName, String, ParseFailure),
    /// The resolved pair has no supported backend operation.
    NotImplemented,
}

/// The mathematical form of a `CommandError`: tokens as character sequences.
pub enum ErrorV {
    UnknownCommand(Seq<char>),
    UnknownSubcommand(Command, Seq<char>),
    MissingParameter(ParamName),
    InvalidIdentifier(ParamName, Seq<char>, ParseFailure),
    NotImplemented,
}

impl View for CommandError {
    type V = ErrorV;

    open spec fn view(&self) -> ErrorV {
        match self {
            CommandError::UnknownCommand(t) => ErrorV::UnknownCommand(t@),
            CommandError::UnknownSubcommand(c, t) => ErrorV::UnknownSubcommand(*c, t@),
            CommandError::MissingParameter(n) => ErrorV::MissingParameter(*n),
            CommandError::InvalidIdentifier(n, raw, cause) => ErrorV::InvalidIdentifier(
                *n,
                raw@,
                *cause,
            ),
            CommandError::NotImplemented => ErrorV::NotImplemented,
        }
    }
}

} // verus!
