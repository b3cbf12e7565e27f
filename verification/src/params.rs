//! The named parameters supplied alongside a subcommand.
//!
//! A `ParameterSet` holds the recognized flags of one invocation, each
//! either supplied or absent. Which of them a subcommand requires is the
//! routing layer's business; this module only models the mapping and the
//! small value types extraction produces from it.

use vstd::prelude::*;

use crate::error::{CommandError, ErrorV, ParamName};
use crate::ident::ParseFailure;
use crate::token::{lower, token_matches};

verus! {

/// The recognized named parameters of one invocation. An absent flag is
/// `None`; presence alone says nothing about validity.
#[derive(PartialEq, Clone, Debug)]
pub struct ParameterSet {
    pub name: Option<String>,
    pub id: Option<String>,
    pub device: Option<String>,
    pub group: Option<String>,
    pub campaign: Option<String>,
    pub update: Option<String>,
    pub targets: Option<String>,
    pub version: Option<String>,
    pub device_type: Option<String>,
}

/// The mathematical form of a `ParameterSet`: each supplied value as a
/// character sequence.
pub struct ParamsV {
    pub name: Option<Seq<char>>,
    pub id: Option<Seq<char>>,
    pub device: Option<Seq<char>>,
    pub group: Option<Seq<char>>,
    pub campaign: Option<Seq<char>>,
    pub update: Option<Seq<char>>,
    pub targets: Option<Seq<char>>,
    pub version: Option<Seq<char>>,
    pub device_type: Option<Seq<char>>,
}

/// The view of one optional parameter value.
pub open spec fn view_opt(o: Option<String>) -> Option<Seq<char>> {
    match o {
        Some(s) => Some(s@),
        None => None,
    }
}

impl View for ParameterSet {
    type V = ParamsV;

    open spec fn view(&self) -> ParamsV {
        ParamsV {
            name: view_opt(self.name),
            id: view_opt(self.id),
            device: view_opt(self.device),
            group: view_opt(self.group),
            campaign: view_opt(self.campaign),
            update: view_opt(self.update),
            targets: view_opt(self.targets),
            version: view_opt(self.version),
            device_type: view_opt(self.device_type),
        }
    }
}

impl ParameterSet {
    /// A parameter set with every flag absent.
    pub fn empty() -> (r: ParameterSet)
        ensures
            r@ == (ParamsV {
                name: None,
                id: None,
                device: None,
                group: None,
                campaign: None,
                update: None,
                targets: None,
                version: None,
                device_type: None,
            }),
    {
        ParameterSet {
            name: None,
            id: None,
            device: None,
            group: None,
            campaign: None,
            update: None,
            targets: None,
            version: None,
            device_type: None,
        }
    }
}

/// The kinds of device the registry can create.
#[derive(PartialEq, Eq, Structural, Clone, Copy, Debug)]
pub enum DeviceKind {
    Qemu,
    Vehicle,
}

/// Which device kind a `--type` token names, case-insensitively.
pub open spec fn kind_token(s: Seq<char>) -> Option<DeviceKind> {
    if lower(s) == "qemu"@ {
        Some(DeviceKind::Qemu)
    } else if lower(s) == "vehicle"@ {
        Some(DeviceKind::Vehicle)
    } else {
        None
    }
}

impl DeviceKind {
    /// Resolve a `--type` token to a device kind; a token that names no
    /// kind is rejected with its exact cause.
    pub fn from_str(s: &str) -> (r: Result<DeviceKind, CommandError>)
        ensures
            match kind_token(s@) {
                Some(k) => r == Ok::<DeviceKind, CommandError>(k),
                None => r matches Err(e) && e@ == ErrorV::InvalidIdentifier(
                    ParamName::Type,
                    s@,
                    ParseFailure::UnknownKind,
                ),
            },
    {
        if token_matches(s, "qemu") {
            Ok(DeviceKind::Qemu)
        } else if token_matches(s, "vehicle") {
            Ok(DeviceKind::Vehicle)
        } else {
            Err(
                CommandError::InvalidIdentifier(
                    ParamName::Type,
                    String::from_str(s),
                    ParseFailure::UnknownKind,
                ),
            )
        }
    }
}

/// A package descriptor: what `package add` hands to the repository server.
#[derive(PartialEq, Debug)]
pub struct PackageDescriptor {
    pub name: String,
    pub version: String,
}

/// The mathematical form of a `PackageDescriptor`.
pub struct PackageV {
    pub name: Seq<char>,
    pub version: Seq<char>,
}

impl View for PackageDescriptor {
    type V = PackageV;

    open spec fn view(&self) -> PackageV {
        PackageV { name: self.name@, version: self.version@ }
    }
}

} // verus!
