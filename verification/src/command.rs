//! The two-level command taxonomy and its lexical resolution.
//!
//! Each level is a closed enumeration, and each command owns its own
//! subcommand enumeration, so an invalid pairing cannot be written down.
//! Resolution lower-cases the token and matches it against the level's
//! fixed literal set: exact matching only, no prefixes, no defaults.

use vstd::prelude::*;

use crate::error::{CommandError, ErrorV};
use crate::token::{lower, token_matches};

verus! {

/// The top-level commands, one per backend domain.
#[derive(PartialEq, Eq, Structural, Clone, Copy, Debug)]
pub enum Command {
    Init,
    Campaign,
    Device,
    Group,
    Package,
    Update,
}

/// The campaign subcommands.
#[derive(PartialEq, Eq, Structural, Clone, Copy, Debug)]
pub enum Campaign {
    List,
    Create,
    Launch,
    Cancel,
}

/// The device subcommands.
#[derive(PartialEq, Eq, Structural, Clone, Copy, Debug)]
pub enum Device {
    List,
    Create,
    Delete,
}

/// The group subcommands.
#[derive(PartialEq, Eq, Structural, Clone, Copy, Debug)]
pub enum Group {
    List,
    Create,
    Add,
    Rename,
    Remove,
}

/// The package subcommands.
#[derive(PartialEq, Eq, Structural, Clone, Copy, Debug)]
pub enum Package {
    List,
    Add,
    Fetch,
}

/// The update subcommands.
#[derive(PartialEq, Eq, Structural, Clone, Copy, Debug)]
pub enum Update {
    Create,
    Launch,
}

/// Which top-level command a token names, case-insensitively; `None` when
/// the token is outside the literal set.
pub open spec fn command_token(s: Seq<char>) -> Option<Command> {
    if lower(s) == "init"@ {
        Some(Command::Init)
    } else if lower(s) == "campaign"@ {
        Some(Command::Campaign)
    } else if lower(s) == "device"@ {
        Some(Command::Device)
    } else if lower(s) == "group"@ {
        Some(Command::Group)
    } else if lower(s) == "package"@ {
        Some(Command::Package)
    } else if lower(s) == "update"@ {
        Some(Command::Update)
    } else {
        None
    }
}

/// Which campaign subcommand a token names.
pub open spec fn campaign_token(s: Seq<char>) -> Option<Campaign> {
    if lower(s) == "list"@ {
        Some(Campaign::List)
    } else if lower(s) == "create"@ {
        Some(Campaign::Create)
    } else if lower(s) == "launch"@ {
        Some(Campaign::Launch)
    } else if lower(s) == "cancel"@ {
        Some(Campaign::Cancel)
    } else {
        None
    }
}

/// Which device subcommand a token names.
pub open spec fn device_token(s: Seq<char>) -> Option<Device> {
    if lower(s) == "list"@ {
        Some(Device::List)
    } else if lower(s) == "create"@ {
        Some(Device::Create)
    } else if lower(s) == "delete"@ {
        Some(Device::Delete)
    } else {
        None
    }
}

/// Which group subcommand a token names.
pub open spec fn group_token(s: Seq<char>) -> Option<Group> {
    if lower(s) == "list"@ {
        Some(Group::List)
    } else if lower(s) == "create"@ {
        Some(Group::Create)
    } else if lower(s) == "add"@ {
        Some(Group::Add)
    } else if lower(s) == "rename"@ {
        Some(Group::Rename)
    } else if lower(s) == "remove"@ {
        Some(Group::Remove)
    } else {
        None
    }
}

/// Which package subcommand a token names.
pub open spec fn package_token(s: Seq<char>) -> Option<Package> {
    if lower(s) == "list"@ {
        Some(Package::List)
    } else if lower(s) == "add"@ {
        Some(Package::Add)
    } else if lower(s) == "fetch"@ {
        Some(Package::Fetch)
    } else {
        None
    }
}

/// Which update subcommand a token names.
pub open spec fn update_token(s: Seq<char>) -> Option<Update> {
    if lower(s) == "create"@ {
        Some(Update::Create)
    } else if lower(s) == "launch"@ {
        Some(Update::Launch)
    } else {
        None
    }
}

impl Command {
    /// Resolve a top-level token. Every token in the literal set, in any
    /// case mix, yields its command; every other token is rejected as an
    /// unknown command carrying the token itself.
    pub fn from_str(s: &str) -> (r: Result<Command, CommandError>)
        ensures
            match command_token(s@) {
                Some(c) => r == Ok::<Command, CommandError>(c),
                None => r matches Err(e) && e@ == ErrorV::UnknownCommand(s@),
            },
    {
        if token_matches(s, "init") {
            Ok(Command::Init)
        } else if token_matches(s, "campaign") {
            Ok(Command::Campaign)
        } else if token_matches(s, "device") {
            Ok(Command::Device)
        } else if token_matches(s, "group") {
            Ok(Command::Group)
        } else if token_matches(s, "package") {
            Ok(Command::Package)
        } else if token_matches(s, "update") {
            Ok(Command::Update)
        } else {
            Err(CommandError::UnknownCommand(String::from_str(s)))
        }
    }
}

impl Campaign {
    /// Resolve a campaign subcommand token.
    pub fn from_str(s: &str) -> (r: Result<Campaign, CommandError>)
        ensures
            match campaign_token(s@) {
                Some(c) => r == Ok::<Campaign, CommandError>(c),
                None => r matches Err(e) && e@ == ErrorV::UnknownSubcommand(
                    Command::Campaign,
                    s@,
                ),
            },
    {
        if token_matches(s, "list") {
            Ok(Campaign::List)
        } else if token_matches(s, "create") {
            Ok(Campaign::Create)
        } else if token_matches(s, "launch") {
            Ok(Campaign::Launch)
        } else if token_matches(s, "cancel") {
            Ok(Campaign::Cancel)
        } else {
            Err(CommandError::UnknownSubcommand(Command::Campaign, String::from_str(s)))
        }
    }
}

impl Device {
    /// Resolve a device subcommand token.
    pub fn from_str(s: &str) -> (r: Result<Device, CommandError>)
        ensures
            match device_token(s@) {
                Some(c) => r == Ok::<Device, CommandError>(c),
                None => r matches Err(e) && e@ == ErrorV::UnknownSubcommand(Command::Device, s@),
            },
    {
        if token_matches(s, "list") {
            Ok(Device::List)
        } else if token_matches(s, "create") {
            Ok(Device::Create)
        } else if token_matches(s, "delete") {
            Ok(Device::Delete)
        } else {
            Err(CommandError::UnknownSubcommand(Command::Device, String::from_str(s)))
        }
    }
}

impl Group {
    /// Resolve a group subcommand token.
    pub fn from_str(s: &str) -> (r: Result<Group, CommandError>)
        ensures
            match group_token(s@) {
                Some(c) => r == Ok::<Group, CommandError>(c),
                None => r matches Err(e) && e@ == ErrorV::UnknownSubcommand(Command::Group, s@),
            },
    {
        if token_matches(s, "list") {
            Ok(Group::List)
        } else if token_matches(s, "create") {
            Ok(Group::Create)
        } else if token_matches(s, "add") {
            Ok(Group::Add)
        } else if token_matches(s, "rename") {
            Ok(Group::Rename)
        } else if token_matches(s, "remove") {
            Ok(Group::Remove)
        } else {
            Err(CommandError::UnknownSubcommand(Command::Group, String::from_str(s)))
        }
    }
}

impl Package {
    /// Resolve a package subcommand token.
    pub fn from_str(s: &str) -> (r: Result<Package, CommandError>)
        ensures
            match package_token(s@) {
                Some(c) => r == Ok::<Package, CommandError>(c),
                None => r matches Err(e) && e@ == ErrorV::UnknownSubcommand(Command::Package, s@),
            },
    {
        if token_matches(s, "list") {
            Ok(Package::List)
        } else if token_matches(s, "add") {
            Ok(Package::Add)
        } else if token_matches(s, "fetch") {
            Ok(Package::Fetch)
        } else {
            Err(CommandError::UnknownSubcommand(Command::Package, String::from_str(s)))
        }
    }
}

impl Update {
    /// Resolve an update subcommand token.
    pub fn from_str(s: &str) -> (r: Result<Update, CommandError>)
        ensures
            match update_token(s@) {
                Some(c) => r == Ok::<Update, CommandError>(c),
                None => r matches Err(e) && e@ == ErrorV::UnknownSubcommand(Command::Update, s@),
            },
    {
        if token_matches(s, "create") {
            Ok(Update::Create)
        } else if token_matches(s, "launch") {
            Ok(Update::Launch)
        } else {
            Err(CommandError::UnknownSubcommand(Command::Update, String::from_str(s)))
        }
    }
}

/// Resolution is case-insensitive: two tokens with the same lower-cased
/// form resolve alike at every level.
pub proof fn lemma_resolution_case_insensitive(s: Seq<char>, t: Seq<char>)
    requires
        lower(s) == lower(t),
    ensures
        command_token(s) == command_token(t),
        campaign_token(s) == campaign_token(t),
        device_token(s) == device_token(t),
        group_token(s) == group_token(t),
        package_token(s) == package_token(t),
        update_token(s) == update_token(t),
{
}

/// Resolution is a pure function of the token: the same token, resolved
/// twice at the same level, yields the same outcome.
pub proof fn lemma_resolution_deterministic(s: Seq<char>, t: Seq<char>)
    requires
        s == t,
    ensures
        command_token(s) == command_token(t),
        campaign_token(s) == campaign_token(t),
        device_token(s) == device_token(t),
        group_token(s) == group_token(t),
        package_token(s) == package_token(t),
        update_token(s) == update_token(t),
{
}

} // verus!
