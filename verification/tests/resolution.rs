//! Lexical resolution of command and subcommand tokens.

use fleetcmd::command::{Campaign, Command, Device, Group, Package, Update};
use fleetcmd::error::CommandError;

#[test]
fn command_literals_resolve() {
    assert_eq!(Command::from_str("init"), Ok(Command::Init));
    assert_eq!(Command::from_str("campaign"), Ok(Command::Campaign));
    assert_eq!(Command::from_str("device"), Ok(Command::Device));
    assert_eq!(Command::from_str("group"), Ok(Command::Group));
    assert_eq!(Command::from_str("package"), Ok(Command::Package));
    assert_eq!(Command::from_str("update"), Ok(Command::Update));
}

#[test]
fn command_resolution_is_case_insensitive() {
    assert_eq!(Command::from_str("INIT"), Ok(Command::Init));
    assert_eq!(Command::from_str("Campaign"), Ok(Command::Campaign));
    assert_eq!(Command::from_str("dEvIcE"), Ok(Command::Device));
    assert_eq!(Command::from_str("GROUP"), Ok(Command::Group));
    assert_eq!(Command::from_str("PackAge"), Ok(Command::Package));
    assert_eq!(Command::from_str("UpDate"), Ok(Command::Update));
}

#[test]
fn unknown_command_is_rejected_with_its_token() {
    assert_eq!(
        Command::from_str("frobnicate"),
        Err(CommandError::UnknownCommand("frobnicate".to_string()))
    );
    assert_eq!(
        Command::from_str(""),
        Err(CommandError::UnknownCommand("".to_string()))
    );
    // No prefix or fuzzy matching.
    assert_eq!(
        Command::from_str("ini"),
        Err(CommandError::UnknownCommand("ini".to_string()))
    );
    assert_eq!(
        Command::from_str("campaigns"),
        Err(CommandError::UnknownCommand("campaigns".to_string()))
    );
}

#[test]
fn resolution_is_repeatable() {
    // Resolving the same token twice always yields the same value.
    assert_eq!(Command::from_str("Update"), Command::from_str("Update"));
    assert_eq!(Campaign::from_str("LAUNCH"), Campaign::from_str("LAUNCH"));
    assert_eq!(
        Command::from_str("frobnicate"),
        Command::from_str("frobnicate")
    );
}

#[test]
fn campaign_subcommands_resolve() {
    assert_eq!(Campaign::from_str("list"), Ok(Campaign::List));
    assert_eq!(Campaign::from_str("create"), Ok(Campaign::Create));
    assert_eq!(Campaign::from_str("Launch"), Ok(Campaign::Launch));
    assert_eq!(Campaign::from_str("CANCEL"), Ok(Campaign::Cancel));
    assert_eq!(
        Campaign::from_str("pause"),
        Err(CommandError::UnknownSubcommand(
            Command::Campaign,
            "pause".to_string()
        ))
    );
}

#[test]
fn device_subcommands_resolve() {
    assert_eq!(Device::from_str("list"), Ok(Device::List));
    assert_eq!(Device::from_str("CREATE"), Ok(Device::Create));
    assert_eq!(Device::from_str("delete"), Ok(Device::Delete));
    assert_eq!(
        Device::from_str("rename"),
        Err(CommandError::UnknownSubcommand(
            Command::Device,
            "rename".to_string()
        ))
    );
}

#[test]
fn group_subcommands_resolve() {
    assert_eq!(Group::from_str("list"), Ok(Group::List));
    assert_eq!(Group::from_str("create"), Ok(Group::Create));
    assert_eq!(Group::from_str("add"), Ok(Group::Add));
    assert_eq!(Group::from_str("Rename"), Ok(Group::Rename));
    assert_eq!(Group::from_str("remove"), Ok(Group::Remove));
    assert_eq!(
        Group::from_str("delete"),
        Err(CommandError::UnknownSubcommand(
            Command::Group,
            "delete".to_string()
        ))
    );
}

#[test]
fn package_subcommands_resolve() {
    assert_eq!(Package::from_str("list"), Ok(Package::List));
    assert_eq!(Package::from_str("add"), Ok(Package::Add));
    assert_eq!(Package::from_str("FETCH"), Ok(Package::Fetch));
    assert_eq!(
        Package::from_str("push"),
        Err(CommandError::UnknownSubcommand(
            Command::Package,
            "push".to_string()
        ))
    );
}

#[test]
fn update_subcommands_resolve() {
    assert_eq!(Update::from_str("create"), Ok(Update::Create));
    assert_eq!(Update::from_str("launch"), Ok(Update::Launch));
    assert_eq!(
        Update::from_str("cancel"),
        Err(CommandError::UnknownSubcommand(
            Command::Update,
            "cancel".to_string()
        ))
    );
}
