//! Extraction and dispatch: every routing-table row, and every failure
//! that must come before any backend operation.

use fleetcmd::command::{Campaign, Command, Package};
use fleetcmd::error::{CommandError, ParamName};
use fleetcmd::ident::{CampaignId, DeviceId, GroupId, ParseFailure, UpdateId};
use fleetcmd::params::{DeviceKind, PackageDescriptor, ParameterSet};
use fleetcmd::route::{route, BackendOp};

fn no_params() -> ParameterSet {
    ParameterSet::empty()
}

#[test]
fn init_routes_to_config_bootstrap() {
    let p = no_params();
    assert_eq!(
        route("init", "", p.clone()),
        Ok(BackendOp::InitConfig { flags: p })
    );
}

#[test]
fn campaign_list_and_create_pass_flags_through() {
    let mut p = no_params();
    p.name = Some("spring-rollout".to_string());
    assert_eq!(
        route("campaign", "list", p.clone()),
        Ok(BackendOp::ListCampaigns { flags: p.clone() })
    );
    assert_eq!(
        route("campaign", "create", p.clone()),
        Ok(BackendOp::CreateCampaign { flags: p })
    );
}

#[test]
fn campaign_launch_parses_campaign_id() {
    let mut p = no_params();
    p.campaign = Some("42".to_string());
    assert_eq!(
        route("campaign", "launch", p),
        Ok(BackendOp::LaunchCampaign {
            campaign: CampaignId(42)
        })
    );
}

#[test]
fn campaign_cancel_parses_campaign_id() {
    let mut p = no_params();
    p.campaign = Some("7".to_string());
    assert_eq!(
        route("campaign", "cancel", p),
        Ok(BackendOp::CancelCampaign {
            campaign: CampaignId(7)
        })
    );
}

#[test]
fn campaign_launch_without_campaign_fails_first() {
    assert_eq!(
        route("campaign", "launch", no_params()),
        Err(CommandError::MissingParameter(ParamName::Campaign))
    );
}

#[test]
fn campaign_launch_with_malformed_id_names_cause() {
    let mut p = no_params();
    p.campaign = Some("4x2".to_string());
    assert_eq!(
        route("campaign", "launch", p),
        Err(CommandError::InvalidIdentifier(
            ParamName::Campaign,
            "4x2".to_string(),
            ParseFailure::NonDigit
        ))
    );
}

#[test]
fn empty_and_overflowing_ids_name_their_causes() {
    let mut p = no_params();
    p.campaign = Some("".to_string());
    assert_eq!(
        route("campaign", "launch", p),
        Err(CommandError::InvalidIdentifier(
            ParamName::Campaign,
            "".to_string(),
            ParseFailure::Empty
        ))
    );
    let mut p = no_params();
    p.campaign = Some("18446744073709551616".to_string());
    assert_eq!(
        route("campaign", "cancel", p),
        Err(CommandError::InvalidIdentifier(
            ParamName::Campaign,
            "18446744073709551616".to_string(),
            ParseFailure::Overflow
        ))
    );
}

#[test]
fn device_list_passes_flags_through() {
    let p = no_params();
    assert_eq!(
        route("device", "list", p.clone()),
        Ok(BackendOp::ListDevices { flags: p })
    );
}

#[test]
fn device_create_extracts_name_id_and_kind() {
    let mut p = no_params();
    p.name = Some("edge-1".to_string());
    p.id = Some("dev-001".to_string());
    p.device_type = Some("qemu".to_string());
    assert_eq!(
        route("device", "create", p),
        Ok(BackendOp::CreateDevice {
            name: "edge-1".to_string(),
            id: "dev-001".to_string(),
            kind: DeviceKind::Qemu
        })
    );
}

#[test]
fn device_create_missing_parameters_fail_in_order() {
    let mut p = no_params();
    assert_eq!(
        route("device", "create", p.clone()),
        Err(CommandError::MissingParameter(ParamName::Name))
    );
    p.name = Some("edge-1".to_string());
    assert_eq!(
        route("device", "create", p.clone()),
        Err(CommandError::MissingParameter(ParamName::Id))
    );
    p.id = Some("dev-001".to_string());
    assert_eq!(
        route("device", "create", p.clone()),
        Err(CommandError::MissingParameter(ParamName::Type))
    );
    p.device_type = Some("toaster".to_string());
    assert_eq!(
        route("device", "create", p),
        Err(CommandError::InvalidIdentifier(
            ParamName::Type,
            "toaster".to_string(),
            ParseFailure::UnknownKind
        ))
    );
}

#[test]
fn device_delete_parses_device_id() {
    let mut p = no_params();
    p.device = Some("9".to_string());
    assert_eq!(
        route("device", "delete", p),
        Ok(BackendOp::DeleteDevice {
            device: DeviceId(9)
        })
    );
}

#[test]
fn group_list_passes_flags_through() {
    let p = no_params();
    assert_eq!(
        route("group", "list", p.clone()),
        Ok(BackendOp::ListGroups { flags: p })
    );
}

#[test]
fn group_create_extracts_name() {
    let mut p = no_params();
    p.name = Some("canary".to_string());
    assert_eq!(
        route("group", "create", p),
        Ok(BackendOp::CreateGroup {
            name: "canary".to_string()
        })
    );
}

#[test]
fn group_add_and_remove_extract_group_then_device() {
    let mut p = no_params();
    p.group = Some("7".to_string());
    p.device = Some("9".to_string());
    assert_eq!(
        route("group", "add", p.clone()),
        Ok(BackendOp::AddToGroup {
            group: GroupId(7),
            device: DeviceId(9)
        })
    );
    assert_eq!(
        route("group", "remove", p),
        Ok(BackendOp::RemoveFromGroup {
            group: GroupId(7),
            device: DeviceId(9)
        })
    );
}

#[test]
fn group_rename_extracts_group_then_name() {
    let mut p = no_params();
    p.group = Some("7".to_string());
    p.name = Some("stable".to_string());
    assert_eq!(
        route("group", "rename", p),
        Ok(BackendOp::RenameGroup {
            group: GroupId(7),
            name: "stable".to_string()
        })
    );
}

#[test]
fn group_rename_without_name_fails_before_dispatch() {
    let mut p = no_params();
    p.group = Some("7".to_string());
    assert_eq!(
        route("group", "rename", p),
        Err(CommandError::MissingParameter(ParamName::Name))
    );
}

#[test]
fn package_list_is_not_implemented() {
    // Even with every parameter supplied, no backend operation exists.
    let mut p = no_params();
    p.name = Some("treehub".to_string());
    p.version = Some("1.2.3".to_string());
    assert_eq!(
        route("package", "list", p),
        Err(CommandError::NotImplemented)
    );
    assert_eq!(
        route("package", "list", no_params()),
        Err(CommandError::NotImplemented)
    );
}

#[test]
fn package_add_builds_descriptor() {
    let mut p = no_params();
    p.name = Some("treehub".to_string());
    p.version = Some("1.2.3".to_string());
    assert_eq!(
        route("package", "add", p),
        Ok(BackendOp::AddPackage {
            package: PackageDescriptor {
                name: "treehub".to_string(),
                version: "1.2.3".to_string()
            }
        })
    );
}

#[test]
fn package_fetch_extracts_name_and_version() {
    let mut p = no_params();
    p.name = Some("treehub".to_string());
    p.version = Some("1.2.3".to_string());
    assert_eq!(
        route("package", "fetch", p),
        Ok(BackendOp::FetchPackage {
            name: "treehub".to_string(),
            version: "1.2.3".to_string()
        })
    );
}

#[test]
fn package_fetch_without_version_fails() {
    let mut p = no_params();
    p.name = Some("treehub".to_string());
    assert_eq!(
        route("package", "fetch", p),
        Err(CommandError::MissingParameter(ParamName::Version))
    );
}

#[test]
fn update_create_carries_targets_path() {
    let mut p = no_params();
    p.targets = Some("./targets.json".to_string());
    assert_eq!(
        route("update", "create", p),
        Ok(BackendOp::CreateUpdate {
            targets: "./targets.json".to_string()
        })
    );
}

#[test]
fn update_create_without_targets_fails() {
    assert_eq!(
        route("update", "create", no_params()),
        Err(CommandError::MissingParameter(ParamName::Targets))
    );
}

#[test]
fn update_launch_extracts_update_then_device() {
    let mut p = no_params();
    p.update = Some("3".to_string());
    p.device = Some("9".to_string());
    assert_eq!(
        route("update", "launch", p),
        Ok(BackendOp::LaunchUpdate {
            update: UpdateId(3),
            device: DeviceId(9)
        })
    );
}

#[test]
fn update_launch_without_device_fails() {
    let mut p = no_params();
    p.update = Some("3".to_string());
    assert_eq!(
        route("update", "launch", p),
        Err(CommandError::MissingParameter(ParamName::Device))
    );
}

#[test]
fn unknown_top_level_command_fails_resolution() {
    assert_eq!(
        route("frobnicate", "list", no_params()),
        Err(CommandError::UnknownCommand("frobnicate".to_string()))
    );
}

#[test]
fn unknown_subcommand_names_its_parent() {
    assert_eq!(
        route("campaign", "frobnicate", no_params()),
        Err(CommandError::UnknownSubcommand(
            Command::Campaign,
            "frobnicate".to_string()
        ))
    );
    assert_eq!(
        route("update", "", no_params()),
        Err(CommandError::UnknownSubcommand(
            Command::Update,
            "".to_string()
        ))
    );
}

#[test]
fn dispatch_can_start_from_resolved_values() {
    // The per-level pieces compose the same way `route` does.
    let mut p = no_params();
    p.campaign = Some("42".to_string());
    let cmd = Command::from_str("Campaign").unwrap();
    let sub = Campaign::from_str("Launch").unwrap();
    assert_eq!(cmd, Command::Campaign);
    assert_eq!(sub, Campaign::Launch);
    assert_eq!(
        sub.dispatch(p),
        Ok(BackendOp::LaunchCampaign {
            campaign: CampaignId(42)
        })
    );
}

#[test]
fn package_list_short_circuits_at_the_subcommand() {
    assert_eq!(
        Package::List.dispatch(no_params()),
        Err(CommandError::NotImplemented)
    );
}
