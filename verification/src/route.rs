//! Routing a resolved invocation to exactly one backend operation.
//!
//! Extraction and routing are one pass: for the resolved subcommand, each
//! required parameter is looked up and validated in a fixed order, and the
//! first absent or malformed one ends the invocation before any backend
//! work. A successful pass yields the one `BackendOp` of the invocation's
//! routing-table row, carrying exactly the extracted parameters; the caller
//! that owns the backend connections performs it.

use vstd::prelude::*;

use crate::command::{
    campaign_token, command_token, device_token, group_token, package_token, update_token,
    Campaign, Command, Device, Group, Package, Update,
};
use crate::error::{CommandError, ErrorV, ParamName};
use crate::ident::{id_of, parse_id, CampaignId, DeviceId, GroupId, ParseFailure, UpdateId};
use crate::params::{
    kind_token, view_opt, DeviceKind, PackageDescriptor, PackageV, ParameterSet, ParamsV,
};

verus! {

/// The one backend operation an invocation routes to, with the parameters
/// that operation takes. `List`-shaped rows hand the whole parameter set
/// through for server-side filtering.
#[derive(PartialEq, Debug)]
pub enum BackendOp {
    /// Bootstrap the configuration from the top-level flags.
    InitConfig { flags: ParameterSet },
    ListCampaigns { flags: ParameterSet },
    CreateCampaign { flags: ParameterSet },
    LaunchCampaign { campaign: CampaignId },
    CancelCampaign { campaign: CampaignId },
    ListDevices { flags: ParameterSet },
    CreateDevice { name: String, id: String, kind: DeviceKind },
    DeleteDevice { device: DeviceId },
    ListGroups { flags: ParameterSet },
    CreateGroup { name: String },
    AddToGroup { group: GroupId, device: DeviceId },
    RemoveFromGroup { group: GroupId, device: DeviceId },
    RenameGroup { group: GroupId, name: String },
    AddPackage { package: PackageDescriptor },
    FetchPackage { name: String, version: String },
    /// Compose a multi-target update from the targets file at this path.
    CreateUpdate { targets: String },
    LaunchUpdate { update: UpdateId, device: DeviceId },
}

/// The mathematical form of a `BackendOp`.
pub enum OpV {
    InitConfig { flags: ParamsV },
    ListCampaigns { flags: ParamsV },
    CreateCampaign { flags: ParamsV },
    LaunchCampaign { campaign: CampaignId },
    CancelCampaign { campaign: CampaignId },
    ListDevices { flags: ParamsV },
    CreateDevice { name: Seq<char>, id: Seq<char>, kind: DeviceKind },
    DeleteDevice { device: DeviceId },
    ListGroups { flags: ParamsV },
    CreateGroup { name: Seq<char> },
    AddToGroup { group: GroupId, device: DeviceId },
    RemoveFromGroup { group: GroupId, device: DeviceId },
    RenameGroup { group: GroupId, name: Seq<char> },
    AddPackage { package: PackageV },
    FetchPackage { name: Seq<char>, version: Seq<char> },
    CreateUpdate { targets: Seq<char> },
    LaunchUpdate { update: UpdateId, device: DeviceId },
}

impl View for BackendOp {
    type V = OpV;

    open spec fn view(&self) -> OpV {
        match self {
            BackendOp::InitConfig { flags } => OpV::InitConfig { flags: flags@ },
            BackendOp::ListCampaigns { flags } => OpV::ListCampaigns { flags: flags@ },
            BackendOp::CreateCampaign { flags } => OpV::CreateCampaign { flags: flags@ },
            BackendOp::LaunchCampaign { campaign } => OpV::LaunchCampaign { campaign: *campaign },
            BackendOp::CancelCampaign { campaign } => OpV::CancelCampaign { campaign: *campaign },
            BackendOp::ListDevices { flags } => OpV::ListDevices { flags: flags@ },
            BackendOp::CreateDevice { name, id, kind } => OpV::CreateDevice {
                name: name@,
                id: id@,
                kind: *kind,
            },
            BackendOp::DeleteDevice { device } => OpV::DeleteDevice { device: *device },
            BackendOp::ListGroups { flags } => OpV::ListGroups { flags: flags@ },
            BackendOp::CreateGroup { name } => OpV::CreateGroup { name: name@ },
            BackendOp::AddToGroup { group, device } => OpV::AddToGroup {
                group: *group,
                device: *device,
            },
            BackendOp::RemoveFromGroup { group, device } => OpV::RemoveFromGroup {
                group: *group,
                device: *device,
            },
            BackendOp::RenameGroup { group, name } => OpV::RenameGroup {
                group: *group,
                name: name@,
            },
            BackendOp::AddPackage { package } => OpV::AddPackage { package: package@ },
            BackendOp::FetchPackage { name, version } => OpV::FetchPackage {
                name: name@,
                version: version@,
            },
            BackendOp::CreateUpdate { targets } => OpV::CreateUpdate { targets: targets@ },
            BackendOp::LaunchUpdate { update, device } => OpV::LaunchUpdate {
                update: *update,
                device: *device,
            },
        }
    }
}

/// The view of a routing outcome.
pub open spec fn outcome(r: Result<BackendOp, CommandError>) -> Result<OpV, ErrorV> {
    match r {
        Ok(op) => Ok(op@),
        Err(e) => Err(e@),
    }
}

/// A required free-form parameter: its value, or the failure naming it.
pub open spec fn req_str(v: Option<Seq<char>>, n: ParamName) -> Result<Seq<char>, ErrorV> {
    match v {
        Some(s) => Ok(s),
        None => Err(ErrorV::MissingParameter(n)),
    }
}

/// A required identifier parameter: its parsed value, or the failure
/// naming it — absent, or present but malformed with the exact cause.
pub open spec fn req_id(v: Option<Seq<char>>, n: ParamName) -> Result<u64, ErrorV> {
    match v {
        Some(s) => match id_of(s) {
            Ok(u) => Ok(u),
            Err(c) => Err(ErrorV::InvalidIdentifier(n, s, c)),
        },
        None => Err(ErrorV::MissingParameter(n)),
    }
}

/// The required device-type parameter: the kind it names, or the failure.
pub open spec fn req_kind(v: Option<Seq<char>>) -> Result<DeviceKind, ErrorV> {
    match v {
        Some(s) => match kind_token(s) {
            Some(k) => Ok(k),
            None => Err(ErrorV::InvalidIdentifier(ParamName::Type, s, ParseFailure::UnknownKind)),
        },
        None => Err(ErrorV::MissingParameter(ParamName::Type)),
    }
}

/// What each campaign subcommand routes to.
pub open spec fn spec_route_campaign(c: Campaign, p: ParamsV) -> Result<OpV, ErrorV> {
    match c {
        Campaign::List => Ok(OpV::ListCampaigns { flags: p }),
        Campaign::Create => Ok(OpV::CreateCampaign { flags: p }),
        Campaign::Launch => match req_id(p.campaign, ParamName::Campaign) {
            Ok(u) => Ok(OpV::LaunchCampaign { campaign: CampaignId(u) }),
            Err(e) => Err(e),
        },
        Campaign::Cancel => match req_id(p.campaign, ParamName::Campaign) {
            Ok(u) => Ok(OpV::CancelCampaign { campaign: CampaignId(u) }),
            Err(e) => Err(e),
        },
    }
}

/// What each device subcommand routes to. `create` extracts the name,
/// then the id, then the device type.
pub open spec fn spec_route_device(d: Device, p: ParamsV) -> Result<OpV, ErrorV> {
    match d {
        Device::List => Ok(OpV::ListDevices { flags: p }),
        Device::Create => match req_str(p.name, ParamName::Name) {
            Err(e) => Err(e),
            Ok(name) => match req_str(p.id, ParamName::Id) {
                Err(e) => Err(e),
                Ok(id) => match req_kind(p.device_type) {
                    Err(e) => Err(e),
                    Ok(k) => Ok(OpV::CreateDevice { name, id, kind: k }),
                },
            },
        },
        Device::Delete => match req_id(p.device, ParamName::Device) {
            Ok(u) => Ok(OpV::DeleteDevice { device: DeviceId(u) }),
            Err(e) => Err(e),
        },
    }
}

/// What each group subcommand routes to. `add` and `remove` extract the
/// group, then the device; `rename` extracts the group, then the name.
pub open spec fn spec_route_group(g: Group, p: ParamsV) -> Result<OpV, ErrorV> {
    match g {
        Group::List => Ok(OpV::ListGroups { flags: p }),
        Group::Create => match req_str(p.name, ParamName::Name) {
            Ok(name) => Ok(OpV::CreateGroup { name }),
            Err(e) => Err(e),
        },
        Group::Add => match req_id(p.group, ParamName::Group) {
            Err(e) => Err(e),
            Ok(gu) => match req_id(p.device, ParamName::Device) {
                Err(e) => Err(e),
                Ok(du) => Ok(OpV::AddToGroup { group: GroupId(gu), device: DeviceId(du) }),
            },
        },
        Group::Remove => match req_id(p.group, ParamName::Group) {
            Err(e) => Err(e),
            Ok(gu) => match req_id(p.device, ParamName::Device) {
                Err(e) => Err(e),
                Ok(du) => Ok(OpV::RemoveFromGroup { group: GroupId(gu), device: DeviceId(du) }),
            },
        },
        Group::Rename => match req_id(p.group, ParamName::Group) {
            Err(e) => Err(e),
            Ok(gu) => match req_str(p.name, ParamName::Name) {
                Err(e) => Err(e),
                Ok(name) => Ok(OpV::RenameGroup { group: GroupId(gu), name }),
            },
        },
    }
}

/// What each package subcommand routes to. `list` has no supported
/// backend operation and is always rejected as not implemented.
pub open spec fn spec_route_package(k: Package, p: ParamsV) -> Result<OpV, ErrorV> {
    match k {
        Package::List => Err(ErrorV::NotImplemented),
        Package::Add => match req_str(p.name, ParamName::Name) {
            Err(e) => Err(e),
            Ok(name) => match req_str(p.version, ParamName::Version) {
                Err(e) => Err(e),
                Ok(version) => Ok(OpV::AddPackage { package: PackageV { name, version } }),
            },
        },
        Package::Fetch => match req_str(p.name, ParamName::Name) {
            Err(e) => Err(e),
            Ok(name) => match req_str(p.version, ParamName::Version) {
                Err(e) => Err(e),
                Ok(version) => Ok(OpV::FetchPackage { name, version }),
            },
        },
    }
}

/// What each update subcommand routes to. `launch` extracts the update,
/// then the device.
pub open spec fn spec_route_update(u: Update, p: ParamsV) -> Result<OpV, ErrorV> {
    match u {
        Update::Create => match req_str(p.targets, ParamName::Targets) {
            Ok(targets) => Ok(OpV::CreateUpdate { targets }),
            Err(e) => Err(e),
        },
        Update::Launch => match req_id(p.update, ParamName::Update) {
            Err(e) => Err(e),
            Ok(uu) => match req_id(p.device, ParamName::Device) {
                Err(e) => Err(e),
                Ok(du) => Ok(OpV::LaunchUpdate { update: UpdateId(uu), device: DeviceId(du) }),
            },
        },
    }
}

/// What a resolved command with a raw subcommand token routes to: `init`
/// takes no subcommand and bootstraps configuration from the flags; every
/// other command resolves the token in its own subcommand set first.
pub open spec fn spec_dispatch(cmd: Command, sub: Seq<char>, p: ParamsV) -> Result<OpV, ErrorV> {
    match cmd {
        Command::Init => Ok(OpV::InitConfig { flags: p }),
        Command::Campaign => match campaign_token(sub) {
            Some(c) => spec_route_campaign(c, p),
            None => Err(ErrorV::UnknownSubcommand(Command::Campaign, sub)),
        },
        Command::Device => match device_token(sub) {
            Some(d) => spec_route_device(d, p),
            None => Err(ErrorV::UnknownSubcommand(Command::Device, sub)),
        },
        Command::Group => match group_token(sub) {
            Some(g) => spec_route_group(g, p),
            None => Err(ErrorV::UnknownSubcommand(Command::Group, sub)),
        },
        Command::Package => match package_token(sub) {
            Some(k) => spec_route_package(k, p),
            None => Err(ErrorV::UnknownSubcommand(Command::Package, sub)),
        },
        Command::Update => match update_token(sub) {
            Some(u) => spec_route_update(u, p),
            None => Err(ErrorV::UnknownSubcommand(Command::Update, sub)),
        },
    }
}

/// What one whole invocation routes to, from the raw tokens.
pub open spec fn spec_route(cmd: Seq<char>, sub: Seq<char>, p: ParamsV) -> Result<OpV, ErrorV> {
    match command_token(cmd) {
        Some(c) => spec_dispatch(c, sub, p),
        None => Err(ErrorV::UnknownCommand(cmd)),
    }
}

fn need_str(v: Option<String>, n: ParamName) -> (r: Result<String, CommandError>)
    ensures
        match r {
            Ok(s) => req_str(view_opt(v), n) == Ok::<Seq<char>, ErrorV>(s@),
            Err(e) => req_str(view_opt(v), n) == Err::<Seq<char>, ErrorV>(e@),
        },
{
    match v {
        Some(s) => Ok(s),
        None => Err(CommandError::MissingParameter(n)),
    }
}

fn need_id(v: Option<String>, n: ParamName) -> (r: Result<u64, CommandError>)
    ensures
        match r {
            Ok(u) => req_id(view_opt(v), n) == Ok::<u64, ErrorV>(u),
            Err(e) => req_id(view_opt(v), n) == Err::<u64, ErrorV>(e@),
        },
{
    match v {
        Some(raw) => match parse_id(raw.as_str()) {
            Ok(u) => Ok(u),
            Err(c) => Err(CommandError::InvalidIdentifier(n, raw, c)),
        },
        None => Err(CommandError::MissingParameter(n)),
    }
}

fn need_kind(v: Option<String>) -> (r: Result<DeviceKind, CommandError>)
    ensures
        match r {
            Ok(k) => req_kind(view_opt(v)) == Ok::<DeviceKind, ErrorV>(k),
            Err(e) => req_kind(view_opt(v)) == Err::<DeviceKind, ErrorV>(e@),
        },
{
    match v {
        Some(raw) => DeviceKind::from_str(raw.as_str()),
        None => Err(CommandError::MissingParameter(ParamName::Type)),
    }
}

impl Campaign {
    /// Extract what this campaign subcommand requires and route it.
    pub fn dispatch(&self, params: ParameterSet) -> (r: Result<BackendOp, CommandError>)
        ensures
            outcome(r) == spec_route_campaign(*self, params@),
    {
        match self {
            Campaign::List => Ok(BackendOp::ListCampaigns { flags: params }),
            Campaign::Create => Ok(BackendOp::CreateCampaign { flags: params }),
            Campaign::Launch => {
                let ParameterSet { campaign, .. } = params;
                match need_id(campaign, ParamName::Campaign) {
                    Ok(u) => Ok(BackendOp::LaunchCampaign { campaign: CampaignId(u) }),
                    Err(e) => Err(e),
                }
            },
            Campaign::Cancel => {
                let ParameterSet { campaign, .. } = params;
                match need_id(campaign, ParamName::Campaign) {
                    Ok(u) => Ok(BackendOp::CancelCampaign { campaign: CampaignId(u) }),
                    Err(e) => Err(e),
                }
            },
        }
    }
}

impl Device {
    /// Extract what this device subcommand requires and route it.
    pub fn dispatch(&self, params: ParameterSet) -> (r: Result<BackendOp, CommandError>)
        ensures
            outcome(r) == spec_route_device(*self, params@),
    {
        match self {
            Device::List => Ok(BackendOp::ListDevices { flags: params }),
            Device::Create => {
                let ParameterSet { name, id, device_type, .. } = params;
                let name = match need_str(name, ParamName::Name) {
                    Ok(s) => s,
                    Err(e) => return Err(e),
                };
                let id = match need_str(id, ParamName::Id) {
                    Ok(s) => s,
                    Err(e) => return Err(e),
                };
                let kind = match need_kind(device_type) {
                    Ok(k) => k,
                    Err(e) => return Err(e),
                };
                Ok(BackendOp::CreateDevice { name, id, kind })
            },
            Device::Delete => {
                let ParameterSet { device, .. } = params;
                match need_id(device, ParamName::Device) {
                    Ok(u) => Ok(BackendOp::DeleteDevice { device: DeviceId(u) }),
                    Err(e) => Err(e),
                }
            },
        }
    }
}

impl Group {
    /// Extract what this group subcommand requires and route it.
    pub fn dispatch(&self, params: ParameterSet) -> (r: Result<BackendOp, CommandError>)
        ensures
            outcome(r) == spec_route_group(*self, params@),
    {
        match self {
            Group::List => Ok(BackendOp::ListGroups { flags: params }),
            Group::Create => {
                let ParameterSet { name, .. } = params;
                match need_str(name, ParamName::Name) {
                    Ok(name) => Ok(BackendOp::CreateGroup { name }),
                    Err(e) => Err(e),
                }
            },
            Group::Add => {
                let ParameterSet { group, device, .. } = params;
                let gu = match need_id(group, ParamName::Group) {
                    Ok(u) => u,
                    Err(e) => return Err(e),
                };
                let du = match need_id(device, ParamName::Device) {
                    Ok(u) => u,
                    Err(e) => return Err(e),
                };
                Ok(BackendOp::AddToGroup { group: GroupId(gu), device: DeviceId(du) })
            },
            Group::Remove => {
                let ParameterSet { group, device, .. } = params;
                let gu = match need_id(group, ParamName::Group) {
                    Ok(u) => u,
                    Err(e) => return Err(e),
                };
                let du = match need_id(device, ParamName::Device) {
                    Ok(u) => u,
                    Err(e) => return Err(e),
                };
                Ok(BackendOp::RemoveFromGroup { group: GroupId(gu), device: DeviceId(du) })
            },
            Group::Rename => {
                let ParameterSet { group, name, .. } = params;
                let gu = match need_id(group, ParamName::Group) {
                    Ok(u) => u,
                    Err(e) => return Err(e),
                };
                match need_str(name, ParamName::Name) {
                    Ok(name) => Ok(BackendOp::RenameGroup { group: GroupId(gu), name }),
                    Err(e) => Err(e),
                }
            },
        }
    }
}

impl Package {
    /// Extract what this package subcommand requires and route it.
    /// `list` never reaches a backend operation.
    pub fn dispatch(&self, params: ParameterSet) -> (r: Result<BackendOp, CommandError>)
        ensures
            outcome(r) == spec_route_package(*self, params@),
    {
        match self {
            Package::List => Err(CommandError::NotImplemented),
            Package::Add => {
                let ParameterSet { name, version, .. } = params;
                let name = match need_str(name, ParamName::Name) {
                    Ok(s) => s,
                    Err(e) => return Err(e),
                };
                let version = match need_str(version, ParamName::Version) {
                    Ok(s) => s,
                    Err(e) => return Err(e),
                };
                Ok(BackendOp::AddPackage { package: PackageDescriptor { name, version } })
            },
            Package::Fetch => {
                let ParameterSet { name, version, .. } = params;
                let name = match need_str(name, ParamName::Name) {
                    Ok(s) => s,
                    Err(e) => return Err(e),
                };
                let version = match need_str(version, ParamName::Version) {
                    Ok(s) => s,
                    Err(e) => return Err(e),
                };
                Ok(BackendOp::FetchPackage { name, version })
            },
        }
    }
}

impl Update {
    /// Extract what this update subcommand requires and route it.
    pub fn dispatch(&self, params: ParameterSet) -> (r: Result<BackendOp, CommandError>)
        ensures
            outcome(r) == spec_route_update(*self, params@),
    {
        match self {
            Update::Create => {
                let ParameterSet { targets, .. } = params;
                match need_str(targets, ParamName::Targets) {
                    Ok(targets) => Ok(BackendOp::CreateUpdate { targets }),
                    Err(e) => Err(e),
                }
            },
            Update::Launch => {
                let ParameterSet { update, device, .. } = params;
                let uu = match need_id(update, ParamName::Update) {
                    Ok(u) => u,
                    Err(e) => return Err(e),
                };
                let du = match need_id(device, ParamName::Device) {
                    Ok(u) => u,
                    Err(e) => return Err(e),
                };
                Ok(BackendOp::LaunchUpdate { update: UpdateId(uu), device: DeviceId(du) })
            },
        }
    }
}

impl Command {
    /// Resolve the subcommand token in this command's own set, extract,
    /// and route. `init` takes no subcommand and ignores the token.
    pub fn dispatch(&self, sub: &str, params: ParameterSet) -> (r: Result<
        BackendOp,
        CommandError,
    >)
        ensures
            outcome(r) == spec_dispatch(*self, sub@, params@),
    {
        match self {
            Command::Init => Ok(BackendOp::InitConfig { flags: params }),
            Command::Campaign => match Campaign::from_str(sub) {
                Ok(c) => c.dispatch(params),
                Err(e) => Err(e),
            },
            Command::Device => match Device::from_str(sub) {
                Ok(d) => d.dispatch(params),
                Err(e) => Err(e),
            },
            Command::Group => match Group::from_str(sub) {
                Ok(g) => g.dispatch(params),
                Err(e) => Err(e),
            },
            Command::Package => match Package::from_str(sub) {
                Ok(k) => k.dispatch(params),
                Err(e) => Err(e),
            },
            Command::Update => match Update::from_str(sub) {
                Ok(u) => u.dispatch(params),
                Err(e) => Err(e),
            },
        }
    }
}

/// One whole invocation: resolve the top-level token, then the subcommand,
/// then extract and route. The first failure ends the invocation; success
/// yields the one backend operation to perform.
pub fn route(cmd: &str, sub: &str, params: ParameterSet) -> (r: Result<BackendOp, CommandError>)
    ensures
        outcome(r) == spec_route(cmd@, sub@, params@),
{
    match Command::from_str(cmd) {
        Ok(c) => c.dispatch(sub, params),
        Err(e) => Err(e),
    }
}

/// The campaign rows of the routing table, exactly: each subcommand with
/// its required parameters supplied and valid routes to the one operation
/// of its row, carrying exactly the extracted parameters; a missing
/// required parameter is named, and a malformed identifier carries its
/// token and cause. No other outcome exists.
pub proof fn lemma_campaign_routing(c: Campaign, p: ParamsV)
    ensures
        c == Campaign::List ==> spec_route_campaign(c, p) == Ok::<OpV, ErrorV>(
            OpV::ListCampaigns { flags: p },
        ),
        c == Campaign::Create ==> spec_route_campaign(c, p) == Ok::<OpV, ErrorV>(
            OpV::CreateCampaign { flags: p },
        ),
        (c == Campaign::Launch || c == Campaign::Cancel) && p.campaign is None
            ==> spec_route_campaign(c, p) == Err::<OpV, ErrorV>(
            ErrorV::MissingParameter(ParamName::Campaign),
        ),
        c == Campaign::Launch ==> (p.campaign matches Some(s) ==> (id_of(s) matches Ok(u)
            ==> spec_route_campaign(c, p) == Ok::<OpV, ErrorV>(
            OpV::LaunchCampaign { campaign: CampaignId(u) },
        ))),
        c == Campaign::Cancel ==> (p.campaign matches Some(s) ==> (id_of(s) matches Ok(u)
            ==> spec_route_campaign(c, p) == Ok::<OpV, ErrorV>(
            OpV::CancelCampaign { campaign: CampaignId(u) },
        ))),
        c == Campaign::Launch || c == Campaign::Cancel ==> (p.campaign matches Some(s) ==> (id_of(
            s,
        ) matches Err(cause) ==> spec_route_campaign(c, p) == Err::<OpV, ErrorV>(
            ErrorV::InvalidIdentifier(ParamName::Campaign, s, cause),
        ))),
{
}

/// The device rows of the routing table, exactly. `create` extracts the
/// name, then the id, then the device type, and fails on the first absent
/// or malformed one.
pub proof fn lemma_device_routing(d: Device, p: ParamsV)
    ensures
        d == Device::List ==> spec_route_device(d, p) == Ok::<OpV, ErrorV>(
            OpV::ListDevices { flags: p },
        ),
        d == Device::Create && p.name is None ==> spec_route_device(d, p) == Err::<OpV, ErrorV>(
            ErrorV::MissingParameter(ParamName::Name),
        ),
        d == Device::Create && p.name is Some && p.id is None ==> spec_route_device(d, p)
            == Err::<OpV, ErrorV>(ErrorV::MissingParameter(ParamName::Id)),
        d == Device::Create && p.name is Some && p.id is Some && p.device_type is None
            ==> spec_route_device(d, p) == Err::<OpV, ErrorV>(
            ErrorV::MissingParameter(ParamName::Type),
        ),
        d == Device::Create ==> (p.name matches Some(name) ==> (p.id matches Some(id)
            ==> (p.device_type matches Some(t) ==> (kind_token(t) matches Some(k)
            ==> spec_route_device(d, p) == Ok::<OpV, ErrorV>(
            OpV::CreateDevice { name, id, kind: k },
        ))))),
        d == Device::Create && p.name is Some && p.id is Some ==> (p.device_type matches Some(t)
            ==> (kind_token(t) is None ==> spec_route_device(d, p) == Err::<OpV, ErrorV>(
            ErrorV::InvalidIdentifier(ParamName::Type, t, ParseFailure::UnknownKind),
        ))),
        d == Device::Delete && p.device is None ==> spec_route_device(d, p) == Err::<OpV, ErrorV>(
            ErrorV::MissingParameter(ParamName::Device),
        ),
        d == Device::Delete ==> (p.device matches Some(s) ==> (id_of(s) matches Ok(u)
            ==> spec_route_device(d, p) == Ok::<OpV, ErrorV>(
            OpV::DeleteDevice { device: DeviceId(u) },
        ))),
        d == Device::Delete ==> (p.device matches Some(s) ==> (id_of(s) matches Err(cause)
            ==> spec_route_device(d, p) == Err::<OpV, ErrorV>(
            ErrorV::InvalidIdentifier(ParamName::Device, s, cause),
        ))),
{
}

/// The group rows of the routing table, exactly. `add` and `remove`
/// extract the group, then the device; `rename` extracts the group, then
/// the name.
pub proof fn lemma_group_routing(g: Group, p: ParamsV)
    ensures
        g == Group::List ==> spec_route_group(g, p) == Ok::<OpV, ErrorV>(
            OpV::ListGroups { flags: p },
        ),
        g == Group::Create && p.name is None ==> spec_route_group(g, p) == Err::<OpV, ErrorV>(
            ErrorV::MissingParameter(ParamName::Name),
        ),
        g == Group::Create ==> (p.name matches Some(name) ==> spec_route_group(g, p)
            == Ok::<OpV, ErrorV>(OpV::CreateGroup { name })),
        (g == Group::Add || g == Group::Remove || g == Group::Rename) && p.group is None
            ==> spec_route_group(g, p) == Err::<OpV, ErrorV>(
            ErrorV::MissingParameter(ParamName::Group),
        ),
        g == Group::Add || g == Group::Remove || g == Group::Rename ==> (p.group matches Some(s)
            ==> (id_of(s) matches Err(cause) ==> spec_route_group(g, p) == Err::<OpV, ErrorV>(
            ErrorV::InvalidIdentifier(ParamName::Group, s, cause),
        ))),
        g == Group::Add || g == Group::Remove ==> (p.group matches Some(s) ==> (id_of(s) is Ok
            && p.device is None ==> spec_route_group(g, p) == Err::<OpV, ErrorV>(
            ErrorV::MissingParameter(ParamName::Device),
        ))),
        g == Group::Add ==> (p.group matches Some(s) ==> (id_of(s) matches Ok(gu)
            ==> (p.device matches Some(t) ==> (id_of(t) matches Ok(du) ==> spec_route_group(g, p)
            == Ok::<OpV, ErrorV>(
            OpV::AddToGroup { group: GroupId(gu), device: DeviceId(du) },
        ))))),
        g == Group::Remove ==> (p.group matches Some(s) ==> (id_of(s) matches Ok(gu)
            ==> (p.device matches Some(t) ==> (id_of(t) matches Ok(du) ==> spec_route_group(g, p)
            == Ok::<OpV, ErrorV>(
            OpV::RemoveFromGroup { group: GroupId(gu), device: DeviceId(du) },
        ))))),
        g == Group::Rename ==> (p.group matches Some(s) ==> (id_of(s) is Ok && p.name is None
            ==> spec_route_group(g, p) == Err::<OpV, ErrorV>(
            ErrorV::MissingParameter(ParamName::Name),
        ))),
        g == Group::Rename ==> (p.group matches Some(s) ==> (id_of(s) matches Ok(gu)
            ==> (p.name matches Some(name) ==> spec_route_group(g, p) == Ok::<OpV, ErrorV>(
            OpV::RenameGroup { group: GroupId(gu), name },
        )))),
{
}

/// The package rows of the routing table, exactly. `list` never reaches a
/// backend operation, whatever parameters were supplied.
pub proof fn lemma_package_routing(k: Package, p: ParamsV)
    ensures
        k == Package::List ==> spec_route_package(k, p) == Err::<OpV, ErrorV>(
            ErrorV::NotImplemented,
        ),
        (k == Package::Add || k == Package::Fetch) && p.name is None ==> spec_route_package(k, p)
            == Err::<OpV, ErrorV>(ErrorV::MissingParameter(ParamName::Name)),
        (k == Package::Add || k == Package::Fetch) && p.name is Some && p.version is None
            ==> spec_route_package(k, p) == Err::<OpV, ErrorV>(
            ErrorV::MissingParameter(ParamName::Version),
        ),
        k == Package::Add ==> (p.name matches Some(name) ==> (p.version matches Some(version)
            ==> spec_route_package(k, p) == Ok::<OpV, ErrorV>(
            OpV::AddPackage { package: PackageV { name, version } },
        ))),
        k == Package::Fetch ==> (p.name matches Some(name) ==> (p.version matches Some(version)
            ==> spec_route_package(k, p) == Ok::<OpV, ErrorV>(
            OpV::FetchPackage { name, version },
        ))),
{
}

/// The update rows of the routing table, exactly. `create` only reads the
/// targets file path: composing the update set from the file is the
/// backend's work, so a malformed file never surfaces as a parameter
/// failure here. `launch` extracts the update, then the device.
pub proof fn lemma_update_routing(u: Update, p: ParamsV)
    ensures
        u == Update::Create && p.targets is None ==> spec_route_update(u, p) == Err::<OpV, ErrorV>(
            ErrorV::MissingParameter(ParamName::Targets),
        ),
        u == Update::Create ==> (p.targets matches Some(targets) ==> spec_route_update(u, p)
            == Ok::<OpV, ErrorV>(OpV::CreateUpdate { targets })),
        u == Update::Launch && p.update is None ==> spec_route_update(u, p) == Err::<OpV, ErrorV>(
            ErrorV::MissingParameter(ParamName::Update),
        ),
        u == Update::Launch ==> (p.update matches Some(s) ==> (id_of(s) matches Err(cause)
            ==> spec_route_update(u, p) == Err::<OpV, ErrorV>(
            ErrorV::InvalidIdentifier(ParamName::Update, s, cause),
        ))),
        u == Update::Launch ==> (p.update matches Some(s) ==> (id_of(s) is Ok && p.device is None
            ==> spec_route_update(u, p) == Err::<OpV, ErrorV>(
            ErrorV::MissingParameter(ParamName::Device),
        ))),
        u == Update::Launch ==> (p.update matches Some(s) ==> (id_of(s) matches Ok(uu)
            ==> (p.device matches Some(t) ==> (id_of(t) matches Ok(du) ==> spec_route_update(u, p)
            == Ok::<OpV, ErrorV>(
            OpV::LaunchUpdate { update: UpdateId(uu), device: DeviceId(du) },
        ))))),
{
}

} // verus!
