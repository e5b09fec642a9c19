//! Configuration values consumed by the routing engine, and the status
//! records it reports back.

use vstd::prelude::*;

use crate::vorerr::VORAppError;

verus! {

/// Immutable per-route configuration: where to send, and a display name.
/// The destination host is an IPv4 literal and the port a decimal string.
#[derive(Clone)]
pub struct VORConfig {
    pub app_port: String,
    pub app_host: String,
    pub app_name: String,
}

/// A route configuration together with the path of the file it came from.
#[derive(Clone)]
pub struct VORConfigWrapper {
    pub config_data: VORConfig,
    pub config_path: String,
}

/// Immutable engine configuration: the listening address, the broadcast
/// queue capacity, and the scheduling mode (cooperative tasks when
/// `async_mode`, dedicated threads otherwise).
#[derive(Clone)]
pub struct RouterConfig {
    pub bind_host: String,
    pub bind_port: String,
    pub vor_buffer_size: String,
    pub async_mode: bool,
}

impl Default for RouterConfig {
    /// The configuration written when none exists on disk yet.
    fn default() -> (r: Self)
        ensures
            r.bind_host@ == "127.0.0.1"@,
            r.bind_port@ == "9001"@,
            r.vor_buffer_size@ == "4096"@,
            r.async_mode,
    {
        RouterConfig {
            bind_host: "127.0.0.1".to_string(),
            bind_port: "9001".to_string(),
            vor_buffer_size: "4096".to_string(),
            async_mode: true,
        }
    }
}

/// The lifecycle status of one route, as reported on the status channel.
pub enum VORAppStatus {
    Disabled,
    Stopped,
    Running,
    AppError(VORAppError),
}

/// One status record: which route it concerns (`index`, or -1 for an
/// engine-level event) and the status itself.
pub struct VORAppIdentifier {
    pub index: i64,
    pub status: VORAppStatus,
}

/// Whether a route's configuration has been written back or is being edited.
pub enum AppConfigState {
    EDIT(AppConfigCheck),
    SAVED,
}

/// The outcome of validating a route configuration before saving it.
pub enum AppConfigCheck {
    IV(InputValidation),
    AC(AppConflicts),
    SUCCESS,
}

/// A clash between two route configurations: the conflicting name and the
/// component it clashes on.
pub enum AppConflicts {
    NONE,
    CONFLICT((String, String)),
}

/// Which input field of a route configuration failed validation.
pub enum InputValidation {
    AP(bool),
    AH(bool),
    BP(bool),
    BH(bool),
    CLEAN,
}

/// Startup flags handed to the process: whether to start routing
/// immediately on boot.
pub struct VCArgs {
    pub enable_on_start: bool,
}

/// Pairs each route configuration read from disk with its initial
/// lifecycle state: not yet running, and saved as-is.
pub fn config_construct(
    vor_router_config: RouterConfig,
    configs: Vec<VORConfigWrapper>,
    pf: crate::pf::PacketFilter,
) -> (r: (RouterConfig, Vec<(VORConfigWrapper, VORAppStatus, AppConfigState)>, crate::pf::PacketFilter))
    ensures
        r.0 == vor_router_config,
        r.2 == pf,
        r.1@.len() == configs@.len(),
        forall|i: int| 0 <= i < configs@.len() ==> #[trigger] r.1@[i].0 == configs@[i]
            && r.1@[i].1 is Stopped
            && r.1@[i].2 is SAVED,
{
    let ghost all = configs@;
    let mut gconfs: Vec<(VORConfigWrapper, VORAppStatus, AppConfigState)> = Vec::new();
    let mut rest = configs;
    while rest.len() > 0
        invariant
            gconfs@.len() + rest@.len() == all.len(),
            rest@ == all.skip(gconfs@.len() as int),
            forall|i: int| 0 <= i < gconfs@.len() ==> #[trigger] gconfs@[i].0 == all[i]
                && gconfs@[i].1 is Stopped
                && gconfs@[i].2 is SAVED,
        decreases rest@.len(),
    {
        let c = rest.remove(0);
        gconfs.push((c, VORAppStatus::Stopped, AppConfigState::SAVED));
    }
    (vor_router_config, gconfs, pf)
}

/// Whether another route configuration carries the same app name as the one
/// at `ix`.
pub open spec fn spec_name_conflict(
    c: Seq<(VORConfigWrapper, VORAppStatus, AppConfigState)>,
    ix: int,
) -> bool {
    exists|i: int|
        0 <= i < c.len() && i != ix && #[trigger] c[i].0.config_data.app_name@
            == c[ix].0.config_data.app_name@
}

/// Validates the route configuration at `app_index`: its destination host
/// must be an IPv4 literal and its destination port a usable port number.
pub fn check_app_inputs(
    configs: &Vec<(VORConfigWrapper, VORAppStatus, AppConfigState)>,
    app_index: usize,
) -> (r: InputValidation)
    requires
        app_index < configs@.len(),
    ensures
        r is AH <==> !crate::vorutils::spec_valid_ipv4(
            configs@[app_index as int].0.config_data.app_host@,
        ),
        r is AP <==> (crate::vorutils::spec_valid_ipv4(
            configs@[app_index as int].0.config_data.app_host@,
        ) && !crate::vorutils::spec_valid_port(
            configs@[app_index as int].0.config_data.app_port@,
        )),
        r is CLEAN <==> (crate::vorutils::spec_valid_ipv4(
            configs@[app_index as int].0.config_data.app_host@,
        ) && crate::vorutils::spec_valid_port(
            configs@[app_index as int].0.config_data.app_port@,
        )),
        r matches InputValidation::AH(b) ==> !b,
        r matches InputValidation::AP(b) ==> !b,
{
    if !crate::vorutils::check_valid_ipv4(&configs[app_index].0.config_data.app_host) {
        return InputValidation::AH(false);
    }
    if !crate::vorutils::check_valid_port(&configs[app_index].0.config_data.app_port) {
        return InputValidation::AP(false);
    }
    InputValidation::CLEAN
}

/// Looks for another route configuration with the same app name as the one
/// at `app_index`; names must be unique because they name the config files.
pub fn check_app_conflicts(
    configs: &Vec<(VORConfigWrapper, VORAppStatus, AppConfigState)>,
    app_index: usize,
) -> (r: AppConflicts)
    requires
        app_index < configs@.len(),
    ensures
        r is CONFLICT <==> spec_name_conflict(configs@, app_index as int),
        r matches AppConflicts::CONFLICT(t) ==> t.0@
            == configs@[app_index as int].0.config_data.app_name@ && t.1@ == "App Name"@,
{
    let mut i: usize = 0;
    while i < configs.len()
        invariant
            app_index < configs@.len(),
            i <= configs@.len(),
            forall|j: int| 0 <= j < i && j != app_index ==> #[trigger] configs@[j].0.config_data.app_name@
                != configs@[app_index as int].0.config_data.app_name@,
        decreases configs@.len() - i,
    {
        if i != app_index {
            if configs[i].0.config_data.app_name == configs[app_index].0.config_data.app_name {
                return AppConflicts::CONFLICT(
                    (configs[i].0.config_data.app_name.clone(), "App Name".to_string()),
                );
            }
        }
        i = i + 1;
    }
    AppConflicts::NONE
}

} // verus!
