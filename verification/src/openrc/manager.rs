//! Which service manager looks after the Runner.

use vstd::prelude::*;

use crate::path::{FsPath, PathEntry};
use crate::process;
use crate::text::text_eq;

verus! {

/// The service managers that the Runner can be installed with.
#[derive(Debug, Clone, Copy, PartialEq, Eq, Structural)]
pub enum ServiceManager {
    Systemd,
    Openrc,
}

/// The `--service-manager` option. `Auto` goes by the host.
#[derive(Debug, Clone, Copy, PartialEq, Eq, Structural)]
pub enum ServiceManagerSelection {
    Auto,
    Systemd,
    Openrc,
}

/// What the host shows of its service manager.
#[derive(Debug, Clone, Copy, PartialEq, Eq, Structural, Default)]
pub struct ServiceManagerProbe {
    /// `/run/openrc` is a directory and no symbolic link.
    pub openrc_runtime: bool,
    /// `/run/systemd/system` is a directory and no symbolic link.
    pub systemd_runtime: bool,
    pub rc_service: bool,
    pub rc_update: bool,
    pub systemctl: bool,
}

/// The tools of the host, as far as they were found in an absolute `PATH`
/// entry.
#[derive(Debug, Clone, PartialEq, Eq)]
pub struct HostTools {
    /// Whether the host runs Linux.
    pub linux: bool,
    pub rc_service: Option<FsPath>,
    pub rc_update: Option<FsPath>,
    pub systemctl: Option<FsPath>,
    pub tail: Option<FsPath>,
}

impl ServiceManager {
    /// The manager's name in the `--service-manager` option.
    pub open spec fn name(self) -> Seq<char> {
        match self {
            ServiceManager::Systemd => "systemd"@,
            ServiceManager::Openrc => "openrc"@,
        }
    }

    /// The selection that asks for this manager and no other.
    pub open spec fn selection(self) -> ServiceManagerSelection {
        match self {
            ServiceManager::Systemd => ServiceManagerSelection::Systemd,
            ServiceManager::Openrc => ServiceManagerSelection::Openrc,
        }
    }

    pub fn as_str(self) -> (result: &'static str)
        ensures
            result@ == self.name(),
    {
        match self {
            ServiceManager::Systemd => "systemd",
            ServiceManager::Openrc => "openrc",
        }
    }
}

impl ServiceManagerSelection {
    /// The selection that an option value asks for.
    pub open spec fn named(value: Seq<char>) -> Option<ServiceManagerSelection> {
        if value == "auto"@ {
            Some(ServiceManagerSelection::Auto)
        } else if value == "systemd"@ {
            Some(ServiceManagerSelection::Systemd)
        } else if value == "openrc"@ {
            Some(ServiceManagerSelection::Openrc)
        } else {
            None
        }
    }

    pub fn parse(value: &str) -> (result: Result<ServiceManagerSelection, String>)
        ensures
            match ServiceManagerSelection::named(value@) {
                Some(selection) => result == Ok::<ServiceManagerSelection, String>(selection),
                None => result matches Err(error) && error@
                    == "--service-manager must be 'auto', 'systemd' or 'openrc'"@,
            },
    {
        if text_eq(value, "auto") {
            Ok(ServiceManagerSelection::Auto)
        } else if text_eq(value, "systemd") {
            Ok(ServiceManagerSelection::Systemd)
        } else if text_eq(value, "openrc") {
            Ok(ServiceManagerSelection::Openrc)
        } else {
            Err("--service-manager must be 'auto', 'systemd' or 'openrc'".to_owned())
        }
    }
}

/// Whether what stands at a path is a directory and no symbolic link to one.
pub fn is_real_directory(entry: &PathEntry) -> (result: bool)
    ensures
        result == (entry is Directory),
{
    match entry {
        PathEntry::Directory => true,
        _ => false,
    }
}

/// The evidence of the host: what stands at `/run/openrc` and at
/// `/run/systemd/system`, and which tools were found.
pub fn probe_service_manager(
    openrc_runtime: &PathEntry,
    systemd_runtime: &PathEntry,
    tools: &HostTools,
) -> (result: ServiceManagerProbe)
    ensures
        result == (ServiceManagerProbe {
            openrc_runtime: openrc_runtime is Directory,
            systemd_runtime: systemd_runtime is Directory,
            rc_service: tools.rc_service is Some,
            rc_update: tools.rc_update is Some,
            systemctl: tools.systemctl is Some,
        }),
{
    ServiceManagerProbe {
        openrc_runtime: is_real_directory(openrc_runtime),
        systemd_runtime: is_real_directory(systemd_runtime),
        rc_service: tools.rc_service.is_some(),
        rc_update: tools.rc_update.is_some(),
        systemctl: tools.systemctl.is_some(),
    }
}

/// The manager that the evidence points to, or why it points to none. A
/// running manager decides; without one, the tools of exactly one do.
pub open spec fn detected(probe: ServiceManagerProbe) -> Result<ServiceManager, Seq<char>> {
    let openrc_tools = probe.rc_service && probe.rc_update;
    match (probe.openrc_runtime, probe.systemd_runtime) {
        (true, true) => Err(
            "cannot reliably detect the service manager: both /run/openrc and /run/systemd/system exist; pass --service-manager systemd|openrc explicitly"@,
        ),
        (true, false) => if openrc_tools {
            Ok(ServiceManager::Openrc)
        } else {
            Err(
                "detected an OpenRC runtime (/run/openrc) but rc-service or rc-update is missing from PATH; install openrc or pass --service-manager explicitly"@,
            )
        },
        (false, true) => Ok(ServiceManager::Systemd),
        (false, false) => match (probe.systemctl, openrc_tools) {
            (true, false) => Ok(ServiceManager::Systemd),
            (false, true) => Ok(ServiceManager::Openrc),
            (true, true) => Err(
                "cannot reliably detect the service manager: both systemctl and the OpenRC tools (rc-service, rc-update) are available, but neither /run/systemd/system nor /run/openrc exists; pass --service-manager explicitly"@,
            ),
            (false, false) => Err(
                "no supported service manager detected (looked for /run/openrc, /run/systemd/system, systemctl, rc-service and rc-update); pass --service-manager explicitly"@,
            ),
        },
    }
}

/// The manager for a selection on a host with this evidence.
pub open spec fn selected(
    selection: ServiceManagerSelection,
    probe: ServiceManagerProbe,
) -> Result<ServiceManager, Seq<char>> {
    match selection {
        ServiceManagerSelection::Systemd => Ok(ServiceManager::Systemd),
        ServiceManagerSelection::Openrc => Ok(ServiceManager::Openrc),
        ServiceManagerSelection::Auto => detected(probe),
    }
}

/// What is said where OpenRC is asked for on a host that cannot run it.
pub open spec fn linux_only() -> Seq<char> {
    "OpenRC service management is supported only on Linux"@
}

/// The manager for a selection on a host of any system. On other systems than
/// Linux `auto` means systemd.
pub open spec fn resolved(
    selection: ServiceManagerSelection,
    linux: bool,
    probe: ServiceManagerProbe,
) -> Result<ServiceManager, Seq<char>> {
    if linux {
        selected(selection, probe)
    } else if selection == ServiceManagerSelection::Openrc {
        Err(linux_only())
    } else {
        Ok(ServiceManager::Systemd)
    }
}

pub fn select_service_manager(
    selection: ServiceManagerSelection,
    probe: &ServiceManagerProbe,
) -> (result: Result<ServiceManager, String>)
    ensures
        process::says(result, selected(selection, *probe)),
{
    match selection {
        ServiceManagerSelection::Systemd => Ok(ServiceManager::Systemd),
        ServiceManagerSelection::Openrc => Ok(ServiceManager::Openrc),
        ServiceManagerSelection::Auto => detect_service_manager(probe),
    }
}

pub fn detect_service_manager(probe: &ServiceManagerProbe) -> (result: Result<
    ServiceManager,
    String,
>)
    ensures
        process::says(result, detected(*probe)),
{
    if probe.openrc_runtime && probe.systemd_runtime {
        return Err(
            "cannot reliably detect the service manager: both /run/openrc and /run/systemd/system exist; pass --service-manager systemd|openrc explicitly".to_owned(),
        );
    }
    if probe.openrc_runtime {
        if probe.rc_service && probe.rc_update {
            return Ok(ServiceManager::Openrc);
        }
        return Err(
            "detected an OpenRC runtime (/run/openrc) but rc-service or rc-update is missing from PATH; install openrc or pass --service-manager explicitly".to_owned(),
        );
    }
    if probe.systemd_runtime {
        return Ok(ServiceManager::Systemd);
    }
    let openrc_tools = probe.rc_service && probe.rc_update;
    match (probe.systemctl, openrc_tools) {
        (true, false) => Ok(ServiceManager::Systemd),
        (false, true) => Ok(ServiceManager::Openrc),
        (true, true) => Err(
            "cannot reliably detect the service manager: both systemctl and the OpenRC tools (rc-service, rc-update) are available, but neither /run/systemd/system nor /run/openrc exists; pass --service-manager explicitly".to_owned(),
        ),
        (false, false) => Err(
            "no supported service manager detected (looked for /run/openrc, /run/systemd/system, systemctl, rc-service and rc-update); pass --service-manager explicitly".to_owned(),
        ),
    }
}

/// Whether the answer for this selection depends on the evidence of the host.
/// Where it does not, the host need not be looked at.
pub fn needs_probe(selection: ServiceManagerSelection, linux: bool) -> (result: bool)
    ensures
        result == (linux && selection == ServiceManagerSelection::Auto),
{
    match selection {
        ServiceManagerSelection::Auto => linux,
        _ => false,
    }
}

pub fn resolve_service_manager(
    selection: ServiceManagerSelection,
    linux: bool,
    probe: &ServiceManagerProbe,
) -> (result: Result<ServiceManager, String>)
    ensures
        process::says(result, resolved(selection, linux, *probe)),
{
    match selection {
        ServiceManagerSelection::Systemd => Ok(ServiceManager::Systemd),
        ServiceManagerSelection::Openrc => if linux {
            Ok(ServiceManager::Openrc)
        } else {
            Err("OpenRC service management is supported only on Linux".to_owned())
        },
        ServiceManagerSelection::Auto => if linux {
            select_service_manager(selection, probe)
        } else {
            Ok(ServiceManager::Systemd)
        },
    }
}

/// The path of a tool, or why there is none to use.
pub open spec fn tool_path(
    linux: bool,
    tool: Option<FsPath>,
    elsewhere: Seq<char>,
    missing: Seq<char>,
) -> Result<Seq<u8>, Seq<char>> {
    if !linux {
        Err(elsewhere)
    } else {
        match tool {
            Some(path) => Ok(path@),
            None => Err(missing),
        }
    }
}

pub open spec fn rc_service_of(tools: HostTools) -> Result<Seq<u8>, Seq<char>> {
    tool_path(
        tools.linux,
        tools.rc_service,
        linux_only(),
        "rc-service was not found in an absolute PATH entry; install openrc or use --service-manager systemd"@,
    )
}

pub open spec fn rc_update_of(tools: HostTools) -> Result<Seq<u8>, Seq<char>> {
    tool_path(
        tools.linux,
        tools.rc_update,
        linux_only(),
        "rc-update was not found in an absolute PATH entry; install openrc or use --service-manager systemd"@,
    )
}

pub open spec fn tail_of(tools: HostTools) -> Result<Seq<u8>, Seq<char>> {
    tool_path(
        tools.linux,
        tools.tail,
        "OpenRC log access is supported only on Linux"@,
        "tail was not found in an absolute PATH entry"@,
    )
}

/// `result` is the path, or says the error, that `expected` is.
pub open spec fn locates(
    result: Result<FsPath, String>,
    expected: Result<Seq<u8>, Seq<char>>,
) -> bool {
    match result {
        Ok(path) => expected == Ok::<Seq<u8>, Seq<char>>(path@),
        Err(error) => expected == Err::<Seq<u8>, Seq<char>>(error@),
    }
}

pub fn rc_service_path(tools: &HostTools) -> (result: Result<FsPath, String>)
    ensures
        locates(result, rc_service_of(*tools)),
{
    if !tools.linux {
        return Err("OpenRC service management is supported only on Linux".to_owned());
    }
    match &tools.rc_service {
        Some(path) => Ok(path.duplicate()),
        None => Err(
            "rc-service was not found in an absolute PATH entry; install openrc or use --service-manager systemd".to_owned(),
        ),
    }
}

pub fn rc_update_path(tools: &HostTools) -> (result: Result<FsPath, String>)
    ensures
        locates(result, rc_update_of(*tools)),
{
    if !tools.linux {
        return Err("OpenRC service management is supported only on Linux".to_owned());
    }
    match &tools.rc_update {
        Some(path) => Ok(path.duplicate()),
        None => Err(
            "rc-update was not found in an absolute PATH entry; install openrc or use --service-manager systemd".to_owned(),
        ),
    }
}

pub fn tail_path(tools: &HostTools) -> (result: Result<FsPath, String>)
    ensures
        locates(result, tail_of(*tools)),
{
    if !tools.linux {
        return Err("OpenRC log access is supported only on Linux".to_owned());
    }
    match &tools.tail {
        Some(path) => Ok(path.duplicate()),
        None => Err("tail was not found in an absolute PATH entry".to_owned()),
    }
}

// What holds of every selection and every host.

/// An explicit selection gets the manager that it asks for, whatever the host
/// shows.
pub proof fn law_explicit_selection_ignores_host(
    manager: ServiceManager,
    probe: ServiceManagerProbe,
)
    ensures
        selected(manager.selection(), probe) == Ok::<ServiceManager, Seq<char>>(manager),
{
}

/// Where no evidence is needed, all evidence gives the same answer.
pub proof fn law_no_probe_needed(
    selection: ServiceManagerSelection,
    linux: bool,
    one: ServiceManagerProbe,
    other: ServiceManagerProbe,
)
    requires
        !(linux && selection == ServiceManagerSelection::Auto),
    ensures
        resolved(selection, linux, one) == resolved(selection, linux, other),
{
}

/// Detection never picks a manager that the host does not show: OpenRC only
/// with both of its tools, systemd only running or with its tool, and neither
/// against the other's runtime.
pub proof fn law_detection_needs_evidence(probe: ServiceManagerProbe)
    ensures
        detected(probe) == Ok::<ServiceManager, Seq<char>>(ServiceManager::Openrc) ==> {
            &&& probe.rc_service && probe.rc_update
            &&& !probe.systemd_runtime
            &&& probe.openrc_runtime || !probe.systemctl
        },
        detected(probe) == Ok::<ServiceManager, Seq<char>>(ServiceManager::Systemd) ==> {
            &&& probe.systemd_runtime || probe.systemctl
            &&& !probe.openrc_runtime
        },
{
}

/// A manager's name selects that manager.
pub proof fn law_name_selects_manager(manager: ServiceManager)
    ensures
        ServiceManagerSelection::named(manager.name()) == Some(manager.selection()),
{
    reveal_strlit("auto");
    reveal_strlit("systemd");
    reveal_strlit("openrc");
    assert("systemd"@.len() == 7 && "openrc"@.len() == 6 && "auto"@.len() == 4);
}

}
