//! Laws of choosing the service manager and finding its tools.

use vstd::prelude::*;

use crate::openrc::manager;
use crate::openrc::manager::{
    HostTools, ServiceManager, ServiceManagerProbe, ServiceManagerSelection,
};
use crate::path::FsPath;

verus! {

/// The option has three values, each of which asks for its own selection.
pub proof fn law_option_values(value: Seq<char>, selection: ServiceManagerSelection)
    ensures
        ServiceManagerSelection::named(value) == Some(selection) <==> match selection {
            ServiceManagerSelection::Auto => value == "auto"@,
            ServiceManagerSelection::Systemd => value == "systemd"@,
            ServiceManagerSelection::Openrc => value == "openrc"@,
        },
        ServiceManager::Systemd.name() == "systemd"@,
        ServiceManager::Openrc.name() == "openrc"@,
{
    reveal_strlit("auto");
    reveal_strlit("systemd");
    reveal_strlit("openrc");
    assert("auto"@.len() != "systemd"@.len());
    assert("auto"@.len() != "openrc"@.len());
    assert("openrc"@.len() != "systemd"@.len());
}

/// OpenRC is detected where its tools are there and nothing speaks for systemd:
/// systemd does not run, and its tool is missing or OpenRC runs. Systemd is
/// detected where OpenRC does not run and systemd does, or only systemd's tool
/// is there.
pub proof fn law_detection_by_evidence(probe: ServiceManagerProbe)
    ensures
        manager::detected(probe) == Ok::<ServiceManager, Seq<char>>(ServiceManager::Openrc)
            <==> probe.rc_service && probe.rc_update && !probe.systemd_runtime && (
        probe.openrc_runtime || !probe.systemctl),
        manager::detected(probe) == Ok::<ServiceManager, Seq<char>>(ServiceManager::Systemd)
            <==> !probe.openrc_runtime && (probe.systemd_runtime || (probe.systemctl && !(
        probe.rc_service && probe.rc_update))),
{
}

/// Why nothing is detected: two managers run, a running OpenRC lacks a tool, the
/// tools of both are there with neither running, or nothing is there.
pub proof fn law_failed_detection_says_why(probe: ServiceManagerProbe)
    requires
        manager::detected(probe) is Err,
    ensures
        ({
            let error = manager::detected(probe)->Err_0;
            &&& probe.openrc_runtime && probe.systemd_runtime ==> error
                == "cannot reliably detect the service manager: both /run/openrc and /run/systemd/system exist; pass --service-manager systemd|openrc explicitly"@
            &&& probe.openrc_runtime && !probe.systemd_runtime ==> error
                == "detected an OpenRC runtime (/run/openrc) but rc-service or rc-update is missing from PATH; install openrc or pass --service-manager explicitly"@
            &&& !probe.openrc_runtime && probe.systemctl ==> error
                == "cannot reliably detect the service manager: both systemctl and the OpenRC tools (rc-service, rc-update) are available, but neither /run/systemd/system nor /run/openrc exists; pass --service-manager explicitly"@
            &&& !probe.openrc_runtime && !probe.systemctl ==> error
                == "no supported service manager detected (looked for /run/openrc, /run/systemd/system, systemctl, rc-service and rc-update); pass --service-manager explicitly"@
        }),
{
}

/// An explicit selection gets what it asks for, but OpenRC only on Linux;
/// `auto` goes by the evidence on Linux and means systemd elsewhere.
pub proof fn law_selections_resolve(
    selection: ServiceManagerSelection,
    linux: bool,
    probe: ServiceManagerProbe,
)
    ensures
        manager::resolved(ServiceManagerSelection::Systemd, linux, probe) == Ok::<
            ServiceManager,
            Seq<char>,
        >(ServiceManager::Systemd),
        manager::resolved(ServiceManagerSelection::Openrc, true, probe) == Ok::<
            ServiceManager,
            Seq<char>,
        >(ServiceManager::Openrc),
        manager::resolved(ServiceManagerSelection::Openrc, false, probe) == Err::<
            ServiceManager,
            Seq<char>,
        >("OpenRC service management is supported only on Linux"@),
        manager::resolved(ServiceManagerSelection::Auto, false, probe) == Ok::<
            ServiceManager,
            Seq<char>,
        >(ServiceManager::Systemd),
        manager::resolved(ServiceManagerSelection::Auto, true, probe) == manager::detected(probe),
        manager::selected(ServiceManagerSelection::Auto, probe) == manager::detected(probe),
        manager::selected(ServiceManagerSelection::Systemd, probe) == Ok::<
            ServiceManager,
            Seq<char>,
        >(ServiceManager::Systemd),
        manager::selected(ServiceManagerSelection::Openrc, probe) == Ok::<
            ServiceManager,
            Seq<char>,
        >(ServiceManager::Openrc),
{
}

/// A tool is used exactly where the host runs Linux and the tool was found, and
/// then at the path where it was.
pub proof fn law_tools_are_used_where_they_were_found(
    tools: HostTools,
    found: FsPath,
    result: Result<FsPath, String>,
)
    ensures
        tools.linux && tools.rc_service == Some(found) ==> manager::rc_service_of(tools) == Ok::<
            Seq<u8>,
            Seq<char>,
        >(found.bytes@),
        tools.linux && tools.rc_update == Some(found) ==> manager::rc_update_of(tools) == Ok::<
            Seq<u8>,
            Seq<char>,
        >(found.bytes@),
        tools.linux && tools.tail == Some(found) ==> manager::tail_of(tools) == Ok::<
            Seq<u8>,
            Seq<char>,
        >(found.bytes@),
        !tools.linux ==> manager::rc_service_of(tools) == Err::<Seq<u8>, Seq<char>>(
            "OpenRC service management is supported only on Linux"@,
        ) && manager::rc_update_of(tools) == manager::rc_service_of(tools) && manager::tail_of(
            tools,
        ) == Err::<Seq<u8>, Seq<char>>("OpenRC log access is supported only on Linux"@),
        tools.linux && tools.rc_service is None ==> manager::rc_service_of(tools) == Err::<
            Seq<u8>,
            Seq<char>,
        >(
            "rc-service was not found in an absolute PATH entry; install openrc or use --service-manager systemd"@,
        ),
        tools.linux && tools.rc_update is None ==> manager::rc_update_of(tools) == Err::<
            Seq<u8>,
            Seq<char>,
        >(
            "rc-update was not found in an absolute PATH entry; install openrc or use --service-manager systemd"@,
        ),
        tools.linux && tools.tail is None ==> manager::tail_of(tools) == Err::<
            Seq<u8>,
            Seq<char>,
        >("tail was not found in an absolute PATH entry"@),
        manager::locates(result, Ok(found.bytes@)) <==> (result matches Ok(path) && path.bytes@
            == found.bytes@),
        forall|error: Seq<char>| #[trigger]
            manager::locates(result, Err(error)) <==> (result matches Err(said) && said@ == error),
{
}

}
