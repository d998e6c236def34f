//! Starting, stopping, restarting and reloading the service.

use vstd::prelude::*;

use crate::openrc::manager;
use crate::openrc::manager::{rc_service_path, HostTools};
use crate::openrc::script;
use crate::openrc::script::validate_openrc_identity;
use crate::openrc::tools;
use crate::openrc::tools::rc_service_invocation;
use crate::path::FsPath;
use crate::process;
use crate::process::{execute_required, Exchange, InvocationView, Journal, ProcessExecutor};

verus! {

/// What can be asked of an installed service.
#[derive(Debug, Clone, Copy, PartialEq, Eq, Structural)]
pub enum ServiceControl {
    Start,
    Stop,
    Restart,
    Reload,
}

impl ServiceControl {
    /// The action of rc-service that does it.
    pub open spec fn action(self) -> Seq<char> {
        match self {
            ServiceControl::Start => "start"@,
            ServiceControl::Stop => "stop"@,
            ServiceControl::Restart => "restart"@,
            ServiceControl::Reload => "reload"@,
        }
    }

    pub fn as_str(self) -> (result: &'static str)
        ensures
            result@ == self.action(),
    {
        match self {
            ServiceControl::Start => "start",
            ServiceControl::Stop => "stop",
            ServiceControl::Restart => "restart",
            ServiceControl::Reload => "reload",
        }
    }
}

/// The runs that `control` takes: the action itself and, where the service
/// should run afterwards, a look at whether it does.
pub open spec fn control_steps(
    rc_service: Seq<u8>,
    service: Seq<char>,
    control: ServiceControl,
) -> Seq<InvocationView> {
    let act = tools::rc_service_run(rc_service, service, control.action());
    match control {
        ServiceControl::Start | ServiceControl::Restart => seq![
            act,
            tools::rc_service_run(rc_service, service, "status"@),
        ],
        ServiceControl::Stop | ServiceControl::Reload => seq![act],
    }
}

/// `result` is what comes of controlling the service by the runs `ran`: a name
/// that is none runs nothing; otherwise the steps are run up to the first that
/// fails, which says why.
pub open spec fn controls(
    rc_service: Seq<u8>,
    service: Seq<char>,
    control: ServiceControl,
    ran: Seq<Exchange>,
    result: Result<(), String>,
) -> bool {
    match script::identity_fault("service name"@, service) {
        Some(fault) => ran.len() == 0 && process::fails_with(result, fault),
        None => {
            &&& process::runs_until_fault(control_steps(rc_service, service, control), ran)
            &&& match process::fault_of(ran) {
                Some(fault) => process::fails_with(result, fault),
                None => result is Ok,
            }
        },
    }
}

pub fn control_openrc_service_with_executor<E: ProcessExecutor>(
    executor: &mut Journal<E>,
    rc_service: &FsPath,
    service: &str,
    control: ServiceControl,
) -> (result: Result<(), String>)
    ensures
        old(executor).history().is_prefix_of(final(executor).history()),
        controls(
            rc_service@,
            service@,
            control,
            process::since(old(executor).history(), final(executor).history()),
            result,
        ),
{
    let ghost before = executor.history();
    proof {
        process::lemma_no_run(before);
    }
    match validate_openrc_identity("service name", service) {
        Ok(_) => {},
        Err(error) => return Err(error),
    }
    let act = execute_required(
        executor,
        &rc_service_invocation(rc_service, service, control.as_str()),
    );
    let ghost acted = executor.history();
    proof {
        process::lemma_one_more_run(before, before, acted);
    }
    match act {
        Ok(_) => {},
        Err(error) => return Err(error),
    }
    match control {
        ServiceControl::Start | ServiceControl::Restart => {
            let status = execute_required(
                executor,
                &rc_service_invocation(rc_service, service, "status"),
            );
            proof {
                process::lemma_one_more_run(before, acted, executor.history());
            }
            match status {
                Ok(_) => {},
                Err(error) => return Err(error),
            }
        },
        ServiceControl::Stop | ServiceControl::Reload => {},
    }
    Ok(())
}

/// Controls the service with the rc-service of the host.
pub fn control_openrc_service<E: ProcessExecutor>(
    executor: &mut Journal<E>,
    tools: &HostTools,
    service: &str,
    control: ServiceControl,
) -> (result: Result<(), String>)
    ensures
        old(executor).history().is_prefix_of(final(executor).history()),
        ({
            let ran = process::since(old(executor).history(), final(executor).history());
            match manager::rc_service_of(*tools) {
                Ok(rc_service) => controls(rc_service, service@, control, ran, result),
                Err(fault) => ran.len() == 0 && process::fails_with(result, fault),
            }
        }),
{
    proof {
        process::lemma_no_run(executor.history());
    }
    match rc_service_path(tools) {
        Ok(rc_service) => control_openrc_service_with_executor(
            executor,
            &rc_service,
            service,
            control,
        ),
        Err(error) => Err(error),
    }
}

/// Where controlling the service succeeds, every step was run and succeeded;
/// a service that was started or restarted was seen running.
pub proof fn law_controlled_service_was_seen_running(
    rc_service: Seq<u8>,
    service: Seq<char>,
    control: ServiceControl,
    ran: Seq<Exchange>,
    result: Result<(), String>,
)
    requires
        controls(rc_service, service, control, ran, result),
        result is Ok,
    ensures
        ran.len() == control_steps(rc_service, service, control).len(),
        forall|i: int| 0 <= i < ran.len() ==> (#[trigger] ran[i]).succeeded(),
        control == ServiceControl::Start || control == ServiceControl::Restart
            ==> ran.last().invocation == tools::rc_service_run(rc_service, service, "status"@),
{
}

}
