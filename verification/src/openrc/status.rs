//! The state of the service, in the words of `systemctl`.

use vstd::prelude::*;

use crate::openrc::manager;
use crate::openrc::manager::{rc_service_path, HostTools};
use crate::openrc::tools;
use crate::openrc::tools::{openrc_service_enabled, parse_openrc_status, rc_service_invocation};
use crate::path::{FsPath, PathEntry};
use crate::process;
use crate::process::{Exchange, Journal, ProcessExecutor};

verus! {

/// The state of a service, whichever service manager looks after it.
#[derive(Debug, Clone, PartialEq, Eq)]
pub struct SystemdStatus {
    pub loaded: String,
    pub active: String,
    pub enabled: String,
}

/// What the status says.
pub struct StatusView {
    pub loaded: Seq<char>,
    pub active: Seq<char>,
    pub enabled: Seq<char>,
}

impl View for SystemdStatus {
    type V = StatusView;

    open spec fn view(&self) -> StatusView {
        StatusView { loaded: self.loaded@, active: self.active@, enabled: self.enabled@ }
    }
}

/// Whether there is an init script, by what stands at its path.
pub open spec fn loaded_word(init_entry: PathEntry) -> Seq<char> {
    match init_entry {
        PathEntry::RegularFile | PathEntry::Symlink => "loaded"@,
        PathEntry::Directory | PathEntry::Other => "unknown"@,
        PathEntry::Missing | PathEntry::Unreadable(_) => "not-found"@,
    }
}

/// Whether the service is in the default runlevel, by what stands at its entry
/// there.
pub open spec fn enabled_word(runlevel_entry: PathEntry) -> Seq<char> {
    if tools::is_there(runlevel_entry) {
        "enabled"@
    } else {
        "disabled"@
    }
}

/// The state of a service of which the host shows this and of which rc-service
/// said `asked`.
pub open spec fn status_of(
    init_entry: PathEntry,
    runlevel_entry: PathEntry,
    asked: Exchange,
) -> StatusView {
    StatusView {
        loaded: loaded_word(init_entry),
        active: match asked.outcome {
            Ok(output) => tools::active_state(output.stdout),
            Err(_) => "unknown"@,
        },
        enabled: enabled_word(runlevel_entry),
    }
}

/// The state of a service that nothing is known of.
pub open spec fn unknown_status() -> StatusView {
    StatusView { loaded: "unknown"@, active: "unknown"@, enabled: "unknown"@ }
}

/// `status` is what is found by the runs `ran`: rc-service is asked once.
pub open spec fn finds_status(
    rc_service: Seq<u8>,
    init_entry: PathEntry,
    runlevel_entry: PathEntry,
    service: Seq<char>,
    ran: Seq<Exchange>,
    status: StatusView,
) -> bool {
    &&& ran.len() == 1
    &&& ran[0].invocation == tools::rc_service_run(rc_service, service, "status"@)
    &&& status == status_of(init_entry, runlevel_entry, ran[0])
}

fn loaded_text(init_entry: &PathEntry) -> (result: &'static str)
    ensures
        result@ == loaded_word(*init_entry),
{
    match init_entry {
        PathEntry::RegularFile | PathEntry::Symlink => "loaded",
        PathEntry::Directory | PathEntry::Other => "unknown",
        PathEntry::Missing | PathEntry::Unreadable(_) => "not-found",
    }
}

/// The state of the service. `init_entry` is what stands at the path of its
/// init script, `runlevel_entry` what stands at its entry in the default
/// runlevel.
pub fn query_openrc_service_status_with_executor<E: ProcessExecutor>(
    executor: &mut Journal<E>,
    rc_service: &FsPath,
    init_entry: &PathEntry,
    runlevel_entry: &PathEntry,
    service: &str,
) -> (result: SystemdStatus)
    ensures
        old(executor).history().is_prefix_of(final(executor).history()),
        finds_status(
            rc_service@,
            *init_entry,
            *runlevel_entry,
            service@,
            process::since(old(executor).history(), final(executor).history()),
            result@,
        ),
{
    let ghost before = executor.history();
    let asked = executor.execute(&rc_service_invocation(rc_service, service, "status"));
    proof {
        process::lemma_no_run(before);
        assert(executor.history().drop_last() =~= before);
        process::lemma_one_more_run(before, before, executor.history());
    }
    let active = match asked {
        Ok(output) => parse_openrc_status(output.stdout.as_str()),
        Err(_) => "unknown".to_owned(),
    };
    let enabled = if openrc_service_enabled(runlevel_entry) {
        "enabled"
    } else {
        "disabled"
    };
    SystemdStatus {
        loaded: loaded_text(init_entry).to_owned(),
        active,
        enabled: enabled.to_owned(),
    }
}

/// The state of the service by the rc-service of the host.
pub fn query_openrc_service_status<E: ProcessExecutor>(
    executor: &mut Journal<E>,
    tools: &HostTools,
    init_entry: &PathEntry,
    runlevel_entry: &PathEntry,
    service: &str,
) -> (result: SystemdStatus)
    ensures
        old(executor).history().is_prefix_of(final(executor).history()),
        ({
            let ran = process::since(old(executor).history(), final(executor).history());
            match manager::rc_service_of(*tools) {
                Ok(rc_service) => finds_status(
                    rc_service,
                    *init_entry,
                    *runlevel_entry,
                    service@,
                    ran,
                    result@,
                ),
                Err(_) => ran.len() == 0 && result@ == unknown_status(),
            }
        }),
{
    proof {
        process::lemma_no_run(executor.history());
    }
    match rc_service_path(tools) {
        Ok(rc_service) => query_openrc_service_status_with_executor(
            executor,
            &rc_service,
            init_entry,
            runlevel_entry,
            service,
        ),
        Err(_) => SystemdStatus {
            loaded: "unknown".to_owned(),
            active: "unknown".to_owned(),
            enabled: "unknown".to_owned(),
        },
    }
}

/// Every status is in the words of `systemctl`, whatever the host answers.
pub proof fn law_status_is_in_known_words(
    rc_service: Seq<u8>,
    init_entry: PathEntry,
    runlevel_entry: PathEntry,
    service: Seq<char>,
    ran: Seq<Exchange>,
    status: StatusView,
)
    requires
        finds_status(rc_service, init_entry, runlevel_entry, service, ran, status),
    ensures
        status.loaded == "loaded"@ || status.loaded == "not-found"@ || status.loaded == "unknown"@,
        status.active == "active"@ || status.active == "inactive"@ || status.active == "failed"@
            || status.active == "activating"@ || status.active == "deactivating"@ || status.active
            == "unknown"@,
        status.enabled == "enabled"@ || status.enabled == "disabled"@,
{
}

}
