//! Installing the service: its init script is written, the service put into
//! the default runlevel and started, and all of that undone where a step
//! fails.

use vstd::prelude::*;
use vstd::utf8;

use crate::openrc::manager;
use crate::openrc::manager::{rc_service_path, rc_update_path, HostTools};
use crate::openrc::plan;
use crate::openrc::plan::{
    execute_openrc_install_plan, resume_after_rollback, rollback_openrc_install,
    OpenrcInstallSnapshot,
};
use crate::openrc::script;
use crate::openrc::script::{validate_openrc_identity, OPENRC_INIT_DIR};
use crate::openrc::tools;
use crate::openrc::tools::{
    openrc_runlevel_entry, openrc_service_active, openrc_service_enabled, OPENRC_RUNLEVELS_DIR,
};
use crate::path;
use crate::path::{FsPath, PathEntry};
use crate::process;
use crate::process::{
    install_error_with_rollback, Exchange, InvocationView, Journal, ProcessExecutor, UndoStep,
};
use crate::text;

verus! {

/// What an installation came to.
#[derive(Debug, Clone, PartialEq, Eq)]
pub struct OpenrcInstallOutcome {
    pub service: String,
    pub enabled: bool,
    pub started: bool,
}

// Whether an init script may be written.

/// What stands where the init script is to be written, where one may be.
#[derive(Debug, Clone, Copy, PartialEq, Eq, Structural)]
pub enum ExistingUnitKind {
    Absent,
    ManagedRegularFile,
}

/// Whether a service's file may be written over what stands at its path, or
/// why not. Only a regular file is ever replaced, and only where that was
/// asked for.
pub open spec fn preflight(
    service_file: Seq<u8>,
    entry: PathEntry,
    overwrite: bool,
    what: Seq<char>,
) -> Result<ExistingUnitKind, Seq<char>> {
    let at = path::shown(service_file);
    match entry {
        PathEntry::Missing => Ok(ExistingUnitKind::Absent),
        PathEntry::RegularFile => if overwrite {
            Ok(ExistingUnitKind::ManagedRegularFile)
        } else {
            Err(at + " already exists; pass --overwrite to replace it"@)
        },
        PathEntry::Symlink => Err("refusing to overwrite "@ + what + " symlink: "@ + at),
        PathEntry::Directory | PathEntry::Other => Err(
            "refusing to overwrite non-regular "@ + what + " path: "@ + at,
        ),
        PathEntry::Unreadable(error) => Err("failed to inspect "@ + at + ": "@ + error@),
    }
}

pub fn preflight_service_path(
    service_file: &FsPath,
    entry: &PathEntry,
    overwrite: bool,
    what: &str,
) -> (result: Result<ExistingUnitKind, String>)
    ensures
        process::says(result, preflight(service_file@, *entry, overwrite, what@)),
{
    match entry {
        PathEntry::Missing => Ok(ExistingUnitKind::Absent),
        PathEntry::RegularFile => if overwrite {
            Ok(ExistingUnitKind::ManagedRegularFile)
        } else {
            let mut message = service_file.display();
            message.append(" already exists; pass --overwrite to replace it");
            Err(message)
        },
        PathEntry::Symlink => {
            let mut message = "refusing to overwrite ".to_owned();
            message.append(what);
            message.append(" symlink: ");
            message.append(service_file.display().as_str());
            Err(message)
        },
        PathEntry::Directory | PathEntry::Other => {
            let mut message = "refusing to overwrite non-regular ".to_owned();
            message.append(what);
            message.append(" path: ");
            message.append(service_file.display().as_str());
            Err(message)
        },
        PathEntry::Unreadable(error) => {
            let mut message = "failed to inspect ".to_owned();
            message.append(service_file.display().as_str());
            message.append(": ");
            message.append(error.as_str());
            Err(message)
        },
    }
}

// The installation as a whole. What touches files is done by the caller: each
// step demands one thing of it and takes the report on that.

/// The permission bits of an init script, which is run.
pub const OPENRC_INIT_MODE: u32 = 0o755;

/// An installation that failed and is being undone.
#[derive(Debug, Clone, PartialEq, Eq)]
pub struct OpenrcInstallRollback {
    pub snapshot: OpenrcInstallSnapshot,
    /// Why the installation failed.
    pub error: String,
    /// What went wrong so far in undoing it.
    pub errors: Vec<String>,
}

/// What an installation asks of its caller next.
#[derive(Debug, PartialEq, Eq)]
pub enum InstallDemand {
    /// See what stands at the path and report it as `Inspected`.
    Inspect(FsPath),
    /// Read the file and report its content as `Read`.
    Read(FsPath),
    /// See what stands at the path and report it as `RunlevelInspected`.
    InspectRunlevel { entry: FsPath, previous_content: Option<String> },
    /// Write the file in one step, with these permission bits, and over an
    /// existing one only where `overwrite` says so; report it as `Written`.
    Write {
        path: FsPath,
        content: String,
        overwrite: bool,
        mode: u32,
        snapshot: OpenrcInstallSnapshot,
    },
    /// Give the file back the content in the snapshot, or remove it where
    /// there was none; report it as `Restored`.
    Restore { path: FsPath, rollback: OpenrcInstallRollback },
    /// The installation is over.
    Done(Result<OpenrcInstallOutcome, String>),
}

/// What the caller of an installation reports.
#[derive(Debug, PartialEq, Eq)]
pub enum InstallReport {
    /// The installation was asked for.
    Requested,
    Inspected(PathEntry),
    Read(Result<String, String>),
    RunlevelInspected { previous_content: Option<String>, entry: PathEntry },
    Written { snapshot: OpenrcInstallSnapshot, written: Result<(), String> },
    Restored { rollback: OpenrcInstallRollback, restored: Result<(), String> },
}

/// What is to be installed, and with what.
pub struct InstallOrder {
    pub rc_service: Seq<u8>,
    pub rc_update: Seq<u8>,
    pub init_file: Seq<u8>,
    pub runlevel_dir: Seq<u8>,
    pub service: Seq<char>,
    pub content: Seq<char>,
    pub overwrite: bool,
    pub no_start: bool,
}

impl InstallOrder {
    pub open spec fn steps(self, snapshot: OpenrcInstallSnapshot) -> Seq<InvocationView> {
        plan::install_steps(self.rc_service, self.rc_update, self.service, snapshot, self.no_start)
    }

    pub open spec fn undo_steps(self, snapshot: OpenrcInstallSnapshot) -> Seq<UndoStep> {
        plan::undo_steps(self.rc_service, self.rc_update, self.service, snapshot, !self.no_start)
    }

    pub open spec fn resume_steps(self, snapshot: OpenrcInstallSnapshot) -> Seq<UndoStep> {
        plan::resume_steps(self.rc_service, self.service, snapshot)
    }
}

/// The demand ends the installation with this failure.
pub open spec fn gives_up(demand: InstallDemand, fault: Seq<char>) -> bool {
    demand matches InstallDemand::Done(result) && process::fails_with(result, fault)
}

/// A name that is none is refused before anything is looked at.
pub open spec fn answers_request(order: InstallOrder, demand: InstallDemand) -> bool {
    match script::identity_fault("service name"@, order.service) {
        Some(fault) => gives_up(demand, fault),
        None => demand matches InstallDemand::Inspect(at) && at@ == order.init_file,
    }
}

/// What stands in the way is refused; a script that is to be replaced is read
/// first.
pub open spec fn answers_inspection(
    order: InstallOrder,
    entry: PathEntry,
    demand: InstallDemand,
) -> bool {
    match preflight(order.init_file, entry, order.overwrite, "OpenRC service"@) {
        Ok(ExistingUnitKind::ManagedRegularFile) => demand matches InstallDemand::Read(at) && at@
            == order.init_file,
        Ok(ExistingUnitKind::Absent) => asks_for_runlevel(order, None, demand),
        Err(fault) => gives_up(demand, fault),
    }
}

pub open spec fn asks_for_runlevel(
    order: InstallOrder,
    previous_content: Option<Seq<char>>,
    demand: InstallDemand,
) -> bool {
    demand matches InstallDemand::InspectRunlevel { entry, previous_content: kept } && entry@
        == tools::runlevel_entry(order.runlevel_dir, order.service) && text::text_of(kept)
        == previous_content
}

pub open spec fn answers_reading(
    order: InstallOrder,
    read: Result<String, String>,
    demand: InstallDemand,
) -> bool {
    match read {
        Ok(content) => asks_for_runlevel(order, Some(content@), demand),
        Err(error) => gives_up(
            demand,
            "failed to read "@ + path::shown(order.init_file) + ": "@ + error@,
        ),
    }
}

/// Only a service that has an init script is asked about; then the new script
/// is to be written.
pub open spec fn answers_runlevel(
    order: InstallOrder,
    previous_content: Option<String>,
    entry: PathEntry,
    ran: Seq<Exchange>,
    demand: InstallDemand,
) -> bool {
    &&& if previous_content is Some {
        ran.len() == 1 && ran[0].invocation == tools::rc_service_run(
            order.rc_service,
            order.service,
            "status"@,
        )
    } else {
        ran.len() == 0
    }
    &&& demand matches InstallDemand::Write { path, content, overwrite, mode, snapshot }
    &&& path@ == order.init_file
    &&& content@ == order.content
    &&& overwrite == order.overwrite
    &&& mode == OPENRC_INIT_MODE
    &&& snapshot == (OpenrcInstallSnapshot {
        previous_content,
        enabled: tools::is_there(entry),
        active: ran.len() == 1 && ran[0].succeeded(),
    })
}

/// The plan is run. Where it fails it is undone at once, up to the restoring
/// of the init script.
pub open spec fn answers_writing(
    order: InstallOrder,
    snapshot: OpenrcInstallSnapshot,
    written: Result<(), String>,
    ran: Seq<Exchange>,
    demand: InstallDemand,
) -> bool {
    match written {
        Err(error) => ran.len() == 0 && gives_up(demand, error@),
        Ok(_) => exists|n: int|
            {
                let plan = #[trigger] ran.take(n);
                let undo = ran.skip(n);
                &&& 0 <= n <= ran.len()
                &&& process::runs_until_fault(order.steps(snapshot), plan)
                &&& match plan::plan_fault(order.service, order.no_start, plan) {
                    None => {
                        &&& undo.len() == 0
                        &&& demand matches InstallDemand::Done(Ok(outcome))
                        &&& outcome.service@ == order.service
                        &&& outcome.enabled
                        &&& outcome.started == !order.no_start
                    },
                    Some(fault) => {
                        &&& process::undoes(order.undo_steps(snapshot), undo)
                        &&& demand matches InstallDemand::Restore { path, rollback }
                        &&& path@ == order.init_file
                        &&& rollback.snapshot == snapshot
                        &&& rollback.error@ == fault
                        &&& text::texts(rollback.errors@) == process::notes(
                            Seq::empty(),
                            order.undo_steps(snapshot),
                            undo,
                        )
                    },
                }
            },
    }
}

/// The rest is undone, and the failure of the installation told with all that
/// went wrong in undoing it.
pub open spec fn answers_restoring(
    order: InstallOrder,
    rollback: OpenrcInstallRollback,
    restored: Result<(), String>,
    ran: Seq<Exchange>,
    demand: InstallDemand,
) -> bool {
    let steps = order.resume_steps(rollback.snapshot);
    &&& process::undoes(steps, ran)
    &&& gives_up(
        demand,
        process::install_fault(
            "OpenRC service "@ + order.service,
            rollback.error@,
            process::notes(
                plan::with_restore_error(text::texts(rollback.errors@), restored),
                steps,
                ran,
            ),
        ),
    )
}

/// `demand` is the answer to `report`, by the runs `ran`.
pub open spec fn install_answers(
    order: InstallOrder,
    report: InstallReport,
    ran: Seq<Exchange>,
    demand: InstallDemand,
) -> bool {
    match report {
        InstallReport::Requested => ran.len() == 0 && answers_request(order, demand),
        InstallReport::Inspected(entry) => ran.len() == 0 && answers_inspection(
            order,
            entry,
            demand,
        ),
        InstallReport::Read(read) => ran.len() == 0 && answers_reading(order, read, demand),
        InstallReport::RunlevelInspected { previous_content, entry } => answers_runlevel(
            order,
            previous_content,
            entry,
            ran,
            demand,
        ),
        InstallReport::Written { snapshot, written } => answers_writing(
            order,
            snapshot,
            written,
            ran,
            demand,
        ),
        InstallReport::Restored { rollback, restored } => answers_restoring(
            order,
            rollback,
            restored,
            ran,
            demand,
        ),
    }
}

/// One step of an installation: what is demanded after `report`.
pub fn install_openrc_service_with_executor<E: ProcessExecutor>(
    executor: &mut Journal<E>,
    rc_service: &FsPath,
    rc_update: &FsPath,
    init_file: &FsPath,
    runlevel_dir: &FsPath,
    service: &str,
    content: &str,
    overwrite: bool,
    no_start: bool,
    report: InstallReport,
) -> (result: InstallDemand)
    ensures
        old(executor).history().is_prefix_of(final(executor).history()),
        install_answers(
            (InstallOrder {
                rc_service: rc_service@,
                rc_update: rc_update@,
                init_file: init_file@,
                runlevel_dir: runlevel_dir@,
                service: service@,
                content: content@,
                overwrite,
                no_start,
            }),
            report,
            process::since(old(executor).history(), final(executor).history()),
            result,
        ),
{
    let ghost before = executor.history();
    proof {
        process::lemma_no_run(before);
    }
    match report {
        InstallReport::Requested => match validate_openrc_identity("service name", service) {
            Ok(_) => InstallDemand::Inspect(init_file.duplicate()),
            Err(error) => InstallDemand::Done(Err(error)),
        },
        InstallReport::Inspected(entry) => {
            match preflight_service_path(init_file, &entry, overwrite, "OpenRC service") {
                Ok(ExistingUnitKind::ManagedRegularFile) => InstallDemand::Read(
                    init_file.duplicate(),
                ),
                Ok(ExistingUnitKind::Absent) => InstallDemand::InspectRunlevel {
                    entry: openrc_runlevel_entry(runlevel_dir, service),
                    previous_content: None,
                },
                Err(error) => InstallDemand::Done(Err(error)),
            }
        },
        InstallReport::Read(read) => match read {
            Ok(content) => InstallDemand::InspectRunlevel {
                entry: openrc_runlevel_entry(runlevel_dir, service),
                previous_content: Some(content),
            },
            Err(error) => {
                let mut message = "failed to read ".to_owned();
                message.append(init_file.display().as_str());
                message.append(": ");
                message.append(error.as_str());
                InstallDemand::Done(Err(message))
            },
        },
        InstallReport::RunlevelInspected { previous_content, entry } => {
            let enabled = openrc_service_enabled(&entry);
            let active = if previous_content.is_some() {
                let running = openrc_service_active(executor, rc_service, service);
                proof {
                    process::lemma_one_more_run(before, before, executor.history());
                }
                running
            } else {
                false
            };
            InstallDemand::Write {
                path: init_file.duplicate(),
                content: content.to_owned(),
                overwrite,
                mode: OPENRC_INIT_MODE,
                snapshot: OpenrcInstallSnapshot { previous_content, enabled, active },
            }
        },
        InstallReport::Written { snapshot, written } => {
            match written {
                Ok(_) => {},
                Err(error) => return InstallDemand::Done(Err(error)),
            }
            let plan = execute_openrc_install_plan(
                executor,
                rc_service,
                rc_update,
                service,
                &snapshot,
                no_start,
            );
            let ghost planned = executor.history();
            let ghost n = planned.len() - before.len();
            match plan {
                Ok(_) => {
                    proof {
                        let ran = process::since(before, planned);
                        assert(ran.take(n) =~= ran);
                    }
                    InstallDemand::Done(
                        Ok(
                            OpenrcInstallOutcome {
                                service: service.to_owned(),
                                enabled: true,
                                started: !no_start,
                            },
                        ),
                    )
                },
                Err(error) => {
                    let errors = rollback_openrc_install(
                        executor,
                        rc_service,
                        rc_update,
                        service,
                        &snapshot,
                        !no_start,
                    );
                    proof {
                        process::lemma_runs_in_turn(before, planned, executor.history());
                    }
                    InstallDemand::Restore {
                        path: init_file.duplicate(),
                        rollback: OpenrcInstallRollback { snapshot, error, errors },
                    }
                },
            }
        },
        InstallReport::Restored { rollback, restored } => {
            let errors = resume_after_rollback(
                executor,
                rc_service,
                service,
                &rollback.snapshot,
                rollback.errors,
                restored,
            );
            let mut what = "OpenRC service ".to_owned();
            what.append(service);
            InstallDemand::Done(
                Err(install_error_with_rollback(what.as_str(), rollback.error, errors)),
            )
        },
    }
}

// On the host as it is.

/// Why nothing can be installed at `init_file` on this host, if there is a
/// reason: OpenRC would not find the script there, or a tool is missing.
pub open spec fn setup_fault(tools: HostTools, init_file: Seq<u8>) -> Option<Seq<char>> {
    if !path::stands_in(init_file, utf8::encode_utf8(OPENRC_INIT_DIR@)) {
        Some(
            "OpenRC init scripts must live in "@ + OPENRC_INIT_DIR@ + ": "@ + path::shown(
                init_file,
            ),
        )
    } else {
        match manager::rc_service_of(tools) {
            Err(fault) => Some(fault),
            Ok(_) => match manager::rc_update_of(tools) {
                Err(fault) => Some(fault),
                Ok(_) => None,
            },
        }
    }
}

/// One step of an installation with the tools and the runlevels of the host.
pub fn install_openrc_service<E: ProcessExecutor>(
    executor: &mut Journal<E>,
    tools: &HostTools,
    init_file: &FsPath,
    service: &str,
    content: &str,
    overwrite: bool,
    no_start: bool,
    report: InstallReport,
) -> (result: InstallDemand)
    ensures
        old(executor).history().is_prefix_of(final(executor).history()),
        ({
            let ran = process::since(old(executor).history(), final(executor).history());
            match setup_fault(*tools, init_file@) {
                Some(fault) => ran.len() == 0 && gives_up(result, fault),
                None => install_answers(
                    InstallOrder {
                        rc_service: manager::rc_service_of(*tools)->Ok_0,
                        rc_update: manager::rc_update_of(*tools)->Ok_0,
                        init_file: init_file@,
                        runlevel_dir: utf8::encode_utf8(OPENRC_RUNLEVELS_DIR@),
                        service: service@,
                        content: content@,
                        overwrite,
                        no_start,
                    },
                    report,
                    ran,
                    result,
                ),
            }
        }),
{
    proof {
        process::lemma_no_run(executor.history());
    }
    if !init_file.stands_in(&FsPath::new(OPENRC_INIT_DIR)) {
        let mut message = "OpenRC init scripts must live in ".to_owned();
        message.append(OPENRC_INIT_DIR);
        message.append(": ");
        message.append(init_file.display().as_str());
        return InstallDemand::Done(Err(message));
    }
    let rc_service = match rc_service_path(tools) {
        Ok(path) => path,
        Err(error) => return InstallDemand::Done(Err(error)),
    };
    let rc_update = match rc_update_path(tools) {
        Ok(path) => path,
        Err(error) => return InstallDemand::Done(Err(error)),
    };
    install_openrc_service_with_executor(
        executor,
        &rc_service,
        &rc_update,
        init_file,
        &FsPath::new(OPENRC_RUNLEVELS_DIR),
        service,
        content,
        overwrite,
        no_start,
        report,
    )
}

// What holds of every installation.

/// Once the init script is written, the installation either succeeds or has
/// the script restored to what it was before.
pub proof fn law_written_script_is_kept_or_restored(
    order: InstallOrder,
    snapshot: OpenrcInstallSnapshot,
    ran: Seq<Exchange>,
    demand: InstallDemand,
)
    requires
        install_answers(
            order,
            InstallReport::Written { snapshot, written: Ok(()) },
            ran,
            demand,
        ),
    ensures
        demand matches InstallDemand::Done(result) ==> result is Ok,
        demand !is Done ==> (demand matches InstallDemand::Restore { path, rollback } && path@
            == order.init_file && rollback.snapshot == snapshot),
{
}

/// No tool is run before the init script may be written, and a service without
/// an init script is not asked about.
pub proof fn law_nothing_is_run_before_the_script_may_be_written(
    order: InstallOrder,
    report: InstallReport,
    ran: Seq<Exchange>,
    demand: InstallDemand,
)
    requires
        install_answers(order, report, ran, demand),
        match report {
            InstallReport::Requested | InstallReport::Inspected(_) | InstallReport::Read(_) => true,
            InstallReport::RunlevelInspected { previous_content, .. } => previous_content is None,
            _ => false,
        },
    ensures
        ran.len() == 0,
{
}

/// A file is replaced only where that was asked for, and nothing but a regular
/// file ever is: everything else that stands at the path ends the installation.
pub proof fn law_only_a_regular_file_is_replaced(
    order: InstallOrder,
    entry: PathEntry,
    ran: Seq<Exchange>,
    demand: InstallDemand,
)
    requires
        install_answers(order, InstallReport::Inspected(entry), ran, demand),
        !(entry is Missing),
        !(entry is RegularFile && order.overwrite),
    ensures
        demand matches InstallDemand::Done(result) && result is Err,
{
}

/// An installation that was undone never ends in success.
pub proof fn law_undone_installation_fails(
    order: InstallOrder,
    rollback: OpenrcInstallRollback,
    restored: Result<(), String>,
    ran: Seq<Exchange>,
    demand: InstallDemand,
)
    requires
        install_answers(order, InstallReport::Restored { rollback, restored }, ran, demand),
    ensures
        demand matches InstallDemand::Done(result) && result is Err,
{
}

}
