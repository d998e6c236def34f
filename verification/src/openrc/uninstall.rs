//! Removing the service: it is stopped, taken out of the default runlevel and
//! its init script removed, and what was done undone where a step fails.

use vstd::prelude::*;
use vstd::utf8;

use crate::openrc::manager;
use crate::openrc::manager::{rc_service_path, rc_update_path, HostTools};
use crate::openrc::script;
use crate::openrc::script::validate_openrc_identity;
use crate::openrc::tools;
use crate::openrc::tools::{
    openrc_runlevel_entry, openrc_service_active, openrc_service_enabled, rc_service_invocation,
    rc_update_invocation, OPENRC_RUNLEVELS_DIR,
};
use crate::path;
use crate::path::{FsPath, PathEntry};
use crate::process;
use crate::process::{
    best_effort_execute, execute_required, Exchange, InvocationView, Journal, ProcessExecutor,
    UndoStep,
};
use crate::text;
use crate::text::{byte_len, join};

verus! {

/// What an uninstallation came to.
#[derive(Debug, Clone, PartialEq, Eq)]
pub struct OpenrcUninstallOutcome {
    pub service: String,
    /// Whether there was an init script to remove.
    pub removed: bool,
}

// What is said of an uninstallation that failed and was undone.

/// The most bytes of what went wrong in undoing an uninstallation that its
/// message tells.
pub const MAX_ROLLBACK_SUMMARY_BYTES: usize = 600;

/// What went wrong in undoing an uninstallation, cut short where it is long.
/// There is nothing to say where the cut would go through a character.
pub open spec fn rollback_summary(rollback_errors: Seq<Seq<char>>) -> Option<Seq<char>> {
    let all = text::joined(rollback_errors, "; "@);
    let bytes = utf8::encode_utf8(all);
    if bytes.len() <= MAX_ROLLBACK_SUMMARY_BYTES {
        Some(all)
    } else if utf8::is_char_boundary(bytes, MAX_ROLLBACK_SUMMARY_BYTES as int) {
        Some(utf8::decode_utf8(bytes.take(MAX_ROLLBACK_SUMMARY_BYTES as int)) + "..."@)
    } else {
        None
    }
}

/// The message of an uninstallation that failed and was undone.
pub open spec fn uninstall_fault(
    service: Seq<char>,
    error: Seq<char>,
    rollback_errors: Seq<Seq<char>>,
) -> Seq<char> {
    let message = "uninstallation failed for OpenRC service "@ + service + ": "@ + error;
    if rollback_errors.len() == 0 {
        message
    } else {
        message + "; rollback also encountered: "@ + rollback_summary(rollback_errors)->0
    }
}

fn cut_text(all: &str, bytes: usize) -> (result: &str)
    requires
        utf8::is_char_boundary(utf8::encode_utf8(all@), bytes as int),
    ensures
        result@ == utf8::decode_utf8(utf8::encode_utf8(all@).take(bytes as int)),
{
    let (head, _) = all.split_at(bytes);
    proof {
        utf8::encode_utf8_decode_utf8(head@);
    }
    head
}

pub fn uninstall_openrc_error(
    service: &str,
    error: String,
    rollback_errors: Vec<String>,
) -> (result: String)
    requires
        rollback_summary(text::texts(rollback_errors@)) is Some,
    ensures
        result@ == uninstall_fault(service@, error@, text::texts(rollback_errors@)),
{
    let mut message = "uninstallation failed for OpenRC service ".to_owned();
    message.append(service);
    message.append(": ");
    message.append(error.as_str());
    if !rollback_errors.is_empty() {
        let all = join(&rollback_errors, "; ");
        message.append("; rollback also encountered: ");
        if byte_len(all.as_str()) > MAX_ROLLBACK_SUMMARY_BYTES {
            let mut summary = cut_text(all.as_str(), MAX_ROLLBACK_SUMMARY_BYTES).to_owned();
            summary.append("...");
            message.append(summary.as_str());
        } else {
            message.append(all.as_str());
        }
    }
    message
}

/// Whether the message of an uninstallation can be told.
pub fn rollback_can_be_told(rollback_errors: &Vec<String>) -> (result: bool)
    ensures
        result == (rollback_summary(text::texts(rollback_errors@)) is Some),
{
    let all = join(rollback_errors, "; ");
    byte_len(all.as_str()) <= MAX_ROLLBACK_SUMMARY_BYTES || all.as_str().is_char_boundary(
        MAX_ROLLBACK_SUMMARY_BYTES,
    )
}

/// Why an uninstallation failed.
#[derive(Debug, Clone, PartialEq, Eq)]
pub enum UninstallFailure {
    /// For this reason, with nothing to undo.
    Refused(String),
    /// For this reason, and what went wrong in undoing it.
    Undone { error: String, rollback_errors: Vec<String> },
}

impl UninstallFailure {
    /// The message of the failure.
    pub open spec fn told(self, service: Seq<char>) -> Option<Seq<char>> {
        match self {
            UninstallFailure::Refused(error) => Some(error@),
            UninstallFailure::Undone { error, rollback_errors } => if rollback_summary(
                text::texts(rollback_errors@),
            ) is Some {
                Some(uninstall_fault(service, error@, text::texts(rollback_errors@)))
            } else {
                None
            },
        }
    }

    /// The message of the failure; none where it would have to be cut through
    /// a character.
    pub fn message(self, service: &str) -> (result: Option<String>)
        ensures
            text::text_of(result) == self.told(service@),
    {
        match self {
            UninstallFailure::Refused(error) => Some(error),
            UninstallFailure::Undone { error, rollback_errors } => {
                if rollback_can_be_told(&rollback_errors) {
                    Some(uninstall_openrc_error(service, error, rollback_errors))
                } else {
                    None
                }
            },
        }
    }
}

// Taking the service down and putting it back.

/// The runs that take a service down: one that runs is stopped, one that is in
/// the default runlevel is taken out of it.
pub open spec fn teardown_steps(
    rc_service: Seq<u8>,
    rc_update: Seq<u8>,
    service: Seq<char>,
    enabled: bool,
    active: bool,
) -> Seq<InvocationView> {
    let stop = if active {
        seq![tools::rc_service_run(rc_service, service, "stop"@)]
    } else {
        Seq::empty()
    };
    if enabled {
        stop.push(tools::rc_update_run(rc_update, "del"@, service))
    } else {
        stop
    }
}

/// The runs that put a service back.
pub open spec fn put_back_steps(
    rc_service: Seq<u8>,
    rc_update: Seq<u8>,
    service: Seq<char>,
    enabled: bool,
    active: bool,
) -> Seq<UndoStep> {
    let enable = if enabled {
        seq![
            UndoStep {
                invocation: tools::rc_update_run(rc_update, "add"@, service),
                label: "enabled state restore failed"@,
            },
        ]
    } else {
        Seq::empty()
    };
    if active {
        enable.push(
            UndoStep {
                invocation: tools::rc_service_run(rc_service, service, "start"@),
                label: "active state restore failed"@,
            },
        )
    } else {
        enable
    }
}

/// Puts a service back. The result is what went wrong on the way.
fn put_back<E: ProcessExecutor>(
    executor: &mut Journal<E>,
    rc_service: &FsPath,
    rc_update: &FsPath,
    service: &str,
    enabled: bool,
    active: bool,
) -> (result: Vec<String>)
    ensures
        old(executor).history().is_prefix_of(final(executor).history()),
        ({
            let ran = process::since(old(executor).history(), final(executor).history());
            let steps = put_back_steps(rc_service@, rc_update@, service@, enabled, active);
            &&& process::undoes(steps, ran)
            &&& text::texts(result@) == process::notes(Seq::empty(), steps, ran)
        }),
{
    let mut errors: Vec<String> = Vec::new();
    let ghost before = executor.history();
    let ghost mut steps: Seq<UndoStep> = Seq::empty();
    proof {
        process::lemma_no_run(before);
        assert(text::texts(errors@) =~= Seq::<Seq<char>>::empty());
    }
    if enabled {
        best_effort_execute(
            executor,
            &rc_update_invocation(rc_update, "add", service),
            "enabled state restore failed",
            &mut errors,
        );
        proof {
            let step = UndoStep {
                invocation: tools::rc_update_run(rc_update@, "add"@, service@),
                label: "enabled state restore failed"@,
            };
            process::lemma_one_more_run(before, before, executor.history());
            process::lemma_one_more_undone(
                Seq::empty(),
                steps,
                process::since(before, before),
                step,
                executor.history().last(),
            );
            assert(steps.push(step) =~= seq![step]);
            steps = steps.push(step);
        }
    }
    let ghost enabled_again = executor.history();
    if active {
        best_effort_execute(
            executor,
            &rc_service_invocation(rc_service, service, "start"),
            "active state restore failed",
            &mut errors,
        );
        proof {
            let step = UndoStep {
                invocation: tools::rc_service_run(rc_service@, service@, "start"@),
                label: "active state restore failed"@,
            };
            process::lemma_one_more_run(before, enabled_again, executor.history());
            process::lemma_one_more_undone(
                Seq::empty(),
                steps,
                process::since(before, enabled_again),
                step,
                executor.history().last(),
            );
        }
    }
    errors
}

// The uninstallation as a whole. What touches files is done by the caller:
// each step demands one thing of it and takes the report on that.

/// What an uninstallation asks of its caller next.
#[derive(Debug, PartialEq, Eq)]
pub enum UninstallDemand {
    /// See what stands at the path and report it as `Inspected`.
    Inspect(FsPath),
    /// See what stands at the path and report it as `RunlevelInspected`.
    InspectRunlevel(FsPath),
    /// Remove the file and report it as `Removed`, with what was true of the
    /// service before.
    Remove { path: FsPath, enabled: bool, active: bool },
    /// The uninstallation is over.
    Done(Result<OpenrcUninstallOutcome, UninstallFailure>),
}

/// What the caller of an uninstallation reports.
#[derive(Debug, PartialEq, Eq)]
pub enum UninstallReport {
    /// The uninstallation was asked for.
    Requested,
    Inspected(PathEntry),
    RunlevelInspected(PathEntry),
    Removed { enabled: bool, active: bool, removed: Result<(), String> },
}

/// What is to be removed, and with what.
pub struct UninstallOrder {
    pub rc_service: Seq<u8>,
    pub rc_update: Seq<u8>,
    pub init_file: Seq<u8>,
    pub runlevel_dir: Seq<u8>,
    pub service: Seq<char>,
}

impl UninstallOrder {
    pub open spec fn teardown_steps(self, enabled: bool, active: bool) -> Seq<InvocationView> {
        teardown_steps(self.rc_service, self.rc_update, self.service, enabled, active)
    }

    pub open spec fn put_back_steps(self, enabled: bool, active: bool) -> Seq<UndoStep> {
        put_back_steps(self.rc_service, self.rc_update, self.service, enabled, active)
    }
}

/// The demand ends the uninstallation with this failure.
pub open spec fn refuses(demand: UninstallDemand, fault: Seq<char>) -> bool {
    demand matches UninstallDemand::Done(Err(UninstallFailure::Refused(error))) && error@ == fault
}

/// The demand ends the uninstallation with this failure, undone by the runs
/// `ran` of `steps`.
pub open spec fn ends_undone(
    demand: UninstallDemand,
    fault: Seq<char>,
    steps: Seq<UndoStep>,
    ran: Seq<Exchange>,
) -> bool {
    &&& process::undoes(steps, ran)
    &&& demand matches UninstallDemand::Done(
        Err(UninstallFailure::Undone { error, rollback_errors }),
    )
    &&& error@ == fault
    &&& text::texts(rollback_errors@) == process::notes(Seq::empty(), steps, ran)
}

/// The demand ends the uninstallation, with or without something removed.
pub open spec fn succeeds(order: UninstallOrder, demand: UninstallDemand, removed: bool) -> bool {
    demand matches UninstallDemand::Done(Ok(outcome)) && outcome.service@ == order.service
        && outcome.removed == removed
}

/// Without an init script there is nothing to do; nothing but a regular file
/// is ever removed.
pub open spec fn answers_inspection(
    order: UninstallOrder,
    entry: PathEntry,
    demand: UninstallDemand,
) -> bool {
    let at = path::shown(order.init_file);
    match entry {
        PathEntry::Missing => succeeds(order, demand, false),
        PathEntry::RegularFile => demand matches UninstallDemand::InspectRunlevel(entry) && entry@
            == tools::runlevel_entry(order.runlevel_dir, order.service),
        PathEntry::Symlink => refuses(
            demand,
            "refusing to uninstall an OpenRC service through a symlinked init script: "@ + at
                + "; remove the symlink explicitly before retrying"@,
        ),
        PathEntry::Directory | PathEntry::Other => refuses(
            demand,
            "refusing to uninstall a non-regular OpenRC init script: "@ + at,
        ),
        PathEntry::Unreadable(error) => refuses(
            demand,
            "failed to inspect "@ + at + ": "@ + error@,
        ),
    }
}

/// The service is asked about and taken down. A service that cannot be stopped
/// is left as it is; one that cannot be taken out of the default runlevel is
/// started again where it ran.
pub open spec fn answers_runlevel(
    order: UninstallOrder,
    entry: PathEntry,
    ran: Seq<Exchange>,
    demand: UninstallDemand,
) -> bool {
    let enabled = tools::is_there(entry);
    let active = ran[0].succeeded();
    &&& ran.len() > 0
    &&& ran[0].invocation == tools::rc_service_run(order.rc_service, order.service, "status"@)
    &&& exists|n: int|
        {
            let down = #[trigger] ran.subrange(1, n);
            let undo = ran.skip(n);
            &&& 1 <= n <= ran.len()
            &&& process::runs_until_fault(order.teardown_steps(enabled, active), down)
            &&& match process::fault_of(down) {
                None => {
                    &&& undo.len() == 0
                    &&& demand matches UninstallDemand::Remove {
                        path,
                        enabled: was_enabled,
                        active: was_active,
                    }
                    &&& path@ == order.init_file
                    &&& was_enabled == enabled
                    &&& was_active == active
                },
                Some(fault) => if active && down.len() == 1 {
                    undo.len() == 0 && refuses(demand, fault)
                } else {
                    ends_undone(demand, fault, order.put_back_steps(false, active), undo)
                },
            }
        }
}

/// A service whose init script cannot be removed is put back as it was.
pub open spec fn answers_removal(
    order: UninstallOrder,
    enabled: bool,
    active: bool,
    removed: Result<(), String>,
    ran: Seq<Exchange>,
    demand: UninstallDemand,
) -> bool {
    match removed {
        Ok(_) => ran.len() == 0 && succeeds(order, demand, true),
        Err(error) => ends_undone(
            demand,
            "failed to remove "@ + path::shown(order.init_file) + ": "@ + error@,
            order.put_back_steps(enabled, active),
            ran,
        ),
    }
}

/// `demand` is the answer to `report`, by the runs `ran`.
pub open spec fn uninstall_answers(
    order: UninstallOrder,
    report: UninstallReport,
    ran: Seq<Exchange>,
    demand: UninstallDemand,
) -> bool {
    match report {
        UninstallReport::Requested => {
            &&& ran.len() == 0
            &&& match script::identity_fault("service name"@, order.service) {
                Some(fault) => refuses(demand, fault),
                None => demand matches UninstallDemand::Inspect(at) && at@ == order.init_file,
            }
        },
        UninstallReport::Inspected(entry) => ran.len() == 0 && answers_inspection(
            order,
            entry,
            demand,
        ),
        UninstallReport::RunlevelInspected(entry) => answers_runlevel(order, entry, ran, demand),
        UninstallReport::Removed { enabled, active, removed } => answers_removal(
            order,
            enabled,
            active,
            removed,
            ran,
            demand,
        ),
    }
}

fn refused(message: String) -> (result: UninstallDemand)
    ensures
        refuses(result, message@),
{
    UninstallDemand::Done(Err(UninstallFailure::Refused(message)))
}

/// What is demanded after what stands at the path of the init script is known.
fn after_inspection(
    init_file: &FsPath,
    runlevel_dir: &FsPath,
    service: &str,
    entry: PathEntry,
) -> (result: UninstallDemand)
    ensures
        forall|rc_service: Seq<u8>, rc_update: Seq<u8>| #[trigger]
            answers_inspection(
                (UninstallOrder {
                    rc_service,
                    rc_update,
                    init_file: init_file@,
                    runlevel_dir: runlevel_dir@,
                    service: service@,
                }),
                entry,
                result,
            ),
{
    match entry {
        PathEntry::Missing => UninstallDemand::Done(
            Ok(OpenrcUninstallOutcome { service: service.to_owned(), removed: false }),
        ),
        PathEntry::RegularFile => UninstallDemand::InspectRunlevel(
            openrc_runlevel_entry(runlevel_dir, service),
        ),
        PathEntry::Symlink => {
            let mut message =
                "refusing to uninstall an OpenRC service through a symlinked init script: ".to_owned();
            message.append(init_file.display().as_str());
            message.append("; remove the symlink explicitly before retrying");
            refused(message)
        },
        PathEntry::Directory | PathEntry::Other => {
            let mut message =
                "refusing to uninstall a non-regular OpenRC init script: ".to_owned();
            message.append(init_file.display().as_str());
            refused(message)
        },
        PathEntry::Unreadable(error) => {
            let mut message = "failed to inspect ".to_owned();
            message.append(init_file.display().as_str());
            message.append(": ");
            message.append(error.as_str());
            refused(message)
        },
    }
}

/// Takes the service down. What is demanded then is that its init script be
/// removed, unless it could not be taken down.
fn take_down<E: ProcessExecutor>(
    executor: &mut Journal<E>,
    rc_service: &FsPath,
    rc_update: &FsPath,
    init_file: &FsPath,
    service: &str,
    entry: &PathEntry,
) -> (result: UninstallDemand)
    ensures
        old(executor).history().is_prefix_of(final(executor).history()),
        forall|runlevel_dir: Seq<u8>| #[trigger]
            answers_runlevel(
                (UninstallOrder {
                    rc_service: rc_service@,
                    rc_update: rc_update@,
                    init_file: init_file@,
                    runlevel_dir,
                    service: service@,
                }),
                *entry,
                process::since(old(executor).history(), final(executor).history()),
                result,
            ),
{
    let ghost before = executor.history();
    proof {
        process::lemma_no_run(before);
    }
    let enabled = openrc_service_enabled(entry);
    let active = openrc_service_active(executor, rc_service, service);
    let ghost asked = executor.history();
    proof {
        process::lemma_one_more_run(before, before, asked);
        process::lemma_no_run(asked);
    }
    let ghost mut down = asked;
    if active {
        let stop = execute_required(
            executor,
            &rc_service_invocation(rc_service, service, "stop"),
        );
        proof {
            down = executor.history();
            process::lemma_one_more_run(asked, asked, down);
            process::lemma_runs_in_turn(before, asked, down);
            let ran = process::since(before, down);
            assert(ran.subrange(1, 2) =~= ran.skip(1));
            assert(ran.skip(2) =~= Seq::<Exchange>::empty());
        }
        match stop {
            Ok(_) => {},
            Err(error) => return refused(error),
        }
    }
    let ghost stopped = executor.history();
    if enabled {
        let disable = execute_required(executor, &rc_update_invocation(rc_update, "del", service));
        proof {
            down = executor.history();
            process::lemma_one_more_run(asked, stopped, down);
            process::lemma_runs_in_turn(before, asked, down);
        }
        match disable {
            Ok(_) => {},
            Err(error) => {
                let rollback_errors = put_back(
                    executor,
                    rc_service,
                    rc_update,
                    service,
                    false,
                    active,
                );
                proof {
                    process::lemma_runs_in_turn(before, down, executor.history());
                    let ran = process::since(before, executor.history());
                    let n = down.len() - before.len();
                    assert(ran.subrange(1, n) =~= ran.take(n).skip(1));
                    assert(ran[0] == ran.take(n)[0]);
                    assert(ran.take(n)[0] == ran.take(n).take(1)[0]);
                }
                return UninstallDemand::Done(
                    Err(UninstallFailure::Undone { error, rollback_errors }),
                );
            },
        }
    }
    proof {
        process::lemma_runs_in_turn(before, asked, down);
        let ran = process::since(before, down);
        assert(ran.subrange(1, ran.len() as int) =~= ran.skip(1));
        assert(ran.skip(ran.len() as int) =~= Seq::<Exchange>::empty());
        assert(ran[0] == ran.take(1)[0]);
    }
    UninstallDemand::Remove { path: init_file.duplicate(), enabled, active }
}

/// One step of an uninstallation: what is demanded after `report`.
pub fn uninstall_openrc_service_with_executor<E: ProcessExecutor>(
    executor: &mut Journal<E>,
    rc_service: &FsPath,
    rc_update: &FsPath,
    init_file: &FsPath,
    runlevel_dir: &FsPath,
    service: &str,
    report: UninstallReport,
) -> (result: UninstallDemand)
    ensures
        old(executor).history().is_prefix_of(final(executor).history()),
        uninstall_answers(
            (UninstallOrder {
                rc_service: rc_service@,
                rc_update: rc_update@,
                init_file: init_file@,
                runlevel_dir: runlevel_dir@,
                service: service@,
            }),
            report,
            process::since(old(executor).history(), final(executor).history()),
            result,
        ),
{
    proof {
        process::lemma_no_run(executor.history());
    }
    match report {
        UninstallReport::Requested => match validate_openrc_identity("service name", service) {
            Ok(_) => UninstallDemand::Inspect(init_file.duplicate()),
            Err(error) => refused(error),
        },
        UninstallReport::Inspected(entry) => after_inspection(
            init_file,
            runlevel_dir,
            service,
            entry,
        ),
        UninstallReport::RunlevelInspected(entry) => take_down(
            executor,
            rc_service,
            rc_update,
            init_file,
            service,
            &entry,
        ),
        UninstallReport::Removed { enabled, active, removed } => match removed {
            Ok(_) => UninstallDemand::Done(
                Ok(OpenrcUninstallOutcome { service: service.to_owned(), removed: true }),
            ),
            Err(error) => {
                let rollback_errors = put_back(
                    executor,
                    rc_service,
                    rc_update,
                    service,
                    enabled,
                    active,
                );
                let mut message = "failed to remove ".to_owned();
                message.append(init_file.display().as_str());
                message.append(": ");
                message.append(error.as_str());
                UninstallDemand::Done(
                    Err(UninstallFailure::Undone { error: message, rollback_errors }),
                )
            },
        },
    }
}

/// Why nothing can be removed on this host, if there is a reason: a tool is
/// missing.
pub open spec fn setup_fault(tools: HostTools) -> Option<Seq<char>> {
    match manager::rc_service_of(tools) {
        Err(fault) => Some(fault),
        Ok(_) => match manager::rc_update_of(tools) {
            Err(fault) => Some(fault),
            Ok(_) => None,
        },
    }
}

/// One step of an uninstallation with the tools and the runlevels of the host.
pub fn uninstall_openrc_service<E: ProcessExecutor>(
    executor: &mut Journal<E>,
    tools: &HostTools,
    init_file: &FsPath,
    service: &str,
    report: UninstallReport,
) -> (result: UninstallDemand)
    ensures
        old(executor).history().is_prefix_of(final(executor).history()),
        ({
            let ran = process::since(old(executor).history(), final(executor).history());
            match setup_fault(*tools) {
                Some(fault) => ran.len() == 0 && refuses(result, fault),
                None => uninstall_answers(
                    UninstallOrder {
                        rc_service: manager::rc_service_of(*tools)->Ok_0,
                        rc_update: manager::rc_update_of(*tools)->Ok_0,
                        init_file: init_file@,
                        runlevel_dir: utf8::encode_utf8(OPENRC_RUNLEVELS_DIR@),
                        service: service@,
                    },
                    report,
                    ran,
                    result,
                ),
            }
        }),
{
    proof {
        process::lemma_no_run(executor.history());
    }
    let rc_service = match rc_service_path(tools) {
        Ok(path) => path,
        Err(error) => return refused(error),
    };
    let rc_update = match rc_update_path(tools) {
        Ok(path) => path,
        Err(error) => return refused(error),
    };
    uninstall_openrc_service_with_executor(
        executor,
        &rc_service,
        &rc_update,
        init_file,
        &FsPath::new(OPENRC_RUNLEVELS_DIR),
        service,
        report,
    )
}

// What holds of every uninstallation.

/// Removing a service that has no init script succeeds and does nothing.
pub proof fn law_absent_service_needs_nothing(
    order: UninstallOrder,
    ran: Seq<Exchange>,
    demand: UninstallDemand,
)
    requires
        uninstall_answers(order, UninstallReport::Inspected(PathEntry::Missing), ran, demand),
    ensures
        ran.len() == 0,
        demand matches UninstallDemand::Done(Ok(outcome)) && !outcome.removed,
{
}

/// Nothing but a regular file is ever removed: anything else at the path ends
/// the uninstallation before a tool is run.
pub proof fn law_only_a_regular_file_is_removed(
    order: UninstallOrder,
    entry: PathEntry,
    ran: Seq<Exchange>,
    demand: UninstallDemand,
)
    requires
        uninstall_answers(order, UninstallReport::Inspected(entry), ran, demand),
        !(entry is RegularFile),
    ensures
        ran.len() == 0,
        demand is Done,
        !(entry is Missing) ==> (demand matches UninstallDemand::Done(result) && result is Err),
{
}

/// The init script is removed only after the service was stopped, where it
/// ran, and taken out of the default runlevel, where it was in it.
pub proof fn law_script_is_removed_last(
    order: UninstallOrder,
    entry: PathEntry,
    ran: Seq<Exchange>,
    demand: UninstallDemand,
)
    requires
        uninstall_answers(order, UninstallReport::RunlevelInspected(entry), ran, demand),
        demand is Remove,
    ensures
        ran[0].succeeded() ==> exists|i: int|
            0 < i < ran.len() && (#[trigger] ran[i]).succeeded() && ran[i].invocation
                == tools::rc_service_run(order.rc_service, order.service, "stop"@),
        tools::is_there(entry) ==> exists|i: int|
            0 < i < ran.len() && (#[trigger] ran[i]).succeeded() && ran[i].invocation
                == tools::rc_update_run(order.rc_update, "del"@, order.service),
{
    let enabled = tools::is_there(entry);
    let active = ran[0].succeeded();
    let n = choose|n: int|
        {
            let down = #[trigger] ran.subrange(1, n);
            &&& 1 <= n <= ran.len()
            &&& process::runs_until_fault(order.teardown_steps(enabled, active), down)
            &&& process::fault_of(down) is None
        };
    let down = ran.subrange(1, n);
    let steps = order.teardown_steps(enabled, active);
    assert(down.len() == steps.len());
    if active {
        assert(down[0] == ran[1]);
    }
    if enabled {
        let last = steps.len() - 1;
        assert(down[last] == ran[last + 1]);
    }
}

/// What a message tells of undoing an uninstallation never grows beyond its
/// limit and three dots.
pub proof fn law_rollback_summary_is_short(rollback_errors: Seq<Seq<char>>)
    requires
        rollback_summary(rollback_errors) is Some,
    ensures
        utf8::encode_utf8(rollback_summary(rollback_errors)->0).len() <= MAX_ROLLBACK_SUMMARY_BYTES
            + 3,
{
    let all = text::joined(rollback_errors, "; "@);
    let bytes = utf8::encode_utf8(all);
    if bytes.len() > MAX_ROLLBACK_SUMMARY_BYTES {
        let head = bytes.take(MAX_ROLLBACK_SUMMARY_BYTES as int);
        utf8::encode_utf8_valid_utf8(all);
        utf8::valid_utf8_split(bytes, MAX_ROLLBACK_SUMMARY_BYTES as int);
        assert(head =~= bytes.subrange(0, MAX_ROLLBACK_SUMMARY_BYTES as int));
        utf8::decode_utf8_encode_utf8(head);
        reveal_strlit("...");
        utf8::is_ascii_chars_encode_utf8("..."@);
        text::lemma_encode_utf8_sum(utf8::decode_utf8(head), "..."@);
    }
}

}
