//! Laws of installing the service: the runs it takes, what each report is
//! answered with, and what is undone.

use vstd::prelude::*;
use vstd::utf8;

use crate::openrc::install;
use crate::openrc::install::{
    InstallDemand, InstallOrder, InstallReport, OpenrcInstallRollback,
};
use crate::openrc::manager;
use crate::openrc::manager::HostTools;
use crate::openrc::plan;
use crate::openrc::plan::OpenrcInstallSnapshot;
use crate::openrc::script;
use crate::openrc::tools;
use crate::path;
use crate::path::PathEntry;
use crate::process;
use crate::process::{Exchange, InvocationView};
use crate::text;

verus! {

/// `run` is a run of `rc-service <service> <action>`.
pub open spec fn is_service_run(
    run: InvocationView,
    rc_service: Seq<u8>,
    service: Seq<char>,
    action: Seq<char>,
) -> bool {
    &&& run.program == rc_service
    &&& run.args == seq![service, action]
    &&& run.operation == "rc-service "@ + action
    &&& run.unit == Some(service)
    &&& !run.inherit_stdio
}

/// `run` is a run of `rc-update <action> <service> default`.
pub open spec fn is_update_run(
    run: InvocationView,
    rc_update: Seq<u8>,
    action: Seq<char>,
    service: Seq<char>,
) -> bool {
    &&& run.program == rc_update
    &&& run.args == seq![action, service, "default"@]
    &&& run.operation == "rc-update "@ + action
    &&& run.unit == Some(service)
    &&& !run.inherit_stdio
}

/// `run` is a run of `rc-update show default`.
pub open spec fn is_show_run(run: InvocationView, rc_update: Seq<u8>, service: Seq<char>) -> bool {
    &&& run.program == rc_update
    &&& run.args == seq!["show"@, "default"@]
    &&& run.operation == "rc-update show"@
    &&& run.unit == Some(service)
    &&& !run.inherit_stdio
}

// The plan.

/// A service that is not in the default runlevel is added to it first. One that
/// is not to be started is then looked for in the runlevel, and nothing else is
/// run; any other is started, or restarted where it was running, and then looked
/// at.
pub proof fn law_steps_of_an_installation(
    rc_service: Seq<u8>,
    rc_update: Seq<u8>,
    service: Seq<char>,
    snapshot: OpenrcInstallSnapshot,
    no_start: bool,
)
    ensures
        ({
            let steps = plan::install_steps(rc_service, rc_update, service, snapshot, no_start);
            let added: int = if snapshot.enabled {
                0
            } else {
                1
            };
            &&& !snapshot.enabled ==> is_update_run(steps[0], rc_update, "add"@, service)
            &&& no_start ==> steps.len() == added + 1 && is_show_run(
                steps[added],
                rc_update,
                service,
            )
            &&& !no_start ==> steps.len() == added + 2 && is_service_run(
                steps[added + 1],
                rc_service,
                service,
                "status"@,
            )
            &&& !no_start && snapshot.active ==> is_service_run(
                steps[added],
                rc_service,
                service,
                "restart"@,
            )
            &&& !no_start && !snapshot.active ==> is_service_run(
                steps[added],
                rc_service,
                service,
                "start"@,
            )
        }),
{
}

/// A plan fails exactly where a run of it failed, with that run's fault, or
/// where it ends in a listing of the runlevel without the service.
pub proof fn law_failed_plans_tell_why(
    rc_service: Seq<u8>,
    rc_update: Seq<u8>,
    service: Seq<char>,
    snapshot: OpenrcInstallSnapshot,
    no_start: bool,
    ran: Seq<Exchange>,
)
    requires
        process::runs_until_fault(
            plan::install_steps(rc_service, rc_update, service, snapshot, no_start),
            ran,
        ),
    ensures
        ran.len() > 0,
        !ran[ran.len() - 1].succeeded() ==> plan::plan_fault(service, no_start, ran) == Some(
            ran[ran.len() - 1].fault(),
        ),
        ran[ran.len() - 1].succeeded() && !no_start ==> plan::plan_fault(service, no_start, ran)
            is None,
        ran[ran.len() - 1].succeeded() && no_start && tools::lists_service(
            ran[ran.len() - 1].outcome->Ok_0.stdout,
            service,
        ) ==> plan::plan_fault(service, no_start, ran) is None,
        ran[ran.len() - 1].succeeded() && no_start && !tools::lists_service(
            ran[ran.len() - 1].outcome->Ok_0.stdout,
            service,
        ) ==> plan::plan_fault(service, no_start, ran) == Some(
            "rc-update add reported success but "@ + service
                + " is not listed in the default runlevel"@,
        ),
{
    assert(ran.last() == ran[ran.len() - 1]);
}

/// Undoing a plan stops a service that may have been started, takes one out of
/// the runlevel that was not in it before, and starts one again in the end that
/// was running; each failure is noted under its own words.
pub proof fn law_steps_of_undoing_an_installation(
    rc_service: Seq<u8>,
    rc_update: Seq<u8>,
    service: Seq<char>,
    snapshot: OpenrcInstallSnapshot,
    attempted_start: bool,
)
    ensures
        ({
            let steps = plan::undo_steps(
                rc_service,
                rc_update,
                service,
                snapshot,
                attempted_start,
            );
            let stopped: int = if attempted_start {
                1
            } else {
                0
            };
            &&& attempted_start ==> is_service_run(
                steps[0].invocation,
                rc_service,
                service,
                "stop"@,
            ) && steps[0].label == "stop failed"@
            &&& snapshot.enabled ==> steps.len() == stopped
            &&& !snapshot.enabled ==> steps.len() == stopped + 1 && is_update_run(
                steps[stopped].invocation,
                rc_update,
                "del"@,
                service,
            ) && steps[stopped].label == "rc-update del failed"@
        }),
        ({
            let steps = plan::resume_steps(rc_service, service, snapshot);
            &&& !snapshot.active ==> steps.len() == 0
            &&& snapshot.active ==> steps.len() == 1 && is_service_run(
                steps[0].invocation,
                rc_service,
                service,
                "start"@,
            ) && steps[0].label == "active state restore failed"@
        }),
{
}

/// A script that could not be restored is noted behind what was noted before.
pub proof fn law_failed_restoring_is_noted(errors: Seq<Seq<char>>, restored: Result<(), String>)
    ensures
        restored is Ok ==> plan::with_restore_error(errors, restored) == errors,
        restored matches Err(error) ==> plan::with_restore_error(errors, restored) == errors.push(
            "init script restore failed: "@ + error@,
        ),
{
    reveal_strlit("init script restore failed");
    reveal_strlit(": ");
    reveal_strlit("init script restore failed: ");
    assert("init script restore failed"@ + ": "@ =~= "init script restore failed: "@);
}

/// An order's steps are those of its own tools, service and wish to start; it
/// may have started the service exactly where it was to.
pub proof fn law_orders_are_carried_out_as_given(
    order: InstallOrder,
    snapshot: OpenrcInstallSnapshot,
)
    ensures
        order.steps(snapshot) == plan::install_steps(
            order.rc_service,
            order.rc_update,
            order.service,
            snapshot,
            order.no_start,
        ),
        order.undo_steps(snapshot) == plan::undo_steps(
            order.rc_service,
            order.rc_update,
            order.service,
            snapshot,
            !order.no_start,
        ),
        order.resume_steps(snapshot) == plan::resume_steps(
            order.rc_service,
            order.service,
            snapshot,
        ),
{
}

// What may be written over.

/// A file may be written where nothing stands, and over a regular file where
/// that was asked for. Everything else is refused, and told with the path.
pub proof fn law_what_may_be_written_over(
    service_file: Seq<u8>,
    entry: PathEntry,
    overwrite: bool,
    what: Seq<char>,
)
    ensures
        ({
            let found = install::preflight(service_file, entry, overwrite, what);
            let at = path::shown(service_file);
            &&& found is Ok <==> (entry is Missing || (entry is RegularFile && overwrite))
            &&& entry is Missing ==> found->Ok_0 is Absent
            &&& entry is RegularFile && overwrite ==> found->Ok_0 is ManagedRegularFile
            &&& entry is RegularFile && !overwrite ==> found->Err_0 == at
                + " already exists; pass --overwrite to replace it"@
            &&& entry is Symlink ==> found->Err_0 == "refusing to overwrite "@ + what
                + " symlink: "@ + at
            &&& entry is Directory || entry is Other ==> found->Err_0
                == "refusing to overwrite non-regular "@ + what + " path: "@ + at
            &&& entry matches PathEntry::Unreadable(error) ==> found->Err_0
                == "failed to inspect "@ + at + ": "@ + error@
        }),
{
}

// The answers to the reports.

/// The request is answered with a look at the init script's path, or refused
/// where the service's name is none.
pub proof fn law_a_request_is_answered(order: InstallOrder, ran: Seq<Exchange>, demand: InstallDemand)
    requires
        install::install_answers(order, InstallReport::Requested, ran, demand),
    ensures
        ran.len() == 0,
        script::identity_fault("service name"@, order.service) is None <==> demand is Inspect,
        demand matches InstallDemand::Inspect(at) ==> at.bytes@ == order.init_file,
        script::identity_fault("service name"@, order.service) matches Some(fault) ==> (
        demand matches InstallDemand::Done(Err(error)) && error@ == fault),
{
}

/// What was found is answered: nothing there, with a look at the runlevel and no
/// previous content; a regular file that may be replaced, with reading it;
/// anything else with its refusal.
pub proof fn law_an_inspection_is_answered(
    order: InstallOrder,
    entry: PathEntry,
    ran: Seq<Exchange>,
    demand: InstallDemand,
)
    requires
        install::install_answers(order, InstallReport::Inspected(entry), ran, demand),
    ensures
        ran.len() == 0,
        ({
            let at = path::shown(order.init_file);
            &&& entry is Missing <==> demand is InspectRunlevel
            &&& entry is RegularFile && order.overwrite <==> demand is Read
            &&& demand matches InstallDemand::Read(file) ==> file.bytes@ == order.init_file
            &&& demand matches InstallDemand::InspectRunlevel { entry: runlevel, previous_content }
                ==> runlevel.bytes@ == tools::runlevel_entry(order.runlevel_dir, order.service)
                && previous_content is None
            &&& entry is RegularFile && !order.overwrite ==> (demand matches InstallDemand::Done(
                Err(error),
            ) && error@ == at + " already exists; pass --overwrite to replace it"@)
            &&& entry is Symlink ==> (demand matches InstallDemand::Done(Err(error)) && error@
                == "refusing to overwrite OpenRC service symlink: "@ + at)
            &&& entry is Directory || entry is Other ==> (demand matches InstallDemand::Done(
                Err(error),
            ) && error@ == "refusing to overwrite non-regular OpenRC service path: "@ + at)
            &&& entry matches PathEntry::Unreadable(why) ==> (demand matches InstallDemand::Done(
                Err(error),
            ) && error@ == "failed to inspect "@ + at + ": "@ + why@)
        }),
{
    reveal_strlit("refusing to overwrite ");
    reveal_strlit("OpenRC service");
    reveal_strlit(" symlink: ");
    reveal_strlit("refusing to overwrite OpenRC service symlink: ");
    reveal_strlit("refusing to overwrite non-regular ");
    reveal_strlit(" path: ");
    reveal_strlit("refusing to overwrite non-regular OpenRC service path: ");
    assert("refusing to overwrite "@ + "OpenRC service"@ + " symlink: "@
        =~= "refusing to overwrite OpenRC service symlink: "@);
    assert("refusing to overwrite non-regular "@ + "OpenRC service"@ + " path: "@
        =~= "refusing to overwrite non-regular OpenRC service path: "@);
}

/// What was read is kept as the content from before; a file that cannot be read
/// ends the installation.
pub proof fn law_a_reading_is_answered(
    order: InstallOrder,
    read: Result<String, String>,
    ran: Seq<Exchange>,
    demand: InstallDemand,
)
    requires
        install::install_answers(order, InstallReport::Read(read), ran, demand),
    ensures
        ran.len() == 0,
        read matches Ok(content) ==> (demand matches InstallDemand::InspectRunlevel {
            entry,
            previous_content: Some(kept),
        } && entry.bytes@ == tools::runlevel_entry(order.runlevel_dir, order.service) && kept@
            == content@),
        read matches Err(why) ==> (demand matches InstallDemand::Done(Err(error)) && error@
            == "failed to read "@ + path::shown(order.init_file) + ": "@ + why@),
{
}

/// The init script is written with the content that was ordered and the
/// permission bits rwxr-xr-x. The snapshot tells what was there: the previous
/// content, whether anything stands at the runlevel's entry, and whether the
/// service runs, which is asked of rc-service once and only where there was a
/// script.
pub proof fn law_the_script_is_written(
    order: InstallOrder,
    previous_content: Option<String>,
    entry: PathEntry,
    ran: Seq<Exchange>,
    demand: InstallDemand,
)
    requires
        install::install_answers(
            order,
            InstallReport::RunlevelInspected { previous_content, entry },
            ran,
            demand,
        ),
    ensures
        previous_content is None ==> ran.len() == 0,
        previous_content is Some ==> ran.len() == 1 && is_service_run(
            ran[0].invocation,
            order.rc_service,
            order.service,
            "status"@,
        ),
        demand matches InstallDemand::Write { path, content, overwrite, mode, snapshot }
            && path.bytes@ == order.init_file && content@ == order.content && overwrite
            == order.overwrite && mode == 493 && snapshot.previous_content == previous_content,
        demand->snapshot.enabled <==> (entry is RegularFile || entry is Symlink || entry
            is Directory || entry is Other),
        demand->snapshot.active <==> previous_content is Some && (
        ran[0].outcome matches Ok(output) && output.success),
{
}

/// A script that could not be written ends the installation with the reason, and
/// nothing is run.
pub proof fn law_a_failed_writing_is_told(
    order: InstallOrder,
    snapshot: OpenrcInstallSnapshot,
    why: String,
    ran: Seq<Exchange>,
    demand: InstallDemand,
)
    requires
        install::install_answers(
            order,
            InstallReport::Written { snapshot, written: Err(why) },
            ran,
            demand,
        ),
    ensures
        ran.len() == 0,
        demand matches InstallDemand::Done(Err(error)) && error@ == why@,
{
}

/// How many runs the plan of an order takes where none fails.
pub open spec fn plan_length(order: InstallOrder, snapshot: OpenrcInstallSnapshot) -> int {
    (if snapshot.enabled {
        0int
    } else {
        1int
    }) + (if order.no_start {
        1int
    } else {
        2int
    })
}

/// Once the script is written, the installation succeeds exactly where the runs
/// of the whole plan were made, nothing else was, and all of them succeeded, the
/// last with a listing that lists the service where it is only looked for. The
/// outcome then names the service, says that it is enabled, and that it was
/// started where it was to be.
pub proof fn law_an_installation_succeeds(
    order: InstallOrder,
    snapshot: OpenrcInstallSnapshot,
    ran: Seq<Exchange>,
    demand: InstallDemand,
)
    requires
        install::install_answers(
            order,
            InstallReport::Written { snapshot, written: Ok(()) },
            ran,
            demand,
        ),
    ensures
        demand is Done <==> ran.len() == plan_length(order, snapshot) && (forall|i: int|
            0 <= i < ran.len() ==> (#[trigger] ran[i]).succeeded()) && (order.no_start
            ==> tools::lists_service(ran[ran.len() - 1].outcome->Ok_0.stdout, order.service)),
        demand matches InstallDemand::Done(result) ==> (result matches Ok(outcome)
            && outcome.service@ == order.service && outcome.enabled && outcome.started
            == !order.no_start),
        demand is Done <==> !(demand is Restore),
        !snapshot.enabled ==> is_update_run(
            ran[0].invocation,
            order.rc_update,
            "add"@,
            order.service,
        ),
        snapshot.enabled && order.no_start ==> is_show_run(
            ran[0].invocation,
            order.rc_update,
            order.service,
        ),
        snapshot.enabled && !order.no_start && snapshot.active ==> is_service_run(
            ran[0].invocation,
            order.rc_service,
            order.service,
            "restart"@,
        ),
        snapshot.enabled && !order.no_start && !snapshot.active ==> is_service_run(
            ran[0].invocation,
            order.rc_service,
            order.service,
            "start"@,
        ),
{
    let n = lemma_plan_and_undo(order, snapshot, ran, demand);
    let part = ran.take(n);
    let steps = order.steps(snapshot);
    assert(part.last() == part[n - 1]);
    assert(part[0] == ran[0]);
    assert(part[n - 1] == ran[n - 1]);
    if demand is Done {
        assert(ran =~= part);
    }
    if ran.len() == plan_length(order, snapshot) && (forall|i: int|
        0 <= i < ran.len() ==> (#[trigger] ran[i]).succeeded()) {
        assert(ran[n - 1].succeeded());
        assert(n == steps.len());
        assert(ran =~= part);
    }
}

/// How many of the runs of an installation are those of its plan.
proof fn lemma_plan_and_undo(
    order: InstallOrder,
    snapshot: OpenrcInstallSnapshot,
    ran: Seq<Exchange>,
    demand: InstallDemand,
) -> (n: int)
    requires
        install::install_answers(
            order,
            InstallReport::Written { snapshot, written: Ok(()) },
            ran,
            demand,
        ),
    ensures
        1 <= n <= ran.len(),
        process::runs_until_fault(order.steps(snapshot), ran.take(n)),
        match plan::plan_fault(order.service, order.no_start, ran.take(n)) {
            None => {
                &&& ran.len() == n
                &&& demand matches InstallDemand::Done(Ok(outcome))
                &&& outcome.service@ == order.service
                &&& outcome.enabled
                &&& outcome.started == !order.no_start
            },
            Some(fault) => {
                &&& process::undoes(order.undo_steps(snapshot), ran.skip(n))
                &&& demand matches InstallDemand::Restore { path, rollback }
                &&& path@ == order.init_file
                &&& rollback.snapshot == snapshot
                &&& rollback.error@ == fault
                &&& text::texts(rollback.errors@) == process::notes(
                    Seq::empty(),
                    order.undo_steps(snapshot),
                    ran.skip(n),
                )
            },
        },
{
    let n = choose|n: int|
        {
            let part = #[trigger] ran.take(n);
            let undo = ran.skip(n);
            &&& 0 <= n <= ran.len()
            &&& process::runs_until_fault(order.steps(snapshot), part)
            &&& match plan::plan_fault(order.service, order.no_start, part) {
                None => {
                    &&& undo.len() == 0
                    &&& demand matches InstallDemand::Done(Ok(outcome))
                    &&& outcome.service@ == order.service
                    &&& outcome.enabled
                    &&& outcome.started == !order.no_start
                },
                Some(fault) => {
                    &&& process::undoes(order.undo_steps(snapshot), undo)
                    &&& demand matches InstallDemand::Restore { path, rollback }
                    &&& path@ == order.init_file
                    &&& rollback.snapshot == snapshot
                    &&& rollback.error@ == fault
                    &&& text::texts(rollback.errors@) == process::notes(
                        Seq::empty(),
                        order.undo_steps(snapshot),
                        undo,
                    )
                },
            }
        };
    n
}

/// An installation that does not succeed is undone: behind the runs of the plan,
/// of which the last failed or listed the runlevel without the service, come a
/// stop where the service was to be started and `rc-update del` where it was not
/// in the runlevel before. The restoring of the script is then asked for, with
/// the snapshot and the reason.
pub proof fn law_a_failed_installation_is_undone(
    order: InstallOrder,
    snapshot: OpenrcInstallSnapshot,
    ran: Seq<Exchange>,
    demand: InstallDemand,
)
    requires
        install::install_answers(
            order,
            InstallReport::Written { snapshot, written: Ok(()) },
            ran,
            demand,
        ),
        !(demand is Done),
    ensures
        demand matches InstallDemand::Restore { path, rollback } && path.bytes@ == order.init_file
            && rollback.snapshot == snapshot,
        ({
            let undone: int = (if order.no_start {
                0int
            } else {
                1int
            }) + (if snapshot.enabled {
                0int
            } else {
                1int
            });
            let n = ran.len() - undone;
            let error = demand->rollback.error@;
            &&& n >= 1
            &&& forall|i: int| 0 <= i < n - 1 ==> (#[trigger] ran[i]).succeeded()
            &&& !ran[n - 1].succeeded() ==> error == ran[n - 1].fault()
            &&& ran[n - 1].succeeded() ==> order.no_start && !tools::lists_service(
                ran[n - 1].outcome->Ok_0.stdout,
                order.service,
            ) && error == "rc-update add reported success but "@ + order.service
                + " is not listed in the default runlevel"@
            &&& !order.no_start ==> is_service_run(
                ran[n].invocation,
                order.rc_service,
                order.service,
                "stop"@,
            )
            &&& !snapshot.enabled ==> is_update_run(
                ran[ran.len() - 1].invocation,
                order.rc_update,
                "del"@,
                order.service,
            )
            &&& text::texts(demand->rollback.errors@) == process::notes(
                Seq::empty(),
                order.undo_steps(snapshot),
                ran.skip(n),
            )
        }),
{
    let n = lemma_plan_and_undo(order, snapshot, ran, demand);
    let part = ran.take(n);
    let undo = ran.skip(n);
    assert(part.last() == part[n - 1]);
    assert(part[n - 1] == ran[n - 1]);
    assert forall|i: int| 0 <= i < n - 1 implies (#[trigger] ran[i]).succeeded() by {
        assert(part[i] == ran[i]);
    }
    if undo.len() > 0 {
        assert(undo[0] == ran[n]);
        assert(undo[undo.len() - 1] == ran[ran.len() - 1]);
    }
}

/// After the script was restored, or could not be, a service that was running is
/// started again. The installation ends with its reason and all that was noted.
pub proof fn law_an_undone_installation_is_told(
    order: InstallOrder,
    rollback: OpenrcInstallRollback,
    restored: Result<(), String>,
    ran: Seq<Exchange>,
    demand: InstallDemand,
)
    requires
        install::install_answers(
            order,
            InstallReport::Restored { rollback, restored },
            ran,
            demand,
        ),
    ensures
        !rollback.snapshot.active ==> ran.len() == 0,
        rollback.snapshot.active ==> ran.len() == 1 && is_service_run(
            ran[0].invocation,
            order.rc_service,
            order.service,
            "start"@,
        ),
        demand matches InstallDemand::Done(Err(_)),
        ({
            let told = demand->Done_0->Err_0@;
            let failed = "installation failed for OpenRC service "@ + order.service + ": "@
                + rollback.error@;
            let resumed = rollback.snapshot.active ==> ran[0].succeeded();
            &&& rollback.errors@.len() == 0 && restored is Ok && resumed ==> told == failed
            &&& rollback.errors@.len() == 0 && restored is Err && resumed ==> told == failed
                + "; rollback also encountered: init script restore failed: "@
                + restored->Err_0@
            &&& rollback.errors@.len() == 0 && restored is Ok && !resumed ==> told == failed
                + "; rollback also encountered: active state restore failed: "@
                + ran[0].fault()
        }),
        demand->Done_0->Err_0@ == process::install_fault(
            "OpenRC service "@ + order.service,
            rollback.error@,
            process::notes(
                plan::with_restore_error(text::texts(rollback.errors@), restored),
                order.resume_steps(rollback.snapshot),
                ran,
            ),
        ),
{
    let steps = order.resume_steps(rollback.snapshot);
    let errors = text::texts(rollback.errors@);
    let before = plan::with_restore_error(errors, restored);
    let noted = process::notes(before, steps, ran);
    reveal_with_fuel(process::notes, 2);
    reveal_strlit("installation failed for ");
    reveal_strlit("OpenRC service ");
    reveal_strlit("installation failed for OpenRC service ");
    reveal_strlit("; rollback also encountered: ");
    reveal_strlit("init script restore failed");
    reveal_strlit("active state restore failed");
    reveal_strlit(": ");
    reveal_strlit("; rollback also encountered: init script restore failed: ");
    reveal_strlit("; rollback also encountered: active state restore failed: ");
    let failed = "installation failed for OpenRC service "@ + order.service + ": "@
        + rollback.error@;
    assert("installation failed for "@ + ("OpenRC service "@ + order.service) + ": "@
        + rollback.error@ =~= failed);
    if ran.len() == 1 {
        assert(ran.last() == ran[0]);
        assert(steps.last() == steps[0]);
        assert(ran.drop_last() =~= Seq::empty());
    }
    if rollback.errors@.len() == 0 {
        assert(errors.len() == 0);
        if noted.len() == 1 {
            lemma_one_joined(noted);
        }
        if restored is Err {
            let why = restored->Err_0;
            if rollback.snapshot.active ==> ran[0].succeeded() {
                assert(noted =~= seq!["init script restore failed"@ + ": "@ + why@]);
                assert(failed + "; rollback also encountered: "@ + noted[0] =~= failed
                    + "; rollback also encountered: init script restore failed: "@ + why@);
            }
        } else if rollback.snapshot.active && !ran[0].succeeded() {
            assert(noted =~= seq!["active state restore failed"@ + ": "@ + ran[0].fault()]);
            assert(failed + "; rollback also encountered: "@ + noted[0] =~= failed
                + "; rollback also encountered: active state restore failed: "@ + ran[0].fault());
        }
    }
}

proof fn lemma_one_joined(parts: Seq<Seq<char>>)
    requires
        parts.len() == 1,
    ensures
        text::joined(parts, "; "@) == parts[0],
{
    reveal_with_fuel(text::joined, 2);
    assert(text::joined(parts, "; "@) =~= parts[0]);
}

// On the host as it is.

/// An installation is set up exactly where the init script stands directly in
/// `/etc/init.d` and both tools are found; otherwise the first of these that
/// fails is told.
pub proof fn law_failed_setups_are_told(host: HostTools, init_file: Seq<u8>)
    ensures
        ({
            let in_place = path::stands_in(init_file, utf8::encode_utf8("/etc/init.d"@));
            let fault = install::setup_fault(host, init_file);
            &&& fault is None <==> in_place && manager::rc_service_of(host) is Ok
                && manager::rc_update_of(host) is Ok
            &&& !in_place ==> fault == Some(
                "OpenRC init scripts must live in /etc/init.d: "@ + path::shown(init_file),
            )
            &&& in_place && manager::rc_service_of(host) is Err ==> fault == Some(
                manager::rc_service_of(host)->Err_0,
            )
            &&& in_place && manager::rc_service_of(host) is Ok && manager::rc_update_of(host)
                is Err ==> fault == Some(manager::rc_update_of(host)->Err_0)
        }),
        script::OPENRC_INIT_DIR@ == "/etc/init.d"@,
        tools::OPENRC_RUNLEVELS_DIR@ == "/etc/runlevels"@,
        install::OPENRC_INIT_MODE == 493,
{
    reveal_strlit("OpenRC init scripts must live in ");
    reveal_strlit("/etc/init.d");
    reveal_strlit(": ");
    reveal_strlit("OpenRC init scripts must live in /etc/init.d: ");
    assert("OpenRC init scripts must live in "@ + "/etc/init.d"@ + ": "@
        =~= "OpenRC init scripts must live in /etc/init.d: "@);
}

}
