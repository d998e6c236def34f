//! The plan of an installation once the init script is written: putting the
//! service into the default runlevel and starting it, and undoing both where a
//! step fails.

use vstd::prelude::*;

use crate::openrc::tools;
use crate::openrc::tools::{
    rc_service_invocation, rc_update_invocation, rc_update_show_invocation, runlevel_lists_service,
};
use crate::path::FsPath;
use crate::process;
use crate::process::{
    best_effort_execute, execute_required, push_rollback_error, Exchange, InvocationView,
    Journal, ProcessExecutor, UndoStep,
};
use crate::text;

verus! {

/// What was there before the installation.
#[derive(Debug, Clone, PartialEq, Eq)]
pub struct OpenrcInstallSnapshot {
    pub previous_content: Option<String>,
    /// Whether the service was in the default runlevel.
    pub enabled: bool,
    /// Whether the service was running.
    pub active: bool,
}

// The plan.

/// The runs that make an installed service part of the default runlevel and,
/// unless it is not to be started, run it. A service that was running adopts
/// its new init script by a restart.
pub open spec fn install_steps(
    rc_service: Seq<u8>,
    rc_update: Seq<u8>,
    service: Seq<char>,
    snapshot: OpenrcInstallSnapshot,
    no_start: bool,
) -> Seq<InvocationView> {
    let enable = if snapshot.enabled {
        Seq::empty()
    } else {
        seq![tools::rc_update_run(rc_update, "add"@, service)]
    };
    if no_start {
        enable.push(tools::rc_update_show_run(rc_update, service))
    } else {
        enable.push(
            tools::rc_service_run(
                rc_service,
                service,
                if snapshot.active {
                    "restart"@
                } else {
                    "start"@
                },
            ),
        ).push(tools::rc_service_run(rc_service, service, "status"@))
    }
}

/// Why the plan failed by the runs `ran`, if it did: the first of its steps
/// that failed, or a runlevel that does not list the service.
pub open spec fn plan_fault(
    service: Seq<char>,
    no_start: bool,
    ran: Seq<Exchange>,
) -> Option<Seq<char>> {
    match process::fault_of(ran) {
        Some(fault) => Some(fault),
        None => if no_start && !tools::lists_service(ran.last().outcome->Ok_0.stdout, service) {
            Some(
                "rc-update add reported success but "@ + service
                    + " is not listed in the default runlevel"@,
            )
        } else {
            None
        },
    }
}

pub fn execute_openrc_install_plan<E: ProcessExecutor>(
    executor: &mut Journal<E>,
    rc_service: &FsPath,
    rc_update: &FsPath,
    service: &str,
    snapshot: &OpenrcInstallSnapshot,
    no_start: bool,
) -> (result: Result<(), String>)
    ensures
        old(executor).history().is_prefix_of(final(executor).history()),
        ({
            let ran = process::since(old(executor).history(), final(executor).history());
            &&& process::runs_until_fault(
                install_steps(rc_service@, rc_update@, service@, *snapshot, no_start),
                ran,
            )
            &&& match plan_fault(service@, no_start, ran) {
                Some(fault) => process::fails_with(result, fault),
                None => result is Ok,
            }
        }),
{
    let ghost before = executor.history();
    let ghost steps = install_steps(rc_service@, rc_update@, service@, *snapshot, no_start);
    proof {
        process::lemma_no_run(before);
    }
    if !snapshot.enabled {
        let added = execute_required(executor, &rc_update_invocation(rc_update, "add", service));
        proof {
            process::lemma_one_more_run(before, before, executor.history());
        }
        match added {
            Ok(_) => {},
            Err(error) => return Err(error),
        }
    }
    let ghost enabled = executor.history();
    if no_start {
        let shown = execute_required(executor, &rc_update_show_invocation(rc_update, service));
        proof {
            process::lemma_one_more_run(before, enabled, executor.history());
        }
        let output = match shown {
            Ok(output) => output,
            Err(error) => return Err(error),
        };
        if !runlevel_lists_service(output.stdout.as_str(), service) {
            let mut message = "rc-update add reported success but ".to_owned();
            message.append(service);
            message.append(" is not listed in the default runlevel");
            return Err(message);
        }
        return Ok(());
    }
    let action = if snapshot.active {
        "restart"
    } else {
        "start"
    };
    let started = execute_required(executor, &rc_service_invocation(rc_service, service, action));
    let ghost acted = executor.history();
    proof {
        process::lemma_one_more_run(before, enabled, acted);
    }
    match started {
        Ok(_) => {},
        Err(error) => return Err(error),
    }
    let status = execute_required(executor, &rc_service_invocation(rc_service, service, "status"));
    proof {
        process::lemma_one_more_run(before, acted, executor.history());
    }
    match status {
        Ok(_) => Ok(()),
        Err(error) => Err(error),
    }
}

// Undoing it.

/// The runs that undo a plan before its init script is restored: a service
/// that may have been started is stopped, and one that was not in the default
/// runlevel is taken out of it.
pub open spec fn undo_steps(
    rc_service: Seq<u8>,
    rc_update: Seq<u8>,
    service: Seq<char>,
    snapshot: OpenrcInstallSnapshot,
    attempted_start: bool,
) -> Seq<UndoStep> {
    let stop = if attempted_start {
        seq![
            UndoStep {
                invocation: tools::rc_service_run(rc_service, service, "stop"@),
                label: "stop failed"@,
            },
        ]
    } else {
        Seq::empty()
    };
    if snapshot.enabled {
        stop
    } else {
        stop.push(
            UndoStep {
                invocation: tools::rc_update_run(rc_update, "del"@, service),
                label: "rc-update del failed"@,
            },
        )
    }
}

/// The runs that undo a plan after its init script was restored: a service
/// that was running is started again.
pub open spec fn resume_steps(
    rc_service: Seq<u8>,
    service: Seq<char>,
    snapshot: OpenrcInstallSnapshot,
) -> Seq<UndoStep> {
    if snapshot.active {
        seq![
            UndoStep {
                invocation: tools::rc_service_run(rc_service, service, "start"@),
                label: "active state restore failed"@,
            },
        ]
    } else {
        Seq::empty()
    }
}

/// What a failed attempt to restore the init script adds to the errors.
pub open spec fn with_restore_error(
    errors: Seq<Seq<char>>,
    restored: Result<(), String>,
) -> Seq<Seq<char>> {
    match restored {
        Ok(_) => errors,
        Err(error) => errors.push(process::labelled("init script restore failed"@, error@)),
    }
}

/// Undoes a failed plan as far as that comes before restoring the init script.
/// The result is what went wrong on the way.
pub fn rollback_openrc_install<E: ProcessExecutor>(
    executor: &mut Journal<E>,
    rc_service: &FsPath,
    rc_update: &FsPath,
    service: &str,
    snapshot: &OpenrcInstallSnapshot,
    attempted_start: bool,
) -> (result: Vec<String>)
    ensures
        old(executor).history().is_prefix_of(final(executor).history()),
        ({
            let ran = process::since(old(executor).history(), final(executor).history());
            let steps = undo_steps(rc_service@, rc_update@, service@, *snapshot, attempted_start);
            &&& process::undoes(steps, ran)
            &&& text::texts(result@) == process::notes(Seq::empty(), steps, ran)
        }),
{
    let mut errors: Vec<String> = Vec::new();
    let ghost before = executor.history();
    let ghost mut steps: Seq<UndoStep> = Seq::empty();
    proof {
        process::lemma_no_run(before);
        assert(text::texts(errors@) =~= Seq::<Seq<char>>::empty());
    }
    if attempted_start {
        best_effort_execute(
            executor,
            &rc_service_invocation(rc_service, service, "stop"),
            "stop failed",
            &mut errors,
        );
        proof {
            let step = UndoStep {
                invocation: tools::rc_service_run(rc_service@, service@, "stop"@),
                label: "stop failed"@,
            };
            process::lemma_one_more_run(before, before, executor.history());
            process::lemma_one_more_undone(
                Seq::empty(),
                steps,
                process::since(before, before),
                step,
                executor.history().last(),
            );
            assert(steps.push(step) =~= seq![step]);
            steps = steps.push(step);
        }
    }
    let ghost stopped = executor.history();
    if !snapshot.enabled {
        best_effort_execute(
            executor,
            &rc_update_invocation(rc_update, "del", service),
            "rc-update del failed",
            &mut errors,
        );
        proof {
            let step = UndoStep {
                invocation: tools::rc_update_run(rc_update@, "del"@, service@),
                label: "rc-update del failed"@,
            };
            process::lemma_one_more_run(before, stopped, executor.history());
            process::lemma_one_more_undone(
                Seq::empty(),
                steps,
                process::since(before, stopped),
                step,
                executor.history().last(),
            );
            steps = steps.push(step);
        }
    }
    errors
}

/// Undoes what is left to undo after the attempt to restore the init script.
/// The result is what went wrong, `errors` first.
pub fn resume_after_rollback<E: ProcessExecutor>(
    executor: &mut Journal<E>,
    rc_service: &FsPath,
    service: &str,
    snapshot: &OpenrcInstallSnapshot,
    errors: Vec<String>,
    restored: Result<(), String>,
) -> (result: Vec<String>)
    ensures
        old(executor).history().is_prefix_of(final(executor).history()),
        ({
            let ran = process::since(old(executor).history(), final(executor).history());
            let steps = resume_steps(rc_service@, service@, *snapshot);
            &&& process::undoes(steps, ran)
            &&& text::texts(result@) == process::notes(
                with_restore_error(text::texts(errors@), restored),
                steps,
                ran,
            )
        }),
{
    let mut errors = errors;
    let ghost before = executor.history();
    let ghost noted = with_restore_error(text::texts(errors@), restored);
    proof {
        process::lemma_no_run(before);
    }
    match restored {
        Ok(_) => {},
        Err(error) => push_rollback_error(&mut errors, "init script restore failed", error),
    }
    if snapshot.active {
        best_effort_execute(
            executor,
            &rc_service_invocation(rc_service, service, "start"),
            "active state restore failed",
            &mut errors,
        );
        proof {
            let step = UndoStep {
                invocation: tools::rc_service_run(rc_service@, service@, "start"@),
                label: "active state restore failed"@,
            };
            process::lemma_one_more_run(before, before, executor.history());
            process::lemma_one_more_undone(
                noted,
                Seq::empty(),
                process::since(before, before),
                step,
                executor.history().last(),
            );
            assert(Seq::empty().push(step) =~= seq![step]);
        }
    }
    errors
}

// What holds of every plan.

/// A plan that is not to start the service runs rc-update only, and so does
/// undoing it; only a service that was running is started again in the end.
pub proof fn law_no_start_leaves_the_service_alone(
    rc_service: Seq<u8>,
    rc_update: Seq<u8>,
    service: Seq<char>,
    snapshot: OpenrcInstallSnapshot,
)
    ensures
        ({
            let steps = install_steps(rc_service, rc_update, service, snapshot, true);
            forall|i: int|
                0 <= i < steps.len() ==> #[trigger] steps[i] == tools::rc_update_run(
                    rc_update,
                    "add"@,
                    service,
                ) || steps[i] == tools::rc_update_show_run(rc_update, service)
        }),
        ({
            let steps = undo_steps(rc_service, rc_update, service, snapshot, false);
            forall|i: int|
                0 <= i < steps.len() ==> (#[trigger] steps[i]).invocation == tools::rc_update_run(
                    rc_update,
                    "del"@,
                    service,
                )
        }),
        !snapshot.active ==> resume_steps(rc_service, service, snapshot).len() == 0,
{
}

/// Where a plan succeeds, every one of its steps was run and succeeded, and its
/// last run was a look at what it came to: the service is listed, or runs.
pub proof fn law_successful_plan_was_verified(
    rc_service: Seq<u8>,
    rc_update: Seq<u8>,
    service: Seq<char>,
    snapshot: OpenrcInstallSnapshot,
    no_start: bool,
    ran: Seq<Exchange>,
)
    requires
        process::runs_until_fault(
            install_steps(rc_service, rc_update, service, snapshot, no_start),
            ran,
        ),
        plan_fault(service, no_start, ran) is None,
    ensures
        ran.len() == install_steps(rc_service, rc_update, service, snapshot, no_start).len(),
        forall|i: int| 0 <= i < ran.len() ==> (#[trigger] ran[i]).succeeded(),
        no_start ==> ran.last().invocation == tools::rc_update_show_run(rc_update, service)
            && tools::lists_service(ran.last().outcome->Ok_0.stdout, service),
        !no_start ==> ran.last().invocation == tools::rc_service_run(
            rc_service,
            service,
            "status"@,
        ),
{
}

}
