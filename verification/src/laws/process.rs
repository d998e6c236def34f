//! Laws of runs and of what is said when they fail.

use vstd::prelude::*;

use crate::process;
use crate::process::{
    Exchange, InvocationView, OutputView, ProcessInvocation, ProcessOutput, UndoStep,
};
use crate::text;

verus! {

/// What is known of a run is all of what was asked for and all of what came of
/// it.
pub proof fn law_runs_are_known_whole(invocation: ProcessInvocation, output: ProcessOutput)
    ensures
        invocation@.operation == invocation.operation@,
        invocation@.program == invocation.program.bytes@,
        invocation@.args.len() == invocation.args@.len(),
        forall|i: int|
            0 <= i < invocation.args@.len() ==> #[trigger] invocation@.args[i]
                == invocation.args@[i]@,
        invocation@.unit is Some <==> invocation.unit is Some,
        invocation.unit matches Some(unit) ==> invocation@.unit == Some(unit@),
        invocation@.inherit_stdio == invocation.inherit_stdio,
        output@.success == output.success,
        output@.code == output.code,
        output@.stdout == output.stdout@,
        output@.stderr == output.stderr@,
        process::outcome_of(Ok(output)) == Ok::<OutputView, Seq<char>>(output@),
{
}

/// A run succeeded exactly where the program ran and said so. One that failed
/// is told with the operation's name and what it printed to standard error,
/// trimmed; one that could not be made, with the reason.
pub proof fn law_failed_runs_tell_why(run: Exchange)
    ensures
        run.succeeded() <==> (run.outcome matches Ok(output) && output.success),
        run.outcome matches Ok(output) ==> run.fault() == run.invocation.operation + " failed: "@
            + text::trimmed(output.stderr),
        run.outcome matches Err(error) ==> run.fault() == error,
{
}

/// The outcome of a run that could not be made is its reason.
pub proof fn law_runs_that_were_not_made(error: String)
    ensures
        process::outcome_of(Err(error)) == Err::<OutputView, Seq<char>>(error@),
{
}

/// What came since a history is what was added to it, all of it and in order.
pub proof fn law_since_is_what_was_added(before: Seq<Exchange>, added: Seq<Exchange>)
    ensures
        process::since(before, before + added) == added,
{
    assert(process::since(before, before + added) =~= added);
}

/// Steps that must all succeed are run in order: a step is run exactly where
/// every one before it was run and succeeded.
pub proof fn law_steps_run_until_one_fails(steps: Seq<InvocationView>, ran: Seq<Exchange>)
    ensures
        process::runs_until_fault(steps, ran) ==> ran.len() <= steps.len() && (forall|i: int|
            0 <= i < ran.len() ==> (#[trigger] ran[i]).invocation == steps[i]) && (forall|i: int|
            0 <= i < ran.len() - 1 ==> (#[trigger] ran[i]).succeeded()),
        process::runs_until_fault(steps, ran) && steps.len() > 0 ==> ran.len() > 0,
        process::runs_until_fault(steps, ran) && (forall|i: int|
            0 <= i < ran.len() ==> (#[trigger] ran[i]).succeeded()) ==> ran.len() == steps.len(),
        ran.len() == steps.len() && (forall|i: int|
            0 <= i < ran.len() ==> (#[trigger] ran[i]).invocation == steps[i]) && (forall|i: int|
            0 <= i < ran.len() ==> (#[trigger] ran[i]).succeeded())
            ==> process::runs_until_fault(steps, ran),
{
    if process::runs_until_fault(steps, ran) && ran.len() > 0 && (forall|i: int|
        0 <= i < ran.len() ==> (#[trigger] ran[i]).succeeded()) {
        assert(ran[ran.len() - 1].succeeded());
    }
}

/// Runs that must all succeed have no fault exactly where all of them did; their
/// fault is that of the last.
pub proof fn law_the_fault_is_that_of_the_last_run(
    steps: Seq<InvocationView>,
    ran: Seq<Exchange>,
)
    requires
        process::runs_until_fault(steps, ran),
    ensures
        process::fault_of(ran) is None <==> forall|i: int|
            0 <= i < ran.len() ==> (#[trigger] ran[i]).succeeded(),
        process::fault_of(ran) matches Some(fault) ==> ran.len() > 0 && fault == ran[ran.len()
            - 1].fault(),
{
    if ran.len() > 0 {
        let last = ran[ran.len() - 1];
        assert(ran.last() == last);
    }
}

/// Every step to undo something is run, whatever came of those before.
pub proof fn law_every_undo_step_is_run(steps: Seq<UndoStep>, ran: Seq<Exchange>)
    ensures
        process::undoes(steps, ran) <==> ran.len() == steps.len() && forall|i: int|
            0 <= i < steps.len() ==> ran[i].invocation == (#[trigger] steps[i]).invocation,
{
    if ran.len() == steps.len() && (forall|i: int|
        0 <= i < steps.len() ==> ran[i].invocation == (#[trigger] steps[i]).invocation) {
        assert forall|i: int| 0 <= i < ran.len() implies (#[trigger] ran[i]).invocation
            == steps[i].invocation by {
            let step = steps[i];
        }
    }
    if process::undoes(steps, ran) {
        assert forall|i: int| 0 <= i < steps.len() implies ran[i].invocation == (
        #[trigger] steps[i]).invocation by {
            let run = ran[i];
        }
    }
}

/// What goes wrong in undoing is noted behind what was noted before: nothing of
/// a run that succeeded, and of one that failed its label and its fault.
pub proof fn law_failed_undoing_is_noted(
    errors: Seq<Seq<char>>,
    steps: Seq<UndoStep>,
    ran: Seq<Exchange>,
    step: UndoStep,
    run: Exchange,
)
    requires
        ran.len() == steps.len(),
    ensures
        process::notes(errors, Seq::empty(), Seq::empty()) == errors,
        run.succeeded() ==> process::notes(errors, steps.push(step), ran.push(run))
            == process::notes(errors, steps, ran),
        !run.succeeded() ==> process::notes(errors, steps.push(step), ran.push(run))
            == process::notes(errors, steps, ran).push(step.label + ": "@ + run.fault()),
{
    assert(steps.push(step).drop_last() =~= steps);
    assert(ran.push(run).drop_last() =~= ran);
}

/// A failed installation is told with what was installed and why it failed, and
/// with all that went wrong in undoing it where anything did.
pub proof fn law_failed_installations_tell_why(
    what: Seq<char>,
    error: Seq<char>,
    rollback_errors: Seq<Seq<char>>,
)
    ensures
        rollback_errors.len() == 0 ==> process::install_fault(what, error, rollback_errors)
            == "installation failed for "@ + what + ": "@ + error,
        rollback_errors.len() > 0 ==> process::install_fault(what, error, rollback_errors)
            == "installation failed for "@ + what + ": "@ + error
            + "; rollback also encountered: "@ + text::joined(rollback_errors, "; "@),
{
}

/// A result says the error, or has the value, that is expected of it.
pub proof fn law_results_say_what_is_expected<T>(
    result: Result<T, String>,
    expected: Result<T, Seq<char>>,
    fault: Seq<char>,
)
    ensures
        process::says(result, expected) <==> {
            ||| (result matches Ok(value) && expected matches Ok(other) && value == other)
            ||| (result matches Err(error) && expected matches Err(other) && error@ == other)
        },
        process::fails_with(result, fault) <==> (result matches Err(error) && error@ == fault),
{
}

}
