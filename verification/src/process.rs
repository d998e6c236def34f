//! Running the host's service tools, and what is said when one fails.

use vstd::prelude::*;

use crate::path::FsPath;
use crate::text;
use crate::text::{join, trim};

pub use crate::journal::{Journal, ProcessExecutor};

verus! {

/// One run of a program.
#[derive(Debug, Clone, PartialEq, Eq)]
pub struct ProcessInvocation {
    /// What the run is for, as messages name it.
    pub operation: String,
    pub program: FsPath,
    pub args: Vec<String>,
    /// The service that the run is about.
    pub unit: Option<String>,
    /// Whether the program shares the caller's terminal.
    pub inherit_stdio: bool,
}

/// What a run left behind.
#[derive(Debug, Clone, PartialEq, Eq)]
pub struct ProcessOutput {
    pub success: bool,
    pub code: Option<i32>,
    pub stdout: String,
    pub stderr: String,
}

pub struct InvocationView {
    pub operation: Seq<char>,
    pub program: Seq<u8>,
    pub args: Seq<Seq<char>>,
    pub unit: Option<Seq<char>>,
    pub inherit_stdio: bool,
}

pub struct OutputView {
    pub success: bool,
    pub code: Option<i32>,
    pub stdout: Seq<char>,
    pub stderr: Seq<char>,
}

impl View for ProcessInvocation {
    type V = InvocationView;

    open spec fn view(&self) -> InvocationView {
        InvocationView {
            operation: self.operation@,
            program: self.program@,
            args: text::texts(self.args@),
            unit: text::text_of(self.unit),
            inherit_stdio: self.inherit_stdio,
        }
    }
}

impl View for ProcessOutput {
    type V = OutputView;

    open spec fn view(&self) -> OutputView {
        OutputView {
            success: self.success,
            code: self.code,
            stdout: self.stdout@,
            stderr: self.stderr@,
        }
    }
}

/// How a run ended: with an output, or with the reason why there is none.
pub open spec fn outcome_of(result: Result<ProcessOutput, String>) -> Result<
    OutputView,
    Seq<char>,
> {
    match result {
        Ok(output) => Ok(output@),
        Err(error) => Err(error@),
    }
}

/// A run and how it ended.
pub struct Exchange {
    pub invocation: InvocationView,
    pub outcome: Result<OutputView, Seq<char>>,
}

impl Exchange {
    /// The program ran and reported success.
    pub open spec fn succeeded(self) -> bool {
        self.outcome matches Ok(output) && output.success
    }

    /// What is said of a run that did not succeed.
    pub open spec fn fault(self) -> Seq<char> {
        match self.outcome {
            Ok(output) => self.invocation.operation + " failed: "@ + text::trimmed(output.stderr),
            Err(error) => error,
        }
    }
}

/// The runs of `after` that are not in `before`.
pub open spec fn since(before: Seq<Exchange>, after: Seq<Exchange>) -> Seq<Exchange> {
    after.skip(before.len() as int)
}

/// One more run adds one exchange to those since `before`.
pub proof fn lemma_one_more_run(
    before: Seq<Exchange>,
    now: Seq<Exchange>,
    after: Seq<Exchange>,
)
    requires
        before.is_prefix_of(now),
        after.len() == now.len() + 1,
        after.drop_last() == now,
    ensures
        before.is_prefix_of(after),
        since(before, after) == since(before, now).push(after.last()),
{
    assert(now =~= after.take(now.len() as int));
    assert(before =~= after.take(before.len() as int));
    assert(since(before, after) =~= since(before, now).push(after.last()));
}

/// Runs in two turns are those of the first turn and those of the second.
pub proof fn lemma_runs_in_turn(
    before: Seq<Exchange>,
    between: Seq<Exchange>,
    after: Seq<Exchange>,
)
    requires
        before.is_prefix_of(between),
        between.is_prefix_of(after),
    ensures
        before.is_prefix_of(after),
        ({
            let n = between.len() - before.len();
            &&& since(before, after).take(n) == since(before, between)
            &&& since(before, after).skip(n) == since(between, after)
        }),
{
    let n = between.len() - before.len();
    assert(before =~= after.take(before.len() as int));
    assert(between =~= after.take(between.len() as int));
    assert(since(before, after).take(n) =~= since(before, between));
    assert(since(before, after).skip(n) =~= since(between, after));
}

/// Before any run there is none since `before`.
pub proof fn lemma_no_run(before: Seq<Exchange>)
    ensures
        before.is_prefix_of(before),
        since(before, before) == Seq::<Exchange>::empty(),
{
    assert(since(before, before) =~= Seq::<Exchange>::empty());
    assert(before =~= before.take(before.len() as int));
}

/// `ran` are the runs of `steps` in order, up to and with the first that did
/// not succeed.
pub open spec fn runs_until_fault(steps: Seq<InvocationView>, ran: Seq<Exchange>) -> bool {
    &&& ran.len() <= steps.len()
    &&& forall|i: int| 0 <= i < ran.len() ==> (#[trigger] ran[i]).invocation == steps[i]
    &&& forall|i: int| 0 <= i < ran.len() - 1 ==> (#[trigger] ran[i]).succeeded()
    &&& ran.len() < steps.len() ==> ran.len() > 0 && !ran.last().succeeded()
}

/// What is said of runs that end with the first that did not succeed; nothing
/// where all of them succeeded.
pub open spec fn fault_of(ran: Seq<Exchange>) -> Option<Seq<char>> {
    if ran.len() > 0 && !ran.last().succeeded() {
        Some(ran.last().fault())
    } else {
        None
    }
}

/// An error under the name of what it spoiled.
pub open spec fn labelled(label: Seq<char>, error: Seq<char>) -> Seq<char> {
    label + ": "@ + error
}

/// What a failed attempt to undo a step adds to the list of errors.
pub open spec fn noted(errors: Seq<Seq<char>>, label: Seq<char>, ran: Exchange) -> Seq<Seq<char>> {
    if ran.succeeded() {
        errors
    } else {
        errors.push(labelled(label, ran.fault()))
    }
}

/// `result` says what `expected` says.
pub open spec fn says<T>(result: Result<T, String>, expected: Result<T, Seq<char>>) -> bool {
    match result {
        Ok(value) => expected == Ok::<T, Seq<char>>(value),
        Err(error) => expected == Err::<T, Seq<char>>(error@),
    }
}

/// `result` is the failure that `fault` describes.
pub open spec fn fails_with<T>(result: Result<T, String>, fault: Seq<char>) -> bool {
    result matches Err(error) && error@ == fault
}

/// A run that undoes something, and what its failure is noted as.
pub struct UndoStep {
    pub invocation: InvocationView,
    pub label: Seq<char>,
}

/// `ran` are the runs of `steps` in order, whatever came of each.
pub open spec fn undoes(steps: Seq<UndoStep>, ran: Seq<Exchange>) -> bool {
    &&& ran.len() == steps.len()
    &&& forall|i: int| 0 <= i < ran.len() ==> (#[trigger] ran[i]).invocation == steps[i].invocation
}

/// What the runs of `steps` that failed add to `errors`.
pub open spec fn notes(
    errors: Seq<Seq<char>>,
    steps: Seq<UndoStep>,
    ran: Seq<Exchange>,
) -> Seq<Seq<char>>
    decreases ran.len(),
{
    if ran.len() == 0 {
        errors
    } else {
        noted(notes(errors, steps.drop_last(), ran.drop_last()), steps.last().label, ran.last())
    }
}

/// One more step to undo something adds its own run and its own note.
pub proof fn lemma_one_more_undone(
    errors: Seq<Seq<char>>,
    steps: Seq<UndoStep>,
    ran: Seq<Exchange>,
    step: UndoStep,
    run: Exchange,
)
    requires
        undoes(steps, ran),
        run.invocation == step.invocation,
    ensures
        undoes(steps.push(step), ran.push(run)),
        notes(errors, steps.push(step), ran.push(run)) == noted(
            notes(errors, steps, ran),
            step.label,
            run,
        ),
{
    assert(steps.push(step).drop_last() =~= steps);
    assert(ran.push(run).drop_last() =~= ran);
}

/// Where nothing is noted, every run succeeded.
pub proof fn lemma_nothing_noted(
    errors: Seq<Seq<char>>,
    steps: Seq<UndoStep>,
    ran: Seq<Exchange>,
)
    requires
        notes(errors, steps, ran).len() == 0,
    ensures
        errors.len() == 0,
        forall|i: int| 0 <= i < ran.len() ==> (#[trigger] ran[i]).succeeded(),
    decreases ran.len(),
{
    if ran.len() > 0 {
        lemma_nothing_noted(errors, steps.drop_last(), ran.drop_last());
        assert forall|i: int| 0 <= i < ran.len() implies (#[trigger] ran[i]).succeeded() by {
            if i < ran.len() - 1 {
                assert(ran.drop_last()[i] == ran[i]);
            }
        }
    }
}

/// Runs a program whose success is needed to go on.
pub fn execute_required<E: ProcessExecutor>(
    executor: &mut Journal<E>,
    invocation: &ProcessInvocation,
) -> (result: Result<ProcessOutput, String>)
    ensures
        final(executor).history().len() == old(executor).history().len() + 1,
        final(executor).history().drop_last() == old(executor).history(),
        final(executor).history().last().invocation == invocation@,
        exists|runner: &mut E, given: Result<ProcessOutput, String>|
            #![auto]
            *runner == old(executor).runner() && *final(runner) == final(executor).runner()
                && call_ensures(E::execute, (runner, invocation), given) && outcome_of(given)
                == final(executor).history().last().outcome,
        ({
            let run = final(executor).history().last();
            match result {
                Ok(output) => run.succeeded() && run.outcome == Ok::<OutputView, Seq<char>>(output@),
                Err(error) => !run.succeeded() && error@ == run.fault(),
            }
        }),
{
    let ghost before = executor.history();
    let result = executor.execute(invocation);
    assert(executor.history().drop_last() =~= before);
    match result {
        Ok(output) => {
            if output.success {
                Ok(output)
            } else {
                let mut message = invocation.operation.clone();
                message.append(" failed: ");
                message.append(trim(output.stderr.as_str()).as_str());
                Err(message)
            }
        },
        Err(error) => Err(error),
    }
}

/// Adds `error` to `errors` under the name of what it spoiled.
pub fn push_rollback_error(errors: &mut Vec<String>, label: &str, error: String)
    ensures
        text::texts(final(errors)@) == text::texts(old(errors)@).push(labelled(label@, error@)),
{
    let mut message = label.to_owned();
    message.append(": ");
    message.append(error.as_str());
    errors.push(message);
    assert(text::texts(errors@) =~= text::texts(old(errors)@).push(labelled(label@, error@)));
}

/// Runs a program to undo a step. A failure is noted and does not stop what
/// follows.
pub fn best_effort_execute<E: ProcessExecutor>(
    executor: &mut Journal<E>,
    invocation: &ProcessInvocation,
    label: &str,
    errors: &mut Vec<String>,
)
    ensures
        final(executor).history().len() == old(executor).history().len() + 1,
        final(executor).history().drop_last() == old(executor).history(),
        final(executor).history().last().invocation == invocation@,
        exists|runner: &mut E, given: Result<ProcessOutput, String>|
            #![auto]
            *runner == old(executor).runner() && *final(runner) == final(executor).runner()
                && call_ensures(E::execute, (runner, invocation), given) && outcome_of(given)
                == final(executor).history().last().outcome,
        text::texts(final(errors)@) == noted(
            text::texts(old(errors)@),
            label@,
            final(executor).history().last(),
        ),
{
    match execute_required(executor, invocation) {
        Ok(_) => {},
        Err(error) => push_rollback_error(errors, label, error),
    }
}

/// The message of an installation that failed and was undone.
pub open spec fn install_fault(
    what: Seq<char>,
    error: Seq<char>,
    rollback_errors: Seq<Seq<char>>,
) -> Seq<char> {
    let message = "installation failed for "@ + what + ": "@ + error;
    if rollback_errors.len() == 0 {
        message
    } else {
        message + "; rollback also encountered: "@ + text::joined(rollback_errors, "; "@)
    }
}

pub fn install_error_with_rollback(
    what: &str,
    error: String,
    rollback_errors: Vec<String>,
) -> (result: String)
    ensures
        result@ == install_fault(what@, error@, text::texts(rollback_errors@)),
{
    let mut message = "installation failed for ".to_owned();
    message.append(what);
    message.append(": ");
    message.append(error.as_str());
    if !rollback_errors.is_empty() {
        message.append("; rollback also encountered: ");
        message.append(join(&rollback_errors, "; ").as_str());
    }
    message
}

}
