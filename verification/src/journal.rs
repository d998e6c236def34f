//! Running programs and keeping a record of it. Only here is the record
//! written, so that every entry of it is a call of the executor.

use vstd::prelude::*;

use crate::process;
use crate::process::{Exchange, ProcessInvocation, ProcessOutput};

verus! {

/// What runs programs. How a run ends is up to the implementation.
pub trait ProcessExecutor {
    fn execute(&mut self, invocation: &ProcessInvocation) -> Result<ProcessOutput, String>;
}

/// An executor whose runs are taken down.
pub struct Journal<E> {
    executor: E,
    history: Ghost<Seq<Exchange>>,
}

impl<E> Journal<E> {
    /// The runs so far and how they ended.
    pub closed spec fn history(&self) -> Seq<Exchange> {
        self.history@
    }

    /// What runs the programs.
    pub closed spec fn runner(&self) -> E {
        self.executor
    }

    /// A journal without any run.
    pub fn new(executor: E) -> (result: Journal<E>)
        ensures
            result.runner() == executor,
            result.history() == Seq::<Exchange>::empty(),
    {
        Journal { executor, history: Ghost(Seq::empty()) }
    }

    pub fn executor(&self) -> (result: &E)
        ensures
            *result == self.runner(),
    {
        &self.executor
    }
}

impl<E: ProcessExecutor> Journal<E> {
    /// Has the executor run a program, once, and takes down how that ended: the
    /// result is what the executor gave when it was asked for this very run.
    pub fn execute(&mut self, invocation: &ProcessInvocation) -> (result: Result<
        ProcessOutput,
        String,
    >)
        ensures
            exists|executor: &mut E|
                #![auto]
                *executor == old(self).runner() && *final(executor) == final(self).runner()
                    && call_ensures(E::execute, (executor, invocation), result),
            final(self).history() == old(self).history().push(
                (Exchange { invocation: invocation@, outcome: process::outcome_of(result) }),
            ),
    {
        let result = self.executor.execute(invocation);
        self.history = Ghost(
            self.history@.push(
                Exchange { invocation: invocation@, outcome: process::outcome_of(result) },
            ),
        );
        result
    }
}

}
