//! What the runs of the OpenRC tools do to the service, and that undoing an
//! installation or an uninstallation gives back the state from before.

use vstd::prelude::*;

use crate::openrc::install;
use crate::openrc::install::{InstallDemand, InstallOrder, InstallReport};
use crate::openrc::plan;
use crate::openrc::plan::OpenrcInstallSnapshot;
use crate::openrc::tools;
use crate::openrc::uninstall;
use crate::process;
use crate::process::Exchange;
use crate::text;

verus! {

/// Whether a service is in the default runlevel, and whether it runs.
pub struct ServiceState {
    pub enabled: bool,
    pub active: bool,
}

/// A service and the tools that act on it.
pub struct Managed {
    pub rc_service: Seq<u8>,
    pub rc_update: Seq<u8>,
    pub service: Seq<char>,
}

impl Managed {
    /// `run` is the run of rc-service for this action on the service.
    pub open spec fn is_action(self, run: Exchange, action: Seq<char>) -> bool {
        run.invocation == tools::rc_service_run(self.rc_service, self.service, action)
    }

    /// `run` is the run of rc-update for this action on the service.
    pub open spec fn is_update(self, run: Exchange, action: Seq<char>) -> bool {
        run.invocation == tools::rc_update_run(self.rc_update, action, self.service)
    }

    /// `run` may take the service from the state `before` to the state
    /// `after`. A run that succeeds does what its name says; one that fails may
    /// leave what it acts on in any state.
    pub open spec fn may_leave(
        self,
        before: ServiceState,
        run: Exchange,
        after: ServiceState,
    ) -> bool {
        if self.is_action(run, "start"@) || self.is_action(run, "restart"@) {
            after.enabled == before.enabled && (run.succeeded() ==> after.active)
        } else if self.is_action(run, "stop"@) {
            after.enabled == before.enabled && (run.succeeded() ==> !after.active)
        } else if self.is_update(run, "add"@) {
            after.active == before.active && (run.succeeded() ==> after.enabled)
        } else if self.is_update(run, "del"@) {
            after.active == before.active && (run.succeeded() ==> !after.enabled)
        } else {
            after == before
        }
    }

    /// The runs `ran` take the service through the states `trace`.
    pub open spec fn passes_through(self, ran: Seq<Exchange>, trace: Seq<ServiceState>) -> bool {
        &&& trace.len() == ran.len() + 1
        &&& forall|i: int|
            0 <= i < ran.len() ==> self.may_leave(trace[i], #[trigger] ran[i], trace[i + 1])
    }
}

/// The runs of the tools are told apart by what they are for: each does what
/// its own name says and nothing else.
proof fn lemma_effect(managed: Managed, before: ServiceState, run: Exchange, after: ServiceState)
    requires
        managed.may_leave(before, run, after),
    ensures
        managed.is_action(run, "start"@) || managed.is_action(run, "restart"@) ==> after.enabled
            == before.enabled && (run.succeeded() ==> after.active),
        managed.is_action(run, "stop"@) ==> after.enabled == before.enabled && (run.succeeded()
            ==> !after.active),
        managed.is_update(run, "add"@) ==> after.active == before.active && (run.succeeded()
            ==> after.enabled),
        managed.is_update(run, "del"@) ==> after.active == before.active && (run.succeeded()
            ==> !after.enabled),
        managed.is_action(run, "status"@) || run.invocation == tools::rc_update_show_run(
            managed.rc_update,
            managed.service,
        ) ==> after == before,
{
    reveal_strlit("start");
    reveal_strlit("restart");
    reveal_strlit("stop");
    reveal_strlit("status");
    reveal_strlit("add");
    reveal_strlit("del");
    reveal_strlit("rc-service ");
    reveal_strlit("rc-update ");
    reveal_strlit("rc-update show");
    let operation = run.invocation.operation;
    assert forall|action: Seq<char>| #[trigger] managed.is_action(run, action) implies operation[3]
        == 's' && operation.skip(11) == action by {
        assert(operation.skip(11) =~= action);
    }
    assert forall|action: Seq<char>| #[trigger] managed.is_update(run, action) implies operation[3]
        == 'u' && operation.skip(10) == action by {
        assert(operation.skip(10) =~= action);
    }
    if run.invocation == tools::rc_update_show_run(managed.rc_update, managed.service) {
        assert(operation[3] == 'u');
        assert(operation.skip(10)[0] == 's');
    }
    assert("start"@.len() != "restart"@.len());
    assert("start"@.len() != "stop"@.len());
    assert("start"@.len() != "status"@.len());
    assert("add"@[0] != "del"@[0]);
    assert("add"@[0] != 's' && "del"@[0] != 's');
}

/// The service and the tools of an installation.
pub open spec fn managed_by(order: InstallOrder) -> Managed {
    Managed { rc_service: order.rc_service, rc_update: order.rc_update, service: order.service }
}

/// The state that a snapshot took down.
pub open spec fn state_of(snapshot: OpenrcInstallSnapshot) -> ServiceState {
    ServiceState { enabled: snapshot.enabled, active: snapshot.active }
}

/// A plan changes only what undoing it sets back: a service that was in the
/// default runlevel stays there, and one that is not to be started stays as it
/// is.
proof fn lemma_plan_changes_what_is_undone(
    managed: Managed,
    snapshot: OpenrcInstallSnapshot,
    no_start: bool,
    ran: Seq<Exchange>,
    trace: Seq<ServiceState>,
)
    requires
        process::runs_until_fault(
            plan::install_steps(
                managed.rc_service,
                managed.rc_update,
                managed.service,
                snapshot,
                no_start,
            ),
            ran,
        ),
        managed.passes_through(ran, trace),
    ensures
        snapshot.enabled ==> trace.last().enabled == trace[0].enabled,
        no_start ==> trace.last().active == trace[0].active,
{
    if ran.len() > 0 {
        lemma_effect(managed, trace[0], ran[0], trace[1]);
    }
    if ran.len() > 1 {
        lemma_effect(managed, trace[1], ran[1], trace[2]);
    }
    if ran.len() > 2 {
        lemma_effect(managed, trace[2], ran[2], trace[3]);
    }
}

/// However far a plan got and whatever its failed runs left behind: where
/// every run that undoes it succeeds, the service is in the default runlevel,
/// and runs, exactly as the snapshot took it down.
pub proof fn law_rollback_restores_the_service(
    managed: Managed,
    snapshot: OpenrcInstallSnapshot,
    no_start: bool,
    ran: Seq<Exchange>,
    trace: Seq<ServiceState>,
    undone: Seq<Exchange>,
    undo_trace: Seq<ServiceState>,
    resumed: Seq<Exchange>,
    resume_trace: Seq<ServiceState>,
)
    requires
        process::runs_until_fault(
            plan::install_steps(
                managed.rc_service,
                managed.rc_update,
                managed.service,
                snapshot,
                no_start,
            ),
            ran,
        ),
        process::undoes(
            plan::undo_steps(
                managed.rc_service,
                managed.rc_update,
                managed.service,
                snapshot,
                !no_start,
            ),
            undone,
        ),
        process::undoes(
            plan::resume_steps(managed.rc_service, managed.service, snapshot),
            resumed,
        ),
        forall|i: int| 0 <= i < undone.len() ==> (#[trigger] undone[i]).succeeded(),
        forall|i: int| 0 <= i < resumed.len() ==> (#[trigger] resumed[i]).succeeded(),
        managed.passes_through(ran, trace),
        managed.passes_through(undone, undo_trace),
        managed.passes_through(resumed, resume_trace),
        trace[0] == state_of(snapshot),
        undo_trace[0] == trace.last(),
        resume_trace[0] == undo_trace.last(),
    ensures
        resume_trace.last() == state_of(snapshot),
{
    lemma_plan_changes_what_is_undone(managed, snapshot, no_start, ran, trace);
    if undone.len() > 0 {
        lemma_effect(managed, undo_trace[0], undone[0], undo_trace[1]);
    }
    if undone.len() > 1 {
        lemma_effect(managed, undo_trace[1], undone[1], undo_trace[2]);
    }
    if resumed.len() > 0 {
        lemma_effect(managed, resume_trace[0], resumed[0], resume_trace[1]);
    }
}

/// A failed installation whose message tells of nothing that went wrong in
/// undoing it has given the service back its state from before.
pub proof fn law_clean_rollback_restores_the_service(
    order: InstallOrder,
    snapshot: OpenrcInstallSnapshot,
    ran: Seq<Exchange>,
    trace: Seq<ServiceState>,
    demand: InstallDemand,
    resumed: Seq<Exchange>,
    resume_trace: Seq<ServiceState>,
)
    requires
        install::install_answers(
            order,
            InstallReport::Written { snapshot, written: Ok(()) },
            ran,
            demand,
        ),
        demand is Restore,
        process::undoes(order.resume_steps(snapshot), resumed),
        process::notes(
            text::texts(demand->rollback.errors@),
            order.resume_steps(snapshot),
            resumed,
        ).len() == 0,
        managed_by(order).passes_through(ran, trace),
        managed_by(order).passes_through(resumed, resume_trace),
        trace[0] == state_of(snapshot),
        resume_trace[0] == trace.last(),
    ensures
        resume_trace.last() == state_of(snapshot),
{
    let managed = managed_by(order);
    let errors = text::texts(demand->rollback.errors@);
    let n = choose|n: int|
        {
            let part = #[trigger] ran.take(n);
            let undo = ran.skip(n);
            &&& 0 <= n <= ran.len()
            &&& process::runs_until_fault(order.steps(snapshot), part)
            &&& process::undoes(order.undo_steps(snapshot), undo)
            &&& errors == process::notes(Seq::empty(), order.undo_steps(snapshot), undo)
        };
    let part = ran.take(n);
    let undo = ran.skip(n);
    let first = trace.take(n + 1);
    let second = trace.skip(n);
    process::lemma_nothing_noted(errors, order.resume_steps(snapshot), resumed);
    process::lemma_nothing_noted(Seq::empty(), order.undo_steps(snapshot), undo);
    assert(managed.passes_through(part, first)) by {
        assert forall|i: int| 0 <= i < part.len() implies managed.may_leave(
            first[i],
            #[trigger] part[i],
            first[i + 1],
        ) by {
            assert(part[i] == ran[i]);
        }
    }
    assert(managed.passes_through(undo, second)) by {
        assert forall|i: int| 0 <= i < undo.len() implies managed.may_leave(
            second[i],
            #[trigger] undo[i],
            second[i + 1],
        ) by {
            assert(undo[i] == ran[n + i]);
        }
    }
    law_rollback_restores_the_service(
        managed,
        snapshot,
        order.no_start,
        part,
        first,
        undo,
        second,
        resumed,
        resume_trace,
    );
}

/// Where a plan succeeds, the service is in the default runlevel afterwards and,
/// if it was to be started, runs.
pub proof fn law_successful_plan_enables_and_starts(
    managed: Managed,
    snapshot: OpenrcInstallSnapshot,
    no_start: bool,
    ran: Seq<Exchange>,
    trace: Seq<ServiceState>,
)
    requires
        process::runs_until_fault(
            plan::install_steps(
                managed.rc_service,
                managed.rc_update,
                managed.service,
                snapshot,
                no_start,
            ),
            ran,
        ),
        plan::plan_fault(managed.service, no_start, ran) is None,
        managed.passes_through(ran, trace),
        trace[0] == state_of(snapshot),
    ensures
        trace.last().enabled,
        !no_start ==> trace.last().active,
        no_start ==> trace.last().active == snapshot.active,
{
    if ran.len() > 0 {
        lemma_effect(managed, trace[0], ran[0], trace[1]);
    }
    if ran.len() > 1 {
        lemma_effect(managed, trace[1], ran[1], trace[2]);
    }
    if ran.len() > 2 {
        lemma_effect(managed, trace[2], ran[2], trace[3]);
    }
}

/// A service that is taken down and, where its init script could not be
/// removed, put back by runs that all succeed is in the default runlevel, and
/// runs, exactly as before.
pub proof fn law_put_back_service_is_as_before(
    managed: Managed,
    enabled: bool,
    active: bool,
    ran: Seq<Exchange>,
    trace: Seq<ServiceState>,
    undone: Seq<Exchange>,
    undo_trace: Seq<ServiceState>,
)
    requires
        process::runs_until_fault(
            uninstall::teardown_steps(
                managed.rc_service,
                managed.rc_update,
                managed.service,
                enabled,
                active,
            ),
            ran,
        ),
        process::undoes(
            uninstall::put_back_steps(
                managed.rc_service,
                managed.rc_update,
                managed.service,
                enabled,
                active,
            ),
            undone,
        ),
        forall|i: int| 0 <= i < undone.len() ==> (#[trigger] undone[i]).succeeded(),
        managed.passes_through(ran, trace),
        managed.passes_through(undone, undo_trace),
        trace[0] == (ServiceState { enabled, active }),
        undo_trace[0] == trace.last(),
    ensures
        undo_trace.last() == (ServiceState { enabled, active }),
{
    if ran.len() > 0 {
        lemma_effect(managed, trace[0], ran[0], trace[1]);
    }
    if ran.len() > 1 {
        lemma_effect(managed, trace[1], ran[1], trace[2]);
    }
    if undone.len() > 0 {
        lemma_effect(managed, undo_trace[0], undone[0], undo_trace[1]);
    }
    if undone.len() > 1 {
        lemma_effect(managed, undo_trace[1], undone[1], undo_trace[2]);
    }
}

/// A service that could not be taken out of the default runlevel, and that is
/// started again by a run that succeeds, runs as before.
pub proof fn law_failed_disable_keeps_the_service_running(
    managed: Managed,
    enabled: bool,
    active: bool,
    ran: Seq<Exchange>,
    trace: Seq<ServiceState>,
    undone: Seq<Exchange>,
    undo_trace: Seq<ServiceState>,
)
    requires
        process::runs_until_fault(
            uninstall::teardown_steps(
                managed.rc_service,
                managed.rc_update,
                managed.service,
                enabled,
                active,
            ),
            ran,
        ),
        process::undoes(
            uninstall::put_back_steps(
                managed.rc_service,
                managed.rc_update,
                managed.service,
                false,
                active,
            ),
            undone,
        ),
        forall|i: int| 0 <= i < undone.len() ==> (#[trigger] undone[i]).succeeded(),
        managed.passes_through(ran, trace),
        managed.passes_through(undone, undo_trace),
        trace[0] == (ServiceState { enabled, active }),
        undo_trace[0] == trace.last(),
    ensures
        undo_trace.last().active == active,
{
    if ran.len() > 0 {
        lemma_effect(managed, trace[0], ran[0], trace[1]);
    }
    if ran.len() > 1 {
        lemma_effect(managed, trace[1], ran[1], trace[2]);
    }
    if undone.len() > 0 {
        lemma_effect(managed, undo_trace[0], undone[0], undo_trace[1]);
    }
}

/// A service that was taken down without a fault neither runs nor is in the
/// default runlevel.
pub proof fn law_taken_down_service_is_down(
    managed: Managed,
    enabled: bool,
    active: bool,
    ran: Seq<Exchange>,
    trace: Seq<ServiceState>,
)
    requires
        process::runs_until_fault(
            uninstall::teardown_steps(
                managed.rc_service,
                managed.rc_update,
                managed.service,
                enabled,
                active,
            ),
            ran,
        ),
        process::fault_of(ran) is None,
        managed.passes_through(ran, trace),
        trace[0] == (ServiceState { enabled, active }),
    ensures
        trace.last() == (ServiceState { enabled: false, active: false }),
{
    if ran.len() > 0 {
        lemma_effect(managed, trace[0], ran[0], trace[1]);
    }
    if ran.len() > 1 {
        lemma_effect(managed, trace[1], ran[1], trace[2]);
    }
}

}
