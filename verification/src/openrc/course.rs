//! The course of an installation and of an uninstallation from the request to
//! the end.

use vstd::prelude::*;

use crate::openrc::install;
use crate::openrc::install::{InstallDemand, InstallOrder, InstallReport};
use crate::openrc::plan;
use crate::openrc::script;
use crate::openrc::uninstall;
use crate::openrc::uninstall::{UninstallDemand, UninstallOrder, UninstallReport};
use crate::path::PathEntry;
use crate::process;
use crate::process::Exchange;
use crate::text;

verus! {

// Installations.

/// `report` is one on `demand`: it tells what was asked for, and hands on what
/// the demand carries.
pub open spec fn install_reports_on(demand: InstallDemand, report: InstallReport) -> bool {
    match demand {
        InstallDemand::Inspect(_) => report is Inspected,
        InstallDemand::Read(_) => report is Read,
        InstallDemand::InspectRunlevel { previous_content, .. } => {
            report matches InstallReport::RunlevelInspected { previous_content: kept, .. } && kept
                == previous_content
        },
        InstallDemand::Write { snapshot, .. } => {
            report matches InstallReport::Written { snapshot: kept, .. } && kept == snapshot
        },
        InstallDemand::Restore { rollback, .. } => {
            report matches InstallReport::Restored { rollback: kept, .. } && kept == rollback
        },
        InstallDemand::Done(_) => false,
    }
}

/// An installation from its request on: every demand answers a report by the
/// runs of its step, and the next report is one on it.
pub open spec fn is_installation(
    order: InstallOrder,
    reports: Seq<InstallReport>,
    runs: Seq<Seq<Exchange>>,
    demands: Seq<InstallDemand>,
) -> bool {
    &&& reports.len() == demands.len()
    &&& reports.len() == runs.len()
    &&& reports.len() > 0
    &&& reports[0] is Requested
    &&& forall|i: int|
        0 <= i < reports.len() ==> install::install_answers(
            order,
            #[trigger] reports[i],
            runs[i],
            demands[i],
        )
    &&& forall|i: int|
        0 <= i < reports.len() - 1 ==> install_reports_on(#[trigger] demands[i], reports[i + 1])
}

/// The content that was there before, by what was found at the path and what
/// was read.
pub open spec fn content_before(reports: Seq<InstallReport>) -> Option<Seq<char>> {
    match reports[2] {
        InstallReport::Read(Ok(content)) => Some(content@),
        _ => None,
    }
}

/// An installation looks at what is there, reads what it would replace, looks
/// at the runlevel and writes, in this order; `at` is the step after the
/// script was written.
proof fn lemma_installation_steps(
    order: InstallOrder,
    reports: Seq<InstallReport>,
    runs: Seq<Seq<Exchange>>,
    demands: Seq<InstallDemand>,
    at: int,
)
    requires
        is_installation(order, reports, runs, demands),
        0 <= at < reports.len(),
        reports[at] is Written,
    ensures
        3 <= at <= 4,
        reports[1] is Inspected,
        at == 4 <==> reports[2] is Read,
        demands[at - 1] is Write,
        text::text_of(reports[at]->Written_snapshot.previous_content) == content_before(reports),
{
    assert(install::install_answers(order, reports[0], runs[0], demands[0]));
    assert(install_reports_on(demands[0], reports[1]));
    assert(install::install_answers(order, reports[1], runs[1], demands[1]));
    assert(install_reports_on(demands[1], reports[2]));
    assert(install::install_answers(order, reports[2], runs[2], demands[2]));
    assert(install_reports_on(demands[2], reports[3]));
    assert(install::install_answers(order, reports[3], runs[3], demands[3]));
    if reports[2] is Read {
        assert(install_reports_on(demands[3], reports[4]));
        lemma_written_once(order, reports, runs, demands, 4, at);
    } else {
        lemma_written_once(order, reports, runs, demands, 3, at);
    }
}

/// After the script was written, only its restoring is left.
proof fn lemma_after_writing(
    order: InstallOrder,
    reports: Seq<InstallReport>,
    runs: Seq<Seq<Exchange>>,
    demands: Seq<InstallDemand>,
    at: int,
)
    requires
        is_installation(order, reports, runs, demands),
        0 <= at < reports.len(),
        reports[at] is Written,
    ensures
        reports.len() <= at + 2,
        reports.len() == at + 2 ==> reports[at + 1] is Restored,
{
    assert(install::install_answers(order, reports[at], runs[at], demands[at]));
    if reports.len() > at + 1 {
        assert(install_reports_on(demands[at], reports[at + 1]));
        assert(install::install_answers(order, reports[at + 1], runs[at + 1], demands[at + 1]));
    }
    if reports.len() > at + 2 {
        assert(install_reports_on(demands[at + 1], reports[at + 2]));
    }
}

/// The script is written in one step only.
proof fn lemma_written_once(
    order: InstallOrder,
    reports: Seq<InstallReport>,
    runs: Seq<Seq<Exchange>>,
    demands: Seq<InstallDemand>,
    one: int,
    other: int,
)
    requires
        is_installation(order, reports, runs, demands),
        0 <= one < reports.len(),
        0 <= other < reports.len(),
        reports[one] is Written,
        reports[other] is Written,
    ensures
        one == other,
{
    lemma_after_writing(order, reports, runs, demands, one);
    lemma_after_writing(order, reports, runs, demands, other);
}

/// An installation that fails after the script was written has restored it:
/// what was there before, or nothing where nothing was.
pub proof fn law_failed_installation_restores_the_script(
    order: InstallOrder,
    reports: Seq<InstallReport>,
    runs: Seq<Seq<Exchange>>,
    demands: Seq<InstallDemand>,
    at: int,
)
    requires
        is_installation(order, reports, runs, demands),
        0 <= at < reports.len(),
        reports[at] matches InstallReport::Written { written, .. } && written is Ok,
        demands.last() matches InstallDemand::Done(result) && result is Err,
    ensures
        reports.len() == at + 2,
        reports[at + 1] is Restored,
        demands[at] matches InstallDemand::Restore { path, rollback } && path@ == order.init_file
            && text::text_of(rollback.snapshot.previous_content) == content_before(reports),
{
    lemma_installation_steps(order, reports, runs, demands, at);
    lemma_after_writing(order, reports, runs, demands, at);
    assert(install::install_answers(order, reports[at], runs[at], demands[at]));
}

/// An installation that succeeds has written the script it was asked to write,
/// executable, over nothing but a regular file and only where that was asked
/// for, and has run its whole plan without a fault.
pub proof fn law_successful_installation_did_everything(
    order: InstallOrder,
    reports: Seq<InstallReport>,
    runs: Seq<Seq<Exchange>>,
    demands: Seq<InstallDemand>,
)
    requires
        is_installation(order, reports, runs, demands),
        demands.last() matches InstallDemand::Done(result) && result is Ok,
    ensures
        ({
            let last = reports.len() - 1;
            &&& script::is_identity(order.service)
            &&& reports[1] matches InstallReport::Inspected(entry) && (entry is Missing || (entry
                is RegularFile && order.overwrite))
            &&& demands[last - 1] matches InstallDemand::Write { path, content, mode, .. } && path@
                == order.init_file && content@ == order.content && mode
                == install::OPENRC_INIT_MODE
            &&& reports[last] matches InstallReport::Written { snapshot, written } && written is Ok
                && process::runs_until_fault(order.steps(snapshot), runs[last])
                && plan::plan_fault(order.service, order.no_start, runs[last]) is None
        }),
{
    let last = reports.len() - 1;
    assert(install::install_answers(order, reports[last], runs[last], demands[last]));
    assert(reports[last] is Written);
    lemma_installation_steps(order, reports, runs, demands, last);
    assert(install::install_answers(order, reports[0], runs[0], demands[0]));
    assert(install::install_answers(order, reports[1], runs[1], demands[1]));
    assert(install_reports_on(demands[0], reports[1]));
    assert(install_reports_on(demands[1], reports[2]));
    assert(install_reports_on(demands[last - 1], reports[last]));
    assert(install_reports_on(demands[last - 2], reports[last - 1]));
    assert(install::install_answers(order, reports[last - 1], runs[last - 1], demands[last - 1]));
    let ran = runs[last];
    let n = choose|n: int|
        {
            let part = #[trigger] ran.take(n);
            &&& 0 <= n <= ran.len()
            &&& process::runs_until_fault(order.steps(reports[last]->Written_snapshot), part)
            &&& plan::plan_fault(order.service, order.no_start, part) is None
            &&& ran.skip(n).len() == 0
        };
    assert(ran.take(n) =~= ran);
}

/// An installation is over after at most six steps.
pub proof fn law_installation_ends(
    order: InstallOrder,
    reports: Seq<InstallReport>,
    runs: Seq<Seq<Exchange>>,
    demands: Seq<InstallDemand>,
)
    requires
        is_installation(order, reports, runs, demands),
    ensures
        reports.len() <= 6,
        reports.len() == 6 ==> demands.last() is Done,
{
    let n = reports.len();
    assert(install::install_answers(order, reports[0], runs[0], demands[0]));
    if n > 1 {
        assert(install_reports_on(demands[0], reports[1]));
        assert(install::install_answers(order, reports[1], runs[1], demands[1]));
    }
    if n > 2 {
        assert(install_reports_on(demands[1], reports[2]));
        assert(install::install_answers(order, reports[2], runs[2], demands[2]));
    }
    if n > 3 {
        assert(install_reports_on(demands[2], reports[3]));
        assert(install::install_answers(order, reports[3], runs[3], demands[3]));
    }
    if n > 4 {
        assert(install_reports_on(demands[3], reports[4]));
        assert(install::install_answers(order, reports[4], runs[4], demands[4]));
        if reports[3] is Written {
            lemma_after_writing(order, reports, runs, demands, 3);
        }
    }
    if n > 5 {
        assert(reports[4] is Written);
        lemma_after_writing(order, reports, runs, demands, 4);
        assert(install::install_answers(order, reports[5], runs[5], demands[5]));
    }
}

// Uninstallations.

/// `report` is one on `demand`: it tells what was asked for, and hands on what
/// the demand carries.
pub open spec fn uninstall_reports_on(demand: UninstallDemand, report: UninstallReport) -> bool {
    match demand {
        UninstallDemand::Inspect(_) => report is Inspected,
        UninstallDemand::InspectRunlevel(_) => report is RunlevelInspected,
        UninstallDemand::Remove { enabled, active, .. } => {
            report matches UninstallReport::Removed {
                enabled: was_enabled,
                active: was_active,
                ..
            } && was_enabled == enabled && was_active == active
        },
        UninstallDemand::Done(_) => false,
    }
}

/// An uninstallation from its request on: every demand answers a report by the
/// runs of its step, and the next report is one on it.
pub open spec fn is_uninstallation(
    order: UninstallOrder,
    reports: Seq<UninstallReport>,
    runs: Seq<Seq<Exchange>>,
    demands: Seq<UninstallDemand>,
) -> bool {
    &&& reports.len() == demands.len()
    &&& reports.len() == runs.len()
    &&& reports.len() > 0
    &&& reports[0] is Requested
    &&& forall|i: int|
        0 <= i < reports.len() ==> uninstall::uninstall_answers(
            order,
            #[trigger] reports[i],
            runs[i],
            demands[i],
        )
    &&& forall|i: int|
        0 <= i < reports.len() - 1 ==> uninstall_reports_on(#[trigger] demands[i], reports[i + 1])
}

/// An uninstallation is over after at most four steps, and one that succeeds
/// has found no init script, or has removed a regular file.
pub proof fn law_uninstallation_ends(
    order: UninstallOrder,
    reports: Seq<UninstallReport>,
    runs: Seq<Seq<Exchange>>,
    demands: Seq<UninstallDemand>,
)
    requires
        is_uninstallation(order, reports, runs, demands),
    ensures
        reports.len() <= 4,
        reports.len() == 4 ==> demands.last() is Done,
        (demands.last() matches UninstallDemand::Done(result) && result is Ok) ==> {
            ||| reports.len() == 2 && reports[1] == UninstallReport::Inspected(PathEntry::Missing)
            ||| reports.len() == 4 && reports[1] == UninstallReport::Inspected(
                PathEntry::RegularFile,
            ) && (reports[3] matches UninstallReport::Removed { removed, .. } && removed is Ok)
        },
{
    let n = reports.len();
    assert(uninstall::uninstall_answers(order, reports[0], runs[0], demands[0]));
    if n > 1 {
        assert(uninstall_reports_on(demands[0], reports[1]));
        assert(uninstall::uninstall_answers(order, reports[1], runs[1], demands[1]));
    }
    if n > 2 {
        assert(uninstall_reports_on(demands[1], reports[2]));
        assert(uninstall::uninstall_answers(order, reports[2], runs[2], demands[2]));
    }
    if n > 3 {
        assert(uninstall_reports_on(demands[2], reports[3]));
        assert(uninstall::uninstall_answers(order, reports[3], runs[3], demands[3]));
    }
    if n > 4 {
        assert(uninstall_reports_on(demands[3], reports[4]));
    }
}

}
