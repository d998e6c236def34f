//! Laws of removing the service: the runs it takes, what each report is answered
//! with, and what is said where it fails.

use vstd::prelude::*;
use vstd::utf8;

use crate::laws::install::{is_service_run, is_update_run};
use crate::openrc::manager;
use crate::openrc::manager::HostTools;
use crate::openrc::script;
use crate::openrc::tools;
use crate::openrc::uninstall;
use crate::openrc::uninstall::{
    UninstallDemand, UninstallFailure, UninstallOrder, UninstallReport,
};
use crate::path;
use crate::path::PathEntry;
use crate::process;
use crate::process::Exchange;
use crate::text;

verus! {

// Taking the service down and putting it back.

/// A running service is stopped, and one in the default runlevel is then taken
/// out of it; nothing else is run.
pub proof fn law_steps_of_taking_down(
    rc_service: Seq<u8>,
    rc_update: Seq<u8>,
    service: Seq<char>,
    enabled: bool,
    active: bool,
)
    ensures
        ({
            let steps = uninstall::teardown_steps(rc_service, rc_update, service, enabled, active);
            let stopped: int = if active {
                1
            } else {
                0
            };
            &&& active ==> is_service_run(steps[0], rc_service, service, "stop"@)
            &&& enabled ==> steps.len() == stopped + 1 && is_update_run(
                steps[stopped],
                rc_update,
                "del"@,
                service,
            )
            &&& !enabled ==> steps.len() == stopped
        }),
{
}

/// A service that was in the default runlevel is added to it again, and one that
/// was running is then started; each failure is noted under its own words.
pub proof fn law_steps_of_putting_back(
    rc_service: Seq<u8>,
    rc_update: Seq<u8>,
    service: Seq<char>,
    enabled: bool,
    active: bool,
)
    ensures
        ({
            let steps = uninstall::put_back_steps(rc_service, rc_update, service, enabled, active);
            let added: int = if enabled {
                1
            } else {
                0
            };
            &&& enabled ==> is_update_run(steps[0].invocation, rc_update, "add"@, service)
                && steps[0].label == "enabled state restore failed"@
            &&& active ==> steps.len() == added + 1 && is_service_run(
                steps[added].invocation,
                rc_service,
                service,
                "start"@,
            ) && steps[added].label == "active state restore failed"@
            &&& !active ==> steps.len() == added
        }),
{
}

/// An order's steps are those of its own tools and service.
pub proof fn law_orders_are_carried_out_as_given(
    order: UninstallOrder,
    enabled: bool,
    active: bool,
)
    ensures
        order.teardown_steps(enabled, active) == uninstall::teardown_steps(
            order.rc_service,
            order.rc_update,
            order.service,
            enabled,
            active,
        ),
        order.put_back_steps(enabled, active) == uninstall::put_back_steps(
            order.rc_service,
            order.rc_update,
            order.service,
            enabled,
            active,
        ),
{
}

// What is said of a failure.

/// What went wrong in undoing is told whole where it takes at most 600 bytes.
/// Where it takes more, its first 600 bytes are told and three dots, unless the
/// cut would go through a character.
pub proof fn law_long_summaries_are_cut(
    rollback_errors: Seq<Seq<char>>,
    head: Seq<char>,
    tail: Seq<char>,
)
    ensures
        ({
            let all = text::joined(rollback_errors, "; "@);
            let told = uninstall::rollback_summary(rollback_errors);
            &&& utf8::encode_utf8(all).len() <= 600 ==> told == Some(all)
            &&& all == head + tail && utf8::encode_utf8(head).len() == 600 && tail.len() > 0
                ==> told == Some(head + "..."@)
            &&& utf8::encode_utf8(all).len() > 600 ==> (told is Some <==> utf8::is_char_boundary(
                utf8::encode_utf8(all),
                600,
            ))
        }),
{
    let all = text::joined(rollback_errors, "; "@);
    let bytes = utf8::encode_utf8(all);
    if all == head + tail && utf8::encode_utf8(head).len() == 600 && tail.len() > 0 {
        let front = utf8::encode_utf8(head);
        let back = utf8::encode_utf8(tail);
        text::lemma_encode_utf8_sum(head, tail);
        assert(bytes == front + back);
        utf8::encode_utf8_valid_utf8(head);
        utf8::encode_utf8_valid_utf8(tail);
        utf8::encode_utf8_valid_utf8(all);
        if back.len() == 0 {
            utf8::encode_utf8_decode_utf8(tail);
            utf8::encode_utf8_decode_utf8(Seq::<char>::empty());
            assert(utf8::encode_utf8(Seq::<char>::empty()) =~= back);
            assert(tail == Seq::<char>::empty());
        }
        assert(bytes.take(600) =~= front);
        utf8::encode_utf8_decode_utf8(head);
        utf8::is_char_boundary_start_end_of_seq(back);
        utf8::is_char_boundary_iff_not_is_continuation_byte(back, 0);
        assert(bytes[600] == back[0]);
        utf8::is_char_boundary_iff_not_is_continuation_byte(bytes, 600);
    }
}

/// A failure is told with the service and the reason, and with what went wrong
/// in undoing it where anything did.
pub proof fn law_failed_uninstallations_tell_why(
    service: Seq<char>,
    error: Seq<char>,
    rollback_errors: Seq<Seq<char>>,
)
    ensures
        ({
            let failed = "uninstallation failed for OpenRC service "@ + service + ": "@ + error;
            &&& rollback_errors.len() == 0 ==> uninstall::uninstall_fault(
                service,
                error,
                rollback_errors,
            ) == failed
            &&& rollback_errors.len() > 0 ==> uninstall::uninstall_fault(
                service,
                error,
                rollback_errors,
            ) == failed + "; rollback also encountered: "@ + uninstall::rollback_summary(
                rollback_errors,
            )->Some_0
        }),
{
}

/// A refusal is told in its own words, and what was undone with its summary; it
/// has no message exactly where the summary would be cut through a character.
pub proof fn law_failures_are_told(failure: UninstallFailure, service: Seq<char>)
    ensures
        failure matches UninstallFailure::Refused(error) ==> failure.told(service) == Some(error@),
        failure matches UninstallFailure::Undone { error, rollback_errors } ==> {
            let errors = text::texts(rollback_errors@);
            &&& failure.told(service) is Some <==> uninstall::rollback_summary(errors) is Some
            &&& failure.told(service) matches Some(message) ==> message
                == uninstall::uninstall_fault(service, error@, errors)
        },
{
}

// The answers to the reports.

/// The request is answered with a look at the init script's path, or refused
/// where the service's name is none.
pub proof fn law_a_request_is_answered(
    order: UninstallOrder,
    ran: Seq<Exchange>,
    demand: UninstallDemand,
)
    requires
        uninstall::uninstall_answers(order, UninstallReport::Requested, ran, demand),
    ensures
        ran.len() == 0,
        script::identity_fault("service name"@, order.service) is None <==> demand is Inspect,
        demand matches UninstallDemand::Inspect(at) ==> at.bytes@ == order.init_file,
        script::identity_fault("service name"@, order.service) matches Some(fault) ==> (
        demand matches UninstallDemand::Done(Err(UninstallFailure::Refused(error))) && error@
            == fault),
{
}

/// Where there is no init script nothing is removed, and that is a success; a
/// regular file is answered with a look at the runlevel, anything else with its
/// refusal.
pub proof fn law_an_inspection_is_answered(
    order: UninstallOrder,
    entry: PathEntry,
    ran: Seq<Exchange>,
    demand: UninstallDemand,
)
    requires
        uninstall::uninstall_answers(order, UninstallReport::Inspected(entry), ran, demand),
    ensures
        ran.len() == 0,
        ({
            let at = path::shown(order.init_file);
            &&& entry is Missing ==> (demand matches UninstallDemand::Done(Ok(outcome))
                && outcome.service@ == order.service && !outcome.removed)
            &&& entry is RegularFile ==> (demand matches UninstallDemand::InspectRunlevel(runlevel)
                && runlevel.bytes@ == tools::runlevel_entry(order.runlevel_dir, order.service))
            &&& entry is Symlink ==> (demand matches UninstallDemand::Done(
                Err(UninstallFailure::Refused(error)),
            ) && error@
                == "refusing to uninstall an OpenRC service through a symlinked init script: "@
                + at + "; remove the symlink explicitly before retrying"@)
            &&& entry is Directory || entry is Other ==> (demand matches UninstallDemand::Done(
                Err(UninstallFailure::Refused(error)),
            ) && error@ == "refusing to uninstall a non-regular OpenRC init script: "@ + at)
            &&& entry matches PathEntry::Unreadable(why) ==> (demand matches UninstallDemand::Done(
                Err(UninstallFailure::Refused(error)),
            ) && error@ == "failed to inspect "@ + at + ": "@ + why@)
        }),
{
}

/// The runs that take the service down, and those that undo them.
proof fn lemma_down_and_undo(
    order: UninstallOrder,
    entry: PathEntry,
    ran: Seq<Exchange>,
    demand: UninstallDemand,
) -> (n: int)
    requires
        uninstall::uninstall_answers(
            order,
            UninstallReport::RunlevelInspected(entry),
            ran,
            demand,
        ),
    ensures
        1 <= n <= ran.len(),
        ran.subrange(1, n).len() == n - 1,
        forall|i: int| 1 <= i < n ==> ran.subrange(1, n)[i - 1] == #[trigger] ran[i],
        forall|i: int| n <= i < ran.len() ==> ran.skip(n)[i - n] == #[trigger] ran[i],
        ({
            let enabled = tools::is_there(entry);
            let active = ran[0].succeeded();
            let down = ran.subrange(1, n);
            let undo = ran.skip(n);
            &&& process::runs_until_fault(order.teardown_steps(enabled, active), down)
            &&& match process::fault_of(down) {
                None => {
                    &&& undo.len() == 0
                    &&& demand matches UninstallDemand::Remove {
                        path,
                        enabled: was_enabled,
                        active: was_active,
                    }
                    &&& path@ == order.init_file
                    &&& was_enabled == enabled
                    &&& was_active == active
                },
                Some(fault) => if active && down.len() == 1 {
                    undo.len() == 0 && uninstall::refuses(demand, fault)
                } else {
                    uninstall::ends_undone(
                        demand,
                        fault,
                        order.put_back_steps(false, active),
                        undo,
                    )
                },
            }
        }),
{
    let enabled = tools::is_there(entry);
    let active = ran[0].succeeded();
    let n = choose|n: int|
        {
            let down = #[trigger] ran.subrange(1, n);
            let undo = ran.skip(n);
            &&& 1 <= n <= ran.len()
            &&& process::runs_until_fault(order.teardown_steps(enabled, active), down)
            &&& match process::fault_of(down) {
                None => {
                    &&& undo.len() == 0
                    &&& demand matches UninstallDemand::Remove {
                        path,
                        enabled: was_enabled,
                        active: was_active,
                    }
                    &&& path@ == order.init_file
                    &&& was_enabled == enabled
                    &&& was_active == active
                },
                Some(fault) => if active && down.len() == 1 {
                    undo.len() == 0 && uninstall::refuses(demand, fault)
                } else {
                    uninstall::ends_undone(
                        demand,
                        fault,
                        order.put_back_steps(false, active),
                        undo,
                    )
                },
            }
        };
    n
}

/// The service is asked about once. It is then stopped where it runs, and taken
/// out of the runlevel where anything stands at its entry; the script is removed
/// exactly where all of that succeeded.
pub proof fn law_a_service_is_taken_down(
    order: UninstallOrder,
    entry: PathEntry,
    ran: Seq<Exchange>,
    demand: UninstallDemand,
)
    requires
        uninstall::uninstall_answers(
            order,
            UninstallReport::RunlevelInspected(entry),
            ran,
            demand,
        ),
    ensures
        ran.len() > 0,
        is_service_run(ran[0].invocation, order.rc_service, order.service, "status"@),
        ({
            let enabled = entry is RegularFile || entry is Symlink || entry is Directory || entry
                is Other;
            let active = ran[0].outcome matches Ok(output) && output.success;
            let stopped: int = if active {
                1
            } else {
                0
            };
            let disabled: int = if enabled {
                1
            } else {
                0
            };
            &&& active ==> ran.len() > 1 && is_service_run(
                ran[1].invocation,
                order.rc_service,
                order.service,
                "stop"@,
            )
            &&& enabled && (active ==> ran[1].succeeded()) ==> ran.len() > 1 + stopped
                && is_update_run(
                ran[1 + stopped].invocation,
                order.rc_update,
                "del"@,
                order.service,
            )
            &&& demand is Remove <==> (active ==> ran[1].succeeded()) && (enabled ==> ran[1
                + stopped].succeeded())
            &&& demand matches UninstallDemand::Remove {
                path,
                enabled: was_enabled,
                active: was_active,
            } ==> path.bytes@ == order.init_file && was_enabled == enabled && was_active == active
                && ran.len() == 1 + stopped + disabled
        }),
{
    let n = lemma_down_and_undo(order, entry, ran, demand);
    let down = ran.subrange(1, n);
    if n > 1 {
        assert(down[0] == ran[1]);
        assert(down.last() == down[n - 2]);
        assert(down[n - 2] == ran[n - 1]);
    }
    if n > 2 {
        assert(down[1] == ran[2]);
    }
}

/// A service that cannot be stopped is left as it is, with the fault of the stop.
/// One that cannot be taken out of the runlevel is started again where it ran,
/// and the uninstallation fails with that fault and what was noted.
pub proof fn law_a_failed_uninstallation_is_undone(
    order: UninstallOrder,
    entry: PathEntry,
    ran: Seq<Exchange>,
    demand: UninstallDemand,
)
    requires
        uninstall::uninstall_answers(
            order,
            UninstallReport::RunlevelInspected(entry),
            ran,
            demand,
        ),
        !(demand is Remove),
    ensures
        ({
            let active = ran[0].outcome matches Ok(output) && output.success;
            let undone: int = if active {
                1
            } else {
                0
            };
            &&& active && !ran[1].succeeded() ==> ran.len() == 2 && (
            demand matches UninstallDemand::Done(Err(UninstallFailure::Refused(error))) && error@
                == ran[1].fault())
            &&& active && ran[1].succeeded() ==> ran.len() == 4 && is_service_run(
                ran[3].invocation,
                order.rc_service,
                order.service,
                "start"@,
            )
            &&& !active ==> ran.len() == 2
            &&& !(active && !ran[1].succeeded()) ==> !ran[1 + undone].succeeded() && (
            demand matches UninstallDemand::Done(
                Err(UninstallFailure::Undone { error, rollback_errors }),
            ) && error@ == ran[1 + undone].fault() && text::texts(rollback_errors@)
                == process::notes(
                Seq::empty(),
                order.put_back_steps(false, active),
                ran.skip(2 + undone),
            ))
        }),
{
    let n = lemma_down_and_undo(order, entry, ran, demand);
    let down = ran.subrange(1, n);
    let undo = ran.skip(n);
    if n > 1 {
        assert(down[0] == ran[1]);
        assert(down.last() == down[n - 2]);
        assert(down[n - 2] == ran[n - 1]);
    }
    if n > 2 {
        assert(down[1] == ran[2]);
    }
    if ran.len() > n {
        assert(undo[0] == ran[n]);
    }
}

/// A removed script ends the uninstallation, and nothing more is run. Where it
/// could not be removed the service is put back as it was: added to the runlevel
/// where it was in it, then started where it ran.
pub proof fn law_a_removal_is_answered(
    order: UninstallOrder,
    enabled: bool,
    active: bool,
    removed: Result<(), String>,
    ran: Seq<Exchange>,
    demand: UninstallDemand,
)
    requires
        uninstall::uninstall_answers(
            order,
            UninstallReport::Removed { enabled, active, removed },
            ran,
            demand,
        ),
    ensures
        removed is Ok ==> ran.len() == 0 && (demand matches UninstallDemand::Done(Ok(outcome))
            && outcome.service@ == order.service && outcome.removed),
        removed matches Err(why) ==> {
            let added: int = if enabled {
                1
            } else {
                0
            };
            &&& enabled ==> is_update_run(
                ran[0].invocation,
                order.rc_update,
                "add"@,
                order.service,
            )
            &&& active ==> ran.len() == added + 1 && is_service_run(
                ran[added].invocation,
                order.rc_service,
                order.service,
                "start"@,
            )
            &&& !active ==> ran.len() == added
            &&& demand matches UninstallDemand::Done(
                Err(UninstallFailure::Undone { error, rollback_errors }),
            ) && error@ == "failed to remove "@ + path::shown(order.init_file) + ": "@ + why@
                && text::texts(rollback_errors@) == process::notes(
                Seq::empty(),
                order.put_back_steps(enabled, active),
                ran,
            )
        },
{
}

/// An uninstallation is set up exactly where both tools are found; otherwise the
/// first that is not is told.
pub proof fn law_failed_setups_are_told(host: HostTools)
    ensures
        ({
            let fault = uninstall::setup_fault(host);
            &&& fault is None <==> manager::rc_service_of(host) is Ok && manager::rc_update_of(host)
                is Ok
            &&& manager::rc_service_of(host) is Err ==> fault == Some(
                manager::rc_service_of(host)->Err_0,
            )
            &&& manager::rc_service_of(host) is Ok && manager::rc_update_of(host) is Err ==> fault
                == Some(manager::rc_update_of(host)->Err_0)
        }),
{
}

}
