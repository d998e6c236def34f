//! Laws of controlling an installed service, of its status and of its log.

use vstd::prelude::*;
use vstd::utf8;

use crate::decimal;
use crate::openrc::control;
use crate::openrc::control::ServiceControl;
use crate::openrc::logs;
use crate::openrc::script;
use crate::openrc::status;
use crate::openrc::status::{StatusView, SystemdStatus};
use crate::openrc::tools;
use crate::path::PathEntry;
use crate::process::Exchange;

verus! {

// Control.

/// Every control has its own action.
pub proof fn law_controls_have_their_actions()
    ensures
        ServiceControl::Start.action() == "start"@,
        ServiceControl::Stop.action() == "stop"@,
        ServiceControl::Restart.action() == "restart"@,
        ServiceControl::Reload.action() == "reload"@,
{
}

/// Controlling a service of a plain name runs `rc-service <service> <action>`
/// first, and ends there where that fails. A service that was to run afterwards
/// is then looked at with `rc-service <service> status`; one that was stopped or
/// reloaded is not. The result is that of the last run.
pub proof fn law_controlling_acts_and_looks(
    rc_service: Seq<u8>,
    service: Seq<char>,
    control: ServiceControl,
    ran: Seq<Exchange>,
    result: Result<(), String>,
)
    requires
        control::controls(rc_service, service, control, ran, result),
        script::identity_fault("service name"@, service) is None,
    ensures
        1 <= ran.len() <= 2,
        ran[0].invocation.program == rc_service,
        ran[0].invocation.args == seq![service, control.action()],
        ran[0].invocation.operation == "rc-service "@ + control.action(),
        ran[0].invocation.unit == Some(service),
        !ran[0].invocation.inherit_stdio,
        ran.len() == 2 <==> ran[0].succeeded() && (control == ServiceControl::Start || control
            == ServiceControl::Restart),
        ran.len() == 2 ==> ran[1].invocation.program == rc_service && ran[1].invocation.args
            == seq![service, "status"@],
        result is Ok <==> ran[ran.len() - 1].succeeded(),
        result matches Err(error) ==> error@ == ran[ran.len() - 1].fault(),
{
}

/// A name that is none is refused before anything is run.
pub proof fn law_unfit_names_are_not_controlled(
    rc_service: Seq<u8>,
    service: Seq<char>,
    control: ServiceControl,
    ran: Seq<Exchange>,
    result: Result<(), String>,
)
    requires
        control::controls(rc_service, service, control, ran, result),
        script::identity_fault("service name"@, service) is Some,
    ensures
        ran.len() == 0,
        result matches Err(error) && Some(error@) == script::identity_fault(
            "service name"@,
            service,
        ),
{
}

// Status.

/// A status is known by all three of its words.
pub proof fn law_statuses_are_read_whole(status: SystemdStatus)
    ensures
        status@.loaded == status.loaded@,
        status@.active == status.active@,
        status@.enabled == status.enabled@,
{
}

/// A found status says "enabled" exactly where anything stands at the entry of
/// the runlevel, a symbolic link included, and "disabled" exactly where nothing
/// does or it cannot be looked at.
pub proof fn law_a_status_tells_whether_the_service_is_enabled(
    rc_service: Seq<u8>,
    init_entry: PathEntry,
    runlevel_entry: PathEntry,
    service: Seq<char>,
    ran: Seq<Exchange>,
    status: StatusView,
)
    requires
        status::finds_status(rc_service, init_entry, runlevel_entry, service, ran, status),
    ensures
        status.enabled == "enabled"@ <==> (runlevel_entry is RegularFile || runlevel_entry
            is Symlink || runlevel_entry is Directory || runlevel_entry is Other),
        status.enabled == "disabled"@ <==> (runlevel_entry is Missing || runlevel_entry
            is Unreadable),
        status.enabled == "enabled"@ <==> tools::is_there(runlevel_entry),
{
    reveal_strlit("enabled");
    reveal_strlit("disabled");
    assert("enabled"@.len() == 7);
    assert("disabled"@.len() == 8);
}

/// A found status says "loaded" exactly where a file or a symbolic link stands at
/// the init script's path, and "not-found" exactly where nothing does or it
/// cannot be looked at.
pub proof fn law_a_status_tells_whether_there_is_a_script(
    rc_service: Seq<u8>,
    init_entry: PathEntry,
    runlevel_entry: PathEntry,
    service: Seq<char>,
    ran: Seq<Exchange>,
    status: StatusView,
)
    requires
        status::finds_status(rc_service, init_entry, runlevel_entry, service, ran, status),
    ensures
        status.loaded == "loaded"@ <==> (init_entry is RegularFile || init_entry is Symlink),
        status.loaded == "not-found"@ <==> (init_entry is Missing || init_entry is Unreadable),
        status.loaded == "unknown"@ <==> (init_entry is Directory || init_entry is Other),
{
    reveal_strlit("loaded");
    reveal_strlit("unknown");
    reveal_strlit("not-found");
    assert("loaded"@.len() == 6);
    assert("unknown"@.len() == 7);
    assert("not-found"@.len() == 9);
}

/// The status is found by one run of `rc-service <service> status`; the state of
/// the service is read from what it printed, whether or not it reported success,
/// and is unknown where it could not be run.
pub proof fn law_a_status_takes_one_run(
    rc_service: Seq<u8>,
    init_entry: PathEntry,
    runlevel_entry: PathEntry,
    service: Seq<char>,
    ran: Seq<Exchange>,
    status: StatusView,
)
    requires
        status::finds_status(rc_service, init_entry, runlevel_entry, service, ran, status),
    ensures
        ran.len() == 1,
        ran[0].invocation.program == rc_service,
        ran[0].invocation.args == seq![service, "status"@],
        ran[0].invocation.operation == "rc-service status"@,
        ran[0].invocation.unit == Some(service),
        !ran[0].invocation.inherit_stdio,
        ran[0].outcome matches Ok(output) ==> status.active == tools::active_state(output.stdout),
        ran[0].outcome is Err ==> status.active == "unknown"@,
{
    reveal_strlit("rc-service ");
    reveal_strlit("status");
    reveal_strlit("rc-service status");
    assert("rc-service "@ + "status"@ =~= "rc-service status"@);
}

/// Where there is no rc-service every word of the status is "unknown".
pub proof fn law_unknown_statuses_say_so()
    ensures
        status::unknown_status().loaded == "unknown"@,
        status::unknown_status().active == "unknown"@,
        status::unknown_status().enabled == "unknown"@,
{
}

// Logs.

/// The log is read exactly where no time is asked for, there is a log file and
/// its path is a text. Otherwise the first of these that fails is told.
pub proof fn law_unreadable_logs_are_told(log_file: Seq<u8>, log_exists: bool, since: bool)
    ensures
        logs::logs_fault(log_file, log_exists, since) is None <==> !since && log_exists
            && utf8::valid_utf8(log_file),
        since ==> logs::logs_fault(log_file, log_exists, since) == Some(
            "--since is not supported for OpenRC services: logs are plain files without journald timestamps; use --lines or --follow"@,
        ),
        !since && !log_exists ==> logs::logs_fault(log_file, log_exists, since) == Some(
            "OpenRC log file "@ + crate::path::shown(log_file)
                + " does not exist yet; start the service first (supervise-daemon creates it)"@,
        ),
        !since && log_exists && !utf8::valid_utf8(log_file) ==> logs::logs_fault(
            log_file,
            log_exists,
            since,
        ) == Some("log path is not valid UTF-8: "@ + crate::path::shown(log_file)),
{
}

/// Where reading the log succeeds, the returned text is what the one run of
/// `tail` printed to standard output, character for character: as many
/// characters and the same at every position. Reading succeeds exactly where
/// that run did.
pub proof fn law_the_log_is_returned_whole(
    tail: Seq<u8>,
    log_file: Seq<u8>,
    service: Seq<char>,
    lines: u32,
    follow: bool,
    ran: Seq<Exchange>,
    result: Result<String, String>,
)
    requires
        logs::reads_log(tail, log_file, true, service, lines, false, follow, ran, result),
        utf8::valid_utf8(log_file),
    ensures
        ran.len() == 1,
        result is Ok <==> (ran[0].outcome matches Ok(output) && output.success),
        result matches Ok(text) ==> text@.len() == ran[0].outcome->Ok_0.stdout.len(),
        result matches Ok(text) ==> forall|i: int|
            0 <= i < text@.len() ==> #[trigger] text@[i] == ran[0].outcome->Ok_0.stdout[i],
        result matches Err(error) ==> error@ == ran[0].fault(),
{
}

/// The log is read by `tail -n <lines> <log file>`, with `-f` between them where
/// it is followed; a followed log goes to the caller's terminal.
pub proof fn law_the_log_is_read_by_tail(
    tail: Seq<u8>,
    log_file: Seq<char>,
    service: Seq<char>,
    lines: u32,
    follow: bool,
    ran: Seq<Exchange>,
    result: Result<String, String>,
)
    requires
        logs::reads_log(
            tail,
            utf8::encode_utf8(log_file),
            true,
            service,
            lines,
            false,
            follow,
            ran,
            result,
        ),
    ensures
        ran.len() == 1,
        ran[0].invocation.program == tail,
        ran[0].invocation.operation == "tail "@ + service + " log"@,
        ran[0].invocation.unit == Some(service),
        ran[0].invocation.inherit_stdio == follow,
        !follow ==> ran[0].invocation.args == seq![
            "-n"@,
            decimal::decimal(lines as nat),
            log_file,
        ],
        follow ==> ran[0].invocation.args == seq![
            "-n"@,
            decimal::decimal(lines as nat),
            "-f"@,
            log_file,
        ],
{
    utf8::encode_utf8_valid_utf8(log_file);
    utf8::encode_utf8_decode_utf8(log_file);
    assert(ran[0].invocation.args =~= if follow {
        seq!["-n"@, decimal::decimal(lines as nat), "-f"@, log_file]
    } else {
        seq!["-n"@, decimal::decimal(lines as nat), log_file]
    });
}

/// Where the log cannot be read nothing is run, and the reason is the error.
pub proof fn law_unreadable_logs_run_nothing(
    tail: Seq<u8>,
    log_file: Seq<u8>,
    log_exists: bool,
    service: Seq<char>,
    lines: u32,
    since: bool,
    follow: bool,
    ran: Seq<Exchange>,
    result: Result<String, String>,
)
    requires
        logs::reads_log(
            tail,
            log_file,
            log_exists,
            service,
            lines,
            since,
            follow,
            ran,
            result,
        ),
        since || !log_exists || !utf8::valid_utf8(log_file),
    ensures
        ran.len() == 0,
        result matches Err(error) && Some(error@) == logs::logs_fault(log_file, log_exists, since),
{
}

}
