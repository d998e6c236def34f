//! Reading the service's log.
//!
//! OpenRC has no journal: the log is the plain file that supervise-daemon
//! writes, and what a journal could select by time cannot be selected here.

use vstd::prelude::*;
use vstd::utf8;

use crate::decimal;
use crate::decimal::format_u32;
use crate::openrc::manager;
use crate::openrc::manager::{tail_path, HostTools};
use crate::openrc::script;
use crate::openrc::script::openrc_log_file;
use crate::path;
use crate::path::FsPath;
use crate::process;
use crate::process::{
    execute_required, Exchange, InvocationView, Journal, ProcessExecutor, ProcessInvocation,
};

verus! {

/// Why the log cannot be read, if there is a reason: a time was asked for,
/// there is no log file, or its path is no text.
pub open spec fn logs_fault(log_file: Seq<u8>, log_exists: bool, since: bool) -> Option<Seq<char>> {
    if since {
        Some(
            "--since is not supported for OpenRC services: logs are plain files without journald timestamps; use --lines or --follow"@,
        )
    } else if !log_exists {
        Some(
            "OpenRC log file "@ + path::shown(log_file)
                + " does not exist yet; start the service first (supervise-daemon creates it)"@,
        )
    } else if path::utf8_text(log_file) is None {
        Some("log path is not valid UTF-8: "@ + path::shown(log_file))
    } else {
        None
    }
}

/// `tail -n <lines> [-f] <log file>`, on the caller's terminal where it
/// follows the log.
pub open spec fn tail_run(
    tail: Seq<u8>,
    log_file: Seq<u8>,
    service: Seq<char>,
    lines: u32,
    follow: bool,
) -> InvocationView {
    let count = seq!["-n"@, decimal::decimal(lines as nat)];
    let named = utf8::decode_utf8(log_file);
    InvocationView {
        operation: "tail "@ + service + " log"@,
        program: tail,
        args: if follow {
            count.push("-f"@).push(named)
        } else {
            count.push(named)
        },
        unit: Some(service),
        inherit_stdio: follow,
    }
}

/// `result` is what comes of reading the log by the runs `ran`: nothing is run
/// where the log cannot be read; otherwise `tail` is, once, and its output is
/// the result.
pub open spec fn reads_log(
    tail: Seq<u8>,
    log_file: Seq<u8>,
    log_exists: bool,
    service: Seq<char>,
    lines: u32,
    since: bool,
    follow: bool,
    ran: Seq<Exchange>,
    result: Result<String, String>,
) -> bool {
    match logs_fault(log_file, log_exists, since) {
        Some(fault) => ran.len() == 0 && process::fails_with(result, fault),
        None => {
            &&& ran.len() == 1
            &&& ran[0].invocation == tail_run(tail, log_file, service, lines, follow)
            &&& match result {
                Ok(text) => ran[0].succeeded() && ran[0].outcome->Ok_0.stdout == text@,
                Err(error) => !ran[0].succeeded() && error@ == ran[0].fault(),
            }
        },
    }
}

/// Reads the last `lines` lines of the log. `log_exists` tells whether a
/// regular file stands at `log_file`.
pub fn run_openrc_logs_with_executor<E: ProcessExecutor>(
    executor: &mut Journal<E>,
    tail: &FsPath,
    log_file: &FsPath,
    log_exists: bool,
    service: &str,
    lines: u32,
    since: Option<&str>,
    follow: bool,
) -> (result: Result<String, String>)
    ensures
        old(executor).history().is_prefix_of(final(executor).history()),
        reads_log(
            tail@,
            log_file@,
            log_exists,
            service@,
            lines,
            since is Some,
            follow,
            process::since(old(executor).history(), final(executor).history()),
            result,
        ),
{
    let ghost before = executor.history();
    proof {
        process::lemma_no_run(before);
    }
    if since.is_some() {
        return Err(
            "--since is not supported for OpenRC services: logs are plain files without journald timestamps; use --lines or --follow".to_owned(),
        );
    }
    if !log_exists {
        let mut message = "OpenRC log file ".to_owned();
        message.append(log_file.display().as_str());
        message.append(
            " does not exist yet; start the service first (supervise-daemon creates it)",
        );
        return Err(message);
    }
    let log_path = match log_file.to_str() {
        Some(text) => text,
        None => {
            let mut message = "log path is not valid UTF-8: ".to_owned();
            message.append(log_file.display().as_str());
            return Err(message);
        },
    };
    let mut args: Vec<String> = vec!["-n".to_owned(), format_u32(lines)];
    if follow {
        args.push("-f".to_owned());
    }
    args.push(log_path.to_owned());
    let mut operation = "tail ".to_owned();
    operation.append(service);
    operation.append(" log");
    let invocation = ProcessInvocation {
        operation,
        program: tail.duplicate(),
        args,
        unit: Some(service.to_owned()),
        inherit_stdio: follow,
    };
    assert(invocation@.args =~= tail_run(tail@, log_file@, service@, lines, follow).args);
    let run = execute_required(executor, &invocation);
    proof {
        process::lemma_one_more_run(before, before, executor.history());
    }
    match run {
        Ok(output) => Ok(output.stdout),
        Err(error) => Err(error),
    }
}

/// Reads the service's log with the `tail` of the host. `log_exists` tells
/// whether a regular file stands where the service logs to.
pub fn run_openrc_logs<E: ProcessExecutor>(
    executor: &mut Journal<E>,
    tools: &HostTools,
    log_exists: bool,
    service: &str,
    lines: u32,
    since: Option<&str>,
    follow: bool,
) -> (result: Result<String, String>)
    ensures
        old(executor).history().is_prefix_of(final(executor).history()),
        ({
            let ran = process::since(old(executor).history(), final(executor).history());
            match manager::tail_of(*tools) {
                Ok(tail) => reads_log(
                    tail,
                    utf8::encode_utf8(script::log_file(service@)),
                    log_exists,
                    service@,
                    lines,
                    since is Some,
                    follow,
                    ran,
                    result,
                ),
                Err(fault) => ran.len() == 0 && process::fails_with(result, fault),
            }
        }),
{
    proof {
        process::lemma_no_run(executor.history());
    }
    let tail = match tail_path(tools) {
        Ok(tail) => tail,
        Err(error) => return Err(error),
    };
    let log_file = openrc_log_file(service);
    run_openrc_logs_with_executor(
        executor,
        &tail,
        &log_file,
        log_exists,
        service,
        lines,
        since,
        follow,
    )
}

/// A selection by time is refused, not ignored: nothing is run for it, whatever
/// else was asked for.
pub proof fn law_since_is_refused(
    tail: Seq<u8>,
    log_file: Seq<u8>,
    log_exists: bool,
    service: Seq<char>,
    lines: u32,
    follow: bool,
    ran: Seq<Exchange>,
    result: Result<String, String>,
)
    requires
        reads_log(tail, log_file, log_exists, service, lines, true, follow, ran, result),
    ensures
        ran.len() == 0,
        result is Err,
{
}

/// The log of a service never fails to be read for its path, which is a text.
pub proof fn law_log_path_is_text(service: Seq<char>)
    ensures
        logs_fault(utf8::encode_utf8(script::log_file(service)), true, false) is None,
{
    path::law_new_path_text(script::log_file(service));
}

}
