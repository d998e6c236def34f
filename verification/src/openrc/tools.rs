//! The OpenRC tools: the runs that ask them for something, and what their
//! answers say.

use vstd::prelude::*;
use vstd::utf8;

use crate::chars;
use crate::openrc::script;
use crate::path;
use crate::path::{FsPath, PathEntry};
use crate::process::{InvocationView, Journal, ProcessExecutor, ProcessInvocation};
use crate::text;
use crate::text::{lines, strip_prefix, text_before, text_eq, trim};

verus! {

/// Where OpenRC keeps its runlevels.
pub const OPENRC_RUNLEVELS_DIR: &'static str = "/etc/runlevels";

/// The runlevel that the Runner belongs to.
pub const OPENRC_DEFAULT_RUNLEVEL: &'static str = "default";

// What is run.

/// A run of an OpenRC tool for a service.
pub open spec fn invocation(
    program: Seq<u8>,
    operation: Seq<char>,
    args: Seq<Seq<char>>,
    service: Seq<char>,
) -> InvocationView {
    InvocationView { operation, program, args, unit: Some(service), inherit_stdio: false }
}

/// `rc-service <service> <action>`.
pub open spec fn rc_service_run(
    rc_service: Seq<u8>,
    service: Seq<char>,
    action: Seq<char>,
) -> InvocationView {
    invocation(rc_service, "rc-service "@ + action, seq![service, action], service)
}

/// `rc-update <action> <service> default`.
pub open spec fn rc_update_run(
    rc_update: Seq<u8>,
    action: Seq<char>,
    service: Seq<char>,
) -> InvocationView {
    invocation(
        rc_update,
        "rc-update "@ + action,
        seq![action, service, OPENRC_DEFAULT_RUNLEVEL@],
        service,
    )
}

/// `rc-update show default`.
pub open spec fn rc_update_show_run(rc_update: Seq<u8>, service: Seq<char>) -> InvocationView {
    invocation(
        rc_update,
        "rc-update show"@,
        seq!["show"@, OPENRC_DEFAULT_RUNLEVEL@],
        service,
    )
}

pub fn openrc_invocation(
    program: &FsPath,
    operation: &str,
    args: Vec<String>,
    service: &str,
) -> (result: ProcessInvocation)
    ensures
        result@ == invocation(program@, operation@, text::texts(args@), service@),
{
    ProcessInvocation {
        operation: operation.to_owned(),
        program: program.duplicate(),
        args,
        unit: Some(service.to_owned()),
        inherit_stdio: false,
    }
}

pub fn rc_service_invocation(rc_service: &FsPath, service: &str, action: &str) -> (result:
    ProcessInvocation)
    ensures
        result@ == rc_service_run(rc_service@, service@, action@),
{
    let mut operation = "rc-service ".to_owned();
    operation.append(action);
    let args: Vec<String> = vec![service.to_owned(), action.to_owned()];
    assert(text::texts(args@) =~= seq![service@, action@]);
    openrc_invocation(rc_service, operation.as_str(), args, service)
}

pub fn rc_update_invocation(rc_update: &FsPath, action: &str, service: &str) -> (result:
    ProcessInvocation)
    ensures
        result@ == rc_update_run(rc_update@, action@, service@),
{
    let mut operation = "rc-update ".to_owned();
    operation.append(action);
    let args: Vec<String> = vec![
        action.to_owned(),
        service.to_owned(),
        OPENRC_DEFAULT_RUNLEVEL.to_owned(),
    ];
    assert(text::texts(args@) =~= seq![action@, service@, OPENRC_DEFAULT_RUNLEVEL@]);
    openrc_invocation(rc_update, operation.as_str(), args, service)
}

pub fn rc_update_show_invocation(rc_update: &FsPath, service: &str) -> (result: ProcessInvocation)
    ensures
        result@ == rc_update_show_run(rc_update@, service@),
{
    let args: Vec<String> = vec!["show".to_owned(), OPENRC_DEFAULT_RUNLEVEL.to_owned()];
    assert(text::texts(args@) =~= seq!["show"@, OPENRC_DEFAULT_RUNLEVEL@]);
    openrc_invocation(rc_update, "rc-update show", args, service)
}

// Whether the service runs, and whether it is in the default runlevel.

/// Asks rc-service whether the service runs. One that cannot be asked about
/// does not.
pub fn openrc_service_active<E: ProcessExecutor>(
    executor: &mut Journal<E>,
    rc_service: &FsPath,
    service: &str,
) -> (result: bool)
    ensures
        final(executor).history().len() == old(executor).history().len() + 1,
        final(executor).history().drop_last() == old(executor).history(),
        final(executor).history().last().invocation == rc_service_run(
            rc_service@,
            service@,
            "status"@,
        ),
        result == final(executor).history().last().succeeded(),
{
    let ghost before = executor.history();
    let status = executor.execute(&rc_service_invocation(rc_service, service, "status"));
    assert(executor.history().drop_last() =~= before);
    match status {
        Ok(output) => output.success,
        Err(_) => false,
    }
}

/// Where the default runlevel holds an entry for each of its services.
pub open spec fn runlevel_entry(runlevel_dir: Seq<u8>, service: Seq<char>) -> Seq<u8> {
    path::joined_path(
        path::joined_path(runlevel_dir, utf8::encode_utf8(OPENRC_DEFAULT_RUNLEVEL@)),
        utf8::encode_utf8(service),
    )
}

pub fn openrc_runlevel_entry(runlevel_dir: &FsPath, service: &str) -> (result: FsPath)
    ensures
        result@ == runlevel_entry(runlevel_dir@, service@),
{
    runlevel_dir.join(OPENRC_DEFAULT_RUNLEVEL).join(service)
}

/// Something stands at the path, whatever it is.
pub open spec fn is_there(entry: PathEntry) -> bool {
    !(entry is Missing || entry is Unreadable)
}

/// Whether the service is in the default runlevel, by what stands at its entry
/// there.
pub fn openrc_service_enabled(runlevel_entry: &PathEntry) -> (result: bool)
    ensures
        result == is_there(*runlevel_entry),
{
    match runlevel_entry {
        PathEntry::Missing => false,
        PathEntry::Unreadable(_) => false,
        _ => true,
    }
}

/// The service that a row `<service> | <runlevels>` of `rc-update show` is
/// about.
pub open spec fn row_service(row: Seq<char>) -> Seq<char> {
    text::trimmed(text::before(row, '|'))
}

/// A row of `show_output` is about exactly this service.
pub open spec fn lists_service(show_output: Seq<char>, service: Seq<char>) -> bool {
    exists|i: int|
        0 <= i < text::lines_of(show_output).len() && row_service(
            #[trigger] text::lines_of(show_output)[i],
        ) == service
}

pub fn runlevel_lists_service(show_output: &str, service: &str) -> (result: bool)
    ensures
        result == lists_service(show_output@, service@),
{
    let rows = lines(show_output);
    let ghost all = text::lines_of(show_output@);
    assert(rows.len() == all.len());
    let mut i: usize = 0;
    while i < rows.len()
        invariant
            i <= rows.len(),
            rows.len() == all.len(),
            all == text::lines_of(show_output@),
            text::texts(rows@) == all,
            forall|j: int| 0 <= j < i ==> row_service(#[trigger] all[j]) != service@,
        decreases rows.len() - i,
    {
        assert(all[i as int] == rows@[i as int]@);
        let field = trim(text_before(rows[i].as_str(), '|').as_str());
        if text_eq(field.as_str(), service) {
            assert(row_service(text::lines_of(show_output@)[i as int]) == service@);
            return true;
        }
        i = i + 1;
    }
    false
}

/// A row that names a service, between white space, is about that service.
pub proof fn law_row_is_about_the_service_it_names(
    left: Seq<char>,
    service: Seq<char>,
    right: Seq<char>,
    runlevels: Seq<char>,
)
    requires
        script::is_identity(service),
        forall|i: int| 0 <= i < left.len() ==> chars::is_white_space(#[trigger] left[i]),
        forall|i: int| 0 <= i < right.len() ==> chars::is_white_space(#[trigger] right[i]),
    ensures
        row_service(left + service + right + seq!['|'] + runlevels) == service,
{
    let field = left + service + right;
    let row = field + seq!['|'] + runlevels;
    assert forall|j: int| 0 <= j < field.len() implies chars::other_than('|')(#[trigger] row[j]) by {
        if j < left.len() {
            assert(row[j] == left[j]);
        } else if j < left.len() + service.len() {
            assert(row[j] == service[j - left.len()]);
            assert(script::is_identity_char(service[j - left.len()]));
        } else {
            assert(row[j] == right[j - left.len() - service.len()]);
        }
    }
    chars::lemma_prefix_len_is(row, chars::other_than('|'), field.len() as int);
    assert(text::before(row, '|') =~= field);
    assert(script::is_identity_char(service[0]));
    assert(field[left.len() as int] == service[0]);
    assert forall|j: int| 0 <= j < left.len() implies chars::white_space()(#[trigger] field[j]) by {
        assert(field[j] == left[j]);
    }
    chars::lemma_prefix_len_is(field, chars::white_space(), left.len() as int);
    let rest = field.skip(left.len() as int);
    assert(rest =~= service + right);
    assert(script::is_identity_char(service.last()));
    assert(rest[service.len() - 1] == service.last());
    assert forall|j: int| service.len() <= j < rest.len() implies chars::white_space()(
        #[trigger] rest[j],
    ) by {
        assert(rest[j] == right[j - service.len()]);
    }
    chars::lemma_suffix_len_is(rest, chars::white_space(), right.len() as int);
    assert(rest.take(service.len() as int) =~= service);
}

// The state that rc-service reports.

/// The state that a line of `rc-service <service> status` reports.
pub open spec fn reported_state(line: Seq<char>) -> Option<Seq<char>> {
    let said = text::trimmed(line);
    if "* status:"@.is_prefix_of(said) {
        Some(text::trimmed(said.skip("* status:"@.len() as int)))
    } else {
        None
    }
}

/// The state that the first reporting line reports.
pub open spec fn first_reported_state(lines: Seq<Seq<char>>) -> Option<Seq<char>>
    decreases lines.len(),
{
    if lines.len() == 0 {
        None
    } else {
        match reported_state(lines[0]) {
            Some(state) => Some(state),
            None => first_reported_state(lines.drop_first()),
        }
    }
}

/// A state of OpenRC in systemd's words.
pub open spec fn active_word(state: Seq<char>) -> Seq<char> {
    if state == "started"@ {
        "active"@
    } else if state == "stopped"@ || state == "inactive"@ {
        "inactive"@
    } else if state == "crashed"@ {
        "failed"@
    } else if state == "starting"@ {
        "activating"@
    } else if state == "stopping"@ {
        "deactivating"@
    } else {
        "unknown"@
    }
}

/// What the output of `rc-service <service> status` says, in systemd's words.
pub open spec fn active_state(stdout: Seq<char>) -> Seq<char> {
    match first_reported_state(text::lines_of(stdout)) {
        Some(state) => active_word(state),
        None => "unknown"@,
    }
}

pub fn parse_openrc_status(stdout: &str) -> (result: String)
    ensures
        result@ == active_state(stdout@),
{
    let rows = lines(stdout);
    let ghost all = text::lines_of(stdout@);
    assert(rows.len() == all.len());
    let mut i: usize = 0;
    assert(all.skip(0) =~= all);
    while i < rows.len()
        invariant
            i <= rows.len(),
            rows.len() == all.len(),
            all == text::lines_of(stdout@),
            text::texts(rows@) == all,
            first_reported_state(all) == first_reported_state(all.skip(i as int)),
        decreases rows.len() - i,
    {
        assert(all[i as int] == rows@[i as int]@);
        assert(all.skip(i as int)[0] == all[i as int]);
        assert(all.skip(i as int).drop_first() =~= all.skip(i + 1));
        match strip_prefix(trim(rows[i].as_str()).as_str(), "* status:") {
            Some(rest) => {
                let state = trim(rest.as_str());
                let state = state.as_str();
                return if text_eq(state, "started") {
                    "active".to_owned()
                } else if text_eq(state, "stopped") || text_eq(state, "inactive") {
                    "inactive".to_owned()
                } else if text_eq(state, "crashed") {
                    "failed".to_owned()
                } else if text_eq(state, "starting") {
                    "activating".to_owned()
                } else if text_eq(state, "stopping") {
                    "deactivating".to_owned()
                } else {
                    "unknown".to_owned()
                };
            },
            None => {},
        }
        i = i + 1;
    }
    "unknown".to_owned()
}

}
