//! Laws of the OpenRC tools: what is run, and what their answers mean.

use vstd::prelude::*;
use vstd::utf8;

use crate::chars;
use crate::laws::path as path_laws;
use crate::laws::text as text_laws;
use crate::openrc::plan;
use crate::openrc::plan::OpenrcInstallSnapshot;
use crate::openrc::tools;
use crate::path;
use crate::path::PathEntry;
use crate::process;
use crate::process::Exchange;
use crate::text;

verus! {

/// What rc-service and rc-update are run with, and what for.
pub proof fn law_tool_runs(
    rc_service: Seq<u8>,
    rc_update: Seq<u8>,
    service: Seq<char>,
    action: Seq<char>,
)
    ensures
        ({
            let run = tools::rc_service_run(rc_service, service, action);
            &&& run.program == rc_service
            &&& run.args == seq![service, action]
            &&& run.operation == "rc-service "@ + action
            &&& run.unit == Some(service)
            &&& !run.inherit_stdio
        }),
        ({
            let run = tools::rc_update_run(rc_update, action, service);
            &&& run.program == rc_update
            &&& run.args == seq![action, service, "default"@]
            &&& run.operation == "rc-update "@ + action
            &&& run.unit == Some(service)
            &&& !run.inherit_stdio
        }),
        ({
            let run = tools::rc_update_show_run(rc_update, service);
            &&& run.program == rc_update
            &&& run.args == seq!["show"@, "default"@]
            &&& run.operation == "rc-update show"@
            &&& run.unit == Some(service)
            &&& !run.inherit_stdio
        }),
{
}

/// Every run of a tool names its program, its arguments, its operation and its
/// service as they were given.
pub proof fn law_tool_runs_are_as_given(
    program: Seq<u8>,
    operation: Seq<char>,
    args: Seq<Seq<char>>,
    service: Seq<char>,
)
    ensures
        ({
            let run = tools::invocation(program, operation, args, service);
            &&& run.program == program
            &&& run.operation == operation
            &&& run.args == args
            &&& run.unit == Some(service)
            &&& !run.inherit_stdio
        }),
{
}

/// A service in the default runlevel has an entry of its name in the directory
/// `default` of the runlevels, and is in it where anything at all stands there.
pub proof fn law_enabled_services_have_an_entry(
    runlevel_dir: Seq<u8>,
    service: Seq<char>,
    entry: PathEntry,
)
    requires
        runlevel_dir.len() > 0,
        runlevel_dir.last() != 47u8,
        utf8::encode_utf8(service).len() > 0,
        utf8::encode_utf8(service)[0] != 47u8,
    ensures
        tools::runlevel_entry(runlevel_dir, service) == runlevel_dir + seq![47u8]
            + utf8::encode_utf8("default"@) + seq![47u8] + utf8::encode_utf8(service),
        tools::is_there(entry) <==> match entry {
            PathEntry::Missing => false,
            PathEntry::Unreadable(_) => false,
            PathEntry::RegularFile => true,
            PathEntry::Directory => true,
            PathEntry::Symlink => true,
            PathEntry::Other => true,
        },
{
    let level = utf8::encode_utf8("default"@);
    reveal_strlit("default");
    utf8::is_ascii_chars_encode_utf8("default"@);
    assert(level.len() == 7);
    assert(level[0] == 'd' as u8);
    assert(level[6] == 't' as u8);
    path_laws::law_paths_are_joined_by_one_separator(runlevel_dir, level);
    let dir = runlevel_dir + seq![47u8] + level;
    assert(dir.last() == level[6]);
    path_laws::law_paths_are_joined_by_one_separator(dir, utf8::encode_utf8(service));
}

/// The entry of a service is found from the directory of the runlevels by two
/// names, whatever that directory and those names are.
pub proof fn law_entries_are_found_by_two_names(runlevel_dir: Seq<u8>, service: Seq<char>)
    ensures
        tools::runlevel_entry(runlevel_dir, service) == path::joined_path(
            path::joined_path(runlevel_dir, utf8::encode_utf8("default"@)),
            utf8::encode_utf8(service),
        ),
{
}

// The listing of a runlevel.

/// A row is about what stands before its first bar, white space around it aside;
/// a row without a bar is about all of it.
pub proof fn law_rows_are_about_their_first_field(
    left: Seq<char>,
    name: Seq<char>,
    right: Seq<char>,
    runlevels: Seq<char>,
)
    requires
        forall|i: int| 0 <= i < left.len() ==> chars::is_white_space(#[trigger] left[i]),
        forall|i: int| 0 <= i < right.len() ==> chars::is_white_space(#[trigger] right[i]),
        name.len() > 0 ==> !chars::is_white_space(name[0]) && !chars::is_white_space(name.last()),
        !name.contains('|'),
    ensures
        tools::row_service(left + name + right + seq!['|'] + runlevels) == name,
        tools::row_service(left + name + right) == name,
{
    let field = left + name + right;
    assert(!field.contains('|')) by {
        if field.contains('|') {
            let i = choose|i: int| 0 <= i < field.len() && field[i] == '|';
            if i < left.len() {
                assert(field[i] == left[i]);
            } else if i < left.len() + name.len() {
                assert(field[i] == name[i - left.len()]);
                assert(name.contains(name[i - left.len()]));
            } else {
                assert(field[i] == right[i - left.len() - name.len()]);
            }
        }
    }
    text_laws::law_text_before_a_character(field, '|', runlevels);
    text_laws::law_trimming_keeps_the_core(left, name, right);
}

/// A listing of rows lists a service exactly where some row is about it, at
/// whatever position it stands.
pub proof fn law_listing_is_its_rows(rows: Seq<Seq<char>>, service: Seq<char>)
    requires
        forall|i: int|
            0 <= i < rows.len() ==> (#[trigger] rows[i]).len() > 0 && rows[i].last() != '\r'
                && !rows[i].contains('\n'),
    ensures
        tools::lists_service(text::joined(rows, "\n"@), service) <==> exists|i: int|
            0 <= i < rows.len() && tools::row_service(#[trigger] rows[i]) == service,
{
    reveal_strlit("\n");
    assert("\n"@ =~= seq!['\n']);
    assert forall|i: int| 0 <= i < rows.len() implies text::is_line(#[trigger] rows[i]) by {
        assert forall|j: int| 0 <= j < rows[i].len() implies #[trigger] rows[i][j] != '\n' by {
            assert(rows[i].contains(rows[i][j]));
        }
    }
    text::law_lines_of_joined(rows);
    let listing = text::joined(rows, "\n"@);
    assert(text::lines_of(listing) == rows);
    if exists|i: int| 0 <= i < rows.len() && tools::row_service(#[trigger] rows[i]) == service {
        let i = choose|i: int|
            0 <= i < rows.len() && tools::row_service(#[trigger] rows[i]) == service;
        assert(tools::row_service(text::lines_of(listing)[i]) == service);
    }
    if tools::lists_service(listing, service) {
        let i = choose|i: int|
            0 <= i < text::lines_of(listing).len() && tools::row_service(
                #[trigger] text::lines_of(listing)[i],
            ) == service;
        assert(tools::row_service(rows[i]) == service);
    }
}

/// Whatever a listing holds, it lists a service exactly where one of its lines,
/// the last without an ending included, is about it.
pub proof fn law_every_line_of_a_listing_counts(listing: Seq<char>, service: Seq<char>, n: int)
    ensures
        0 <= n < text::lines_of(listing).len() && tools::row_service(text::lines_of(listing)[n])
            == service ==> tools::lists_service(listing, service),
        (forall|i: int|
            0 <= i < text::lines_of(listing).len() ==> tools::row_service(
                #[trigger] text::lines_of(listing)[i],
            ) != service) ==> !tools::lists_service(listing, service),
{
}

/// A listing of two parts lists what either part lists: rows before or after
/// neither hide a service nor add one that they are not about.
pub proof fn law_listings_add_up(first: Seq<char>, second: Seq<char>, service: Seq<char>)
    requires
        first.len() > 0 ==> first.last() == '\n',
    ensures
        tools::lists_service(first + second, service) <==> tools::lists_service(first, service)
            || tools::lists_service(second, service),
        !tools::lists_service(Seq::<char>::empty(), service),
{
    text_laws::law_lines_add_up(first, second);
    let none = Seq::<char>::empty();
    text_laws::law_first_line(none, none);
    let a = text::lines_of(first);
    let b = text::lines_of(second);
    let all = text::lines_of(first + second);
    assert(all == a + b);
    if tools::lists_service(first, service) {
        let i = choose|i: int|
            0 <= i < text::lines_of(first).len() && tools::row_service(
                #[trigger] text::lines_of(first)[i],
            ) == service;
        assert(text::lines_of(first + second)[i] == a[i]);
    }
    if tools::lists_service(second, service) {
        let i = choose|i: int|
            0 <= i < text::lines_of(second).len() && tools::row_service(
                #[trigger] text::lines_of(second)[i],
            ) == service;
        assert(text::lines_of(first + second)[a.len() + i] == b[i]);
    }
    if tools::lists_service(first + second, service) {
        let i = choose|i: int|
            0 <= i < text::lines_of(first + second).len() && tools::row_service(
                #[trigger] text::lines_of(first + second)[i],
            ) == service;
        if i < a.len() {
            assert(tools::row_service(text::lines_of(first)[i]) == service);
        } else {
            assert(tools::row_service(text::lines_of(second)[i - a.len()]) == service);
        }
    }
}

/// A single row lists exactly the service that it is about.
pub proof fn law_a_row_lists_its_service(row: Seq<char>, service: Seq<char>)
    requires
        row.len() > 0,
        row.last() != '\r',
        !row.contains('\n'),
    ensures
        tools::lists_service(row, service) <==> tools::row_service(row) == service,
        tools::lists_service(row + seq!['\n'], service) <==> tools::row_service(row) == service,
{
    let none = Seq::<char>::empty();
    text_laws::law_first_line(row, none);
    assert(row + seq!['\n'] + none =~= row + seq!['\n']);
    assert(text::lines_of(row + seq!['\n']) =~= seq![row]);
    assert(text::lines_of(row) == seq![row]);
    if tools::row_service(row) == service {
        assert(tools::row_service(text::lines_of(row)[0]) == service);
        assert(tools::row_service(text::lines_of(row + seq!['\n'])[0]) == service);
    }
}

/// A plan without starting, all of whose runs succeed, succeeds exactly where a
/// row of the listing, wherever it stands, is about the service.
pub proof fn law_listed_service_is_installed(
    rc_service: Seq<u8>,
    rc_update: Seq<u8>,
    service: Seq<char>,
    snapshot: OpenrcInstallSnapshot,
    ran: Seq<Exchange>,
    head: Seq<char>,
    row: Seq<char>,
    tail: Seq<char>,
)
    requires
        process::runs_until_fault(
            plan::install_steps(rc_service, rc_update, service, snapshot, true),
            ran,
        ),
        forall|i: int| 0 <= i < ran.len() ==> (#[trigger] ran[i]).succeeded(),
        ran.last().outcome->Ok_0.stdout == head + row + seq!['\n'] + tail,
        head.len() > 0 ==> head.last() == '\n',
        row.len() > 0,
        row.last() != '\r',
        !row.contains('\n'),
    ensures
        tools::row_service(row) == service ==> plan::plan_fault(service, true, ran) is None,
        plan::plan_fault(service, true, ran) is None <==> tools::row_service(row) == service
            || tools::lists_service(head, service) || tools::lists_service(tail, service),
{
    let stdout = head + row + seq!['\n'] + tail;
    let rest = row + seq!['\n'] + tail;
    assert(stdout =~= head + rest);
    assert(rest =~= (row + seq!['\n']) + tail);
    law_listings_add_up(head, rest, service);
    assert((row + seq!['\n']).last() == '\n');
    law_listings_add_up(row + seq!['\n'], tail, service);
    law_a_row_lists_its_service(row, service);
    assert(ran.len() > 0) by {
        assert(plan::install_steps(rc_service, rc_update, service, snapshot, true).len() > 0);
    }
    assert(ran[ran.len() - 1].succeeded());
}

// The state that rc-service reports.

/// A line reports a state behind `* status:`, white space around both aside, and
/// an empty one where nothing follows; a line that starts with anything else
/// reports none.
pub proof fn law_reporting_lines(
    left: Seq<char>,
    gap: Seq<char>,
    state: Seq<char>,
    right: Seq<char>,
    other: Seq<char>,
)
    requires
        forall|i: int| 0 <= i < left.len() ==> chars::is_white_space(#[trigger] left[i]),
        forall|i: int| 0 <= i < gap.len() ==> chars::is_white_space(#[trigger] gap[i]),
        forall|i: int| 0 <= i < right.len() ==> chars::is_white_space(#[trigger] right[i]),
        state.len() > 0,
        !chars::is_white_space(state[0]),
        !chars::is_white_space(state.last()),
    ensures
        tools::reported_state(left + "* status:"@ + gap + state + right) == Some(state),
        tools::reported_state(left + "* status:"@ + gap) == Some(Seq::<char>::empty()),
        tools::reported_state(other) is Some <==> "* status:"@.is_prefix_of(text::trimmed(other)),
{
    reveal_strlit("* status:");
    let mark = "* status:"@;
    let core = mark + gap + state;
    assert(core[0] == mark[0]);
    assert(core.last() == state.last());
    assert(left + mark + gap + state + right =~= left + core + right);
    text_laws::law_trimming_keeps_the_core(left, core, right);
    assert(core.take(mark.len() as int) =~= mark);
    assert(core.skip(mark.len() as int) =~= gap + state + Seq::<char>::empty());
    text_laws::law_trimming_keeps_the_core(gap, state, Seq::empty());
    assert(mark.is_prefix_of(core)) by {
        assert(mark =~= core.subrange(0, mark.len() as int));
    }
    text_laws::law_trimming_keeps_the_core(left, mark, gap);
    assert(mark.is_prefix_of(mark)) by {
        assert(mark =~= mark.subrange(0, mark.len() as int));
    }
    let nothing = Seq::<char>::empty();
    assert(mark.skip(mark.len() as int) =~= nothing + nothing + nothing);
    text_laws::law_trimming_keeps_the_core(nothing, nothing, nothing);
}

/// The first line that reports a state decides, whatever stands before and
/// after it.
pub proof fn law_the_first_report_decides(
    head: Seq<Seq<char>>,
    line: Seq<char>,
    tail: Seq<Seq<char>>,
)
    requires
        forall|i: int| 0 <= i < head.len() ==> tools::reported_state(#[trigger] head[i]) is None,
        tools::reported_state(line) is Some,
    ensures
        tools::first_reported_state(head + seq![line] + tail) == tools::reported_state(line),
        tools::first_reported_state(head) is None,
    decreases head.len(),
{
    let all = head + seq![line] + tail;
    if head.len() > 0 {
        assert(all[0] == head[0]);
        assert(all.drop_first() =~= head.drop_first() + seq![line] + tail);
        let rest = head.drop_first();
        assert forall|i: int| 0 <= i < rest.len() implies tools::reported_state(
            #[trigger] rest[i],
        ) is None by {
            assert(rest[i] == head[i + 1]);
        }
        law_the_first_report_decides(rest, line, tail);
    } else {
        assert(all[0] == line);
    }
}

/// Each state of OpenRC has its word, and whatever else is reported, or nothing,
/// is unknown.
pub proof fn law_states_have_their_words(stdout: Seq<char>, state: Seq<char>)
    requires
        tools::first_reported_state(text::lines_of(stdout)) == Some(state),
    ensures
        state == "started"@ ==> tools::active_state(stdout) == "active"@,
        state == "stopped"@ || state == "inactive"@ ==> tools::active_state(stdout)
            == "inactive"@,
        state == "crashed"@ ==> tools::active_state(stdout) == "failed"@,
        state == "starting"@ ==> tools::active_state(stdout) == "activating"@,
        state == "stopping"@ ==> tools::active_state(stdout) == "deactivating"@,
        state != "started"@ && state != "stopped"@ && state != "inactive"@ && state != "crashed"@
            && state != "starting"@ && state != "stopping"@ ==> tools::active_state(stdout)
            == "unknown"@,
{
    reveal_strlit("started");
    reveal_strlit("stopped");
    reveal_strlit("inactive");
    reveal_strlit("crashed");
    reveal_strlit("starting");
    reveal_strlit("stopping");
    assert("started"@.len() == 7 && "stopped"@.len() == 7 && "crashed"@.len() == 7);
    assert("starting"@.len() == 8 && "stopping"@.len() == 8 && "inactive"@.len() == 8);
    assert("started"@[2] != "stopped"@[2] && "started"@[0] != "crashed"@[0]);
    assert("stopped"@[0] != "crashed"@[0]);
    assert("inactive"@[0] != "starting"@[0] && "inactive"@[0] != "stopping"@[0]);
    assert("starting"@[2] != "stopping"@[2]);
}

/// Where no line reports a state, it is unknown.
pub proof fn law_without_a_report_the_state_is_unknown(stdout: Seq<char>)
    requires
        forall|i: int|
            0 <= i < text::lines_of(stdout).len() ==> tools::reported_state(
                #[trigger] text::lines_of(stdout)[i],
            ) is None,
    ensures
        tools::active_state(stdout) == "unknown"@,
{
    lemma_no_report(text::lines_of(stdout));
}

proof fn lemma_no_report(lines: Seq<Seq<char>>)
    requires
        forall|i: int| 0 <= i < lines.len() ==> tools::reported_state(#[trigger] lines[i]) is None,
    ensures
        tools::first_reported_state(lines) is None,
    decreases lines.len(),
{
    if lines.len() > 0 {
        let rest = lines.drop_first();
        assert forall|i: int| 0 <= i < rest.len() implies tools::reported_state(
            #[trigger] rest[i],
        ) is None by {
            assert(rest[i] == lines[i + 1]);
        }
        lemma_no_report(rest);
    }
}

}
