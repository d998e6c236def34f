//! Laws of the init script.

use vstd::prelude::*;
use vstd::utf8;

use crate::chars;
use crate::laws::path as path_laws;
use crate::laws::text as text_laws;
use crate::openrc::script;
use crate::openrc::script::{RunnerInstallServiceOptions, ScriptValues, ServiceScope};
use crate::path;
use crate::text;

verus! {

// Which values may stand in a script.

/// A name is one or more of the ASCII letters and digits, `_`, `-` and `.`.
pub proof fn law_names_are_plain(field: Seq<char>, value: Seq<char>)
    ensures
        script::is_identity(value) <==> value.len() > 0 && forall|i: int|
            0 <= i < value.len() ==> ('a' <= #[trigger] value[i] <= 'z' || 'A' <= value[i] <= 'Z'
                || '0' <= value[i] <= '9' || value[i] == '_' || value[i] == '-' || value[i]
                == '.'),
        script::identity_fault(field, value) is None <==> script::is_identity(value),
        value.len() == 0 ==> script::identity_fault(field, value) == Some(
            "invalid OpenRC "@ + field + " value: "@ + "cannot be empty"@,
        ),
        value.len() > 0 && !script::is_identity(value) ==> script::identity_fault(field, value)
            == Some(
            "invalid OpenRC "@ + field + " value: "@
                + "use only ASCII letters, digits, '_', '-' or '.'"@,
        ),
{
    if script::is_identity(value) {
        assert forall|i: int| 0 <= i < value.len() implies ('a' <= #[trigger] value[i] <= 'z'
            || 'A' <= value[i] <= 'Z' || '0' <= value[i] <= '9' || value[i] == '_' || value[i]
            == '-' || value[i] == '.') by {
            assert(script::is_identity_char(value[i]));
        }
    }
}

/// A value is safe where no character of it is a control character or could end
/// the string that it stands in, or be expanded there.
pub proof fn law_safe_values(field: Seq<char>, value: Seq<char>)
    ensures
        script::is_shell_safe(value) <==> value.len() > 0 && forall|i: int|
            0 <= i < value.len() ==> ' ' <= #[trigger] value[i] && !('\u{7f}' <= value[i]
                <= '\u{9f}') && value[i] != '"' && value[i] != '\\' && value[i] != '$' && value[i]
                != '`' && value[i] != '}',
        script::is_one_word(value) <==> forall|i: int|
            0 <= i < value.len() ==> !chars::is_white_space(#[trigger] value[i]),
        script::shell_fault(field, value) is None <==> script::is_shell_safe(value),
        value.len() == 0 ==> script::shell_fault(field, value) == Some(
            "invalid OpenRC "@ + field + " value: "@ + "cannot be empty"@,
        ),
        value.len() > 0 && !script::is_shell_safe(value) ==> script::shell_fault(field, value)
            == Some(
            "invalid OpenRC "@ + field + " value: "@
                + "contains a character that is unsafe in an init script"@,
        ),
{
    if script::is_shell_safe(value) {
        assert forall|i: int| 0 <= i < value.len() implies ' ' <= #[trigger] value[i] && !('\u{7f}'
            <= value[i] <= '\u{9f}') && value[i] != '"' && value[i] != '\\' && value[i] != '$'
            && value[i] != '`' && value[i] != '}' by {
            assert(!script::is_unsafe_in_script(value[i]));
        }
    }
}

/// A path is fit for the script exactly where it is absolute, a text and safe;
/// for a command line it must also be one word. The first of these that it
/// misses is told.
pub proof fn law_fit_paths(field: Seq<char>, value: Seq<u8>, text: Seq<char>)
    ensures
        value.len() == 0 || value[0] != 47u8 ==> script::path_fault(field, value) == Some(
            "invalid OpenRC "@ + field + " value: "@ + "path must be absolute"@,
        ),
        value.len() > 0 && value[0] == 47u8 && value == utf8::encode_utf8(text)
            ==> script::path_fault(field, value) == script::shell_fault(field, text),
        value.len() > 0 && value[0] == 47u8 && !utf8::valid_utf8(value) ==> script::path_fault(
            field,
            value,
        ) == Some("invalid OpenRC "@ + field + " value: "@ + "path is not valid UTF-8"@),
        script::path_fault(field, value) is Some ==> script::command_fault(field, value)
            == script::path_fault(field, value),
        script::path_fault(field, value) is None && value == utf8::encode_utf8(text)
            ==> script::command_fault(field, value) == if script::is_one_word(text) {
            None
        } else {
            Some(
                "invalid OpenRC "@ + field + " value: "@
                    + "whitespace is not supported in this path"@,
            )
        },
{
    path_laws::law_texts_of_bytes(value, text);
    utf8::encode_utf8_decode_utf8(text);
}

/// A service runs under a user, or a user and a group, each a plain name; a
/// group alone is refused.
pub proof fn law_accounts(user: Seq<char>, group: Seq<char>)
    ensures
        script::account_fault(None, None) is None,
        script::account(None, None) is None,
        script::account_fault(None, Some(group)) == Some(
            "--group requires --user for an OpenRC service"@,
        ),
        script::account_fault(Some(user), None) == script::identity_fault("user"@, user),
        script::account(Some(user), None) == Some(user),
        script::account(Some(user), Some(group)) == Some(user + ":"@ + group),
        script::identity_fault("user"@, user) is Some ==> script::account_fault(
            Some(user),
            Some(group),
        ) == script::identity_fault("user"@, user),
        script::identity_fault("user"@, user) is None ==> script::account_fault(
            Some(user),
            Some(group),
        ) == script::identity_fault("group"@, group),
{
}

/// Options are rendered exactly where the scope is the system's, root was
/// accepted where it is meant, and every value is fit.
pub proof fn law_fit_options_are_rendered(opts: RunnerInstallServiceOptions, service_file: Seq<u8>)
    ensures
        script::render_fault(opts, service_file) is None <==> {
            &&& opts.scope == ServiceScope::System
            &&& opts.root_runner ==> opts.allow_root_runner
            &&& script::is_identity(script::service_name(service_file))
            &&& script::command_fault("command"@, opts.bin@) is None
            &&& script::command_fault("--config"@, opts.config@) is None
            &&& script::path_fault("working directory"@, opts.working_directory@) is None
            &&& script::account_fault(text::text_of(opts.user), text::text_of(opts.group)) is None
        },
        opts.scope != ServiceScope::System ==> script::render_fault(opts, service_file) == Some(
            "OpenRC supports only --scope system; rerun as root or pass --scope system"@,
        ),
        opts.scope == ServiceScope::System && opts.root_runner && !opts.allow_root_runner
            ==> script::render_fault(opts, service_file) == Some(
            "refusing to render a Runner that would run as root without --allow-root-runner"@,
        ),
{
}

/// With the scope and the account's standing in order, the first unfit value is
/// told: of the service, the command, the config, the directory, the account.
pub proof fn law_the_first_unfit_value_is_told(
    opts: RunnerInstallServiceOptions,
    service_file: Seq<u8>,
)
    requires
        opts.scope == ServiceScope::System,
        opts.root_runner ==> opts.allow_root_runner,
    ensures
        ({
            let told = script::render_fault(opts, service_file);
            let service = script::identity_fault(
                "service name"@,
                script::service_name(service_file),
            );
            let command = script::command_fault("command"@, opts.bin@);
            let config = script::command_fault("--config"@, opts.config@);
            let directory = script::path_fault("working directory"@, opts.working_directory@);
            let account = script::account_fault(
                text::text_of(opts.user),
                text::text_of(opts.group),
            );
            &&& service is Some ==> told == service
            &&& service is None && command is Some ==> told == command
            &&& service is None && command is None && config is Some ==> told == config
            &&& service is None && command is None && config is None && directory is Some ==> told
                == directory
            &&& service is None && command is None && config is None && directory is None ==> told
                == account
        }),
{
}

/// A service is named by the text of its script's file name, unless that is
/// blank; a file without a name, or whose name is no text, is the Runner's.
pub proof fn law_services_are_named_by_their_file(dir: Seq<u8>, name: Seq<char>, file: Seq<u8>)
    requires
        path_laws::is_component(utf8::encode_utf8(name)),
        utf8::encode_utf8(name) != seq![46u8, 46u8],
    ensures
        text::trimmed(name).len() > 0 ==> script::service_name(
            dir + seq![47u8] + utf8::encode_utf8(name),
        ) == name,
        text::trimmed(name).len() == 0 ==> script::service_name(
            dir + seq![47u8] + utf8::encode_utf8(name),
        ) == "webcodex-runner"@,
        path::file_name(file) == Some(utf8::encode_utf8(name)) ==> script::service_name(file) == (
        if text::trimmed(name).len() > 0 {
            name
        } else {
            "webcodex-runner"@
        }),
        path::file_name(file) is None ==> script::service_name(file) == "webcodex-runner"@,
        path::file_name(file) matches Some(bytes) ==> !utf8::valid_utf8(bytes)
            ==> script::service_name(file) == "webcodex-runner"@,
{
    path_laws::law_files_are_named_by_their_last_component(dir, utf8::encode_utf8(name));
    path_laws::law_texts_of_bytes(utf8::encode_utf8(name), name);
}

/// The Runner's own service and the init script that it has where none is named.
pub proof fn law_the_runner_has_its_place()
    ensures
        script::RUNNER_OPENRC_SERVICE@ == "webcodex-runner"@,
        script::OPENRC_RUNNER_INIT_FILE@ == "/etc/init.d/webcodex-runner"@,
        script::OPENRC_INIT_DIR@ == "/etc/init.d"@,
{
}

/// The log of a service is the file of its name in `/var/log`.
pub proof fn law_logs_are_named_by_their_service(service: Seq<char>)
    ensures
        script::log_file(service) == "/var/log/"@ + service + ".log"@,
{
}

/// The script gets the values of the options: the service of its file, the texts
/// of the paths, the account, and whether it runs as root.
pub proof fn law_scripts_get_the_values_of_the_options(
    opts: RunnerInstallServiceOptions,
    service_file: Seq<u8>,
    text: Seq<char>,
)
    ensures
        ({
            let values = script::script_values(opts, service_file);
            &&& values.service == script::service_name(service_file)
            &&& opts.bin.bytes@ == utf8::encode_utf8(text) ==> values.command == text
            &&& opts.config.bytes@ == utf8::encode_utf8(text) ==> values.config == text
            &&& opts.working_directory.bytes@ == utf8::encode_utf8(text)
                ==> values.working_directory == text
            &&& values.root_runner == opts.root_runner
            &&& opts.user is None ==> values.account is None
            &&& opts.user matches Some(user) ==> opts.group is None ==> values.account == Some(
                user@,
            )
            &&& opts.user matches Some(user) ==> (opts.group matches Some(group)
                ==> values.account == Some(user@ + ":"@ + group@))
        }),
{
    utf8::encode_utf8_decode_utf8(text);
}

// The lines of the script.

/// A text of whole lines.
pub open spec fn text_of_lines(lines: Seq<Seq<char>>) -> Seq<char>
    decreases lines.len(),
{
    if lines.len() == 0 {
        Seq::empty()
    } else {
        text_of_lines(lines.drop_last()) + lines.last() + seq!['\n']
    }
}

proof fn lemma_lines_of_text(lines: Seq<Seq<char>>)
    requires
        forall|i: int|
            0 <= i < lines.len() ==> !(#[trigger] lines[i]).contains('\n') && (lines[i].len() == 0
                || lines[i].last() != '\r'),
    ensures
        text::lines_of(text_of_lines(lines)) == lines,
        lines.len() > 0 ==> text_of_lines(lines).len() > 0 && text_of_lines(lines).last() == '\n',
    decreases lines.len(),
{
    let none = Seq::<char>::empty();
    if lines.len() == 0 {
        text_laws::law_first_line(none, none);
        assert(lines =~= Seq::<Seq<char>>::empty());
    } else {
        let head = lines.drop_last();
        assert forall|i: int| 0 <= i < head.len() implies !(#[trigger] head[i]).contains('\n') && (
        head[i].len() == 0 || head[i].last() != '\r') by {
            assert(head[i] == lines[i]);
        }
        lemma_lines_of_text(head);
        let line = lines[lines.len() - 1];
        text_laws::lemma_line_between(text_of_lines(head), line, none);
        text_laws::law_first_line(none, none);
        assert(text_of_lines(head) + line + seq!['\n'] + none =~= text_of_lines(lines));
        assert(head + seq![line] + Seq::<Seq<char>>::empty() =~= lines);
    }
}

/// One more line behind whole lines.
proof fn lemma_append(done: Seq<char>, lines: Seq<Seq<char>>, piece: Seq<char>, line: Seq<char>)
    requires
        done == text_of_lines(lines),
        piece == line + seq!['\n'],
    ensures
        done + piece == text_of_lines(lines.push(line)),
{
    assert(lines.push(line).drop_last() =~= lines);
    assert(done + piece =~= done + line + seq!['\n']);
}

/// One more line, with a value in its middle, behind whole lines.
proof fn lemma_append_value(
    done: Seq<char>,
    lines: Seq<Seq<char>>,
    before: Seq<char>,
    value: Seq<char>,
    after: Seq<char>,
    closing: Seq<char>,
)
    requires
        done == text_of_lines(lines),
        after == closing + seq!['\n'],
    ensures
        done + before + value + after == text_of_lines(lines.push(before + value + closing)),
{
    let line = before + value + closing;
    assert(before + value + after =~= line + seq!['\n']);
    lemma_append(done, lines, before + value + after, line);
    assert(done + before + value + after =~= done + (before + value + after));
}

/// The script's lines of fixed text that stand before its values.
pub open spec fn opening_lines(root_runner: bool) -> Seq<Seq<char>> {
    let head = seq![
        "#!/sbin/openrc-run"@,
        "# WebCodex Runner service for OpenRC (supervise-daemon)."@,
        "# Rendered by `webcodex runner install --service-manager openrc`."@,
    ];
    (if root_runner {
        head.push(
            "# WARNING: --allow-root-runner was explicitly accepted; project commands run as root."@,
        )
    } else {
        head
    }).push("# Secrets stay in the Runner config named by --config; none appear here."@).push(
        "# Optional overrides belong in /etc/conf.d/$RC_SVCNAME using the"@,
    ).push("# WEBCODEX_RUNNER_* variables below."@).push(""@)
}

/// The script's lines of fixed text that stand behind its values.
pub open spec fn closing_lines() -> Seq<Seq<char>> {
    seq![
        ""@,
        "extra_started_commands=\"reload\""@,
        ""@,
        "depend() {"@,
        "\tuse net"@,
        "\tafter net"@,
        "}"@,
        ""@,
        "reload() {"@,
        "\tebegin \"Reloading $name\""@,
        "\tstart-stop-daemon --signal HUP --pidfile \"$pidfile\""@,
        "\teend $?"@,
        "}"@,
    ]
}

/// The script's lines with its values.
pub open spec fn value_lines(values: ScriptValues) -> Seq<Seq<char>> {
    let log = "/var/log/"@ + values.service + ".log"@;
    let head = seq![
        "name=\""@ + values.service + "\""@,
        "description=\"WebCodex Runner\""@,
        ""@,
        "supervisor=\"supervise-daemon\""@,
        "command=\"${WEBCODEX_RUNNER_BIN:-"@ + values.command + "}\""@,
        "command_args=\"--config ${WEBCODEX_RUNNER_CONFIG:-"@ + values.config + "}\""@,
    ];
    (match values.account {
        Some(account) => head.push("command_user=\"${WEBCODEX_RUNNER_USER:-"@ + account + "}\""@),
        None => head,
    }).push(
        "directory=\"${WEBCODEX_RUNNER_WORKING_DIRECTORY:-"@ + values.working_directory + "}\""@,
    ).push("pidfile=\"/run/${RC_SVCNAME}.pid\""@).push(
        "output_log=\"${WEBCODEX_RUNNER_LOG:-"@ + log + "}\""@,
    ).push("error_log=\"${WEBCODEX_RUNNER_LOG:-"@ + log + "}\""@)
}

/// The values of a script fit on a line each.
pub open spec fn are_single_lines(values: ScriptValues) -> bool {
    &&& !values.service.contains('\n')
    &&& !values.command.contains('\n')
    &&& !values.config.contains('\n')
    &&& !values.working_directory.contains('\n')
    &&& values.account matches Some(account) ==> !account.contains('\n')
}

/// The script is the text of its lines.
#[verifier::rlimit(100)]
proof fn lemma_script_is_its_lines(values: ScriptValues)
    ensures
        script::init_script(values) == text_of_lines(
            opening_lines(values.root_runner) + value_lines(values) + closing_lines(),
        ),
{
    reveal_strlit("");
    reveal_strlit("\tafter net");
    reveal_strlit("\tebegin \"Reloading $name\"");
    reveal_strlit("\teend $?");
    reveal_strlit("\tstart-stop-daemon --signal HUP --pidfile \"$pidfile\"");
    reveal_strlit("\tuse net");
    reveal_strlit("\"");
    reveal_strlit("\"\n");
    reveal_strlit("# Optional overrides belong in /etc/conf.d/$RC_SVCNAME using the");
    reveal_strlit("# Optional overrides belong in /etc/conf.d/$RC_SVCNAME using the\n");
    reveal_strlit("# Rendered by `webcodex runner install --service-manager openrc`.");
    reveal_strlit("# Rendered by `webcodex runner install --service-manager openrc`.\n");
    reveal_strlit("# Secrets stay in the Runner config named by --config; none appear here.");
    reveal_strlit("# Secrets stay in the Runner config named by --config; none appear here.\n");
    reveal_strlit("# WARNING: --allow-root-runner was explicitly accepted; project commands run as root.");
    reveal_strlit("# WARNING: --allow-root-runner was explicitly accepted; project commands run as root.\n");
    reveal_strlit("# WEBCODEX_RUNNER_* variables below.");
    reveal_strlit("# WEBCODEX_RUNNER_* variables below.\n\n");
    reveal_strlit("# WebCodex Runner service for OpenRC (supervise-daemon).");
    reveal_strlit("# WebCodex Runner service for OpenRC (supervise-daemon).\n");
    reveal_strlit("#!/sbin/openrc-run");
    reveal_strlit("#!/sbin/openrc-run\n");
    reveal_strlit("depend() {");
    reveal_strlit("depend() {\n\tuse net\n\tafter net\n}\n\n");
    reveal_strlit("description=\"WebCodex Runner\"");
    reveal_strlit("description=\"WebCodex Runner\"\n\n");
    reveal_strlit("extra_started_commands=\"reload\"");
    reveal_strlit("extra_started_commands=\"reload\"\n\n");
    reveal_strlit("pidfile=\"/run/${RC_SVCNAME}.pid\"");
    reveal_strlit("pidfile=\"/run/${RC_SVCNAME}.pid\"\n");
    reveal_strlit("reload() {");
    reveal_strlit("reload() {\n\tebegin \"Reloading $name\"\n\tstart-stop-daemon --signal HUP --pidfile \"$pidfile\"\n\teend $?\n}\n");
    reveal_strlit("supervisor=\"supervise-daemon\"");
    reveal_strlit("supervisor=\"supervise-daemon\"\n");
    reveal_strlit("}");
    reveal_strlit("}\"");
    reveal_strlit("}\"\n");
    reveal_strlit("}\"\n\n");
    let p0 = "#!/sbin/openrc-run\n"@;
    let l0 = seq!["#!/sbin/openrc-run"@];
    let nothing = Seq::<Seq<char>>::empty();
    assert(p0 =~= "#!/sbin/openrc-run"@ + seq!['\n']);
    lemma_append(Seq::<char>::empty(), nothing, p0, "#!/sbin/openrc-run"@);
    assert(Seq::<char>::empty() + p0 =~= p0);
    assert(nothing.push("#!/sbin/openrc-run"@) =~= l0);
    let p1 = p0 + "# WebCodex Runner service for OpenRC (supervise-daemon).\n"@;
    assert("# WebCodex Runner service for OpenRC (supervise-daemon).\n"@ =~= "# WebCodex Runner service for OpenRC (supervise-daemon)."@ + seq!['\n']);
    lemma_append(p0, l0, "# WebCodex Runner service for OpenRC (supervise-daemon).\n"@, "# WebCodex Runner service for OpenRC (supervise-daemon)."@);
    let l1 = l0.push("# WebCodex Runner service for OpenRC (supervise-daemon)."@);
    let p2 = p1 + "# Rendered by `webcodex runner install --service-manager openrc`.\n"@;
    assert("# Rendered by `webcodex runner install --service-manager openrc`.\n"@ =~= "# Rendered by `webcodex runner install --service-manager openrc`."@ + seq!['\n']);
    lemma_append(p1, l1, "# Rendered by `webcodex runner install --service-manager openrc`.\n"@, "# Rendered by `webcodex runner install --service-manager openrc`."@);
    let l2 = l1.push("# Rendered by `webcodex runner install --service-manager openrc`."@);
    let p3 = p2 + script::root_note(values.root_runner);
    let l3 = if values.root_runner {
        l2.push("# WARNING: --allow-root-runner was explicitly accepted; project commands run as root."@)
    } else {
        l2
    };
    if values.root_runner {
        assert("# WARNING: --allow-root-runner was explicitly accepted; project commands run as root.\n"@ =~= "# WARNING: --allow-root-runner was explicitly accepted; project commands run as root."@ + seq!['\n']);
        lemma_append(p2, l2, "# WARNING: --allow-root-runner was explicitly accepted; project commands run as root.\n"@, "# WARNING: --allow-root-runner was explicitly accepted; project commands run as root."@);
    } else {
        assert(p3 =~= p2);
    }
    let p4 = p3 + "# Secrets stay in the Runner config named by --config; none appear here.\n"@;
    assert("# Secrets stay in the Runner config named by --config; none appear here.\n"@ =~= "# Secrets stay in the Runner config named by --config; none appear here."@ + seq!['\n']);
    lemma_append(p3, l3, "# Secrets stay in the Runner config named by --config; none appear here.\n"@, "# Secrets stay in the Runner config named by --config; none appear here."@);
    let l4 = l3.push("# Secrets stay in the Runner config named by --config; none appear here."@);
    let p5 = p4 + "# Optional overrides belong in /etc/conf.d/$RC_SVCNAME using the\n"@;
    assert("# Optional overrides belong in /etc/conf.d/$RC_SVCNAME using the\n"@ =~= "# Optional overrides belong in /etc/conf.d/$RC_SVCNAME using the"@ + seq!['\n']);
    lemma_append(p4, l4, "# Optional overrides belong in /etc/conf.d/$RC_SVCNAME using the\n"@, "# Optional overrides belong in /etc/conf.d/$RC_SVCNAME using the"@);
    let l5 = l4.push("# Optional overrides belong in /etc/conf.d/$RC_SVCNAME using the"@);
    let p6 = p5 + ("# WEBCODEX_RUNNER_* variables below."@ + seq!['\n']);
    lemma_append(p5, l5, "# WEBCODEX_RUNNER_* variables below."@ + seq!['\n'], "# WEBCODEX_RUNNER_* variables below."@);
    let l6 = l5.push("# WEBCODEX_RUNNER_* variables below."@);
    let p7 = p6 + (""@ + seq!['\n']);
    lemma_append(p6, l6, ""@ + seq!['\n'], ""@);
    let l7 = l6.push(""@);
    let p8 = p5 + "# WEBCODEX_RUNNER_* variables below.\n\n"@;
    assert("# WEBCODEX_RUNNER_* variables below.\n\n"@ =~= ("# WEBCODEX_RUNNER_* variables below."@ + seq!['\n']) + (""@ + seq!['\n']));
    assert(p8 =~= p7);
    let l8 = l7;
    assert(l8 =~= opening_lines(values.root_runner));
    let p9 = p8 + "name=\""@ + values.service + "\"\n"@;
    assert("\"\n"@ =~= "\""@ + seq!['\n']);
    lemma_append_value(p8, l8, "name=\""@, values.service, "\"\n"@, "\""@);
    let l9 = l8.push("name=\""@ + values.service + "\""@);
    let p10 = p9 + ("description=\"WebCodex Runner\""@ + seq!['\n']);
    lemma_append(p9, l9, "description=\"WebCodex Runner\""@ + seq!['\n'], "description=\"WebCodex Runner\""@);
    let l10 = l9.push("description=\"WebCodex Runner\""@);
    let p11 = p10 + (""@ + seq!['\n']);
    lemma_append(p10, l10, ""@ + seq!['\n'], ""@);
    let l11 = l10.push(""@);
    let p12 = p9 + "description=\"WebCodex Runner\"\n\n"@;
    assert("description=\"WebCodex Runner\"\n\n"@ =~= ("description=\"WebCodex Runner\""@ + seq!['\n']) + (""@ + seq!['\n']));
    assert(p12 =~= p11);
    let l12 = l11;
    let p13 = p12 + "supervisor=\"supervise-daemon\"\n"@;
    assert("supervisor=\"supervise-daemon\"\n"@ =~= "supervisor=\"supervise-daemon\""@ + seq!['\n']);
    lemma_append(p12, l12, "supervisor=\"supervise-daemon\"\n"@, "supervisor=\"supervise-daemon\""@);
    let l13 = l12.push("supervisor=\"supervise-daemon\""@);
    let p14 = p13 + "command=\"${WEBCODEX_RUNNER_BIN:-"@ + values.command + "}\"\n"@;
    assert("}\"\n"@ =~= "}\""@ + seq!['\n']);
    lemma_append_value(p13, l13, "command=\"${WEBCODEX_RUNNER_BIN:-"@, values.command, "}\"\n"@, "}\""@);
    let l14 = l13.push("command=\"${WEBCODEX_RUNNER_BIN:-"@ + values.command + "}\""@);
    let p15 = p14 + "command_args=\"--config ${WEBCODEX_RUNNER_CONFIG:-"@ + values.config + "}\"\n"@;
    assert("}\"\n"@ =~= "}\""@ + seq!['\n']);
    lemma_append_value(p14, l14, "command_args=\"--config ${WEBCODEX_RUNNER_CONFIG:-"@, values.config, "}\"\n"@, "}\""@);
    let l15 = l14.push("command_args=\"--config ${WEBCODEX_RUNNER_CONFIG:-"@ + values.config + "}\""@);
    let p16 = p15 + script::account_line(values.account);
    let l16 = match values.account {
        Some(account) => l15.push("command_user=\"${WEBCODEX_RUNNER_USER:-"@ + account + "}\""@),
        None => l15,
    };
    match values.account {
        Some(account) => {
            let line = "command_user=\"${WEBCODEX_RUNNER_USER:-"@ + account + "}\""@;
            assert(script::account_line(values.account) =~= line + seq!['\n']);
            lemma_append(p15, l15, script::account_line(values.account), line);
        },
        None => {
            assert(p16 =~= p15);
        },
    }
    let p17 = p16 + "directory=\"${WEBCODEX_RUNNER_WORKING_DIRECTORY:-"@ + values.working_directory + "}\"\n"@;
    assert("}\"\n"@ =~= "}\""@ + seq!['\n']);
    lemma_append_value(p16, l16, "directory=\"${WEBCODEX_RUNNER_WORKING_DIRECTORY:-"@, values.working_directory, "}\"\n"@, "}\""@);
    let l17 = l16.push("directory=\"${WEBCODEX_RUNNER_WORKING_DIRECTORY:-"@ + values.working_directory + "}\""@);
    let p18 = p17 + "pidfile=\"/run/${RC_SVCNAME}.pid\"\n"@;
    assert("pidfile=\"/run/${RC_SVCNAME}.pid\"\n"@ =~= "pidfile=\"/run/${RC_SVCNAME}.pid\""@ + seq!['\n']);
    lemma_append(p17, l17, "pidfile=\"/run/${RC_SVCNAME}.pid\"\n"@, "pidfile=\"/run/${RC_SVCNAME}.pid\""@);
    let l18 = l17.push("pidfile=\"/run/${RC_SVCNAME}.pid\""@);
    let log = script::log_file(values.service);
    let p19 = p18 + "output_log=\"${WEBCODEX_RUNNER_LOG:-"@ + log + "}\"\n"@;
    assert("}\"\n"@ =~= "}\""@ + seq!['\n']);
    lemma_append_value(p18, l18, "output_log=\"${WEBCODEX_RUNNER_LOG:-"@, log, "}\"\n"@, "}\""@);
    let l19 = l18.push("output_log=\"${WEBCODEX_RUNNER_LOG:-"@ + log + "}\""@);
    let closed = "}\""@ + seq!['\n'];
    let p20 = p19 + "error_log=\"${WEBCODEX_RUNNER_LOG:-"@ + log + closed;
    lemma_append_value(p19, l19, "error_log=\"${WEBCODEX_RUNNER_LOG:-"@, log, closed, "}\""@);
    let l20 = l19.push("error_log=\"${WEBCODEX_RUNNER_LOG:-"@ + log + "}\""@);
    let p21 = p19 + "error_log=\"${WEBCODEX_RUNNER_LOG:-"@ + log + "}\"\n\n"@;
    assert("}\"\n\n"@ =~= closed + (""@ + seq!['\n']));
    assert(p21 =~= p20 + (""@ + seq!['\n']));
    lemma_append(p20, l20, ""@ + seq!['\n'], ""@);
    let l21 = l20.push(""@);
    let p22 = p21 + ("extra_started_commands=\"reload\""@ + seq!['\n']);
    lemma_append(p21, l21, "extra_started_commands=\"reload\""@ + seq!['\n'], "extra_started_commands=\"reload\""@);
    let l22 = l21.push("extra_started_commands=\"reload\""@);
    let p23 = p22 + (""@ + seq!['\n']);
    lemma_append(p22, l22, ""@ + seq!['\n'], ""@);
    let l23 = l22.push(""@);
    let p24 = p21 + "extra_started_commands=\"reload\"\n\n"@;
    assert("extra_started_commands=\"reload\"\n\n"@ =~= ("extra_started_commands=\"reload\""@ + seq!['\n']) + (""@ + seq!['\n']));
    assert(p24 =~= p23);
    let l24 = l23;
    let p25 = p24 + ("depend() {"@ + seq!['\n']);
    lemma_append(p24, l24, "depend() {"@ + seq!['\n'], "depend() {"@);
    let l25 = l24.push("depend() {"@);
    let p26 = p25 + ("\tuse net"@ + seq!['\n']);
    lemma_append(p25, l25, "\tuse net"@ + seq!['\n'], "\tuse net"@);
    let l26 = l25.push("\tuse net"@);
    let p27 = p26 + ("\tafter net"@ + seq!['\n']);
    lemma_append(p26, l26, "\tafter net"@ + seq!['\n'], "\tafter net"@);
    let l27 = l26.push("\tafter net"@);
    let p28 = p27 + ("}"@ + seq!['\n']);
    lemma_append(p27, l27, "}"@ + seq!['\n'], "}"@);
    let l28 = l27.push("}"@);
    let p29 = p28 + (""@ + seq!['\n']);
    lemma_append(p28, l28, ""@ + seq!['\n'], ""@);
    let l29 = l28.push(""@);
    let p30 = p24 + "depend() {\n\tuse net\n\tafter net\n}\n\n"@;
    assert("depend() {\n\tuse net\n\tafter net\n}\n\n"@ =~= ("depend() {"@ + seq!['\n']) + ("\tuse net"@ + seq!['\n']) + ("\tafter net"@ + seq!['\n']) + ("}"@ + seq!['\n']) + (""@ + seq!['\n']));
    assert(p30 =~= p29);
    let l30 = l29;
    let p31 = p30 + ("reload() {"@ + seq!['\n']);
    lemma_append(p30, l30, "reload() {"@ + seq!['\n'], "reload() {"@);
    let l31 = l30.push("reload() {"@);
    let p32 = p31 + ("\tebegin \"Reloading $name\""@ + seq!['\n']);
    lemma_append(p31, l31, "\tebegin \"Reloading $name\""@ + seq!['\n'], "\tebegin \"Reloading $name\""@);
    let l32 = l31.push("\tebegin \"Reloading $name\""@);
    let p33 = p32 + ("\tstart-stop-daemon --signal HUP --pidfile \"$pidfile\""@ + seq!['\n']);
    lemma_append(p32, l32, "\tstart-stop-daemon --signal HUP --pidfile \"$pidfile\""@ + seq!['\n'], "\tstart-stop-daemon --signal HUP --pidfile \"$pidfile\""@);
    let l33 = l32.push("\tstart-stop-daemon --signal HUP --pidfile \"$pidfile\""@);
    let p34 = p33 + ("\teend $?"@ + seq!['\n']);
    lemma_append(p33, l33, "\teend $?"@ + seq!['\n'], "\teend $?"@);
    let l34 = l33.push("\teend $?"@);
    let p35 = p34 + ("}"@ + seq!['\n']);
    lemma_append(p34, l34, "}"@ + seq!['\n'], "}"@);
    let l35 = l34.push("}"@);
    let p36 = p30 + "reload() {\n\tebegin \"Reloading $name\"\n\tstart-stop-daemon --signal HUP --pidfile \"$pidfile\"\n\teend $?\n}\n"@;
    assert("reload() {\n\tebegin \"Reloading $name\"\n\tstart-stop-daemon --signal HUP --pidfile \"$pidfile\"\n\teend $?\n}\n"@ =~= ("reload() {"@ + seq!['\n']) + ("\tebegin \"Reloading $name\""@ + seq!['\n']) + ("\tstart-stop-daemon --signal HUP --pidfile \"$pidfile\""@ + seq!['\n']) + ("\teend $?"@ + seq!['\n']) + ("}"@ + seq!['\n']));
    assert(p36 =~= p35);
    let l36 = l35;
    assert(p36 == script::init_script(values));
    assert(l36 =~= opening_lines(values.root_runner) + value_lines(values) + closing_lines());
}

proof fn lemma_fixed_lines(root_runner: bool)
    ensures
        forall|i: int|
            0 <= i < opening_lines(root_runner).len() ==> is_plain_line(
                #[trigger] opening_lines(root_runner)[i],
            ),
        forall|i: int|
            0 <= i < closing_lines().len() ==> is_plain_line(#[trigger] closing_lines()[i]),
{
    reveal_strlit("#!/sbin/openrc-run");
    reveal_strlit("# WebCodex Runner service for OpenRC (supervise-daemon).");
    reveal_strlit("# Rendered by `webcodex runner install --service-manager openrc`.");
    reveal_strlit("# WARNING: --allow-root-runner was explicitly accepted; project commands run as root.");
    reveal_strlit("# Secrets stay in the Runner config named by --config; none appear here.");
    reveal_strlit("# Optional overrides belong in /etc/conf.d/$RC_SVCNAME using the");
    reveal_strlit("# WEBCODEX_RUNNER_* variables below.");
    reveal_strlit("");
    reveal_strlit("extra_started_commands=\"reload\"");
    reveal_strlit("depend() {");
    reveal_strlit("\tuse net");
    reveal_strlit("\tafter net");
    reveal_strlit("}");
    reveal_strlit("reload() {");
    reveal_strlit("\tebegin \"Reloading $name\"");
    reveal_strlit("\tstart-stop-daemon --signal HUP --pidfile \"$pidfile\"");
    reveal_strlit("\teend $?");
    assert forall|line: Seq<char>|
        (forall|j: int| 0 <= j < line.len() ==> #[trigger] line[j] != '\n' && line[j] != '\r')
            implies #[trigger] is_plain_line(line) by {
        if line.contains('\n') {
            let j = choose|j: int| 0 <= j < line.len() && line[j] == '\n';
        }
    }
    assert forall|i: int| 0 <= i < opening_lines(root_runner).len() implies is_plain_line(
        #[trigger] opening_lines(root_runner)[i],
    ) by {
        let line = opening_lines(root_runner)[i];
        assert forall|j: int| 0 <= j < line.len() implies #[trigger] line[j] != '\n' && line[j]
            != '\r' by {}
    }
    assert forall|i: int| 0 <= i < closing_lines().len() implies is_plain_line(
        #[trigger] closing_lines()[i],
    ) by {
        let line = closing_lines()[i];
        assert forall|j: int| 0 <= j < line.len() implies #[trigger] line[j] != '\n' && line[j]
            != '\r' by {}
    }
}

/// A line without a line feed in it or a carriage return at its end.
pub open spec fn is_plain_line(line: Seq<char>) -> bool {
    !line.contains('\n') && (line.len() == 0 || line.last() != '\r')
}

proof fn lemma_value_line(before: Seq<char>, value: Seq<char>, after: Seq<char>)
    requires
        forall|j: int| 0 <= j < before.len() ==> #[trigger] before[j] != '\n',
        forall|j: int| 0 <= j < after.len() ==> #[trigger] after[j] != '\n' && after[j] != '\r',
        !value.contains('\n'),
        after.len() > 0,
    ensures
        is_plain_line(before + value + after),
{
    let line = before + value + after;
    if line.contains('\n') {
        let j = choose|j: int| 0 <= j < line.len() && line[j] == '\n';
        if before.len() <= j < before.len() + value.len() {
            assert(line[j] == value[j - before.len()]);
            assert(value.contains(value[j - before.len()]));
        }
    }
    assert(line.last() == after.last());
}

proof fn lemma_value_lines(values: ScriptValues)
    requires
        are_single_lines(values),
    ensures
        forall|i: int|
            0 <= i < value_lines(values).len() ==> is_plain_line(#[trigger] value_lines(values)[i]),
{
    reveal_strlit("name=\"");
    reveal_strlit("\"");
    reveal_strlit("description=\"WebCodex Runner\"");
    reveal_strlit("");
    reveal_strlit("supervisor=\"supervise-daemon\"");
    reveal_strlit("command=\"${WEBCODEX_RUNNER_BIN:-");
    reveal_strlit("}\"");
    reveal_strlit("command_args=\"--config ${WEBCODEX_RUNNER_CONFIG:-");
    reveal_strlit("command_user=\"${WEBCODEX_RUNNER_USER:-");
    reveal_strlit("directory=\"${WEBCODEX_RUNNER_WORKING_DIRECTORY:-");
    reveal_strlit("pidfile=\"/run/${RC_SVCNAME}.pid\"");
    reveal_strlit("output_log=\"${WEBCODEX_RUNNER_LOG:-");
    reveal_strlit("error_log=\"${WEBCODEX_RUNNER_LOG:-");
    reveal_strlit("/var/log/");
    reveal_strlit(".log");
    reveal_strlit("description=\"WebCodex Runner");
    reveal_strlit("supervisor=\"supervise-daemon");
    reveal_strlit("pidfile=\"/run/${RC_SVCNAME}.pid");
    let log = "/var/log/"@ + values.service + ".log"@;
    lemma_value_line("/var/log/"@, values.service, ".log"@);
    lemma_value_line("name=\""@, values.service, "\""@);
    lemma_value_line("command=\"${WEBCODEX_RUNNER_BIN:-"@, values.command, "}\""@);
    lemma_value_line(
        "command_args=\"--config ${WEBCODEX_RUNNER_CONFIG:-"@,
        values.config,
        "}\""@,
    );
    if let Some(account) = values.account {
        lemma_value_line("command_user=\"${WEBCODEX_RUNNER_USER:-"@, account, "}\""@);
    }
    lemma_value_line(
        "directory=\"${WEBCODEX_RUNNER_WORKING_DIRECTORY:-"@,
        values.working_directory,
        "}\""@,
    );
    lemma_value_line("output_log=\"${WEBCODEX_RUNNER_LOG:-"@, log, "}\""@);
    lemma_value_line("error_log=\"${WEBCODEX_RUNNER_LOG:-"@, log, "}\""@);
    let nothing = Seq::<char>::empty();
    lemma_value_line("description=\"WebCodex Runner"@, nothing, "\""@);
    assert("description=\"WebCodex Runner"@ + nothing + "\""@ =~= "description=\"WebCodex Runner\""@);
    lemma_value_line("supervisor=\"supervise-daemon"@, nothing, "\""@);
    assert("supervisor=\"supervise-daemon"@ + nothing + "\""@
        =~= "supervisor=\"supervise-daemon\""@);
    lemma_value_line("pidfile=\"/run/${RC_SVCNAME}.pid"@, nothing, "\""@);
    assert("pidfile=\"/run/${RC_SVCNAME}.pid"@ + nothing + "\""@
        =~= "pidfile=\"/run/${RC_SVCNAME}.pid\""@);
    assert(is_plain_line(""@));
}

/// The lines of a script, from the first to the last: what it is, then its
/// values each on its own line, then its functions.
pub proof fn law_script_lines(values: ScriptValues)
    requires
        are_single_lines(values),
    ensures
        text::lines_of(script::init_script(values)) == opening_lines(values.root_runner)
            + value_lines(values) + closing_lines(),
{
    let lines = opening_lines(values.root_runner) + value_lines(values) + closing_lines();
    lemma_script_is_its_lines(values);
    lemma_fixed_lines(values.root_runner);
    lemma_value_lines(values);
    let a = opening_lines(values.root_runner).len() as int;
    let b = value_lines(values).len() as int;
    assert forall|i: int| 0 <= i < lines.len() implies !(#[trigger] lines[i]).contains('\n') && (
    lines[i].len() == 0 || lines[i].last() != '\r') by {
        if i < a {
            assert(is_plain_line(opening_lines(values.root_runner)[i]));
        } else if i < a + b {
            assert(is_plain_line(value_lines(values)[i - a]));
        } else {
            assert(is_plain_line(closing_lines()[i - a - b]));
        }
    }
    lemma_lines_of_text(lines);
}

/// Among the lines of every rendered script are those that hold the options'
/// values: exactly the text of the command's path, of the config's path and of
/// the directory's path, the account where one is given, and the service's name
/// and log file.
pub proof fn law_rendered_scripts_hold_the_options(
    opts: RunnerInstallServiceOptions,
    service_file: Seq<u8>,
    command: Seq<char>,
    config: Seq<char>,
    directory: Seq<char>,
)
    requires
        script::render_fault(opts, service_file) is None,
        opts.bin.bytes@ == utf8::encode_utf8(command),
        opts.config.bytes@ == utf8::encode_utf8(config),
        opts.working_directory.bytes@ == utf8::encode_utf8(directory),
    ensures
        ({
            let service = script::service_name(service_file);
            let lines = text::lines_of(
                script::init_script(script::script_values(opts, service_file)),
            );
            &&& lines[0] == "#!/sbin/openrc-run"@
            &&& lines.contains("name=\""@ + service + "\""@)
            &&& lines.contains("supervisor=\"supervise-daemon\""@)
            &&& lines.contains("command=\"${WEBCODEX_RUNNER_BIN:-"@ + command + "}\""@)
            &&& lines.contains(
                "command_args=\"--config ${WEBCODEX_RUNNER_CONFIG:-"@ + config + "}\""@,
            )
            &&& lines.contains(
                "directory=\"${WEBCODEX_RUNNER_WORKING_DIRECTORY:-"@ + directory + "}\""@,
            )
            &&& lines.contains(
                "output_log=\"${WEBCODEX_RUNNER_LOG:-"@ + ("/var/log/"@ + service + ".log"@)
                    + "}\""@,
            )
            &&& lines.contains(
                "error_log=\"${WEBCODEX_RUNNER_LOG:-"@ + ("/var/log/"@ + service + ".log"@)
                    + "}\""@,
            )
            &&& opts.user matches Some(user) ==> opts.group is None ==> lines.contains(
                "command_user=\"${WEBCODEX_RUNNER_USER:-"@ + user@ + "}\""@,
            )
            &&& opts.user matches Some(user) ==> (opts.group matches Some(group)
                ==> lines.contains(
                "command_user=\"${WEBCODEX_RUNNER_USER:-"@ + (user@ + ":"@ + group@) + "}\""@,
            ))
            &&& opts.root_runner ==> lines[3]
                == "# WARNING: --allow-root-runner was explicitly accepted; project commands run as root."@
        }),
{
    let values = script::script_values(opts, service_file);
    utf8::encode_utf8_decode_utf8(command);
    utf8::encode_utf8_decode_utf8(config);
    utf8::encode_utf8_decode_utf8(directory);
    lemma_rendered_values_are_single_lines(opts, service_file);
    law_script_lines(values);
    let lines = text::lines_of(script::init_script(values));
    let a = opening_lines(values.root_runner).len() as int;
    let v = value_lines(values);
    assert forall|i: int| 0 <= i < v.len() implies lines.contains(#[trigger] v[i]) by {
        assert(lines[a + i] == v[i]);
    }
    assert(lines[0] == opening_lines(values.root_runner)[0]);
    assert(lines[3] == opening_lines(values.root_runner)[3]);
    let c: int = if values.account is Some {
        7
    } else {
        6
    };
    assert(v[0] == "name=\""@ + values.service + "\""@);
    assert(v[3] == "supervisor=\"supervise-daemon\""@);
    assert(v[4] == "command=\"${WEBCODEX_RUNNER_BIN:-"@ + command + "}\""@);
    assert(v[5] == "command_args=\"--config ${WEBCODEX_RUNNER_CONFIG:-"@ + config + "}\""@);
    assert(v[c] == "directory=\"${WEBCODEX_RUNNER_WORKING_DIRECTORY:-"@ + directory + "}\""@);
    let log = "/var/log/"@ + values.service + ".log"@;
    assert(v[c + 2] == "output_log=\"${WEBCODEX_RUNNER_LOG:-"@ + log + "}\""@);
    assert(v[c + 3] == "error_log=\"${WEBCODEX_RUNNER_LOG:-"@ + log + "}\""@);
    if let Some(account) = values.account {
        assert(v[6] == "command_user=\"${WEBCODEX_RUNNER_USER:-"@ + account + "}\""@);
    }
}

proof fn lemma_safe_is_single_line(value: Seq<char>)
    requires
        script::is_shell_safe(value),
    ensures
        !value.contains('\n'),
{
    if value.contains('\n') {
        let i = choose|i: int| 0 <= i < value.len() && value[i] == '\n';
        assert(!script::is_unsafe_in_script(value[i]));
    }
}

proof fn lemma_rendered_values_are_single_lines(
    opts: RunnerInstallServiceOptions,
    service_file: Seq<u8>,
)
    requires
        script::render_fault(opts, service_file) is None,
    ensures
        are_single_lines(script::script_values(opts, service_file)),
{
    let values = script::script_values(opts, service_file);
    script::law_rendered_values_are_safe(opts, service_file);
    lemma_safe_is_single_line(values.service);
    lemma_safe_is_single_line(values.command);
    lemma_safe_is_single_line(values.config);
    lemma_safe_is_single_line(values.working_directory);
    if let Some(account) = values.account {
        lemma_safe_is_single_line(account);
    }
}

proof fn lemma_same_value(before: Seq<char>, a: Seq<char>, b: Seq<char>, after: Seq<char>)
    requires
        before + a + after == before + b + after,
    ensures
        a == b,
{
    let x = before + a + after;
    let y = before + b + after;
    assert(x.len() == before.len() + a.len() + after.len());
    assert(y.len() == before.len() + b.len() + after.len());
    let n = before.len() as int;
    assert(x.subrange(n, n + a.len()) =~= a);
    assert(y.subrange(n, n + b.len()) =~= b);
}

/// Scripts tell their values apart: the same script has the same service, the
/// same command, config, account and directory, and runs as root or does not.
pub proof fn law_scripts_tell_their_values(one: ScriptValues, other: ScriptValues)
    requires
        are_single_lines(one),
        are_single_lines(other),
        script::init_script(one) == script::init_script(other),
    ensures
        one.root_runner == other.root_runner,
        one.service == other.service,
        one.command == other.command,
        one.config == other.config,
        one.working_directory == other.working_directory,
        one.account == other.account,
{
    law_script_lines(one);
    law_script_lines(other);
    let lines = text::lines_of(script::init_script(one));
    let x = value_lines(one);
    let y = value_lines(other);
    reveal_strlit(
        "# WARNING: --allow-root-runner was explicitly accepted; project commands run as root.",
    );
    reveal_strlit("# Secrets stay in the Runner config named by --config; none appear here.");
    assert(lines[3] == opening_lines(one.root_runner)[3]);
    assert(lines[3] == opening_lines(other.root_runner)[3]);
    assert("# WARNING: --allow-root-runner was explicitly accepted; project commands run as root."@[2]
        != "# Secrets stay in the Runner config named by --config; none appear here."@[2]);
    let a = opening_lines(one.root_runner).len() as int;
    assert forall|i: int| 0 <= i < x.len() implies #[trigger] x[i] == lines[a + i] by {}
    assert forall|i: int| 0 <= i < y.len() implies #[trigger] y[i] == lines[a + i] by {}
    assert(x[0] == y[0]);
    lemma_same_value("name=\""@, one.service, other.service, "\""@);
    assert(x[4] == y[4]);
    lemma_same_value(
        "command=\"${WEBCODEX_RUNNER_BIN:-"@,
        one.command,
        other.command,
        "}\""@,
    );
    assert(x[5] == y[5]);
    lemma_same_value(
        "command_args=\"--config ${WEBCODEX_RUNNER_CONFIG:-"@,
        one.config,
        other.config,
        "}\""@,
    );
    assert(x[6] == y[6]);
    reveal_strlit("command_user=\"${WEBCODEX_RUNNER_USER:-");
    reveal_strlit("directory=\"${WEBCODEX_RUNNER_WORKING_DIRECTORY:-");
    match (one.account, other.account) {
        (Some(first), Some(second)) => {
            lemma_same_value("command_user=\"${WEBCODEX_RUNNER_USER:-"@, first, second, "}\""@);
            assert(x[7] == y[7]);
        },
        (Some(_), None) => {
            assert(x[6][0] == 'c');
            assert(y[6][0] == 'd');
        },
        (None, Some(_)) => {
            assert(x[6][0] == 'd');
            assert(y[6][0] == 'c');
        },
        (None, None) => {},
    }
    lemma_same_value(
        "directory=\"${WEBCODEX_RUNNER_WORKING_DIRECTORY:-"@,
        one.working_directory,
        other.working_directory,
        "}\""@,
    );
}

/// Options that differ in the path of the config, of the command or of the
/// working directory render different scripts.
pub proof fn law_different_options_render_different_scripts(
    one: RunnerInstallServiceOptions,
    other: RunnerInstallServiceOptions,
    service_file: Seq<u8>,
)
    requires
        script::render_fault(one, service_file) is None,
        script::render_fault(other, service_file) is None,
        one.config.bytes@ != other.config.bytes@ || one.bin.bytes@ != other.bin.bytes@
            || one.working_directory.bytes@ != other.working_directory.bytes@,
    ensures
        script::init_script(script::script_values(one, service_file)) != script::init_script(
            script::script_values(other, service_file),
        ),
{
    let a = script::script_values(one, service_file);
    let b = script::script_values(other, service_file);
    lemma_rendered_values_are_single_lines(one, service_file);
    lemma_rendered_values_are_single_lines(other, service_file);
    utf8::decode_utf8_encode_utf8(one.config@);
    utf8::decode_utf8_encode_utf8(other.config@);
    utf8::decode_utf8_encode_utf8(one.bin@);
    utf8::decode_utf8_encode_utf8(other.bin@);
    utf8::decode_utf8_encode_utf8(one.working_directory@);
    utf8::decode_utf8_encode_utf8(other.working_directory@);
    if script::init_script(a) == script::init_script(b) {
        law_scripts_tell_their_values(a, b);
    }
}

}
