//! The `openrc-run` script of the Runner service.

use vstd::prelude::*;
use vstd::utf8;

use crate::chars;
use crate::chars::{char_is_ascii_alphanumeric, char_is_control, char_is_white_space};
use crate::openrc::manager::ServiceManagerSelection;
use crate::path;
use crate::path::FsPath;
use crate::text;
use crate::text::{chars_of, trim};

verus! {

/// The name of the service where its init script gives none.
pub const RUNNER_OPENRC_SERVICE: &'static str = "webcodex-runner";

/// Where the init script stands unless another place is asked for.
pub const OPENRC_RUNNER_INIT_FILE: &'static str = "/etc/init.d/webcodex-runner";

/// Where OpenRC looks for init scripts.
pub const OPENRC_INIT_DIR: &'static str = "/etc/init.d";

/// Whose service the Runner is.
#[derive(Debug, Clone, Copy, PartialEq, Eq, Structural)]
pub enum ServiceScope {
    System,
    User,
}

/// How the Runner service is to be installed.
#[derive(Debug, Clone, PartialEq, Eq)]
pub struct RunnerInstallServiceOptions {
    pub scope: ServiceScope,
    pub service_manager: ServiceManagerSelection,
    pub config: FsPath,
    pub bin: FsPath,
    pub service_file: FsPath,
    pub service_file_explicit: bool,
    pub user: Option<String>,
    pub group: Option<String>,
    pub working_directory: FsPath,
    /// Whether the service would run as root.
    pub root_runner: bool,
    /// Whether running as root was explicitly accepted.
    pub allow_root_runner: bool,
    pub overwrite: bool,
    pub dry_run: bool,
    pub output_stdout: bool,
    pub no_start: bool,
    pub json: bool,
}

pub fn default_openrc_init_file() -> (result: FsPath)
    ensures
        result@ == utf8::encode_utf8(OPENRC_RUNNER_INIT_FILE@),
{
    FsPath::new(OPENRC_RUNNER_INIT_FILE)
}

// The service's name and log file.

/// The name of the service whose init script stands at `service_file`: the
/// file's name, or the Runner's where that is blank or no text.
pub open spec fn service_name(service_file: Seq<u8>) -> Seq<char> {
    match path::file_name(service_file) {
        Some(name) => match path::utf8_text(name) {
            Some(text) => if text::trimmed(text).len() > 0 {
                text
            } else {
                RUNNER_OPENRC_SERVICE@
            },
            None => RUNNER_OPENRC_SERVICE@,
        },
        None => RUNNER_OPENRC_SERVICE@,
    }
}

pub fn openrc_service_name(service_file: &FsPath) -> (result: String)
    ensures
        result@ == service_name(service_file@),
{
    match service_file.file_name() {
        Some(name) => match name.to_str() {
            Some(text) => {
                if trim(text).as_str().is_empty() {
                    RUNNER_OPENRC_SERVICE.to_owned()
                } else {
                    text.to_owned()
                }
            },
            None => RUNNER_OPENRC_SERVICE.to_owned(),
        },
        None => RUNNER_OPENRC_SERVICE.to_owned(),
    }
}

/// The path of the file that supervise-daemon writes the service's log to.
pub open spec fn log_file(service: Seq<char>) -> Seq<char> {
    "/var/log/"@ + service + ".log"@
}

fn log_file_text(service: &str) -> (result: String)
    ensures
        result@ == log_file(service@),
{
    let mut text = "/var/log/".to_owned();
    text.append(service);
    text.append(".log");
    text
}

pub fn openrc_log_file(service: &str) -> (result: FsPath)
    ensures
        result@ == utf8::encode_utf8(log_file(service@)),
{
    FsPath::new(log_file_text(service).as_str())
}

// Which values may stand in the script.

pub open spec fn is_identity_char(c: char) -> bool {
    chars::is_ascii_alphanumeric(c) || c == '_' || c == '-' || c == '.'
}

/// A service, user or group name: ASCII letters, digits, `_`, `-` and `.`.
pub open spec fn is_identity(value: Seq<char>) -> bool {
    &&& value.len() > 0
    &&& forall|i: int| 0 <= i < value.len() ==> is_identity_char(#[trigger] value[i])
}

/// A character that could end the double-quoted string, or the default value
/// of `${VAR:-default}` in it, in which a value stands, or be expanded there.
pub open spec fn is_unsafe_in_script(c: char) -> bool {
    chars::is_control_char(c) || c == '"' || c == '\\' || c == '$' || c == '`' || c == '}'
}

/// A value that the shell reads back as it is from the script.
pub open spec fn is_shell_safe(value: Seq<char>) -> bool {
    &&& value.len() > 0
    &&& forall|i: int| 0 <= i < value.len() ==> !is_unsafe_in_script(#[trigger] value[i])
}

/// No white space, at which the shell would split the value into words.
pub open spec fn is_one_word(value: Seq<char>) -> bool {
    forall|i: int| 0 <= i < value.len() ==> !chars::is_white_space(#[trigger] value[i])
}

pub open spec fn invalid(field: Seq<char>, why: Seq<char>) -> Seq<char> {
    "invalid OpenRC "@ + field + " value: "@ + why
}

/// What is wrong with a name, if anything is.
pub open spec fn identity_fault(field: Seq<char>, value: Seq<char>) -> Option<Seq<char>> {
    if value.len() == 0 {
        Some(invalid(field, "cannot be empty"@))
    } else if !is_identity(value) {
        Some(invalid(field, "use only ASCII letters, digits, '_', '-' or '.'"@))
    } else {
        None
    }
}

/// What is wrong with a value of the script, if anything is.
pub open spec fn shell_fault(field: Seq<char>, value: Seq<char>) -> Option<Seq<char>> {
    if value.len() == 0 {
        Some(invalid(field, "cannot be empty"@))
    } else if !is_shell_safe(value) {
        Some(invalid(field, "contains a character that is unsafe in an init script"@))
    } else {
        None
    }
}

/// What is wrong with a path of the script, if anything is.
pub open spec fn path_fault(field: Seq<char>, value: Seq<u8>) -> Option<Seq<char>> {
    if !path::is_absolute(value) {
        Some(invalid(field, "path must be absolute"@))
    } else {
        match path::utf8_text(value) {
            Some(text) => shell_fault(field, text),
            None => Some(invalid(field, "path is not valid UTF-8"@)),
        }
    }
}

/// What is wrong with a path of the service's command line, if anything is.
pub open spec fn command_fault(field: Seq<char>, value: Seq<u8>) -> Option<Seq<char>> {
    match path_fault(field, value) {
        Some(fault) => Some(fault),
        None => if !is_one_word(utf8::decode_utf8(value)) {
            Some(invalid(field, "whitespace is not supported in this path"@))
        } else {
            None
        },
    }
}

fn invalid_value(field: &str, why: &str) -> (result: String)
    ensures
        result@ == invalid(field@, why@),
{
    let mut message = "invalid OpenRC ".to_owned();
    message.append(field);
    message.append(" value: ");
    message.append(why);
    message
}

pub fn validate_openrc_identity(field: &str, value: &str) -> (result: Result<(), String>)
    ensures
        match identity_fault(field@, value@) {
            Some(fault) => result matches Err(error) && error@ == fault,
            None => result is Ok,
        },
{
    if value.is_empty() {
        return Err(invalid_value(field, "cannot be empty"));
    }
    let all = chars_of(value);
    let mut i: usize = 0;
    while i < all.len()
        invariant
            i <= all.len(),
            all@ == value@,
            value@.len() > 0,
            forall|j: int| 0 <= j < i ==> is_identity_char(#[trigger] value@[j]),
        decreases all.len() - i,
    {
        let c = all[i];
        if !(char_is_ascii_alphanumeric(c) || c == '_' || c == '-' || c == '.') {
            assert(!is_identity_char(value@[i as int]));
            return Err(invalid_value(field, "use only ASCII letters, digits, '_', '-' or '.'"));
        }
        i = i + 1;
    }
    Ok(())
}

/// The value itself, where it may stand in a double-quoted string of the
/// script, also as the default value of `${VAR:-default}`.
pub fn openrc_shell_value<'a>(field: &str, value: &'a str) -> (result: Result<&'a str, String>)
    ensures
        match shell_fault(field@, value@) {
            Some(fault) => result matches Err(error) && error@ == fault,
            None => result matches Ok(same) && same@ == value@,
        },
{
    if value.is_empty() {
        return Err(invalid_value(field, "cannot be empty"));
    }
    let all = chars_of(value);
    let mut i: usize = 0;
    while i < all.len()
        invariant
            i <= all.len(),
            all@ == value@,
            value@.len() > 0,
            forall|j: int| 0 <= j < i ==> !is_unsafe_in_script(#[trigger] value@[j]),
        decreases all.len() - i,
    {
        let c = all[i];
        if char_is_control(c) || c == '"' || c == '\\' || c == '$' || c == '`' || c == '}' {
            assert(is_unsafe_in_script(value@[i as int]));
            return Err(
                invalid_value(field, "contains a character that is unsafe in an init script"),
            );
        }
        i = i + 1;
    }
    Ok(value)
}

/// The text of an absolute path that may stand in the script.
pub fn openrc_shell_path<'a>(field: &str, path: &'a FsPath) -> (result: Result<&'a str, String>)
    ensures
        match path_fault(field@, path@) {
            Some(fault) => result matches Err(error) && error@ == fault,
            None => result matches Ok(text) && path::utf8_text(path@) == Some(text@),
        },
{
    if !path.is_absolute() {
        return Err(invalid_value(field, "path must be absolute"));
    }
    match path.to_str() {
        Some(text) => openrc_shell_value(field, text),
        None => Err(invalid_value(field, "path is not valid UTF-8")),
    }
}

/// The text of a path of the service's command line, which openrc-run splits
/// at white space.
pub fn openrc_command_path<'a>(field: &str, path: &'a FsPath) -> (result: Result<&'a str, String>)
    ensures
        match command_fault(field@, path@) {
            Some(fault) => result matches Err(error) && error@ == fault,
            None => result matches Ok(text) && path::utf8_text(path@) == Some(text@),
        },
{
    let value = match openrc_shell_path(field, path) {
        Ok(value) => value,
        Err(error) => return Err(error),
    };
    let all = chars_of(value);
    let mut i: usize = 0;
    while i < all.len()
        invariant
            i <= all.len(),
            all@ == value@,
            path_fault(field@, path@) is None,
            path::utf8_text(path@) == Some(value@),
            forall|j: int| 0 <= j < i ==> !chars::is_white_space(#[trigger] value@[j]),
        decreases all.len() - i,
    {
        if char_is_white_space(all[i]) {
            assert(chars::is_white_space(value@[i as int]));
            return Err(invalid_value(field, "whitespace is not supported in this path"));
        }
        i = i + 1;
    }
    Ok(value)
}

// The script.

/// The first of two faults, where there is one.
pub open spec fn either_fault(
    first: Option<Seq<char>>,
    second: Option<Seq<char>>,
) -> Option<Seq<char>> {
    match first {
        Some(fault) => Some(fault),
        None => second,
    }
}

/// What is wrong with the account that the service is to run under.
pub open spec fn account_fault(
    user: Option<Seq<char>>,
    group: Option<Seq<char>>,
) -> Option<Seq<char>> {
    match user {
        Some(user) => either_fault(
            identity_fault("user"@, user),
            match group {
                Some(group) => identity_fault("group"@, group),
                None => None,
            },
        ),
        None => match group {
            Some(_) => Some("--group requires --user for an OpenRC service"@),
            None => None,
        },
    }
}

/// The account that the service runs under: a user, or a user and a group.
pub open spec fn account(user: Option<Seq<char>>, group: Option<Seq<char>>) -> Option<Seq<char>> {
    match user {
        Some(user) => match group {
            Some(group) => Some(user + ":"@ + group),
            None => Some(user),
        },
        None => None,
    }
}

/// What is wrong with the options, if anything is: OpenRC has no user scope,
/// a Runner does not run as root unasked, and every value must be fit for the
/// script.
pub open spec fn render_fault(
    opts: RunnerInstallServiceOptions,
    service_file: Seq<u8>,
) -> Option<Seq<char>> {
    if opts.scope != ServiceScope::System {
        Some("OpenRC supports only --scope system; rerun as root or pass --scope system"@)
    } else if opts.root_runner && !opts.allow_root_runner {
        Some("refusing to render a Runner that would run as root without --allow-root-runner"@)
    } else {
        either_fault(
            identity_fault("service name"@, service_name(service_file)),
            either_fault(
                command_fault("command"@, opts.bin@),
                either_fault(
                    command_fault("--config"@, opts.config@),
                    either_fault(
                        path_fault("working directory"@, opts.working_directory@),
                        account_fault(text::text_of(opts.user), text::text_of(opts.group)),
                    ),
                ),
            ),
        )
    }
}

/// What the script tells of the Runner.
pub struct ScriptValues {
    pub service: Seq<char>,
    pub command: Seq<char>,
    pub config: Seq<char>,
    pub account: Option<Seq<char>>,
    pub working_directory: Seq<char>,
    pub root_runner: bool,
}

/// The values that the options give the script.
pub open spec fn script_values(
    opts: RunnerInstallServiceOptions,
    service_file: Seq<u8>,
) -> ScriptValues {
    ScriptValues {
        service: service_name(service_file),
        command: utf8::decode_utf8(opts.bin@),
        config: utf8::decode_utf8(opts.config@),
        account: account(text::text_of(opts.user), text::text_of(opts.group)),
        working_directory: utf8::decode_utf8(opts.working_directory@),
        root_runner: opts.root_runner,
    }
}

/// The line that marks the script of a Runner that runs as root.
pub open spec fn root_note(root_runner: bool) -> Seq<char> {
    if root_runner {
        "# WARNING: --allow-root-runner was explicitly accepted; project commands run as root.\n"@
    } else {
        ""@
    }
}

/// The line that names the account, where there is one.
pub open spec fn account_line(account: Option<Seq<char>>) -> Seq<char> {
    match account {
        Some(account) => "command_user=\"${WEBCODEX_RUNNER_USER:-"@ + account + "}\"\n"@,
        None => ""@,
    }
}

/// The `openrc-run` script with these values. `/etc/conf.d/<service>` may
/// override those that stand as defaults of `WEBCODEX_RUNNER_*` variables.
pub open spec fn init_script(values: ScriptValues) -> Seq<char> {
    "#!/sbin/openrc-run\n"@
        + "# WebCodex Runner service for OpenRC (supervise-daemon).\n"@
        + "# Rendered by `webcodex runner install --service-manager openrc`.\n"@
        + root_note(values.root_runner)
        + "# Secrets stay in the Runner config named by --config; none appear here.\n"@
        + "# Optional overrides belong in /etc/conf.d/$RC_SVCNAME using the\n"@
        + "# WEBCODEX_RUNNER_* variables below.\n\n"@
        + "name=\""@ + values.service + "\"\n"@
        + "description=\"WebCodex Runner\"\n\n"@
        + "supervisor=\"supervise-daemon\"\n"@
        + "command=\"${WEBCODEX_RUNNER_BIN:-"@ + values.command + "}\"\n"@
        + "command_args=\"--config ${WEBCODEX_RUNNER_CONFIG:-"@ + values.config + "}\"\n"@
        + account_line(values.account)
        + "directory=\"${WEBCODEX_RUNNER_WORKING_DIRECTORY:-"@ + values.working_directory + "}\"\n"@
        + "pidfile=\"/run/${RC_SVCNAME}.pid\"\n"@
        + "output_log=\"${WEBCODEX_RUNNER_LOG:-"@ + log_file(values.service) + "}\"\n"@
        + "error_log=\"${WEBCODEX_RUNNER_LOG:-"@ + log_file(values.service) + "}\"\n\n"@
        + "extra_started_commands=\"reload\"\n\n"@
        + "depend() {\n\tuse net\n\tafter net\n}\n\n"@
        + "reload() {\n\tebegin \"Reloading $name\"\n\tstart-stop-daemon --signal HUP --pidfile \"$pidfile\"\n\teend $?\n}\n"@
}

/// The account that the service runs under, or what is wrong with it.
fn command_account(user: &Option<String>, group: &Option<String>) -> (result: Result<
    Option<String>,
    String,
>)
    ensures
        match account_fault(text::text_of(*user), text::text_of(*group)) {
            Some(fault) => result matches Err(error) && error@ == fault,
            None => result matches Ok(named) && text::text_of(named) == account(
                text::text_of(*user),
                text::text_of(*group),
            ),
        },
{
    match user {
        Some(user) => {
            match validate_openrc_identity("user", user.as_str()) {
                Ok(_) => {},
                Err(error) => return Err(error),
            }
            match group {
                Some(group) => {
                    match validate_openrc_identity("group", group.as_str()) {
                        Ok(_) => {},
                        Err(error) => return Err(error),
                    }
                    let mut named = user.clone();
                    named.append(":");
                    named.append(group.as_str());
                    Ok(Some(named))
                },
                None => Ok(Some(user.clone())),
            }
        },
        None => match group {
            Some(_) => Err("--group requires --user for an OpenRC service".to_owned()),
            None => Ok(None),
        },
    }
}

fn command_user_line(account: &Option<String>) -> (result: String)
    ensures
        result@ == account_line(text::text_of(*account)),
{
    match account {
        Some(account) => {
            let mut line = "command_user=\"${WEBCODEX_RUNNER_USER:-".to_owned();
            line.append(account.as_str());
            line.append("}\"\n");
            line
        },
        None => "".to_owned(),
    }
}

/// Renders the `/etc/init.d/<service>` script. It names the Runner's config
/// and holds nothing of what is in it.
pub fn render_runner_openrc_init(
    opts: &RunnerInstallServiceOptions,
    service_file: &FsPath,
) -> (result: Result<String, String>)
    ensures
        match render_fault(*opts, service_file@) {
            Some(fault) => result matches Err(error) && error@ == fault,
            None => result matches Ok(script) && script@ == init_script(
                script_values(*opts, service_file@),
            ),
        },
{
    if opts.scope != ServiceScope::System {
        return Err(
            "OpenRC supports only --scope system; rerun as root or pass --scope system".to_owned(),
        );
    }
    if opts.root_runner && !opts.allow_root_runner {
        return Err(
            "refusing to render a Runner that would run as root without --allow-root-runner".to_owned(),
        );
    }
    let service = openrc_service_name(service_file);
    match validate_openrc_identity("service name", service.as_str()) {
        Ok(_) => {},
        Err(error) => return Err(error),
    }
    let command = match openrc_command_path("command", &opts.bin) {
        Ok(command) => command,
        Err(error) => return Err(error),
    };
    let config = match openrc_command_path("--config", &opts.config) {
        Ok(config) => config,
        Err(error) => return Err(error),
    };
    let working_directory = match openrc_shell_path("working directory", &opts.working_directory) {
        Ok(directory) => directory,
        Err(error) => return Err(error),
    };
    let log_file = log_file_text(service.as_str());
    let account = match command_account(&opts.user, &opts.group) {
        Ok(account) => account,
        Err(error) => return Err(error),
    };

    let mut script = "#!/sbin/openrc-run\n".to_owned();
    script.append("# WebCodex Runner service for OpenRC (supervise-daemon).\n");
    script.append("# Rendered by `webcodex runner install --service-manager openrc`.\n");
    script.append(
        if opts.root_runner {
            "# WARNING: --allow-root-runner was explicitly accepted; project commands run as root.\n"
        } else {
            ""
        },
    );
    script.append("# Secrets stay in the Runner config named by --config; none appear here.\n");
    script.append("# Optional overrides belong in /etc/conf.d/$RC_SVCNAME using the\n");
    script.append("# WEBCODEX_RUNNER_* variables below.\n\n");
    script.append("name=\"");
    script.append(service.as_str());
    script.append("\"\n");
    script.append("description=\"WebCodex Runner\"\n\n");
    script.append("supervisor=\"supervise-daemon\"\n");
    script.append("command=\"${WEBCODEX_RUNNER_BIN:-");
    script.append(command);
    script.append("}\"\n");
    script.append("command_args=\"--config ${WEBCODEX_RUNNER_CONFIG:-");
    script.append(config);
    script.append("}\"\n");
    script.append(command_user_line(&account).as_str());
    script.append("directory=\"${WEBCODEX_RUNNER_WORKING_DIRECTORY:-");
    script.append(working_directory);
    script.append("}\"\n");
    script.append("pidfile=\"/run/${RC_SVCNAME}.pid\"\n");
    script.append("output_log=\"${WEBCODEX_RUNNER_LOG:-");
    script.append(log_file.as_str());
    script.append("}\"\n");
    script.append("error_log=\"${WEBCODEX_RUNNER_LOG:-");
    script.append(log_file.as_str());
    script.append("}\"\n\n");
    script.append("extra_started_commands=\"reload\"\n\n");
    script.append("depend() {\n\tuse net\n\tafter net\n}\n\n");
    script.append(
        "reload() {\n\tebegin \"Reloading $name\"\n\tstart-stop-daemon --signal HUP --pidfile \"$pidfile\"\n\teend $?\n}\n",
    );
    Ok(script)
}

// What holds of every script.

/// Every value of a rendered script reads back as it is from the
/// double-quoted string in which it stands, and those of the command line are
/// one word each.
pub proof fn law_rendered_values_are_safe(
    opts: RunnerInstallServiceOptions,
    service_file: Seq<u8>,
)
    requires
        render_fault(opts, service_file) is None,
    ensures
        ({
            let values = script_values(opts, service_file);
            &&& is_shell_safe(values.service)
            &&& is_shell_safe(values.command) && is_one_word(values.command)
            &&& is_shell_safe(values.config) && is_one_word(values.config)
            &&& is_shell_safe(values.working_directory)
            &&& is_shell_safe(log_file(values.service))
            &&& values.account matches Some(account) ==> is_shell_safe(account)
        }),
{
    let values = script_values(opts, service_file);
    assert(is_identity(values.service));
    reveal_strlit("/var/log/");
    reveal_strlit(".log");
    reveal_strlit(":");
    let log = log_file(values.service);
    assert forall|i: int| 0 <= i < log.len() implies !is_unsafe_in_script(#[trigger] log[i]) by {
        if 9 <= i < 9 + values.service.len() {
            assert(log[i] == values.service[i - 9]);
        }
    }
    if let Some(named) = values.account {
        let user = opts.user->0@;
        assert(is_identity(user));
        if opts.group is Some {
            let group = opts.group->0@;
            assert(is_identity(group));
            assert forall|i: int| 0 <= i < named.len() implies !is_unsafe_in_script(
                #[trigger] named[i],
            ) by {
                if i < user.len() {
                    assert(named[i] == user[i]);
                } else if i > user.len() {
                    assert(named[i] == group[i - user.len() - 1]);
                }
            }
        }
    }
}

/// A script is rendered for the system scope only, and for a Runner that runs
/// as root only where that was accepted.
pub proof fn law_rendered_runner_was_asked_for(
    opts: RunnerInstallServiceOptions,
    service_file: Seq<u8>,
)
    requires
        render_fault(opts, service_file) is None,
    ensures
        opts.scope == ServiceScope::System,
        opts.root_runner ==> opts.allow_root_runner,
        opts.group is Some ==> opts.user is Some,
{
}

/// A rendered script is one for `openrc-run`.
pub proof fn law_script_starts_with_its_interpreter(values: ScriptValues)
    ensures
        "#!/sbin/openrc-run\n"@.is_prefix_of(init_script(values)),
{
    let first = "#!/sbin/openrc-run\n"@;
    assert(init_script(values).take(first.len() as int) =~= first);
}

/// A service whose init script stands under its name in the directory of init
/// scripts is known by that name.
pub proof fn law_service_is_named_by_its_script(name: Seq<char>)
    requires
        is_identity(name),
        name != "."@,
        name != ".."@,
    ensures
        ({
            let script = path::joined_path(
                utf8::encode_utf8(OPENRC_INIT_DIR@),
                utf8::encode_utf8(name),
            );
            &&& path::stands_in(script, utf8::encode_utf8(OPENRC_INIT_DIR@))
            &&& service_name(script) == name
        }),
{
    let dir = utf8::encode_utf8(OPENRC_INIT_DIR@);
    let own = utf8::encode_utf8(name);
    let script = path::joined_path(dir, own);
    reveal_strlit("/etc/init.d");
    reveal_strlit(".");
    reveal_strlit("..");
    assert(utf8::is_ascii_chars(OPENRC_INIT_DIR@));
    utf8::is_ascii_chars_encode_utf8(OPENRC_INIT_DIR@);
    assert(utf8::is_ascii_chars(name));
    utf8::is_ascii_chars_encode_utf8(name);
    path::law_new_path_text(name);
    assert forall|j: int| 0 <= j < own.len() implies own[j] != path::SEPARATOR by {
        assert(is_identity_char(name[j]));
    }
    assert(!path::is_absolute(own));
    assert(script =~= dir.push(path::SEPARATOR) + own);

    // Below, the components of the directory and of the script in turn.
    let etc = seq![101u8, 116u8, 99u8];
    let init_d = seq![105u8, 110u8, 105u8, 116u8, 46u8, 100u8];
    path::lemma_first_component(dir, 0);
    assert(dir.skip(1).take(3) =~= etc);
    path::lemma_first_component(dir.skip(1), 3);
    assert(dir.skip(1).skip(4) =~= init_d);
    assert(init_d.take(6) =~= init_d);
    path::lemma_first_component(init_d, 6);
    assert(path::components(dir) =~= seq![etc, init_d]);

    path::lemma_first_component(script, 0);
    assert(script.skip(1).take(3) =~= etc);
    path::lemma_first_component(script.skip(1), 3);
    let last = script.skip(1).skip(4);
    assert(last =~= init_d.push(path::SEPARATOR) + own);
    assert(last.take(6) =~= init_d);
    path::lemma_first_component(last, 6);
    assert(last.skip(7) =~= own);
    assert(own.take(own.len() as int) =~= own);
    path::lemma_first_component(own, own.len() as int);
    if own == seq![path::DOT] {
        assert(name =~= "."@);
    }
    if own == seq![path::DOT, path::DOT] {
        assert(name =~= ".."@);
    }
    assert(path::components(script) =~= seq![etc, init_d, own]);
    assert(path::components(script).drop_last() =~= path::components(dir));
    lemma_identity_is_not_blank(name);
}

/// A name is not blank.
proof fn lemma_identity_is_not_blank(name: Seq<char>)
    requires
        is_identity(name),
    ensures
        text::trimmed(name).len() > 0,
{
    assert(is_identity_char(name[0]));
    chars::lemma_prefix_len_is(name, chars::white_space(), 0);
    assert(name.skip(0) =~= name);
    assert(is_identity_char(name.last()));
    chars::lemma_suffix_len_is(name, chars::white_space(), 0);
}

}
