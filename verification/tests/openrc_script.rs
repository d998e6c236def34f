use webcodex::openrc::manager::ServiceManagerSelection;
use webcodex::openrc::script::{
    default_openrc_init_file, openrc_command_path, openrc_log_file, openrc_service_name,
    openrc_shell_path, openrc_shell_value, render_runner_openrc_init, validate_openrc_identity,
    RunnerInstallServiceOptions, ServiceScope, OPENRC_RUNNER_INIT_FILE, RUNNER_OPENRC_SERVICE,
};
use webcodex::path::FsPath;

fn install_opts() -> RunnerInstallServiceOptions {
    RunnerInstallServiceOptions {
        scope: ServiceScope::System,
        service_manager: ServiceManagerSelection::Auto,
        config: FsPath::new("/etc/webcodex/runner.toml"),
        bin: FsPath::new("/usr/local/bin/webcodex-runner"),
        service_file: FsPath::new(OPENRC_RUNNER_INIT_FILE),
        service_file_explicit: false,
        user: Some("webcodex".to_string()),
        group: Some("webcodex".to_string()),
        working_directory: FsPath::new("/home/webcodex"),
        root_runner: false,
        allow_root_runner: false,
        overwrite: false,
        dry_run: false,
        output_stdout: false,
        no_start: false,
        json: false,
    }
}

fn render(opts: &RunnerInstallServiceOptions) -> String {
    render_runner_openrc_init(opts, &FsPath::new(OPENRC_RUNNER_INIT_FILE))
        .expect("render should succeed")
}

fn render_error(opts: &RunnerInstallServiceOptions) -> String {
    render_runner_openrc_init(opts, &FsPath::new(OPENRC_RUNNER_INIT_FILE))
        .expect_err("render should fail")
}

#[test]
fn render_uses_openrc_run_supervise_daemon_and_embeds_no_tokens() {
    let script = render(&install_opts());
    assert!(script.starts_with("#!/sbin/openrc-run\n"), "{script}");
    assert!(
        script.contains("supervisor=\"supervise-daemon\""),
        "{script}"
    );
    assert!(
        script.contains("command=\"${WEBCODEX_RUNNER_BIN:-/usr/local/bin/webcodex-runner}\""),
        "{script}"
    );
    assert!(
        script.contains(
            "command_args=\"--config ${WEBCODEX_RUNNER_CONFIG:-/etc/webcodex/runner.toml}\""
        ),
        "{script}"
    );
    assert!(
        script.contains("command_user=\"${WEBCODEX_RUNNER_USER:-webcodex:webcodex}\""),
        "{script}"
    );
    assert!(
        script.contains("directory=\"${WEBCODEX_RUNNER_WORKING_DIRECTORY:-/home/webcodex}\""),
        "{script}"
    );
    assert!(
        script.contains("pidfile=\"/run/${RC_SVCNAME}.pid\""),
        "{script}"
    );
    assert!(
        script.contains("output_log=\"${WEBCODEX_RUNNER_LOG:-/var/log/webcodex-runner.log}\""),
        "{script}"
    );
    assert!(
        script.contains("error_log=\"${WEBCODEX_RUNNER_LOG:-/var/log/webcodex-runner.log}\""),
        "{script}"
    );
    assert!(
        script.contains("extra_started_commands=\"reload\""),
        "{script}"
    );
    assert!(
        script.contains("start-stop-daemon --signal HUP --pidfile \"$pidfile\""),
        "{script}"
    );
    assert!(script.contains("depend()"), "{script}");
    // No secrets: the script references the config path only.
    assert!(!script.contains("token"), "{script}");
    assert!(!script.contains("systemctl"), "{script}");
    assert!(!script.contains("journalctl"), "{script}");
    assert!(!script.contains("bash"), "{script}");
}

#[test]
fn render_rejects_root_runner_without_explicit_opt_in() {
    let mut opts = install_opts();
    opts.user = None;
    opts.group = None;
    opts.root_runner = true;
    let error = render_runner_openrc_init(&opts, &FsPath::new(OPENRC_RUNNER_INIT_FILE))
        .expect_err("root runner without --allow-root-runner must fail");
    assert!(error.contains("--allow-root-runner"), "{error}");

    opts.allow_root_runner = true;
    let script = render(&opts);
    assert!(
        script.contains("--allow-root-runner was explicitly accepted"),
        "{script}"
    );
    assert!(!script.contains("command_user"), "{script}");
}

#[test]
fn render_rejects_user_scope() {
    let mut opts = install_opts();
    opts.scope = ServiceScope::User;
    opts.user = None;
    opts.group = None;
    let error = render_runner_openrc_init(&opts, &FsPath::new(OPENRC_RUNNER_INIT_FILE))
        .expect_err("user scope must fail for OpenRC");
    assert!(error.contains("--scope system"), "{error}");
}

#[test]
fn render_rejects_group_without_user_and_unsafe_values() {
    let mut opts = install_opts();
    opts.user = None;
    let error = render_runner_openrc_init(&opts, &FsPath::new(OPENRC_RUNNER_INIT_FILE))
        .expect_err("group without user must fail");
    assert!(error.contains("--group requires --user"), "{error}");

    let mut opts = install_opts();
    opts.config = FsPath::new("/etc/webcodex/run ner.toml");
    let error = render_runner_openrc_init(&opts, &FsPath::new(OPENRC_RUNNER_INIT_FILE))
        .expect_err("whitespace in the config path must fail");
    assert!(error.contains("whitespace"), "{error}");

    let mut opts = install_opts();
    opts.config = FsPath::new("/etc/webcodex/ru\"nner.toml");
    let error = render_runner_openrc_init(&opts, &FsPath::new(OPENRC_RUNNER_INIT_FILE))
        .expect_err("a double quote in the config path must fail");
    assert!(error.contains("unsafe"), "{error}");

    let mut opts = install_opts();
    opts.user = Some("webcodex;id".to_string());
    let error = render_runner_openrc_init(&opts, &FsPath::new(OPENRC_RUNNER_INIT_FILE))
        .expect_err("shell metacharacters in the user must fail");
    assert!(error.contains("invalid OpenRC user value"), "{error}");

    let mut opts = install_opts();
    opts.bin = FsPath::new("relative/webcodex-runner");
    let error = render_runner_openrc_init(&opts, &FsPath::new(OPENRC_RUNNER_INIT_FILE))
        .expect_err("a relative binary path must fail");
    assert!(error.contains("must be absolute"), "{error}");
}

#[test]
fn openrc_service_name_uses_the_init_file_basename() {
    assert_eq!(
        openrc_service_name(&FsPath::new("/etc/init.d/webcodex-runner")),
        "webcodex-runner"
    );
    assert_eq!(
        openrc_service_name(&FsPath::new("/etc/init.d/custom")),
        "custom"
    );
    assert_eq!(openrc_service_name(&FsPath::new("")), RUNNER_OPENRC_SERVICE);
}

#[test]
fn service_names_fall_back_to_the_runner() {
    for file in ["/", "/etc/init.d/..", "..", ".", "/etc/init.d/   "] {
        assert_eq!(
            openrc_service_name(&FsPath::new(file)),
            "webcodex-runner",
            "{file}"
        );
    }
    assert_eq!(
        openrc_service_name(&FsPath::from_bytes(b"/etc/init.d/\xff".to_vec())),
        "webcodex-runner"
    );
    // Separators and dots around the name do not matter.
    for file in ["custom", "/etc/init.d/custom/", "/etc/init.d/custom/.", "//custom//"] {
        assert_eq!(openrc_service_name(&FsPath::new(file)), "custom", "{file}");
    }
    assert_eq!(openrc_service_name(&default_openrc_init_file()), "webcodex-runner");
}

#[test]
fn rendered_script_is_exact() {
    let mut opts = install_opts();
    opts.group = None;
    opts.working_directory = FsPath::new("/srv/web codex");
    let script =
        render_runner_openrc_init(&opts, &FsPath::new("/etc/init.d/custom_1.2")).unwrap();
    assert_eq!(
        script,
        "#!/sbin/openrc-run\n\
         # WebCodex Runner service for OpenRC (supervise-daemon).\n\
         # Rendered by `webcodex runner install --service-manager openrc`.\n\
         # Secrets stay in the Runner config named by --config; none appear here.\n\
         # Optional overrides belong in /etc/conf.d/$RC_SVCNAME using the\n\
         # WEBCODEX_RUNNER_* variables below.\n\
         \n\
         name=\"custom_1.2\"\n\
         description=\"WebCodex Runner\"\n\
         \n\
         supervisor=\"supervise-daemon\"\n\
         command=\"${WEBCODEX_RUNNER_BIN:-/usr/local/bin/webcodex-runner}\"\n\
         command_args=\"--config ${WEBCODEX_RUNNER_CONFIG:-/etc/webcodex/runner.toml}\"\n\
         command_user=\"${WEBCODEX_RUNNER_USER:-webcodex}\"\n\
         directory=\"${WEBCODEX_RUNNER_WORKING_DIRECTORY:-/srv/web codex}\"\n\
         pidfile=\"/run/${RC_SVCNAME}.pid\"\n\
         output_log=\"${WEBCODEX_RUNNER_LOG:-/var/log/custom_1.2.log}\"\n\
         error_log=\"${WEBCODEX_RUNNER_LOG:-/var/log/custom_1.2.log}\"\n\
         \n\
         extra_started_commands=\"reload\"\n\
         \n\
         depend() {\n\tuse net\n\tafter net\n}\n\
         \n\
         reload() {\n\tebegin \"Reloading $name\"\n\tstart-stop-daemon --signal HUP --pidfile \"$pidfile\"\n\teend $?\n}\n"
    );
}

#[test]
fn root_note_is_the_fourth_line() {
    let mut opts = install_opts();
    opts.root_runner = true;
    opts.allow_root_runner = true;
    assert_eq!(
        render(&opts).lines().nth(3),
        Some("# WARNING: --allow-root-runner was explicitly accepted; project commands run as root.")
    );
}

#[test]
fn render_faults_come_in_order() {
    // Everything is wrong; each fault shows once the ones before it are mended.
    let mut opts = install_opts();
    opts.scope = ServiceScope::User;
    opts.root_runner = true;
    opts.bin = FsPath::new("/usr/bin/a b");
    opts.config = FsPath::new("runner.toml");
    opts.working_directory = FsPath::new("/home/$USER");
    opts.user = Some(String::new());
    opts.group = Some("ops team".to_string());
    let bad_file = FsPath::new("/etc/init.d/a b");

    let fault = |opts: &RunnerInstallServiceOptions, file: &FsPath| {
        render_runner_openrc_init(opts, file).unwrap_err()
    };
    assert_eq!(
        fault(&opts, &bad_file),
        "OpenRC supports only --scope system; rerun as root or pass --scope system"
    );
    opts.scope = ServiceScope::System;
    assert_eq!(
        fault(&opts, &bad_file),
        "refusing to render a Runner that would run as root without --allow-root-runner"
    );
    opts.allow_root_runner = true;
    assert_eq!(
        fault(&opts, &bad_file),
        "invalid OpenRC service name value: use only ASCII letters, digits, '_', '-' or '.'"
    );
    assert_eq!(
        render_error(&opts),
        "invalid OpenRC command value: whitespace is not supported in this path"
    );
    opts.bin = FsPath::new("/usr/bin/runner");
    assert_eq!(
        render_error(&opts),
        "invalid OpenRC --config value: path must be absolute"
    );
    opts.config = FsPath::from_bytes(b"/etc/\xff\xfe".to_vec());
    assert_eq!(
        render_error(&opts),
        "invalid OpenRC --config value: path is not valid UTF-8"
    );
    opts.config = FsPath::new("/etc/runner.toml");
    assert_eq!(
        render_error(&opts),
        "invalid OpenRC working directory value: contains a character that is unsafe in an init script"
    );
    opts.working_directory = FsPath::new("/home/user");
    assert_eq!(render_error(&opts), "invalid OpenRC user value: cannot be empty");
    opts.user = Some("ops".to_string());
    assert_eq!(
        render_error(&opts),
        "invalid OpenRC group value: use only ASCII letters, digits, '_', '-' or '.'"
    );
    opts.group = Some("ops-team".to_string());
    assert!(render(&opts).contains("command_user=\"${WEBCODEX_RUNNER_USER:-ops:ops-team}\"\n"));
}

#[test]
fn identities_are_plain_names() {
    for value in ["a", "webcodex-runner", "A.b_c-9", "."] {
        assert_eq!(validate_openrc_identity("user", value), Ok(()), "{value}");
    }
    for value in ["a b", "a/b", "ü", "a\n", "a:b", "a;id"] {
        assert_eq!(
            validate_openrc_identity("user", value).unwrap_err(),
            "invalid OpenRC user value: use only ASCII letters, digits, '_', '-' or '.'",
            "{value}"
        );
    }
    assert_eq!(
        validate_openrc_identity("group", "").unwrap_err(),
        "invalid OpenRC group value: cannot be empty"
    );
}

#[test]
fn values_that_could_leave_their_string_are_refused() {
    for value in ["a\"b", "a\\b", "a$b", "a`b", "a}b", "a\tb", "a\nb", "a\u{7f}", "a\u{85}"] {
        assert_eq!(
            openrc_shell_value("directory", value).unwrap_err(),
            "invalid OpenRC directory value: contains a character that is unsafe in an init script",
            "{value:?}"
        );
    }
    for value in ["/srv/web codex", "{a", "ü", "a'b", "a#b"] {
        assert_eq!(openrc_shell_value("directory", value), Ok(value));
    }
    assert_eq!(
        openrc_shell_value("directory", "").unwrap_err(),
        "invalid OpenRC directory value: cannot be empty"
    );
}

#[test]
fn command_paths_are_single_words() {
    let spaced = FsPath::new("/opt/web codex/runner");
    assert_eq!(openrc_shell_path("command", &spaced), Ok("/opt/web codex/runner"));
    assert_eq!(
        openrc_command_path("command", &spaced).unwrap_err(),
        "invalid OpenRC command value: whitespace is not supported in this path"
    );
    // White space of other scripts splits words for nobody, and is refused too.
    assert!(openrc_command_path("command", &FsPath::new("/opt/web\u{a0}codex")).is_err());
    assert_eq!(
        openrc_command_path("command", &FsPath::new("/opt/webcodex")),
        Ok("/opt/webcodex")
    );
}

#[test]
fn log_file_carries_the_service_name() {
    assert_eq!(
        openrc_log_file("webcodex-runner"),
        FsPath::new("/var/log/webcodex-runner.log")
    );
    assert_eq!(
        default_openrc_init_file(),
        FsPath::new("/etc/init.d/webcodex-runner")
    );
}
