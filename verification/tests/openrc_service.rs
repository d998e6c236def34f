use webcodex::openrc::control::{
    control_openrc_service, control_openrc_service_with_executor, ServiceControl,
};
use webcodex::openrc::logs::{run_openrc_logs, run_openrc_logs_with_executor};
use webcodex::openrc::manager::HostTools;
use webcodex::openrc::status::{
    query_openrc_service_status, query_openrc_service_status_with_executor, SystemdStatus,
};
use webcodex::openrc::tools::{
    openrc_runlevel_entry, openrc_service_active, openrc_service_enabled, parse_openrc_status,
    rc_service_invocation, rc_update_invocation, rc_update_show_invocation,
    runlevel_lists_service,
};
use webcodex::path::{FsPath, PathEntry};
use webcodex::process::{Journal, ProcessExecutor, ProcessInvocation, ProcessOutput};

#[derive(Default)]
struct FakeExecutor {
    outputs: std::collections::VecDeque<Result<ProcessOutput, String>>,
    calls: Vec<ProcessInvocation>,
}

impl ProcessExecutor for FakeExecutor {
    fn execute(&mut self, invocation: &ProcessInvocation) -> Result<ProcessOutput, String> {
        self.calls.push(invocation.clone());
        self.outputs
            .pop_front()
            .unwrap_or_else(|| panic!("missing fake output for {:?}", invocation.args))
    }
}

fn rehearse(outputs: Vec<Result<ProcessOutput, String>>) -> Journal<FakeExecutor> {
    Journal::new(FakeExecutor {
        outputs: outputs.into(),
        calls: Vec::new(),
    })
}

fn output(success: bool, stdout: &str, stderr: &str) -> Result<ProcessOutput, String> {
    Ok(ProcessOutput {
        success,
        code: Some(if success { 0 } else { 1 }),
        stdout: stdout.to_string(),
        stderr: stderr.to_string(),
    })
}

fn ok() -> Result<ProcessOutput, String> {
    output(true, "", "")
}

fn failed(message: &str) -> Result<ProcessOutput, String> {
    output(false, "", message)
}

fn calls(executor: &Journal<FakeExecutor>) -> Vec<Vec<String>> {
    executor
        .executor()
        .calls
        .iter()
        .map(|call| call.args.clone())
        .collect()
}

fn tools(linux: bool) -> HostTools {
    HostTools {
        linux,
        rc_service: Some(FsPath::new("/sbin/rc-service")),
        rc_update: Some(FsPath::new("/sbin/rc-update")),
        systemctl: None,
        tail: Some(FsPath::new("/usr/bin/tail")),
    }
}

#[test]
fn control_maps_to_rc_service_commands() {
    let rc_service = FsPath::new("/sbin/rc-service");

    let mut start = rehearse(vec![ok(), ok()]);
    control_openrc_service_with_executor(
        &mut start,
        &rc_service,
        "webcodex-runner",
        ServiceControl::Start,
    )
    .unwrap();
    assert_eq!(
        calls(&start),
        [
            ["webcodex-runner".to_string(), "start".to_string()],
            ["webcodex-runner".to_string(), "status".to_string()]
        ]
    );

    let mut stop = rehearse(vec![ok()]);
    control_openrc_service_with_executor(
        &mut stop,
        &rc_service,
        "webcodex-runner",
        ServiceControl::Stop,
    )
    .unwrap();
    assert_eq!(
        calls(&stop),
        [["webcodex-runner".to_string(), "stop".to_string()]]
    );

    let mut restart = rehearse(vec![ok(), ok()]);
    control_openrc_service_with_executor(
        &mut restart,
        &rc_service,
        "webcodex-runner",
        ServiceControl::Restart,
    )
    .unwrap();
    assert_eq!(
        calls(&restart),
        [
            ["webcodex-runner".to_string(), "restart".to_string()],
            ["webcodex-runner".to_string(), "status".to_string()]
        ]
    );

    let mut reload = rehearse(vec![ok()]);
    control_openrc_service_with_executor(
        &mut reload,
        &rc_service,
        "webcodex-runner",
        ServiceControl::Reload,
    )
    .unwrap();
    assert_eq!(
        calls(&reload),
        [["webcodex-runner".to_string(), "reload".to_string()]]
    );
}

#[test]
fn control_stops_at_the_first_fault() {
    let rc_service = FsPath::new("/sbin/rc-service");
    let mut executor = rehearse(vec![failed("  no such service\n")]);
    let error = control_openrc_service_with_executor(
        &mut executor,
        &rc_service,
        "webcodex-runner",
        ServiceControl::Start,
    )
    .unwrap_err();
    assert_eq!(error, "rc-service start failed: no such service");
    assert_eq!(executor.executor().calls.len(), 1);

    // A service that was started but does not run is a failure too.
    let mut executor = rehearse(vec![ok(), Err("rc-service vanished".to_string())]);
    let error = control_openrc_service_with_executor(
        &mut executor,
        &rc_service,
        "webcodex-runner",
        ServiceControl::Restart,
    )
    .unwrap_err();
    assert_eq!(error, "rc-service vanished");
    assert_eq!(executor.executor().calls.len(), 2);
}

#[test]
fn control_refuses_names_that_are_none() {
    let mut executor = rehearse(vec![]);
    let error = control_openrc_service_with_executor(
        &mut executor,
        &FsPath::new("/sbin/rc-service"),
        "webcodex runner",
        ServiceControl::Stop,
    )
    .unwrap_err();
    assert_eq!(
        error,
        "invalid OpenRC service name value: use only ASCII letters, digits, '_', '-' or '.'"
    );
    assert!(executor.executor().calls.is_empty());
}

#[test]
fn control_uses_the_tool_of_the_host() {
    let mut executor = rehearse(vec![ok()]);
    control_openrc_service(
        &mut executor,
        &tools(true),
        "webcodex-runner",
        ServiceControl::Stop,
    )
    .unwrap();
    assert_eq!(
        executor.executor().calls[0],
        ProcessInvocation {
            operation: "rc-service stop".to_string(),
            program: FsPath::new("/sbin/rc-service"),
            args: vec!["webcodex-runner".to_string(), "stop".to_string()],
            unit: Some("webcodex-runner".to_string()),
            inherit_stdio: false,
        }
    );

    let mut executor = rehearse(vec![]);
    assert_eq!(
        control_openrc_service(
            &mut executor,
            &tools(false),
            "webcodex-runner",
            ServiceControl::Stop
        ),
        Err("OpenRC service management is supported only on Linux".to_string())
    );
    assert!(executor.executor().calls.is_empty());
}

#[test]
fn invocations_name_tool_service_and_runlevel() {
    let program = FsPath::new("/sbin/rc-update");
    assert_eq!(
        rc_update_invocation(&program, "add", "runner"),
        ProcessInvocation {
            operation: "rc-update add".to_string(),
            program: FsPath::new("/sbin/rc-update"),
            args: vec![
                "add".to_string(),
                "runner".to_string(),
                "default".to_string()
            ],
            unit: Some("runner".to_string()),
            inherit_stdio: false,
        }
    );
    assert_eq!(
        rc_update_show_invocation(&program, "runner").args,
        ["show", "default"]
    );
    assert_eq!(
        rc_update_show_invocation(&program, "runner").operation,
        "rc-update show"
    );
    assert_eq!(
        rc_service_invocation(&FsPath::new("/sbin/rc-service"), "runner", "status").operation,
        "rc-service status"
    );
    assert_eq!(
        openrc_runlevel_entry(&FsPath::new("/etc/runlevels"), "runner"),
        FsPath::new("/etc/runlevels/default/runner")
    );
}

#[test]
fn activity_is_what_the_status_run_says() {
    let rc_service = FsPath::new("/sbin/rc-service");
    let mut executor = rehearse(vec![ok(), Err("no rc-service".to_string())]);
    assert!(openrc_service_active(&mut executor, &rc_service, "runner"));
    assert!(!openrc_service_active(&mut executor, &rc_service, "runner"));
    assert_eq!(calls(&executor), [["runner", "status"], ["runner", "status"]]);
    let mut executor = rehearse(vec![failed("stopped")]);
    assert!(!openrc_service_active(&mut executor, &rc_service, "runner"));
}

#[test]
fn anything_at_the_runlevel_entry_enables() {
    for (entry, enabled) in [
        (PathEntry::Missing, false),
        (PathEntry::Unreadable("denied".to_string()), false),
        (PathEntry::Symlink, true),
        (PathEntry::RegularFile, true),
        (PathEntry::Directory, true),
        (PathEntry::Other, true),
    ] {
        assert_eq!(openrc_service_enabled(&entry), enabled, "{entry:?}");
    }
}

#[test]
fn runlevel_listing_matches_the_exact_service_name() {
    let show = "          bootmisc | boot\n  webcodex-runner |      default\n   webcodex-runner-extra | default\n";
    assert!(runlevel_lists_service(show, "webcodex-runner"));
    assert!(!runlevel_lists_service(show, "webcodex"));
    assert!(!runlevel_lists_service("", "webcodex-runner"));
}

#[test]
fn runlevel_rows_may_lack_bars_and_end_anyhow() {
    assert!(runlevel_lists_service("webcodex-runner", "webcodex-runner"));
    assert!(runlevel_lists_service("a | default\r\n\tb\t| default\r\n", "b"));
    assert!(!runlevel_lists_service("default | webcodex-runner\n", "webcodex-runner"));
    assert!(runlevel_lists_service("\n", ""));
}

#[test]
fn logs_reject_since_instead_of_ignoring_it() {
    let mut executor = rehearse(vec![]);
    let error = run_openrc_logs_with_executor(
        &mut executor,
        &FsPath::new("/usr/bin/tail"),
        &FsPath::new("/var/log/webcodex-runner.log"),
        true,
        "webcodex-runner",
        200,
        Some("1 hour ago"),
        false,
    )
    .expect_err("--since must fail explicitly for OpenRC");
    assert!(
        error.contains("--since is not supported for OpenRC"),
        "{error}"
    );
    assert!(executor.executor().calls.is_empty());
}

#[test]
fn logs_require_an_existing_log_file() {
    let mut executor = rehearse(vec![]);
    let error = run_openrc_logs_with_executor(
        &mut executor,
        &FsPath::new("/usr/bin/tail"),
        &FsPath::new("/var/log/missing.log"),
        false,
        "webcodex-runner",
        200,
        None,
        false,
    )
    .expect_err("a missing log file must fail");
    assert!(error.contains("does not exist yet"), "{error}");
    assert!(executor.executor().calls.is_empty());
}

#[test]
fn logs_map_to_tail_with_lines_and_follow() {
    let log_path = "/var/log/webcodex-runner.log".to_string();
    let log_file = FsPath::new(&log_path);

    let mut executor = rehearse(vec![output(true, "line2\n", "")]);
    let text = run_openrc_logs_with_executor(
        &mut executor,
        &FsPath::new("/usr/bin/tail"),
        &log_file,
        true,
        "webcodex-runner",
        50,
        None,
        false,
    )
    .unwrap();
    assert_eq!(text, "line2\n");
    assert_eq!(
        calls(&executor),
        [["-n".to_string(), "50".to_string(), log_path.clone()]]
    );

    let mut follow = rehearse(vec![ok()]);
    run_openrc_logs_with_executor(
        &mut follow,
        &FsPath::new("/usr/bin/tail"),
        &log_file,
        true,
        "webcodex-runner",
        50,
        None,
        true,
    )
    .unwrap();
    assert_eq!(
        calls(&follow),
        [[
            "-n".to_string(),
            "50".to_string(),
            "-f".to_string(),
            log_path
        ]]
    );
    assert!(follow.executor().calls[0].inherit_stdio);
    assert!(!executor.executor().calls[0].inherit_stdio);
    assert_eq!(follow.executor().calls[0].operation, "tail webcodex-runner log");
}

#[test]
fn logs_of_odd_paths_are_refused() {
    let mut executor = rehearse(vec![]);
    assert_eq!(
        run_openrc_logs_with_executor(
            &mut executor,
            &FsPath::new("/usr/bin/tail"),
            &FsPath::from_bytes(b"/var/log/\xff.log".to_vec()),
            true,
            "webcodex-runner",
            1,
            None,
            false,
        ),
        Err("log path is not valid UTF-8: /var/log/\u{fffd}.log".to_string())
    );
    assert!(executor.executor().calls.is_empty());
}

#[test]
fn logs_follow_the_service_on_the_host() {
    let mut executor = rehearse(vec![failed("tail: cannot open\n")]);
    assert_eq!(
        run_openrc_logs(&mut executor, &tools(true), true, "custom", 4294967295, None, false),
        Err("tail custom log failed: tail: cannot open".to_string())
    );
    assert_eq!(
        calls(&executor),
        [["-n", "4294967295", "/var/log/custom.log"]]
    );
    assert_eq!(
        run_openrc_logs(&mut executor, &tools(true), false, "custom", 0, None, false),
        Err("OpenRC log file /var/log/custom.log does not exist yet; start the service first (supervise-daemon creates it)".to_string())
    );
    assert_eq!(
        run_openrc_logs(&mut executor, &tools(false), true, "custom", 0, None, false),
        Err("OpenRC log access is supported only on Linux".to_string())
    );
    assert_eq!(executor.executor().calls.len(), 1);
}

#[test]
fn status_maps_openrc_output_to_the_shared_projection() {
    let rc_service = FsPath::new("/sbin/rc-service");
    let mut executor = rehearse(vec![output(true, " * status: started\n", "")]);
    let status = query_openrc_service_status_with_executor(
        &mut executor,
        &rc_service,
        &PathEntry::RegularFile,
        &PathEntry::RegularFile,
        "webcodex-runner",
    );
    assert_eq!(status.loaded, "loaded");
    assert_eq!(status.active, "active");
    assert_eq!(status.enabled, "enabled");

    let mut stopped = rehearse(vec![output(false, " * status: stopped\n", "")]);
    let status = query_openrc_service_status_with_executor(
        &mut stopped,
        &rc_service,
        &PathEntry::RegularFile,
        &PathEntry::RegularFile,
        "webcodex-runner",
    );
    assert_eq!(status.active, "inactive");

    let mut crashed = rehearse(vec![output(false, " * status: crashed\n", "")]);
    let status = query_openrc_service_status_with_executor(
        &mut crashed,
        &rc_service,
        &PathEntry::RegularFile,
        &PathEntry::RegularFile,
        "webcodex-runner",
    );
    assert_eq!(status.active, "failed");

    // A service without an init script reports not-found and disabled.
    let mut executor = rehearse(vec![failed("does not exist")]);
    let status = query_openrc_service_status_with_executor(
        &mut executor,
        &rc_service,
        &PathEntry::Missing,
        &PathEntry::Missing,
        "missing",
    );
    assert_eq!(status.loaded, "not-found");
    assert_eq!(status.active, "unknown");
    assert_eq!(status.enabled, "disabled");
}

#[test]
fn every_openrc_state_has_its_word() {
    for (stdout, word) in [
        (" * status: started", "active"),
        ("* status:stopped", "inactive"),
        (" * status: inactive\n", "inactive"),
        ("\t* status: crashed\r\n", "failed"),
        (" * status: starting\n", "activating"),
        (" * status:   stopping  \n", "deactivating"),
        (" * status: scheduled\n", "unknown"),
        (" * Status: started\n", "unknown"),
        ("noise\n * status: started\n * status: crashed\n", "active"),
        ("noise * status: started\n", "unknown"),
        ("", "unknown"),
    ] {
        assert_eq!(parse_openrc_status(stdout), word, "{stdout:?}");
    }
}

#[test]
fn status_is_unknown_without_the_tool() {
    let mut executor = rehearse(vec![]);
    let unknown = SystemdStatus {
        loaded: "unknown".to_string(),
        active: "unknown".to_string(),
        enabled: "unknown".to_string(),
    };
    assert_eq!(
        query_openrc_service_status(
            &mut executor,
            &tools(false),
            &PathEntry::RegularFile,
            &PathEntry::Symlink,
            "webcodex-runner"
        ),
        unknown
    );
    assert!(executor.executor().calls.is_empty());

    for (entry, loaded) in [
        (PathEntry::Symlink, "loaded"),
        (PathEntry::Directory, "unknown"),
        (PathEntry::Other, "unknown"),
        (PathEntry::Unreadable("denied".to_string()), "not-found"),
    ] {
        let mut executor = rehearse(vec![Err("no rc-service".to_string())]);
        let status = query_openrc_service_status(
            &mut executor,
            &tools(true),
            &entry,
            &PathEntry::Missing,
            "webcodex-runner",
        );
        assert_eq!(status.loaded, loaded);
        assert_eq!(status.active, "unknown");
        assert_eq!(calls(&executor), [["webcodex-runner", "status"]]);
    }
}
