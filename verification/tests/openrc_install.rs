use webcodex::openrc::install::{
    install_openrc_service, install_openrc_service_with_executor, preflight_service_path,
    ExistingUnitKind, InstallDemand, InstallReport, OpenrcInstallOutcome,
};
use webcodex::openrc::manager::HostTools;
use webcodex::openrc::plan::{
    execute_openrc_install_plan, resume_after_rollback, rollback_openrc_install,
    OpenrcInstallSnapshot,
};
use webcodex::openrc::uninstall::{
    rollback_can_be_told, uninstall_openrc_error, uninstall_openrc_service,
    uninstall_openrc_service_with_executor, OpenrcUninstallOutcome, UninstallDemand,
    UninstallFailure, UninstallReport,
};
use webcodex::path::{FsPath, PathEntry};
use webcodex::process::{Journal, ProcessExecutor, ProcessInvocation, ProcessOutput};

#[derive(Default)]
struct FakeExecutor {
    outputs: std::collections::VecDeque<Result<ProcessOutput, String>>,
    calls: Vec<ProcessInvocation>,
}

impl ProcessExecutor for FakeExecutor {
    fn execute(&mut self, invocation: &ProcessInvocation) -> Result<ProcessOutput, String> {
        self.calls.push(invocation.clone());
        self.outputs
            .pop_front()
            .unwrap_or_else(|| panic!("missing fake output for {:?}", invocation.args))
    }
}

fn rehearse(outputs: Vec<Result<ProcessOutput, String>>) -> Journal<FakeExecutor> {
    Journal::new(FakeExecutor {
        outputs: outputs.into(),
        calls: Vec::new(),
    })
}

fn output(success: bool, stdout: &str, stderr: &str) -> Result<ProcessOutput, String> {
    Ok(ProcessOutput {
        success,
        code: Some(if success { 0 } else { 1 }),
        stdout: stdout.to_string(),
        stderr: stderr.to_string(),
    })
}

fn ok() -> Result<ProcessOutput, String> {
    output(true, "", "")
}

fn failed(message: &str) -> Result<ProcessOutput, String> {
    output(false, "", message)
}

fn calls(executor: &Journal<FakeExecutor>) -> Vec<Vec<String>> {
    executor
        .executor()
        .calls
        .iter()
        .map(|call| call.args.clone())
        .collect()
}

/// The files of a host, as far as the service touches them.
struct Files {
    /// The init script, where it is a regular file.
    script: Option<String>,
    symlink: bool,
    enabled: bool,
    mode: Option<u32>,
    write_error: Option<String>,
    restore_error: Option<String>,
    remove_error: Option<String>,
}

fn files(script: Option<&str>, enabled: bool) -> Files {
    Files {
        script: script.map(str::to_string),
        symlink: false,
        enabled,
        mode: None,
        write_error: None,
        restore_error: None,
        remove_error: None,
    }
}

impl Files {
    fn script_entry(&self) -> PathEntry {
        if self.symlink {
            PathEntry::Symlink
        } else if self.script.is_some() {
            PathEntry::RegularFile
        } else {
            PathEntry::Missing
        }
    }

    fn runlevel_entry(&self) -> PathEntry {
        if self.enabled {
            PathEntry::Symlink
        } else {
            PathEntry::Missing
        }
    }
}

const INIT_FILE: &str = "/tmp/x/webcodex-runner";

fn install(
    executor: &mut Journal<FakeExecutor>,
    files: &mut Files,
    content: &str,
    overwrite: bool,
    no_start: bool,
) -> Result<OpenrcInstallOutcome, String> {
    let init_file = FsPath::new(INIT_FILE);
    let mut report = InstallReport::Requested;
    loop {
        let demand = install_openrc_service_with_executor(
            executor,
            &FsPath::new("/sbin/rc-service"),
            &FsPath::new("/sbin/rc-update"),
            &init_file,
            &FsPath::new("/tmp/x/runlevels"),
            "webcodex-runner",
            content,
            overwrite,
            no_start,
            report,
        );
        report = match demand {
            InstallDemand::Inspect(path) => {
                assert_eq!(path, init_file);
                InstallReport::Inspected(files.script_entry())
            }
            InstallDemand::Read(path) => {
                assert_eq!(path, init_file);
                InstallReport::Read(files.script.clone().ok_or("no file".to_string()))
            }
            InstallDemand::InspectRunlevel {
                entry,
                previous_content,
            } => {
                assert_eq!(entry, FsPath::new("/tmp/x/runlevels/default/webcodex-runner"));
                InstallReport::RunlevelInspected {
                    previous_content,
                    entry: files.runlevel_entry(),
                }
            }
            InstallDemand::Write {
                path,
                content,
                overwrite: over,
                mode,
                snapshot,
            } => {
                assert_eq!(path, init_file);
                assert_eq!(over, overwrite);
                let written = match &files.write_error {
                    Some(error) => Err(error.clone()),
                    None => {
                        files.script = Some(content);
                        files.mode = Some(mode);
                        Ok(())
                    }
                };
                InstallReport::Written { snapshot, written }
            }
            InstallDemand::Restore { path, rollback } => {
                assert_eq!(path, init_file);
                let restored = match &files.restore_error {
                    Some(error) => Err(error.clone()),
                    None => {
                        files.script = rollback.snapshot.previous_content.clone();
                        Ok(())
                    }
                };
                InstallReport::Restored { rollback, restored }
            }
            InstallDemand::Done(result) => return result,
        };
    }
}

fn uninstall(
    executor: &mut Journal<FakeExecutor>,
    files: &mut Files,
) -> Result<OpenrcUninstallOutcome, String> {
    let init_file = FsPath::new(INIT_FILE);
    let mut report = UninstallReport::Requested;
    loop {
        let demand = uninstall_openrc_service_with_executor(
            executor,
            &FsPath::new("/sbin/rc-service"),
            &FsPath::new("/sbin/rc-update"),
            &init_file,
            &FsPath::new("/tmp/x/runlevels"),
            "webcodex-runner",
            report,
        );
        report = match demand {
            UninstallDemand::Inspect(path) => {
                assert_eq!(path, init_file);
                UninstallReport::Inspected(files.script_entry())
            }
            UninstallDemand::InspectRunlevel(path) => {
                assert_eq!(path, FsPath::new("/tmp/x/runlevels/default/webcodex-runner"));
                UninstallReport::RunlevelInspected(files.runlevel_entry())
            }
            UninstallDemand::Remove {
                path,
                enabled,
                active,
            } => {
                assert_eq!(path, init_file);
                let removed = match &files.remove_error {
                    Some(error) => Err(error.clone()),
                    None => {
                        files.script = None;
                        Ok(())
                    }
                };
                UninstallReport::Removed {
                    enabled,
                    active,
                    removed,
                }
            }
            UninstallDemand::Done(result) => {
                return result.map_err(|failure| {
                    failure
                        .message("webcodex-runner")
                        .expect("the message can be told")
                })
            }
        };
    }
}

#[test]
fn install_no_start_enables_default_runlevel_without_starting() {
    let mut host = files(None, false);
    let mut executor = rehearse(vec![
        ok(),
        output(true, "  webcodex-runner |      default\n", ""),
    ]);
    let outcome = install(&mut executor, &mut host, "#!/sbin/openrc-run\n", false, true).unwrap();
    assert!(!outcome.started);
    assert!(outcome.enabled);
    assert_eq!(outcome.service, "webcodex-runner");
    let calls = calls(&executor);
    assert_eq!(calls.len(), 2);
    assert_eq!(calls[0], ["add", "webcodex-runner", "default"]);
    assert_eq!(calls[1], ["show", "default"]);
    assert_eq!(host.script.as_deref(), Some("#!/sbin/openrc-run\n"));
    let mode = host.mode.unwrap();
    assert_eq!(mode & 0o777, 0o755, "init scripts must be executable");
}

#[test]
fn install_start_uses_rc_service_and_verifies_status() {
    let mut host = files(None, false);
    let mut executor = rehearse(vec![ok(), ok(), ok()]);
    let outcome = install(&mut executor, &mut host, "#!/sbin/openrc-run\n", false, false).unwrap();
    assert!(outcome.started);
    let calls = calls(&executor);
    assert_eq!(calls.len(), 3);
    assert_eq!(calls[0], ["add", "webcodex-runner", "default"]);
    assert_eq!(calls[1], ["webcodex-runner", "start"]);
    assert_eq!(calls[2], ["webcodex-runner", "status"]);
}

#[test]
fn install_restart_adopts_new_script_when_service_was_active() {
    let mut host = files(Some("old script"), true);
    // Snapshot observes the service active, then restart + status verify.
    let mut executor = rehearse(vec![ok(), ok(), ok()]);
    let outcome = install(
        &mut executor,
        &mut host,
        "#!/sbin/openrc-run\n# new\n",
        true,
        false,
    )
    .unwrap();
    assert!(outcome.started);
    assert_eq!(
        calls(&executor),
        [
            ["webcodex-runner".to_string(), "status".to_string()],
            ["webcodex-runner".to_string(), "restart".to_string()],
            ["webcodex-runner".to_string(), "status".to_string()]
        ]
    );
    assert_eq!(host.script.as_deref(), Some("#!/sbin/openrc-run\n# new\n"));
}

#[test]
fn install_refuses_overwrite_without_flag() {
    let mut host = files(Some("old script"), false);
    let mut executor = rehearse(vec![]);
    let error = install(&mut executor, &mut host, "#!/sbin/openrc-run\n", false, true)
        .expect_err("overwrite without the flag must fail");
    assert!(
        error.contains("already exists; pass --overwrite"),
        "{error}"
    );
    assert_eq!(host.script.as_deref(), Some("old script"));
    assert!(executor.executor().calls.is_empty());
}

#[test]
fn install_refuses_symlink_overwrite() {
    let mut host = files(Some("target"), false);
    host.symlink = true;
    let mut executor = rehearse(vec![]);
    let error = install(&mut executor, &mut host, "#!/sbin/openrc-run\n", true, true)
        .expect_err("symlink overwrite must fail");
    assert!(error.contains("OpenRC service symlink"), "{error}");
    assert!(executor.executor().calls.is_empty());
}

#[test]
fn install_failure_rolls_back_new_file_and_runlevel() {
    let mut host = files(None, false);
    let mut executor = rehearse(vec![
        failed("rc-update add boom"),
        ok(), // rollback stop (tolerated)
        ok(), // rollback rc-update del
    ]);
    let error = install(&mut executor, &mut host, "#!/sbin/openrc-run\n", false, false)
        .expect_err("install must fail");
    assert!(
        error.contains("installation failed for OpenRC service webcodex-runner"),
        "{error}"
    );
    assert!(error.contains("rc-update add boom"), "{error}");
    // Newly written init script is removed again by the rollback.
    assert!(host.script.is_none());
    let calls = calls(&executor);
    assert_eq!(calls.len(), 3);
    assert_eq!(calls[0], ["add", "webcodex-runner", "default"]);
    assert_eq!(calls[1], ["webcodex-runner", "stop"]);
    assert_eq!(calls[2], ["del", "webcodex-runner", "default"]);
}

#[test]
fn install_failure_restores_previous_file_and_active_state() {
    let mut host = files(Some("old script"), true);
    let mut executor = rehearse(vec![
        ok(),                   // snapshot status probe: active
        failed("restart boom"), // plan restart fails
        ok(),                   // rollback stop
        ok(),                   // rollback start (restore active state)
    ]);
    let error = install(
        &mut executor,
        &mut host,
        "#!/sbin/openrc-run\n# new\n",
        true,
        false,
    )
    .expect_err("install must fail");
    assert!(error.contains("restart boom"), "{error}");
    // The previously installed script content is restored.
    assert_eq!(host.script.as_deref(), Some("old script"));
    assert_eq!(
        calls(&executor),
        [
            ["webcodex-runner".to_string(), "status".to_string()],
            ["webcodex-runner".to_string(), "restart".to_string()],
            ["webcodex-runner".to_string(), "stop".to_string()],
            ["webcodex-runner".to_string(), "start".to_string()]
        ]
    );
}

#[test]
fn install_no_start_runlevel_verification_failure_rolls_back() {
    let mut host = files(None, false);
    let mut executor = rehearse(vec![
        ok(),
        output(true, "  other-service | default\n", ""),
        ok(), // rollback rc-update del
    ]);
    let error = install(&mut executor, &mut host, "#!/sbin/openrc-run\n", false, true)
        .expect_err("install must fail when the service is not listed");
    assert!(
        error.contains("not listed in the default runlevel"),
        "{error}"
    );
    assert!(host.script.is_none());
    // No start attempt in --no-start mode: no rc-service calls at all.
    assert!(calls(&executor)
        .iter()
        .all(|call| call.first().map(String::as_str) != Some("webcodex-runner")));
}

#[test]
fn install_tells_everything_that_went_wrong() {
    let mut host = files(Some("old script"), false);
    host.restore_error = Some("disk full".to_string());
    let mut executor = rehearse(vec![
        ok(),                              // it was running
        ok(),                              // add
        ok(),                              // restart
        failed("not running\n"),           // status
        failed("cannot stop"),             // undo: stop
        Err("rc-update gone".to_string()), // undo: del
        failed("cannot start"),            // undo: start
    ]);
    let error = install(&mut executor, &mut host, "new", true, false).unwrap_err();
    assert_eq!(
        error,
        "installation failed for OpenRC service webcodex-runner: rc-service status failed: not running; \
         rollback also encountered: stop failed: rc-service stop failed: cannot stop; \
         rc-update del failed: rc-update gone; \
         init script restore failed: disk full; \
         active state restore failed: rc-service start failed: cannot start"
    );
    assert_eq!(executor.executor().calls.len(), 7);
    assert_eq!(host.script.as_deref(), Some("new"));
}

#[test]
fn install_stops_where_files_fail() {
    let mut host = files(None, true);
    host.write_error = Some("read-only file system".to_string());
    let mut executor = rehearse(vec![]);
    assert_eq!(
        install(&mut executor, &mut host, "new", false, false).unwrap_err(),
        "read-only file system"
    );
    assert!(executor.executor().calls.is_empty());

    let demand = install_openrc_service_with_executor(
        &mut executor,
        &FsPath::new("/sbin/rc-service"),
        &FsPath::new("/sbin/rc-update"),
        &FsPath::new(INIT_FILE),
        &FsPath::new("/etc/runlevels"),
        "webcodex-runner",
        "new",
        true,
        false,
        InstallReport::Read(Err("permission denied".to_string())),
    );
    assert_eq!(
        demand,
        InstallDemand::Done(Err(
            "failed to read /tmp/x/webcodex-runner: permission denied".to_string()
        ))
    );
    assert!(executor.executor().calls.is_empty());
}

#[test]
fn install_keeps_an_enabled_service_enabled() {
    let mut host = files(Some("old script"), true);
    let mut executor = rehearse(vec![
        failed("stopped"),                                // it was not running
        output(true, "webcodex-runner | default\n", ""), // show
    ]);
    let outcome = install(&mut executor, &mut host, "new", true, true).unwrap();
    assert_eq!(
        outcome,
        OpenrcInstallOutcome {
            service: "webcodex-runner".to_string(),
            enabled: true,
            started: false,
        }
    );
    assert_eq!(
        calls(&executor),
        [["webcodex-runner", "status"], ["show", "default"]]
    );
}

#[test]
fn install_refuses_odd_names_and_places() {
    let tools = HostTools {
        linux: true,
        rc_service: Some(FsPath::new("/sbin/rc-service")),
        rc_update: Some(FsPath::new("/sbin/rc-update")),
        systemctl: None,
        tail: None,
    };
    let bare = HostTools {
        linux: true,
        rc_service: Some(FsPath::new("/sbin/rc-service")),
        rc_update: None,
        systemctl: None,
        tail: None,
    };
    let mut executor = rehearse(vec![]);
    let mut step = |tools: &HostTools, file: &str, service: &str| {
        install_openrc_service(
            &mut executor,
            tools,
            &FsPath::new(file),
            service,
            "content",
            false,
            false,
            InstallReport::Requested,
        )
    };
    assert_eq!(
        step(&tools, "/etc/init.d/runner", "runner"),
        InstallDemand::Inspect(FsPath::new("/etc/init.d/runner"))
    );
    // Paths are compared by their components.
    assert_eq!(
        step(&tools, "/etc//init.d/./runner/", "runner"),
        InstallDemand::Inspect(FsPath::new("/etc//init.d/./runner/"))
    );
    for file in [
        "/etc/init.d",
        "/etc/init.d/sub/runner",
        "/usr/local/etc/init.d/runner",
        "etc/init.d/runner",
        "/etc/conf.d/runner",
        "",
    ] {
        assert_eq!(
            step(&tools, file, "runner"),
            InstallDemand::Done(Err(format!(
                "OpenRC init scripts must live in /etc/init.d: {file}"
            )))
        );
    }
    assert_eq!(
        step(&tools, "/etc/init.d/runner", "run ner"),
        InstallDemand::Done(Err(
            "invalid OpenRC service name value: use only ASCII letters, digits, '_', '-' or '.'"
                .to_string()
        ))
    );
    assert_eq!(
        step(&bare, "/etc/init.d/runner", "runner"),
        InstallDemand::Done(Err(
            "rc-update was not found in an absolute PATH entry; install openrc or use --service-manager systemd"
                .to_string()
        ))
    );
    assert!(executor.executor().calls.is_empty());
}

#[test]
fn preflight_lets_only_files_be_replaced() {
    let path = FsPath::new("/etc/init.d/runner");
    let check = |entry: PathEntry, overwrite: bool| {
        preflight_service_path(&path, &entry, overwrite, "OpenRC service")
    };
    assert_eq!(check(PathEntry::Missing, false), Ok(ExistingUnitKind::Absent));
    assert_eq!(check(PathEntry::Missing, true), Ok(ExistingUnitKind::Absent));
    assert_eq!(
        check(PathEntry::RegularFile, true),
        Ok(ExistingUnitKind::ManagedRegularFile)
    );
    assert_eq!(
        check(PathEntry::RegularFile, false).unwrap_err(),
        "/etc/init.d/runner already exists; pass --overwrite to replace it"
    );
    assert_eq!(
        check(PathEntry::Symlink, true).unwrap_err(),
        "refusing to overwrite OpenRC service symlink: /etc/init.d/runner"
    );
    assert_eq!(
        check(PathEntry::Directory, true).unwrap_err(),
        "refusing to overwrite non-regular OpenRC service path: /etc/init.d/runner"
    );
    assert_eq!(
        check(PathEntry::Unreadable("denied".to_string()), true).unwrap_err(),
        "failed to inspect /etc/init.d/runner: denied"
    );
}

#[test]
fn plans_and_their_rollbacks_match() {
    let rc_service = FsPath::new("/sbin/rc-service");
    let rc_update = FsPath::new("/sbin/rc-update");
    let snapshot = OpenrcInstallSnapshot {
        previous_content: None,
        enabled: true,
        active: true,
    };
    let mut executor = rehearse(vec![ok(), failed("down")]);
    assert_eq!(
        execute_openrc_install_plan(
            &mut executor,
            &rc_service,
            &rc_update,
            "runner",
            &snapshot,
            false
        ),
        Err("rc-service status failed: down".to_string())
    );
    assert_eq!(calls(&executor), [["runner", "restart"], ["runner", "status"]]);

    // Nothing to take out of the runlevel, nothing to stop.
    let mut executor = rehearse(vec![]);
    assert!(rollback_openrc_install(
        &mut executor,
        &rc_service,
        &rc_update,
        "runner",
        &snapshot,
        false
    )
    .is_empty());
    assert!(executor.executor().calls.is_empty());

    let mut executor = rehearse(vec![ok()]);
    assert_eq!(
        resume_after_rollback(
            &mut executor,
            &rc_service,
            "runner",
            &snapshot,
            vec!["stop failed: x".to_string()],
            Err("y".to_string()),
        ),
        ["stop failed: x", "init script restore failed: y"]
    );
    assert_eq!(calls(&executor), [["runner", "start"]]);
}

#[test]
fn uninstall_stops_disables_and_removes_the_init_script() {
    let mut host = files(Some("#!/sbin/openrc-run\n"), true);
    let mut executor = rehearse(vec![
        ok(), // status probe: active
        ok(), // stop
        ok(), // rc-update del
    ]);
    let outcome = uninstall(&mut executor, &mut host).unwrap();
    assert!(outcome.removed);
    assert!(host.script.is_none());
    let calls = calls(&executor);
    assert_eq!(calls.len(), 3);
    assert_eq!(calls[0], ["webcodex-runner", "status"]);
    assert_eq!(calls[1], ["webcodex-runner", "stop"]);
    assert_eq!(calls[2], ["del", "webcodex-runner", "default"]);
}

#[test]
fn uninstall_absent_service_is_a_noop() {
    let mut host = files(None, false);
    let mut executor = rehearse(vec![]);
    let outcome = uninstall(&mut executor, &mut host).unwrap();
    assert!(!outcome.removed);
    assert!(executor.executor().calls.is_empty());
}

#[test]
fn uninstall_refuses_a_symlinked_init_script() {
    let mut host = files(Some("#!/sbin/openrc-run\n"), false);
    host.symlink = true;
    let mut executor = rehearse(vec![]);
    let error =
        uninstall(&mut executor, &mut host).expect_err("symlinked init script must be refused");
    assert!(error.contains("symlink"), "{error}");
    assert!(host.script.is_some());
    assert!(executor.executor().calls.is_empty());
}

#[test]
fn uninstall_disable_failure_restores_active_state() {
    let mut host = files(Some("#!/sbin/openrc-run\n"), true);
    let mut executor = rehearse(vec![
        ok(),                         // status probe: active
        ok(),                         // stop
        failed("rc-update del boom"), // disable fails
        ok(),                         // rollback start
    ]);
    let error = uninstall(&mut executor, &mut host).expect_err("uninstall must fail");
    assert!(
        error.contains("uninstallation failed for OpenRC service webcodex-runner"),
        "{error}"
    );
    assert!(error.contains("rc-update del boom"), "{error}");
    // The init script stays in place and the service is started again.
    assert!(host.script.is_some());
    let calls = calls(&executor);
    assert_eq!(calls.len(), 4);
    assert_eq!(calls[0], ["webcodex-runner", "status"]);
    assert_eq!(calls[1], ["webcodex-runner", "stop"]);
    assert_eq!(calls[2], ["del", "webcodex-runner", "default"]);
    assert_eq!(calls[3], ["webcodex-runner", "start"]);
}

#[test]
fn uninstall_puts_a_service_back_that_cannot_be_removed() {
    let mut host = files(Some("script"), true);
    host.remove_error = Some("busy".to_string());
    let mut executor = rehearse(vec![ok(), ok(), ok(), failed("no add"), ok()]);
    assert_eq!(
        uninstall(&mut executor, &mut host).unwrap_err(),
        "uninstallation failed for OpenRC service webcodex-runner: failed to remove /tmp/x/webcodex-runner: busy; \
         rollback also encountered: enabled state restore failed: rc-update add failed: no add"
    );
    let calls = calls(&executor);
    assert_eq!(calls[3], ["add", "webcodex-runner", "default"]);
    assert_eq!(calls[4], ["webcodex-runner", "start"]);
    assert_eq!(calls.len(), 5);
}

#[test]
fn uninstall_leaves_a_service_that_cannot_be_stopped() {
    let mut host = files(Some("script"), true);
    let mut executor = rehearse(vec![ok(), failed("still busy")]);
    assert_eq!(
        uninstall(&mut executor, &mut host).unwrap_err(),
        "rc-service stop failed: still busy"
    );
    assert_eq!(executor.executor().calls.len(), 2);
    assert!(host.script.is_some());

    // One that neither runs nor is enabled is only asked about.
    let mut host = files(Some("script"), false);
    let mut executor = rehearse(vec![failed("stopped")]);
    assert!(uninstall(&mut executor, &mut host).unwrap().removed);
    assert_eq!(executor.executor().calls.len(), 1);
}

#[test]
fn uninstall_refuses_what_is_no_script() {
    let tools = HostTools {
        linux: true,
        rc_service: Some(FsPath::new("/sbin/rc-service")),
        rc_update: Some(FsPath::new("/sbin/rc-update")),
        systemctl: None,
        tail: None,
    };
    let mut executor = rehearse(vec![]);
    let mut step = |tools: &HostTools, service: &str, report: UninstallReport| {
        uninstall_openrc_service(
            &mut executor,
            tools,
            &FsPath::new("/etc/init.d/runner"),
            service,
            report,
        )
    };
    let refused = |message: &str| {
        UninstallDemand::Done(Err(UninstallFailure::Refused(message.to_string())))
    };
    assert_eq!(
        step(&tools, "runner", UninstallReport::Inspected(PathEntry::Directory)),
        refused("refusing to uninstall a non-regular OpenRC init script: /etc/init.d/runner")
    );
    assert_eq!(
        step(&tools, "runner", UninstallReport::Inspected(PathEntry::Symlink)),
        refused("refusing to uninstall an OpenRC service through a symlinked init script: /etc/init.d/runner; remove the symlink explicitly before retrying")
    );
    assert_eq!(
        step(
            &tools,
            "runner",
            UninstallReport::Inspected(PathEntry::Unreadable("denied".to_string()))
        ),
        refused("failed to inspect /etc/init.d/runner: denied")
    );
    assert_eq!(
        step(&tools, "", UninstallReport::Requested),
        refused("invalid OpenRC service name value: cannot be empty")
    );
    assert_eq!(
        step(
            &HostTools { linux: false, ..tools },
            "runner",
            UninstallReport::Requested
        ),
        refused("OpenRC service management is supported only on Linux")
    );
    assert!(executor.executor().calls.is_empty());
}

#[test]
fn long_rollbacks_are_cut_short() {
    let short = vec!["a".repeat(600)];
    assert_eq!(
        uninstall_openrc_error("runner", "error".to_string(), short),
        format!(
            "uninstallation failed for OpenRC service runner: error; rollback also encountered: {}",
            "a".repeat(600)
        )
    );
    let long = vec!["a".repeat(598), "b".to_string()];
    assert!(rollback_can_be_told(&long));
    assert_eq!(
        uninstall_openrc_error("runner", "error".to_string(), long),
        format!(
            "uninstallation failed for OpenRC service runner: error; rollback also encountered: {}; ...",
            "a".repeat(598)
        )
    );
    assert_eq!(
        uninstall_openrc_error("runner", "error".to_string(), vec![]),
        "uninstallation failed for OpenRC service runner: error"
    );
    // A cut through a character cannot be made.
    let split = vec![format!("{}ü", "a".repeat(599))];
    assert!(!rollback_can_be_told(&split));
    let failure = UninstallFailure::Undone {
        error: "error".to_string(),
        rollback_errors: split,
    };
    assert_eq!(failure.message("runner"), None);
    let whole = vec![format!("{}üx", "a".repeat(598))];
    let failure = UninstallFailure::Undone {
        error: "error".to_string(),
        rollback_errors: whole,
    };
    assert!(failure
        .message("runner")
        .unwrap()
        .ends_with("aü..."));
}

/// A host whose tools do what they are told, except that one run fails and
/// leaves what it acts on the wrong way round.
struct Acting {
    enabled: bool,
    active: bool,
    failing: usize,
    runs: usize,
}

impl ProcessExecutor for Acting {
    fn execute(&mut self, invocation: &ProcessInvocation) -> Result<ProcessOutput, String> {
        self.runs += 1;
        let fails = self.runs == self.failing;
        let mut stdout = "";
        match invocation.operation.as_str() {
            "rc-service start" | "rc-service restart" => self.active = !fails,
            "rc-service stop" => self.active = fails,
            "rc-update add" => self.enabled = !fails,
            "rc-update del" => self.enabled = fails,
            "rc-service status" => {
                if !self.active {
                    return failed("stopped");
                }
            }
            "rc-update show" => {
                if self.enabled {
                    stdout = "webcodex-runner | default\n";
                }
            }
            other => panic!("unexpected run: {other}"),
        }
        output(!fails, stdout, "injected")
    }
}

#[test]
fn rollback_gives_back_the_state_from_before() {
    let rc_service = FsPath::new("/sbin/rc-service");
    let rc_update = FsPath::new("/sbin/rc-update");
    for enabled in [false, true] {
        for active in [false, true] {
            for no_start in [false, true] {
                for failing in 1..=3 {
                    let snapshot = OpenrcInstallSnapshot {
                        previous_content: None,
                        enabled,
                        active,
                    };
                    let mut executor = Journal::new(Acting {
                        enabled,
                        active,
                        failing,
                        runs: 0,
                    });
                    let plan = execute_openrc_install_plan(
                        &mut executor,
                        &rc_service,
                        &rc_update,
                        "webcodex-runner",
                        &snapshot,
                        no_start,
                    );
                    if plan.is_ok() {
                        let host = executor.executor();
                        assert!(host.enabled);
                        assert_eq!(host.active, active || !no_start);
                        continue;
                    }
                    let errors = rollback_openrc_install(
                        &mut executor,
                        &rc_service,
                        &rc_update,
                        "webcodex-runner",
                        &snapshot,
                        !no_start,
                    );
                    let errors = resume_after_rollback(
                        &mut executor,
                        &rc_service,
                        "webcodex-runner",
                        &snapshot,
                        errors,
                        Ok(()),
                    );
                    assert!(errors.is_empty(), "{errors:?}");
                    let host = executor.executor();
                    assert_eq!((host.enabled, host.active), (enabled, active));
                }
            }
        }
    }
}

#[test]
fn a_service_that_cannot_be_removed_is_put_back() {
    for enabled in [false, true] {
        for active in [false, true] {
            let mut executor = Journal::new(Acting {
                enabled,
                active,
                failing: 0,
                runs: 0,
            });
            let mut report = UninstallReport::RunlevelInspected(if enabled {
                PathEntry::Symlink
            } else {
                PathEntry::Missing
            });
            loop {
                let demand = uninstall_openrc_service_with_executor(
                    &mut executor,
                    &FsPath::new("/sbin/rc-service"),
                    &FsPath::new("/sbin/rc-update"),
                    &FsPath::new(INIT_FILE),
                    &FsPath::new("/etc/runlevels"),
                    "webcodex-runner",
                    report,
                );
                report = match demand {
                    UninstallDemand::Remove {
                        enabled, active, ..
                    } => {
                        let host = executor.executor();
                        assert!(!host.enabled && !host.active);
                        UninstallReport::Removed {
                            enabled,
                            active,
                            removed: Err("busy".to_string()),
                        }
                    }
                    other => {
                        assert_eq!(
                            other,
                            UninstallDemand::Done(Err(UninstallFailure::Undone {
                                error: "failed to remove /tmp/x/webcodex-runner: busy".to_string(),
                                rollback_errors: vec![],
                            }))
                        );
                        break;
                    }
                };
            }
            let host = executor.executor();
            assert_eq!((host.enabled, host.active), (enabled, active));
        }
    }
}
