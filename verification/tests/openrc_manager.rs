use webcodex::openrc::manager::{
    needs_probe, probe_service_manager, rc_service_path, rc_update_path, resolve_service_manager,
    select_service_manager, tail_path, HostTools, ServiceManager, ServiceManagerProbe,
    ServiceManagerSelection,
};
use webcodex::path::{FsPath, PathEntry};

fn probe(
    openrc_runtime: bool,
    systemd_runtime: bool,
    rc_service: bool,
    rc_update: bool,
    systemctl: bool,
) -> ServiceManagerProbe {
    ServiceManagerProbe {
        openrc_runtime,
        systemd_runtime,
        rc_service,
        rc_update,
        systemctl,
    }
}

fn alpine() -> HostTools {
    HostTools {
        linux: true,
        rc_service: Some(FsPath::new("/sbin/rc-service")),
        rc_update: Some(FsPath::new("/sbin/rc-update")),
        systemctl: None,
        tail: Some(FsPath::new("/usr/bin/tail")),
    }
}

fn nothing(linux: bool) -> HostTools {
    HostTools {
        linux,
        rc_service: None,
        rc_update: None,
        systemctl: None,
        tail: None,
    }
}

#[test]
fn detect_service_manager_matrix() {
    let auto = ServiceManagerSelection::Auto;
    // Runtime directories win.
    assert_eq!(
        select_service_manager(auto, &probe(true, false, true, true, false)).unwrap(),
        ServiceManager::Openrc
    );
    assert_eq!(
        select_service_manager(auto, &probe(false, true, false, false, true)).unwrap(),
        ServiceManager::Systemd
    );
    // Both runtimes or no runtime with both toolsets are ambiguous.
    assert!(select_service_manager(auto, &probe(true, true, true, true, true)).is_err());
    assert!(select_service_manager(auto, &probe(false, false, true, true, true)).is_err());
    // No runtime directories: fall back to the single available toolset.
    assert_eq!(
        select_service_manager(auto, &probe(false, false, false, false, true)).unwrap(),
        ServiceManager::Systemd
    );
    assert_eq!(
        select_service_manager(auto, &probe(false, false, true, true, false)).unwrap(),
        ServiceManager::Openrc
    );
    // OpenRC runtime without its tools, or nothing at all, fails closed.
    let error = select_service_manager(auto, &probe(true, false, false, true, false))
        .expect_err("OpenRC runtime without rc-service/rc-update must fail");
    assert!(error.contains("rc-service"), "{error}");
    assert!(select_service_manager(auto, &probe(false, false, false, false, false)).is_err());
    // Explicit selections never probe.
    assert_eq!(
        select_service_manager(
            ServiceManagerSelection::Openrc,
            &probe(false, true, false, false, true)
        )
        .unwrap(),
        ServiceManager::Openrc
    );
    assert_eq!(
        select_service_manager(
            ServiceManagerSelection::Systemd,
            &probe(true, false, true, true, false)
        )
        .unwrap(),
        ServiceManager::Systemd
    );
}

#[test]
fn service_manager_selection_parse() {
    assert_eq!(
        ServiceManagerSelection::parse("auto").unwrap(),
        ServiceManagerSelection::Auto
    );
    assert_eq!(
        ServiceManagerSelection::parse("systemd").unwrap(),
        ServiceManagerSelection::Systemd
    );
    assert_eq!(
        ServiceManagerSelection::parse("openrc").unwrap(),
        ServiceManagerSelection::Openrc
    );
    assert!(ServiceManagerSelection::parse("runit").is_err());
}

#[test]
fn selection_names_are_exact() {
    for value in ["", "Auto", " auto", "openrc ", "systemd\n"] {
        assert_eq!(
            ServiceManagerSelection::parse(value).unwrap_err(),
            "--service-manager must be 'auto', 'systemd' or 'openrc'"
        );
    }
    for manager in [ServiceManager::Systemd, ServiceManager::Openrc] {
        let selection = ServiceManagerSelection::parse(manager.as_str()).unwrap();
        assert_eq!(
            select_service_manager(selection, &ServiceManagerProbe::default()).unwrap(),
            manager
        );
    }
    assert_eq!(ServiceManager::Systemd.as_str(), "systemd");
    assert_eq!(ServiceManager::Openrc.as_str(), "openrc");
}

#[test]
fn ambiguous_hosts_are_told_apart() {
    let auto = ServiceManagerSelection::Auto;
    assert_eq!(
        select_service_manager(auto, &probe(true, true, true, true, true)).unwrap_err(),
        "cannot reliably detect the service manager: both /run/openrc and /run/systemd/system exist; pass --service-manager systemd|openrc explicitly"
    );
    assert_eq!(
        select_service_manager(auto, &probe(true, false, true, false, true)).unwrap_err(),
        "detected an OpenRC runtime (/run/openrc) but rc-service or rc-update is missing from PATH; install openrc or pass --service-manager explicitly"
    );
    assert_eq!(
        select_service_manager(auto, &probe(false, false, true, true, true)).unwrap_err(),
        "cannot reliably detect the service manager: both systemctl and the OpenRC tools (rc-service, rc-update) are available, but neither /run/systemd/system nor /run/openrc exists; pass --service-manager explicitly"
    );
    assert_eq!(
        select_service_manager(auto, &probe(false, false, true, false, false)).unwrap_err(),
        "no supported service manager detected (looked for /run/openrc, /run/systemd/system, systemctl, rc-service and rc-update); pass --service-manager explicitly"
    );
}

#[test]
fn probing_takes_directories_and_tools() {
    let tools = alpine();
    assert_eq!(
        probe_service_manager(&PathEntry::Directory, &PathEntry::Missing, &tools),
        probe(true, false, true, true, false)
    );
    // A symbolic link to a directory is no runtime directory.
    assert_eq!(
        probe_service_manager(&PathEntry::Symlink, &PathEntry::RegularFile, &nothing(true)),
        probe(false, false, false, false, false)
    );
    assert_eq!(
        probe_service_manager(
            &PathEntry::Unreadable("permission denied".to_string()),
            &PathEntry::Directory,
            &tools
        ),
        probe(false, true, true, true, false)
    );
}

#[test]
fn other_systems_keep_systemd() {
    let openrc_host = probe(true, false, true, true, false);
    for (selection, linux, expected) in [
        (ServiceManagerSelection::Auto, true, Ok(ServiceManager::Openrc)),
        (ServiceManagerSelection::Auto, false, Ok(ServiceManager::Systemd)),
        (ServiceManagerSelection::Systemd, true, Ok(ServiceManager::Systemd)),
        (ServiceManagerSelection::Systemd, false, Ok(ServiceManager::Systemd)),
        (ServiceManagerSelection::Openrc, true, Ok(ServiceManager::Openrc)),
        (
            ServiceManagerSelection::Openrc,
            false,
            Err("OpenRC service management is supported only on Linux".to_string()),
        ),
    ] {
        assert_eq!(
            resolve_service_manager(selection, linux, &openrc_host),
            expected
        );
        // Where the host need not be probed, what it shows does not matter.
        if !needs_probe(selection, linux) {
            assert_eq!(
                resolve_service_manager(selection, linux, &ServiceManagerProbe::default()),
                expected
            );
        }
    }
    assert!(needs_probe(ServiceManagerSelection::Auto, true));
    assert!(!needs_probe(ServiceManagerSelection::Auto, false));
    assert!(!needs_probe(ServiceManagerSelection::Openrc, true));
}

#[test]
fn tools_are_found_on_linux_only() {
    let tools = alpine();
    assert_eq!(rc_service_path(&tools).unwrap(), FsPath::new("/sbin/rc-service"));
    assert_eq!(rc_update_path(&tools).unwrap(), FsPath::new("/sbin/rc-update"));
    assert_eq!(tail_path(&tools).unwrap(), FsPath::new("/usr/bin/tail"));

    let bare = nothing(true);
    assert_eq!(
        rc_service_path(&bare).unwrap_err(),
        "rc-service was not found in an absolute PATH entry; install openrc or use --service-manager systemd"
    );
    assert_eq!(
        rc_update_path(&bare).unwrap_err(),
        "rc-update was not found in an absolute PATH entry; install openrc or use --service-manager systemd"
    );
    assert_eq!(
        tail_path(&bare).unwrap_err(),
        "tail was not found in an absolute PATH entry"
    );

    let elsewhere = HostTools {
        linux: false,
        ..alpine()
    };
    assert_eq!(
        rc_service_path(&elsewhere).unwrap_err(),
        "OpenRC service management is supported only on Linux"
    );
    assert_eq!(
        rc_update_path(&elsewhere).unwrap_err(),
        "OpenRC service management is supported only on Linux"
    );
    assert_eq!(
        tail_path(&elsewhere).unwrap_err(),
        "OpenRC log access is supported only on Linux"
    );
}
