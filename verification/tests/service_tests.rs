use porcelet::service::{
    interpret_status, OsError, RawServiceState, ServiceDescription, ServiceError, ServiceStatus,
    SystemService,
};

fn demo_description() -> ServiceDescription {
    ServiceDescription {
        friendly_name: "Porcelet Agent".to_owned(),
        binary_path: "C:\\porcelet\\porcelet.exe".to_owned(),
        args: vec!["agent".to_owned(), "run-windows-service".to_owned()],
    }
}

#[test]
fn lifecycle_round() {
    let mut service = SystemService::new("porcelet-agent".to_owned());
    assert_eq!(service.status(), Ok(ServiceStatus::Uninstalled));

    let installed = service.install(demo_description()).unwrap();
    assert_eq!(installed.friendly_name, "Porcelet Agent");
    assert!(installed.args.is_empty());
    assert_eq!(service.status(), Ok(ServiceStatus::Stopped));

    service.start().unwrap();
    // The start is acknowledged before it completes; the transitional state
    // is already coarsened to Running.
    assert_eq!(service.status(), Ok(ServiceStatus::Running));
    service.complete_transition();
    assert_eq!(service.status(), Ok(ServiceStatus::Running));

    service.stop().unwrap();
    // Still mid-transition, so still reported Running until it settles.
    assert_eq!(service.status(), Ok(ServiceStatus::Running));
    service.complete_transition();
    assert_eq!(service.status(), Ok(ServiceStatus::Stopped));
}

#[test]
fn uninstall_while_running_fails_and_keeps_registration() {
    let mut service = SystemService::new("porcelet-agent".to_owned());
    service.install(demo_description()).unwrap();
    service.start().unwrap();
    service.complete_transition();

    assert_eq!(service.uninstall(), Err(ServiceError::ServiceRunning));
    assert_eq!(service.status(), Ok(ServiceStatus::Running));
    let desc = service.description().unwrap();
    assert_eq!(desc.friendly_name, "Porcelet Agent");
}

#[test]
fn uninstall_when_stopped_deletes_the_registration() {
    let mut service = SystemService::new("porcelet-agent".to_owned());
    service.install(demo_description()).unwrap();
    assert_eq!(service.uninstall(), Ok(()));
    assert_eq!(service.status(), Ok(ServiceStatus::Uninstalled));
}

#[test]
fn uninstall_without_installation_fails() {
    let mut service = SystemService::new("porcelet-agent".to_owned());
    assert_eq!(service.uninstall(), Err(ServiceError::ServiceNotInstalled));
}

#[test]
fn start_and_stop_need_an_installation() {
    let mut service = SystemService::new("porcelet-agent".to_owned());
    assert_eq!(service.start(), Err(ServiceError::ServiceNotInstalled));
    assert_eq!(service.stop(), Err(ServiceError::ServiceNotInstalled));
}

#[test]
fn start_and_stop_are_no_ops_in_other_states() {
    let mut service = SystemService::new("porcelet-agent".to_owned());
    service.install(demo_description()).unwrap();
    // Stopping a stopped service changes nothing.
    service.stop().unwrap();
    assert_eq!(service.status(), Ok(ServiceStatus::Stopped));
    service.start().unwrap();
    service.complete_transition();
    // Starting a running service changes nothing.
    service.start().unwrap();
    service.complete_transition();
    assert_eq!(service.status(), Ok(ServiceStatus::Running));
}

#[test]
fn description_without_installation_fails() {
    let service = SystemService::new("porcelet-agent".to_owned());
    assert_eq!(
        service.description().unwrap_err(),
        ServiceError::ServiceNotInstalled
    );
}

#[test]
fn description_never_reports_launch_arguments() {
    let mut service = SystemService::new("porcelet-agent".to_owned());
    service.install(demo_description()).unwrap();
    let desc = service.description().unwrap();
    assert_eq!(desc.friendly_name, "Porcelet Agent");
    assert_eq!(desc.binary_path, "C:\\porcelet\\porcelet.exe");
    // Launch arguments are not retrievable from the OS registry.
    assert!(desc.args.is_empty());
}

#[test]
fn reinstall_updates_configuration_without_restart() {
    let mut service = SystemService::new("porcelet-agent".to_owned());
    service.install(demo_description()).unwrap();
    service.start().unwrap();
    service.complete_transition();

    let updated = ServiceDescription {
        friendly_name: "Porcelet Agent".to_owned(),
        binary_path: "C:\\porcelet\\new\\porcelet.exe".to_owned(),
        args: vec![],
    };
    service.install(updated).unwrap();
    // The running instance was not restarted.
    assert_eq!(service.status(), Ok(ServiceStatus::Running));
    let desc = service.description().unwrap();
    assert_eq!(desc.binary_path, "C:\\porcelet\\new\\porcelet.exe");
}

#[test]
fn os_errors_map_to_exactly_one_kind() {
    assert_eq!(
        ServiceError::from_os(OsError::InvalidAccountName("bad account".to_owned())),
        ServiceError::InstallationFailed("bad account".to_owned())
    );
    assert_eq!(
        ServiceError::from_os(OsError::InvalidExecutablePath("bad path".to_owned())),
        ServiceError::InstallationFailed("bad path".to_owned())
    );
    assert_eq!(
        ServiceError::from_os(OsError::LaunchArgumentsNotSupported),
        ServiceError::InstallationFailed("launch arguments not supported".to_owned())
    );
    assert_eq!(
        ServiceError::from_os(OsError::InvalidServiceName("nul".to_owned())),
        ServiceError::InvalidServiceName
    );
    assert_eq!(
        ServiceError::from_os(OsError::InvalidMachineName("m".to_owned())),
        ServiceError::UnknownError("m".to_owned())
    );
    assert_eq!(
        ServiceError::from_os(OsError::InvalidServiceState("s".to_owned())),
        ServiceError::UnknownError("s".to_owned())
    );
}

#[test]
fn api_errors_map_by_permission_then_code() {
    assert_eq!(
        ServiceError::from_os(OsError::Api {
            permission_denied: true,
            raw_code: Some(1060),
            detail: "denied".to_owned(),
        }),
        ServiceError::AccessDenied
    );
    assert_eq!(
        ServiceError::from_os(OsError::Api {
            permission_denied: false,
            raw_code: Some(1060),
            detail: "missing".to_owned(),
        }),
        ServiceError::ServiceNotInstalled
    );
    assert_eq!(
        ServiceError::from_os(OsError::Api {
            permission_denied: false,
            raw_code: Some(5),
            detail: "boom".to_owned(),
        }),
        ServiceError::UnknownError("boom".to_owned())
    );
    assert_eq!(
        ServiceError::from_os(OsError::Api {
            permission_denied: false,
            raw_code: None,
            detail: "odd".to_owned(),
        }),
        ServiceError::UnknownError("odd".to_owned())
    );
}

#[test]
fn error_messages() {
    assert_eq!(
        ServiceError::AccessDenied.message(),
        "access to service manager was denied"
    );
    assert_eq!(
        ServiceError::InvalidServiceName.message(),
        "invalid service name"
    );
    assert_eq!(
        ServiceError::InstallationFailed("no disk".to_owned()).message(),
        "failed to install service: no disk"
    );
    assert_eq!(
        ServiceError::ServiceNotInstalled.message(),
        "service is not installed"
    );
    assert_eq!(ServiceError::ServiceRunning.message(), "service is running");
    assert_eq!(
        ServiceError::UnknownError("what".to_owned()).message(),
        "unknown error: what"
    );
}

#[test]
fn probe_interpretation() {
    assert_eq!(
        interpret_status(Ok(RawServiceState::Stopped)),
        Ok(ServiceStatus::Stopped)
    );
    assert_eq!(
        interpret_status(Ok(RawServiceState::Running)),
        Ok(ServiceStatus::Running)
    );
    assert_eq!(
        interpret_status(Ok(RawServiceState::StartPending)),
        Ok(ServiceStatus::Running)
    );
    assert_eq!(
        interpret_status(Ok(RawServiceState::Paused)),
        Ok(ServiceStatus::Running)
    );
    assert_eq!(
        interpret_status(Err(ServiceError::ServiceNotInstalled)),
        Ok(ServiceStatus::Uninstalled)
    );
    assert_eq!(
        interpret_status(Err(ServiceError::AccessDenied)),
        Err(ServiceError::InstallationFailed(
            "access to service manager was denied".to_owned()
        ))
    );
}
