//! Service lifecycle manager: a state machine over {Uninstalled, Stopped,
//! Running}, driven against a model of the OS service registry, plus the
//! closed error taxonomy and the mapper from OS-level failures into it.

use vstd::prelude::*;
use vstd::string::StringExecFns;

verus! {

/// The raw OS error code the service manager answers with when the named
/// service does not exist in the registry.
pub const SERVICE_DOES_NOT_EXIST_CODE: i32 = 1060;

/// A failure reported by the OS service manager API, reduced to what the
/// error mapping reads: which configuration field was rejected, or, for a
/// plain API failure, whether it was a permission denial, its raw OS error
/// code, and its rendered detail text.
pub enum OsError {
    InvalidAccountName(String),
    InvalidAccountPassword(String),
    InvalidDisplayName(String),
    InvalidDatabaseName(String),
    InvalidExecutablePath(String),
    InvalidLaunchArgument(String),
    LaunchArgumentsNotSupported,
    InvalidDependency(String),
    InvalidMachineName(String),
    InvalidServiceName(String),
    InvalidStartArgument(String),
    InvalidServiceState(String),
    InvalidServiceStartType(String),
    InvalidServiceErrorControl(String),
    InvalidServiceActionType(String),
    InvalidServiceActionFailuresRebootMessage(String),
    InvalidServiceActionFailuresCommand(String),
    InvalidServiceDescription(String),
    /// A Win32 API call failed: `permission_denied` says whether the OS
    /// classified it as a permission failure, `raw_code` is its raw OS
    /// error code, and `detail` its rendered text.
    Api { permission_denied: bool, raw_code: Option<i32>, detail: String },
}

/// The `ServiceError` that the OS failure `err` maps to. Every OS-level
/// error maps to exactly one kind; no raw OS error escapes the boundary.
///
/// `LaunchArgumentsNotSupported` carries no detail of its own; its fixed
/// message cannot be built in specification code, so `ServiceError::from_os`
/// pins it by view instead, and this function leaves that variant out.
pub open spec fn map_os_error_spec(err: OsError) -> ServiceError
    recommends
        !(err is LaunchArgumentsNotSupported),
{
    match err {
        OsError::InvalidAccountName(detail) => ServiceError::InstallationFailed(detail),
        OsError::InvalidAccountPassword(detail) => ServiceError::InstallationFailed(detail),
        OsError::InvalidDisplayName(detail) => ServiceError::InstallationFailed(detail),
        OsError::InvalidDatabaseName(detail) => ServiceError::InstallationFailed(detail),
        OsError::InvalidExecutablePath(detail) => ServiceError::InstallationFailed(detail),
        OsError::InvalidLaunchArgument(detail) => ServiceError::InstallationFailed(detail),
        OsError::LaunchArgumentsNotSupported => arbitrary(),
        OsError::InvalidDependency(detail) => ServiceError::InstallationFailed(detail),
        OsError::InvalidMachineName(detail) => ServiceError::UnknownError(detail),
        OsError::InvalidServiceName(_) => ServiceError::InvalidServiceName,
        OsError::InvalidStartArgument(detail) => ServiceError::UnknownError(detail),
        OsError::InvalidServiceState(detail) => ServiceError::UnknownError(detail),
        OsError::InvalidServiceStartType(detail) => ServiceError::UnknownError(detail),
        OsError::InvalidServiceErrorControl(detail) => ServiceError::UnknownError(detail),
        OsError::InvalidServiceActionType(detail) => ServiceError::UnknownError(detail),
        OsError::InvalidServiceActionFailuresRebootMessage(detail) => ServiceError::UnknownError(
            detail,
        ),
        OsError::InvalidServiceActionFailuresCommand(detail) => ServiceError::UnknownError(detail),
        OsError::InvalidServiceDescription(detail) => ServiceError::InstallationFailed(detail),
        OsError::Api { permission_denied, raw_code, detail } => {
            if permission_denied {
                ServiceError::AccessDenied
            } else if raw_code == Option::Some(SERVICE_DOES_NOT_EXIST_CODE) {
                ServiceError::ServiceNotInstalled
            } else {
                ServiceError::UnknownError(detail)
            }
        },
    }
}

/// System service management errors.
///
/// This closed taxonomy is the only error vocabulary surfaced past the
/// lifecycle manager boundary; raw OS errors are mapped into it exactly once.
#[derive(Debug, Clone, PartialEq, Eq)]
pub enum ServiceError {
    /// Process does not have valid permissions to interact with the
    /// service manager.
    AccessDenied,
    /// The service name is not valid.
    InvalidServiceName,
    /// Installation of the service failed.
    InstallationFailed(String),
    /// The service is not installed into the OS service manager.
    ServiceNotInstalled,
    /// The service is running and cannot be uninstalled.
    ServiceRunning,
    /// An unknown error occurred.
    UnknownError(String),
}

impl ServiceError {
    /// Convert an OS service manager failure into a ServiceError.
    ///
    /// This is the single place raw OS errors cross into the taxonomy.
    pub fn from_os(err: OsError) -> (r: ServiceError)
        ensures
            match err {
                OsError::LaunchArgumentsNotSupported => r matches ServiceError::InstallationFailed(
                    d,
                ) && d@ == "launch arguments not supported"@,
                _ => r == map_os_error_spec(err),
            },
    {
        match err {
            OsError::InvalidAccountName(detail) => ServiceError::InstallationFailed(detail),
            OsError::InvalidAccountPassword(detail) => ServiceError::InstallationFailed(detail),
            OsError::InvalidDisplayName(detail) => ServiceError::InstallationFailed(detail),
            OsError::InvalidDatabaseName(detail) => ServiceError::InstallationFailed(detail),
            OsError::InvalidExecutablePath(detail) => ServiceError::InstallationFailed(detail),
            OsError::InvalidLaunchArgument(detail) => ServiceError::InstallationFailed(detail),
            OsError::LaunchArgumentsNotSupported => ServiceError::InstallationFailed(
                "launch arguments not supported".to_owned(),
            ),
            OsError::InvalidDependency(detail) => ServiceError::InstallationFailed(detail),
            OsError::InvalidMachineName(detail) => ServiceError::UnknownError(detail),
            OsError::InvalidServiceName(_) => ServiceError::InvalidServiceName,
            OsError::InvalidStartArgument(detail) => ServiceError::UnknownError(detail),
            OsError::InvalidServiceState(detail) => ServiceError::UnknownError(detail),
            OsError::InvalidServiceStartType(detail) => ServiceError::UnknownError(detail),
            OsError::InvalidServiceErrorControl(detail) => ServiceError::UnknownError(detail),
            OsError::InvalidServiceActionType(detail) => ServiceError::UnknownError(detail),
            OsError::InvalidServiceActionFailuresRebootMessage(detail) => ServiceError::UnknownError(
                detail,
            ),
            OsError::InvalidServiceActionFailuresCommand(detail) => ServiceError::UnknownError(
                detail,
            ),
            OsError::InvalidServiceDescription(detail) => ServiceError::InstallationFailed(detail),
            OsError::Api { permission_denied, raw_code, detail } => {
                if permission_denied {
                    ServiceError::AccessDenied
                } else {
                    match raw_code {
                        Some(code) => {
                            if code == SERVICE_DOES_NOT_EXIST_CODE {
                                ServiceError::ServiceNotInstalled
                            } else {
                                ServiceError::UnknownError(detail)
                            }
                        },
                        None => ServiceError::UnknownError(detail),
                    }
                }
            },
        }
    }

    /// The error's human-readable message.
    pub open spec fn message_spec(&self) -> Seq<char> {
        match self {
            ServiceError::AccessDenied => "access to service manager was denied"@,
            ServiceError::InvalidServiceName => "invalid service name"@,
            ServiceError::InstallationFailed(detail) => "failed to install service: "@ + detail@,
            ServiceError::ServiceNotInstalled => "service is not installed"@,
            ServiceError::ServiceRunning => "service is running"@,
            ServiceError::UnknownError(detail) => "unknown error: "@ + detail@,
        }
    }

    /// The error's human-readable message.
    pub fn message(&self) -> (r: String)
        ensures
            r@ == self.message_spec(),
    {
        match self {
            ServiceError::AccessDenied => "access to service manager was denied".to_owned(),
            ServiceError::InvalidServiceName => "invalid service name".to_owned(),
            ServiceError::InstallationFailed(detail) => "failed to install service: ".to_owned()
                .concat(detail.as_str()),
            ServiceError::ServiceNotInstalled => "service is not installed".to_owned(),
            ServiceError::ServiceRunning => "service is running".to_owned(),
            ServiceError::UnknownError(detail) => "unknown error: ".to_owned().concat(
                detail.as_str(),
            ),
        }
    }
}

/// System service status, as reported to callers.
#[derive(PartialEq, Eq, Structural, Debug, Clone, Copy)]
pub enum ServiceStatus {
    /// Service is not installed into the OS service manager.
    Uninstalled,
    /// Service process is not running, but is installed.
    Stopped,
    /// Service process is running, but may be in the process of shutting down.
    Running,
}

/// The OS service manager's own, finer state vocabulary. The lifecycle
/// manager deliberately coarsens it: everything but `Stopped` is reported
/// as running.
#[derive(PartialEq, Eq, Structural, Debug, Clone, Copy)]
pub enum RawServiceState {
    Stopped,
    StartPending,
    StopPending,
    Running,
    ContinuePending,
    PausePending,
    Paused,
}

/// Service installation details.
#[derive(Debug)]
pub struct ServiceDescription {
    /// Friendly/display name for the service.
    pub friendly_name: String,
    /// Path to the service binary.
    pub binary_path: String,
    /// Arguments to the service binary.
    pub args: Vec<String>,
}

/// What the OS service registry holds for one registered service: its
/// configuration and its current raw state.
pub struct ServiceRecord {
    pub friendly_name: String,
    pub binary_path: String,
    pub args: Vec<String>,
    pub state: RawServiceState,
}

/// The deliberate coarsening of the OS state vocabulary: a stopped service
/// is stopped, and any other state, transitional states included, is
/// reported as running.
pub open spec fn coarse_status(state: RawServiceState) -> ServiceStatus {
    if state == RawServiceState::Stopped {
        ServiceStatus::Stopped
    } else {
        ServiceStatus::Running
    }
}

/// The status that the registry entry `entry` is reported as: absent means
/// uninstalled, otherwise the record's raw state is coarsened.
pub open spec fn status_of(entry: Option<ServiceRecord>) -> ServiceStatus {
    match entry {
        Option::None => ServiceStatus::Uninstalled,
        Option::Some(rec) => coarse_status(rec.state),
    }
}

/// How a raw probe of the OS registry becomes the reported status: a state
/// answer is coarsened, a not-installed failure is the Uninstalled status
/// rather than an error, and any other failure surfaces with its message.
pub fn interpret_status(probe: Result<RawServiceState, ServiceError>) -> (r: Result<
    ServiceStatus,
    ServiceError,
>)
    ensures
        probe matches Ok(state) ==> r == Ok::<ServiceStatus, ServiceError>(coarse_status(state)),
        probe == Err::<RawServiceState, ServiceError>(ServiceError::ServiceNotInstalled) ==> r
            == Ok::<ServiceStatus, ServiceError>(ServiceStatus::Uninstalled),
        (probe matches Err(e) && !(e is ServiceNotInstalled)) ==> (r matches Err(
            ServiceError::InstallationFailed(d),
        ) && d@ == probe->Err_0.message_spec()),
    {
    match probe {
        Ok(state) => {
            if state == RawServiceState::Stopped {
                Ok(ServiceStatus::Stopped)
            } else {
                Ok(ServiceStatus::Running)
            }
        },
        Err(err) => {
            match err {
                ServiceError::ServiceNotInstalled => Ok(ServiceStatus::Uninstalled),
                e => Err(ServiceError::InstallationFailed(e.message())),
            }
        },
    }
}

/// Registry entry after installing `desc`: the configuration is created or
/// replaced with launch arguments as given, and a running instance is not
/// restarted — an existing entry keeps its raw state, a new one starts
/// stopped.
pub open spec fn install_effect(entry: Option<ServiceRecord>, desc: ServiceDescription) -> Option<
    ServiceRecord,
> {
    Option::Some(
        ServiceRecord {
            friendly_name: desc.friendly_name,
            binary_path: desc.binary_path,
            args: desc.args,
            state: match entry {
                Option::Some(rec) => rec.state,
                Option::None => RawServiceState::Stopped,
            },
        },
    )
}

/// Registry entry after a start request is acknowledged: a stopped service
/// begins its start transition; a service already in the target state or
/// mid-transition is left alone.
pub open spec fn start_effect(entry: Option<ServiceRecord>) -> Option<ServiceRecord> {
    match entry {
        Option::Some(rec) => if rec.state == RawServiceState::Stopped {
            Option::Some(ServiceRecord { state: RawServiceState::StartPending, ..rec })
        } else {
            entry
        },
        Option::None => entry,
    }
}

/// Registry entry after a stop request is acknowledged: a running service
/// begins its stop transition; a service already in the target state or
/// mid-transition is left alone.
pub open spec fn stop_effect(entry: Option<ServiceRecord>) -> Option<ServiceRecord> {
    match entry {
        Option::Some(rec) => if rec.state == RawServiceState::Running {
            Option::Some(ServiceRecord { state: RawServiceState::StopPending, ..rec })
        } else {
            entry
        },
        Option::None => entry,
    }
}

/// Registry entry once the OS service host has driven a pending transition
/// to its target state. Start and stop requests are acknowledged before the
/// transition completes, so callers poll the status until it settles; this
/// is the settling the polling waits for.
pub open spec fn settle_effect(entry: Option<ServiceRecord>) -> Option<ServiceRecord> {
    match entry {
        Option::Some(rec) => match rec.state {
            RawServiceState::StartPending => Option::Some(
                ServiceRecord { state: RawServiceState::Running, ..rec },
            ),
            RawServiceState::ContinuePending => Option::Some(
                ServiceRecord { state: RawServiceState::Running, ..rec },
            ),
            RawServiceState::StopPending => Option::Some(
                ServiceRecord { state: RawServiceState::Stopped, ..rec },
            ),
            RawServiceState::PausePending => Option::Some(
                ServiceRecord { state: RawServiceState::Paused, ..rec },
            ),
            _ => entry,
        },
        Option::None => entry,
    }
}

/// Law: the lifecycle as `status` reports it. A service never installed is
/// Uninstalled; right after install it is Stopped; after a start request it
/// is Running (transitional states are already coarsened to Running) and
/// stays Running once the transition settles; after a stop request it still
/// reports Running until the transition settles, and Stopped afterwards.
pub proof fn lemma_lifecycle_round(desc: ServiceDescription)
    ensures
        status_of(Option::None) == ServiceStatus::Uninstalled,
        status_of(install_effect(Option::None, desc)) == ServiceStatus::Stopped,
        status_of(start_effect(install_effect(Option::None, desc))) == ServiceStatus::Running,
        status_of(settle_effect(start_effect(install_effect(Option::None, desc))))
            == ServiceStatus::Running,
        status_of(stop_effect(settle_effect(start_effect(install_effect(Option::None, desc)))))
            == ServiceStatus::Running,
        status_of(
            settle_effect(
                stop_effect(settle_effect(start_effect(install_effect(Option::None, desc)))),
            ),
        ) == ServiceStatus::Stopped,
{
}

/// System service manager.
///
/// Used to [un]install, query, and manage a system service. The manager
/// carries a model of the single registry entry it manages; the platform
/// layer replaces this model with the real OS service registry and drives
/// the same transitions.
pub struct SystemService {
    name: String,
    registry: Option<ServiceRecord>,
}

impl SystemService {
    /// The service name this manager operates on.
    pub closed spec fn name_spec(&self) -> Seq<char> {
        self.name@
    }

    /// The registry entry for the managed service, if any.
    pub closed spec fn registry_spec(&self) -> Option<ServiceRecord> {
        self.registry
    }

    /// The status the managed service would be reported as right now.
    pub open spec fn status_spec(&self) -> ServiceStatus {
        status_of(self.registry_spec())
    }

    /// Create a new SystemService to interact with the service `name`,
    /// starting from a registry that has never seen the service.
    pub fn new(name: String) -> (s: Self)
        ensures
            s.name_spec() == name@,
            s.registry_spec() is None,
    {
        SystemService { name, registry: None }
    }

    /// Query the status of the service, fresh from the registry entry and
    /// never cached. Probing the model registry cannot itself fail; how a
    /// platform probe's failures surface is `interpret_status`.
    pub fn status(&self) -> (r: Result<ServiceStatus, ServiceError>)
        ensures
            r == Ok::<ServiceStatus, ServiceError>(self.status_spec()),
    {
        match &self.registry {
            None => Ok(ServiceStatus::Uninstalled),
            Some(rec) => {
                if rec.state == RawServiceState::Stopped {
                    Ok(ServiceStatus::Stopped)
                } else {
                    Ok(ServiceStatus::Running)
                }
            },
        }
    }

    /// Get the service description for this service.
    ///
    /// Fails if the service is not installed. Launch arguments are not
    /// retrievable from the OS registry and are always reported empty.
    pub fn description(&self) -> (r: Result<ServiceDescription, ServiceError>)
        ensures
            self.registry_spec() is None ==> r == Err::<ServiceDescription, ServiceError>(
                ServiceError::ServiceNotInstalled,
            ),
            self.registry_spec() matches Some(rec) ==> {
                &&& r matches Ok(d)
                &&& d.friendly_name == rec.friendly_name
                &&& d.binary_path == rec.binary_path
                &&& d.args@ == Seq::<String>::empty()
            },
    {
        match &self.registry {
            None => Err(ServiceError::ServiceNotInstalled),
            Some(rec) => Ok(
                ServiceDescription {
                    friendly_name: rec.friendly_name.clone(),
                    binary_path: rec.binary_path.clone(),
                    args: Vec::new(),
                },
            ),
        }
    }

    /// Install the service.
    ///
    /// Registers the service (auto-start, own process) or, if it is already
    /// installed, updates its configuration without restarting a running
    /// instance. Returns the resulting description; launch arguments are
    /// reported empty, as `description` reports them.
    pub fn install(&mut self, description: ServiceDescription) -> (r: Result<
        ServiceDescription,
        ServiceError,
    >)
        ensures
            final(self).name_spec() == old(self).name_spec(),
            final(self).registry_spec() == install_effect(old(self).registry_spec(), description),
            r matches Ok(d) && d.friendly_name == description.friendly_name
                && d.binary_path == description.binary_path && d.args@ == Seq::<String>::empty(),
    {
        let state = match &self.registry {
            Some(rec) => rec.state,
            None => RawServiceState::Stopped,
        };
        let returned = ServiceDescription {
            friendly_name: description.friendly_name.clone(),
            binary_path: description.binary_path.clone(),
            args: Vec::new(),
        };
        self.registry = Some(
            ServiceRecord {
                friendly_name: description.friendly_name,
                binary_path: description.binary_path,
                args: description.args,
                state,
            },
        );
        Ok(returned)
    }

    /// Uninstall the service.
    ///
    /// Fails with `ServiceRunning` if the service is reported running, and
    /// then leaves the registration intact: there is no implicit
    /// stop-then-uninstall sequencing, callers must stop first. Fails with
    /// `ServiceNotInstalled` if there is nothing to delete.
    pub fn uninstall(&mut self) -> (r: Result<(), ServiceError>)
        ensures
            old(self).status_spec() == ServiceStatus::Running ==> r == Err::<(), ServiceError>(
                ServiceError::ServiceRunning,
            ) && *final(self) == *old(self),
            old(self).status_spec() == ServiceStatus::Uninstalled ==> r == Err::<(), ServiceError>(
                ServiceError::ServiceNotInstalled,
            ) && *final(self) == *old(self),
            old(self).status_spec() == ServiceStatus::Stopped ==> r == Ok::<(), ServiceError>(())
                && final(self).registry_spec() is None && final(self).name_spec() == old(self).name_spec(),
    {
        let status = match self.status() {
            Ok(status) => status,
            Err(err) => {
                return Err(err);
            },
        };
        if status == ServiceStatus::Running {
            return Err(ServiceError::ServiceRunning);
        }
        if status == ServiceStatus::Uninstalled {
            return Err(ServiceError::ServiceNotInstalled);
        }
        self.registry = None;
        Ok(())
    }

    /// Start the service.
    ///
    /// This queues a start for the service and returns as soon as the
    /// request is acknowledged, without waiting for the transition to
    /// complete; confirm with `status`. If the service is already running
    /// or mid-transition this has no effect. Fails if the service is not
    /// installed.
    pub fn start(&mut self) -> (r: Result<(), ServiceError>)
        ensures
            final(self).name_spec() == old(self).name_spec(),
            old(self).registry_spec() is None ==> r == Err::<(), ServiceError>(
                ServiceError::ServiceNotInstalled,
            ) && *final(self) == *old(self),
            old(self).registry_spec() is Some ==> r == Ok::<(), ServiceError>(()) && final(self).registry_spec() == start_effect(old(self).registry_spec()),
    {
        match &mut self.registry {
            None => Err(ServiceError::ServiceNotInstalled),
            Some(rec) => {
                if rec.state == RawServiceState::Stopped {
                    rec.state = RawServiceState::StartPending;
                }
                Ok(())
            },
        }
    }

    /// Stop the service.
    ///
    /// This queues a stop for the service and returns as soon as the
    /// request is acknowledged, without waiting for the transition to
    /// complete; confirm with `status`. If the service is already stopped
    /// or mid-transition this has no effect. Fails if the service is not
    /// installed.
    pub fn stop(&mut self) -> (r: Result<(), ServiceError>)
        ensures
            final(self).name_spec() == old(self).name_spec(),
            old(self).registry_spec() is None ==> r == Err::<(), ServiceError>(
                ServiceError::ServiceNotInstalled,
            ) && *final(self) == *old(self),
            old(self).registry_spec() is Some ==> r == Ok::<(), ServiceError>(()) && final(self).registry_spec() == stop_effect(old(self).registry_spec()),
    {
        match &mut self.registry {
            None => Err(ServiceError::ServiceNotInstalled),
            Some(rec) => {
                if rec.state == RawServiceState::Running {
                    rec.state = RawServiceState::StopPending;
                }
                Ok(())
            },
        }
    }

    /// Let a pending transition reach its target state.
    ///
    /// Start and stop are request-only, so callers poll `status` until the
    /// service settles; this models the OS service host completing the
    /// pending transition between two such polls. It is not an operator
    /// action.
    pub fn complete_transition(&mut self)
        ensures
            final(self).name_spec() == old(self).name_spec(),
            final(self).registry_spec() == settle_effect(old(self).registry_spec()),
    {
        match &mut self.registry {
            None => (),
            Some(rec) => {
                match rec.state {
                    RawServiceState::StartPending => {
                        rec.state = RawServiceState::Running;
                    },
                    RawServiceState::ContinuePending => {
                        rec.state = RawServiceState::Running;
                    },
                    RawServiceState::StopPending => {
                        rec.state = RawServiceState::Stopped;
                    },
                    RawServiceState::PausePending => {
                        rec.state = RawServiceState::Paused;
                    },
                    _ => (),
                }
            },
        }
    }
}

} // verus!
