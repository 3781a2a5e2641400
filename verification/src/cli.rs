//! Operator-facing command surface: the subcommand vocabulary and the pure
//! decisions behind the status report and the process exit codes. Argument
//! parsing and dispatch themselves are thin glue and stay outside the
//! library.

use vstd::prelude::*;

use crate::agent::SERVICE_DISPLAY_NAME;
use crate::service::ServiceDescription;
use crate::service::ServiceStatus;

verus! {

/// Top-level command-line arguments.
#[derive(Debug)]
pub struct CliArgs {
    pub subcommand: CliSubcommand,
}

/// Top-level subcommands.
#[derive(Debug)]
pub enum CliSubcommand {
    /// Control the porcelet agent.
    Agent { agent_subcommand: AgentSubcommand },
    /// Show the status of the porcelet agent.
    Status,
}

/// Agent control subcommands.
#[derive(PartialEq, Eq, Structural, Debug, Clone, Copy)]
pub enum AgentSubcommand {
    /// Install the porcelet agent service on the machine.
    Install,
    /// Uninstall the porcelet agent service on the machine.
    Uninstall,
    /// Start the porcelet agent service.
    Start,
    /// Stop the porcelet agent service.
    Stop,
    /// Run the agent run-loop as a plain process, for testing.
    Run,
    /// Run the agent under the OS service host's control callback.
    RunWindowsService,
}

/// What the status command reports, decided from the lifecycle status and
/// the outcome of a direct liveness probe of the agent's pipe.
#[derive(PartialEq, Eq, Structural, Debug, Clone, Copy)]
pub enum ProbeAssessment {
    /// The probe answered: report this counter value. `unexpected` notes an
    /// agent that answered although the service manager does not believe it
    /// is running; that is logged as a warning, not a failure.
    Reported { counter: u64, unexpected: bool },
    /// The probe failed and the service is not believed running: nothing to
    /// report, and not a failure.
    NotRunning,
    /// The probe failed although the service is believed running: a
    /// reportable failure.
    LivenessFailure,
}

/// Decide the status report. A successful probe is always reported, with a
/// warning when the service manager did not believe the service running; a
/// failed probe is a failure exactly when it did.
pub fn assess_probe(service_status: ServiceStatus, probe: Option<u64>) -> (r: ProbeAssessment)
    ensures
        probe matches Some(counter) ==> r == (ProbeAssessment::Reported {
            counter,
            unexpected: service_status != ServiceStatus::Running,
        }),
        probe is None && service_status == ServiceStatus::Running ==> r
            == ProbeAssessment::LivenessFailure,
        probe is None && service_status != ServiceStatus::Running ==> r
            == ProbeAssessment::NotRunning,
{
    match probe {
        Some(counter) => ProbeAssessment::Reported {
            counter,
            unexpected: service_status != ServiceStatus::Running,
        },
        None => {
            if service_status == ServiceStatus::Running {
                ProbeAssessment::LivenessFailure
            } else {
                ProbeAssessment::NotRunning
            }
        },
    }
}

/// The registration the install command asks for: the agent's display name,
/// the path of the installed binary, and the launch arguments that make the
/// binary run its loop under the OS service host.
pub fn install_description(binary_path: String) -> (d: ServiceDescription)
    ensures
        d.friendly_name@ == SERVICE_DISPLAY_NAME@,
        d.binary_path == binary_path,
        d.args@.len() == 2,
        d.args@[0]@ == "agent"@,
        d.args@[1]@ == "run-windows-service"@,
{
    let mut args: Vec<String> = Vec::new();
    args.push("agent".to_owned());
    args.push("run-windows-service".to_owned());
    ServiceDescription { friendly_name: SERVICE_DISPLAY_NAME.to_owned(), binary_path, args }
}

/// Exit code of a whole command: zero on success, one once the failure has
/// been reported.
pub fn command_exit_code(ok: bool) -> (c: i32)
    ensures
        ok <==> c == 0,
        !ok ==> c == 1,
{
    if ok {
        0
    } else {
        1
    }
}

/// The exit code the OS service host is told when the agent run ends: zero
/// for a clean exit, one when the agent loop failed, two when the async
/// runtime could not be started at all.
pub fn service_exit_code(runtime_started: bool, agent_ok: bool) -> (c: u32)
    ensures
        runtime_started && agent_ok ==> c == 0,
        runtime_started && !agent_ok ==> c == 1,
        !runtime_started ==> c == 2,
{
    if !runtime_started {
        2
    } else if agent_ok {
        0
    } else {
        1
    }
}

} // verus!
