use porcelet::cli::{
    assess_probe, command_exit_code, install_description, service_exit_code, AgentSubcommand,
    CliArgs, CliSubcommand, ProbeAssessment,
};
use porcelet::service::{ServiceStatus, SystemService};

#[test]
fn status_with_no_agent_ever_installed() {
    let service = SystemService::new("porcelet-agent".to_owned());
    assert_eq!(service.status(), Ok(ServiceStatus::Uninstalled));
    // The direct probe finds nothing listening; with the service not
    // believed running that is no failure.
    assert_eq!(
        assess_probe(ServiceStatus::Uninstalled, None),
        ProbeAssessment::NotRunning
    );
}

#[test]
fn probe_reporting() {
    assert_eq!(
        assess_probe(ServiceStatus::Running, Some(7)),
        ProbeAssessment::Reported {
            counter: 7,
            unexpected: false,
        }
    );
    // An agent answering outside the service manager is reported with a
    // warning, for testing setups.
    assert_eq!(
        assess_probe(ServiceStatus::Stopped, Some(3)),
        ProbeAssessment::Reported {
            counter: 3,
            unexpected: true,
        }
    );
    assert_eq!(
        assess_probe(ServiceStatus::Running, None),
        ProbeAssessment::LivenessFailure
    );
    assert_eq!(
        assess_probe(ServiceStatus::Stopped, None),
        ProbeAssessment::NotRunning
    );
}

#[test]
fn install_description_registers_the_service_run_loop() {
    let desc = install_description("C:\\porcelet\\porcelet.exe".to_owned());
    assert_eq!(desc.friendly_name, "Porcelet Agent");
    assert_eq!(desc.binary_path, "C:\\porcelet\\porcelet.exe");
    assert_eq!(
        desc.args,
        vec!["agent".to_owned(), "run-windows-service".to_owned()]
    );
}

#[test]
fn exit_codes() {
    assert_eq!(command_exit_code(true), 0);
    assert_eq!(command_exit_code(false), 1);
    assert_eq!(service_exit_code(true, true), 0);
    assert_eq!(service_exit_code(true, false), 1);
    assert_eq!(service_exit_code(false, true), 2);
    assert_eq!(service_exit_code(false, false), 2);
}

#[test]
fn subcommand_vocabulary_carries_over() {
    let args = CliArgs {
        subcommand: CliSubcommand::Agent {
            agent_subcommand: AgentSubcommand::Run,
        },
    };
    match args.subcommand {
        CliSubcommand::Agent { agent_subcommand } => {
            assert_eq!(agent_subcommand, AgentSubcommand::Run);
        }
        CliSubcommand::Status => panic!("expected the agent subcommand"),
    }
}
