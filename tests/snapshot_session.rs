use stasis::{Channel, Command, ConnectFault, Failure, Reply, SnapshotFault, SnapshotSession, ThawOutcome};

/// Outcomes that a simulated pair of channels hands back, one per operation.
struct Simulated {
    agent_present: bool,
    monitor_present: bool,
    monitor_connect: Result<(), ConnectFault>,
    agent_connect: Result<(), ConnectFault>,
    negotiate: Result<(), String>,
    freeze: Result<u64, String>,
    save_state: Result<String, String>,
    thaw: Result<u64, String>,
    power_down: Result<(), String>,
}

impl Simulated {
    fn healthy() -> Simulated {
        Simulated {
            agent_present: true,
            monitor_present: true,
            monitor_connect: Ok(()),
            agent_connect: Ok(()),
            negotiate: Ok(()),
            freeze: Ok(2),
            save_state: Ok(String::new()),
            thaw: Ok(2),
            power_down: Ok(()),
        }
    }

    fn reply(&self, command: Command) -> Reply {
        match command {
            Command::CheckEndpoint(Channel::Agent) => Reply::EndpointChecked { present: self.agent_present },
            Command::CheckEndpoint(Channel::Monitor) => Reply::EndpointChecked { present: self.monitor_present },
            Command::Connect(Channel::Monitor) => Reply::Connected(self.monitor_connect.clone()),
            Command::Connect(Channel::Agent) => Reply::Connected(self.agent_connect.clone()),
            Command::Negotiate => Reply::Negotiated(self.negotiate.clone()),
            Command::Freeze => Reply::Frozen(self.freeze.clone()),
            Command::SaveState => Reply::SaveStateAnswered(self.save_state.clone()),
            Command::Thaw => Reply::Thawed(self.thaw.clone()),
            Command::PowerDown => Reply::PoweredDown(self.power_down.clone()),
            Command::Finish => unreachable!(),
        }
    }

    /// Runs a whole session; returns every command issued and the outcome.
    fn run(&self) -> (Vec<Command>, Result<(), Failure>) {
        let mut session = SnapshotSession::new("vm_snapshot_latest".to_string());
        let mut command = session.command();
        let mut issued = vec![command];
        while command != Command::Finish {
            let reply = self.reply(command);
            assert!(command.answers(&reply));
            command = session.advance(reply);
            issued.push(command);
        }
        (issued, session.into_outcome())
    }
}

fn count(issued: &[Command], c: Command) -> usize {
    issued.iter().filter(|x| **x == c).count()
}

#[test]
fn happy_path_completes() {
    let (issued, outcome) = Simulated::healthy().run();
    assert_eq!(outcome, Ok(()));
    assert_eq!(
        issued,
        vec![
            Command::CheckEndpoint(Channel::Agent),
            Command::CheckEndpoint(Channel::Monitor),
            Command::Connect(Channel::Monitor),
            Command::Connect(Channel::Agent),
            Command::Negotiate,
            Command::Freeze,
            Command::SaveState,
            Command::Thaw,
            Command::PowerDown,
            Command::Finish,
        ]
    );
}

#[test]
fn save_state_command_names_the_snapshot() {
    let session = SnapshotSession::new("vm_snapshot_latest".to_string());
    assert_eq!(session.save_state_command_line(), "savevm vm_snapshot_latest");
    let other = SnapshotSession::new("nightly".to_string());
    assert_eq!(other.save_state_command_line(), "savevm nightly");
}

#[test]
fn missing_monitor_socket_fails_before_connecting() {
    let mut sim = Simulated::healthy();
    sim.monitor_present = false;
    let (issued, outcome) = sim.run();
    assert_eq!(outcome, Err(Failure::EndpointMissing { channel: Channel::Monitor }));
    assert!(!issued.iter().any(|c| matches!(c, Command::Connect(_))));
}

#[test]
fn missing_agent_socket_fails_first() {
    let mut sim = Simulated::healthy();
    sim.agent_present = false;
    sim.monitor_present = false;
    let (issued, outcome) = sim.run();
    assert_eq!(outcome, Err(Failure::EndpointMissing { channel: Channel::Agent }));
    assert_eq!(issued, vec![Command::CheckEndpoint(Channel::Agent), Command::Finish]);
}

#[test]
fn snapshot_error_text_still_thaws() {
    let mut sim = Simulated::healthy();
    sim.save_state = Ok("Error: no space left".to_string());
    let (issued, outcome) = sim.run();
    assert_eq!(count(&issued, Command::Thaw), 1);
    assert_eq!(count(&issued, Command::PowerDown), 0);
    assert_eq!(
        outcome,
        Err(Failure::SnapshotFailed {
            fault: SnapshotFault::ErrorReported { response: "Error: no space left".to_string() },
            thaw: ThawOutcome::Thawed { count: 2 },
        })
    );
}

#[test]
fn snapshot_and_thaw_failures_are_both_reported() {
    let mut sim = Simulated::healthy();
    sim.save_state = Err("connection reset".to_string());
    sim.thaw = Err("agent gone".to_string());
    let (issued, outcome) = sim.run();
    assert_eq!(count(&issued, Command::Thaw), 1);
    assert_eq!(
        outcome,
        Err(Failure::SnapshotFailed {
            fault: SnapshotFault::MonitorCommandFailed { cause: "connection reset".to_string() },
            thaw: ThawOutcome::ThawFailed { cause: "agent gone".to_string() },
        })
    );
}

#[test]
fn handshake_failure_never_freezes_or_thaws() {
    let mut sim = Simulated::healthy();
    sim.negotiate = Err("bad greeting".to_string());
    let (issued, outcome) = sim.run();
    assert_eq!(outcome, Err(Failure::HandshakeFailed { cause: "bad greeting".to_string() }));
    assert_eq!(count(&issued, Command::Freeze), 0);
    assert_eq!(count(&issued, Command::Thaw), 0);
}

#[test]
fn any_non_empty_response_is_a_failure() {
    for text in [" ", "ok", "Snapshot saved"] {
        let mut sim = Simulated::healthy();
        sim.save_state = Ok(text.to_string());
        let (_, outcome) = sim.run();
        match outcome {
            Err(Failure::SnapshotFailed { fault: SnapshotFault::ErrorReported { response }, .. }) => {
                assert_eq!(response, text)
            }
            other => panic!("unexpected outcome {:?}", other),
        }
    }
}

#[test]
fn monitor_connect_refused_is_unreachable() {
    let mut sim = Simulated::healthy();
    sim.monitor_connect = Err(ConnectFault::Unreachable { cause: "refused".to_string() });
    let (issued, outcome) = sim.run();
    assert_eq!(
        outcome,
        Err(Failure::EndpointUnreachable { channel: Channel::Monitor, cause: "refused".to_string() })
    );
    assert_eq!(count(&issued, Command::Connect(Channel::Agent)), 0);
}

#[test]
fn agent_timeout_setting_failure_is_configuration_error() {
    let mut sim = Simulated::healthy();
    sim.agent_connect = Err(ConnectFault::Configuration { cause: "EINVAL".to_string() });
    let (issued, outcome) = sim.run();
    assert_eq!(
        outcome,
        Err(Failure::ConfigurationError { channel: Channel::Agent, cause: "EINVAL".to_string() })
    );
    assert_eq!(count(&issued, Command::Negotiate), 0);
}

#[test]
fn freeze_failure_owes_no_thaw() {
    let mut sim = Simulated::healthy();
    sim.freeze = Err("fsfreeze not supported".to_string());
    let (issued, outcome) = sim.run();
    assert_eq!(outcome, Err(Failure::FreezeFailed { cause: "fsfreeze not supported".to_string() }));
    assert_eq!(count(&issued, Command::Thaw), 0);
    assert_eq!(count(&issued, Command::SaveState), 0);
}

#[test]
fn thaw_failure_after_good_snapshot_stops_before_power_down() {
    let mut sim = Simulated::healthy();
    sim.thaw = Err("timed out".to_string());
    let (issued, outcome) = sim.run();
    assert_eq!(outcome, Err(Failure::ThawFailed { cause: "timed out".to_string() }));
    assert_eq!(count(&issued, Command::PowerDown), 0);
}

#[test]
fn power_down_failure_is_reported() {
    let mut sim = Simulated::healthy();
    sim.power_down = Err("no ACPI".to_string());
    let (_, outcome) = sim.run();
    assert_eq!(outcome, Err(Failure::ShutdownRequestFailed { cause: "no ACPI".to_string() }));
}

#[test]
fn replies_answer_only_their_command() {
    assert!(Command::Thaw.answers(&Reply::Thawed(Ok(1))));
    assert!(!Command::Thaw.answers(&Reply::Frozen(Ok(1))));
    assert!(Command::CheckEndpoint(Channel::Monitor).answers(&Reply::EndpointChecked { present: false }));
    assert!(!Command::Finish.answers(&Reply::PoweredDown(Ok(()))));
}
