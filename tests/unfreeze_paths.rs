use stasis::{
    AgentPoller, Channel, Command, ConnectFault, Failure, PollCommand, PollEvent, PollPhase,
    ProbeFault, Reply, UnfreezeSession,
};

/// Drives a poller against a simulated clock that only advances while
/// sleeping. The agent answers the ping from probe number `ready_at` on
/// (1-based); `None` means never. Returns the outcome and the last clock
/// reading in milliseconds.
fn poll(max_wait: u64, interval: u64, ready_at: Option<u64>) -> (Result<u64, Failure>, u64) {
    let mut poller = AgentPoller::new(max_wait, interval);
    let mut now_ms: u64 = 0;
    let mut probes: u64 = 0;
    let mut command = poller.command();
    while command != PollCommand::Finish {
        let event = match command {
            PollCommand::ReadClock => PollEvent::Clock { elapsed_ms: now_ms },
            PollCommand::Sleep { secs } => {
                now_ms += secs * 1000;
                PollEvent::Clock { elapsed_ms: now_ms }
            }
            PollCommand::Probe => {
                probes += 1;
                match ready_at {
                    Some(n) if probes >= n => PollEvent::Probed(Ok(())),
                    _ => PollEvent::Probed(Err(ProbeFault::SocketAbsent)),
                }
            }
            PollCommand::Thaw => PollEvent::Thawed(Ok(3)),
            PollCommand::Finish => unreachable!(),
        };
        assert!(AgentPoller::answers(command, &event));
        command = poller.advance(event);
    }
    let elapsed = poller.elapsed_ms;
    (poller.into_outcome(), elapsed)
}

#[test]
fn poller_succeeds_after_third_tick() {
    let (outcome, elapsed_ms) = poll(10, 2, Some(4));
    assert_eq!(outcome, Ok(3));
    assert!(elapsed_ms >= 6000);
    assert!(elapsed_ms < 10000);
}

#[test]
fn poller_times_out_when_agent_never_ready() {
    let (outcome, elapsed_ms) = poll(10, 2, None);
    match outcome {
        Err(Failure::AgentWaitTimeout { elapsed_secs }) => {
            assert!(elapsed_secs >= 10);
            assert!(elapsed_secs <= 12);
        }
        other => panic!("unexpected outcome {:?}", other),
    }
    assert!(elapsed_ms >= 10000 && elapsed_ms <= 12000);
}

#[test]
fn poller_with_zero_budget_never_probes() {
    let mut poller = AgentPoller::new(0, 2);
    assert_eq!(poller.command(), PollCommand::ReadClock);
    let next = poller.advance(PollEvent::Clock { elapsed_ms: 0 });
    assert_eq!(next, PollCommand::Finish);
    assert_eq!(poller.into_outcome(), Err(Failure::AgentWaitTimeout { elapsed_secs: 0 }));
}

#[test]
fn poller_records_last_fault_and_sleeps() {
    let mut poller = AgentPoller::new(60, 5);
    poller.advance(PollEvent::Clock { elapsed_ms: 1500 });
    assert_eq!(poller.command(), PollCommand::Probe);
    let next = poller.advance(PollEvent::Probed(Err(ProbeFault::AgentUnresponsive {
        cause: "no pong".to_string(),
    })));
    assert_eq!(next, PollCommand::Sleep { secs: 5 });
    assert_eq!(poller.elapsed_ms, 1500);
    assert_eq!(
        poller.last_fault,
        Some(ProbeFault::AgentUnresponsive { cause: "no pong".to_string() })
    );
    assert!(matches!(poller.phase, PollPhase::Sleeping));
}

#[test]
fn poller_reports_thaw_failure() {
    let mut poller = AgentPoller::new(60, 5);
    poller.advance(PollEvent::Clock { elapsed_ms: 0 });
    assert_eq!(poller.advance(PollEvent::Probed(Ok(()))), PollCommand::Thaw);
    assert_eq!(poller.advance(PollEvent::Thawed(Err("boom".to_string()))), PollCommand::Finish);
    assert_eq!(poller.into_outcome(), Err(Failure::ThawFailed { cause: "boom".to_string() }));
}

#[test]
fn poller_timeout_reports_elapsed_whole_seconds() {
    let mut poller = AgentPoller::new(10, 2);
    poller.advance(PollEvent::Clock { elapsed_ms: 9999 });
    poller.advance(PollEvent::Probed(Err(ProbeFault::ConnectFailed { cause: "refused".to_string() })));
    assert_eq!(poller.advance(PollEvent::Clock { elapsed_ms: 11_700 }), PollCommand::Finish);
    assert_eq!(poller.into_outcome(), Err(Failure::AgentWaitTimeout { elapsed_secs: 11 }));
}

#[test]
fn direct_unfreeze_thaws() {
    let mut session = UnfreezeSession::new();
    assert_eq!(session.command(), Command::CheckEndpoint(Channel::Agent));
    assert_eq!(session.advance(Reply::EndpointChecked { present: true }), Command::Connect(Channel::Agent));
    assert_eq!(session.advance(Reply::Connected(Ok(()))), Command::Thaw);
    assert_eq!(session.advance(Reply::Thawed(Ok(4))), Command::Finish);
    assert_eq!(session.into_outcome(), Ok(4));
}

#[test]
fn direct_unfreeze_needs_the_socket() {
    let mut session = UnfreezeSession::new();
    assert_eq!(session.advance(Reply::EndpointChecked { present: false }), Command::Finish);
    assert_eq!(session.into_outcome(), Err(Failure::EndpointMissing { channel: Channel::Agent }));
}

#[test]
fn direct_unfreeze_connect_failure_is_fatal() {
    let mut session = UnfreezeSession::new();
    session.advance(Reply::EndpointChecked { present: true });
    assert_eq!(
        session.advance(Reply::Connected(Err(ConnectFault::Unreachable { cause: "refused".to_string() }))),
        Command::Finish
    );
    assert_eq!(
        session.into_outcome(),
        Err(Failure::EndpointUnreachable { channel: Channel::Agent, cause: "refused".to_string() })
    );
}

#[test]
fn direct_unfreeze_thaw_failure() {
    let mut session = UnfreezeSession::new();
    session.advance(Reply::EndpointChecked { present: true });
    session.advance(Reply::Connected(Ok(())));
    session.advance(Reply::Thawed(Err("not frozen".to_string())));
    assert_eq!(session.into_outcome(), Err(Failure::ThawFailed { cause: "not frozen".to_string() }));
}
