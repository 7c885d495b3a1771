use vstd::prelude::*;

use crate::failure::{
    connect_failure, connect_failure_spec, thaw_outcome, thaw_outcome_spec, Channel, Failure,
    SnapshotFault,
};
use crate::protocol::{answers_spec, Command, Reply};

verus! {

/// Where a snapshot session stands. Each non-terminal phase waits for the
/// reply to one command.
#[derive(Debug)]
pub enum Phase {
    CheckingAgent,
    CheckingMonitor,
    ConnectingMonitor,
    ConnectingAgent,
    Negotiating,
    Freezing,
    Snapshotting,
    /// The save-state command was answered; its answer waits here until the
    /// thaw has been answered too.
    Thawing { snapshot: Result<String, String> },
    ShuttingDown,
    Done,
    Failed { failure: Failure },
}

/// The command that a session in `phase` waits on.
pub open spec fn command_for(phase: Phase) -> Command {
    match phase {
        Phase::CheckingAgent => Command::CheckEndpoint(Channel::Agent),
        Phase::CheckingMonitor => Command::CheckEndpoint(Channel::Monitor),
        Phase::ConnectingMonitor => Command::Connect(Channel::Monitor),
        Phase::ConnectingAgent => Command::Connect(Channel::Agent),
        Phase::Negotiating => Command::Negotiate,
        Phase::Freezing => Command::Freeze,
        Phase::Snapshotting => Command::SaveState,
        Phase::Thawing { .. } => Command::Thaw,
        Phase::ShuttingDown => Command::PowerDown,
        Phase::Done => Command::Finish,
        Phase::Failed { .. } => Command::Finish,
    }
}

pub open spec fn is_terminal(phase: Phase) -> bool {
    phase is Done || phase is Failed
}

/// Whether the monitor's answer to the save-state command means failure: a
/// transport failure, or any non-empty response text.
pub open spec fn save_state_failed(answer: Result<String, String>) -> bool {
    match answer {
        Ok(response) => response@.len() > 0,
        Err(_) => true,
    }
}

pub open spec fn snapshot_fault_spec(answer: Result<String, String>) -> SnapshotFault {
    match answer {
        Ok(response) => SnapshotFault::ErrorReported { response },
        Err(cause) => SnapshotFault::MonitorCommandFailed { cause },
    }
}

/// The phase after both the save-state answer and the thaw answer are known.
/// A failed save-state is reported together with the thaw's outcome.
pub open spec fn verdict(snapshot: Result<String, String>, thaw: Result<u64, String>) -> Phase {
    if save_state_failed(snapshot) {
        Phase::Failed {
            failure: Failure::SnapshotFailed {
                fault: snapshot_fault_spec(snapshot),
                thaw: thaw_outcome_spec(thaw),
            },
        }
    } else {
        match thaw {
            Ok(_) => Phase::ShuttingDown,
            Err(cause) => Phase::Failed { failure: Failure::ThawFailed { cause } },
        }
    }
}

/// One transition of the snapshot protocol. A reply that does not answer the
/// phase's command leaves the phase as it is.
pub open spec fn next_phase(phase: Phase, reply: Reply) -> Phase {
    match (phase, reply) {
        (Phase::CheckingAgent, Reply::EndpointChecked { present }) => {
            if present {
                Phase::CheckingMonitor
            } else {
                Phase::Failed { failure: Failure::EndpointMissing { channel: Channel::Agent } }
            }
        },
        (Phase::CheckingMonitor, Reply::EndpointChecked { present }) => {
            if present {
                Phase::ConnectingMonitor
            } else {
                Phase::Failed { failure: Failure::EndpointMissing { channel: Channel::Monitor } }
            }
        },
        (Phase::ConnectingMonitor, Reply::Connected(r)) => match r {
            Ok(_) => Phase::ConnectingAgent,
            Err(f) => Phase::Failed { failure: connect_failure_spec(Channel::Monitor, f) },
        },
        (Phase::ConnectingAgent, Reply::Connected(r)) => match r {
            Ok(_) => Phase::Negotiating,
            Err(f) => Phase::Failed { failure: connect_failure_spec(Channel::Agent, f) },
        },
        (Phase::Negotiating, Reply::Negotiated(r)) => match r {
            Ok(_) => Phase::Freezing,
            Err(cause) => Phase::Failed { failure: Failure::HandshakeFailed { cause } },
        },
        (Phase::Freezing, Reply::Frozen(r)) => match r {
            Ok(_) => Phase::Snapshotting,
            Err(cause) => Phase::Failed { failure: Failure::FreezeFailed { cause } },
        },
        (Phase::Snapshotting, Reply::SaveStateAnswered(r)) => Phase::Thawing { snapshot: r },
        (Phase::Thawing { snapshot }, Reply::Thawed(t)) => verdict(snapshot, t),
        (Phase::ShuttingDown, Reply::PoweredDown(r)) => match r {
            Ok(_) => Phase::Done,
            Err(cause) => Phase::Failed { failure: Failure::ShutdownRequestFailed { cause } },
        },
        (p, _) => p,
    }
}

/// The phase reached from `phase` after `replies`, in order.
pub open spec fn run(phase: Phase, replies: Seq<Reply>) -> Phase
    decreases replies.len(),
{
    if replies.len() == 0 {
        phase
    } else {
        run(next_phase(phase, replies[0]), replies.drop_first())
    }
}

/// The commands issued from `phase` on, one after each of `replies`.
pub open spec fn issued(phase: Phase, replies: Seq<Reply>) -> Seq<Command>
    decreases replies.len(),
{
    if replies.len() == 0 {
        Seq::empty()
    } else {
        let next = next_phase(phase, replies[0]);
        seq![command_for(next)] + issued(next, replies.drop_first())
    }
}

/// Whether each of `replies` answers the command pending when it arrives.
pub open spec fn answered(phase: Phase, replies: Seq<Reply>) -> bool
    decreases replies.len(),
{
    replies.len() == 0 || (answers_spec(command_for(phase), replies[0]) && answered(
        next_phase(phase, replies[0]),
        replies.drop_first(),
    ))
}

/// The text that asks the monitor to save the machine's state under `name`.
pub open spec fn save_state_line(name: Seq<char>) -> Seq<char> {
    "savevm "@ + name
}

/// One run of the freeze, save-state, thaw and power-down sequence.
pub struct SnapshotSession {
    pub snapshot_name: String,
    pub phase: Phase,
}

impl SnapshotSession {
    pub fn new(snapshot_name: String) -> (r: SnapshotSession)
        ensures
            r.snapshot_name == snapshot_name,
            r.phase == Phase::CheckingAgent,
    {
        SnapshotSession { snapshot_name, phase: Phase::CheckingAgent }
    }

    /// The command that the session waits on.
    pub fn command(&self) -> (r: Command)
        ensures
            r == command_for(self.phase),
    {
        match &self.phase {
            Phase::CheckingAgent => Command::CheckEndpoint(Channel::Agent),
            Phase::CheckingMonitor => Command::CheckEndpoint(Channel::Monitor),
            Phase::ConnectingMonitor => Command::Connect(Channel::Monitor),
            Phase::ConnectingAgent => Command::Connect(Channel::Agent),
            Phase::Negotiating => Command::Negotiate,
            Phase::Freezing => Command::Freeze,
            Phase::Snapshotting => Command::SaveState,
            Phase::Thawing { .. } => Command::Thaw,
            Phase::ShuttingDown => Command::PowerDown,
            Phase::Done => Command::Finish,
            Phase::Failed { .. } => Command::Finish,
        }
    }

    /// The monitor command line for the save-state step.
    pub fn save_state_command_line(&self) -> (r: String)
        ensures
            r@ == save_state_line(self.snapshot_name@),
    {
        String::from_str("savevm ").concat(self.snapshot_name.as_str())
    }

    /// Takes the reply to the pending command and returns the next command.
    pub fn advance(&mut self, reply: Reply) -> (r: Command)
        requires
            answers_spec(command_for(old(self).phase), reply),
        ensures
            final(self).phase == next_phase(old(self).phase, reply),
            final(self).snapshot_name == old(self).snapshot_name,
            r == command_for(final(self).phase),
    {
        let mut phase = Phase::Done;
        core::mem::swap(&mut phase, &mut self.phase);
        self.phase = match (phase, reply) {
            (Phase::CheckingAgent, Reply::EndpointChecked { present }) => {
                if present {
                    Phase::CheckingMonitor
                } else {
                    Phase::Failed { failure: Failure::EndpointMissing { channel: Channel::Agent } }
                }
            },
            (Phase::CheckingMonitor, Reply::EndpointChecked { present }) => {
                if present {
                    Phase::ConnectingMonitor
                } else {
                    Phase::Failed {
                        failure: Failure::EndpointMissing { channel: Channel::Monitor },
                    }
                }
            },
            (Phase::ConnectingMonitor, Reply::Connected(r)) => match r {
                Ok(_) => Phase::ConnectingAgent,
                Err(f) => Phase::Failed { failure: connect_failure(Channel::Monitor, f) },
            },
            (Phase::ConnectingAgent, Reply::Connected(r)) => match r {
                Ok(_) => Phase::Negotiating,
                Err(f) => Phase::Failed { failure: connect_failure(Channel::Agent, f) },
            },
            (Phase::Negotiating, Reply::Negotiated(r)) => match r {
                Ok(_) => Phase::Freezing,
                Err(cause) => Phase::Failed { failure: Failure::HandshakeFailed { cause } },
            },
            (Phase::Freezing, Reply::Frozen(r)) => match r {
                Ok(_) => Phase::Snapshotting,
                Err(cause) => Phase::Failed { failure: Failure::FreezeFailed { cause } },
            },
            (Phase::Snapshotting, Reply::SaveStateAnswered(r)) => Phase::Thawing { snapshot: r },
            (Phase::Thawing { snapshot }, Reply::Thawed(t)) => decide(snapshot, t),
            (Phase::ShuttingDown, Reply::PoweredDown(r)) => match r {
                Ok(_) => Phase::Done,
                Err(cause) => Phase::Failed { failure: Failure::ShutdownRequestFailed { cause } },
            },
            (p, _) => p,
        };
        self.command()
    }

    /// The session's outcome, once it has finished.
    pub fn into_outcome(self) -> (r: Result<(), Failure>)
        requires
            is_terminal(self.phase),
        ensures
            self.phase is Done ==> r is Ok,
            self.phase matches Phase::Failed { failure } ==> r == Err::<(), Failure>(failure),
    {
        match self.phase {
            Phase::Failed { failure } => Err(failure),
            _ => Ok(()),
        }
    }
}

/// Combines the save-state answer and the thaw answer into the next phase.
fn decide(snapshot: Result<String, String>, thaw: Result<u64, String>) -> (r: Phase)
    ensures
        r == verdict(snapshot, thaw),
{
    match snapshot {
        Err(cause) => Phase::Failed {
            failure: Failure::SnapshotFailed {
                fault: SnapshotFault::MonitorCommandFailed { cause },
                thaw: thaw_outcome(thaw),
            },
        },
        Ok(response) => {
            if response.as_str().is_empty() {
                match thaw {
                    Ok(_) => Phase::ShuttingDown,
                    Err(cause) => Phase::Failed { failure: Failure::ThawFailed { cause } },
                }
            } else {
                Phase::Failed {
                    failure: Failure::SnapshotFailed {
                        fault: SnapshotFault::ErrorReported { response },
                        thaw: thaw_outcome(thaw),
                    },
                }
            }
        },
    }
}

} // verus!
