use vstd::prelude::*;

use crate::failure::{connect_failure, connect_failure_spec, Channel, Failure};
use crate::protocol::{answers_spec, Command, Reply};

verus! {

/// Where a direct unfreeze stands: the agent endpoint must exist, the
/// connection is set up eagerly, and then the guest is thawed.
#[derive(Debug)]
pub enum UnfreezePhase {
    CheckingAgent,
    ConnectingAgent,
    Thawing,
    Done { thawed: u64 },
    Failed { failure: Failure },
}

pub open spec fn unfreeze_command_for(phase: UnfreezePhase) -> Command {
    match phase {
        UnfreezePhase::CheckingAgent => Command::CheckEndpoint(Channel::Agent),
        UnfreezePhase::ConnectingAgent => Command::Connect(Channel::Agent),
        UnfreezePhase::Thawing => Command::Thaw,
        UnfreezePhase::Done { .. } => Command::Finish,
        UnfreezePhase::Failed { .. } => Command::Finish,
    }
}

/// What a thaw answer amounts to on the unfreeze paths: the count, or a
/// thaw failure.
pub open spec fn thaw_result_spec(thaw: Result<u64, String>) -> Result<u64, Failure> {
    match thaw {
        Ok(count) => Ok(count),
        Err(cause) => Err(Failure::ThawFailed { cause }),
    }
}

pub fn thaw_result(thaw: Result<u64, String>) -> (r: Result<u64, Failure>)
    ensures
        r == thaw_result_spec(thaw),
{
    match thaw {
        Ok(count) => Ok(count),
        Err(cause) => Err(Failure::ThawFailed { cause }),
    }
}

pub open spec fn unfreeze_next(phase: UnfreezePhase, reply: Reply) -> UnfreezePhase {
    match (phase, reply) {
        (UnfreezePhase::CheckingAgent, Reply::EndpointChecked { present }) => {
            if present {
                UnfreezePhase::ConnectingAgent
            } else {
                UnfreezePhase::Failed {
                    failure: Failure::EndpointMissing { channel: Channel::Agent },
                }
            }
        },
        (UnfreezePhase::ConnectingAgent, Reply::Connected(r)) => match r {
            Ok(_) => UnfreezePhase::Thawing,
            Err(f) => UnfreezePhase::Failed { failure: connect_failure_spec(Channel::Agent, f) },
        },
        (UnfreezePhase::Thawing, Reply::Thawed(t)) => match thaw_result_spec(t) {
            Ok(thawed) => UnfreezePhase::Done { thawed },
            Err(failure) => UnfreezePhase::Failed { failure },
        },
        (p, _) => p,
    }
}

/// Thaws a guest whose agent endpoint is expected to be there already.
pub struct UnfreezeSession {
    pub phase: UnfreezePhase,
}

impl UnfreezeSession {
    pub fn new() -> (r: UnfreezeSession)
        ensures
            r.phase == UnfreezePhase::CheckingAgent,
    {
        UnfreezeSession { phase: UnfreezePhase::CheckingAgent }
    }

    pub fn command(&self) -> (r: Command)
        ensures
            r == unfreeze_command_for(self.phase),
    {
        match &self.phase {
            UnfreezePhase::CheckingAgent => Command::CheckEndpoint(Channel::Agent),
            UnfreezePhase::ConnectingAgent => Command::Connect(Channel::Agent),
            UnfreezePhase::Thawing => Command::Thaw,
            UnfreezePhase::Done { .. } => Command::Finish,
            UnfreezePhase::Failed { .. } => Command::Finish,
        }
    }

    /// Takes the reply to the pending command and returns the next command.
    pub fn advance(&mut self, reply: Reply) -> (r: Command)
        requires
            answers_spec(unfreeze_command_for(old(self).phase), reply),
        ensures
            final(self).phase == unfreeze_next(old(self).phase, reply),
            r == unfreeze_command_for(final(self).phase),
    {
        let mut phase = UnfreezePhase::CheckingAgent;
        core::mem::swap(&mut phase, &mut self.phase);
        self.phase = match (phase, reply) {
            (UnfreezePhase::CheckingAgent, Reply::EndpointChecked { present }) => {
                if present {
                    UnfreezePhase::ConnectingAgent
                } else {
                    UnfreezePhase::Failed {
                        failure: Failure::EndpointMissing { channel: Channel::Agent },
                    }
                }
            },
            (UnfreezePhase::ConnectingAgent, Reply::Connected(r)) => match r {
                Ok(_) => UnfreezePhase::Thawing,
                Err(f) => UnfreezePhase::Failed { failure: connect_failure(Channel::Agent, f) },
            },
            (UnfreezePhase::Thawing, Reply::Thawed(t)) => match thaw_result(t) {
                Ok(thawed) => UnfreezePhase::Done { thawed },
                Err(failure) => UnfreezePhase::Failed { failure },
            },
            (p, _) => p,
        };
        self.command()
    }

    /// The number of filesystems thawed, or the failure, once finished.
    pub fn into_outcome(self) -> (r: Result<u64, Failure>)
        requires
            self.phase is Done || self.phase is Failed,
        ensures
            self.phase matches UnfreezePhase::Done { thawed } ==> r == Ok::<u64, Failure>(thawed),
            self.phase matches UnfreezePhase::Failed { failure } ==> r == Err::<u64, Failure>(
                failure,
            ),
    {
        match self.phase {
            UnfreezePhase::Failed { failure } => Err(failure),
            UnfreezePhase::Done { thawed } => Ok(thawed),
            _ => vstd::pervasive::unreached(),
        }
    }
}

} // verus!
