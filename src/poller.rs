use vstd::prelude::*;

use crate::failure::Failure;
use crate::unfreeze::{thaw_result, thaw_result_spec};

verus! {

/// Why one probe of the guest agent did not succeed. Each is expected while
/// the guest boots, and only prompts another probe.
#[derive(Clone, Debug, PartialEq, Eq)]
pub enum ProbeFault {
    /// The agent's endpoint address does not exist yet.
    SocketAbsent,
    /// The endpoint exists but the connect call failed.
    ConnectFailed { cause: String },
    /// A connection stood but the agent did not answer a ping.
    AgentUnresponsive { cause: String },
}

/// An operation that the poller asks its driver to perform next.
#[derive(Clone, Copy, Debug, PartialEq, Eq, Structural)]
pub enum PollCommand {
    /// Report the time elapsed since the wait began.
    ReadClock,
    /// Check the endpoint, connect, and ping the agent.
    Probe,
    /// Sleep for this many seconds, then report the time elapsed.
    Sleep { secs: u64 },
    /// Thaw the guest over the connection that answered the ping.
    Thaw,
    Finish,
}

#[derive(Debug, PartialEq, Eq)]
pub enum PollEvent {
    /// Milliseconds elapsed since the wait began.
    Clock { elapsed_ms: u64 },
    Probed(Result<(), ProbeFault>),
    Thawed(Result<u64, String>),
}

#[derive(Debug)]
pub enum PollPhase {
    Starting,
    Sleeping,
    Probing,
    Thawing,
    Done { thawed: u64 },
    Failed { failure: Failure },
}

/// Waits, within a budget, for the guest agent to answer a ping, then thaws.
pub struct AgentPoller {
    pub max_wait_secs: u64,
    pub poll_interval_secs: u64,
    pub phase: PollPhase,
    /// The last clock reading, in milliseconds since the wait began.
    pub elapsed_ms: u64,
    pub last_fault: Option<ProbeFault>,
}

/// Whether `elapsed_ms` is still inside a budget of `max_wait_secs` seconds.
pub open spec fn within_budget(max_wait_secs: u64, elapsed_ms: u64) -> bool {
    (elapsed_ms as int) < (max_wait_secs as int) * 1000
}

pub open spec fn poll_command_for(p: AgentPoller) -> PollCommand {
    match p.phase {
        PollPhase::Starting => PollCommand::ReadClock,
        PollPhase::Sleeping => PollCommand::Sleep { secs: p.poll_interval_secs },
        PollPhase::Probing => PollCommand::Probe,
        PollPhase::Thawing => PollCommand::Thaw,
        PollPhase::Done { .. } => PollCommand::Finish,
        PollPhase::Failed { .. } => PollCommand::Finish,
    }
}

pub open spec fn poll_answers(command: PollCommand, event: PollEvent) -> bool {
    match command {
        PollCommand::ReadClock | PollCommand::Sleep { .. } => event is Clock,
        PollCommand::Probe => event is Probed,
        PollCommand::Thaw => event is Thawed,
        PollCommand::Finish => false,
    }
}

/// One transition of the poller. A clock reading inside the budget leads to
/// a probe, one outside it ends the wait with a timeout; a failed probe leads
/// to a sleep; a successful one to the thaw.
pub open spec fn poll_next(p: AgentPoller, event: PollEvent) -> AgentPoller {
    match (p.phase, event) {
        (PollPhase::Starting, PollEvent::Clock { elapsed_ms })
        | (PollPhase::Sleeping, PollEvent::Clock { elapsed_ms }) => {
            if within_budget(p.max_wait_secs, elapsed_ms) {
                AgentPoller { phase: PollPhase::Probing, elapsed_ms, ..p }
            } else {
                AgentPoller {
                    phase: PollPhase::Failed {
                        failure: Failure::AgentWaitTimeout { elapsed_secs: elapsed_ms / 1000 },
                    },
                    elapsed_ms,
                    ..p
                }
            }
        },
        (PollPhase::Probing, PollEvent::Probed(r)) => match r {
            Ok(_) => AgentPoller { phase: PollPhase::Thawing, ..p },
            Err(fault) => AgentPoller { phase: PollPhase::Sleeping, last_fault: Some(fault), ..p },
        },
        (PollPhase::Thawing, PollEvent::Thawed(t)) => match thaw_result_spec(t) {
            Ok(thawed) => AgentPoller { phase: PollPhase::Done { thawed }, ..p },
            Err(failure) => AgentPoller { phase: PollPhase::Failed { failure }, ..p },
        },
        _ => p,
    }
}

impl AgentPoller {
    /// A poller with a budget of `max_wait_secs` seconds that probes every
    /// `poll_interval_secs` seconds.
    pub fn new(max_wait_secs: u64, poll_interval_secs: u64) -> (r: AgentPoller)
        ensures
            r.max_wait_secs == max_wait_secs,
            r.poll_interval_secs == poll_interval_secs,
            r.phase == PollPhase::Starting,
            r.elapsed_ms == 0,
            r.last_fault is None,
            r.wf(),
    {
        AgentPoller {
            max_wait_secs,
            poll_interval_secs,
            phase: PollPhase::Starting,
            elapsed_ms: 0,
            last_fault: None,
        }
    }

    pub fn command(&self) -> (r: PollCommand)
        ensures
            r == poll_command_for(*self),
    {
        match &self.phase {
            PollPhase::Starting => PollCommand::ReadClock,
            PollPhase::Sleeping => PollCommand::Sleep { secs: self.poll_interval_secs },
            PollPhase::Probing => PollCommand::Probe,
            PollPhase::Thawing => PollCommand::Thaw,
            PollPhase::Done { .. } => PollCommand::Finish,
            PollPhase::Failed { .. } => PollCommand::Finish,
        }
    }

    /// Whether `event` is what performing `command` can yield.
    pub fn answers(command: PollCommand, event: &PollEvent) -> (r: bool)
        ensures
            r == poll_answers(command, *event),
    {
        match command {
            PollCommand::ReadClock | PollCommand::Sleep { .. } => matches!(event, PollEvent::Clock { .. }),
            PollCommand::Probe => matches!(event, PollEvent::Probed(_)),
            PollCommand::Thaw => matches!(event, PollEvent::Thawed(_)),
            PollCommand::Finish => false,
        }
    }

    /// Takes the answer to the pending command and returns the next command.
    pub fn advance(&mut self, event: PollEvent) -> (r: PollCommand)
        requires
            poll_answers(poll_command_for(*old(self)), event),
        ensures
            *final(self) == poll_next(*old(self), event),
            r == poll_command_for(*final(self)),
    {
        let mut phase = PollPhase::Starting;
        core::mem::swap(&mut phase, &mut self.phase);
        match (phase, event) {
            (PollPhase::Starting, PollEvent::Clock { elapsed_ms })
            | (PollPhase::Sleeping, PollEvent::Clock { elapsed_ms }) => {
                self.elapsed_ms = elapsed_ms;
                if (elapsed_ms as u128) < (self.max_wait_secs as u128) * 1000 {
                    self.phase = PollPhase::Probing;
                } else {
                    self.phase = PollPhase::Failed {
                        failure: Failure::AgentWaitTimeout { elapsed_secs: elapsed_ms / 1000 },
                    };
                }
            },
            (PollPhase::Probing, PollEvent::Probed(r)) => match r {
                Ok(_) => {
                    self.phase = PollPhase::Thawing;
                },
                Err(fault) => {
                    self.phase = PollPhase::Sleeping;
                    self.last_fault = Some(fault);
                },
            },
            (PollPhase::Thawing, PollEvent::Thawed(t)) => match thaw_result(t) {
                Ok(thawed) => {
                    self.phase = PollPhase::Done { thawed };
                },
                Err(failure) => {
                    self.phase = PollPhase::Failed { failure };
                },
            },
            (p, _) => {
                self.phase = p;
            },
        }
        self.command()
    }

    /// The number of filesystems thawed, or the failure, once finished.
    pub fn into_outcome(self) -> (r: Result<u64, Failure>)
        requires
            self.phase is Done || self.phase is Failed,
        ensures
            self.phase matches PollPhase::Done { thawed } ==> r == Ok::<u64, Failure>(thawed),
            self.phase matches PollPhase::Failed { failure } ==> r == Err::<u64, Failure>(failure),
    {
        match self.phase {
            PollPhase::Failed { failure } => Err(failure),
            PollPhase::Done { thawed } => Ok(thawed),
            _ => vstd::pervasive::unreached(),
        }
    }
}

impl AgentPoller {
    /// The poller's invariant: while it probes or sleeps, the last clock
    /// reading was inside the budget.
    pub open spec fn wf(self) -> bool {
        (self.phase is Probing || self.phase is Sleeping || self.phase is Thawing) ==> within_budget(
            self.max_wait_secs,
            self.elapsed_ms,
        )
    }
}

/// Every transition keeps the poller's invariant.
pub proof fn poll_next_keeps_wf(p: AgentPoller, event: PollEvent)
    requires
        p.wf(),
    ensures
        poll_next(p, event).wf(),
{
}

/// The poller gives up only once the budget is spent: a timeout reports at
/// least the budget's seconds, and no more than the clock reading.
pub proof fn timeout_only_after_budget(p: AgentPoller, event: PollEvent)
    requires
        !(p.phase is Failed),
        poll_next(p, event).phase matches PollPhase::Failed {
            failure: Failure::AgentWaitTimeout { .. },
        },
    ensures
        event is Clock,
        !within_budget(p.max_wait_secs, event->elapsed_ms),
        poll_next(p, event).phase->failure->elapsed_secs >= p.max_wait_secs,
        poll_next(p, event).phase->failure->elapsed_secs * 1000 <= event->elapsed_ms,
{
}

/// The poller probes only inside the budget.
pub proof fn probe_only_within_budget(p: AgentPoller, event: PollEvent)
    requires
        !(p.phase is Probing),
        poll_next(p, event).phase is Probing,
    ensures
        event is Clock,
        within_budget(p.max_wait_secs, event->elapsed_ms),
{
}

/// A wait that ends in a timeout overshoots the budget by at most one poll
/// interval, provided a sleep lasts no longer than that interval and probing
/// takes no time: the reading before the sleep was inside the budget.
pub proof fn timeout_within_one_interval(p: AgentPoller, elapsed_ms: u64)
    requires
        p.wf(),
        p.phase is Sleeping,
        elapsed_ms <= p.elapsed_ms + p.poll_interval_secs * 1000,
        poll_next(p, PollEvent::Clock { elapsed_ms }).phase matches PollPhase::Failed {
            failure: Failure::AgentWaitTimeout { .. },
        },
    ensures
        poll_next(p, PollEvent::Clock { elapsed_ms }).phase->failure->elapsed_secs
            <= p.max_wait_secs + p.poll_interval_secs,
{
    let secs = elapsed_ms / 1000;
    assert(secs * 1000 <= elapsed_ms) by (nonlinear_arith)
        requires secs == elapsed_ms / 1000;
    assert(secs * 1000 < (p.max_wait_secs + p.poll_interval_secs) * 1000) by (nonlinear_arith)
        requires
            secs * 1000 <= elapsed_ms,
            elapsed_ms <= p.elapsed_ms + p.poll_interval_secs * 1000,
            p.elapsed_ms < p.max_wait_secs * 1000;
    assert(secs <= p.max_wait_secs + p.poll_interval_secs) by (nonlinear_arith)
        requires secs * 1000 < (p.max_wait_secs + p.poll_interval_secs) * 1000;
}

} // verus!
