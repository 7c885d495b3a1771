use vstd::prelude::*;

verus! {

/// The two control channels of a virtual machine.
#[derive(Clone, Copy, Debug, PartialEq, Eq, Structural)]
pub enum Channel {
    /// The guest-side agent: freeze, thaw, ping.
    Agent,
    /// The hypervisor-side monitor: save-state, power-down.
    Monitor,
}

/// Why a connection to an existing endpoint could not be set up.
#[derive(Clone, Debug, PartialEq, Eq)]
pub enum ConnectFault {
    /// The connect call was refused or timed out.
    Unreachable { cause: String },
    /// The connection stands, but its read or write timeout could not be set.
    Configuration { cause: String },
}

/// What the save-state step reported, when it did not succeed.
#[derive(Clone, Debug, PartialEq, Eq)]
pub enum SnapshotFault {
    /// The monitor command itself failed at the transport or protocol level.
    MonitorCommandFailed { cause: String },
    /// The monitor answered with a non-empty text, which by the save-state
    /// command's convention signals an error. The text is kept verbatim.
    ErrorReported { response: String },
}

/// The outcome of the thaw that follows a save-state attempt.
#[derive(Clone, Debug, PartialEq, Eq)]
pub enum ThawOutcome {
    Thawed { count: u64 },
    ThawFailed { cause: String },
}

/// A terminal failure, tagged with the stage at which it occurred.
#[derive(Clone, Debug, PartialEq, Eq)]
pub enum Failure {
    /// The endpoint's address does not exist; nothing was connected.
    EndpointMissing { channel: Channel },
    EndpointUnreachable { channel: Channel, cause: String },
    /// A read or write timeout could not be applied to a fresh connection.
    ConfigurationError { channel: Channel, cause: String },
    HandshakeFailed { cause: String },
    FreezeFailed { cause: String },
    /// The save-state step failed. The thaw ran anyway; its outcome is
    /// reported alongside.
    SnapshotFailed { fault: SnapshotFault, thaw: ThawOutcome },
    /// The save-state step succeeded but the thaw failed.
    ThawFailed { cause: String },
    ShutdownRequestFailed { cause: String },
    /// The guest agent did not answer a ping within the wait budget.
    AgentWaitTimeout { elapsed_secs: u64 },
}

/// The failure that a connection fault on `channel` amounts to.
pub open spec fn connect_failure_spec(channel: Channel, fault: ConnectFault) -> Failure {
    match fault {
        ConnectFault::Unreachable { cause } => Failure::EndpointUnreachable { channel, cause },
        ConnectFault::Configuration { cause } => Failure::ConfigurationError { channel, cause },
    }
}

pub fn connect_failure(channel: Channel, fault: ConnectFault) -> (r: Failure)
    ensures
        r == connect_failure_spec(channel, fault),
{
    match fault {
        ConnectFault::Unreachable { cause } => Failure::EndpointUnreachable { channel, cause },
        ConnectFault::Configuration { cause } => Failure::ConfigurationError { channel, cause },
    }
}

/// The thaw outcome that a thaw reply amounts to.
pub open spec fn thaw_outcome_spec(thaw: Result<u64, String>) -> ThawOutcome {
    match thaw {
        Ok(count) => ThawOutcome::Thawed { count },
        Err(cause) => ThawOutcome::ThawFailed { cause },
    }
}

pub fn thaw_outcome(thaw: Result<u64, String>) -> (r: ThawOutcome)
    ensures
        r == thaw_outcome_spec(thaw),
{
    match thaw {
        Ok(count) => ThawOutcome::Thawed { count },
        Err(cause) => ThawOutcome::ThawFailed { cause },
    }
}

} // verus!
