use vstd::prelude::*;

use crate::failure::{Channel, ConnectFault};

verus! {

/// An operation that a session asks its driver to perform next.
#[derive(Clone, Copy, Debug, PartialEq, Eq, Structural)]
pub enum Command {
    /// Check that the channel's endpoint address exists.
    CheckEndpoint(Channel),
    /// Open a connection to the channel's endpoint and apply its timeouts.
    Connect(Channel),
    /// Negotiate capabilities on the monitor connection.
    Negotiate,
    /// Freeze the guest's filesystems through the agent.
    Freeze,
    /// Send the save-state command line to the monitor.
    SaveState,
    /// Thaw the guest's filesystems through the agent.
    Thaw,
    /// Ask the monitor to power the machine down.
    PowerDown,
    /// Nothing more to do: the session's outcome is final.
    Finish,
}

/// What came of the last command, as observed by the driver.
#[derive(Debug, PartialEq, Eq)]
pub enum Reply {
    EndpointChecked { present: bool },
    Connected(Result<(), ConnectFault>),
    Negotiated(Result<(), String>),
    /// The number of filesystems frozen, or the cause of the failure.
    Frozen(Result<u64, String>),
    /// The monitor's raw response text (possibly empty), or the cause of the
    /// failure.
    SaveStateAnswered(Result<String, String>),
    /// The number of filesystems thawed, or the cause of the failure.
    Thawed(Result<u64, String>),
    PoweredDown(Result<(), String>),
}

/// Whether `reply` is what performing `command` can yield.
pub open spec fn answers_spec(command: Command, reply: Reply) -> bool {
    match command {
        Command::CheckEndpoint(_) => reply is EndpointChecked,
        Command::Connect(_) => reply is Connected,
        Command::Negotiate => reply is Negotiated,
        Command::Freeze => reply is Frozen,
        Command::SaveState => reply is SaveStateAnswered,
        Command::Thaw => reply is Thawed,
        Command::PowerDown => reply is PoweredDown,
        Command::Finish => false,
    }
}

impl Command {
    /// Whether `reply` is what performing this command can yield.
    pub fn answers(self, reply: &Reply) -> (r: bool)
        ensures
            r == answers_spec(self, *reply),
    {
        match self {
            Command::CheckEndpoint(_) => matches!(reply, Reply::EndpointChecked { .. }),
            Command::Connect(_) => matches!(reply, Reply::Connected(_)),
            Command::Negotiate => matches!(reply, Reply::Negotiated(_)),
            Command::Freeze => matches!(reply, Reply::Frozen(_)),
            Command::SaveState => matches!(reply, Reply::SaveStateAnswered(_)),
            Command::Thaw => matches!(reply, Reply::Thawed(_)),
            Command::PowerDown => matches!(reply, Reply::PoweredDown(_)),
            Command::Finish => false,
        }
    }
}

} // verus!
