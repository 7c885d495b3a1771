//! Decision logic for taking a crash-consistent snapshot of a running virtual
//! machine through its guest agent and its hypervisor monitor.
//!
//! The library never touches a socket. Each session is a state machine: it
//! names the next operation to perform, and its driver performs it and hands
//! back what came of it.
//!
//! - [`SnapshotSession`]: check endpoints, connect, negotiate, freeze,
//!   save state, thaw (always, once frozen), power down.
//! - [`UnfreezeSession`]: thaw a guest whose agent endpoint is already there.
//! - [`AgentPoller`]: wait within a budget for the agent to answer a ping,
//!   then thaw.
//!
//! The laws that runs of these machines obey are proved in [`guarantees`]
//! and [`poller`].

pub mod failure;
pub mod guarantees;
pub mod poller;
pub mod protocol;
pub mod snapshot;
pub mod unfreeze;

pub use failure::{Channel, ConnectFault, Failure, SnapshotFault, ThawOutcome};
pub use poller::{AgentPoller, PollCommand, PollEvent, PollPhase, ProbeFault};
pub use protocol::{Command, Reply};
pub use snapshot::{Phase, SnapshotSession};
pub use unfreeze::{UnfreezePhase, UnfreezeSession};
