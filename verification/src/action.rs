//! The command model: an immutable, tagged description of every possible
//! state mutation, and the envelope that carries one on the dispatch
//! channel.
//!
//! A command is constructed by any component that wants to mutate state and
//! stays opaque until the dispatch loop applies it. No component applies a
//! command to state outside the loop: that is the single-writer invariant.

use vstd::prelude::*;
use crate::types::{Address, AppDefinition, ChainHeader, FlowKind, ValidatingWorkflow};

verus! {

/// One requested state mutation. Each variant carries exactly the data
/// needed to compute the next state from the current one.
#[derive(Clone, PartialEq, Eq, Debug)]
pub enum Command {
    /// Append a ready-made header to the agent's source chain. The header
    /// is built by the commit workflow; the reducer only appends it.
    Commit(ChainHeader),
    /// Ask the instance to hold an entry. The reducer queues the entry as
    /// pending validation work; the scheduled retry pass later resolves or
    /// abandons it against the store.
    HoldRequest(Address),
    /// Record an entry as validated and locally held.
    Hold(Address),
    /// Stop holding an entry.
    RemoveHeld(Address),
    /// Drop one unit of pending validation work.
    RemovePendingValidation(Address, ValidatingWorkflow),
    /// Install the loaded application definition.
    SetDna(AppDefinition),
    /// Record an in-flight application call.
    AddRunningCall(u64),
    /// Finish an in-flight application call.
    RemoveRunningCall(u64),
    /// Open a network workflow under a correlation id.
    FlowStart(FlowKind, u64),
    /// Close a network workflow.
    FlowEnd(FlowKind, u64),
    /// Liveness probe: applied as a no-op, used only to verify that the
    /// dispatch channel still accepts commands.
    Ping,
}

/// A command plus its causal tag: the unit actually transported on the
/// dispatch channel. The tag serves tracing only; it never deduplicates.
#[derive(Clone, PartialEq, Eq, Debug)]
pub struct CommandEnvelope {
    pub command: Command,
    pub tracing_id: u64,
}

impl CommandEnvelope {
    pub fn new(command: Command, tracing_id: u64) -> (e: CommandEnvelope)
        ensures
            e.command == command,
            e.tracing_id == tracing_id,
    {
        CommandEnvelope { command, tracing_id }
    }

    /// The envelope the liveness probe travels in.
    pub fn ping() -> (e: CommandEnvelope)
        ensures
            e.command == Command::Ping,
    {
        CommandEnvelope { command: Command::Ping, tracing_id: 0 }
    }
}

} // verus!
