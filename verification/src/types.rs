//! Domain value types of the runtime core: addresses, chain entries and
//! headers, the agent identity, the loaded application definition, pending
//! validation work, network-flow bookkeeping, and the error taxonomy.
//!
//! Storage backends, cryptography and the network transport are external
//! collaborators; everything an entry or header carries here is the plain
//! data the core's own logic reads.

use vstd::prelude::*;

verus! {

/// A content address: the key under which content is stored in a
/// content-addressable store. Computing an address from content (hashing)
/// is a collaborator's concern; the core treats addresses as opaque words.
pub type Address = u64;

/// The reserved identifier of the public capability grant. A grant
/// authorizes callers for everyone only when it is `Public` and carries
/// this identifier.
pub const RESERVED_PUBLIC_CAP_ID: u64 = 0;

/// How widely a capability grant authorizes callers.
#[derive(Clone, Copy, PartialEq, Eq, Structural, Debug)]
pub enum CapabilityType {
    Public,
    Transferable,
    Assigned,
}

/// The type tag of a chain entry, as recorded on its header.
#[derive(Clone, Copy, PartialEq, Eq, Structural, Debug)]
pub enum EntryType {
    App,
    CapTokenGrant,
}

/// Content stored in a content-addressable store and referenced from chain
/// headers and the DHT holding set.
#[derive(Clone, Copy, PartialEq, Eq, Debug)]
pub enum Entry {
    /// Application content. `dependency` names another entry that must be
    /// locally present before this one can be validated and held.
    App { content: u64, dependency: Option<Address> },
    /// A capability grant entry.
    CapTokenGrant { cap_type: CapabilityType, id: u64 },
}

impl Entry {
    /// The type tag this entry gets on its chain header.
    pub open spec fn spec_entry_type(self) -> EntryType {
        match self {
            Entry::App { .. } => EntryType::App,
            Entry::CapTokenGrant { .. } => EntryType::CapTokenGrant,
        }
    }

    /// The dependency that must be satisfied before this entry validates,
    /// if it has one.
    pub open spec fn spec_dependency(self) -> Option<Address> {
        match self {
            Entry::App { dependency, .. } => dependency,
            Entry::CapTokenGrant { .. } => None,
        }
    }

    pub fn entry_type(&self) -> (t: EntryType)
        ensures
            t == self.spec_entry_type(),
    {
        match self {
            Entry::App { .. } => EntryType::App,
            Entry::CapTokenGrant { .. } => EntryType::CapTokenGrant,
        }
    }

    pub fn dependency(&self) -> (d: Option<Address>)
        ensures
            d == self.spec_dependency(),
    {
        match self {
            Entry::App { dependency, .. } => *dependency,
            Entry::CapTokenGrant { .. } => None,
        }
    }
}

/// One link of the agent's append-only, hash-linked source chain.
#[derive(Clone, Copy, PartialEq, Eq, Debug)]
pub struct ChainHeader {
    /// Type of the entry this header commits.
    pub entry_type: EntryType,
    /// Address of the committed entry's content.
    pub entry_address: Address,
    /// Address of this header itself.
    pub address: Address,
    /// Address of the previous header; `None` only on the first header.
    pub link: Option<Address>,
    /// When the commit was made, as an opaque instant.
    pub timestamp: u64,
    /// The agent the commit came from, by reference to its key.
    pub source: u64,
}

/// The agent identity a runtime handle acts as.
#[derive(Clone, PartialEq, Eq, Debug)]
pub struct AgentId {
    pub nick: String,
    pub pub_sign_key: String,
}

/// One callable unit of the loaded application definition.
#[derive(Clone, PartialEq, Eq, Debug)]
pub struct Zome {
    pub name: String,
    /// The unit's code; an empty body means there is nothing to run.
    pub code: Vec<u8>,
}

/// The loaded application definition: what the execution sub-state holds
/// once bootstrapping has delivered it.
#[derive(Clone, PartialEq, Eq, Debug)]
pub struct AppDefinition {
    /// Content address of the definition itself.
    pub address: Address,
    pub zomes: Vec<Zome>,
}

/// The validation path a piece of pending work is queued under.
#[derive(Clone, Copy, PartialEq, Eq, Structural, Debug)]
pub enum ValidatingWorkflow {
    HoldEntry,
    Publish,
}

/// Validation work whose dependency was not yet satisfied when it was
/// first attempted. Dependency status is not stored: each retry recomputes
/// it by attempting the workflow again.
#[derive(Clone, Copy, PartialEq, Eq, Debug)]
pub struct PendingValidation {
    pub address: Address,
    pub workflow: ValidatingWorkflow,
}

/// The kind of an in-flight network workflow, keyed by correlation id in
/// the network sub-state.
#[derive(Clone, Copy, PartialEq, Eq, Structural, Debug)]
pub enum FlowKind {
    Query,
    ValidationPackage,
    DirectMessage,
}

/// A notification for an out-of-band consumer; carried on the signal
/// channel, never read by the core itself.
#[derive(Clone, Copy, PartialEq, Eq, Debug)]
pub struct SignalMessage {
    pub code: u64,
}

/// The network transport configuration: opaque to the core, handed through
/// to the transport collaborator.
#[derive(Clone, PartialEq, Eq, Debug)]
pub enum NetworkConfig {
    /// An in-memory transport joined to the named network.
    Memory { name: String },
    /// An in-memory transport on a network name the transport picks fresh.
    UniqueMemory,
}

/// The error taxonomy of the core.
#[derive(Clone, Copy, PartialEq, Eq, Structural, Debug)]
pub enum CoreError {
    /// A required channel or dependency was never wired up before first
    /// use. Fatal to the calling operation; never retried.
    InitializationFailed,
    /// An operation was attempted after the dispatch loop stopped.
    LifecycleError,
    /// The runtime handle has no application state yet.
    StateUninitialized,
    /// The source chain is empty: there is no top header to walk from.
    NoTopChainHeader,
    /// A grant entry referenced from the chain could not be fetched from
    /// the chain store.
    MissingGrantContent,
    /// The chain holds no public capability grant.
    NoPublicGrant,
    /// The application definition is not loaded.
    DnaMissing,
}

} // verus!
