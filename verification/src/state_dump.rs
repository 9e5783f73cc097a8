//! The structured diagnostic read of an instance: the source chain, the
//! in-flight call identifiers, the pending validation queue, the
//! in-flight network workflows, and the held-entry set, each copied out
//! of one snapshot. Rendering these values as text is a consumer's
//! concern; the core only exposes the values.

use vstd::prelude::*;
use crate::state::{copy_vec, StateWrapper};
use crate::store::CasStore;
use crate::types::{Address, ChainHeader, Entry, EntryType, PendingValidation};

verus! {

/// One structured diagnostic snapshot of an instance.
#[derive(Clone, Debug)]
pub struct StateDump {
    /// The source chain, oldest header first.
    pub source_chain: Vec<ChainHeader>,
    pub running_calls: Vec<u64>,
    pub pending_validations: Vec<PendingValidation>,
    pub query_flows: Vec<u64>,
    pub validation_package_flows: Vec<u64>,
    pub direct_message_flows: Vec<u64>,
    pub held_entries: Vec<Address>,
}

/// Copies the diagnostic values out of one snapshot; each field is
/// exactly the corresponding part of the snapshot's state.
pub fn collect_state_dump(snapshot: &StateWrapper) -> (d: StateDump)
    ensures
        d.source_chain@ == snapshot.state@.agent.chain,
        d.running_calls@ == snapshot.state@.nucleus.running_calls,
        d.pending_validations@ == snapshot.state@.nucleus.pending_validations,
        d.query_flows@ == snapshot.state@.network.query_flows,
        d.validation_package_flows@ == snapshot.state@.network.validation_package_flows,
        d.direct_message_flows@ == snapshot.state@.network.direct_message_flows,
        d.held_entries@ == snapshot.state@.dht.held,
{
    StateDump {
        source_chain: copy_vec(&snapshot.state.agent.chain),
        running_calls: copy_vec(&snapshot.state.nucleus.running_calls),
        pending_validations: copy_vec(&snapshot.state.nucleus.pending_validations),
        query_flows: copy_vec(&snapshot.state.network.query_flows),
        validation_package_flows: copy_vec(&snapshot.state.network.validation_package_flows),
        direct_message_flows: copy_vec(&snapshot.state.network.direct_message_flows),
        held_entries: copy_vec(&snapshot.state.dht.held),
    }
}

/// Resolves an address against a store to its content and the content's
/// type tag, for diagnostic display.
pub fn address_to_content_and_type(store: &CasStore, address: Address) -> (r: Option<(
    EntryType,
    Entry,
)>)
    ensures
        r == if store@.contains_key(address) {
            Option::Some((store@[address].spec_entry_type(), store@[address]))
        } else {
            Option::None::<(EntryType, Entry)>
        },
{
    match store.fetch(address) {
        Some(e) => Some((e.entry_type(), e)),
        None => None,
    }
}

} // verus!
