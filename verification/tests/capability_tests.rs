use dispatch_core::capability::public_token_in;
use dispatch_core::context::Context;
use dispatch_core::state::{State, StateWrapper};
use dispatch_core::store::{CasStore, EavStore};
use dispatch_core::sync::Shared;
use dispatch_core::types::{
    AgentId, CapabilityType, ChainHeader, CoreError, Entry, EntryType, NetworkConfig,
    RESERVED_PUBLIC_CAP_ID,
};

fn agent() -> AgentId {
    AgentId {
        nick: String::from("sam"),
        pub_sign_key: String::from("key-sam"),
    }
}

fn grant_header(entry_address: u64, address: u64) -> ChainHeader {
    ChainHeader {
        entry_type: EntryType::CapTokenGrant,
        entry_address,
        address,
        link: None,
        timestamp: 1,
        source: 1,
    }
}

fn app_header(entry_address: u64, address: u64) -> ChainHeader {
    ChainHeader {
        entry_type: EntryType::App,
        entry_address,
        address,
        link: None,
        timestamp: 1,
        source: 1,
    }
}

#[test]
fn public_grant_after_private_grant_wins() {
    // G1: a private (assigned) grant committed first; G2: a public grant
    // with the reserved identifier committed later. Lookup answers G2.
    let mut cas = CasStore::new();
    cas.put(
        10,
        Entry::CapTokenGrant {
            cap_type: CapabilityType::Assigned,
            id: RESERVED_PUBLIC_CAP_ID,
        },
    );
    cas.put(
        20,
        Entry::CapTokenGrant {
            cap_type: CapabilityType::Public,
            id: RESERVED_PUBLIC_CAP_ID,
        },
    );
    let chain = vec![grant_header(10, 100), app_header(15, 101), grant_header(20, 102)];
    assert_eq!(public_token_in(&chain, &cas), Ok(20));
}

#[test]
fn no_public_grant_is_an_explicit_error() {
    let mut cas = CasStore::new();
    cas.put(
        10,
        Entry::CapTokenGrant {
            cap_type: CapabilityType::Transferable,
            id: RESERVED_PUBLIC_CAP_ID,
        },
    );
    let chain = vec![grant_header(10, 100)];
    assert_eq!(public_token_in(&chain, &cas), Err(CoreError::NoPublicGrant));
}

#[test]
fn public_type_with_wrong_identifier_does_not_match() {
    let mut cas = CasStore::new();
    cas.put(
        10,
        Entry::CapTokenGrant {
            cap_type: CapabilityType::Public,
            id: RESERVED_PUBLIC_CAP_ID + 1,
        },
    );
    let chain = vec![grant_header(10, 100)];
    assert_eq!(public_token_in(&chain, &cas), Err(CoreError::NoPublicGrant));
}

#[test]
fn empty_chain_reports_missing_top_header() {
    let cas = CasStore::new();
    let chain: Vec<ChainHeader> = vec![];
    assert_eq!(public_token_in(&chain, &cas), Err(CoreError::NoTopChainHeader));
}

#[test]
fn unfetchable_grant_entry_stops_the_walk() {
    // the newest grant header points at content the chain store cannot
    // produce: the walk reports that, it does not silently skip
    let cas = CasStore::new();
    let chain = vec![grant_header(10, 100)];
    assert_eq!(
        public_token_in(&chain, &cas),
        Err(CoreError::MissingGrantContent)
    );
}

#[test]
fn context_lookup_reads_chain_and_store() {
    let chain_storage = Shared::new(CasStore::new());
    let mut cas = CasStore::new();
    cas.put(
        20,
        Entry::CapTokenGrant {
            cap_type: CapabilityType::Public,
            id: RESERVED_PUBLIC_CAP_ID,
        },
    );
    chain_storage.replace(cas);

    let mut context = Context::new(
        "cap-instance",
        agent(),
        chain_storage.clone_handle(),
        Shared::new(CasStore::new()),
        Shared::new(EavStore::new()),
        NetworkConfig::UniqueMemory,
        None,
        false,
    );
    assert_eq!(
        context.get_public_token(),
        Err(CoreError::StateUninitialized)
    );

    let mut state = State::initial(agent());
    state.agent.chain.push(grant_header(20, 102));
    context.set_state(Shared::new(StateWrapper::new_initial(state)));
    assert_eq!(context.get_public_token(), Ok(20));
}
