use dispatch_core::action::{Command, CommandEnvelope};
use dispatch_core::dispatch::Instance;
use dispatch_core::reducer::reduce;
use dispatch_core::state::State;
use dispatch_core::types::{
    AgentId, AppDefinition, ChainHeader, EntryType, FlowKind, PendingValidation,
    ValidatingWorkflow, Zome,
};

fn agent() -> AgentId {
    AgentId {
        nick: String::from("bilbo"),
        pub_sign_key: String::from("key-bilbo"),
    }
}

fn header(entry_address: u64, address: u64, link: Option<u64>) -> ChainHeader {
    ChainHeader {
        entry_type: EntryType::App,
        entry_address,
        address,
        link,
        timestamp: 7,
        source: 1,
    }
}

#[test]
fn commit_appends_header() {
    let s = State::initial(agent());
    let h = header(10, 100, None);
    let s2 = reduce(s, Command::Commit(h));
    assert_eq!(s2.agent.chain, vec![h]);
    let h2 = header(11, 101, Some(100));
    let s3 = reduce(s2, Command::Commit(h2));
    assert_eq!(s3.agent.chain, vec![h, h2]);
}

#[test]
fn hold_request_queues_pending_once() {
    let s = State::initial(agent());
    let s2 = reduce(s, Command::HoldRequest(42));
    let expected = PendingValidation {
        address: 42,
        workflow: ValidatingWorkflow::HoldEntry,
    };
    assert_eq!(s2.nucleus.pending_validations, vec![expected]);
    let s3 = reduce(s2, Command::HoldRequest(42));
    assert_eq!(s3.nucleus.pending_validations, vec![expected]);
}

#[test]
fn hold_and_remove_held() {
    let s = State::initial(agent());
    let s2 = reduce(s, Command::Hold(5));
    let s3 = reduce(s2, Command::Hold(5));
    assert_eq!(s3.dht.held, vec![5]);
    let s4 = reduce(s3, Command::Hold(6));
    assert_eq!(s4.dht.held, vec![5, 6]);
    let s5 = reduce(s4, Command::RemoveHeld(5));
    assert_eq!(s5.dht.held, vec![6]);
}

#[test]
fn remove_pending_validation_by_key() {
    let s = State::initial(agent());
    let s2 = reduce(s, Command::HoldRequest(1));
    let s3 = reduce(s2, Command::HoldRequest(2));
    let s4 = reduce(
        s3,
        Command::RemovePendingValidation(1, ValidatingWorkflow::HoldEntry),
    );
    assert_eq!(
        s4.nucleus.pending_validations,
        vec![PendingValidation {
            address: 2,
            workflow: ValidatingWorkflow::HoldEntry,
        }]
    );
    // removing under the wrong workflow removes nothing
    let s5 = reduce(
        s4,
        Command::RemovePendingValidation(2, ValidatingWorkflow::Publish),
    );
    assert_eq!(s5.nucleus.pending_validations.len(), 1);
}

#[test]
fn set_dna_installs_definition() {
    let s = State::initial(agent());
    let dna = AppDefinition {
        address: 77,
        zomes: vec![Zome {
            name: String::from("blog"),
            code: vec![1, 2, 3],
        }],
    };
    let s2 = reduce(s, Command::SetDna(dna.clone()));
    assert_eq!(s2.nucleus.dna, Some(dna));
}

#[test]
fn running_calls_add_and_remove() {
    let s = State::initial(agent());
    let s2 = reduce(s, Command::AddRunningCall(9));
    let s3 = reduce(s2, Command::AddRunningCall(9));
    assert_eq!(s3.nucleus.running_calls, vec![9]);
    let s4 = reduce(s3, Command::RemoveRunningCall(9));
    assert!(s4.nucleus.running_calls.is_empty());
}

#[test]
fn network_flows_tracked_by_kind() {
    let s = State::initial(agent());
    let s2 = reduce(s, Command::FlowStart(FlowKind::Query, 1));
    let s3 = reduce(s2, Command::FlowStart(FlowKind::ValidationPackage, 2));
    let s4 = reduce(s3, Command::FlowStart(FlowKind::DirectMessage, 3));
    assert_eq!(s4.network.query_flows, vec![1]);
    assert_eq!(s4.network.validation_package_flows, vec![2]);
    assert_eq!(s4.network.direct_message_flows, vec![3]);
    let s5 = reduce(s4, Command::FlowEnd(FlowKind::ValidationPackage, 2));
    assert!(s5.network.validation_package_flows.is_empty());
    assert_eq!(s5.network.query_flows, vec![1]);
    assert_eq!(s5.network.direct_message_flows, vec![3]);
}

#[test]
fn ping_changes_nothing() {
    let s = reduce(State::initial(agent()), Command::Hold(4));
    let s2 = reduce(s.clone(), Command::Ping);
    assert_eq!(s2, s);
}

#[test]
fn dispatch_equals_direct_fold() {
    // Determinism: applying a serialized batch through the dispatch
    // machinery ends in the same state as folding the reducer directly.
    let commands = vec![
        Command::Commit(header(10, 100, None)),
        Command::SetDna(AppDefinition {
            address: 3,
            zomes: vec![],
        }),
        Command::HoldRequest(10),
        Command::Hold(20),
        Command::FlowStart(FlowKind::Query, 8),
        Command::Ping,
        Command::AddRunningCall(4),
        Command::RemoveHeld(20),
        Command::FlowEnd(FlowKind::Query, 8),
    ];
    let envelopes: Vec<CommandEnvelope> = commands
        .iter()
        .enumerate()
        .map(|(i, c)| CommandEnvelope {
            command: c.clone(),
            tracing_id: i as u64,
        })
        .collect();

    let mut inst = Instance::new(State::initial(agent()));
    inst.apply_all(envelopes);

    let mut folded = State::initial(agent());
    for c in commands {
        folded = reduce(folded, c);
    }
    assert_eq!(inst.current.state, folded);
}
