use crossbeam_channel::unbounded;
use dispatch_core::action::{Command, CommandEnvelope};
use dispatch_core::context::Context;
use dispatch_core::dispatch::{dispatch_cycle, Instance, Observer};
use dispatch_core::scheduled_jobs::run_pending_validations;
use dispatch_core::state::{State, StateWrapper};
use dispatch_core::store::{CasStore, EavStore};
use dispatch_core::sync::Shared;
use dispatch_core::types::{
    AgentId, ChainHeader, Entry, EntryType, NetworkConfig, PendingValidation,
    ValidatingWorkflow,
};

fn agent() -> AgentId {
    AgentId {
        nick: String::from("gandalf"),
        pub_sign_key: String::from("key-gandalf"),
    }
}

/// Submit a commit and a hold request for an entry whose dependency is
/// not yet locally present: the entry must enter the pending-validation
/// queue, stay there across maintenance passes while the dependency is
/// absent, and leave the queue within one pass after the dependency is
/// injected into storage.
#[test]
fn hold_request_waits_for_its_dependency() {
    let entry_a = Entry::App {
        content: 500,
        dependency: Some(9),
    };
    let dependency = Entry::App {
        content: 900,
        dependency: None,
    };

    // the DHT store already carries entryA's content, but not its dependency
    let mut dht = CasStore::new();
    dht.put(1, entry_a);
    let dht_storage = Shared::new(CasStore::new());
    dht_storage.replace(dht.clone());

    let slot = Shared::new(StateWrapper::new_initial(State::initial(agent())));
    let (cmd_tx, cmd_rx) = unbounded();
    let (_obs_tx, obs_rx) = unbounded::<Observer>();

    let mut context = Context::new(
        "scenario-instance",
        agent(),
        Shared::new(CasStore::new()),
        dht_storage.clone_handle(),
        Shared::new(EavStore::new()),
        NetworkConfig::UniqueMemory,
        None,
        false,
    );
    context.action_channel = Some(cmd_tx.clone());
    context.set_state(slot.clone_handle());

    // submit: Commit(entryA), HoldRequest(entryA)
    let header = ChainHeader {
        entry_type: EntryType::App,
        entry_address: 1,
        address: 101,
        link: None,
        timestamp: 3,
        source: 1,
    };
    cmd_tx
        .send(CommandEnvelope {
            command: Command::Commit(header),
            tracing_id: 1,
        })
        .unwrap();
    cmd_tx
        .send(CommandEnvelope {
            command: Command::HoldRequest(1),
            tracing_id: 2,
        })
        .unwrap();

    let mut inst = Instance::new(State::initial(agent()));
    assert!(dispatch_cycle(&mut inst, &cmd_rx, &obs_rx, &slot));
    assert!(dispatch_cycle(&mut inst, &cmd_rx, &obs_rx, &slot));

    let queued = PendingValidation {
        address: 1,
        workflow: ValidatingWorkflow::HoldEntry,
    };
    let snapshot = context.state().expect("state is wired");
    assert_eq!(snapshot.state.nucleus.pending_validations, vec![queued]);
    assert!(snapshot.state.dht.held.is_empty());

    // maintenance passes find the dependency absent: nothing is
    // submitted and the entry stays queued
    for _ in 0..3 {
        let abandoned = run_pending_validations(&context).expect("pass runs");
        assert!(abandoned.is_empty());
        assert!(cmd_rx.try_recv().is_err());
        let snapshot = context.state().expect("state is wired");
        assert_eq!(snapshot.state.nucleus.pending_validations, vec![queued]);
    }

    // the dependency arrives in storage
    let mut dht2 = dht;
    dht2.put(9, dependency);
    dht_storage.replace(dht2);

    // the next pass resolves the entry: its commands go through the
    // dispatch loop and the entry is held and dequeued
    let abandoned = run_pending_validations(&context).expect("pass runs");
    assert!(abandoned.is_empty());
    assert!(dispatch_cycle(&mut inst, &cmd_rx, &obs_rx, &slot));
    assert!(dispatch_cycle(&mut inst, &cmd_rx, &obs_rx, &slot));

    let snapshot = context.state().expect("state is wired");
    assert!(snapshot.state.nucleus.pending_validations.is_empty());
    assert_eq!(snapshot.state.dht.held, vec![1]);
    assert_eq!(snapshot.state.agent.chain, vec![header]);
}
