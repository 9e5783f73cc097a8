use crossbeam_channel::unbounded;
use dispatch_core::action::Command;
use dispatch_core::bridge::{BridgeFuture, BridgeRound, CountdownFuture, FatalReason};
use dispatch_core::context::{dna_retry_decision, Context, RetryDecision, DNA_RETRY_LIMIT};
use dispatch_core::state::{State, StateWrapper};
use dispatch_core::store::{CasStore, EavStore};
use dispatch_core::sync::Shared;
use dispatch_core::types::{AgentId, AppDefinition, CoreError, NetworkConfig, Zome};

fn agent() -> AgentId {
    AgentId {
        nick: String::from("pippin"),
        pub_sign_key: String::from("key-pippin"),
    }
}

fn bare_context(name: &str) -> Context {
    Context::new(
        name,
        agent(),
        Shared::new(CasStore::new()),
        Shared::new(CasStore::new()),
        Shared::new(EavStore::new()),
        NetworkConfig::UniqueMemory,
        None,
        false,
    )
}

#[test]
fn fresh_context_has_no_state_and_no_channels() {
    let context = bare_context("fresh");
    assert_eq!(context.get_instance_name(), String::from("fresh"));
    assert!(context.state().is_none());
    assert!(context.action_channel.is_none());
    assert!(context.observer_channel.is_none());
    assert!(context.instance_still_alive());
    assert!(!context.is_action_channel_open());
}

#[test]
fn set_state_makes_snapshots_readable() {
    let mut context = bare_context("stateful");
    context.set_state(Shared::new(StateWrapper::new_initial(State::initial(agent()))));
    let snapshot = context.state().expect("state was wired");
    assert!(snapshot.state.agent.chain.is_empty());
}

#[test]
fn action_channel_error_distinguishes_missing_and_stopped() {
    let mut context = bare_context("probing");
    assert_eq!(
        context.action_channel_error(),
        Some(CoreError::InitializationFailed)
    );

    let (tx, rx) = unbounded();
    context.action_channel = Some(tx);
    assert_eq!(context.action_channel_error(), None);
    assert!(context.is_action_channel_open());
    // the probe really went over the channel
    let probe = rx.try_recv().expect("probe envelope");
    assert_eq!(probe.command, Command::Ping);

    drop(rx);
    assert_eq!(context.action_channel_error(), Some(CoreError::LifecycleError));
    assert!(!context.is_action_channel_open());
}

#[test]
fn create_observer_wires_a_working_tick_channel() {
    let mut context = bare_context("observing");
    assert!(matches!(
        context.create_observer(),
        Err(CoreError::InitializationFailed)
    ));

    let (obs_tx, obs_rx) = unbounded();
    context.observer_channel = Some(obs_tx);
    let tick_rx = context.create_observer().expect("registration succeeds");
    let registered = obs_rx.try_recv().expect("observer arrived at the loop");
    registered.ticker.send(()).expect("tick goes through");
    assert!(tick_rx.try_recv().is_ok());
}

#[test]
fn create_observer_fails_once_the_loop_is_gone() {
    let mut context = bare_context("observing-late");
    let (obs_tx, obs_rx) = unbounded();
    context.observer_channel = Some(obs_tx);
    drop(obs_rx);
    assert!(matches!(
        context.create_observer(),
        Err(CoreError::LifecycleError)
    ));
}

#[test]
fn dna_and_wasm_lookup() {
    let mut context = bare_context("wasmful");
    let mut state = State::initial(agent());
    state.nucleus.dna = Some(AppDefinition {
        address: 70,
        zomes: vec![
            Zome {
                name: String::from("empty"),
                code: vec![],
            },
            Zome {
                name: String::from("blog"),
                code: vec![0, 97, 115, 109],
            },
        ],
    });
    context.set_state(Shared::new(StateWrapper::new_initial(state)));

    let dna = context.get_dna().expect("definition is loaded");
    assert_eq!(dna.address, 70);
    assert_eq!(context.get_wasm("blog"), Some(vec![0, 97, 115, 109]));
    // an empty body means there is nothing to run
    assert_eq!(context.get_wasm("empty"), None);
    assert_eq!(context.get_wasm("absent"), None);
}

#[test]
fn dna_retry_policy_is_bounded() {
    assert_eq!(dna_retry_decision(true, 0), RetryDecision::Ready);
    assert_eq!(dna_retry_decision(true, 1000), RetryDecision::Ready);
    assert_eq!(
        dna_retry_decision(false, DNA_RETRY_LIMIT),
        RetryDecision::RetryAfterWait
    );
    assert_eq!(
        dna_retry_decision(false, DNA_RETRY_LIMIT + 1),
        RetryDecision::GiveUp
    );
}

fn drive<F: BridgeFuture>(
    context: &Context,
    future: &mut F,
    tick_rx: &crossbeam_channel::Receiver<()>,
    max_rounds: u32,
) -> BridgeRound<F::Output> {
    let mut rounds: u32 = 0;
    loop {
        match context.bridge_round(future, tick_rx) {
            BridgeRound::Continue => {
                rounds += 1;
                if rounds > max_rounds {
                    panic!("bridge made no progress in {} rounds", max_rounds);
                }
            }
            done => return done,
        }
    }
}

#[test]
fn bridge_completes_a_future_over_ticks() {
    let mut context = bare_context("bridging");
    let (tx, _rx_keepalive) = unbounded();
    context.action_channel = Some(tx);
    let (_tick_tx, tick_rx) = unbounded();

    let mut future = CountdownFuture {
        remaining: 3,
        value: 42,
    };
    match drive(&context, &mut future, &tick_rx, 10) {
        BridgeRound::Completed(v) => assert_eq!(v, 42),
        _ => panic!("expected completion"),
    }
}

#[test]
fn bridge_turns_lost_liveness_into_a_fatal_outcome() {
    // the liveness flag is flipped while the bridge would otherwise keep
    // waiting: the very next round is fatal instead of a hang
    let mut context = bare_context("dying");
    let (tx, _rx_keepalive) = unbounded();
    context.action_channel = Some(tx);
    let (_tick_tx, tick_rx) = unbounded();

    context.kill();
    let mut never_ready = CountdownFuture {
        remaining: u64::MAX,
        value: 0,
    };
    match context.bridge_round(&mut never_ready, &tick_rx) {
        BridgeRound::Fatal(FatalReason::InstanceDead) => {}
        _ => panic!("expected the instance-dead outcome"),
    }
}

#[test]
fn bridge_turns_stopped_dispatch_into_a_fatal_outcome() {
    let mut context = bare_context("stopping");
    let (tx, rx) = unbounded();
    context.action_channel = Some(tx);
    drop(rx);
    let (_tick_tx, tick_rx) = unbounded();

    let mut never_ready = CountdownFuture {
        remaining: u64::MAX,
        value: 0,
    };
    match context.bridge_round(&mut never_ready, &tick_rx) {
        BridgeRound::Fatal(FatalReason::DispatchStopped(CoreError::LifecycleError)) => {}
        _ => panic!("expected the dispatch-stopped outcome"),
    }
}

#[test]
fn bridge_completes_even_when_instance_is_dead() {
    // a result that is already there is handed out; fatality only
    // replaces waiting
    let context = bare_context("done-anyway");
    context.kill();
    let (_tick_tx, tick_rx) = unbounded();
    let mut ready = CountdownFuture {
        remaining: 0,
        value: 7,
    };
    match context.bridge_round(&mut ready, &tick_rx) {
        BridgeRound::Completed(v) => assert_eq!(v, 7),
        _ => panic!("expected completion"),
    }
}
