//! The shared runtime handle: identity, liveness flag, storage handles,
//! network configuration, the command-submission and observer-registration
//! endpoints, and the read accessor for the current state snapshot.
//! Exactly one handle exists per running instance in intent; clones share
//! every cell and endpoint.

use vstd::prelude::*;
use crossbeam_channel::{Receiver, Sender};
use crate::action::CommandEnvelope;
use crate::bridge::{bridge_decision, BridgeFuture, BridgeRound};
use crate::capability::public_token_in;
use crate::channels::channel_recv_timeout;
use crate::dispatch::Observer;
use crate::state::StateWrapper;
use crate::store::{CasStore, EavStore};
use crate::sync::Shared;
use crate::types::{Address, AgentId, AppDefinition, CoreError, NetworkConfig, SignalMessage};

verus! {

/// How long one bridge round waits for a tick before re-polling anyway,
/// in milliseconds.
pub const TICK_WAIT_MS: u64 = 10;

/// How many re-reads a caller waiting for the application definition
/// should make before giving up.
pub const DNA_RETRY_LIMIT: u64 = 10;

/// The shared runtime handle.
#[derive(Clone)]
pub struct Context {
    pub instance_name: String,
    pub agent_id: AgentId,
    pub state: Option<Shared<StateWrapper>>,
    pub action_channel: Option<Sender<CommandEnvelope>>,
    pub observer_channel: Option<Sender<Observer>>,
    pub chain_storage: Shared<CasStore>,
    pub dht_storage: Shared<CasStore>,
    pub eav_storage: Shared<EavStore>,
    pub p2p_config: NetworkConfig,
    pub signal_tx: Option<Sender<SignalMessage>>,
    pub instance_is_alive: Shared<bool>,
    pub state_dump_logging: bool,
}

/// What one round of a bounded wait for the application definition
/// decides.
#[derive(Clone, Copy, PartialEq, Eq, Structural, Debug)]
pub enum RetryDecision {
    /// The definition is there: stop waiting.
    Ready,
    /// Not there yet: wait briefly and read again.
    RetryAfterWait,
    /// The retry allowance is spent: stop waiting empty-handed.
    GiveUp,
}

/// The bounded-wait policy for a state read that may not be initialized
/// yet: retry a small fixed number of times, then give up.
pub fn dna_retry_decision(found: bool, tries: u64) -> (d: RetryDecision)
    ensures
        found ==> d == RetryDecision::Ready,
        !found && tries > DNA_RETRY_LIMIT ==> d == RetryDecision::GiveUp,
        !found && tries <= DNA_RETRY_LIMIT ==> d == RetryDecision::RetryAfterWait,
{
    if found {
        RetryDecision::Ready
    } else if tries > DNA_RETRY_LIMIT {
        RetryDecision::GiveUp
    } else {
        RetryDecision::RetryAfterWait
    }
}

impl Context {
    /// Whether the handle has been wired to a state slot.
    pub open spec fn spec_has_state(self) -> bool {
        self.state is Some
    }

    pub open spec fn spec_instance_name(self) -> Seq<char> {
        self.instance_name@
    }

    pub open spec fn spec_signal_tx(self) -> Option<Sender<SignalMessage>> {
        self.signal_tx
    }

    /// A fresh handle: no state slot and no channels yet (the instance
    /// wires them when its dispatch loop starts), liveness on.
    pub fn new(
        instance_name: &str,
        agent_id: AgentId,
        chain_storage: Shared<CasStore>,
        dht_storage: Shared<CasStore>,
        eav_storage: Shared<EavStore>,
        p2p_config: NetworkConfig,
        signal_tx: Option<Sender<SignalMessage>>,
        state_dump_logging: bool,
    ) -> (r: Context)
        ensures
            r.spec_instance_name() == instance_name@,
            r.agent_id == agent_id,
            !r.spec_has_state(),
            r.action_channel is None,
            r.observer_channel is None,
            r.chain_storage == chain_storage,
            r.dht_storage == dht_storage,
            r.eav_storage == eav_storage,
            r.p2p_config == p2p_config,
            r.spec_signal_tx() == signal_tx,
            r.state_dump_logging == state_dump_logging,
    {
        Context {
            instance_name: instance_name.to_owned(),
            agent_id,
            state: None,
            action_channel: None,
            observer_channel: None,
            chain_storage,
            dht_storage,
            eav_storage,
            p2p_config,
            signal_tx,
            instance_is_alive: Shared::new(true),
            state_dump_logging,
        }
    }

    /// A handle wired with channels from the start, one store serving as
    /// both chain and DHT storage.
    pub fn new_with_channels(
        instance_name: &str,
        agent_id: AgentId,
        action_channel: Option<Sender<CommandEnvelope>>,
        signal_tx: Option<Sender<SignalMessage>>,
        observer_channel: Option<Sender<Observer>>,
        cas: Shared<CasStore>,
        eav: Shared<EavStore>,
        p2p_config: NetworkConfig,
        state_dump_logging: bool,
    ) -> (r: Result<Context, CoreError>)
        ensures
            r matches Ok(c) && c.spec_instance_name() == instance_name@ && c.agent_id == agent_id
                && !c.spec_has_state() && c.action_channel == action_channel && c.observer_channel
                == observer_channel && c.chain_storage == cas && c.dht_storage == cas
                && c.eav_storage == eav && c.p2p_config == p2p_config && c.spec_signal_tx()
                == signal_tx && c.state_dump_logging == state_dump_logging,
    {
        Ok(
            Context {
                instance_name: instance_name.to_owned(),
                agent_id,
                state: None,
                action_channel,
                observer_channel,
                chain_storage: cas.clone_handle(),
                dht_storage: cas,
                eav_storage: eav,
                p2p_config,
                signal_tx,
                instance_is_alive: Shared::new(true),
                state_dump_logging,
            },
        )
    }

    /// The name of this instance.
    pub fn get_instance_name(&self) -> (r: String)
        ensures
            r@ == self.spec_instance_name(),
    {
        self.instance_name.clone()
    }

    /// Wires the handle to the slot the dispatch loop publishes into.
    pub fn set_state(&mut self, state: Shared<StateWrapper>)
        ensures
            *final(self) == (Context { state: Option::Some(state), ..*old(self) }),
    {
        self.state = Some(state);
    }

    /// The current snapshot, or `None` while the instance has not
    /// finished bootstrapping. Which snapshot comes back depends on what
    /// the dispatch loop published last; every caller is verified for
    /// every possible value.
    pub fn state(&self) -> (r: Option<StateWrapper>)
        ensures
            r is Some <==> self.spec_has_state(),
    {
        match &self.state {
            Some(slot) => Some(slot.snapshot()),
            None => None,
        }
    }

    /// One read of the loaded application definition from the current
    /// snapshot. A caller racing the command that sets the definition
    /// retries under [`dna_retry_decision`], waiting between reads.
    pub fn get_dna(&self) -> Option<AppDefinition>
        requires
            self.spec_has_state(),
    {
        match self.state() {
            Some(snapshot) => snapshot.state.nucleus.dna,
            None => None,
        }
    }

    /// The named zome's code from the loaded definition, unless the
    /// definition is absent or the body is empty.
    pub fn get_wasm(&self, zome: &str) -> Option<Vec<u8>>
        requires
            self.spec_has_state(),
    {
        match self.get_dna() {
            Some(dna) => dna.wasm_for(zome),
            None => None,
        }
    }

    /// The command-submission endpoint; the instance must have wired it.
    pub fn action_channel(&self) -> (r: &Sender<CommandEnvelope>)
        requires
            self.action_channel is Some,
        ensures
            self.action_channel == Option::Some(*r),
    {
        self.action_channel.as_ref().unwrap()
    }

    /// Whether the dispatch channel still accepts a best-effort probe.
    pub fn is_action_channel_open(&self) -> (r: bool)
        ensures
            self.action_channel is None ==> !r,
    {
        match &self.action_channel {
            None => false,
            Some(tx) => tx.send(CommandEnvelope::ping()).is_ok(),
        }
    }

    /// Probes the dispatch channel: `None` when a probe command was
    /// accepted; the initialization error when no channel was ever wired;
    /// the lifecycle error when the dispatch loop stopped taking
    /// commands.
    pub fn action_channel_error(&self) -> (r: Option<CoreError>)
        ensures
            self.action_channel is None ==> r == Option::Some(CoreError::InitializationFailed),
            self.action_channel is Some ==> r is None || r == Option::Some(
                CoreError::LifecycleError,
            ),
    {
        match &self.action_channel {
            None => Some(CoreError::InitializationFailed),
            Some(tx) => match tx.send(CommandEnvelope::ping()) {
                Ok(_) => None,
                Err(_) => Some(CoreError::LifecycleError),
            },
        }
    }

    /// The signal endpoint, if one was wired.
    pub fn signal_tx(&self) -> (r: Option<&Sender<SignalMessage>>)
        ensures
            r is Some <==> self.spec_signal_tx() is Some,
            r matches Some(tx) ==> self.spec_signal_tx() == Option::Some(*tx),
    {
        self.signal_tx.as_ref()
    }

    /// The observer-registration endpoint; the instance must have wired
    /// it.
    pub fn observer_channel(&self) -> (r: &Sender<Observer>)
        requires
            self.observer_channel is Some,
        ensures
            self.observer_channel == Option::Some(*r),
    {
        self.observer_channel.as_ref().unwrap()
    }

    /// Whether the instance-wide liveness flag still holds. Teardown
    /// flips it off, and every blocked waiter must observe that and stop.
    pub fn instance_still_alive(&self) -> bool {
        self.instance_is_alive.snapshot()
    }

    /// Flips the liveness flag off: the one teardown signal.
    pub fn kill(&self) {
        self.instance_is_alive.replace(false);
    }

    /// Registers a fresh observer with the dispatch loop and returns the
    /// receiving end: one tick arrives there for every command applied
    /// after registration. Registration fails if the loop was never
    /// started (no channel) or no longer runs.
    pub fn create_observer(&self) -> (r: Result<Receiver<()>, CoreError>)
        ensures
            self.observer_channel is None ==> r == Result::<Receiver<()>, CoreError>::Err(
                CoreError::InitializationFailed,
            ),
            self.observer_channel is Some ==> r is Ok || r == Result::<Receiver<()>, CoreError>::Err(
                CoreError::LifecycleError,
            ),
    {
        match &self.observer_channel {
            None => Err(CoreError::InitializationFailed),
            Some(ch) => {
                let (tick_tx, tick_rx) = crossbeam_channel::unbounded();
                match ch.send(Observer { ticker: tick_tx }) {
                    Ok(_) => Ok(tick_rx),
                    Err(_) => Err(CoreError::LifecycleError),
                }
            },
        }
    }

    /// One round of the future-bridging executor: poll once with a no-op
    /// wake signal; on completion hand the result out; otherwise wait for
    /// one tick (bounded), then check the liveness flag and probe the
    /// dispatch channel, turning a lost instance into a fatal outcome
    /// rather than a hang. The caller loops this until it stops
    /// returning `Continue`.
    pub fn bridge_round<F: BridgeFuture>(&self, future: &mut F, tick_rx: &Receiver<()>) -> (r:
        BridgeRound<F::Output>)
        ensures
            self.action_channel is None ==> !(r is Continue),
    {
        match future.poll_step() {
            Some(result) => BridgeRound::Completed(result),
            None => {
                let _tick = channel_recv_timeout(tick_rx, TICK_WAIT_MS);
                let alive = self.instance_still_alive();
                let probe_failure = self.action_channel_error();
                match bridge_decision(alive, probe_failure) {
                    Some(reason) => BridgeRound::Fatal(reason),
                    None => BridgeRound::Continue,
                }
            },
        }
    }

    /// The public capability token: walk the chain backward from the top
    /// header and return the address of the newest public grant carrying
    /// the reserved identifier; an uninitialized state, a missing top
    /// header, an unfetchable grant entry and a chain without a public
    /// grant each report their own error.
    pub fn get_public_token(&self) -> (r: Result<Address, CoreError>)
        ensures
            !self.spec_has_state() ==> r == Result::<Address, CoreError>::Err(
                CoreError::StateUninitialized,
            ),
    {
        let snapshot = match self.state() {
            None => {
                return Err(CoreError::StateUninitialized);
            },
            Some(snapshot) => snapshot,
        };
        let cas = self.chain_storage.snapshot();
        public_token_in(&snapshot.state.agent.chain, &cas)
    }
}

/// Reads the definition address and the agent key out of one snapshot:
/// the content address of the loaded definition paired with the agent's
/// public signing key, or the missing-definition error.
pub fn dna_and_agent_of(snapshot: &StateWrapper) -> (r: Result<(Address, String), CoreError>)
    ensures
        snapshot.state@.nucleus.dna is None ==> r == Result::<(Address, String), CoreError>::Err(
            CoreError::DnaMissing,
        ),
        snapshot.state@.nucleus.dna matches Some(d) ==> r matches Ok(p) && p.0 == d.address && p.1
            == snapshot.state@.agent.agent.pub_sign_key,
{
    let agent = snapshot.state.agent.get_agent();
    match snapshot.state.nucleus.dna() {
        Some(d) => Ok((d.address, agent.pub_sign_key)),
        None => Err(CoreError::DnaMissing),
    }
}

/// The definition address and agent key of the current snapshot, for the
/// network collaborator's start-up.
pub fn get_dna_and_agent(context: &Context) -> (r: Result<(Address, String), CoreError>)
    ensures
        !context.spec_has_state() ==> r == Result::<(Address, String), CoreError>::Err(
            CoreError::StateUninitialized,
        ),
{
    match context.state() {
        None => Err(CoreError::StateUninitialized),
        Some(snapshot) => dna_and_agent_of(&snapshot),
    }
}

/// An in-memory network configuration: joined to the named network when
/// a name is given, otherwise on a network name the transport picks
/// fresh, so that two instances share a network exactly when they pass
/// the same name.
pub fn test_memory_network_config(network_name: Option<&str>) -> (r: NetworkConfig)
    ensures
        network_name matches Some(n) ==> r matches NetworkConfig::Memory { name } && name@ == n@,
        network_name is None ==> r == NetworkConfig::UniqueMemory,
{
    match network_name {
        Some(n) => NetworkConfig::Memory { name: n.to_owned() },
        None => NetworkConfig::UniqueMemory,
    }
}

} // verus!
