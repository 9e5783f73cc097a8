//! The application state container: an immutable, cheaply replaceable
//! snapshot composed of independent sub-states, plus the wrapper that pairs
//! a snapshot with the (ghost) command history that produced it.
//!
//! A new snapshot is produced only by applying exactly one command to
//! exactly one prior snapshot; snapshots are never mutated in place.

use vstd::prelude::*;
use crate::action::CommandEnvelope;
use crate::types::{Address, AgentId, AppDefinition, ChainHeader, PendingValidation, Zome};

verus! {

/// Copies a vector of plain values, element by element.
pub(crate) fn copy_vec<T: Copy>(v: &Vec<T>) -> (r: Vec<T>)
    ensures
        r@ == v@,
{
    let mut r: Vec<T> = Vec::new();
    let mut i: usize = 0;
    while i < v.len()
        invariant
            i <= v.len(),
            r@ == v@.subrange(0, i as int),
        decreases v.len() - i,
    {
        r.push(v[i]);
        i = i + 1;
    }
    proof {
        assert(r@ =~= v@);
    }
    r
}

/// Mathematical image of a [`Zome`].
#[verifier::ext_equal]
pub struct ZomeV {
    pub name: Seq<char>,
    pub code: Seq<u8>,
}

impl View for Zome {
    type V = ZomeV;

    open spec fn view(&self) -> ZomeV {
        ZomeV { name: self.name@, code: self.code@ }
    }
}

impl Zome {
    pub fn duplicate(&self) -> (r: Zome)
        ensures
            r@ == self@,
    {
        Zome { name: self.name.clone(), code: copy_vec(&self.code) }
    }
}

/// Mathematical image of an [`AppDefinition`].
#[verifier::ext_equal]
pub struct AppDefV {
    pub address: Address,
    pub zomes: Seq<ZomeV>,
}

/// The views of a sequence of zomes, element by element.
pub open spec fn zome_views(s: Seq<Zome>) -> Seq<ZomeV> {
    Seq::new(s.len(), |i: int| s[i]@)
}

impl View for AppDefinition {
    type V = AppDefV;

    open spec fn view(&self) -> AppDefV {
        AppDefV { address: self.address, zomes: zome_views(self.zomes@) }
    }
}

impl AppDefinition {
    pub fn duplicate(&self) -> (r: AppDefinition)
        ensures
            r@ == self@,
    {
        let mut zomes: Vec<Zome> = Vec::new();
        let mut i: usize = 0;
        while i < self.zomes.len()
            invariant
                i <= self.zomes.len(),
                zomes@.len() == i,
                zome_views(zomes@) == zome_views(self.zomes@.subrange(0, i as int)),
            decreases self.zomes.len() - i,
        {
            let z = self.zomes[i].duplicate();
            let ghost before = zomes@;
            zomes.push(z);
            proof {
                assert forall|j: int| 0 <= j < i + 1 implies zome_views(zomes@)[j] == zome_views(
                    self.zomes@.subrange(0, i as int + 1),
                )[j] by {
                    if j < i {
                        assert(zomes@[j] == before[j]);
                        assert(zome_views(before)[j] == before[j]@);
                        assert(zome_views(self.zomes@.subrange(0, i as int))[j]
                            == self.zomes@.subrange(0, i as int)[j]@);
                    } else {
                        assert(zomes@[j] == z);
                    }
                }
                assert(zome_views(zomes@) =~= zome_views(self.zomes@.subrange(0, i as int + 1)));
            }
            i = i + 1;
        }
        proof {
            assert(self.zomes@.subrange(0, self.zomes@.len() as int) =~= self.zomes@);
        }
        let r = AppDefinition { address: self.address, zomes };
        proof {
            assert(r@ =~= self@);
        }
        r
    }
}

/// The first zome carrying the name, if any.
pub open spec fn spec_find_zome(zs: Seq<ZomeV>, name: Seq<char>) -> Option<ZomeV>
    decreases zs.len(),
{
    if zs.len() == 0 {
        Option::None
    } else if zs[0].name == name {
        Option::Some(zs[0])
    } else {
        spec_find_zome(zs.subrange(1, zs.len() as int), name)
    }
}

/// What a code lookup answers: the code of the first zome carrying the
/// name, unless that zome's body is empty — an empty body means there is
/// nothing to run, and the lookup reports none.
pub open spec fn spec_wasm_of(d: AppDefV, name: Seq<char>) -> Option<Seq<u8>> {
    match spec_find_zome(d.zomes, name) {
        Option::None => Option::None,
        Option::Some(z) => if z.code.len() == 0 {
            Option::None
        } else {
            Option::Some(z.code)
        },
    }
}

impl AppDefinition {
    /// Looks the named zome's code up: exactly [`spec_wasm_of`].
    pub fn wasm_for(&self, zome: &str) -> (r: Option<Vec<u8>>)
        ensures
            match r {
                Option::Some(code) => spec_wasm_of(self@, zome@) == Option::Some(code@),
                Option::None => spec_wasm_of(self@, zome@) is None,
            },
    {
        let query: String = zome.to_owned();
        let mut i: usize = 0;
        proof {
            assert(self@.zomes.subrange(0, self@.zomes.len() as int) =~= self@.zomes);
        }
        while i < self.zomes.len()
            invariant
                i <= self.zomes.len(),
                query@ == zome@,
                spec_find_zome(zome_views(self.zomes@), zome@) == spec_find_zome(
                    zome_views(self.zomes@).subrange(i as int, self.zomes@.len() as int),
                    zome@,
                ),
            decreases self.zomes.len() - i,
        {
            let ghost zs = zome_views(self.zomes@);
            proof {
                assert(zs.subrange(i as int, zs.len() as int)[0] == zs[i as int]);
                assert(zs.subrange(i as int, zs.len() as int).subrange(
                    1,
                    zs.subrange(i as int, zs.len() as int).len() as int,
                ) =~= zs.subrange(i as int + 1, zs.len() as int));
            }
            if self.zomes[i].name == query {
                proof {
                    assert(zs[i as int].name == zome@);
                }
                if self.zomes[i].code.len() == 0 {
                    return None;
                } else {
                    let code = copy_vec(&self.zomes[i].code);
                    return Some(code);
                }
            }
            proof {
                assert(zs[i as int].name != zome@);
            }
            i = i + 1;
        }
        proof {
            let ghost zs = zome_views(self.zomes@);
            assert(zs.subrange(zs.len() as int, zs.len() as int) =~= Seq::<ZomeV>::empty());
        }
        None
    }
}

/// The view of an optional application definition.
pub open spec fn dna_view(dna: Option<AppDefinition>) -> Option<AppDefV> {
    match dna {
        Option::Some(d) => Option::Some(d@),
        Option::None => Option::None,
    }
}

/// Agent sub-state: the identity this instance acts as and its personal,
/// append-only source chain. The top header is the last element.
#[derive(Clone, PartialEq, Debug)]
pub struct AgentState {
    pub agent: AgentId,
    /// The source chain, oldest header first.
    pub chain: Vec<ChainHeader>,
}

/// Mathematical image of an [`AgentState`].
#[verifier::ext_equal]
pub struct AgentStateV {
    pub agent: AgentId,
    pub chain: Seq<ChainHeader>,
}

impl View for AgentState {
    type V = AgentStateV;

    open spec fn view(&self) -> AgentStateV {
        AgentStateV { agent: self.agent, chain: self.chain@ }
    }
}

/// The top header of a chain: the newest link, if the chain is non-empty.
pub open spec fn spec_top_header(chain: Seq<ChainHeader>) -> Option<ChainHeader> {
    if chain.len() == 0 {
        Option::None
    } else {
        Option::Some(chain.last())
    }
}

impl AgentState {
    /// The pointer to the latest chain entry, or `None` on an empty chain.
    pub fn top_chain_header(&self) -> (r: Option<ChainHeader>)
        ensures
            r == spec_top_header(self@.chain),
    {
        if self.chain.len() == 0 {
            None
        } else {
            Some(self.chain[self.chain.len() - 1])
        }
    }

    /// The identity this instance acts as.
    pub fn get_agent(&self) -> (r: AgentId)
        ensures
            r == self.agent,
    {
        self.agent.clone_id()
    }

    pub fn duplicate(&self) -> (r: AgentState)
        ensures
            r@ == self@,
    {
        AgentState { agent: self.agent.clone_id(), chain: copy_vec(&self.chain) }
    }
}

/// Execution sub-state: the loaded application definition (absent until
/// bootstrapping delivers it), in-flight call identifiers, and validation
/// work whose dependencies were not yet satisfied.
#[derive(Clone, PartialEq, Debug)]
pub struct NucleusState {
    pub dna: Option<AppDefinition>,
    pub running_calls: Vec<u64>,
    pub pending_validations: Vec<PendingValidation>,
}

/// Mathematical image of a [`NucleusState`].
#[verifier::ext_equal]
pub struct NucleusStateV {
    pub dna: Option<AppDefV>,
    pub running_calls: Seq<u64>,
    pub pending_validations: Seq<PendingValidation>,
}

impl View for NucleusState {
    type V = NucleusStateV;

    open spec fn view(&self) -> NucleusStateV {
        NucleusStateV {
            dna: dna_view(self.dna),
            running_calls: self.running_calls@,
            pending_validations: self.pending_validations@,
        }
    }
}

impl NucleusState {
    /// The loaded application definition, if any.
    pub fn dna(&self) -> (r: &Option<AppDefinition>)
        ensures
            r == &self.dna,
    {
        &self.dna
    }

    pub fn duplicate(&self) -> (r: NucleusState)
        ensures
            r@ == self@,
    {
        let dna = match &self.dna {
            Some(d) => Some(d.duplicate()),
            None => None,
        };
        NucleusState {
            dna,
            running_calls: copy_vec(&self.running_calls),
            pending_validations: copy_vec(&self.pending_validations),
        }
    }
}

/// Network sub-state: in-flight query, validation-package-request and
/// direct-message workflows, each tracked by correlation id.
#[derive(Clone, PartialEq, Debug)]
pub struct NetworkState {
    pub query_flows: Vec<u64>,
    pub validation_package_flows: Vec<u64>,
    pub direct_message_flows: Vec<u64>,
}

/// Mathematical image of a [`NetworkState`].
#[verifier::ext_equal]
pub struct NetworkStateV {
    pub query_flows: Seq<u64>,
    pub validation_package_flows: Seq<u64>,
    pub direct_message_flows: Seq<u64>,
}

impl View for NetworkState {
    type V = NetworkStateV;

    open spec fn view(&self) -> NetworkStateV {
        NetworkStateV {
            query_flows: self.query_flows@,
            validation_package_flows: self.validation_package_flows@,
            direct_message_flows: self.direct_message_flows@,
        }
    }
}

impl NetworkState {
    pub fn duplicate(&self) -> (r: NetworkState)
        ensures
            r@ == self@,
    {
        NetworkState {
            query_flows: copy_vec(&self.query_flows),
            validation_package_flows: copy_vec(&self.validation_package_flows),
            direct_message_flows: copy_vec(&self.direct_message_flows),
        }
    }
}

/// DHT sub-state: the content addresses this instance currently holds.
#[derive(Clone, PartialEq, Debug)]
pub struct DhtState {
    pub held: Vec<Address>,
}

/// Mathematical image of a [`DhtState`].
#[verifier::ext_equal]
pub struct DhtStateV {
    pub held: Seq<Address>,
}

impl View for DhtState {
    type V = DhtStateV;

    open spec fn view(&self) -> DhtStateV {
        DhtStateV { held: self.held@ }
    }
}

impl DhtState {
    pub fn duplicate(&self) -> (r: DhtState)
        ensures
            r@ == self@,
    {
        DhtState { held: copy_vec(&self.held) }
    }
}

/// One application state snapshot.
#[derive(Clone, PartialEq, Debug)]
pub struct State {
    pub agent: AgentState,
    pub nucleus: NucleusState,
    pub network: NetworkState,
    pub dht: DhtState,
}

/// Mathematical image of a [`State`].
#[verifier::ext_equal]
pub struct StateV {
    pub agent: AgentStateV,
    pub nucleus: NucleusStateV,
    pub network: NetworkStateV,
    pub dht: DhtStateV,
}

impl View for State {
    type V = StateV;

    open spec fn view(&self) -> StateV {
        StateV {
            agent: self.agent@,
            nucleus: self.nucleus@,
            network: self.network@,
            dht: self.dht@,
        }
    }
}

/// The view of a freshly bootstrapped state for the given identity.
pub open spec fn spec_initial_state(agent: AgentId) -> StateV {
    StateV {
        agent: AgentStateV { agent, chain: Seq::empty() },
        nucleus: NucleusStateV {
            dna: Option::None,
            running_calls: Seq::empty(),
            pending_validations: Seq::empty(),
        },
        network: NetworkStateV {
            query_flows: Seq::empty(),
            validation_package_flows: Seq::empty(),
            direct_message_flows: Seq::empty(),
        },
        dht: DhtStateV { held: Seq::empty() },
    }
}

impl State {
    /// The state a fresh instance boots from: empty chain, nothing loaded,
    /// nothing in flight, nothing held.
    pub fn initial(agent: AgentId) -> (r: State)
        ensures
            r@ == spec_initial_state(agent),
    {
        let r = State {
            agent: AgentState { agent, chain: Vec::new() },
            nucleus: NucleusState {
                dna: None,
                running_calls: Vec::new(),
                pending_validations: Vec::new(),
            },
            network: NetworkState {
                query_flows: Vec::new(),
                validation_package_flows: Vec::new(),
                direct_message_flows: Vec::new(),
            },
            dht: DhtState { held: Vec::new() },
        };
        proof {
            assert(r@.agent.chain =~= spec_initial_state(r.agent.agent).agent.chain);
            assert(r@.nucleus.running_calls =~= Seq::<u64>::empty());
            assert(r@.nucleus.pending_validations =~= Seq::<PendingValidation>::empty());
            assert(r@.network.query_flows =~= Seq::<u64>::empty());
            assert(r@.network.validation_package_flows =~= Seq::<u64>::empty());
            assert(r@.network.direct_message_flows =~= Seq::<u64>::empty());
            assert(r@.dht.held =~= Seq::<u64>::empty());
        }
        r
    }

    pub fn duplicate(&self) -> (r: State)
        ensures
            r@ == self@,
    {
        State {
            agent: self.agent.duplicate(),
            nucleus: self.nucleus.duplicate(),
            network: self.network.duplicate(),
            dht: self.dht.duplicate(),
        }
    }
}

impl AgentId {
    /// Copies the identity; a plain clone stated exactly.
    pub fn clone_id(&self) -> (r: AgentId)
        ensures
            r == *self,
    {
        AgentId { nick: self.nick.clone(), pub_sign_key: self.pub_sign_key.clone() }
    }
}

/// A snapshot paired with the command history that produced it. The
/// history and the boot state are ghost: they exist for specification
/// only and cost nothing at runtime.
#[derive(Clone)]
pub struct StateWrapper {
    pub state: State,
    /// The snapshot this instance booted from.
    pub init: Ghost<StateV>,
    /// Every envelope applied so far, in application order.
    pub history: Ghost<Seq<CommandEnvelope>>,
}

impl StateWrapper {
    /// Snapshot consistency: the carried state is exactly the fold of the
    /// reducer over the boot state and the recorded history. Every
    /// published snapshot satisfies this, so a reader always observes the
    /// full effect of a prefix of the applied commands, never part of one.
    pub open spec fn wf(self) -> bool {
        self.state@ == crate::reducer::spec_fold(self.init@, self.history@)
    }

    /// Wraps the boot snapshot with an empty history.
    pub fn new_initial(state: State) -> (r: StateWrapper)
        ensures
            r.wf(),
            r.state@ == state@,
            r.init@ == state@,
            r.history@ == Seq::<CommandEnvelope>::empty(),
    {
        let ghost v = state@;
        StateWrapper { state, init: Ghost(v), history: Ghost(Seq::empty()) }
    }

    pub fn duplicate(&self) -> (r: StateWrapper)
        ensures
            r.state@ == self.state@,
            r.init == self.init,
            r.history == self.history,
            self.wf() ==> r.wf(),
    {
        StateWrapper { state: self.state.duplicate(), init: self.init, history: self.history }
    }
}

} // verus!
