//! The reducer: a pure, total function from a state snapshot and one
//! command to the next snapshot. It does no input/output, never blocks and
//! touches no shared state; commands it has nothing to do (the liveness
//! probe) leave the snapshot unchanged.

use vstd::prelude::*;
use crate::action::{Command, CommandEnvelope};
use crate::state::{AgentStateV, DhtStateV, NetworkStateV, NucleusStateV, State, StateV};
use crate::types::{Address, FlowKind, PendingValidation, ValidatingWorkflow};

verus! {

/// Adds an identifier to a set kept as a sequence: a no-op if present.
pub open spec fn spec_add_id(s: Seq<u64>, x: u64) -> Seq<u64> {
    if s.contains(x) {
        s
    } else {
        s.push(x)
    }
}

/// Removes every occurrence of an identifier.
pub open spec fn spec_remove_id(s: Seq<u64>, x: u64) -> Seq<u64> {
    s.filter(|y: u64| y != x)
}

/// Queues pending validation work: a no-op if the same work is queued.
pub open spec fn spec_queue_pending(
    s: Seq<PendingValidation>,
    pv: PendingValidation,
) -> Seq<PendingValidation> {
    if s.contains(pv) {
        s
    } else {
        s.push(pv)
    }
}

/// Drops the pending validation work queued under the given address and
/// workflow.
pub open spec fn spec_remove_pending(
    s: Seq<PendingValidation>,
    a: Address,
    w: ValidatingWorkflow,
) -> Seq<PendingValidation> {
    s.filter(|p: PendingValidation| !(p.address == a && p.workflow == w))
}

/// What one command does to a snapshot. This is the single place the
/// meaning of every command is written down; the executable reducer and
/// the dispatch loop are proved against it.
pub open spec fn spec_reduce(s: StateV, c: Command) -> StateV {
    match c {
        Command::Commit(h) => StateV {
            agent: AgentStateV { chain: s.agent.chain.push(h), ..s.agent },
            ..s
        },
        Command::HoldRequest(a) => StateV {
            nucleus: NucleusStateV {
                pending_validations: spec_queue_pending(
                    s.nucleus.pending_validations,
                    PendingValidation { address: a, workflow: ValidatingWorkflow::HoldEntry },
                ),
                ..s.nucleus
            },
            ..s
        },
        Command::Hold(a) => StateV { dht: DhtStateV { held: spec_add_id(s.dht.held, a) }, ..s },
        Command::RemoveHeld(a) => StateV {
            dht: DhtStateV { held: spec_remove_id(s.dht.held, a) },
            ..s
        },
        Command::RemovePendingValidation(a, w) => StateV {
            nucleus: NucleusStateV {
                pending_validations: spec_remove_pending(s.nucleus.pending_validations, a, w),
                ..s.nucleus
            },
            ..s
        },
        Command::SetDna(d) => StateV {
            nucleus: NucleusStateV { dna: Option::Some(d@), ..s.nucleus },
            ..s
        },
        Command::AddRunningCall(id) => StateV {
            nucleus: NucleusStateV {
                running_calls: spec_add_id(s.nucleus.running_calls, id),
                ..s.nucleus
            },
            ..s
        },
        Command::RemoveRunningCall(id) => StateV {
            nucleus: NucleusStateV {
                running_calls: spec_remove_id(s.nucleus.running_calls, id),
                ..s.nucleus
            },
            ..s
        },
        Command::FlowStart(k, id) => StateV {
            network: match k {
                FlowKind::Query => NetworkStateV {
                    query_flows: spec_add_id(s.network.query_flows, id),
                    ..s.network
                },
                FlowKind::ValidationPackage => NetworkStateV {
                    validation_package_flows: spec_add_id(s.network.validation_package_flows, id),
                    ..s.network
                },
                FlowKind::DirectMessage => NetworkStateV {
                    direct_message_flows: spec_add_id(s.network.direct_message_flows, id),
                    ..s.network
                },
            },
            ..s
        },
        Command::FlowEnd(k, id) => StateV {
            network: match k {
                FlowKind::Query => NetworkStateV {
                    query_flows: spec_remove_id(s.network.query_flows, id),
                    ..s.network
                },
                FlowKind::ValidationPackage => NetworkStateV {
                    validation_package_flows: spec_remove_id(
                        s.network.validation_package_flows,
                        id,
                    ),
                    ..s.network
                },
                FlowKind::DirectMessage => NetworkStateV {
                    direct_message_flows: spec_remove_id(s.network.direct_message_flows, id),
                    ..s.network
                },
            },
            ..s
        },
        Command::Ping => s,
    }
}

/// Folding the reducer over a whole command sequence: the reference
/// against which the dispatch loop is proved deterministic.
pub open spec fn spec_fold(init: StateV, envs: Seq<CommandEnvelope>) -> StateV
    decreases envs.len(),
{
    if envs.len() == 0 {
        init
    } else {
        spec_reduce(spec_fold(init, envs.drop_last()), envs.last().command)
    }
}

/// Appending one envelope to a history folds as one more reduction.
pub proof fn lemma_fold_snoc(init: StateV, envs: Seq<CommandEnvelope>, e: CommandEnvelope)
    ensures
        spec_fold(init, envs.push(e)) == spec_reduce(spec_fold(init, envs), e.command),
{
    assert(envs.push(e).drop_last() =~= envs);
    assert(envs.push(e).last() == e);
}

/// Determinism of serialized dispatch: applying a history in two runs of
/// any split yields the fold of the whole sequence. However commands from
/// different producers interleaved before serialization, the final state
/// is a function of the one serialized order alone.
pub proof fn lemma_fold_append(init: StateV, a: Seq<CommandEnvelope>, b: Seq<CommandEnvelope>)
    ensures
        spec_fold(init, a + b) == spec_fold(spec_fold(init, a), b),
    decreases b.len(),
{
    if b.len() == 0 {
        assert(a + b =~= a);
    } else {
        lemma_fold_append(init, a, b.drop_last());
        assert((a + b).drop_last() =~= a + b.drop_last());
        assert((a + b).last() == b.last());
    }
}

/// Folding the reducer over bare commands; what a batch of submissions
/// does to a snapshot once serialized.
pub open spec fn spec_apply_commands(init: StateV, cs: Seq<Command>) -> StateV
    decreases cs.len(),
{
    if cs.len() == 0 {
        init
    } else {
        spec_reduce(spec_apply_commands(init, cs.drop_last()), cs.last())
    }
}

/// Appending one command folds as one more reduction.
pub proof fn lemma_apply_snoc(init: StateV, cs: Seq<Command>, c: Command)
    ensures
        spec_apply_commands(init, cs.push(c)) == spec_reduce(spec_apply_commands(init, cs), c),
{
    assert(cs.push(c).drop_last() =~= cs);
    assert(cs.push(c).last() == c);
}

/// Splitting a command batch folds as two folds in order.
pub proof fn lemma_apply_append(init: StateV, a: Seq<Command>, b: Seq<Command>)
    ensures
        spec_apply_commands(init, a + b) == spec_apply_commands(spec_apply_commands(init, a), b),
    decreases b.len(),
{
    if b.len() == 0 {
        assert(a + b =~= a);
    } else {
        lemma_apply_append(init, a, b.drop_last());
        assert((a + b).drop_last() =~= a + b.drop_last());
        assert((a + b).last() == b.last());
    }
}

/// Nothing queued under the removed key survives the removal.
pub proof fn lemma_remove_pending_removes(
    s: Seq<PendingValidation>,
    a: Address,
    w: ValidatingWorkflow,
)
    ensures
        forall|p: PendingValidation|
            #[trigger] spec_remove_pending(s, a, w).contains(p) ==> !(p.address == a && p.workflow
                == w),
    decreases s.len(),
{
    reveal(Seq::filter);
    if s.len() == 0 {
    } else {
        lemma_remove_pending_removes(s.drop_last(), a, w);
        assert forall|p: PendingValidation|
            #[trigger] spec_remove_pending(s, a, w).contains(p) implies !(p.address == a
            && p.workflow == w) by {
            let rest = spec_remove_pending(s.drop_last(), a, w);
            let removed = spec_remove_pending(s, a, w);
            let i = choose|i: int| 0 <= i < removed.len() && removed[i] == p;
            if removed == rest {
                assert(rest.contains(p)) by {
                    assert(rest[i] == p);
                }
            } else {
                if i < rest.len() {
                    assert(rest.contains(p)) by {
                        assert(rest[i] == p);
                    }
                } else {
                    assert(p == s.last());
                }
            }
        }
    }
}

/// Everything queued under a different key survives the removal.
pub proof fn lemma_remove_pending_keeps(
    s: Seq<PendingValidation>,
    a: Address,
    w: ValidatingWorkflow,
)
    ensures
        forall|p: PendingValidation|
            s.contains(p) && !(p.address == a && p.workflow == w) ==> #[trigger] spec_remove_pending(
                s,
                a,
                w,
            ).contains(p),
    decreases s.len(),
{
    reveal(Seq::filter);
    if s.len() > 0 {
        lemma_remove_pending_keeps(s.drop_last(), a, w);
        assert forall|p: PendingValidation|
            s.contains(p) && !(p.address == a && p.workflow == w) implies #[trigger] spec_remove_pending(
            s,
            a,
            w,
        ).contains(p) by {
            let rest = spec_remove_pending(s.drop_last(), a, w);
            let removed = spec_remove_pending(s, a, w);
            if p == s.last() {
                assert(removed == rest.push(p));
                assert(removed[removed.len() - 1] == p);
            } else {
                let i = choose|i: int| 0 <= i < s.len() && s[i] == p;
                assert(s.drop_last()[i] == p);
                assert(s.drop_last().contains(p));
                assert(rest.contains(p));
                let j = choose|j: int| 0 <= j < rest.len() && rest[j] == p;
                assert(removed[j] == p);
            }
        }
    }
}

/// The removal never adds: everything in the result was queued before.
pub proof fn lemma_remove_pending_subset(
    s: Seq<PendingValidation>,
    a: Address,
    w: ValidatingWorkflow,
)
    ensures
        forall|p: PendingValidation|
            #[trigger] spec_remove_pending(s, a, w).contains(p) ==> s.contains(p),
    decreases s.len(),
{
    reveal(Seq::filter);
    if s.len() > 0 {
        lemma_remove_pending_subset(s.drop_last(), a, w);
        assert forall|p: PendingValidation|
            #[trigger] spec_remove_pending(s, a, w).contains(p) implies s.contains(p) by {
            let rest = spec_remove_pending(s.drop_last(), a, w);
            let removed = spec_remove_pending(s, a, w);
            let i = choose|i: int| 0 <= i < removed.len() && removed[i] == p;
            if removed == rest || i < rest.len() {
                assert(rest.contains(p)) by {
                    assert(rest[i] == p);
                }
                assert(s.drop_last().contains(p));
                let j = choose|j: int| 0 <= j < s.drop_last().len() && s.drop_last()[j] == p;
                assert(s[j] == p);
            } else {
                assert(p == s.last());
                assert(s[s.len() - 1] == p);
            }
        }
    }
}

/// Whatever was added by `spec_add_id` is in the result, and the result
/// holds exactly the old members plus the added one.
pub proof fn lemma_add_id_contains(s: Seq<u64>, x: u64)
    ensures
        spec_add_id(s, x).contains(x),
        forall|y: u64| #[trigger] spec_add_id(s, x).contains(y) <==> s.contains(y) || y == x,
{
    if s.contains(x) {
    } else {
        assert(spec_add_id(s, x)[s.len() as int] == x);
        assert forall|y: u64| #[trigger] spec_add_id(s, x).contains(y) implies s.contains(y) || y
            == x by {
            let i = choose|i: int| 0 <= i < spec_add_id(s, x).len() && spec_add_id(s, x)[i] == y;
            if i < s.len() {
                assert(s[i] == y);
            }
        }
        assert forall|y: u64| s.contains(y) || y == x implies #[trigger] spec_add_id(
            s,
            x,
        ).contains(y) by {
            if s.contains(y) {
                let i = choose|i: int| 0 <= i < s.len() && s[i] == y;
                assert(spec_add_id(s, x)[i] == y);
            }
        }
    }
}

proof fn lemma_remove_id_empty(x: u64)
    ensures
        spec_remove_id(Seq::empty(), x) == Seq::<u64>::empty(),
{
    reveal(Seq::filter);
    assert(spec_remove_id(Seq::empty(), x) =~= Seq::<u64>::empty());
}

proof fn lemma_remove_id_push(s: Seq<u64>, x: u64, e: u64)
    ensures
        spec_remove_id(s.push(e), x) == if e != x {
            spec_remove_id(s, x).push(e)
        } else {
            spec_remove_id(s, x)
        },
{
    reveal(Seq::filter);
    assert(s.push(e).drop_last() =~= s);
    assert(s.push(e).last() == e);
}

proof fn lemma_remove_pending_empty(a: Address, w: ValidatingWorkflow)
    ensures
        spec_remove_pending(Seq::empty(), a, w) == Seq::<PendingValidation>::empty(),
{
    reveal(Seq::filter);
    assert(spec_remove_pending(Seq::empty(), a, w) =~= Seq::<PendingValidation>::empty());
}

proof fn lemma_remove_pending_push(
    s: Seq<PendingValidation>,
    a: Address,
    w: ValidatingWorkflow,
    e: PendingValidation,
)
    ensures
        spec_remove_pending(s.push(e), a, w) == if !(e.address == a && e.workflow == w) {
            spec_remove_pending(s, a, w).push(e)
        } else {
            spec_remove_pending(s, a, w)
        },
{
    reveal(Seq::filter);
    assert(s.push(e).drop_last() =~= s);
    assert(s.push(e).last() == e);
}

fn vec_contains_id(v: &Vec<u64>, x: u64) -> (r: bool)
    ensures
        r == v@.contains(x),
{
    let mut i: usize = 0;
    while i < v.len()
        invariant
            i <= v.len(),
            forall|j: int| 0 <= j < i ==> v@[j] != x,
        decreases v.len() - i,
    {
        if v[i] == x {
            return true;
        }
        i = i + 1;
    }
    false
}

fn add_id(v: Vec<u64>, x: u64) -> (r: Vec<u64>)
    ensures
        r@ == spec_add_id(v@, x),
{
    if vec_contains_id(&v, x) {
        v
    } else {
        let mut v = v;
        v.push(x);
        v
    }
}

fn remove_id(v: &Vec<u64>, x: u64) -> (r: Vec<u64>)
    ensures
        r@ == spec_remove_id(v@, x),
{
    let mut r: Vec<u64> = Vec::new();
    let mut i: usize = 0;
    proof {
        assert(v@.subrange(0, 0) =~= Seq::<u64>::empty());
        lemma_remove_id_empty(x);
    }
    while i < v.len()
        invariant
            i <= v.len(),
            r@ == spec_remove_id(v@.subrange(0, i as int), x),
        decreases v.len() - i,
    {
        proof {
            lemma_remove_id_push(v@.subrange(0, i as int), x, v@[i as int]);
            assert(v@.subrange(0, i as int).push(v@[i as int]) =~= v@.subrange(0, i + 1));
        }
        if v[i] != x {
            r.push(v[i]);
        }
        i = i + 1;
    }
    proof {
        assert(v@.subrange(0, v@.len() as int) =~= v@);
    }
    r
}

fn pending_contains(v: &Vec<PendingValidation>, pv: PendingValidation) -> (r: bool)
    ensures
        r == v@.contains(pv),
{
    let mut i: usize = 0;
    while i < v.len()
        invariant
            i <= v.len(),
            forall|j: int| 0 <= j < i ==> v@[j] != pv,
        decreases v.len() - i,
    {
        if v[i].address == pv.address && v[i].workflow == pv.workflow {
            return true;
        }
        i = i + 1;
    }
    false
}

fn queue_pending(v: Vec<PendingValidation>, pv: PendingValidation) -> (r: Vec<PendingValidation>)
    ensures
        r@ == spec_queue_pending(v@, pv),
{
    if pending_contains(&v, pv) {
        v
    } else {
        let mut v = v;
        v.push(pv);
        v
    }
}

fn remove_pending(
    v: &Vec<PendingValidation>,
    a: Address,
    w: ValidatingWorkflow,
) -> (r: Vec<PendingValidation>)
    ensures
        r@ == spec_remove_pending(v@, a, w),
{
    let mut r: Vec<PendingValidation> = Vec::new();
    let mut i: usize = 0;
    proof {
        assert(v@.subrange(0, 0) =~= Seq::<PendingValidation>::empty());
        lemma_remove_pending_empty(a, w);
    }
    while i < v.len()
        invariant
            i <= v.len(),
            r@ == spec_remove_pending(v@.subrange(0, i as int), a, w),
        decreases v.len() - i,
    {
        proof {
            lemma_remove_pending_push(v@.subrange(0, i as int), a, w, v@[i as int]);
            assert(v@.subrange(0, i as int).push(v@[i as int]) =~= v@.subrange(0, i + 1));
        }
        if !(v[i].address == a && v[i].workflow == w) {
            r.push(v[i]);
        }
        i = i + 1;
    }
    proof {
        assert(v@.subrange(0, v@.len() as int) =~= v@);
    }
    r
}

/// Applies one command to one snapshot and returns the next snapshot:
/// exactly [`spec_reduce`], no more and no less.
pub fn reduce(state: State, command: Command) -> (next: State)
    ensures
        next@ == spec_reduce(state@, command),
{
    let State { mut agent, mut nucleus, mut network, mut dht } = state;
    match command {
        Command::Commit(h) => {
            agent.chain.push(h);
        },
        Command::HoldRequest(a) => {
            nucleus.pending_validations = queue_pending(
                nucleus.pending_validations,
                PendingValidation { address: a, workflow: ValidatingWorkflow::HoldEntry },
            );
        },
        Command::Hold(a) => {
            dht.held = add_id(dht.held, a);
        },
        Command::RemoveHeld(a) => {
            dht.held = remove_id(&dht.held, a);
        },
        Command::RemovePendingValidation(a, w) => {
            nucleus.pending_validations = remove_pending(&nucleus.pending_validations, a, w);
        },
        Command::SetDna(d) => {
            nucleus.dna = Some(d);
        },
        Command::AddRunningCall(id) => {
            nucleus.running_calls = add_id(nucleus.running_calls, id);
        },
        Command::RemoveRunningCall(id) => {
            nucleus.running_calls = remove_id(&nucleus.running_calls, id);
        },
        Command::FlowStart(k, id) => {
            match k {
                FlowKind::Query => {
                    network.query_flows = add_id(network.query_flows, id);
                },
                FlowKind::ValidationPackage => {
                    network.validation_package_flows = add_id(
                        network.validation_package_flows,
                        id,
                    );
                },
                FlowKind::DirectMessage => {
                    network.direct_message_flows = add_id(network.direct_message_flows, id);
                },
            }
        },
        Command::FlowEnd(k, id) => {
            match k {
                FlowKind::Query => {
                    network.query_flows = remove_id(&network.query_flows, id);
                },
                FlowKind::ValidationPackage => {
                    network.validation_package_flows = remove_id(
                        &network.validation_package_flows,
                        id,
                    );
                },
                FlowKind::DirectMessage => {
                    network.direct_message_flows = remove_id(&network.direct_message_flows, id);
                },
            }
        },
        Command::Ping => {},
    }
    State { agent, nucleus, network, dht }
}

} // verus!
