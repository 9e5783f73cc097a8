//! The periodic maintenance pass over pending validation work. Each
//! invocation re-attempts every queued entry against the store: a
//! satisfiable one is resolved (held and dequeued), one whose dependency
//! is still missing stays queued for the next tick, and one whose own
//! content cannot even be fetched is abandoned (dequeued, failure
//! surfaced). No entry leaves the queue out of band; only this pass
//! produces the commands that move one.

use vstd::prelude::*;
use crate::action::{Command, CommandEnvelope};
use crate::context::Context;
use crate::reducer::{
    lemma_apply_append, lemma_apply_snoc, lemma_remove_pending_keeps, lemma_remove_pending_removes,
    lemma_remove_pending_subset, lemma_add_id_contains, spec_apply_commands, spec_reduce,
};
use crate::state::StateV;
use crate::store::CasStore;
use crate::types::{Address, CoreError, Entry, PendingValidation, ValidatingWorkflow};

verus! {

/// How one retry attempt of one queued entry ended.
#[derive(Clone, Copy, PartialEq, Eq, Structural, Debug)]
pub enum AttemptOutcome {
    /// The workflow went through: the entry leaves the queue.
    Resolved,
    /// The dependency is not yet satisfiable: the entry stays queued.
    StillPending,
    /// The entry's own content is gone: the entry leaves the queue and
    /// the failure is surfaced.
    Abandoned,
}

/// Whether everything the entry waits for is locally present: its own
/// content, and the entry that content depends on, if any.
pub open spec fn spec_dependency_satisfiable(
    cas: Map<Address, Entry>,
    pv: PendingValidation,
) -> bool {
    cas.contains_key(pv.address) && match cas[pv.address].spec_dependency() {
        Option::Some(d) => cas.contains_key(d),
        Option::None => true,
    }
}

/// One retry attempt, recomputed from the store each time: dependency
/// status is never cached on the entry.
pub open spec fn spec_attempt(cas: Map<Address, Entry>, pv: PendingValidation) -> AttemptOutcome {
    if !cas.contains_key(pv.address) {
        AttemptOutcome::Abandoned
    } else {
        match cas[pv.address].spec_dependency() {
            Option::None => AttemptOutcome::Resolved,
            Option::Some(d) => if cas.contains_key(d) {
                AttemptOutcome::Resolved
            } else {
                AttemptOutcome::StillPending
            },
        }
    }
}

/// An attempt resolves exactly when the dependency is satisfiable —
/// never before, and never later than the pass that finds it so.
pub proof fn lemma_attempt_resolved_iff_satisfiable(cas: Map<Address, Entry>, pv: PendingValidation)
    ensures
        spec_attempt(cas, pv) == AttemptOutcome::Resolved <==> spec_dependency_satisfiable(
            cas,
            pv,
        ),
{
}

/// Re-attempts one entry against the store: exactly [`spec_attempt`].
pub fn attempt(store: &CasStore, pv: PendingValidation) -> (r: AttemptOutcome)
    ensures
        r == spec_attempt(store@, pv),
{
    match store.fetch(pv.address) {
        None => AttemptOutcome::Abandoned,
        Some(e) => match e.dependency() {
            None => AttemptOutcome::Resolved,
            Some(d) => if store.contains(d) {
                AttemptOutcome::Resolved
            } else {
                AttemptOutcome::StillPending
            },
        },
    }
}

/// The commands one entry's retry produces. A resolved hold is recorded
/// as held and dequeued; a resolved publish is dequeued (the publishing
/// itself is the network collaborator's work); an abandoned entry is
/// dequeued; a still-pending one produces nothing.
pub open spec fn spec_retry_commands_for(
    cas: Map<Address, Entry>,
    pv: PendingValidation,
) -> Seq<Command> {
    match spec_attempt(cas, pv) {
        AttemptOutcome::Resolved => if pv.workflow == ValidatingWorkflow::HoldEntry {
            seq![
                Command::Hold(pv.address),
                Command::RemovePendingValidation(pv.address, pv.workflow),
            ]
        } else {
            seq![Command::RemovePendingValidation(pv.address, pv.workflow)]
        },
        AttemptOutcome::StillPending => Seq::empty(),
        AttemptOutcome::Abandoned => seq![
            Command::RemovePendingValidation(pv.address, pv.workflow),
        ],
    }
}

/// The commands a whole pass produces: each queued entry's commands, in
/// queue order.
pub open spec fn spec_retry_pass(
    pending: Seq<PendingValidation>,
    cas: Map<Address, Entry>,
) -> Seq<Command>
    decreases pending.len(),
{
    if pending.len() == 0 {
        Seq::empty()
    } else {
        spec_retry_pass(pending.drop_last(), cas) + spec_retry_commands_for(cas, pending.last())
    }
}

/// The entries a pass abandons, in queue order.
pub open spec fn spec_abandoned(
    pending: Seq<PendingValidation>,
    cas: Map<Address, Entry>,
) -> Seq<PendingValidation>
    decreases pending.len(),
{
    if pending.len() == 0 {
        Seq::empty()
    } else {
        let rest = spec_abandoned(pending.drop_last(), cas);
        if spec_attempt(cas, pending.last()) == AttemptOutcome::Abandoned {
            rest.push(pending.last())
        } else {
            rest
        }
    }
}

/// Computes one maintenance pass against a store snapshot: the commands
/// to submit, and the entries abandoned (their failure surfaced to the
/// caller). Exactly [`spec_retry_pass`] and [`spec_abandoned`].
pub fn retry_pass(pending: &Vec<PendingValidation>, store: &CasStore) -> (r: (
    Vec<Command>,
    Vec<PendingValidation>,
))
    ensures
        r.0@ == spec_retry_pass(pending@, store@),
        r.1@ == spec_abandoned(pending@, store@),
{
    let mut cmds: Vec<Command> = Vec::new();
    let mut abandoned: Vec<PendingValidation> = Vec::new();
    let mut i: usize = 0;
    proof {
        assert(pending@.subrange(0, 0) =~= Seq::<PendingValidation>::empty());
    }
    while i < pending.len()
        invariant
            i <= pending.len(),
            cmds@ == spec_retry_pass(pending@.subrange(0, i as int), store@),
            abandoned@ == spec_abandoned(pending@.subrange(0, i as int), store@),
        decreases pending.len() - i,
    {
        let pv = pending[i];
        proof {
            assert(pending@.subrange(0, i as int + 1).last() == pending@[i as int]);
            assert(pending@.subrange(0, i as int + 1).drop_last() =~= pending@.subrange(
                0,
                i as int,
            ));
        }
        match attempt(store, pv) {
            AttemptOutcome::Resolved => {
                if pv.workflow == ValidatingWorkflow::HoldEntry {
                    cmds.push(Command::Hold(pv.address));
                }
                cmds.push(Command::RemovePendingValidation(pv.address, pv.workflow));
            },
            AttemptOutcome::StillPending => {},
            AttemptOutcome::Abandoned => {
                cmds.push(Command::RemovePendingValidation(pv.address, pv.workflow));
                abandoned.push(pv);
            },
        }
        proof {
            assert(cmds@ =~= spec_retry_pass(pending@.subrange(0, i as int + 1), store@));
            assert(abandoned@ =~= spec_abandoned(pending@.subrange(0, i as int + 1), store@));
        }
        i = i + 1;
    }
    proof {
        assert(pending@.subrange(0, pending@.len() as int) =~= pending@);
    }
    (cmds, abandoned)
}

/// One invocation of the maintenance job's retry pass on a live
/// instance: sample the current snapshot and the DHT store, compute the
/// pass, and submit its commands to the dispatch loop. Returns the
/// entries the pass abandoned, their failure surfaced to the caller; a
/// dependency still missing is no error, the entry simply stays queued.
pub fn run_pending_validations(context: &Context) -> (r: Result<
    Vec<PendingValidation>,
    CoreError,
>)
    ensures
        !context.spec_has_state() ==> r == Result::<Vec<PendingValidation>, CoreError>::Err(
            CoreError::StateUninitialized,
        ),
        context.spec_has_state() && context.action_channel is None ==> r == Result::<
            Vec<PendingValidation>,
            CoreError,
        >::Err(CoreError::InitializationFailed),
{
    let snapshot = match context.state() {
        None => {
            return Err(CoreError::StateUninitialized);
        },
        Some(snapshot) => snapshot,
    };
    let store = context.dht_storage.snapshot();
    let (cmds, abandoned) = retry_pass(&snapshot.state.nucleus.pending_validations, &store);
    match &context.action_channel {
        None => Err(CoreError::InitializationFailed),
        Some(tx) => {
            let mut rest = cmds;
            while rest.len() > 0
                invariant
                    context.spec_has_state(),
                    context.action_channel is Some,
                decreases rest.len(),
            {
                let cmd = rest.remove(0);
                match tx.send(CommandEnvelope::new(cmd, 0)) {
                    Ok(_) => {},
                    Err(_) => {
                        return Err(CoreError::LifecycleError);
                    },
                }
            }
            Ok(abandoned)
        },
    }
}

/// What one entry's retry commands do to a snapshot, once the dispatch
/// loop applies them: a resolved entry is dequeued — and, for a hold, the
/// address is recorded as held; a still-pending entry changes nothing; an
/// abandoned entry is dequeued. Together with
/// [`lemma_attempt_resolved_iff_satisfiable`]: an entry whose dependency
/// has become satisfiable is resolved by the very next pass, and an entry
/// is never resolved while its dependency is unsatisfiable.
pub proof fn lemma_retry_block_effect(s: StateV, cas: Map<Address, Entry>, pv: PendingValidation)
    ensures
        ({
            let s2 = spec_apply_commands(s, spec_retry_commands_for(cas, pv));
            &&& (spec_attempt(cas, pv) == AttemptOutcome::Resolved
                ==> !s2.nucleus.pending_validations.contains(pv))
            &&& (spec_attempt(cas, pv) == AttemptOutcome::Resolved && pv.workflow
                == ValidatingWorkflow::HoldEntry ==> s2.dht.held.contains(pv.address))
            &&& (spec_attempt(cas, pv) == AttemptOutcome::StillPending ==> s2 == s)
            &&& (spec_attempt(cas, pv) == AttemptOutcome::Abandoned
                ==> !s2.nucleus.pending_validations.contains(pv))
        }),
{
    let cs = spec_retry_commands_for(cas, pv);
    match spec_attempt(cas, pv) {
        AttemptOutcome::Resolved => {
            if pv.workflow == ValidatingWorkflow::HoldEntry {
                let hold = Command::Hold(pv.address);
                let rm = Command::RemovePendingValidation(pv.address, pv.workflow);
                assert(cs =~= seq![hold].push(rm));
                assert(seq![hold].drop_last() =~= Seq::<Command>::empty());
                lemma_apply_snoc(s, seq![hold], rm);
                let s1 = spec_reduce(s, hold);
                assert(spec_apply_commands(s, Seq::<Command>::empty()) == s);
                assert(spec_apply_commands(s, seq![hold]) == s1);
                lemma_add_id_contains(s.dht.held, pv.address);
                let s2 = spec_reduce(s1, rm);
                assert(spec_apply_commands(s, cs) == s2);
                lemma_remove_pending_removes(s1.nucleus.pending_validations, pv.address, pv.workflow);
                assert(s2.dht.held.contains(pv.address));
                assert(!s2.nucleus.pending_validations.contains(pv));
            } else {
                let rm = Command::RemovePendingValidation(pv.address, pv.workflow);
                assert(cs =~= Seq::<Command>::empty().push(rm));
                lemma_apply_snoc(s, Seq::empty(), rm);
                lemma_remove_pending_removes(s.nucleus.pending_validations, pv.address, pv.workflow);
            }
        },
        AttemptOutcome::StillPending => {
        },
        AttemptOutcome::Abandoned => {
            let rm = Command::RemovePendingValidation(pv.address, pv.workflow);
            assert(cs =~= Seq::<Command>::empty().push(rm));
            lemma_apply_snoc(s, Seq::empty(), rm);
            lemma_remove_pending_removes(s.nucleus.pending_validations, pv.address, pv.workflow);
        },
    }
}

/// One entry's retry commands touch nothing they do not own: they never
/// queue pending work, they never dequeue work under another key, and
/// they never stop holding anything.
proof fn lemma_block_preserves(
    t: StateV,
    cas: Map<Address, Entry>,
    e: PendingValidation,
    pv: PendingValidation,
)
    ensures
        ({
            let t2 = spec_apply_commands(t, spec_retry_commands_for(cas, e));
            &&& (!t.nucleus.pending_validations.contains(pv)
                ==> !t2.nucleus.pending_validations.contains(pv))
            &&& (t.nucleus.pending_validations.contains(pv) && pv != e
                ==> t2.nucleus.pending_validations.contains(pv))
            &&& (forall|x: Address|
                t.dht.held.contains(x) ==> #[trigger] t2.dht.held.contains(x))
        }),
{
    let cs = spec_retry_commands_for(cas, e);
    match spec_attempt(cas, e) {
        AttemptOutcome::Resolved => {
            let rm = Command::RemovePendingValidation(e.address, e.workflow);
            if e.workflow == ValidatingWorkflow::HoldEntry {
                let hold = Command::Hold(e.address);
                assert(cs =~= seq![hold].push(rm));
                assert(seq![hold].drop_last() =~= Seq::<Command>::empty());
                lemma_apply_snoc(t, seq![hold], rm);
                assert(spec_apply_commands(t, Seq::<Command>::empty()) == t);
                let t1 = spec_reduce(t, hold);
                assert(spec_apply_commands(t, seq![hold]) == t1);
                lemma_add_id_contains(t.dht.held, e.address);
                lemma_remove_pending_keeps(t1.nucleus.pending_validations, e.address, e.workflow);
                lemma_remove_pending_subset(t1.nucleus.pending_validations, e.address, e.workflow);
            } else {
                assert(cs =~= Seq::<Command>::empty().push(rm));
                lemma_apply_snoc(t, Seq::empty(), rm);
                lemma_remove_pending_keeps(t.nucleus.pending_validations, e.address, e.workflow);
                lemma_remove_pending_subset(t.nucleus.pending_validations, e.address, e.workflow);
            }
        },
        AttemptOutcome::StillPending => {
        },
        AttemptOutcome::Abandoned => {
            let rm = Command::RemovePendingValidation(e.address, e.workflow);
            assert(cs =~= Seq::<Command>::empty().push(rm));
            lemma_apply_snoc(t, Seq::empty(), rm);
            lemma_remove_pending_keeps(t.nucleus.pending_validations, e.address, e.workflow);
            lemma_remove_pending_subset(t.nucleus.pending_validations, e.address, e.workflow);
        },
    }
}

/// Retry convergence for a whole pass. With the pass computed from the
/// queue `q` and its commands applied to `s`:
/// an entry of `q` whose dependency is satisfiable is dequeued by this
/// very pass — and, for a hold, recorded as held; an entry whose
/// dependency is still unsatisfiable but present is left queued, exactly
/// as it was; and (with [`lemma_attempt_resolved_iff_satisfiable`]) no
/// entry is ever resolved while its dependency is unsatisfiable.
pub proof fn lemma_retry_pass_convergence(
    s: StateV,
    cas: Map<Address, Entry>,
    q: Seq<PendingValidation>,
    pv: PendingValidation,
)
    ensures
        ({
            let s2 = spec_apply_commands(s, spec_retry_pass(q, cas));
            &&& (q.contains(pv) && spec_dependency_satisfiable(cas, pv)
                ==> !s2.nucleus.pending_validations.contains(pv))
            &&& (q.contains(pv) && spec_dependency_satisfiable(cas, pv) && pv.workflow
                == ValidatingWorkflow::HoldEntry ==> s2.dht.held.contains(pv.address))
            &&& (spec_attempt(cas, pv) == AttemptOutcome::StillPending
                && s.nucleus.pending_validations.contains(pv)
                ==> s2.nucleus.pending_validations.contains(pv))
        }),
    decreases q.len(),
{
    if q.len() == 0 {
        assert(spec_apply_commands(s, spec_retry_pass(q, cas)) == s);
    } else {
        let e = q.last();
        let prefix_cmds = spec_retry_pass(q.drop_last(), cas);
        let block = spec_retry_commands_for(cas, e);
        assert(spec_retry_pass(q, cas) == prefix_cmds + block);
        lemma_apply_append(s, prefix_cmds, block);
        let mid = spec_apply_commands(s, prefix_cmds);
        let s2 = spec_apply_commands(mid, block);
        lemma_retry_pass_convergence(s, cas, q.drop_last(), pv);
        lemma_block_preserves(mid, cas, e, pv);
        lemma_attempt_resolved_iff_satisfiable(cas, e);
        lemma_attempt_resolved_iff_satisfiable(cas, pv);
        if q.contains(pv) && spec_dependency_satisfiable(cas, pv) {
            if pv == e {
                lemma_retry_block_effect(mid, cas, pv);
            } else {
                let i = choose|i: int| 0 <= i < q.len() && q[i] == pv;
                if i < q.len() - 1 {
                    assert(q.drop_last()[i] == pv);
                    assert(q.drop_last().contains(pv));
                } else {
                    assert(pv == e);
                }
            }
        }
    }
}

} // verus!
