//! The dispatch loop: the only writer of application state. Per cycle it
//! takes one command envelope from the dispatch channel, applies the
//! reducer, publishes the new snapshot whole, and hands a tick to every
//! registered observer, best effort: a sink whose channel is gone is
//! dropped, never waited on.
//!
//! The loop's working state carries two ghost records: the snapshot it
//! booted from and every envelope applied so far. Its invariant says the
//! current snapshot is exactly the fold of the reducer over that history,
//! and only snapshots satisfying the invariant reach the shared slot.

use vstd::prelude::*;
use crossbeam_channel::{Receiver, Sender};
use crate::action::CommandEnvelope;
use crate::channels::{channel_recv, channel_try_recv, ChannelPoll};
use crate::reducer::{lemma_fold_snoc, reduce, spec_fold, spec_reduce};
use crate::state::{State, StateWrapper};
use crate::sync::Shared;
use crate::types::AgentId;

verus! {

/// A tick sink: the write end of an observer's tick channel, as carried
/// on the registration channel to the dispatch loop.
pub struct Observer {
    pub ticker: Sender<()>,
}

/// One observer as the loop tracks it: a registration id, the sink, and
/// the (ghost) count of ticks successfully handed to the sink.
pub struct ObserverEntry {
    pub id: u64,
    pub ticker: Sender<()>,
    pub ticks_sent: Ghost<nat>,
}

/// Whether some tracked observer carries the id.
pub open spec fn has_observer(obs: Seq<ObserverEntry>, id: u64) -> bool {
    exists|i: int| 0 <= i < obs.len() && obs[i].id == id
}

/// The tick count of the observer carrying the id; meaningful when ids
/// are unique and the id is present.
pub open spec fn ticks_of(obs: Seq<ObserverEntry>, id: u64) -> nat {
    let i = choose|i: int| 0 <= i < obs.len() && obs[i].id == id;
    obs[i].ticks_sent@
}

/// No two tracked observers share an id.
pub open spec fn ids_unique(obs: Seq<ObserverEntry>) -> bool {
    forall|i: int, j: int| 0 <= i < j < obs.len() ==> obs[i].id != obs[j].id
}

/// Every tracked id lies below the next id to hand out.
pub open spec fn ids_below(obs: Seq<ObserverEntry>, bound: u64) -> bool {
    forall|i: int| 0 <= i < obs.len() ==> obs[i].id < bound
}

/// The entry descends from a source entry at index `lo` or later: same id
/// and sink, one more tick handed out.
pub open spec fn ticked_from_at_or_after(src: Seq<ObserverEntry>, lo: int, e: ObserverEntry) -> bool {
    exists|i: int|
        lo <= i < src.len() && e.id == src[i].id && e.ticker == src[i].ticker && e.ticks_sent@
            == src[i].ticks_sent@ + 1
}

/// The entry descends from some source entry, with one more tick.
pub open spec fn ticked_from(src: Seq<ObserverEntry>, e: ObserverEntry) -> bool {
    ticked_from_at_or_after(src, 0, e)
}

proof fn lemma_ticked_lo_mono(src: Seq<ObserverEntry>, lo1: int, lo2: int, e: ObserverEntry)
    requires
        lo2 <= lo1,
        ticked_from_at_or_after(src, lo1, e),
    ensures
        ticked_from_at_or_after(src, lo2, e),
{
    let i = choose|i: int|
        lo1 <= i < src.len() && e.id == src[i].id && e.ticker == src[i].ticker && e.ticks_sent@
            == src[i].ticks_sent@ + 1;
    assert(lo2 <= i < src.len() && e.id == src[i].id && e.ticker == src[i].ticker && e.ticks_sent@
        == src[i].ticks_sent@ + 1);
}

/// With unique ids, the tick count of an id is the count on its entry.
proof fn lemma_ticks_at(obs: Seq<ObserverEntry>, i: int)
    requires
        ids_unique(obs),
        0 <= i < obs.len(),
    ensures
        has_observer(obs, obs[i].id),
        ticks_of(obs, obs[i].id) == obs[i].ticks_sent@,
{
    let id = obs[i].id;
    assert(has_observer(obs, id));
    let j = choose|j: int| 0 <= j < obs.len() && obs[j].id == id;
    if i < j {
        assert(obs[i].id != obs[j].id);
    } else if j < i {
        assert(obs[j].id != obs[i].id);
    }
}

/// Hands one tick to every observer. A sink whose send fails (its
/// receiver is gone, so the observer deregistered) is dropped; every kept
/// observer's tick count grows by exactly one. The survivors may come
/// back in a different order; they are a set in intent.
fn notify_observers(observers: Vec<ObserverEntry>) -> (r: Vec<ObserverEntry>)
    requires
        ids_unique(observers@),
    ensures
        ids_unique(r@),
        forall|j: int| 0 <= j < r@.len() ==> ticked_from(observers@, #[trigger] r@[j]),
{
    let ghost src = observers@;
    let mut rest = observers;
    let mut kept: Vec<ObserverEntry> = Vec::new();
    proof {
        assert(rest@ =~= src.subrange(0, rest@.len() as int));
    }
    while rest.len() > 0
        invariant
            ids_unique(src),
            rest@.len() <= src.len(),
            rest@ == src.subrange(0, rest@.len() as int),
            forall|j: int|
                0 <= j < kept@.len() ==> ticked_from_at_or_after(
                    src,
                    rest@.len() as int,
                    #[trigger] kept@[j],
                ),
            ids_unique(kept@),
        decreases rest.len(),
    {
        let ghost pre_len = rest@.len() as int;
        let e = rest.pop().unwrap();
        let ghost m = rest@.len() as int;
        proof {
            assert(src.subrange(0, pre_len).last() == src[m]);
            assert(e == src[m]);
            assert(rest@ =~= src.subrange(0, m));
        }
        match e.ticker.send(()) {
            Ok(_) => {
                let newe = ObserverEntry {
                    id: e.id,
                    ticker: e.ticker,
                    ticks_sent: Ghost((e.ticks_sent@ + 1) as nat),
                };
                proof {
                    assert(ticked_from_at_or_after(src, m, newe));
                    assert forall|j: int| 0 <= j < kept@.len() implies kept@[j].id != newe.id by {
                        let i = choose|i: int|
                            pre_len <= i < src.len() && kept@[j].id == src[i].id && kept@[j].ticker
                                == src[i].ticker && kept@[j].ticks_sent@ == src[i].ticks_sent@ + 1;
                        assert(src[m].id != src[i].id);
                    }
                }
                let ghost kept_before = kept@;
                kept.push(newe);
                proof {
                    assert forall|j: int| 0 <= j < kept@.len() implies ticked_from_at_or_after(
                        src,
                        m,
                        kept@[j],
                    ) by {
                        if j < kept_before.len() {
                            assert(kept@[j] == kept_before[j]);
                            lemma_ticked_lo_mono(src, pre_len, m, kept_before[j]);
                        } else {
                            assert(kept@[j] == newe);
                        }
                    }
                }
            },
            Err(_) => {
                proof {
                    assert forall|j: int| 0 <= j < kept@.len() implies ticked_from_at_or_after(
                        src,
                        m,
                        kept@[j],
                    ) by {
                        lemma_ticked_lo_mono(src, pre_len, m, kept@[j]);
                    }
                }
            },
        }
    }
    kept
}

/// The dispatch loop's working state: the one mutable copy of application
/// state, and the observers to tick after every applied command.
pub struct Instance {
    pub current: StateWrapper,
    pub observers: Vec<ObserverEntry>,
    pub next_observer_id: u64,
}

impl Instance {
    /// The loop's invariant: the snapshot is the fold of its history, and
    /// observer ids are unique and below the next id to hand out.
    pub open spec fn inv(self) -> bool {
        &&& self.current.wf()
        &&& ids_unique(self.observers@)
        &&& ids_below(self.observers@, self.next_observer_id)
    }

    pub fn new(initial: State) -> (r: Instance)
        ensures
            r.inv(),
            r.current.state@ == initial@,
            r.current.init@ == initial@,
            r.current.history@ == Seq::<CommandEnvelope>::empty(),
            r.observers@.len() == 0,
    {
        Instance {
            current: StateWrapper::new_initial(initial),
            observers: Vec::new(),
            next_observer_id: 0,
        }
    }

    /// Installs observers waiting on the registration channel, at most
    /// `budget` of them in one call; later ones wait for the next cycle.
    /// Observers already tracked are untouched; a fresh one starts with no
    /// ticks.
    pub fn drain_registrations(&mut self, observer_rx: &Receiver<Observer>, budget: u64)
        requires
            old(self).inv(),
        ensures
            final(self).inv(),
            final(self).current == old(self).current,
            final(self).observers@.len() >= old(self).observers@.len(),
            final(self).observers@.subrange(0, old(self).observers@.len() as int) == old(self).observers@,
            forall|j: int|
                old(self).observers@.len() <= j < final(self).observers@.len() ==> final(self).observers@[j].ticks_sent@ == 0,
            final(self).next_observer_id >= old(self).next_observer_id,
    {
        let ghost orig = *old(self);
        let mut left: u64 = budget;
        let mut open = true;
        while open && left > 0
            invariant
                self.inv(),
                self.current == orig.current,
                self.observers@.len() >= orig.observers@.len(),
                self.observers@.subrange(0, orig.observers@.len() as int) == orig.observers@,
                forall|j: int|
                    orig.observers@.len() <= j < self.observers@.len()
                        ==> self.observers@[j].ticks_sent@ == 0,
                self.next_observer_id >= orig.next_observer_id,
            decreases left,
        {
            left = left - 1;
            match channel_try_recv(observer_rx) {
                ChannelPoll::Msg(ob) => {
                    if self.next_observer_id < u64::MAX {
                        let id = self.next_observer_id;
                        let ghost before = self.observers@;
                        self.observers.push(
                            ObserverEntry { id, ticker: ob.ticker, ticks_sent: Ghost(0nat) },
                        );
                        self.next_observer_id = id + 1;
                        proof {
                            assert forall|i: int, j: int|
                                0 <= i < j < self.observers@.len() implies self.observers@[i].id
                                != self.observers@[j].id by {
                                if j < before.len() {
                                    assert(self.observers@[i] == before[i]);
                                    assert(self.observers@[j] == before[j]);
                                } else {
                                    assert(self.observers@[i] == before[i]);
                                    assert(before[i].id < id);
                                }
                            }
                            assert(self.observers@.subrange(0, orig.observers@.len() as int)
                                =~= before.subrange(0, orig.observers@.len() as int));
                        }
                    }
                    // With the id space spent, a late registration is
                    // dropped rather than given a duplicate id.
                },
                ChannelPoll::Empty => {
                    open = false;
                },
                ChannelPoll::Closed => {
                    open = false;
                },
            }
        }
    }

    /// One dispatch cycle on one envelope: apply the reducer, extend the
    /// (ghost) history, tick the observers. Afterwards the snapshot is
    /// the reduction of the previous one — and so, by the invariant, the
    /// fold of the whole extended history — and every observer still
    /// tracked has been handed exactly one more tick.
    pub fn process_envelope(&mut self, env: CommandEnvelope)
        requires
            old(self).inv(),
        ensures
            final(self).inv(),
            final(self).current.state@ == spec_reduce(old(self).current.state@, env.command),
            final(self).current.history@ == old(self).current.history@.push(env),
            final(self).current.init == old(self).current.init,
            final(self).next_observer_id == old(self).next_observer_id,
            forall|id: u64|
                has_observer(final(self).observers@, id) ==> has_observer(
                    old(self).observers@,
                    id,
                ) && ticks_of(final(self).observers@, id) == ticks_of(old(self).observers@, id)
                    + 1,
    {
        let ghost e = env;
        // move the snapshot out of the wrapper for the reduction; a
        // throwaway placeholder sits in the field meanwhile
        let mut s = State::initial(AgentId { nick: String::new(), pub_sign_key: String::new() });
        core::mem::swap(&mut s, &mut self.current.state);
        let next = reduce(s, env.command);
        self.current.state = next;
        self.current.history = Ghost(self.current.history@.push(e));
        proof {
            lemma_fold_snoc(self.current.init@, old(self).current.history@, e);
        }
        let mut obs: Vec<ObserverEntry> = Vec::new();
        core::mem::swap(&mut obs, &mut self.observers);
        let ticked = notify_observers(obs);
        self.observers = ticked;
        proof {
            assert forall|j: int| 0 <= j < self.observers@.len() implies self.observers@[j].id
                < self.next_observer_id by {
                let i = choose|i: int|
                    0 <= i < old(self).observers@.len() && self.observers@[j].id == old(self).observers@[i].id && self.observers@[j].ticker == old(self).observers@[i].ticker
                        && self.observers@[j].ticks_sent@ == old(self).observers@[i].ticks_sent@
                        + 1;
            }
            assert forall|id: u64| has_observer(self.observers@, id) implies has_observer(
                old(self).observers@,
                id,
            ) && ticks_of(self.observers@, id) == ticks_of(old(self).observers@, id) + 1 by {
                let j = choose|j: int|
                    0 <= j < self.observers@.len() && self.observers@[j].id == id;
                lemma_ticks_at(self.observers@, j);
                let i = choose|i: int|
                    0 <= i < old(self).observers@.len() && self.observers@[j].id == old(self).observers@[i].id && self.observers@[j].ticker == old(self).observers@[i].ticker
                        && self.observers@[j].ticks_sent@ == old(self).observers@[i].ticks_sent@
                        + 1;
                lemma_ticks_at(old(self).observers@, i);
            }
        }
    }

    /// Applies a whole batch of envelopes in order.
    ///
    /// Determinism: the final snapshot is exactly the fold of the reducer
    /// over the starting snapshot and the batch — however the batch was
    /// interleaved from several producers before serialization, the result
    /// is a function of the one serialized order alone.
    ///
    /// Tick liveness: every observer still tracked afterwards was tracked
    /// before and has been handed exactly one tick per applied command —
    /// after n commands following registration, at least n ticks.
    pub fn apply_all(&mut self, envs: Vec<CommandEnvelope>)
        requires
            old(self).inv(),
        ensures
            final(self).inv(),
            final(self).current.init == old(self).current.init,
            final(self).current.history@ == old(self).current.history@ + envs@,
            final(self).current.state@ == spec_fold(old(self).current.state@, envs@),
            final(self).next_observer_id == old(self).next_observer_id,
            forall|id: u64|
                has_observer(final(self).observers@, id) ==> has_observer(
                    old(self).observers@,
                    id,
                ) && ticks_of(final(self).observers@, id) == ticks_of(old(self).observers@, id)
                    + envs@.len(),
    {
        let ghost orig = *old(self);
        let ghost all = envs@;
        let mut rest = envs;
        proof {
            assert(rest@ =~= all.subrange(all.len() - rest@.len(), all.len() as int));
            assert(all.subrange(0, 0) =~= Seq::<CommandEnvelope>::empty());
            assert(orig.current.history@ + all.subrange(0, 0) =~= orig.current.history@);
        }
        while rest.len() > 0
            invariant
                self.inv(),
                rest@.len() <= all.len(),
                rest@ == all.subrange(all.len() - rest@.len(), all.len() as int),
                self.current.history@ == orig.current.history@ + all.subrange(
                    0,
                    all.len() - rest@.len(),
                ),
                self.current.state@ == spec_fold(
                    orig.current.state@,
                    all.subrange(0, all.len() - rest@.len()),
                ),
                self.current.init == orig.current.init,
                self.next_observer_id == orig.next_observer_id,
                forall|id: u64|
                    has_observer(self.observers@, id) ==> has_observer(orig.observers@, id)
                        && ticks_of(self.observers@, id) == ticks_of(orig.observers@, id) + (
                    all.len() - rest@.len()),
            decreases rest.len(),
        {
            let ghost k = all.len() - rest@.len();
            let ghost pre = *self;
            let e = rest.remove(0);
            proof {
                assert(e == all[k]);
                assert(rest@ =~= all.subrange(all.len() - rest@.len(), all.len() as int));
            }
            self.process_envelope(e);
            proof {
                assert(all.subrange(0, k + 1) =~= all.subrange(0, k).push(e));
                lemma_fold_snoc(orig.current.state@, all.subrange(0, k), e);
                assert(self.current.history@ =~= orig.current.history@ + all.subrange(0, k + 1));
                assert forall|id: u64| has_observer(self.observers@, id) implies has_observer(
                    orig.observers@,
                    id,
                ) && ticks_of(self.observers@, id) == ticks_of(orig.observers@, id) + (k + 1) by {
                    assert(has_observer(pre.observers@, id));
                }
            }
        }
        proof {
            assert(all.subrange(0, all.len() as int) =~= all);
        }
    }
}

/// Snapshot atomicity: a snapshot-consistent wrapper carries the full
/// effect of every envelope in its history and nothing else — whoever
/// samples such a snapshot observes the fold of a prefix of the applied
/// commands, never part of one command's effect. Only wrappers with this
/// property reach the shared slot (see [`publish_snapshot`]), and the
/// dispatch loop grows the history by exactly one envelope per cycle.
pub proof fn lemma_snapshot_atomicity(snapshot: StateWrapper)
    requires
        snapshot.wf(),
    ensures
        snapshot.state@ == spec_fold(snapshot.init@, snapshot.history@),
{
}

/// The single publish point: replaces the shared snapshot whole, so a
/// concurrent reader sees the old or the new snapshot in full, never a
/// partial one — and only snapshot-consistent values are accepted, so
/// whatever a reader samples is the fold of some prefix of the applied
/// commands.
pub fn publish_snapshot(slot: &Shared<StateWrapper>, snapshot: &StateWrapper)
    requires
        snapshot.wf(),
{
    slot.replace(snapshot.duplicate());
}

/// How many waiting registrations one dispatch cycle installs at most;
/// later ones wait for the next cycle.
pub const REGISTRATION_BUDGET: u64 = 64;

/// One turn of the dispatch loop: install waiting observers, block for
/// one command envelope, apply it, publish the new snapshot, tick the
/// observers. Returns whether the loop should keep running: `false`
/// exactly when the command channel closed, the teardown signal. The
/// caller owns the endless loop; every turn of it is this verified
/// function.
pub fn dispatch_cycle(
    inst: &mut Instance,
    command_rx: &Receiver<CommandEnvelope>,
    observer_rx: &Receiver<Observer>,
    slot: &Shared<StateWrapper>,
) -> (more: bool)
    requires
        old(inst).inv(),
    ensures
        final(inst).inv(),
        final(inst).current.init == old(inst).current.init,
        old(inst).current.history@.is_prefix_of(final(inst).current.history@),
        more ==> final(inst).current.history@.len() == old(inst).current.history@.len() + 1,
        !more ==> final(inst).current.history@ == old(inst).current.history@,
    {
    inst.drain_registrations(observer_rx, REGISTRATION_BUDGET);
    match channel_recv(command_rx) {
        Some(env) => {
            let ghost pre = inst.current.history@;
            inst.process_envelope(env);
            publish_snapshot(slot, &inst.current);
            proof {
                assert(pre.is_prefix_of(pre.push(env))) by {
                    assert(pre.push(env).subrange(0, pre.len() as int) =~= pre);
                }
            }
            true
        },
        None => false,
    }
}

} // verus!
