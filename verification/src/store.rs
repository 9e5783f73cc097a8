//! In-memory stores satisfying the storage collaborator contract the core
//! consumes: a content-addressable store (`fetch` an entry by address,
//! `put` one under an address) and an attribute-value store of
//! (entity, attribute, value) relations.
//!
//! Addresses are supplied by the caller: computing an address from content
//! is the concern of whoever commits the content.

use vstd::prelude::*;
use crate::types::{Address, Entry};

verus! {

/// The map a pair list denotes; a later pair for the same address wins.
spec fn entries_map(s: Seq<(Address, Entry)>) -> Map<Address, Entry>
    decreases s.len(),
{
    if s.len() == 0 {
        Map::empty()
    } else {
        entries_map(s.drop_last()).insert(s.last().0, s.last().1)
    }
}

/// The last entry stored under an address, scanning from the newest pair.
spec fn lookup(s: Seq<(Address, Entry)>, a: Address) -> Option<Entry>
    decreases s.len(),
{
    if s.len() == 0 {
        Option::None
    } else if s.last().0 == a {
        Option::Some(s.last().1)
    } else {
        lookup(s.drop_last(), a)
    }
}

proof fn lemma_lookup_matches_map(s: Seq<(Address, Entry)>, a: Address)
    ensures
        entries_map(s).contains_key(a) <==> lookup(s, a) is Some,
        entries_map(s).contains_key(a) ==> lookup(s, a) == Some(entries_map(s)[a]),
    decreases s.len(),
{
    if s.len() > 0 {
        lemma_lookup_matches_map(s.drop_last(), a);
    }
}

/// A content-addressable store: a write-once-per-address map in intent,
/// implemented as a pair list where the newest pair for an address wins.
#[derive(Clone, Debug)]
pub struct CasStore {
    entries: Vec<(Address, Entry)>,
}

impl View for CasStore {
    type V = Map<Address, Entry>;

    closed spec fn view(&self) -> Map<Address, Entry> {
        entries_map(self.entries@)
    }
}

impl CasStore {
    pub fn new() -> (r: CasStore)
        ensures
            r@ == Map::<Address, Entry>::empty(),
    {
        CasStore { entries: Vec::new() }
    }

    /// Stores content under an address; a later `put` for the same address
    /// replaces the earlier one.
    pub fn put(&mut self, address: Address, content: Entry)
        ensures
            final(self)@ == old(self)@.insert(address, content),
    {
        self.entries.push((address, content));
        proof {
            assert(self.entries@.drop_last() =~= old(self).entries@);
        }
    }

    /// The content stored under an address, if any.
    pub fn fetch(&self, address: Address) -> (r: Option<Entry>)
        ensures
            r == if self@.contains_key(address) {
                Option::Some(self@[address])
            } else {
                Option::None::<Entry>
            },
    {
        proof {
            lemma_lookup_matches_map(self.entries@, address);
            assert(self.entries@.subrange(0, self.entries@.len() as int) =~= self.entries@);
        }
        let mut i: usize = self.entries.len();
        while i > 0
            invariant
                i <= self.entries.len(),
                lookup(self.entries@, address) == lookup(
                    self.entries@.subrange(0, i as int),
                    address,
                ),
            decreases i,
        {
            let (a, e) = self.entries[i - 1];
            proof {
                assert(self.entries@.subrange(0, i as int).last() == self.entries@[i - 1]);
                assert(self.entries@.subrange(0, i as int).drop_last() =~= self.entries@.subrange(
                    0,
                    i - 1,
                ));
            }
            if a == address {
                proof {
                    lemma_lookup_matches_map(self.entries@, address);
                    assert(self.entries@.subrange(0, i as int).len() == i as int);
                    assert(lookup(self.entries@.subrange(0, i as int), address) == Some(e));
                }
                return Some(e);
            }
            i = i - 1;
        }
        proof {
            assert(self.entries@.subrange(0, 0) =~= Seq::<(Address, Entry)>::empty());
        }
        None
    }

    /// Whether any content is stored under the address.
    pub fn contains(&self, address: Address) -> (r: bool)
        ensures
            r == self@.contains_key(address),
    {
        self.fetch(address).is_some()
    }
}

/// What an attribute-value store answers for one (entity, attribute) pair:
/// every value related to it, in insertion order.
pub open spec fn spec_values_for(s: Seq<(u64, u64, u64)>, entity: u64, attribute: u64) -> Seq<u64>
    decreases s.len(),
{
    if s.len() == 0 {
        Seq::empty()
    } else {
        let rest = spec_values_for(s.drop_last(), entity, attribute);
        if s.last().0 == entity && s.last().1 == attribute {
            rest.push(s.last().2)
        } else {
            rest
        }
    }
}

/// An attribute-value store: (entity, attribute, value) relations used for
/// indexing entries.
#[derive(Clone, Debug)]
pub struct EavStore {
    triples: Vec<(u64, u64, u64)>,
}

impl View for EavStore {
    type V = Seq<(u64, u64, u64)>;

    closed spec fn view(&self) -> Seq<(u64, u64, u64)> {
        self.triples@
    }
}

impl EavStore {
    pub fn new() -> (r: EavStore)
        ensures
            r@ == Seq::<(u64, u64, u64)>::empty(),
    {
        EavStore { triples: Vec::new() }
    }

    /// Records one (entity, attribute, value) relation.
    pub fn add(&mut self, entity: u64, attribute: u64, value: u64)
        ensures
            final(self)@ == old(self)@.push((entity, attribute, value)),
    {
        self.triples.push((entity, attribute, value));
    }

    /// Every value related to the (entity, attribute) pair, in insertion
    /// order.
    pub fn fetch_values(&self, entity: u64, attribute: u64) -> (r: Vec<u64>)
        ensures
            r@ == spec_values_for(self@, entity, attribute),
    {
        let mut r: Vec<u64> = Vec::new();
        let mut i: usize = 0;
        proof {
            assert(self.triples@.subrange(0, 0) =~= Seq::<(u64, u64, u64)>::empty());
        }
        while i < self.triples.len()
            invariant
                i <= self.triples.len(),
                r@ == spec_values_for(self.triples@.subrange(0, i as int), entity, attribute),
            decreases self.triples.len() - i,
        {
            let (e, a, v) = self.triples[i];
            proof {
                assert(self.triples@.subrange(0, i as int + 1).last() == self.triples@[i as int]);
                assert(self.triples@.subrange(0, i as int + 1).drop_last() =~= self.triples@
                    .subrange(0, i as int));
            }
            if e == entity && a == attribute {
                r.push(v);
            }
            i = i + 1;
        }
        proof {
            assert(self.triples@.subrange(0, self.triples@.len() as int) =~= self.triples@);
        }
        r
    }
}

} // verus!
