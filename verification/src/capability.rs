//! Capability-token lookup: walk the agent's chain backward from its top
//! header, look only at capability-grant entries, and return the address
//! of the first grant that is public and carries the reserved public
//! identifier. Absence of any such entry is a reportable error, never a
//! silent default.

use vstd::prelude::*;
use crate::store::CasStore;
use crate::types::{
    Address, CapabilityType, ChainHeader, CoreError, Entry, EntryType, RESERVED_PUBLIC_CAP_ID,
};

verus! {

/// Whether an entry is the public capability grant: a grant of public
/// type carrying the reserved public identifier.
pub open spec fn spec_is_public_grant(e: Entry) -> bool {
    match e {
        Entry::CapTokenGrant { cap_type, id } => cap_type == CapabilityType::Public && id
            == RESERVED_PUBLIC_CAP_ID,
        _ => false,
    }
}

pub fn is_public_grant(e: &Entry) -> (r: bool)
    ensures
        r == spec_is_public_grant(*e),
{
    match e {
        Entry::CapTokenGrant { cap_type, id } => *cap_type == CapabilityType::Public && *id
            == RESERVED_PUBLIC_CAP_ID,
        _ => false,
    }
}

/// The backward walk: consider grant headers from the newest down. The
/// first whose entry resolves to the public grant wins; a grant header
/// whose entry cannot be fetched stops the walk with an error, and a
/// chain without a public grant reports that there is none.
pub open spec fn spec_walk_grants(chain: Seq<ChainHeader>, cas: Map<Address, Entry>) -> Result<
    Address,
    CoreError,
>
    decreases chain.len(),
{
    if chain.len() == 0 {
        Result::Err(CoreError::NoPublicGrant)
    } else {
        let h = chain.last();
        if h.entry_type == EntryType::CapTokenGrant {
            if !cas.contains_key(h.entry_address) {
                Result::Err(CoreError::MissingGrantContent)
            } else if spec_is_public_grant(cas[h.entry_address]) {
                Result::Ok(h.entry_address)
            } else {
                spec_walk_grants(chain.drop_last(), cas)
            }
        } else {
            spec_walk_grants(chain.drop_last(), cas)
        }
    }
}

/// What capability lookup owes: the missing-top-header error on an empty
/// chain, otherwise the result of the backward walk.
pub open spec fn spec_public_token(chain: Seq<ChainHeader>, cas: Map<Address, Entry>) -> Result<
    Address,
    CoreError,
> {
    if chain.len() == 0 {
        Result::Err(CoreError::NoTopChainHeader)
    } else {
        spec_walk_grants(chain, cas)
    }
}

/// Walks a chain against a chain store: exactly [`spec_public_token`].
pub fn public_token_in(chain: &Vec<ChainHeader>, cas: &CasStore) -> (r: Result<Address, CoreError>)
    ensures
        r == spec_public_token(chain@, cas@),
{
    if chain.len() == 0 {
        return Err(CoreError::NoTopChainHeader);
    }
    let mut i: usize = chain.len();
    proof {
        assert(chain@.subrange(0, chain@.len() as int) =~= chain@);
    }
    while i > 0
        invariant
            i <= chain@.len(),
            spec_walk_grants(chain@, cas@) == spec_walk_grants(
                chain@.subrange(0, i as int),
                cas@,
            ),
        decreases i,
    {
        let h = chain[i - 1];
        proof {
            assert(chain@.subrange(0, i as int).last() == chain@[i - 1]);
            assert(chain@.subrange(0, i as int).drop_last() =~= chain@.subrange(0, i - 1));
        }
        if h.entry_type == EntryType::CapTokenGrant {
            match cas.fetch(h.entry_address) {
                None => {
                    return Err(CoreError::MissingGrantContent);
                },
                Some(e) => {
                    if is_public_grant(&e) {
                        return Ok(h.entry_address);
                    }
                },
            }
        }
        i = i - 1;
    }
    proof {
        assert(chain@.subrange(0, 0) =~= Seq::<ChainHeader>::empty());
    }
    Err(CoreError::NoPublicGrant)
}

/// Every grant header on the chain has fetchable content.
pub open spec fn grants_resolvable(chain: Seq<ChainHeader>, cas: Map<Address, Entry>) -> bool {
    forall|i: int|
        0 <= i < chain.len() && chain[i].entry_type == EntryType::CapTokenGrant
            ==> cas.contains_key(#[trigger] chain[i].entry_address)
}

/// Some grant header on the chain resolves to the public grant.
pub open spec fn has_public_grant(chain: Seq<ChainHeader>, cas: Map<Address, Entry>) -> bool {
    exists|i: int|
        0 <= i < chain.len() && (#[trigger] chain[i].entry_type) == EntryType::CapTokenGrant
            && cas.contains_key(chain[i].entry_address) && spec_is_public_grant(
            cas[chain[i].entry_address],
        )
}

/// Capability lookup never answers with a default or empty address: an
/// `Ok` is always the address of a grant header's entry that is the
/// public grant.
pub proof fn lemma_public_token_sound(chain: Seq<ChainHeader>, cas: Map<Address, Entry>)
    ensures
        spec_public_token(chain, cas) matches Ok(a) ==> exists|i: int|
            0 <= i < chain.len() && (#[trigger] chain[i].entry_type) == EntryType::CapTokenGrant
                && chain[i].entry_address == a && cas.contains_key(a) && spec_is_public_grant(
                cas[a],
            ),
    decreases chain.len(),
{
    if chain.len() > 0 {
        lemma_public_token_sound(chain.drop_last(), cas);
        match spec_public_token(chain, cas) {
            Result::Ok(a) => {
                let h = chain.last();
                if h.entry_type == EntryType::CapTokenGrant && cas.contains_key(h.entry_address)
                    && spec_is_public_grant(cas[h.entry_address]) {
                    assert(chain[chain.len() - 1].entry_type == EntryType::CapTokenGrant);
                } else {
                    if chain.len() > 1 {
                        let i = choose|i: int|
                            0 <= i < chain.drop_last().len() && (#[trigger] chain.drop_last()[i].entry_type)
                                == EntryType::CapTokenGrant && chain.drop_last()[i].entry_address
                                == a && cas.contains_key(a) && spec_is_public_grant(cas[a]);
                        assert(chain[i].entry_type == EntryType::CapTokenGrant);
                    }
                }
            },
            Result::Err(_) => {},
        }
    }
}

/// Success is owed exactly when it can be: with every grant resolvable,
/// lookup on a non-empty chain answers `Ok` if the chain holds a public
/// grant, and the explicit not-found error if it holds none.
pub proof fn lemma_public_token_complete(chain: Seq<ChainHeader>, cas: Map<Address, Entry>)
    requires
        grants_resolvable(chain, cas),
    ensures
        has_public_grant(chain, cas) ==> spec_walk_grants(chain, cas) is Ok,
        !has_public_grant(chain, cas) ==> spec_walk_grants(chain, cas) == Result::<
            Address,
            CoreError,
        >::Err(CoreError::NoPublicGrant),
    decreases chain.len(),
{
    if chain.len() > 0 {
        assert forall|i: int|
            0 <= i < chain.drop_last().len() && chain.drop_last()[i].entry_type
                == EntryType::CapTokenGrant implies cas.contains_key(
            #[trigger] chain.drop_last()[i].entry_address,
        ) by {
            assert(chain[i].entry_type == EntryType::CapTokenGrant);
        }
        lemma_public_token_complete(chain.drop_last(), cas);
        let h = chain.last();
        if h.entry_type == EntryType::CapTokenGrant && spec_is_public_grant(
            cas[h.entry_address],
        ) {
            assert(has_public_grant(chain, cas)) by {
                assert(chain[chain.len() - 1].entry_type == EntryType::CapTokenGrant);
            }
        } else {
            if has_public_grant(chain, cas) {
                let i = choose|i: int|
                    0 <= i < chain.len() && (#[trigger] chain[i].entry_type)
                        == EntryType::CapTokenGrant && cas.contains_key(chain[i].entry_address)
                        && spec_is_public_grant(cas[chain[i].entry_address]);
                assert(i < chain.len() - 1);
                assert(chain.drop_last()[i].entry_type == EntryType::CapTokenGrant);
                assert(has_public_grant(chain.drop_last(), cas));
            }
            if has_public_grant(chain.drop_last(), cas) {
                let i = choose|i: int|
                    0 <= i < chain.drop_last().len() && (#[trigger] chain.drop_last()[i].entry_type)
                        == EntryType::CapTokenGrant && cas.contains_key(
                        chain.drop_last()[i].entry_address,
                    ) && spec_is_public_grant(cas[chain.drop_last()[i].entry_address]);
                assert(chain[i].entry_type == EntryType::CapTokenGrant);
                assert(has_public_grant(chain, cas));
            }
        }
    }
}

/// The newest match wins: if the grant header at `j` resolves to the
/// public grant and every newer header is either no grant or resolves to
/// something that is not the public grant, lookup answers exactly the
/// entry address at `j`.
pub proof fn lemma_public_token_newest_wins(
    chain: Seq<ChainHeader>,
    cas: Map<Address, Entry>,
    j: int,
)
    requires
        0 <= j < chain.len(),
        chain[j].entry_type == EntryType::CapTokenGrant,
        cas.contains_key(chain[j].entry_address),
        spec_is_public_grant(cas[chain[j].entry_address]),
        forall|k: int|
            j < k < chain.len() && (#[trigger] chain[k].entry_type) == EntryType::CapTokenGrant
                ==> cas.contains_key(chain[k].entry_address) && !spec_is_public_grant(
                cas[chain[k].entry_address],
            ),
    ensures
        spec_public_token(chain, cas) == Result::<Address, CoreError>::Ok(chain[j].entry_address),
    decreases chain.len(),
{
    let h = chain.last();
    if j == chain.len() - 1 {
        assert(spec_walk_grants(chain, cas) == Result::<Address, CoreError>::Ok(
            h.entry_address,
        ));
    } else {
        assert(chain[chain.len() - 1].entry_type == chain.last().entry_type);
        lemma_public_token_newest_wins(chain.drop_last(), cas, j);
        assert(chain.drop_last().len() > 0);
    }
}

} // verus!
