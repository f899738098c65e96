//! The claim registry: at most one claim per chunk.

use crate::chunk::{lemma_key_is_bijective, ChunkPosition};
use crate::claim::{Claim, ClaimView};
use std::collections::HashMap;
use vstd::prelude::*;

verus! {

broadcast use vstd::std_specs::hash::group_hash_axioms;

/// A claim was asked for on a chunk that already has one.
#[derive(Clone, Copy, Debug, PartialEq, Eq, Structural)]
pub struct AlreadyClaimed;

/// Why a claim could not be given up.
#[derive(Clone, Copy, Debug, PartialEq, Eq, Structural)]
pub enum UnclaimError {
    /// The chunk has no claim.
    NotClaimed,
    /// The chunk is claimed, but by someone else.
    NotOwner,
}

/// What a registry is, mathematically: a partial map from chunks to claims.
pub type ClaimMap = Map<ChunkPosition, ClaimView>;

/// What `claim` answers on the registry `m`.
pub open spec fn claim_result(m: ClaimMap, cell: ChunkPosition) -> Result<(), AlreadyClaimed> {
    if m.contains_key(cell) {
        Err(AlreadyClaimed)
    } else {
        Ok(())
    }
}

/// The registry that `claim` leaves behind.
pub open spec fn after_claim(m: ClaimMap, cell: ChunkPosition, owner: Seq<char>) -> ClaimMap {
    if m.contains_key(cell) {
        m
    } else {
        m.insert(cell, ClaimView::founded_by(owner))
    }
}

/// What `unclaim` answers on the registry `m`.
pub open spec fn unclaim_result(m: ClaimMap, cell: ChunkPosition, requester: Seq<char>) -> Result<
    (),
    UnclaimError,
> {
    if !m.contains_key(cell) {
        Err(UnclaimError::NotClaimed)
    } else if m[cell].owner != requester {
        Err(UnclaimError::NotOwner)
    } else {
        Ok(())
    }
}

/// The registry that `unclaim` leaves behind.
pub open spec fn after_unclaim(m: ClaimMap, cell: ChunkPosition, requester: Seq<char>) -> ClaimMap {
    if m.contains_key(cell) && m[cell].owner == requester {
        m.remove(cell)
    } else {
        m
    }
}

/// The claims of a world, by chunk.
pub struct ClaimRegistry {
    claims: HashMap<u64, Claim>,
}

impl View for ClaimRegistry {
    type V = ClaimMap;

    closed spec fn view(&self) -> ClaimMap {
        Map::new(
            |cell: ChunkPosition| self.claims@.contains_key(cell.spec_key()),
            |cell: ChunkPosition| self.claims@[cell.spec_key()]@,
        )
    }
}

impl Default for ClaimRegistry {
    fn default() -> (registry: Self)
        ensures
            registry@ == ClaimMap::empty(),
    {
        ClaimRegistry::new()
    }
}

impl ClaimRegistry {
    /// A registry without claims.
    pub fn new() -> (registry: Self)
        ensures
            registry@ == ClaimMap::empty(),
    {
        let registry = ClaimRegistry { claims: HashMap::new() };
        assert(registry@ =~= ClaimMap::empty());
        registry
    }

    /// Claims `cell` for `owner`, who becomes its only member. A chunk
    /// that is claimed already keeps its claim, whoever asks.
    pub fn claim(&mut self, cell: ChunkPosition, owner: &str) -> (result: Result<
        (),
        AlreadyClaimed,
    >)
        ensures
            result == claim_result(old(self)@, cell),
            final(self)@ == after_claim(old(self)@, cell, owner@),
    {
        let key = cell.key();
        if self.claims.contains_key(&key) {
            return Err(AlreadyClaimed);
        }
        let claim = Claim::new(owner);
        self.claims.insert(key, claim);
        proof {
            lemma_key_is_bijective();
            assert(self@ =~= old(self)@.insert(cell, ClaimView::founded_by(owner@)));
        }
        Ok(())
    }

    /// Removes the claim on `cell` if `requester` owns it.
    pub fn unclaim(&mut self, cell: ChunkPosition, requester: &str) -> (result: Result<
        (),
        UnclaimError,
    >)
        ensures
            result == unclaim_result(old(self)@, cell, requester@),
            final(self)@ == after_unclaim(old(self)@, cell, requester@),
    {
        let key = cell.key();
        let owned = match self.claims.get(&key) {
            None => {
                return Err(UnclaimError::NotClaimed);
            },
            Some(claim) => claim.is_owner(requester),
        };
        if !owned {
            return Err(UnclaimError::NotOwner);
        }
        self.claims.remove(&key);
        proof {
            lemma_key_is_bijective();
            assert(self@ =~= old(self)@.remove(cell));
        }
        Ok(())
    }

    /// The claim on `cell`, if there is one.
    pub fn lookup(&self, cell: ChunkPosition) -> (found: Option<&Claim>)
        ensures
            match found {
                Some(claim) => self@.get(cell) == Some(claim@),
                None => self@.get(cell) is None,
            },
    {
        let key = cell.key();
        self.claims.get(&key)
    }

    /// Whether `cell` has a claim.
    pub fn is_claimed(&self, cell: ChunkPosition) -> (claimed: bool)
        ensures
            claimed == self@.contains_key(cell),
    {
        let key = cell.key();
        self.claims.contains_key(&key)
    }
}

} // verus!
