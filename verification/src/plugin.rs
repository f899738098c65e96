//! The plugin: it owns the registry and answers the host's events and
//! commands.

use crate::chunk::{BlockPosition, ChunkPosition};
use crate::claim::Claim;
use crate::command::CommandReply;
use crate::decision::{
    claim_view, decide_interact, decide_move, interact_outcome, move_outcome, InteractOutcome,
    MoveOutcome,
};
use crate::player::Player;
use crate::registry::{
    after_claim, after_unclaim, claim_result, unclaim_result, ClaimMap, ClaimRegistry,
    UnclaimError,
};
use vstd::prelude::*;

verus! {

/// Land protection for one world.
pub struct LandClaiming {
    registry: ClaimRegistry,
}

impl View for LandClaiming {
    type V = ClaimMap;

    closed spec fn view(&self) -> ClaimMap {
        self.registry@
    }
}

impl Default for LandClaiming {
    fn default() -> (plugin: Self)
        ensures
            plugin@ == ClaimMap::empty(),
    {
        LandClaiming::new()
    }
}

impl LandClaiming {
    /// A plugin in whose world nothing is claimed yet.
    pub fn new() -> (plugin: Self)
        ensures
            plugin@ == ClaimMap::empty(),
    {
        LandClaiming { registry: ClaimRegistry::new() }
    }

    /// The registry, for reading.
    pub fn registry(&self) -> (registry: &ClaimRegistry)
        ensures
            registry@ == self@,
    {
        &self.registry
    }

    /// Decides a block interaction by `player` on the block at `block`:
    /// see [`decide_interact`], applied to the claim on the chunk of
    /// `block`.
    pub fn handle_interact_block(&self, player: &Player, block: BlockPosition) -> (outcome:
        InteractOutcome)
        ensures
            outcome@ == interact_outcome(
                player.name@,
                player.gamemode,
                self@.get(ChunkPosition::of_block(block)),
            ),
    {
        if player.gamemode.bypasses_claims() {
            return InteractOutcome::Permit;
        }
        decide_interact(player, self.get_claim_at(block))
    }

    /// Decides what to tell `player` on moving to `new_position`: see
    /// [`decide_move`], applied to the claim on the chunk of
    /// `new_position`.
    pub fn handle_player_move(&self, player: &Player, new_position: BlockPosition) -> (outcome:
        MoveOutcome)
        ensures
            outcome@ == move_outcome(player.name@, self@.get(ChunkPosition::of_block(new_position))),
    {
        decide_move(player, self.get_claim_at(new_position))
    }

    /// The claim on the chunk in which `position` lies, if there is one.
    pub fn get_claim_at(&self, position: BlockPosition) -> (found: Option<&Claim>)
        ensures
            claim_view(found) == self@.get(ChunkPosition::of_block(position)),
    {
        let chunk_pos = ChunkPosition::from_block_position(position);
        self.registry.lookup(chunk_pos)
    }

    /// Whether `chunk_pos` has a claim.
    pub fn is_claimed_chunk(&self, chunk_pos: ChunkPosition) -> (claimed: bool)
        ensures
            claimed == self@.contains_key(chunk_pos),
    {
        self.registry.is_claimed(chunk_pos)
    }

    /// Claims `chunk_pos` for `player` unless it is claimed already, in
    /// one step, and says which of the two happened.
    pub fn claim_chunk(&mut self, player: &Player, chunk_pos: ChunkPosition) -> (reply:
        CommandReply)
        ensures
            reply == CommandReply::of_claim(claim_result(old(self)@, chunk_pos)),
            final(self)@ == after_claim(old(self)@, chunk_pos, player.name@),
    {
        match self.registry.claim(chunk_pos, player.name.as_str()) {
            Ok(()) => CommandReply::Claimed,
            Err(_) => CommandReply::AlreadyClaimed,
        }
    }

    /// Gives up the claim on `chunk_pos` if `player` owns it, and says
    /// what happened.
    pub fn unclaim_chunk(&mut self, player: &Player, chunk_pos: ChunkPosition) -> (reply:
        CommandReply)
        ensures
            reply == CommandReply::of_unclaim(
                unclaim_result(old(self)@, chunk_pos, player.name@),
            ),
            final(self)@ == after_unclaim(old(self)@, chunk_pos, player.name@),
    {
        match self.registry.unclaim(chunk_pos, player.name.as_str()) {
            Ok(()) => CommandReply::Unclaimed,
            Err(UnclaimError::NotClaimed) => CommandReply::NotClaimed,
            Err(UnclaimError::NotOwner) => CommandReply::NotOwner,
        }
    }
}

} // verus!
