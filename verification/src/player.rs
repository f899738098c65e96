//! What the decisions read of a player.

use crate::chunk::BlockPosition;
use vstd::prelude::*;

verus! {

/// The mode a player plays in.
#[derive(Clone, Copy, Debug, PartialEq, Eq, Structural)]
pub enum Gamemode {
    Survival,
    Creative,
    Adventure,
    Spectator,
}

impl Gamemode {
    /// Whether land protection is lifted for players in this mode.
    pub open spec fn spec_bypasses_claims(self) -> bool {
        self is Creative
    }

    /// Whether land protection is lifted for players in this mode: it is
    /// in creative mode only.
    #[verifier::when_used_as_spec(spec_bypasses_claims)]
    pub fn bypasses_claims(self) -> (yes: bool)
        ensures
            yes == self.spec_bypasses_claims(),
    {
        match self {
            Gamemode::Creative => true,
            _ => false,
        }
    }
}

/// A player as an event or a command sees them: the name they are known
/// by, their mode, and the block they stand in.
#[derive(Clone, Debug, PartialEq, Eq)]
pub struct Player {
    pub name: String,
    pub gamemode: Gamemode,
    pub position: BlockPosition,
}

impl Player {
    /// A player called `name`, in mode `gamemode`, standing in the block
    /// at `position`.
    pub fn new(name: &str, gamemode: Gamemode, position: BlockPosition) -> (player: Self)
        ensures
            player.name@ == name@,
            player.gamemode == gamemode,
            player.position == position,
    {
        Player { name: name.to_owned(), gamemode, position }
    }
}

} // verus!
