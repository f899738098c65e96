//! What to do about an event, given the claim on the chunk it touches.
//!
//! The decisions are functions of the player and of one lookup result, so
//! that each is made on a single consistent reading of the claim.

use crate::claim::{Claim, ClaimView};
use crate::player::{Gamemode, Player};
use vstd::prelude::*;

verus! {

/// The text sent to a player whose interaction is refused on land owned
/// by `owner`.
pub open spec fn denial_message(owner: Seq<char>) -> Seq<char> {
    "This land is claimed by "@ + owner + ". You cannot interact with it."@
}

/// The text sent to a player who walks onto land owned by `owner`.
pub open spec fn entry_notice(owner: Seq<char>) -> Seq<char> {
    "You entered land claimed by "@ + owner + ". Please respect their property."@
}

/// The message, if any, that refuses a block interaction by `name` in
/// mode `gamemode` on a chunk whose claim is `claim`. `None` permits it.
pub open spec fn interact_outcome(name: Seq<char>, gamemode: Gamemode, claim: Option<ClaimView>)
    -> Option<Seq<char>> {
    match claim {
        Some(c) if !gamemode.bypasses_claims() && !c.admits(name) => Some(denial_message(c.owner)),
        _ => None,
    }
}

/// The notice, if any, for `name` moving onto a chunk whose claim is
/// `claim`.
pub open spec fn move_outcome(name: Seq<char>, claim: Option<ClaimView>) -> Option<Seq<char>> {
    match claim {
        Some(c) if !c.admits(name) => Some(entry_notice(c.owner)),
        _ => None,
    }
}

/// The decision on a block interaction.
#[derive(Clone, Debug, PartialEq, Eq)]
pub enum InteractOutcome {
    /// The interaction goes ahead.
    Permit,
    /// The interaction is cancelled and the player is told why.
    Deny { message: String },
}

impl View for InteractOutcome {
    type V = Option<Seq<char>>;

    open spec fn view(&self) -> Option<Seq<char>> {
        match self {
            InteractOutcome::Permit => None,
            InteractOutcome::Deny { message } => Some(message@),
        }
    }
}

impl InteractOutcome {
    /// Whether the host has to cancel the interaction.
    pub fn is_cancelled(&self) -> (cancelled: bool)
        ensures
            cancelled == (self@ is Some),
    {
        match self {
            InteractOutcome::Permit => false,
            InteractOutcome::Deny { .. } => true,
        }
    }

    /// The text to send to the player, if any.
    pub fn message(&self) -> (text: Option<&str>)
        ensures
            match text {
                Some(t) => self@ == Some(t@),
                None => self@ is None,
            },
    {
        match self {
            InteractOutcome::Permit => None,
            InteractOutcome::Deny { message } => Some(message.as_str()),
        }
    }
}

/// The decision on a player's move. A move is never cancelled.
#[derive(Clone, Debug, PartialEq, Eq)]
pub enum MoveOutcome {
    /// Nothing is sent.
    Silent,
    /// The player is told whose land they entered.
    Notify { message: String },
}

impl View for MoveOutcome {
    type V = Option<Seq<char>>;

    open spec fn view(&self) -> Option<Seq<char>> {
        match self {
            MoveOutcome::Silent => None,
            MoveOutcome::Notify { message } => Some(message@),
        }
    }
}

impl MoveOutcome {
    /// The text to send to the player, if any.
    pub fn message(&self) -> (text: Option<&str>)
        ensures
            match text {
                Some(t) => self@ == Some(t@),
                None => self@ is None,
            },
    {
        match self {
            MoveOutcome::Silent => None,
            MoveOutcome::Notify { message } => Some(message.as_str()),
        }
    }
}

/// Writes `prefix`, `owner` and `suffix` one after the other.
fn sentence_naming(prefix: &str, owner: &str, suffix: &str) -> (text: String)
    ensures
        text@ == prefix@ + owner@ + suffix@,
{
    let mut text = String::from_str(prefix);
    text.append(owner);
    text.append(suffix);
    text
}

/// The view of a lookup result.
pub open spec fn claim_view(claim: Option<&Claim>) -> Option<ClaimView> {
    match claim {
        Some(c) => Some(c@),
        None => None,
    }
}

/// Decides a block interaction by `player` on a chunk whose lookup gave
/// `claim`. A player in creative mode is let through before the claim is
/// looked at; otherwise the owner and the members are let through, and
/// anyone else is refused with a message that names the owner.
pub fn decide_interact(player: &Player, claim: Option<&Claim>) -> (outcome: InteractOutcome)
    ensures
        outcome@ == interact_outcome(player.name@, player.gamemode, claim_view(claim)),
{
    if player.gamemode.bypasses_claims() {
        return InteractOutcome::Permit;
    }
    match claim {
        None => InteractOutcome::Permit,
        Some(c) => {
            if c.admits(player.name.as_str()) {
                InteractOutcome::Permit
            } else {
                InteractOutcome::Deny {
                    message: sentence_naming(
                        "This land is claimed by ",
                        c.owner(),
                        ". You cannot interact with it.",
                    ),
                }
            }
        },
    }
}

/// Decides what to tell `player` on moving onto a chunk whose lookup gave
/// `claim`. Without a claim, and for the owner and the members, nothing
/// is sent; anyone else gets a notice that names the owner.
pub fn decide_move(player: &Player, claim: Option<&Claim>) -> (outcome: MoveOutcome)
    ensures
        outcome@ == move_outcome(player.name@, claim_view(claim)),
{
    match claim {
        None => MoveOutcome::Silent,
        Some(c) => {
            if c.admits(player.name.as_str()) {
                MoveOutcome::Silent
            } else {
                MoveOutcome::Notify {
                    message: sentence_naming(
                        "You entered land claimed by ",
                        c.owner(),
                        ". Please respect their property.",
                    ),
                }
            }
        },
    }
}

} // verus!
