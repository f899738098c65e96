//! The chat commands `claim` and `unclaim`, and what they answer.

use crate::chunk::ChunkPosition;
use crate::player::Player;
use crate::plugin::LandClaiming;
use crate::registry::{
    after_claim, after_unclaim, claim_result, unclaim_result, AlreadyClaimed, ClaimMap,
    UnclaimError,
};
use vstd::prelude::*;

verus! {

/// What a command tells the player who issued it.
#[derive(Clone, Copy, Debug, PartialEq, Eq, Structural)]
pub enum CommandReply {
    /// The chunk is now claimed by the issuer.
    Claimed,
    /// The chunk had a claim already; nothing changed.
    AlreadyClaimed,
    /// The issuer's claim on the chunk is gone.
    Unclaimed,
    /// The chunk has no claim; nothing changed.
    NotClaimed,
    /// The chunk is claimed by someone else; nothing changed.
    NotOwner,
}

impl CommandReply {
    /// The reply to a `claim` that the registry answered with `result`.
    pub open spec fn of_claim(result: Result<(), AlreadyClaimed>) -> CommandReply {
        match result {
            Ok(()) => CommandReply::Claimed,
            Err(AlreadyClaimed) => CommandReply::AlreadyClaimed,
        }
    }

    /// The reply to an `unclaim` that the registry answered with `result`.
    pub open spec fn of_unclaim(result: Result<(), UnclaimError>) -> CommandReply {
        match result {
            Ok(()) => CommandReply::Unclaimed,
            Err(UnclaimError::NotClaimed) => CommandReply::NotClaimed,
            Err(UnclaimError::NotOwner) => CommandReply::NotOwner,
        }
    }

    /// The reply as text.
    pub open spec fn text(self) -> Seq<char> {
        match self {
            CommandReply::Claimed => "Chunk claimed successfully."@,
            CommandReply::AlreadyClaimed => "This chunk is already claimed."@,
            CommandReply::Unclaimed => "Chunk unclaimed successfully."@,
            CommandReply::NotClaimed => "This chunk is not claimed."@,
            CommandReply::NotOwner => "You do not have permission to unclaim this chunk."@,
        }
    }

    /// The text to send to the issuer.
    pub fn message(self) -> (text: &'static str)
        ensures
            text@ == self.text(),
    {
        match self {
            CommandReply::Claimed => "Chunk claimed successfully.",
            CommandReply::AlreadyClaimed => "This chunk is already claimed.",
            CommandReply::Unclaimed => "Chunk unclaimed successfully.",
            CommandReply::NotClaimed => "This chunk is not claimed.",
            CommandReply::NotOwner => "You do not have permission to unclaim this chunk.",
        }
    }
}

/// The commands this plugin registers with the host.
#[derive(Clone, Copy, Debug, PartialEq, Eq, Structural)]
pub enum Command {
    Claim,
    Unclaim,
}

impl Command {
    /// The reply to this command, issued by `name` standing in `cell`, on
    /// the registry `m`.
    pub open spec fn reply(self, m: ClaimMap, name: Seq<char>, cell: ChunkPosition) -> CommandReply {
        match self {
            Command::Claim => CommandReply::of_claim(claim_result(m, cell)),
            Command::Unclaim => CommandReply::of_unclaim(unclaim_result(m, cell, name)),
        }
    }

    /// The registry that this command leaves behind.
    pub open spec fn effect(self, m: ClaimMap, name: Seq<char>, cell: ChunkPosition) -> ClaimMap {
        match self {
            Command::Claim => after_claim(m, cell, name),
            Command::Unclaim => after_unclaim(m, cell, name),
        }
    }

    /// The word that invokes the command.
    pub fn get_name(&self) -> (name: String)
        ensures
            name@ == match self {
                Command::Claim => "claim"@,
                Command::Unclaim => "unclaim"@,
            },
    {
        match self {
            Command::Claim => String::from_str("claim"),
            Command::Unclaim => String::from_str("unclaim"),
        }
    }

    /// How the command is written in chat.
    pub fn get_usage(&self) -> (usage: String)
        ensures
            usage@ == match self {
                Command::Claim => "/claim"@,
                Command::Unclaim => "/unclaim"@,
            },
    {
        match self {
            Command::Claim => String::from_str("/claim"),
            Command::Unclaim => String::from_str("/unclaim"),
        }
    }

    /// One line for the host's command help.
    pub fn get_help(&self) -> (help: String)
        ensures
            help@ == match self {
                Command::Claim => "Claims the current chunk."@,
                Command::Unclaim => "Unclaims the current chunk."@,
            },
    {
        match self {
            Command::Claim => String::from_str("Claims the current chunk."),
            Command::Unclaim => String::from_str("Unclaims the current chunk."),
        }
    }

    /// Runs the command for `sender` on the chunk they stand in. A sender
    /// that is no player gets no reply and changes nothing.
    pub fn execute(&self, plugin: &mut LandClaiming, sender: Option<&Player>) -> (reply: Option<
        CommandReply,
    >)
        ensures
            match sender {
                None => reply is None && final(plugin)@ == old(plugin)@,
                Some(player) => {
                    let cell = ChunkPosition::of_block(player.position);
                    &&& reply == Some(self.reply(old(plugin)@, player.name@, cell))
                    &&& final(plugin)@ == self.effect(old(plugin)@, player.name@, cell)
                },
            },
    {
        match sender {
            None => None,
            Some(player) => {
                let player_chunk_pos = ChunkPosition::from_block_position(player.position);
                match self {
                    Command::Claim => Some(plugin.claim_chunk(player, player_chunk_pos)),
                    Command::Unclaim => Some(plugin.unclaim_chunk(player, player_chunk_pos)),
                }
            },
        }
    }
}

} // verus!
