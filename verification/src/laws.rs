//! What holds of the registry and of the decisions, whatever the inputs.
//!
//! The registry operations are stated over the spec functions of their
//! contracts, so each law here is a law of the executable functions.

use crate::chunk::ChunkPosition;
use crate::claim::ClaimView;
use crate::command::{Command, CommandReply};
use crate::decision::{interact_outcome, move_outcome};
use crate::player::Gamemode;
use crate::registry::{
    after_claim, after_unclaim, claim_result, unclaim_result, AlreadyClaimed, ClaimMap,
    UnclaimError,
};
use vstd::prelude::*;

verus! {

/// One command as it reached the registry: who issued which command on
/// which chunk.
pub struct Issued {
    pub command: Command,
    pub name: Seq<char>,
    pub cell: ChunkPosition,
}

/// The registry after the commands of `history` have run on `m`, the
/// first one first.
pub open spec fn replay(m: ClaimMap, history: Seq<Issued>) -> ClaimMap
    decreases history.len(),
{
    if history.len() == 0 {
        m
    } else {
        let last = history.last();
        last.command.effect(replay(m, history.drop_last()), last.name, last.cell)
    }
}

/// In a new registry no chunk is claimed.
pub proof fn lemma_nothing_claimed_at_start(c: ChunkPosition)
    ensures
        !ClaimMap::empty().contains_key(c),
{
}

/// A `claim` changes whether a chunk is claimed only for its own chunk
/// and only when it succeeds; that chunk is then claimed, by the
/// claimant alone.
pub proof fn lemma_claim_changes_its_chunk_only(
    m: ClaimMap,
    cell: ChunkPosition,
    owner: Seq<char>,
    c: ChunkPosition,
)
    ensures
        after_claim(m, cell, owner).contains_key(c) != m.contains_key(c) <==> c == cell
            && claim_result(m, cell) is Ok,
        claim_result(m, cell) is Ok ==> !m.contains_key(cell) && after_claim(m, cell, owner).get(
            cell,
        ) == Some(ClaimView::founded_by(owner)),
        c != cell ==> after_claim(m, cell, owner).get(c) == m.get(c),
{
}

/// An `unclaim` changes whether a chunk is claimed only for its own
/// chunk and only when it succeeds; that chunk is then unclaimed.
pub proof fn lemma_unclaim_changes_its_chunk_only(
    m: ClaimMap,
    cell: ChunkPosition,
    requester: Seq<char>,
    c: ChunkPosition,
)
    ensures
        after_unclaim(m, cell, requester).contains_key(c) != m.contains_key(c) <==> c == cell
            && unclaim_result(m, cell, requester) is Ok,
        unclaim_result(m, cell, requester) is Ok ==> m.contains_key(cell) && !after_unclaim(
            m,
            cell,
            requester,
        ).contains_key(cell),
        c != cell ==> after_unclaim(m, cell, requester).get(c) == m.get(c),
{
}

/// A chunk that is claimed after a history was claimed before it, or
/// the history holds a `claim` on that chunk.
pub proof fn lemma_claimed_only_after_claim(m: ClaimMap, history: Seq<Issued>, c: ChunkPosition)
    requires
        replay(m, history).contains_key(c),
    ensures
        m.contains_key(c) || exists|i: int|
            0 <= i < history.len() && (#[trigger] history[i]).command == Command::Claim
                && history[i].cell == c,
    decreases history.len(),
{
    if history.len() > 0 {
        let last = history.last();
        let before = replay(m, history.drop_last());
        if last.command == Command::Claim && last.cell == c {
            assert(history[history.len() - 1] == last);
        } else {
            assert(before.contains_key(c));
            lemma_claimed_only_after_claim(m, history.drop_last(), c);
            if !m.contains_key(c) {
                let i = choose|i: int|
                    0 <= i < history.drop_last().len() && (#[trigger] history.drop_last()[i]).command
                        == Command::Claim && history.drop_last()[i].cell == c;
                assert(history[i] == history.drop_last()[i]);
            }
        }
    }
}

/// A history of commands none of which is aimed at a chunk leaves that
/// chunk as it was: unclaimed, or under the same claim.
pub proof fn lemma_untargeted_chunk_is_untouched(m: ClaimMap, history: Seq<Issued>, c: ChunkPosition)
    requires
        forall|i: int| 0 <= i < history.len() ==> (#[trigger] history[i]).cell != c,
    ensures
        replay(m, history).get(c) == m.get(c),
    decreases history.len(),
{
    if history.len() > 0 {
        lemma_untargeted_chunk_is_untouched(m, history.drop_last(), c);
        assert(history.last() == history[history.len() - 1]);
    }
}

/// A claim on a chunk that is claimed already fails with
/// `AlreadyClaimed`, whoever asks, and leaves the registry as it was.
pub proof fn lemma_claim_on_claimed_chunk_fails(m: ClaimMap, cell: ChunkPosition, x: Seq<char>)
    requires
        m.contains_key(cell),
    ensures
        claim_result(m, cell) == Err::<(), AlreadyClaimed>(AlreadyClaimed),
        after_claim(m, cell, x) == m,
        CommandReply::of_claim(claim_result(m, cell)) == CommandReply::AlreadyClaimed,
{
}

/// After any `claim` on a chunk, a second one on the same chunk fails
/// and changes nothing.
pub proof fn lemma_second_claim_fails(
    m: ClaimMap,
    cell: ChunkPosition,
    first: Seq<char>,
    second: Seq<char>,
)
    ensures
        claim_result(after_claim(m, cell, first), cell) == Err::<(), AlreadyClaimed>(
            AlreadyClaimed,
        ),
        after_claim(after_claim(m, cell, first), cell, second) == after_claim(m, cell, first),
{
}

/// An `unclaim` succeeds exactly when the chunk is claimed and the
/// requester is its owner.
pub proof fn lemma_unclaim_succeeds_iff_owner(m: ClaimMap, cell: ChunkPosition, x: Seq<char>)
    ensures
        unclaim_result(m, cell, x) is Ok <==> m.contains_key(cell) && m[cell].owner == x,
        unclaim_result(m, cell, x) == Err::<(), UnclaimError>(UnclaimError::NotClaimed)
            <==> !m.contains_key(cell),
        unclaim_result(m, cell, x) == Err::<(), UnclaimError>(UnclaimError::NotOwner)
            <==> m.contains_key(cell) && m[cell].owner != x,
{
}

/// An `unclaim` by anyone but the owner fails with `NotOwner`, and the
/// chunk keeps its claim and its owner.
pub proof fn lemma_unclaim_by_other_keeps_claim(m: ClaimMap, cell: ChunkPosition, y: Seq<char>)
    requires
        m.contains_key(cell),
        m[cell].owner != y,
    ensures
        unclaim_result(m, cell, y) == Err::<(), UnclaimError>(UnclaimError::NotOwner),
        after_unclaim(m, cell, y) == m,
        after_unclaim(m, cell, y).contains_key(cell),
        after_unclaim(m, cell, y)[cell].owner == m[cell].owner,
{
}

/// A claim disappears only through an `unclaim` of its own chunk by its
/// owner.
pub proof fn lemma_only_owner_unclaim_removes(m: ClaimMap, issued: Issued, c: ChunkPosition)
    requires
        m.contains_key(c),
        !issued.command.effect(m, issued.name, issued.cell).contains_key(c),
    ensures
        issued.command == Command::Unclaim,
        issued.cell == c,
        issued.name == m[c].owner,
{
}

/// No command alters a claim that it leaves in place: owner and members
/// stay as they were.
pub proof fn lemma_commands_never_edit_claims(m: ClaimMap, issued: Issued, c: ChunkPosition)
    requires
        m.contains_key(c),
        issued.command.effect(m, issued.name, issued.cell).contains_key(c),
    ensures
        issued.command.effect(m, issued.name, issued.cell)[c] == m[c],
{
}

/// The members of a claim are its owner alone from the moment it is
/// made, through every history of commands on other chunks.
pub proof fn lemma_members_outlast_other_chunks(
    m: ClaimMap,
    cell: ChunkPosition,
    owner: Seq<char>,
    history: Seq<Issued>,
)
    requires
        !m.contains_key(cell),
        forall|i: int| 0 <= i < history.len() ==> (#[trigger] history[i]).cell != cell,
    ensures
        replay(after_claim(m, cell, owner), history).contains_key(cell),
        replay(after_claim(m, cell, owner), history)[cell].owner == owner,
        replay(after_claim(m, cell, owner), history)[cell].members == set![owner],
{
    lemma_untargeted_chunk_is_untouched(after_claim(m, cell, owner), history, cell);
}

/// The owner of a claim is admitted to it, whether or not the member
/// set lists them, and so is every member.
pub proof fn lemma_owner_and_members_are_admitted(claim: ClaimView, name: Seq<char>)
    ensures
        claim.admits(claim.owner),
        claim.members.contains(name) ==> claim.admits(name),
        ClaimView::founded_by(name).admits(name),
{
}

/// A player in creative mode is permitted every block interaction,
/// whatever claim lies on the chunk and whoever its members are.
pub proof fn lemma_creative_bypasses_claims(name: Seq<char>, claim: Option<ClaimView>)
    ensures
        interact_outcome(name, Gamemode::Creative, claim) is None,
{
}

/// Outside creative mode a block interaction is refused exactly when
/// the chunk is claimed and the player is neither owner nor member; the
/// refusal names the owner. On unclaimed land everything is permitted.
pub proof fn lemma_interaction_refused_iff_stranger(
    name: Seq<char>,
    gamemode: Gamemode,
    claim: Option<ClaimView>,
)
    requires
        !(gamemode is Creative),
    ensures
        interact_outcome(name, gamemode, claim) is Some <==> claim is Some && !claim->0.admits(
            name,
        ),
        interact_outcome(name, gamemode, None) is None,
{
}

/// A move is noticed exactly when the chunk entered is claimed and the
/// player is neither owner nor member.
pub proof fn lemma_move_noticed_iff_stranger(name: Seq<char>, claim: Option<ClaimView>)
    ensures
        move_outcome(name, claim) is Some <==> claim is Some && !claim->0.admits(name),
        move_outcome(name, None) is None,
{
}

/// Of two claims that race for an unclaimed chunk, whichever the
/// registry takes first succeeds and the other fails with
/// `AlreadyClaimed`; the chunk belongs to the first.
pub proof fn lemma_racing_claims_have_one_winner(
    m: ClaimMap,
    cell: ChunkPosition,
    a: Seq<char>,
    b: Seq<char>,
)
    requires
        !m.contains_key(cell),
    ensures
        claim_result(m, cell) is Ok,
        claim_result(after_claim(m, cell, a), cell) == Err::<(), AlreadyClaimed>(AlreadyClaimed),
        after_claim(after_claim(m, cell, a), cell, b)[cell] == ClaimView::founded_by(a),
        claim_result(after_claim(m, cell, b), cell) == Err::<(), AlreadyClaimed>(AlreadyClaimed),
        after_claim(after_claim(m, cell, b), cell, a)[cell] == ClaimView::founded_by(b),
{
}

/// Claiming and then unclaiming a free chunk as the same player gives
/// back the registry as it was.
pub proof fn lemma_unclaim_undoes_claim(m: ClaimMap, cell: ChunkPosition, owner: Seq<char>)
    requires
        !m.contains_key(cell),
    ensures
        unclaim_result(after_claim(m, cell, owner), cell, owner) is Ok,
        after_unclaim(after_claim(m, cell, owner), cell, owner) == m,
{
    assert(m.insert(cell, ClaimView::founded_by(owner)).remove(cell) =~= m);
}

} // verus!
