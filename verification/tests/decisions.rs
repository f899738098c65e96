use land_claiming::chunk::{BlockPosition, ChunkPosition};
use land_claiming::claim::Claim;
use land_claiming::decision::{decide_interact, decide_move, InteractOutcome, MoveOutcome};
use land_claiming::player::{Gamemode, Player};
use land_claiming::plugin::LandClaiming;

fn survival(name: &str) -> Player {
    Player::new(name, Gamemode::Survival, BlockPosition::new(0, 64, 0))
}

#[test]
fn only_creative_mode_bypasses_claims() {
    assert!(Gamemode::Creative.bypasses_claims());
    assert!(!Gamemode::Survival.bypasses_claims());
    assert!(!Gamemode::Adventure.bypasses_claims());
    assert!(!Gamemode::Spectator.bypasses_claims());
}

#[test]
fn player_holds_what_it_was_made_with() {
    let player = Player::new("Alice", Gamemode::Adventure, BlockPosition::new(1, 2, 3));
    assert_eq!(player.name, "Alice");
    assert_eq!(player.gamemode, Gamemode::Adventure);
    assert_eq!(player.position, BlockPosition::new(1, 2, 3));
}

#[test]
fn interaction_on_unclaimed_land_is_permitted() {
    assert_eq!(decide_interact(&survival("Alice"), None), InteractOutcome::Permit);
}

#[test]
fn owner_interacts_freely() {
    let claim = Claim::new("Alice");
    let outcome = decide_interact(&survival("Alice"), Some(&claim));
    assert_eq!(outcome, InteractOutcome::Permit);
    assert!(!outcome.is_cancelled());
    assert_eq!(outcome.message(), None);
}

#[test]
fn stranger_is_denied_with_the_owners_name() {
    let claim = Claim::new("Bob");
    let outcome = decide_interact(&survival("Alice"), Some(&claim));
    assert!(outcome.is_cancelled());
    assert_eq!(
        outcome.message(),
        Some("This land is claimed by Bob. You cannot interact with it.")
    );
    assert_eq!(
        outcome,
        InteractOutcome::Deny {
            message: "This land is claimed by Bob. You cannot interact with it.".to_string()
        }
    );
}

#[test]
fn strangers_are_denied_in_every_mode_but_creative() {
    let claim = Claim::new("Alice");
    for gamemode in [Gamemode::Survival, Gamemode::Adventure, Gamemode::Spectator] {
        let player = Player::new("Mallory", gamemode, BlockPosition::new(0, 64, 0));
        assert!(decide_interact(&player, Some(&claim)).is_cancelled());
    }
    let player = Player::new("Mallory", Gamemode::Creative, BlockPosition::new(0, 64, 0));
    assert_eq!(decide_interact(&player, Some(&claim)), InteractOutcome::Permit);
}

#[test]
fn creative_player_interacts_on_claimed_land() {
    let mut plugin = LandClaiming::new();
    let owner = survival("Alice");
    plugin.claim_chunk(&owner, ChunkPosition::new(0, 0));
    let visitor = Player::new("Mallory", Gamemode::Creative, BlockPosition::new(300, 64, 300));
    let outcome = plugin.handle_interact_block(&visitor, BlockPosition::new(3, 70, 12));
    assert_eq!(outcome, InteractOutcome::Permit);
    assert!(!outcome.is_cancelled());
    assert_eq!(outcome.message(), None);
}

#[test]
fn scenario_stranger_is_denied_on_claimed_land() {
    let mut plugin = LandClaiming::new();
    let bob = survival("Bob");
    let alice = survival("Alice");
    assert_eq!(
        plugin.claim_chunk(&bob, ChunkPosition::new(0, 0)),
        land_claiming::command::CommandReply::Claimed
    );
    let outcome = plugin.handle_interact_block(&alice, BlockPosition::new(7, 64, 9));
    assert!(outcome.is_cancelled());
    let message = outcome.message().expect("a denial carries a message");
    assert!(message.contains("Bob"));
    assert_eq!(message, "This land is claimed by Bob. You cannot interact with it.");
}

#[test]
fn interaction_is_judged_by_the_chunk_of_the_block() {
    let mut plugin = LandClaiming::new();
    plugin.claim_chunk(&survival("Bob"), ChunkPosition::new(-1, 0));
    let alice = survival("Alice");
    assert!(plugin.handle_interact_block(&alice, BlockPosition::new(-1, 64, 0)).is_cancelled());
    assert!(plugin.handle_interact_block(&alice, BlockPosition::new(-16, 0, 15)).is_cancelled());
    assert!(!plugin.handle_interact_block(&alice, BlockPosition::new(0, 64, 0)).is_cancelled());
    assert!(!plugin.handle_interact_block(&alice, BlockPosition::new(-17, 64, 0)).is_cancelled());
    assert!(!plugin.handle_interact_block(&alice, BlockPosition::new(-1, 64, 16)).is_cancelled());
    assert!(!plugin.handle_interact_block(&alice, BlockPosition::new(-1, 64, -1)).is_cancelled());
}

#[test]
fn owner_interacts_on_own_land_through_the_plugin() {
    let mut plugin = LandClaiming::new();
    let bob = survival("Bob");
    plugin.claim_chunk(&bob, ChunkPosition::new(0, 0));
    assert_eq!(
        plugin.handle_interact_block(&bob, BlockPosition::new(7, 64, 9)),
        InteractOutcome::Permit
    );
}

#[test]
fn move_onto_unclaimed_land_is_silent() {
    let outcome = decide_move(&survival("Carol"), None);
    assert_eq!(outcome, MoveOutcome::Silent);
    assert_eq!(outcome.message(), None);
}

#[test]
fn scenario_move_into_unclaimed_chunk_sends_nothing() {
    let plugin = LandClaiming::new();
    let carol = survival("Carol");
    assert!(!plugin.is_claimed_chunk(ChunkPosition::new(2, 3)));
    let outcome = plugin.handle_player_move(&carol, BlockPosition::new(2 * 16 + 5, 64, 3 * 16 + 1));
    assert_eq!(outcome, MoveOutcome::Silent);
    assert_eq!(outcome.message(), None);
}

#[test]
fn owner_enters_own_land_silently() {
    let mut plugin = LandClaiming::new();
    let dave = survival("Dave");
    plugin.claim_chunk(&dave, ChunkPosition::new(1, 1));
    assert_eq!(plugin.handle_player_move(&dave, BlockPosition::new(20, 64, 20)), MoveOutcome::Silent);
}

#[test]
fn stranger_entering_claimed_land_is_told_the_owner() {
    let mut plugin = LandClaiming::new();
    plugin.claim_chunk(&survival("Dave"), ChunkPosition::new(1, 1));
    let outcome = plugin.handle_player_move(&survival("Erin"), BlockPosition::new(20, 64, 20));
    assert_eq!(
        outcome.message(),
        Some("You entered land claimed by Dave. Please respect their property.")
    );
    assert_eq!(
        outcome,
        MoveOutcome::Notify {
            message: "You entered land claimed by Dave. Please respect their property."
                .to_string()
        }
    );
}

#[test]
fn creative_stranger_is_still_told_on_entering() {
    let claim = Claim::new("Dave");
    let player = Player::new("Erin", Gamemode::Creative, BlockPosition::new(0, 64, 0));
    assert_eq!(
        decide_move(&player, Some(&claim)).message(),
        Some("You entered land claimed by Dave. Please respect their property.")
    );
}

#[test]
fn a_claim_that_is_gone_gives_no_notice() {
    let mut plugin = LandClaiming::new();
    let dave = survival("Dave");
    let cell = ChunkPosition::new(1, 1);
    plugin.claim_chunk(&dave, cell);
    assert!(plugin.is_claimed_chunk(cell));
    plugin.unclaim_chunk(&dave, cell);
    let outcome = plugin.handle_player_move(&survival("Erin"), BlockPosition::new(20, 64, 20));
    assert_eq!(outcome, MoveOutcome::Silent);
}

#[test]
fn get_claim_at_finds_the_claim_of_the_blocks_chunk() {
    let mut plugin = LandClaiming::new();
    plugin.claim_chunk(&survival("Bob"), ChunkPosition::new(-1, 0));
    assert_eq!(
        plugin.get_claim_at(BlockPosition::new(-2, 10, 0)).map(|c| c.owner()),
        Some("Bob")
    );
    assert_eq!(
        plugin.get_claim_at(BlockPosition::new(-1, 200, 0)).map(|c| c.owner()),
        Some("Bob")
    );
    assert!(plugin.get_claim_at(BlockPosition::new(0, 10, 0)).is_none());
    assert!(plugin.registry().is_claimed(ChunkPosition::new(-1, 0)));
}

#[test]
fn default_plugin_has_no_claims() {
    let plugin = LandClaiming::default();
    assert!(!plugin.is_claimed_chunk(ChunkPosition::new(0, 0)));
    assert!(plugin.get_claim_at(BlockPosition::new(0, 0, 0)).is_none());
}
