//! The match: round scoring and ranking, phase transitions, restart,
//! the frozen non-Playing phases, and the bot policy.

use idle_miners::bot_policy::apply_bot_decision;
use idle_miners::game_state::{GameState, MainState, BOT_COUNT, MAX_ROUNDS, ROUND_DURATION_MS};
use idle_miners::miner::{Miner, MinerType, MILLIGOLD_PER_GOLD, STARTING_HEALTH};
use rand::SeedableRng;

fn gold(n: u64) -> u64 {
    n * MILLIGOLD_PER_GOLD
}

fn rng(seed: u64) -> rand::rngs::StdRng {
    rand::rngs::StdRng::seed_from_u64(seed)
}

#[test]
fn new_game_initial_state() {
    let s = MainState::new(7);
    assert!(s.is_wf());
    assert_eq!(s.bots.len(), BOT_COUNT);
    assert_eq!(s.current_round, 1);
    assert_eq!(s.round_start_time, 7);
    assert!(matches!(s.game_state, GameState::Playing));
    assert!(s.round_results.is_none());
    assert_eq!(s.player.health, STARTING_HEALTH);
    assert!(matches!(s.player.miner_type, MinerType::Player));
    for b in &s.bots {
        assert_eq!(b.health, STARTING_HEALTH);
        assert_eq!(b.gold, 0);
        assert!(matches!(b.miner_type, MinerType::Bot));
    }
}

#[test]
fn end_round_ranks_donors_and_deals_rank_damage() {
    // Player donated 100, first bot 50, second bot 200; the third bot
    // is dead. Ranking: second bot (identity 2), player (identity 0),
    // first bot (identity 1); damage 0, 1, 2; the dead bot is not
    // listed and takes nothing.
    let mut s = MainState::new(0);
    s.player.donated_gold = gold(100);
    s.bots[0].donated_gold = gold(50);
    s.bots[1].donated_gold = gold(200);
    s.bots[2].health = 0;
    s.bots[2].alive = false;
    s.bots[2].donated_gold = gold(999);

    s.end_round();

    let results = s.round_results.as_ref().expect("a scored round holds results");
    assert_eq!(results.len(), 3);
    assert_eq!(results[0], (2, gold(200)));
    assert_eq!(results[1], (0, gold(100)));
    assert_eq!(results[2], (1, gold(50)));

    assert_eq!(s.bots[1].health, 10);
    assert_eq!(s.player.health, 9);
    assert_eq!(s.bots[0].health, 8);
    assert_eq!(s.bots[2].health, 0);
    assert!(!s.bots[2].alive);

    assert_eq!(s.player.donated_gold, 0);
    for b in &s.bots {
        assert_eq!(b.donated_gold, 0);
    }
    assert!(matches!(s.game_state, GameState::RoundEnd));
    assert!(s.is_wf());
}

#[test]
fn end_round_breaks_ties_by_entry_order() {
    // Equal donations keep the entry order: the player is listed
    // before the bots, earlier bots before later ones.
    let mut s = MainState::new(0);
    s.player.donated_gold = gold(30);
    s.bots[0].donated_gold = gold(30);
    s.bots[1].donated_gold = gold(30);
    s.bots[2].donated_gold = gold(40);

    s.end_round();

    let results = s.round_results.as_ref().expect("a scored round holds results");
    assert_eq!(results.len(), 4);
    assert_eq!(results[0], (3, gold(40)));
    assert_eq!(results[1], (0, gold(30)));
    assert_eq!(results[2], (1, gold(30)));
    assert_eq!(results[3], (2, gold(30)));
}

#[test]
fn end_round_zero_donations_rank_by_entry_order() {
    let mut s = MainState::new(0);
    s.end_round();
    let results = s.round_results.as_ref().expect("a scored round holds results");
    assert_eq!(results.len(), 4);
    assert_eq!(results[0], (0, 0));
    assert_eq!(results[1], (1, 0));
    assert_eq!(results[2], (2, 0));
    assert_eq!(results[3], (3, 0));
    // Damage by rank: the player takes none, the bots 1, 2, 3.
    assert_eq!(s.player.health, 10);
    assert_eq!(s.bots[0].health, 9);
    assert_eq!(s.bots[1].health, 8);
    assert_eq!(s.bots[2].health, 7);
}

#[test]
fn end_round_kills_player_with_one_health_and_ends_game() {
    // Health 1 and a losing rank (damage >= 1) exhausts the player.
    let mut s = MainState::new(0);
    s.player.health = 1;
    s.bots[0].donated_gold = gold(10);

    s.end_round();

    assert_eq!(s.player.health, 0);
    assert!(!s.player.alive);
    assert!(matches!(s.game_state, GameState::GameOver));
    assert!(s.round_results.is_none());
    assert!(s.is_wf());
}

#[test]
fn end_round_top_donor_with_one_health_survives() {
    let mut s = MainState::new(0);
    s.player.health = 1;
    s.player.donated_gold = gold(10);

    s.end_round();

    assert_eq!(s.player.health, 1);
    assert!(s.player.alive);
    assert!(matches!(s.game_state, GameState::RoundEnd));
}

#[test]
fn end_round_of_final_round_ends_game_even_healthy() {
    let mut s = MainState::new(0);
    s.current_round = MAX_ROUNDS;
    s.player.donated_gold = gold(10);

    s.end_round();

    assert!(s.player.alive);
    assert!(matches!(s.game_state, GameState::GameOver));
    assert!(s.round_results.is_none());
    assert!(s.is_wf());
}

#[test]
fn start_next_round_advances_only_from_round_end() {
    let mut s = MainState::new(0);
    s.end_round();
    assert!(matches!(s.game_state, GameState::RoundEnd));

    s.start_next_round(123);
    assert_eq!(s.current_round, 2);
    assert_eq!(s.round_start_time, 123);
    assert!(matches!(s.game_state, GameState::Playing));
    assert!(s.round_results.is_none());

    // Outside RoundEnd it is a no-op.
    s.start_next_round(456);
    assert_eq!(s.current_round, 2);
    assert_eq!(s.round_start_time, 123);
    assert!(matches!(s.game_state, GameState::Playing));
}

#[test]
fn restart_resets_everything() {
    let mut s = MainState::new(0);
    s.player.gold = gold(500);
    s.player.health = 1;
    s.player.donated_gold = gold(5);
    s.player.pickaxe_level = 3;
    s.bots[1].mine_level = 2;
    s.bots[2].health = 0;
    s.bots[2].alive = false;
    s.current_round = MAX_ROUNDS;
    s.end_round();
    assert!(matches!(s.game_state, GameState::GameOver));

    s.restart_game(999);

    assert!(s.is_wf());
    assert_eq!(s.current_round, 1);
    assert_eq!(s.round_start_time, 999);
    assert!(matches!(s.game_state, GameState::Playing));
    assert!(s.round_results.is_none());
    assert_eq!(s.player.health, 10);
    assert_eq!(s.player.gold, 0);
    assert_eq!(s.player.donated_gold, 0);
    assert_eq!(s.player.pickaxe_level, 0);
    assert_eq!(s.player.mine_level, 0);
    for b in &s.bots {
        assert_eq!(b.health, 10);
        assert_eq!(b.gold, 0);
        assert_eq!(b.donated_gold, 0);
        assert_eq!(b.pickaxe_level, 0);
        assert_eq!(b.mine_level, 0);
        assert!(b.alive);
    }
}

#[test]
fn tick_outside_playing_freezes_all_miners() {
    let mut s = MainState::new(0);
    s.player.gold = gold(3);
    s.bots[0].donated_gold = gold(1);
    s.end_round();
    let mut r = rng(1);

    let snapshot = (
        s.player,
        s.bots.clone(),
        s.current_round,
        s.round_start_time,
        s.round_results.clone(),
    );
    // Far past every mining interval and the round clock.
    s.tick(10 * ROUND_DURATION_MS, &mut r);

    assert!(matches!(s.game_state, GameState::RoundEnd));
    assert_eq!(s.player, snapshot.0);
    assert_eq!(s.bots, snapshot.1);
    assert_eq!(s.current_round, snapshot.2);
    assert_eq!(s.round_start_time, snapshot.3);
    assert_eq!(s.round_results, snapshot.4);
}

#[test]
fn tick_accrues_player_income_and_conserves_bot_gold() {
    let mut s = MainState::new(0);
    let mut r = rng(2);
    s.tick(1000, &mut r);
    // One yield at base levels for the player; a bot may have donated
    // a share of its own yield, but what it holds and what it donated
    // still add up to that yield.
    assert_eq!(s.player.gold, 2000);
    assert_eq!(s.player.last_mine_time, 1000);
    for b in &s.bots {
        assert_eq!(b.gold + b.donated_gold, 2000);
    }
    assert!(matches!(s.game_state, GameState::Playing));
    assert!(s.is_wf());
}

#[test]
fn tick_before_interval_accrues_nothing() {
    let mut s = MainState::new(0);
    let mut r = rng(3);
    s.tick(999, &mut r);
    assert_eq!(s.player.gold, 0);
    for b in &s.bots {
        assert_eq!(b.gold + b.donated_gold, 0);
    }
}

#[test]
fn tick_scores_round_when_clock_runs_out() {
    let mut s = MainState::new(0);
    let mut r = rng(4);
    s.tick(ROUND_DURATION_MS, &mut r);
    assert!(matches!(s.game_state, GameState::RoundEnd));
    let results = s.round_results.as_ref().expect("a scored round holds results");
    assert_eq!(results.len(), 4);
    assert!(s.is_wf());
}

#[test]
fn tick_keeps_state_well_formed_over_a_long_match() {
    let mut s = MainState::new(0);
    let mut r = rng(5);
    let mut now: u64 = 0;
    for frame in 0..5000u64 {
        now += 16;
        s.tick(now, &mut r);
        assert!(s.is_wf());
        if matches!(s.game_state, GameState::RoundEnd) {
            s.start_next_round(now);
            assert!(s.is_wf());
        }
        if matches!(s.game_state, GameState::GameOver) && frame % 2 == 0 {
            s.restart_game(now);
            assert!(s.is_wf());
        }
    }
}

#[test]
fn player_commands_delegate_to_the_player() {
    let mut s = MainState::new(0);
    s.player.gold = gold(250);
    assert!(s.player_upgrade_pickaxe());
    assert_eq!(s.player.pickaxe_level, 1);
    assert_eq!(s.player.gold, gold(50));
    assert!(!s.player_upgrade_pickaxe());

    s.player.gold = gold(100);
    assert!(s.player_upgrade_mine());
    assert_eq!(s.player.mine_level, 1);
    assert_eq!(s.player.gold, 0);
    assert!(!s.player_upgrade_mine());

    s.player.gold = gold(10);
    s.player_contribute(gold(4));
    assert_eq!(s.player.gold, gold(6));
    assert_eq!(s.player.donated_gold, gold(4));
    s.player_contribute(gold(7));
    assert_eq!(s.player.gold, gold(6));
    assert_eq!(s.player.donated_gold, gold(4));
}

#[test]
fn time_remaining_counts_down_and_floors_at_zero() {
    let mut s = MainState::new(1000);
    assert_eq!(s.time_remaining_ms(1000), ROUND_DURATION_MS);
    assert_eq!(s.time_remaining_ms(1500), ROUND_DURATION_MS - 500);
    assert_eq!(s.time_remaining_ms(1000 + ROUND_DURATION_MS), 0);
    assert_eq!(s.time_remaining_ms(1000 + 10 * ROUND_DURATION_MS), 0);
    // A clock reading from before the round start leaves the full round.
    s.round_start_time = 5000;
    assert_eq!(s.time_remaining_ms(4000), ROUND_DURATION_MS);
}

#[test]
fn bot_decision_upgrade_pickaxe_when_affordable() {
    let mut b = Miner::new(MinerType::Bot, 0);
    b.gold = gold(200);
    apply_bot_decision(&mut b, 0, 100);
    assert_eq!(b.pickaxe_level, 1);
    assert_eq!(b.gold, 0);
}

#[test]
fn bot_decision_upgrade_unaffordable_is_noop() {
    let mut b = Miner::new(MinerType::Bot, 0);
    b.gold = gold(99);
    apply_bot_decision(&mut b, 0, 100);
    apply_bot_decision(&mut b, 1, 100);
    assert_eq!(b.pickaxe_level, 0);
    assert_eq!(b.mine_level, 0);
    assert_eq!(b.gold, gold(99));
}

#[test]
fn bot_decision_donates_exact_share_rounded_down() {
    let mut b = Miner::new(MinerType::Bot, 0);
    b.gold = 10_001;
    apply_bot_decision(&mut b, 2, 599);
    // 10_001 * 599 / 1000, rounded down.
    assert_eq!(b.donated_gold, 5990);
    assert_eq!(b.gold, 10_001 - 5990);
}

#[test]
fn bot_decision_on_dead_bot_is_noop() {
    let mut b = Miner::new(MinerType::Bot, 0);
    b.gold = gold(500);
    b.health = 0;
    b.alive = false;
    apply_bot_decision(&mut b, 2, 300);
    assert_eq!(b.gold, gold(500));
    assert_eq!(b.donated_gold, 0);
}

#[test]
fn bot_make_decision_touches_only_the_chosen_bot() {
    let mut s = MainState::new(0);
    for b in s.bots.iter_mut() {
        b.gold = gold(1000);
    }
    s.player.gold = gold(1000);
    let bot2_before = s.bots[2];
    let player_before = s.player;
    let mut r = rng(6);
    for _ in 0..50 {
        s.bot_make_decision(0, &mut r);
        s.bot_make_decision(1, &mut r);
    }
    assert_eq!(s.bots[2], bot2_before);
    assert_eq!(s.player, player_before);
    // Over fifty seeded draws each bot acts at least once: the random
    // wrapper really drew decisions.
    assert!(s.bots[0] != Miner { gold: gold(1000), ..Miner::new(MinerType::Bot, 0) });
    assert!(s.is_wf());
}
