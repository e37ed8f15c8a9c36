//! The match: one player, three bots, a round clock, and the
//! Playing / RoundEnd / GameOver state machine with its end-of-round
//! donation ranking.

use vstd::prelude::*;

use crate::miner::{
    Miner, MinerType, STARTING_HEALTH, MAX_UPGRADE_LEVEL, spec_update, spec_upgrade_pickaxe,
    spec_upgrade_mine, spec_contribute, spec_take_damage,
};
use crate::scoring::{
    spec_bot_entries, spec_donation_entries, spec_sort_desc, spec_id_count, spec_has_id,
    spec_rank_of, spec_sorted_desc, lemma_sort_desc_count, lemma_sort_desc_sorted,
    lemma_count_at_index, lemma_rank_at_index, lemma_rank_in_range, lemma_donation_entries_count,
    sort_entries_desc,
};
use crate::bot_policy::{
    BOT_DECISION_COUNT, BOT_DONATE_PERMILLE_MIN, BOT_DONATE_PERMILLE_MAX, spec_bot_decision,
    apply_bot_decision,
};
use crate::rng::rng_gen_range;
use vstd::pervasive::VecAdditionalExecFns;

verus! {

/// Number of rounds after which the game ends even with the player
/// alive.
pub const MAX_ROUNDS: usize = 15;

/// Length of one round, in milliseconds.
pub const ROUND_DURATION_MS: u64 = 60_000;

/// How many bot miners play against the player.
pub const BOT_COUNT: usize = 3;

/// Phase of the match.
#[derive(Debug, Clone, Copy, PartialEq, Eq, Structural)]
pub enum GameState {
    /// A round is running: miners earn, spend and donate.
    Playing,
    /// A round was scored; an explicit advance starts the next one.
    RoundEnd,
    /// The player died or the last round was played; only a restart
    /// leaves this phase.
    GameOver,
}

/// The whole match state: the composition root the host loop drives.
pub struct MainState {
    pub player: Miner,
    /// The bot miners, in a fixed order; always `BOT_COUNT` of them.
    pub bots: Vec<Miner>,
    /// 1-based round counter, at most `MAX_ROUNDS`.
    pub current_round: usize,
    /// When the running round started, in milliseconds.
    pub round_start_time: u64,
    pub game_state: GameState,
    /// The scored donation list of the round just ended — pairs of
    /// miner identity (0 the player, i + 1 the bot at index i) and
    /// donated milligold, highest donor first; present exactly while
    /// the phase is `RoundEnd`. The damage an entry took equals its
    /// position in this list.
    pub round_results: Option<Vec<(usize, u64)>>,
}

/// The mathematical model of a `MainState`: the same data with the
/// bot collection as a sequence.
#[verifier::ext_equal]
pub struct GameModel {
    pub player: Miner,
    pub bots: Seq<Miner>,
    pub current_round: usize,
    pub round_start_time: u64,
    pub game_state: GameState,
    pub round_results: Option<Seq<(usize, u64)>>,
}

impl View for MainState {
    type V = GameModel;

    open spec fn view(&self) -> GameModel {
        GameModel {
            player: self.player,
            bots: self.bots@,
            current_round: self.current_round,
            round_start_time: self.round_start_time,
            game_state: self.game_state,
            round_results: match self.round_results {
                Some(v) => Some(v@),
                None => None,
            },
        }
    }
}

impl GameModel {
    /// Well-formedness: every miner is well formed and the roles are
    /// fixed; the round counter stays on 1..=MAX_ROUNDS and is below
    /// the cap while a further round is still owed; the scored list
    /// is held exactly while the phase is `RoundEnd`.
    pub open spec fn wf(self) -> bool {
        &&& self.player.inv()
        &&& self.player.miner_type == MinerType::Player
        &&& self.bots.len() == BOT_COUNT
        &&& (forall|i: int| 0 <= i < self.bots.len() ==> (#[trigger] self.bots[i]).inv())
        &&& (forall|i: int| 0 <= i < self.bots.len()
            ==> (#[trigger] self.bots[i]).miner_type == MinerType::Bot)
        &&& 1 <= self.current_round <= MAX_ROUNDS
        &&& (self.game_state == GameState::RoundEnd ==> self.current_round < MAX_ROUNDS)
        &&& (self.round_results is Some <==> self.game_state == GameState::RoundEnd)
    }
}

/// The state a fresh or restarted match holds: untouched miners, round
/// 1, the round clock started at `now`, and the Playing phase.
pub open spec fn spec_initial(now: u64) -> GameModel {
    GameModel {
        player: (Miner {
            miner_type: MinerType::Player,
            gold: 0,
            donated_gold: 0,
            pickaxe_level: 0,
            mine_level: 0,
            last_mine_time: now,
            health: STARTING_HEALTH,
            alive: true,
        }),
        bots: Seq::new(BOT_COUNT as nat, |i: int| Miner {
            miner_type: MinerType::Bot,
            gold: 0,
            donated_gold: 0,
            pickaxe_level: 0,
            mine_level: 0,
            last_mine_time: now,
            health: STARTING_HEALTH,
            alive: true,
        }),
        current_round: 1,
        round_start_time: now,
        game_state: GameState::Playing,
        round_results: None,
    }
}

impl MainState {
    /// A fresh match, its round clock started at `now`.
    pub fn new(now: u64) -> (s: MainState)
        ensures
            s@ == spec_initial(now),
            s@.wf(),
    {
        let player = Miner::new(MinerType::Player, now);
        let mut bots: Vec<Miner> = Vec::new();
        while bots.len() < BOT_COUNT
            invariant
                bots.len() <= BOT_COUNT,
                forall|i: int| 0 <= i < bots.len()
                    ==> bots[i] == spec_initial(now).bots[i],
            decreases BOT_COUNT - bots.len(),
        {
            bots.push(Miner::new(MinerType::Bot, now));
        }
        let s = MainState {
            player,
            bots,
            current_round: 1,
            round_start_time: now,
            game_state: GameState::Playing,
            round_results: None,
        };
        proof {
            assert(s@.bots =~= spec_initial(now).bots);
            assert(s@ =~= spec_initial(now));
        }
        s
    }

    /// Runtime check of the model invariant, for a host that wants to
    /// guard its calls: true exactly when the state is well formed.
    pub fn is_wf(&self) -> (b: bool)
        ensures
            b == self@.wf(),
    {
        let mut bots_ok = true;
        let mut i: usize = 0;
        while i < self.bots.len()
            invariant
                i <= self.bots@.len(),
                bots_ok == (forall|k: int| 0 <= k < i
                    ==> (#[trigger] self.bots@[k]).inv()
                        && self.bots@[k].miner_type == MinerType::Bot),
            decreases self.bots@.len() - i,
        {
            let b = self.bots[i];
            let this_ok = b.pickaxe_level <= MAX_UPGRADE_LEVEL && b.mine_level <= MAX_UPGRADE_LEVEL
                && 0 <= b.health && b.alive == (b.health > 0)
                && matches!(b.miner_type, MinerType::Bot);
            bots_ok = bots_ok && this_ok;
            i = i + 1;
        }
        let p = self.player;
        let player_ok = p.pickaxe_level <= MAX_UPGRADE_LEVEL && p.mine_level <= MAX_UPGRADE_LEVEL
            && 0 <= p.health && p.alive == (p.health > 0)
            && matches!(p.miner_type, MinerType::Player);
        player_ok && bots_ok && self.bots.len() == BOT_COUNT
            && 1 <= self.current_round && self.current_round <= MAX_ROUNDS
            && (!matches!(self.game_state, GameState::RoundEnd)
                || self.current_round < MAX_ROUNDS)
            && (self.round_results.is_some() == matches!(self.game_state, GameState::RoundEnd))
    }

    /// Acknowledge a scored round: from `RoundEnd` the round counter
    /// moves up, the round clock restarts at `now`, the scored list is
    /// cleared and play resumes; from any other phase nothing changes.
    pub fn start_next_round(&mut self, now: u64)
        requires
            old(self)@.wf(),
        ensures
            final(self)@.wf(),
            old(self)@.game_state != GameState::RoundEnd ==> *final(self) == *old(self),
            old(self)@.game_state == GameState::RoundEnd ==> final(self)@ == (GameModel {
                current_round: (old(self)@.current_round + 1) as usize,
                round_start_time: now,
                game_state: GameState::Playing,
                round_results: None,
                ..old(self)@
            }),
    {
        match self.game_state {
            GameState::RoundEnd => {
                self.current_round = self.current_round + 1;
                self.round_start_time = now;
                self.game_state = GameState::Playing;
                self.round_results = None;
            },
            _ => {},
        }
    }

    /// Restart from any phase: every entity and counter returns to its
    /// initial value and play resumes, the round clock started at
    /// `now`.
    pub fn restart_game(&mut self, now: u64)
        ensures
            final(self)@ == spec_initial(now),
            final(self)@.wf(),
    {
        *self = MainState::new(now);
    }

    /// The player buys the next pickaxe level; the purchase guard is
    /// the miner's own.
    pub fn player_upgrade_pickaxe(&mut self) -> (ok: bool)
        ensures
            final(self)@ == (GameModel { player: spec_upgrade_pickaxe(old(self)@.player), ..old(self)@ }),
            ok == (final(self)@.player != old(self)@.player),
            old(self)@.wf() ==> final(self)@.wf(),
    {
        self.player.upgrade_pickaxe()
    }

    /// The player buys the next mine level; the purchase guard is the
    /// miner's own.
    pub fn player_upgrade_mine(&mut self) -> (ok: bool)
        ensures
            final(self)@ == (GameModel { player: spec_upgrade_mine(old(self)@.player), ..old(self)@ }),
            ok == (final(self)@.player != old(self)@.player),
            old(self)@.wf() ==> final(self)@.wf(),
    {
        self.player.upgrade_mine()
    }

    /// The player donates `amount` milligold towards this round; the
    /// affordability guard is the miner's own.
    pub fn player_contribute(&mut self, amount: u64)
        ensures
            final(self)@ == (GameModel { player: spec_contribute(old(self)@.player, amount), ..old(self)@ }),
            old(self)@.wf() ==> final(self)@.wf(),
    {
        self.player.contribute_gold(amount)
    }

    /// Milliseconds of the running round still to play at `now`:
    /// the round length less the time elapsed, floored at zero.
    pub fn time_remaining_ms(&self, now: u64) -> (r: u64)
        ensures
            r == spec_time_remaining(self@.round_start_time, now),
    {
        if now >= self.round_start_time {
            let elapsed = now - self.round_start_time;
            if elapsed >= ROUND_DURATION_MS {
                0
            } else {
                ROUND_DURATION_MS - elapsed
            }
        } else {
            ROUND_DURATION_MS
        }
    }
}

/// The scored donation list of a model: its entries sorted by
/// descending donated amount.
pub open spec fn spec_results(g: GameModel) -> Seq<(usize, u64)> {
    spec_sort_desc(spec_donation_entries(g.player, g.bots))
}

/// What end-of-round scoring does to one miner: where its identity is
/// listed it takes its rank as damage, and its donation tally is
/// cleared either way.
pub open spec fn spec_score_miner(m: Miner, id: usize, results: Seq<(usize, u64)>) -> Miner {
    let damaged = if spec_has_id(results, id) {
        spec_take_damage(m, spec_rank_of(results, id))
    } else {
        m
    };
    Miner { donated_gold: 0, ..damaged }
}

/// The whole end-of-round step: the player and the live bots are
/// ranked by donated amount and each takes its rank as damage, every
/// donation tally is cleared, and the phase falls to `GameOver` when
/// the scored player is dead or the last round was played, else to
/// `RoundEnd` with the scored list held for display.
pub open spec fn spec_end_round(g: GameModel) -> GameModel {
    let results = spec_results(g);
    let player = spec_score_miner(g.player, 0, results);
    let bots = Seq::new(
        g.bots.len(),
        |i: int| spec_score_miner(g.bots[i], (i + 1) as usize, results),
    );
    let phase = if !player.alive {
        GameState::GameOver
    } else if g.current_round >= MAX_ROUNDS {
        GameState::GameOver
    } else {
        GameState::RoundEnd
    };
    GameModel {
        player,
        bots,
        game_state: phase,
        round_results: if phase == GameState::RoundEnd {
            Some(results)
        } else {
            None
        },
        ..g
    }
}

/// How the phase falls after scoring: the player is always listed,
/// and the match ends exactly when the damage of the player's rank
/// exhausts its health or the last round was played; otherwise the
/// round acknowledgement screen follows.
pub proof fn lemma_end_round_phase(g: GameModel)
    requires
        g.wf(),
    ensures
        spec_has_id(spec_results(g), 0),
        g.player.health <= spec_rank_of(spec_results(g), 0) ==> spec_end_round(
            g,
        ).game_state == GameState::GameOver,
        g.current_round >= MAX_ROUNDS ==> spec_end_round(g).game_state == GameState::GameOver,
        g.player.health > spec_rank_of(spec_results(g), 0) && g.current_round < MAX_ROUNDS
            ==> spec_end_round(g).game_state == GameState::RoundEnd,
{
    lemma_donation_entries_count(g.player, g.bots, 0);
    lemma_sort_desc_count(spec_donation_entries(g.player, g.bots), 0);
    lemma_rank_in_range(spec_results(g), 0);
}

impl MainState {
    /// Score the round that just elapsed, as `spec_end_round` says:
    /// rank the player and the live bots by donated amount, deal each
    /// its rank as damage, clear every donation tally, and move to
    /// `RoundEnd` — or to `GameOver` when the player died or this was
    /// the last round.
    pub fn end_round(&mut self)
        requires
            old(self)@.wf(),
            old(self)@.game_state == GameState::Playing,
        ensures
            final(self)@ == spec_end_round(old(self)@),
            spec_sorted_desc(spec_results(old(self)@)),
            final(self)@.wf(),
    {
        let ghost g0 = self@;
        let ghost entries_spec = spec_donation_entries(g0.player, g0.bots);
        let ghost results = spec_results(g0);

        // Collect (identity, donated) for the player and every live bot.
        let mut entries: Vec<(usize, u64)> = Vec::new();
        entries.push((0usize, self.player.donated_gold));
        proof {
            assert(entries@ + spec_bot_entries(g0.bots, 0) =~= entries_spec);
        }
        let mut i: usize = 0;
        while i < self.bots.len()
            invariant
                *self == *old(self),
                self@ == g0,
                i <= self.bots@.len(),
                entries@ + spec_bot_entries(g0.bots, i as int) == entries_spec,
            decreases self.bots@.len() - i,
        {
            let b = self.bots[i];
            if b.alive {
                entries.push((i + 1, b.donated_gold));
            }
            proof {
                if g0.bots[i as int].alive {
                    assert(spec_bot_entries(g0.bots, i as int)
                        == seq![(((i + 1) as usize), g0.bots[i as int].donated_gold)]
                            + spec_bot_entries(g0.bots, i as int + 1));
                }
                assert(entries@ + spec_bot_entries(g0.bots, i as int + 1) =~= entries_spec);
            }
            i = i + 1;
        }
        proof {
            assert(entries@ =~= entries_spec);
        }

        // Sort by donated amount, highest first, equal donors in
        // input order.
        let sorted = sort_entries_desc(&entries);
        proof {
            assert(sorted@ == results);
            lemma_sort_desc_count(entries_spec, 0);
            lemma_donation_entries_count(g0.player, g0.bots, 0);
            assert forall|id: usize| #[trigger] spec_id_count(results, id) == (if id == 0 {
                1int
            } else if id <= g0.bots.len() && g0.bots[id - 1].alive {
                1int
            } else {
                0int
            }) by {
                lemma_donation_entries_count(g0.player, g0.bots, id);
                lemma_sort_desc_count(entries_spec, id);
            }
            assert(results.len() <= g0.bots.len() + 1);
        }

        // Deal each listed miner its rank as damage.
        let mut k: usize = 0;
        while k < sorted.len()
            invariant
                g0.wf(),
                k <= sorted@.len(),
                sorted@ == results,
                results.len() <= g0.bots.len() + 1,
                g0.bots.len() == BOT_COUNT,
                forall|id: usize| #[trigger] spec_id_count(results, id) == (if id == 0 {
                    1int
                } else if id <= g0.bots.len() && g0.bots[id - 1].alive {
                    1int
                } else {
                    0int
                }),
                self.player == (if spec_has_id(results, 0) && 0 <= spec_rank_of(results, 0) < k {
                    spec_take_damage(g0.player, spec_rank_of(results, 0))
                } else {
                    g0.player
                }),
                self.bots@.len() == g0.bots.len(),
                forall|j: int| 0 <= j < g0.bots.len() ==> #[trigger] self.bots@[j] == (if spec_has_id(
                    results,
                    (j + 1) as usize,
                ) && 0 <= spec_rank_of(results, (j + 1) as usize) < k {
                    spec_take_damage(g0.bots[j], spec_rank_of(results, (j + 1) as usize))
                } else {
                    g0.bots[j]
                }),
                self.current_round == g0.current_round,
                self.round_start_time == g0.round_start_time,
                self.game_state == g0.game_state,
                self@.round_results == g0.round_results,
            decreases sorted@.len() - k,
        {
            let id = sorted[k].0;
            proof {
                lemma_count_at_index(sorted@, k as int);
                lemma_rank_at_index(sorted@, k as int);
                if spec_has_id(results, 0) {
                    lemma_rank_in_range(results, 0);
                }
                assert forall|j: int|
                    0 <= j < g0.bots.len() && #[trigger] spec_has_id(results, (j + 1) as usize)
                    implies 0
                    <= spec_rank_of(results, (j + 1) as usize) < results.len() && results[
                    spec_rank_of(results, (j + 1) as usize)].0 == (j + 1) as usize by {
                    lemma_rank_in_range(results, (j + 1) as usize);
                }
            }
            if id == 0 {
                self.player.take_damage(k as i32);
            } else {
                let mut b = self.bots[id - 1];
                b.take_damage(k as i32);
                self.bots.set(id - 1, b);
            }
            k = k + 1;
        }

        // Clear every donation tally, scored or not.
        let ghost mid_player = self.player;
        let ghost mid_bots = self.bots@;
        self.player.donated_gold = 0;
        let mut j: usize = 0;
        while j < self.bots.len()
            invariant
                j <= self.bots@.len(),
                self.bots@.len() == mid_bots.len(),
                self.player == (Miner { donated_gold: 0, ..mid_player }),
                forall|m: int| 0 <= m < j ==> self.bots@[m] == (Miner {
                    donated_gold: 0,
                    ..mid_bots[m]
                }),
                forall|m: int| j <= m < mid_bots.len() ==> self.bots@[m] == mid_bots[m],
                self.current_round == g0.current_round,
                self.round_start_time == g0.round_start_time,
                self.game_state == g0.game_state,
                self@.round_results == g0.round_results,
            decreases self.bots@.len() - j,
        {
            let mut b = self.bots[j];
            b.donated_gold = 0;
            self.bots.set(j, b);
            j = j + 1;
        }

        // The phase falls out of Playing; the scored list is kept
        // exactly when another round follows.
        if !self.player.alive {
            self.game_state = GameState::GameOver;
            self.round_results = None;
        } else if self.current_round >= MAX_ROUNDS {
            self.game_state = GameState::GameOver;
            self.round_results = None;
        } else {
            self.game_state = GameState::RoundEnd;
            self.round_results = Some(sorted);
        }

        proof {
            lemma_sort_desc_sorted(entries_spec);
            lemma_rank_in_range(results, 0);
            assert forall|j2: int| 0 <= j2 < g0.bots.len() implies self.bots@[j2]
                == spec_end_round(g0).bots[j2] by {
                let bid: usize = (j2 + 1) as usize;
                if spec_has_id(results, bid) {
                    lemma_rank_in_range(results, bid);
                }
            }
            assert(self@.bots =~= spec_end_round(g0).bots);
            assert(self@ =~= spec_end_round(g0));
        }
    }
}

/// Drawn bot decisions for one tick: one (decision, donation share)
/// pair per bot, each within the policy's ranges.
pub open spec fn spec_valid_draws(draws: Seq<(u64, u64)>) -> bool {
    &&& draws.len() == BOT_COUNT
    &&& (forall|k: int| 0 <= k < draws.len() ==> (#[trigger] draws[k]).0 < BOT_DECISION_COUNT
        && BOT_DONATE_PERMILLE_MIN <= draws[k].1 < BOT_DONATE_PERMILLE_MAX)
}

/// One simulation step of the model at `now` under the given draws:
/// frozen outside the Playing phase; otherwise every live miner
/// accrues passive income, every live bot applies its drawn policy
/// action, and the round is scored when its clock has run out.
pub open spec fn spec_tick(g: GameModel, now: u64, draws: Seq<(u64, u64)>) -> GameModel {
    if g.game_state != GameState::Playing {
        g
    } else {
        let mid = GameModel {
            player: spec_update(g.player, now),
            bots: g.bots.map(
                |k: int, m: Miner| spec_bot_decision(spec_update(m, now), draws[k].0, draws[k].1),
            ),
            ..g
        };
        if now >= g.round_start_time + ROUND_DURATION_MS {
            spec_end_round(mid)
        } else {
            mid
        }
    }
}

impl MainState {
    /// One random decision for the bot at `bot_index`: a dead bot is
    /// left alone; a live one draws one of the three policy actions —
    /// and, for a donation, its share — from `rng` and applies it.
    /// Nothing else in the match changes.
    pub fn bot_make_decision(&mut self, bot_index: usize, rng: &mut rand::rngs::StdRng)
        requires
            bot_index < old(self).bots@.len(),
        ensures
            final(self).player == old(self).player,
            final(self).current_round == old(self).current_round,
            final(self).round_start_time == old(self).round_start_time,
            final(self).game_state == old(self).game_state,
            final(self)@.round_results == old(self)@.round_results,
            final(self).bots@.len() == old(self).bots@.len(),
            forall|k: int| 0 <= k < old(self).bots@.len() && k != bot_index
                ==> final(self).bots@[k] == old(self).bots@[k],
            exists|d: u64, p: u64|
                d < BOT_DECISION_COUNT && BOT_DONATE_PERMILLE_MIN <= p < BOT_DONATE_PERMILLE_MAX
                    && final(self).bots@[bot_index as int] == #[trigger] spec_bot_decision(
                    old(self).bots@[bot_index as int],
                    d,
                    p,
                ),
            old(self)@.wf() ==> final(self)@.wf(),
    {
        let bot = self.bots[bot_index];
        if !bot.alive {
            proof {
                assert(self.bots@[bot_index as int] == spec_bot_decision(
                    self.bots@[bot_index as int],
                    0,
                    BOT_DONATE_PERMILLE_MIN,
                ));
            }
            return;
        }
        let decision = rng_gen_range(rng, 0, BOT_DECISION_COUNT);
        let permille = if decision == 2 {
            rng_gen_range(rng, BOT_DONATE_PERMILLE_MIN, BOT_DONATE_PERMILLE_MAX)
        } else {
            BOT_DONATE_PERMILLE_MIN
        };
        let mut b = bot;
        apply_bot_decision(&mut b, decision, permille);
        self.bots.set(bot_index, b);
    }

    /// One simulation step at `now`, bot decisions drawn from `rng`.
    /// Outside the Playing phase nothing at all changes — the miners
    /// are frozen. Within it the step is `spec_tick` under some valid
    /// draws: passive income for every live miner, one drawn policy
    /// action per live bot, and the round scored once its clock has
    /// run out.
    pub fn tick(&mut self, now: u64, rng: &mut rand::rngs::StdRng)
        requires
            old(self)@.wf(),
        ensures
            final(self)@.wf(),
            old(self)@.game_state != GameState::Playing ==> *final(self) == *old(self),
            old(self)@.game_state == GameState::Playing ==> exists|draws: Seq<(u64, u64)>|
                spec_valid_draws(draws) && final(self)@ == #[trigger] spec_tick(
                    old(self)@,
                    now,
                    draws,
                ),
    {
        match self.game_state {
            GameState::Playing => {},
            _ => {
                return;
            },
        }
        let ghost g0 = self@;

        // Passive income for the player and every bot; each miner's
        // own guard skips the dead and the not-yet-elapsed.
        self.player.update(now);
        let mut i: usize = 0;
        while i < self.bots.len()
            invariant
                g0.wf(),
                g0.game_state == GameState::Playing,
                i <= g0.bots.len(),
                self.bots@.len() == g0.bots.len(),
                self.player == spec_update(g0.player, now),
                forall|k: int| 0 <= k < i ==> self.bots@[k] == spec_update(g0.bots[k], now),
                forall|k: int| i <= k < g0.bots.len() ==> self.bots@[k] == g0.bots[k],
                self.current_round == g0.current_round,
                self.round_start_time == g0.round_start_time,
                self.game_state == g0.game_state,
                self@.round_results == g0.round_results,
            decreases g0.bots.len() - i,
        {
            let mut b = self.bots[i];
            b.update(now);
            self.bots.set(i, b);
            i = i + 1;
        }

        // One drawn policy action per live bot.
        let ghost mut draws: Seq<(u64, u64)> = Seq::empty();
        let mut i: usize = 0;
        while i < self.bots.len()
            invariant
                g0.wf(),
                g0.game_state == GameState::Playing,
                i <= g0.bots.len(),
                self.bots@.len() == g0.bots.len(),
                draws.len() == i,
                forall|k: int| 0 <= k < i ==> (#[trigger] draws[k]).0 < BOT_DECISION_COUNT
                    && BOT_DONATE_PERMILLE_MIN <= draws[k].1 < BOT_DONATE_PERMILLE_MAX,
                self.player == spec_update(g0.player, now),
                forall|k: int| 0 <= k < i ==> self.bots@[k] == spec_bot_decision(
                    spec_update(g0.bots[k], now),
                    draws[k].0,
                    draws[k].1,
                ),
                forall|k: int| i <= k < g0.bots.len() ==> self.bots@[k] == spec_update(
                    g0.bots[k],
                    now,
                ),
                self@.wf(),
                self.current_round == g0.current_round,
                self.round_start_time == g0.round_start_time,
                self.game_state == g0.game_state,
                self@.round_results == g0.round_results,
            decreases g0.bots.len() - i,
        {
            let ghost before = self.bots@[i as int];
            self.bot_make_decision(i, rng);
            proof {
                let (d, p) = choose|d: u64, p: u64|
                    d < BOT_DECISION_COUNT && BOT_DONATE_PERMILLE_MIN <= p
                        < BOT_DONATE_PERMILLE_MAX && self.bots@[i as int] == #[trigger]
                    spec_bot_decision(before, d, p);
                draws = draws.push((d, p));
            }
            i = i + 1;
        }

        // Score the round once its clock has run out.
        let ghost mid = self@;
        proof {
            assert(mid.bots =~= g0.bots.map(
                |k: int, m: Miner| spec_bot_decision(spec_update(m, now), draws[k].0, draws[k].1),
            ));
        }
        if now >= self.round_start_time && now - self.round_start_time >= ROUND_DURATION_MS {
            self.end_round();
        }
        proof {
            assert(mid =~= (GameModel {
                player: spec_update(g0.player, now),
                bots: g0.bots.map(
                    |k: int, m: Miner| spec_bot_decision(
                        spec_update(m, now),
                        draws[k].0,
                        draws[k].1,
                    ),
                ),
                ..g0
            }));
            assert(self@ == spec_tick(g0, now, draws));
        }
    }
}

/// Time left in a round started at `start` when the clock reads
/// `now`: the round length less the elapsed time, floored at zero.
pub open spec fn spec_time_remaining(start: u64, now: u64) -> u64 {
    if now >= start + ROUND_DURATION_MS {
        0
    } else if now >= start {
        (start + ROUND_DURATION_MS - now) as u64
    } else {
        ROUND_DURATION_MS
    }
}

} // verus!
