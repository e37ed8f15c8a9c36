//! The bot policy: a stateless decision applied to one bot miner.
//!
//! Each simulation tick, every live bot draws one of three actions —
//! try the pickaxe upgrade, try the mine upgrade, or donate a drawn
//! share of its gold. The drawing is the caller's (it needs a random
//! source); applying a drawn decision is pure and lives here.

use vstd::prelude::*;

use crate::miner::{Miner, spec_upgrade_pickaxe, spec_upgrade_mine, spec_contribute};
use vstd::arithmetic::mul::lemma_mul_inequality;
use vstd::arithmetic::div_mod::{lemma_div_is_ordered, lemma_div_multiples_vanish};

verus! {

/// How many actions the bot policy chooses among.
pub const BOT_DECISION_COUNT: u64 = 3;

/// Smallest share of its gold a donating bot gives, in thousandths.
pub const BOT_DONATE_PERMILLE_MIN: u64 = 100;

/// Exclusive upper bound on the share of its gold a donating bot
/// gives, in thousandths.
pub const BOT_DONATE_PERMILLE_MAX: u64 = 600;

/// Milligold a bot donates when it chose to give `permille`
/// thousandths of its gold: the exact share, rounded down.
pub open spec fn spec_donation_amount(gold: u64, permille: u64) -> u64 {
    ((gold * permille) / 1000) as u64
}

/// What one drawn decision leaves of a bot miner: a dead bot is
/// untouched; decision 0 tries the pickaxe upgrade, 1 the mine
/// upgrade (each a no-op under the miner's own guard), 2 donates the
/// drawn share of the bot's gold; any other draw does nothing.
pub open spec fn spec_bot_decision(m: Miner, decision: u64, permille: u64) -> Miner {
    if !m.alive {
        m
    } else if decision == 0 {
        spec_upgrade_pickaxe(m)
    } else if decision == 1 {
        spec_upgrade_mine(m)
    } else if decision == 2 {
        spec_contribute(m, spec_donation_amount(m.gold, permille))
    } else {
        m
    }
}

/// The donated share of `gold`, `permille` thousandths rounded down;
/// never more than the gold itself.
fn donation_amount(gold: u64, permille: u64) -> (r: u64)
    requires
        permille < 1000,
    ensures
        r == spec_donation_amount(gold, permille),
        r <= gold,
{
    proof {
        lemma_mul_inequality(permille as int, 999, gold as int);
        lemma_mul_inequality(gold as int, u64::MAX as int, 999);
        lemma_mul_inequality(999, 1000, gold as int);
        lemma_div_is_ordered(gold as int * permille as int, gold as int * 1000, 1000);
        lemma_div_multiples_vanish(gold as int, 1000);
    }
    let wide: u128 = (gold as u128) * (permille as u128);
    (wide / 1000) as u64
}

/// Apply one drawn decision to a bot miner, as `spec_bot_decision`
/// says; `permille` is the drawn donation share, read only when the
/// decision is to donate.
pub fn apply_bot_decision(m: &mut Miner, decision: u64, permille: u64)
    requires
        BOT_DONATE_PERMILLE_MIN <= permille < BOT_DONATE_PERMILLE_MAX,
    ensures
        *final(m) == spec_bot_decision(*old(m), decision, permille),
        old(m).inv() ==> final(m).inv(),
{
    if !m.alive {
        return;
    }
    if decision == 0 {
        m.upgrade_pickaxe();
    } else if decision == 1 {
        m.upgrade_mine();
    } else if decision == 2 {
        let share = donation_amount(m.gold, permille);
        m.contribute_gold(share);
    }
}

} // verus!
