//! The mining entity: gold balance, upgrade levels, health, and the
//! economy operations that act on them.
//!
//! Gold amounts are in milligold (thousandths of a gold piece), so
//! that fractional donations stay exact; timestamps are milliseconds
//! of a monotonic clock.

use vstd::prelude::*;

verus! {

/// Milligold per gold piece: all gold amounts are multiples of a
/// thousandth of a gold piece.
pub const MILLIGOLD_PER_GOLD: u64 = 1000;

/// Health every miner starts with.
pub const STARTING_HEALTH: i32 = 10;

/// Highest level either upgrade track can reach.
pub const MAX_UPGRADE_LEVEL: usize = 4;

/// Who issues commands to this miner; there is no behavioural
/// difference between the two.
#[derive(Debug, Clone, Copy, PartialEq, Eq, Structural)]
pub enum MinerType {
    Player,
    Bot,
}

/// One mining entity: the player or a bot.
#[derive(Debug, Clone, Copy, PartialEq, Eq, Structural)]
pub struct Miner {
    pub miner_type: MinerType,
    /// Gold on hand, in milligold; never negative.
    pub gold: u64,
    /// Gold donated since the last round reset, in milligold.
    pub donated_gold: u64,
    /// Pickaxe upgrade level, 0 (base) to 4 (max); governs how often
    /// gold is mined.
    pub pickaxe_level: usize,
    /// Mine upgrade level, 0 (base) to 4 (max); governs how much gold
    /// each mining tick yields.
    pub mine_level: usize,
    /// Timestamp of the last passive-income tick, in milliseconds.
    pub last_mine_time: u64,
    /// Health counter; starts at 10 and is floored at 0.
    pub health: i32,
    /// False exactly when health has reached 0.
    pub alive: bool,
}

/// Milliseconds between two mining ticks at the given pickaxe level.
pub open spec fn spec_mine_interval_ms(level: usize) -> u64 {
    if level == 0 {
        1000
    } else if level == 1 {
        750
    } else if level == 2 {
        500
    } else if level == 3 {
        250
    } else if level == 4 {
        100
    } else {
        1000
    }
}

/// Milligold yielded by one mining tick at the given mine level.
pub open spec fn spec_gold_per_mine(level: usize) -> u64 {
    if level == 0 {
        2000
    } else if level == 1 {
        3000
    } else if level == 2 {
        5000
    } else if level == 3 {
        8000
    } else if level == 4 {
        15000
    } else {
        2000
    }
}

/// Milligold it costs to raise the pickaxe from the given level to
/// the next one; `u64::MAX` marks a level that cannot be raised.
pub open spec fn spec_pickaxe_upgrade_cost(level: usize) -> u64 {
    if level == 0 {
        200_000
    } else if level == 1 {
        400_000
    } else if level == 2 {
        800_000
    } else if level == 3 {
        1_600_000
    } else {
        u64::MAX
    }
}

/// Milligold it costs to raise the mine from the given level to the
/// next one; `u64::MAX` marks a level that cannot be raised.
pub open spec fn spec_mine_upgrade_cost(level: usize) -> u64 {
    if level == 0 {
        100_000
    } else if level == 1 {
        300_000
    } else if level == 2 {
        600_000
    } else if level == 3 {
        1_000_000
    } else {
        u64::MAX
    }
}

/// Addition on gold amounts that stays at `u64::MAX` instead of
/// wrapping; every amount the game can reach is far below it.
pub open spec fn spec_gold_add(a: u64, b: u64) -> u64 {
    if a + b <= u64::MAX {
        (a + b) as u64
    } else {
        u64::MAX
    }
}

impl Miner {
    /// Well-formedness: the levels stay on the table, and `alive`
    /// mirrors a health counter that is floored at 0.
    pub open spec fn inv(self) -> bool {
        &&& self.pickaxe_level <= MAX_UPGRADE_LEVEL
        &&& self.mine_level <= MAX_UPGRADE_LEVEL
        &&& 0 <= self.health
        &&& self.alive == (self.health > 0)
    }

    /// A fresh miner: no gold, base levels, full health, with its
    /// passive-income clock starting at `now`.
    pub fn new(miner_type: MinerType, now: u64) -> (m: Miner)
        ensures
            m == (Miner {
                miner_type,
                gold: 0,
                donated_gold: 0,
                pickaxe_level: 0,
                mine_level: 0,
                last_mine_time: now,
                health: STARTING_HEALTH,
                alive: true,
            }),
            m.inv(),
    {
        Miner {
            miner_type,
            gold: 0,
            donated_gold: 0,
            pickaxe_level: 0,
            mine_level: 0,
            last_mine_time: now,
            health: STARTING_HEALTH,
            alive: true,
        }
    }

    /// Milliseconds between two mining ticks of this miner.
    pub fn mine_rate(&self) -> (r: u64)
        ensures
            r == spec_mine_interval_ms(self.pickaxe_level),
    {
        if self.pickaxe_level == 0 {
            1000
        } else if self.pickaxe_level == 1 {
            750
        } else if self.pickaxe_level == 2 {
            500
        } else if self.pickaxe_level == 3 {
            250
        } else if self.pickaxe_level == 4 {
            100
        } else {
            1000
        }
    }

    /// Milligold one mining tick of this miner yields.
    pub fn gold_per_mine(&self) -> (r: u64)
        ensures
            r == spec_gold_per_mine(self.mine_level),
    {
        if self.mine_level == 0 {
            2000
        } else if self.mine_level == 1 {
            3000
        } else if self.mine_level == 2 {
            5000
        } else if self.mine_level == 3 {
            8000
        } else if self.mine_level == 4 {
            15000
        } else {
            2000
        }
    }

    /// Milligold the next pickaxe upgrade costs; `u64::MAX` when the
    /// pickaxe is already at the top level.
    pub fn pickaxe_upgrade_cost(&self) -> (r: u64)
        ensures
            r == spec_pickaxe_upgrade_cost(self.pickaxe_level),
    {
        if self.pickaxe_level == 0 {
            200_000
        } else if self.pickaxe_level == 1 {
            400_000
        } else if self.pickaxe_level == 2 {
            800_000
        } else if self.pickaxe_level == 3 {
            1_600_000
        } else {
            u64::MAX
        }
    }

    /// Milligold the next mine upgrade costs; `u64::MAX` when the
    /// mine is already at the top level.
    pub fn mine_upgrade_cost(&self) -> (r: u64)
        ensures
            r == spec_mine_upgrade_cost(self.mine_level),
    {
        if self.mine_level == 0 {
            100_000
        } else if self.mine_level == 1 {
            300_000
        } else if self.mine_level == 2 {
            600_000
        } else if self.mine_level == 3 {
            1_000_000
        } else {
            u64::MAX
        }
    }
    /// One passive-income tick, the timer read at `now`: a dead miner
    /// is untouched; a live one whose interval has elapsed earns one
    /// yield (never more, however much time has passed) and restarts
    /// its clock.
    pub fn update(&mut self, now: u64)
        ensures
            *final(self) == spec_update(*old(self), now),
            old(self).inv() ==> final(self).inv(),
    {
        if !self.alive {
            return;
        }
        if now >= self.last_mine_time && now - self.last_mine_time >= self.mine_rate() {
            let earned = self.gold_per_mine();
            self.gold = if self.gold <= u64::MAX - earned {
                self.gold + earned
            } else {
                u64::MAX
            };
            self.last_mine_time = now;
        }
    }

    /// Buy the next pickaxe level: a no-op returning `false` when the
    /// pickaxe is at the top level or the gold does not cover the
    /// cost; otherwise the cost is deducted, the level raised, and
    /// `true` returned.
    pub fn upgrade_pickaxe(&mut self) -> (ok: bool)
        ensures
            *final(self) == spec_upgrade_pickaxe(*old(self)),
            ok == (old(self).pickaxe_level < MAX_UPGRADE_LEVEL
                && old(self).gold >= spec_pickaxe_upgrade_cost(old(self).pickaxe_level)),
            !ok ==> *final(self) == *old(self),
            old(self).inv() ==> final(self).inv(),
    {
        if self.pickaxe_level >= MAX_UPGRADE_LEVEL || self.gold < self.pickaxe_upgrade_cost() {
            return false;
        }
        self.gold = self.gold - self.pickaxe_upgrade_cost();
        self.pickaxe_level = self.pickaxe_level + 1;
        true
    }

    /// Buy the next mine level: the same guard and effect as the
    /// pickaxe track, against the mine cost table.
    pub fn upgrade_mine(&mut self) -> (ok: bool)
        ensures
            *final(self) == spec_upgrade_mine(*old(self)),
            ok == (old(self).mine_level < MAX_UPGRADE_LEVEL
                && old(self).gold >= spec_mine_upgrade_cost(old(self).mine_level)),
            !ok ==> *final(self) == *old(self),
            old(self).inv() ==> final(self).inv(),
    {
        if self.mine_level >= MAX_UPGRADE_LEVEL || self.gold < self.mine_upgrade_cost() {
            return false;
        }
        self.gold = self.gold - self.mine_upgrade_cost();
        self.mine_level = self.mine_level + 1;
        true
    }

    /// Donate `amount` milligold towards this round: a no-op when the
    /// miner holds less than `amount`; otherwise the amount moves
    /// from the gold balance to the round's donation tally.
    pub fn contribute_gold(&mut self, amount: u64)
        ensures
            *final(self) == spec_contribute(*old(self), amount),
            amount > old(self).gold ==> *final(self) == *old(self),
            amount <= old(self).gold ==> {
                &&& final(self).gold == old(self).gold - amount
                &&& final(self).donated_gold == spec_gold_add(old(self).donated_gold, amount)
            },
            old(self).inv() ==> final(self).inv(),
    {
        if amount <= self.gold {
            self.gold = self.gold - amount;
            self.donated_gold = if self.donated_gold <= u64::MAX - amount {
                self.donated_gold + amount
            } else {
                u64::MAX
            };
        }
    }

    /// Take `damage` health: health is floored at 0, and the miner
    /// dies exactly when it reaches 0.
    pub fn take_damage(&mut self, damage: i32)
        requires
            damage >= 0,
        ensures
            *final(self) == spec_take_damage(*old(self), damage as int),
            old(self).inv() ==> final(self).inv(),
    {
        if self.health <= damage {
            self.health = 0;
            self.alive = false;
        } else {
            self.health = self.health - damage;
        }
    }
}

/// What `update` leaves behind: one yield earned and the clock reset
/// when the miner is alive and its interval has elapsed by `now`,
/// nothing otherwise.
pub open spec fn spec_update(m: Miner, now: u64) -> Miner {
    if m.alive && now >= m.last_mine_time + spec_mine_interval_ms(m.pickaxe_level) {
        Miner {
            gold: spec_gold_add(m.gold, spec_gold_per_mine(m.mine_level)),
            last_mine_time: now,
            ..m
        }
    } else {
        m
    }
}

/// What `upgrade_pickaxe` leaves behind.
pub open spec fn spec_upgrade_pickaxe(m: Miner) -> Miner {
    if m.pickaxe_level < MAX_UPGRADE_LEVEL && m.gold >= spec_pickaxe_upgrade_cost(m.pickaxe_level) {
        Miner {
            gold: (m.gold - spec_pickaxe_upgrade_cost(m.pickaxe_level)) as u64,
            pickaxe_level: (m.pickaxe_level + 1) as usize,
            ..m
        }
    } else {
        m
    }
}

/// What `upgrade_mine` leaves behind.
pub open spec fn spec_upgrade_mine(m: Miner) -> Miner {
    if m.mine_level < MAX_UPGRADE_LEVEL && m.gold >= spec_mine_upgrade_cost(m.mine_level) {
        Miner {
            gold: (m.gold - spec_mine_upgrade_cost(m.mine_level)) as u64,
            mine_level: (m.mine_level + 1) as usize,
            ..m
        }
    } else {
        m
    }
}

/// What `contribute_gold` leaves behind.
pub open spec fn spec_contribute(m: Miner, amount: u64) -> Miner {
    if amount <= m.gold {
        Miner {
            gold: (m.gold - amount) as u64,
            donated_gold: spec_gold_add(m.donated_gold, amount),
            ..m
        }
    } else {
        m
    }
}

/// What `take_damage` leaves behind.
pub open spec fn spec_take_damage(m: Miner, damage: int) -> Miner {
    if m.health <= damage {
        Miner { health: 0, alive: false, ..m }
    } else {
        Miner { health: (m.health - damage) as i32, ..m }
    }
}

/// Exactly one accrual per call: a live miner whose interval has
/// elapsed by `now` — by however much — earns one yield of its mine
/// level, never two, and its clock restarts at `now`.
pub proof fn lemma_update_single_accrual(m: Miner, now: u64)
    requires
        m.alive,
        now >= m.last_mine_time + spec_mine_interval_ms(m.pickaxe_level),
        m.gold + spec_gold_per_mine(m.mine_level) <= u64::MAX,
    ensures
        spec_update(m, now).gold == m.gold + spec_gold_per_mine(m.mine_level),
        spec_update(m, now).last_mine_time == now,
        spec_update(m, now) == (Miner {
            gold: (m.gold + spec_gold_per_mine(m.mine_level)) as u64,
            last_mine_time: now,
            ..m
        }),
{
}

} // verus!
