//! Creeps: the enemy units that walk (or fly) across the map.
//!
//! A creep carries hit points that saturate at zero under damage; the wave
//! level decides its kind and its starting hit points. A spawner releases a
//! fixed budget of creeps, one per timer tick.

use vstd::prelude::*;

verus! {

use crate::targeting::Pos;
use crate::towers::Hits;

/// How many creeps a spawner releases per wave.
pub const DEFAULT_SPAWN_AMOUNT: u32 = 20;

/// Kind of a creep: walking on the ground or flying above it.
#[derive(Clone, Copy, Debug, PartialEq, Eq, Structural)]
pub enum CreepType {
    Ground,
    Flying,
}

impl CreepType {
    /// The kind of creep a wave level sends: every fourth wave flies.
    pub open spec fn spec_from_level(level: u32) -> CreepType {
        if level % 4 == 0 {
            CreepType::Flying
        } else {
            CreepType::Ground
        }
    }

    /// The kind of creep that wave `level` sends.
    pub fn from_level(level: u32) -> (t: CreepType)
        ensures
            t == Self::spec_from_level(level),
    {
        if level % 4 == 0 {
            CreepType::Flying
        } else {
            CreepType::Ground
        }
    }

    /// Whether a tower reaching targets of class `hits` can hit this creep.
    pub open spec fn spec_hits(self, hits: Hits) -> bool {
        match hits {
            Hits::Ground => self is Ground,
            Hits::Flying => self is Flying,
            Hits::All => true,
        }
    }

    /// Whether a tower reaching targets of class `hits` can hit this creep.
    pub fn hits(self, hits: Hits) -> (r: bool)
        ensures
            r == self.spec_hits(hits),
    {
        match hits {
            Hits::Ground => matches!(self, CreepType::Ground),
            Hits::Flying => matches!(self, CreepType::Flying),
            Hits::All => true,
        }
    }
}

/// `a - b`, stopping at zero.
pub open spec fn sat_sub(a: u32, b: u32) -> u32 {
    if a >= b {
        (a - b) as u32
    } else {
        0
    }
}

/// A unit's health: a maximum fixed at creation and a current value that
/// damage lowers, never below zero and never above the maximum.
#[derive(Clone, Copy, Debug)]
pub struct HitPoints {
    max: u32,
    current: u32,
}

impl HitPoints {
    /// The fixed maximum.
    pub closed spec fn total(&self) -> u32 {
        self.max
    }

    /// The health left.
    pub closed spec fn current(&self) -> u32 {
        self.current
    }

    /// Health never exceeds the maximum.
    pub open spec fn wf(&self) -> bool {
        self.current() <= self.total()
    }

    /// Full health at the given maximum.
    pub fn new(value: u32) -> (hp: HitPoints)
        ensures
            hp.wf(),
            hp.total() == value,
            hp.current() == value,
    {
        HitPoints { max: value, current: value }
    }

    /// Take `value` points of damage, saturating at zero health.
    pub fn sub(&mut self, value: u32)
        ensures
            final(self).total() == old(self).total(),
            final(self).current() == sat_sub(old(self).current(), value),
            old(self).wf() ==> final(self).wf(),
    {
        self.current = if self.current >= value {
            self.current - value
        } else {
            0
        };
    }

    /// Whether the unit is out of health.
    pub fn dead(&self) -> (r: bool)
        ensures
            r == (self.current() == 0),
    {
        self.current == 0
    }

    /// The health left.
    pub fn remaining(&self) -> (r: u32)
        ensures
            r == self.current(),
    {
        self.current
    }

    /// The health left as a share of the maximum, in whole percent, rounded
    /// down.
    pub fn ratio_percent(&self) -> (r: u32)
        requires
            self.wf(),
            self.total() > 0,
        ensures
            r == self.current() * 100 / self.total() as int,
            r <= 100,
    {
        proof {
            assert((self.current as int) * 100 / (self.max as int) <= 100) by (nonlinear_arith)
                requires
                    self.current <= self.max,
                    self.max > 0,
            ;
        }
        (((self.current as u64) * 100) / (self.max as u64)) as u32
    }

    /// The starting hit points of a creep of wave `level`.
    pub open spec fn spec_for_level(level: u32) -> u32 {
        if level == 1 {
            10
        } else if level == 2 {
            30
        } else if level == 3 {
            55
        } else if level == 4 {
            70
        } else if level == 5 {
            90
        } else if level == 6 {
            120
        } else if level == 7 {
            178
        } else if level == 8 {
            240
        } else if level == 9 {
            300
        } else if level == 10 {
            470
        } else if level == 11 {
            490
        } else if level == 12 {
            450
        } else if level == 13 {
            570
        } else if level == 14 {
            650
        } else if level == 15 {
            1000
        } else if level == 16 {
            725
        } else if level == 17 {
            1350
        } else if level == 18 {
            1550
        } else if level == 19 {
            1950
        } else if level == 20 {
            1350
        } else if level == 21 {
            2300
        } else if level == 22 {
            2530
        } else if level == 23 {
            3000
        } else if level == 24 {
            2500
        } else if level == 25 {
            3750
        } else if level == 26 {
            4500
        } else if level == 27 {
            5000
        } else if level == 28 {
            4150
        } else if level == 29 {
            6750
        } else if level == 30 {
            7150
        } else if level == 31 {
            8000
        } else if level == 32 {
            6200
        } else if level == 33 {
            9550
        } else if level == 34 {
            10200
        } else if level == 35 {
            11500
        } else if level == 36 {
            8500
        } else if level == 37 {
            13000
        } else if level == 38 {
            15000
        } else if level == 39 {
            17000
        } else if level == 40 {
            10500
        } else if level == 41 {
            19500
        } else {
            23000
        }
    }

    /// Full health for a creep of wave `level`, following the wave table.
    pub fn from_level(level: u32) -> (hp: HitPoints)
        ensures
            hp.wf(),
            hp.total() == Self::spec_for_level(level),
            hp.current() == Self::spec_for_level(level),
    {
        let value: u32 = if level == 1 {
            10
        } else if level == 2 {
            30
        } else if level == 3 {
            55
        } else if level == 4 {
            70
        } else if level == 5 {
            90
        } else if level == 6 {
            120
        } else if level == 7 {
            178
        } else if level == 8 {
            240
        } else if level == 9 {
            300
        } else if level == 10 {
            470
        } else if level == 11 {
            490
        } else if level == 12 {
            450
        } else if level == 13 {
            570
        } else if level == 14 {
            650
        } else if level == 15 {
            1000
        } else if level == 16 {
            725
        } else if level == 17 {
            1350
        } else if level == 18 {
            1550
        } else if level == 19 {
            1950
        } else if level == 20 {
            1350
        } else if level == 21 {
            2300
        } else if level == 22 {
            2530
        } else if level == 23 {
            3000
        } else if level == 24 {
            2500
        } else if level == 25 {
            3750
        } else if level == 26 {
            4500
        } else if level == 27 {
            5000
        } else if level == 28 {
            4150
        } else if level == 29 {
            6750
        } else if level == 30 {
            7150
        } else if level == 31 {
            8000
        } else if level == 32 {
            6200
        } else if level == 33 {
            9550
        } else if level == 34 {
            10200
        } else if level == 35 {
            11500
        } else if level == 36 {
            8500
        } else if level == 37 {
            13000
        } else if level == 38 {
            15000
        } else if level == 39 {
            17000
        } else if level == 40 {
            10500
        } else if level == 41 {
            19500
        } else {
            23000
        };
        HitPoints::new(value)
    }
}

/// A creep on the map: its id, where it stands, its kind, and its health.
#[derive(Clone, Copy, Debug)]
pub struct Creep {
    pub id: u64,
    pub pos: Pos,
    pub typ: CreepType,
    pub hp: HitPoints,
}

/// An attack event: the tower `source` dealt `value` points to the creep
/// `target`.
#[derive(Clone, Copy, Debug)]
pub struct Hit {
    pub source: u64,
    pub target: u64,
    pub value: u32,
}

/// A damage event: `value` points dealt to the unit `target`.
pub struct Damaged {
    pub target: u64,
    pub value: u32,
}

impl Damaged {
    /// Apply this damage to the target's hit points; reports whether the
    /// target died of it.
    pub fn consume(&self, hp: &mut HitPoints) -> (dead: bool)
        ensures
            final(hp).total() == old(hp).total(),
            final(hp).current() == sat_sub(old(hp).current(), self.value),
            old(hp).wf() ==> final(hp).wf(),
            dead == (final(hp).current() == 0),
    {
        hp.sub(self.value);
        hp.dead()
    }
}

/// Releases the creeps of a wave: one creep per timer tick, until the wave's
/// budget is used up.
pub struct CreepSpawner {
    pub amount: u32,
}

impl Default for CreepSpawner {
    /// A spawner with a full wave budget.
    fn default() -> (s: Self)
        ensures
            s.amount == DEFAULT_SPAWN_AMOUNT,
    {
        CreepSpawner { amount: DEFAULT_SPAWN_AMOUNT }
    }
}

impl CreepSpawner {
    /// One frame of the spawner: when its timer has just finished and budget
    /// is left, one creep of the current wave comes out and the budget drops
    /// by one.
    pub fn spawn(&mut self, timer_just_finished: bool, level: u32) -> (creep: Option<
        (CreepType, HitPoints),
    >)
        ensures
            old(self).amount == 0 ==> creep is None && final(self).amount == 0,
            old(self).amount > 0 && !timer_just_finished ==> creep is None && final(self).amount
                == old(self).amount,
            old(self).amount > 0 && timer_just_finished ==> {
                &&& final(self).amount == old(self).amount - 1
                &&& creep matches Some((typ, hp)) && typ == CreepType::spec_from_level(level)
                    && hp.total() == HitPoints::spec_for_level(level) && hp.current()
                    == HitPoints::spec_for_level(level)
            },
    {
        if self.amount == 0 {
            return None;
        }
        if !timer_just_finished {
            return None;
        }
        self.amount = self.amount - 1;
        Some((CreepType::from_level(level), HitPoints::from_level(level)))
    }

    /// Refill the budget for the next wave.
    pub fn reset_amount_system(&mut self)
        ensures
            final(self).amount == DEFAULT_SPAWN_AMOUNT,
    {
        self.amount = DEFAULT_SPAWN_AMOUNT;
    }

    /// Whether the spawn phase is over: no budget left anywhere and no creep
    /// still alive.
    pub fn wave_complete(spawns_left: u32, live_creeps: usize) -> (r: bool)
        ensures
            r == (spawns_left == 0 && live_creeps == 0),
    {
        spawns_left == 0 && live_creeps == 0
    }
}

} // verus!
