//! On-hit abilities and auras of gem towers.
//!
//! Emeralds poison, sapphires chill, diamonds crit, rubies splash, topazes
//! track several targets at once, and opals speed up towers around them.

use vstd::prelude::*;

verus! {

use crate::creeps::{sat_sub, Creep, HitPoints};
use crate::targeting::{
    creep_with_id,
    creeps_wf,
    dist_sq,
    find_creep,
    has_creep,
    range_sq,
    spec_dist_sq,
    Pos,
};
use crate::towers::{Cooldown, Tower};

/// How long a sapphire's chill stays on a creep, in milliseconds.
pub const SAPPHIRE_SLOW_DURATION_MS: u32 = 4000;

/// The share of hits a diamond turns into extra damage, in percent.
pub const CRIT_CHANCE_PERCENT: u32 = 25;

/// The poison an emerald tower puts on every creep it hits: damage per
/// second, a slow in percent, and how long both last.
#[derive(Clone, Copy, Debug, PartialEq, Eq, Structural)]
pub struct SlowPoisonOnHit {
    pub dps: u32,
    pub slow: u32,
    pub duration_ms: u32,
}

/// The chill a sapphire tower puts on every creep it hits, in percent.
#[derive(Clone, Copy, Debug, PartialEq, Eq, Structural)]
pub struct SapphireSlowOnHit {
    pub slow: u32,
}

/// The splash of a ruby tower: nearby creeps take a share of each hit.
#[derive(Clone, Copy, Debug, PartialEq, Eq, Structural)]
pub struct SplashOnHit {
    pub multiplier_percent: u32,
    pub range: u32,
}

/// What an aura grants: an opal's attack-speed bonus, in percent.
#[derive(Clone, Copy, Debug, PartialEq, Eq, Structural)]
pub enum AuraType {
    Opal(u32),
}

/// An aura a tower radiates over every tower within `range` hundredths.
#[derive(Clone, Copy, Debug, PartialEq, Eq, Structural)]
pub struct Aura {
    pub typ: AuraType,
    pub range: u32,
}

/// The ability a gem tower carries, if any.
#[derive(Clone, Copy, Debug, PartialEq, Eq, Structural)]
pub enum Ability {
    SlowPoison(SlowPoisonOnHit),
    SapphireSlow(SapphireSlowOnHit),
    Crit,
    MultiTarget,
    Splash(SplashOnHit),
    OpalAura(Aura),
}

/// What put a slow on a creep; each source slows at most once.
#[derive(Clone, Copy, Debug, PartialEq, Eq, Structural)]
pub enum SlowSource {
    Poison,
    Sapphire,
}

/// The slows a creep is under, one slot per source, each a percent value.
#[derive(Clone, Copy, Debug, PartialEq, Eq, Structural)]
pub struct Slow {
    pub poison: Option<u32>,
    pub sapphire: Option<u32>,
}

impl Slow {
    /// A creep starts under no slow.
    pub fn new() -> (s: Slow)
        ensures
            s.poison is None,
            s.sapphire is None,
    {
        Slow { poison: None, sapphire: None }
    }

    /// Put a slow of `value` percent from `source` on the creep, replacing
    /// the old one from that source.
    pub fn insert(&mut self, source: SlowSource, value: u32)
        ensures
            source is Poison ==> final(self).poison == Some(value) && final(self).sapphire == old(
                self,
            ).sapphire,
            source is Sapphire ==> final(self).sapphire == Some(value) && final(self).poison == old(
                self,
            ).poison,
    {
        match source {
            SlowSource::Poison => self.poison = Some(value),
            SlowSource::Sapphire => self.sapphire = Some(value),
        }
    }

    /// Take the slow from `source` off the creep.
    pub fn remove(&mut self, source: SlowSource)
        ensures
            source is Poison ==> final(self).poison is None && final(self).sapphire == old(
                self,
            ).sapphire,
            source is Sapphire ==> final(self).sapphire is None && final(self).poison == old(
                self,
            ).poison,
    {
        match source {
            SlowSource::Poison => self.poison = None,
            SlowSource::Sapphire => self.sapphire = None,
        }
    }
}

/// A poison running on a creep: damage per second, its slow, and the time it
/// has left.
#[derive(Clone, Copy, Debug, PartialEq, Eq, Structural)]
pub struct SlowPoison {
    pub dps: u32,
    pub slow: u32,
    pub duration_ms: u32,
}

impl SlowPoisonOnHit {
    /// The poison this hit leaves on the creep it struck.
    pub fn on_hit(&self) -> (p: SlowPoison)
        ensures
            p.dps == self.dps,
            p.slow == self.slow,
            p.duration_ms == self.duration_ms,
    {
        SlowPoison { dps: self.dps, slow: self.slow, duration_ms: self.duration_ms }
    }
}

impl SlowPoison {
    /// Register this poison's slow on the creep's slow slots.
    pub fn add(&self, slow: &mut Slow)
        ensures
            final(slow).poison == Some(self.slow),
            final(slow).sapphire == old(slow).sapphire,
    {
        slow.insert(SlowSource::Poison, self.slow);
    }

    /// One frame of the poison. On a full poison tick the creep takes the
    /// poison's damage; when the remaining duration runs out the poison and
    /// its slow wear off. Returns whether the creep died of the tick and
    /// whether the poison expired.
    pub fn update(&mut self, hp: &mut HitPoints, slow: &mut Slow, poison_tick: bool, delta_ms: u32)
        -> (r: (bool, bool))
        ensures
            final(hp).total() == old(hp).total(),
            poison_tick ==> final(hp).current() == sat_sub(old(hp).current(), old(self).dps),
            !poison_tick ==> final(hp).current() == old(hp).current(),
            r.0 == (poison_tick && final(hp).current() == 0),
            final(self).dps == old(self).dps && final(self).slow == old(self).slow,
            final(self).duration_ms == sat_sub(old(self).duration_ms, delta_ms),
            r.1 == (final(self).duration_ms == 0),
            r.1 ==> final(slow).poison is None && final(slow).sapphire == old(slow).sapphire,
            !r.1 ==> *final(slow) == *old(slow),
    {
        let mut died = false;
        if poison_tick {
            hp.sub(self.dps);
            died = hp.dead();
        }
        self.duration_ms = if self.duration_ms >= delta_ms {
            self.duration_ms - delta_ms
        } else {
            0
        };
        let expired = self.duration_ms == 0;
        if expired {
            slow.remove(SlowSource::Poison);
        }
        (died, expired)
    }
}

/// A sapphire's chill running on a creep: its slow and the time it has left.
#[derive(Clone, Copy, Debug, PartialEq, Eq, Structural)]
pub struct SapphireSlow {
    pub slow: u32,
    pub duration_ms: u32,
}

impl SapphireSlowOnHit {
    /// The chill this hit leaves on the creep it struck.
    pub fn on_hit(&self) -> (s: SapphireSlow)
        ensures
            s.slow == self.slow,
            s.duration_ms == SAPPHIRE_SLOW_DURATION_MS,
    {
        SapphireSlow { slow: self.slow, duration_ms: SAPPHIRE_SLOW_DURATION_MS }
    }
}

impl SapphireSlow {
    /// Register this chill on the creep's slow slots.
    pub fn changed(&self, slow: &mut Slow)
        ensures
            final(slow).sapphire == Some(self.slow),
            final(slow).poison == old(slow).poison,
    {
        slow.insert(SlowSource::Sapphire, self.slow);
    }

    /// One frame of the chill: when its duration runs out it wears off.
    /// Returns whether it expired.
    pub fn update(&mut self, slow: &mut Slow, delta_ms: u32) -> (expired: bool)
        ensures
            final(self).slow == old(self).slow,
            final(self).duration_ms == sat_sub(old(self).duration_ms, delta_ms),
            expired == (final(self).duration_ms == 0),
            expired ==> final(slow).sapphire is None && final(slow).poison == old(slow).poison,
            !expired ==> *final(slow) == *old(slow),
    {
        self.duration_ms = if self.duration_ms >= delta_ms {
            self.duration_ms - delta_ms
        } else {
            0
        };
        let expired = self.duration_ms == 0;
        if expired {
            slow.remove(SlowSource::Sapphire);
        }
        expired
    }
}

/// A diamond's critical strike: a quarter of its hits strike a second time.
pub struct CritOnHit;

impl CritOnHit {
    /// Apply a crit decided by a percent roll: a roll under the crit chance
    /// deals the hit's damage once more. Returns whether the creep died of
    /// it.
    pub fn crit(hp: &mut HitPoints, value: u32, roll: u32) -> (died: bool)
        requires
            roll < 100,
        ensures
            final(hp).total() == old(hp).total(),
            roll < CRIT_CHANCE_PERCENT ==> final(hp).current() == sat_sub(
                old(hp).current(),
                value,
            ),
            roll >= CRIT_CHANCE_PERCENT ==> final(hp).current() == old(hp).current(),
            died == (roll < CRIT_CHANCE_PERCENT && final(hp).current() == 0),
    {
        if roll < CRIT_CHANCE_PERCENT {
            hp.sub(value);
            hp.dead()
        } else {
            false
        }
    }

    /// The health and death report a crit decided by `roll` leaves behind.
    pub open spec fn spec_outcome(
        before: u32,
        after: u32,
        value: u32,
        died: bool,
        roll: u32,
    ) -> bool {
        &&& after == (if roll < CRIT_CHANCE_PERCENT {
            sat_sub(before, value)
        } else {
            before
        })
        &&& died == (roll < CRIT_CHANCE_PERCENT && after == 0)
    }

    /// Roll for a crit and apply it: with the crit chance the hit's damage
    /// is dealt once more.
    pub fn crit_random(hp: &mut HitPoints, value: u32) -> (died: bool)
        ensures
            final(hp).total() == old(hp).total(),
            exists|roll: u32|
                roll < 100 && #[trigger] Self::spec_outcome(
                    old(hp).current(),
                    final(hp).current(),
                    value,
                    died,
                    roll,
                ),
    {
        let roll = crate::rng::random_in_range(0, 99);
        let died = Self::crit(hp, value, roll);
        proof {
            assert(Self::spec_outcome(
                old(hp).current(),
                hp.current(),
                value,
                died,
                roll,
            ));
        }
        died
    }
}

/// Whether a creep is caught by a splash on the creep `target_id` standing
/// at `tpos`: any other creep within `range` hundredths of it.
pub open spec fn spec_splashed(c: Creep, target_id: u64, tpos: Pos, range: u32) -> bool {
    c.id != target_id && spec_dist_sq(c.pos, tpos) <= range * range
}

/// The ids of the splashed creeps that a splash of `dmg` leaves at zero
/// health, in list order.
pub open spec fn spec_splash_deaths(
    creeps: Seq<Creep>,
    target_id: u64,
    tpos: Pos,
    range: u32,
    dmg: u32,
) -> Seq<u64>
    decreases creeps.len(),
{
    if creeps.len() == 0 {
        Seq::empty()
    } else {
        let prefix = spec_splash_deaths(creeps.drop_last(), target_id, tpos, range, dmg);
        let c = creeps.last();
        if spec_splashed(c, target_id, tpos, range) && sat_sub(c.hp.current(), dmg) == 0 {
            prefix.push(c.id)
        } else {
            prefix
        }
    }
}

impl SplashOnHit {
    /// The share of a hit of `value` that the splash passes on.
    pub fn splash_damage(&self, value: u32) -> (d: u32)
        requires
            self.multiplier_percent <= 100,
        ensures
            d == value * self.multiplier_percent / 100,
            d <= value,
    {
        proof {
            assert((value as int) * (self.multiplier_percent as int) / 100 <= value)
                by (nonlinear_arith)
                requires
                    self.multiplier_percent <= 100,
            ;
            assert((value as int) * (self.multiplier_percent as int) <= 0xffffffff * 100)
                by (nonlinear_arith)
                requires
                    value <= 0xffffffffu32,
                    self.multiplier_percent <= 100,
            ;
        }
        (((value as u64) * (self.multiplier_percent as u64)) / 100) as u32
    }

    /// Splash a hit of `value` dealt to the creep `target_id` over the
    /// creeps around it: every other creep within the splash range takes the
    /// splash share of the hit. Returns the ids of the creeps that died of
    /// it, in list order. A splash on a creep that is already gone does
    /// nothing.
    pub fn splash(&self, creeps: &mut Vec<Creep>, target_id: u64, value: u32) -> (deaths: Vec<u64>)
        requires
            creeps_wf(old(creeps)@),
            self.multiplier_percent <= 100,
        ensures
            final(creeps)@.len() == old(creeps)@.len(),
            forall|i: int|
                0 <= i < old(creeps)@.len() ==> {
                    let oc = #[trigger] old(creeps)@[i];
                    let nc = final(creeps)@[i];
                    &&& nc.id == oc.id
                    &&& nc.pos == oc.pos
                    &&& nc.typ == oc.typ
                    &&& nc.hp.total() == oc.hp.total()
                },
            !has_creep(old(creeps)@, target_id) ==> *final(creeps) == *old(creeps) && deaths@.len()
                == 0,
            has_creep(old(creeps)@, target_id) ==> {
                let tpos = creep_with_id(old(creeps)@, target_id).pos;
                let dmg = (value * self.multiplier_percent / 100) as u32;
                &&& forall|i: int|
                    0 <= i < old(creeps)@.len() ==> {
                        let oc = #[trigger] old(creeps)@[i];
                        let nc = final(creeps)@[i];
                        &&& (spec_splashed(oc, target_id, tpos, self.range) ==> nc.hp.current()
                            == sat_sub(oc.hp.current(), dmg))
                        &&& (!spec_splashed(oc, target_id, tpos, self.range) ==> nc.hp.current()
                            == oc.hp.current())
                    }
                &&& deaths@ == spec_splash_deaths(old(creeps)@, target_id, tpos, self.range, dmg)
            },
    {
        let mut deaths: Vec<u64> = Vec::new();
        let ti = match find_creep(creeps, target_id) {
            Some(ti) => ti,
            None => {
                return deaths;
            },
        };
        proof {
            let j = choose|j: int|
                0 <= j < creeps@.len() && (#[trigger] creeps@[j]).id == target_id;
            assert(creeps@[ti as int].id == target_id);
            assert(j == ti as int);
            assert(creep_with_id(creeps@, target_id) == creeps@[ti as int]);
        }
        let tpos = creeps[ti].pos;
        let dmg = self.splash_damage(value);
        let n = creeps.len();
        let mut i: usize = 0;
        while i < n
            invariant
                creeps_wf(old(creeps)@),
                n == creeps@.len() == old(creeps)@.len(),
                i <= n,
                tpos == creep_with_id(old(creeps)@, target_id).pos,
                tpos.wf(),
                dmg == (value * self.multiplier_percent / 100) as u32,
                forall|j: int| i <= j < n ==> creeps@[j] == old(creeps)@[j],
                forall|j: int|
                    0 <= j < i ==> {
                        let oc = #[trigger] old(creeps)@[j];
                        let nc = creeps@[j];
                        &&& nc.id == oc.id
                        &&& nc.pos == oc.pos
                        &&& nc.typ == oc.typ
                        &&& nc.hp.total() == oc.hp.total()
                        &&& (spec_splashed(oc, target_id, tpos, self.range) ==> nc.hp.current()
                            == sat_sub(oc.hp.current(), dmg))
                        &&& (!spec_splashed(oc, target_id, tpos, self.range) ==> nc.hp.current()
                            == oc.hp.current())
                    },
                deaths@ == spec_splash_deaths(
                    old(creeps)@.take(i as int),
                    target_id,
                    tpos,
                    self.range,
                    dmg,
                ),
            decreases n - i,
        {
            proof {
                assert(old(creeps)@.take(i + 1).drop_last() =~= old(creeps)@.take(i as int));
                assert(old(creeps)@.take(i + 1).last() == old(creeps)@[i as int]);
                assert(creeps@[i as int] == old(creeps)@[i as int]);
            }
            let mut c = creeps[i];
            let d = dist_sq(c.pos, tpos);
            if c.id != target_id && d <= range_sq(self.range) {
                c.hp.sub(dmg);
                if c.hp.dead() {
                    deaths.push(c.id);
                }
                creeps.set(i, c);
            }
            i += 1;
        }
        proof {
            assert(old(creeps)@.take(n as int) =~= old(creeps)@);
        }
        deaths
    }
}

/// The kinds of speed bonus a tower can be under.
#[derive(Clone, Copy, Debug, PartialEq, Eq, Structural)]
pub enum SpeedModifierType {
    OpalAura,
}

/// The speed bonuses on a tower, one slot per kind, each a percent cut off
/// the firing period.
#[derive(Clone, Copy, Debug, PartialEq, Eq, Structural)]
pub struct SpeedModifiers {
    pub opal_aura: Option<u32>,
}

impl Default for SpeedModifiers {
    /// A tower starts under no bonus.
    fn default() -> (m: Self)
        ensures
            m.opal_aura is None,
    {
        SpeedModifiers { opal_aura: None }
    }
}

impl SpeedModifiers {
    /// Put a bonus of `value` percent of kind `typ` on the tower, replacing
    /// the old one of that kind.
    pub fn insert(&mut self, typ: SpeedModifierType, value: u32)
        ensures
            typ is OpalAura ==> final(self).opal_aura == Some(value),
    {
        match typ {
            SpeedModifierType::OpalAura => self.opal_aura = Some(value),
        }
    }

    /// The firing period that `base` milliseconds shrink to under these
    /// bonuses, never below zero.
    pub open spec fn spec_cooldown_ms(base: u32, modifiers: SpeedModifiers) -> int {
        match modifiers.opal_aura {
            None => base as int,
            Some(m) => {
                let cut = base * m / 100;
                if cut >= base {
                    0
                } else {
                    base - cut
                }
            },
        }
    }

    /// The tower's cooldown under these bonuses: each bonus cuts its percent
    /// off the base period. The new timer starts ready to fire.
    pub fn update(&self, tower: Tower) -> (cd: Cooldown)
        ensures
            cd.duration_ms == Self::spec_cooldown_ms(tower.spec_base_cooldown_ms(), *self),
            cd.remaining_ms == 0,
            cd.wf(),
    {
        let base = tower.get_base_cooldown_time();
        let duration = match self.opal_aura {
            None => base,
            Some(m) => {
                proof {
                    assert((base as int) * (m as int) <= 0xffffffff * 0xffffffff)
                        by (nonlinear_arith)
                        requires
                            base <= 0xffffffffu32,
                            m <= 0xffffffffu32,
                    ;
                }
                let cut = ((base as u64) * (m as u64)) / 100;
                if cut >= base as u64 {
                    0
                } else {
                    (base as u64 - cut) as u32
                }
            },
        };
        Cooldown { remaining_ms: 0, duration_ms: duration }
    }
}

/// A tower standing on the map, with the speed bonuses auras grant it.
#[derive(Clone, Copy, Debug)]
pub struct TowerUnit {
    pub id: u64,
    pub pos: Pos,
    pub modifiers: SpeedModifiers,
}

/// Every listed tower and aura stands at a well-formed position.
pub open spec fn towers_wf(towers: Seq<TowerUnit>) -> bool {
    forall|i: int| 0 <= i < towers.len() ==> (#[trigger] towers[i]).pos.wf()
}

/// Every listed aura radiates from a well-formed position.
pub open spec fn auras_wf(auras: Seq<(Pos, Aura)>) -> bool {
    forall|i: int| 0 <= i < auras.len() ==> (#[trigger] auras[i]).0.wf()
}

/// The strongest opal bonus among the auras that cover a tower at `tpos`,
/// if any covers it.
pub open spec fn spec_strongest_opal(auras: Seq<(Pos, Aura)>, tpos: Pos) -> Option<u32>
    decreases auras.len(),
{
    if auras.len() == 0 {
        None
    } else {
        let prev = spec_strongest_opal(auras.drop_last(), tpos);
        let apos = auras.last().0;
        let aura = auras.last().1;
        let v = match aura.typ {
            AuraType::Opal(v) => v,
        };
        if spec_dist_sq(apos, tpos) <= aura.range * aura.range {
            match prev {
                None => Some(v),
                Some(p) => Some(
                    if v > p {
                        v
                    } else {
                        p
                    },
                ),
            }
        } else {
            prev
        }
    }
}

impl Aura {
    /// Grant every tower the strongest opal bonus among the auras covering
    /// it; a tower covered by no aura keeps the bonuses it had.
    pub fn reapply_auras(towers: &mut Vec<TowerUnit>, auras: &Vec<(Pos, Aura)>)
        requires
            towers_wf(old(towers)@),
            auras_wf(auras@),
        ensures
            final(towers)@.len() == old(towers)@.len(),
            forall|i: int|
                0 <= i < old(towers)@.len() ==> {
                    let ot = #[trigger] old(towers)@[i];
                    let nt = final(towers)@[i];
                    &&& nt.id == ot.id
                    &&& nt.pos == ot.pos
                    &&& match spec_strongest_opal(auras@, ot.pos) {
                        None => nt.modifiers == ot.modifiers,
                        Some(m) => nt.modifiers.opal_aura == Some(m),
                    }
                },
    {
        let n = towers.len();
        let mut i: usize = 0;
        while i < n
            invariant
                towers_wf(old(towers)@),
                auras_wf(auras@),
                n == towers@.len() == old(towers)@.len(),
                i <= n,
                forall|j: int| i <= j < n ==> towers@[j] == old(towers)@[j],
                forall|j: int|
                    0 <= j < i ==> {
                        let ot = #[trigger] old(towers)@[j];
                        let nt = towers@[j];
                        &&& nt.id == ot.id
                        &&& nt.pos == ot.pos
                        &&& match spec_strongest_opal(auras@, ot.pos) {
                            None => nt.modifiers == ot.modifiers,
                            Some(m) => nt.modifiers.opal_aura == Some(m),
                        }
                    },
            decreases n - i,
        {
            proof {
                assert(towers@[i as int] == old(towers)@[i as int]);
            }
            let tpos = towers[i].pos;
            let mut strongest: Option<u32> = None;
            let m = auras.len();
            let mut k: usize = 0;
            while k < m
                invariant
                    auras_wf(auras@),
                    tpos.wf(),
                    m == auras@.len(),
                    k <= m,
                    strongest == spec_strongest_opal(auras@.take(k as int), tpos),
                decreases m - k,
            {
                proof {
                    assert(auras@.take(k + 1).drop_last() =~= auras@.take(k as int));
                    assert(auras@.take(k + 1).last() == auras@[k as int]);
                }
                let (apos, aura) = auras[k];
                let v = match aura.typ {
                    AuraType::Opal(v) => v,
                };
                let d = dist_sq(apos, tpos);
                if d <= range_sq(aura.range) {
                    strongest = Some(
                        match strongest {
                            None => v,
                            Some(p) => if v > p {
                                v
                            } else {
                                p
                            },
                        },
                    );
                }
                k += 1;
            }
            proof {
                assert(auras@.take(m as int) =~= auras@);
            }
            if let Some(value) = strongest {
                let mut t = towers[i];
                t.modifiers.insert(SpeedModifierType::OpalAura, value);
                towers.set(i, t);
            }
            i += 1;
        }
    }
}

} // verus!
