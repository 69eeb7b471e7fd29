//! The round structure of the game and the player's actions on towers.
//!
//! A round cycles through three phases: building dirt piles, picking which
//! freshly grown gem to keep, and the spawn wave. The player may also refine
//! a kept gem one quality tier up, or tear a dirt pile down.

use vstd::prelude::*;

verus! {

use crate::abilities::{Ability, SpeedModifiers};
use crate::grid::{BuildGrid, MAP_HEIGHT, MAP_WIDTH};
use crate::targeting::{spec_dist_sq, dist_sq, Pos, Target};
use crate::towers::{Cooldown, GemQuality, GemType, LaserAttack, Tower};

/// How many dirt piles the player may place per build phase.
pub const BUILDS_PER_ROUND: u32 = 5;

/// How close to a tower a click must land to select it, in hundredths of a
/// map unit.
pub const PICK_DISTANCE: u32 = 100;

/// The phase a round is in.
#[derive(Clone, Copy, Debug, Hash, PartialEq, Eq, Structural)]
pub enum Phase {
    Build,
    Pick,
    Spawn,
}

impl Default for Phase {
    /// A round starts in the build phase.
    fn default() -> (p: Self)
        ensures
            p == Phase::Build,
    {
        Phase::Build
    }
}

/// The wave the game is at.
#[derive(Clone, Copy, Debug, PartialEq, Eq, Structural)]
pub struct CurrentLevel(pub u32);

impl Default for CurrentLevel {
    /// The game starts at wave one.
    fn default() -> (l: Self)
        ensures
            l.0 == 1,
    {
        CurrentLevel(1)
    }
}

/// Step to the next wave.
pub fn next_level(level: &mut CurrentLevel)
    requires
        old(level).0 < u32::MAX,
    ensures
        final(level).0 == old(level).0 + 1,
{
    level.0 = level.0 + 1;
}

/// How many builds the player has left this phase.
#[derive(Clone, Copy, Debug, PartialEq, Eq, Structural)]
pub struct Builds(pub u32);

impl Default for Builds {
    /// A build phase opens with the full allowance.
    fn default() -> (b: Self)
        ensures
            b.0 == BUILDS_PER_ROUND,
    {
        Builds(BUILDS_PER_ROUND)
    }
}

impl Builds {
    /// Refill the allowance for a new build phase.
    pub fn reset_system(&mut self)
        ensures
            final(self).0 == BUILDS_PER_ROUND,
    {
        self.0 = BUILDS_PER_ROUND;
    }
}

/// What a build click came to.
#[derive(Clone, Copy, Debug, PartialEq, Eq, Structural)]
pub enum BuildOutcome {
    /// No builds are left: the build phase is over.
    PhaseOver,
    /// The footprint overlapped an occupied cell; nothing was placed.
    Occupied,
    /// A dirt pile went up and one build was spent.
    Built,
}

/// A click on cell `(x, y)` during the build phase.
///
/// With no builds left the phase ends. Otherwise a 2x2 dirt pile is placed
/// there, unless its footprint overlaps an occupied cell.
pub fn build_on_click(builds: &mut Builds, grid: &mut BuildGrid, x: u32, y: u32) -> (r:
    BuildOutcome)
    requires
        old(grid).wf(),
        x + 1 < MAP_WIDTH,
        y + 1 < MAP_HEIGHT,
    ensures
        final(grid).wf(),
        old(builds).0 == 0 ==> {
            &&& r == BuildOutcome::PhaseOver
            &&& final(grid)@ == old(grid)@
            &&& final(builds).0 == 0
        },
        old(builds).0 > 0 ==> {
            if BuildGrid::footprint_free(old(grid)@, x as int, y as int) {
                &&& r == BuildOutcome::Built
                &&& final(grid)@ == old(grid)@.union(crate::grid::footprint(x as int, y as int))
                &&& final(builds).0 == old(builds).0 - 1
            } else {
                &&& r == BuildOutcome::Occupied
                &&& final(grid)@ == old(grid)@
                &&& final(builds).0 == old(builds).0
            }
        },
{
    if builds.0 == 0 {
        return BuildOutcome::PhaseOver;
    }
    if grid.try_place(x, y) {
        builds.0 = builds.0 - 1;
        BuildOutcome::Built
    } else {
        BuildOutcome::Occupied
    }
}

/// How many upgrade levels the player has bought: better levels shift the
/// odds of a freshly grown gem toward higher qualities.
#[derive(Clone, Copy, Debug, PartialEq, Eq, Structural)]
pub struct RandomLevel(pub u32);

impl Default for RandomLevel {
    /// The game starts with no upgrades bought.
    fn default() -> (l: Self)
        ensures
            l.0 == 0,
    {
        RandomLevel(0)
    }
}

impl RandomLevel {
    /// Buy one upgrade level.
    pub fn increment(&mut self)
        requires
            old(self).0 < u32::MAX,
        ensures
            final(self).0 == old(self).0 + 1,
    {
        self.0 = self.0 + 1;
    }
}

/// A freshly grown gem tower, bundled with everything it fights with.
pub struct PlacedTower {
    pub tower: Tower,
    pub attack: LaserAttack,
    pub cooldown: Cooldown,
    pub ability: Option<Ability>,
    pub modifiers: SpeedModifiers,
    pub target: Target,
}

/// The gem a just-built dirt pile turns out to hold: a random type, a
/// quality drawn with the odds of `random_level`, and the attack, cooldown
/// and ability that gem brings. The new tower starts tracking nothing.
pub fn uncover_dirt(random_level: RandomLevel) -> (t: PlacedTower)
    ensures
        t.tower matches Tower::GemTower { typ, quality } && exists|index: u8|
            index < 8 && typ == GemType::spec_from_index(index) && exists|roll: u32|
                roll < 100 && quality == GemQuality::spec_for_roll(random_level.0, roll),
        t.tower matches Tower::GemTower { typ, quality } ==> {
            &&& t.attack.range == LaserAttack::spec_range_for(typ, quality)
            &&& t.attack.damage == LaserAttack::spec_damage_for(typ, quality)
            &&& t.attack.hits == LaserAttack::spec_hits_for(typ)
        },
        t.attack.damage.wf(),
        t.cooldown.duration_ms == t.tower.spec_base_cooldown_ms(),
        t.cooldown.remaining_ms == 0,
        t.ability == t.tower.spec_abilities(),
        t.modifiers.opal_aura is None,
        t.target == Target::Single(None::<u64>),
{
    let typ = GemType::random();
    let quality = GemQuality::random_with_modifier(random_level.0);
    let tower = Tower::GemTower { typ, quality };
    PlacedTower {
        tower,
        attack: LaserAttack::from_tower(tower),
        cooldown: Cooldown::for_tower(tower),
        ability: tower.add_abilities(),
        modifiers: SpeedModifiers { opal_aura: None },
        target: Target::Single(None),
    }
}

/// The tower the player has selected, and what may be done with it.
#[derive(Clone, Copy, Debug, PartialEq, Eq, Structural)]
pub struct SelectedTower {
    pub tower: u64,
    pub pickable: bool,
    pub refinable: bool,
    pub removable: bool,
}

/// How many of the listed towers equal `typ`.
pub open spec fn spec_count_equal(towers: Seq<Tower>, typ: Tower) -> nat
    decreases towers.len(),
{
    if towers.len() == 0 {
        0
    } else {
        spec_count_equal(towers.drop_last(), typ) + if towers.last() == typ {
            1nat
        } else {
            0nat
        }
    }
}

/// How many of the listed towers equal `typ`.
pub fn count_equal(towers: &Vec<Tower>, typ: Tower) -> (c: usize)
    ensures
        c == spec_count_equal(towers@, typ),
{
    let mut c: usize = 0;
    let n = towers.len();
    let mut i: usize = 0;
    while i < n
        invariant
            n == towers@.len(),
            i <= n,
            c <= i,
            c == spec_count_equal(towers@.take(i as int), typ),
        decreases n - i,
    {
        proof {
            assert(towers@.take(i + 1).drop_last() =~= towers@.take(i as int));
            assert(towers@.take(i + 1).last() == towers@[i as int]);
        }
        if towers[i] == typ {
            c = c + 1;
        }
        i += 1;
    }
    proof {
        assert(towers@.take(n as int) =~= towers@);
    }
    c
}

/// The tower a click at `cursor` lands on: the last listed tower within
/// picking distance, if any.
pub open spec fn spec_pick(towers: Seq<(u64, Pos, Tower)>, cursor: Pos) -> Option<(u64, Tower)>
    decreases towers.len(),
{
    if towers.len() == 0 {
        None
    } else {
        if spec_dist_sq(towers.last().1, cursor) <= PICK_DISTANCE * PICK_DISTANCE {
            Some((towers.last().0, towers.last().2))
        } else {
            spec_pick(towers.drop_last(), cursor)
        }
    }
}

/// The tower a click at `cursor` lands on, if any: of the towers within
/// picking distance, the last in list order.
pub fn pick_tower_at(towers: &Vec<(u64, Pos, Tower)>, cursor: Pos) -> (r: Option<(u64, Tower)>)
    requires
        forall|i: int| 0 <= i < towers@.len() ==> (#[trigger] towers@[i]).1.wf(),
        cursor.wf(),
    ensures
        r == spec_pick(towers@, cursor),
{
    let mut picked: Option<(u64, Tower)> = None;
    let n = towers.len();
    let mut i: usize = 0;
    while i < n
        invariant
            forall|k: int| 0 <= k < towers@.len() ==> (#[trigger] towers@[k]).1.wf(),
            cursor.wf(),
            n == towers@.len(),
            i <= n,
            picked == spec_pick(towers@.take(i as int), cursor),
        decreases n - i,
    {
        proof {
            assert(towers@.take(i + 1).drop_last() =~= towers@.take(i as int));
            assert(towers@.take(i + 1).last() == towers@[i as int]);
        }
        let (id, pos, tower) = towers[i];
        let d = dist_sq(pos, cursor);
        if d <= (PICK_DISTANCE * PICK_DISTANCE) as u64 {
            picked = Some((id, tower));
        }
        i += 1;
    }
    proof {
        assert(towers@.take(n as int) =~= towers@);
    }
    picked
}

impl SelectedTower {
    /// What may be done with the picked tower: a just-built gem may be kept,
    /// a gem of which a second copy stands may be refined, and a settled
    /// dirt pile may be removed.
    pub fn selection(picked: u64, typ: Tower, just_built: bool, towers: &Vec<Tower>) -> (r:
        SelectedTower)
        ensures
            r.tower == picked,
            r.pickable == (just_built && typ != Tower::Dirt),
            r.refinable == (typ != Tower::Dirt && spec_count_equal(towers@, typ) >= 2),
            r.removable == (!just_built && typ == Tower::Dirt),
    {
        let is_dirt = typ == Tower::Dirt;
        let equal_count = if is_dirt {
            0
        } else {
            count_equal(towers, typ)
        };
        SelectedTower {
            tower: picked,
            pickable: just_built && !is_dirt,
            refinable: !is_dirt && equal_count >= 2,
            removable: !just_built && is_dirt,
        }
    }
}

/// The player keeps one of the gems grown this round.
pub struct PickSelectedTower;

impl PickSelectedTower {
    /// Settle the pick phase: of the just-built towers the chosen one stays
    /// what it is, every other one falls back to dirt. The game then moves
    /// on to the spawn phase.
    pub fn pick_building(just_built: &Vec<(u64, Tower)>, chosen: u64) -> (r: Vec<(u64, Tower)>)
        ensures
            r@.len() == just_built@.len(),
            forall|i: int|
                0 <= i < just_built@.len() ==> {
                    &&& (#[trigger] r@[i]).0 == just_built@[i].0
                    &&& r@[i].1 == (if just_built@[i].0 == chosen {
                        just_built@[i].1
                    } else {
                        Tower::Dirt
                    })
                },
    {
        let mut r: Vec<(u64, Tower)> = Vec::new();
        let n = just_built.len();
        let mut i: usize = 0;
        while i < n
            invariant
                n == just_built@.len(),
                i <= n,
                r@.len() == i,
                forall|k: int|
                    0 <= k < i ==> {
                        &&& (#[trigger] r@[k]).0 == just_built@[k].0
                        &&& r@[k].1 == (if just_built@[k].0 == chosen {
                            just_built@[k].1
                        } else {
                            Tower::Dirt
                        })
                    },
            decreases n - i,
        {
            let (id, tower) = just_built[i];
            if id == chosen {
                r.push((id, tower));
            } else {
                r.push((id, Tower::Dirt));
            }
            i += 1;
        }
        r
    }
}

/// The player tears a dirt pile down.
pub struct RemoveSelectedTower;

impl RemoveSelectedTower {
    /// Remove the selected tower, a dirt pile whose footprint corner is at
    /// cell `(x, y)`: its four cells become free to build on again. Only a
    /// removable selection that really is dirt is acted on.
    pub fn remove(selected: &SelectedTower, tower: Tower, grid: &mut BuildGrid, x: u32, y: u32)
        requires
            old(grid).wf(),
            x + 1 < MAP_WIDTH,
            y + 1 < MAP_HEIGHT,
        ensures
            final(grid).wf(),
            selected.removable && tower == Tower::Dirt ==> final(grid)@ == old(grid)@.difference(
                crate::grid::footprint(x as int, y as int),
            ),
            !(selected.removable && tower == Tower::Dirt) ==> final(grid)@ == old(grid)@,
    {
        if selected.removable && tower == Tower::Dirt {
            grid.remove_footprint(x, y);
        }
    }
}

/// The player refines a gem one quality tier and keeps it.
pub struct RefineAndPickSelectedTower;

impl RefineAndPickSelectedTower {
    /// Refine the selected tower one quality tier up. Only a refinable
    /// selection that is a gem yields a new tower; the refined tower is then
    /// the one to keep, and can be neither refined again nor removed this
    /// round.
    pub fn refine_and_pick(selected: &SelectedTower, tower: Tower) -> (r: Option<Tower>)
        requires
            selected.refinable ==> !(tower matches Tower::GemTower {
                quality: GemQuality::Perfect,
                ..
            }),
        ensures
            !selected.refinable ==> r is None,
            selected.refinable && tower == Tower::Dirt ==> r is None,
            selected.refinable && (tower matches Tower::GemTower { .. }) ==> r == Some(
                tower.spec_refine(),
            ),
    {
        if !selected.refinable {
            return None;
        }
        match tower {
            Tower::GemTower { .. } => Some(tower.get_refine()),
            Tower::Dirt => None,
        }
    }
}

} // verus!
