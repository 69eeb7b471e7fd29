//! Target acquisition and attack resolution.
//!
//! Positions are integer points in hundredths of a map unit, so a tower's
//! reach of `range` hundredths covers exactly the creeps whose squared
//! distance is at most `range * range`. A tower tracks either one target or,
//! for a multi-target gem, every matching creep in reach.

use vstd::prelude::*;

verus! {

use crate::creeps::{Creep, CreepType, Hit};
use crate::towers::{Cooldown, Hits, LaserAttack};

/// Positions stay within ten thousand map units of the origin, so squared
/// distances fit comfortably in 64 bits.
pub const COORD_LIMIT: i32 = 1000000;

/// A point of the map, in hundredths of a map unit per axis.
#[derive(Clone, Copy, Debug, PartialEq, Eq, Structural)]
pub struct Pos {
    pub x: i32,
    pub y: i32,
    pub z: i32,
}

impl Pos {
    /// The point lies within the coordinate bound.
    pub open spec fn wf(self) -> bool {
        &&& -COORD_LIMIT <= self.x <= COORD_LIMIT
        &&& -COORD_LIMIT <= self.y <= COORD_LIMIT
        &&& -COORD_LIMIT <= self.z <= COORD_LIMIT
    }
}

/// The squared distance between two points, in squared hundredths.
pub open spec fn spec_dist_sq(a: Pos, b: Pos) -> int {
    (a.x - b.x) * (a.x - b.x) + (a.y - b.y) * (a.y - b.y) + (a.z - b.z) * (a.z - b.z)
}

/// The squared distance between two points.
pub fn dist_sq(a: Pos, b: Pos) -> (d: u64)
    requires
        a.wf(),
        b.wf(),
    ensures
        d == spec_dist_sq(a, b),
{
    let dx: i64 = (a.x as i64) - (b.x as i64);
    let dy: i64 = (a.y as i64) - (b.y as i64);
    let dz: i64 = (a.z as i64) - (b.z as i64);
    proof {
        assert(0 <= dx * dx <= 0x3a352944000000 && 0 <= dy * dy <= 0x3a352944000000 && 0 <= dz
            * dz <= 0x3a352944000000) by (nonlinear_arith)
            requires
                -2000000 <= dx <= 2000000,
                -2000000 <= dy <= 2000000,
                -2000000 <= dz <= 2000000,
        ;
    }
    ((dx * dx) + (dy * dy) + (dz * dz)) as u64
}

/// Whether the creep stands within `range` hundredths of `pos`.
pub open spec fn spec_in_range(c: Creep, pos: Pos, range: u32) -> bool {
    spec_dist_sq(c.pos, pos) <= range * range
}

/// The square of a reach given in hundredths.
pub fn range_sq(range: u32) -> (r: u64)
    ensures
        r == (range as int) * (range as int),
{
    proof {
        assert((range as int) * (range as int) <= 0xfffffffe00000001) by (nonlinear_arith)
            requires
                range <= 0xffffffffu32,
        ;
    }
    (range as u64) * (range as u64)
}

/// What a tower is aiming at: most towers track a single creep, a
/// multi-target tower keeps a list.
#[derive(Clone, Debug, PartialEq, Eq)]
pub enum Target {
    Single(Option<u64>),
    Multiple(Vec<u64>),
}

/// Every creep of the list carries a distinct id and a well-formed position.
pub open spec fn creeps_wf(creeps: Seq<Creep>) -> bool {
    &&& forall|i: int| 0 <= i < creeps.len() ==> (#[trigger] creeps[i]).pos.wf()
    &&& forall|i: int, j: int|
        0 <= i < j < creeps.len() ==> (#[trigger] creeps[i]).id != (#[trigger] creeps[j]).id
}

/// Whether some creep of the list has this id.
pub open spec fn has_creep(creeps: Seq<Creep>, id: u64) -> bool {
    exists|i: int| 0 <= i < creeps.len() && (#[trigger] creeps[i]).id == id
}

/// The creep of the list with this id.
pub open spec fn creep_with_id(creeps: Seq<Creep>, id: u64) -> Creep {
    creeps[choose|i: int| 0 <= i < creeps.len() && (#[trigger] creeps[i]).id == id]
}

/// Whether the creep with id `id` is alive and within reach: it stands in the
/// list and within `range` of `pos`.
pub open spec fn alive_in_range(creeps: Seq<Creep>, id: u64, pos: Pos, range: u32) -> bool {
    has_creep(creeps, id) && spec_in_range(creep_with_id(creeps, id), pos, range)
}

/// The ids of `ts` whose creeps are alive and within reach, in order.
pub open spec fn spec_surviving(ts: Seq<u64>, creeps: Seq<Creep>, pos: Pos, range: u32) -> Seq<
    u64,
>
    decreases ts.len(),
{
    if ts.len() == 0 {
        Seq::empty()
    } else {
        let prefix = spec_surviving(ts.drop_last(), creeps, pos, range);
        if alive_in_range(creeps, ts.last(), pos, range) {
            prefix.push(ts.last())
        } else {
            prefix
        }
    }
}

/// The ids and kinds of the creeps within `range` of `pos`, in list order.
pub open spec fn spec_in_range_list(creeps: Seq<Creep>, pos: Pos, range: u32) -> Seq<
    (u64, CreepType),
>
    decreases creeps.len(),
{
    if creeps.len() == 0 {
        Seq::empty()
    } else {
        let prefix = spec_in_range_list(creeps.drop_last(), pos, range);
        if spec_in_range(creeps.last(), pos, range) {
            prefix.push((creeps.last().id, creeps.last().typ))
        } else {
            prefix
        }
    }
}

/// The list of ids a target value is currently tracking.
pub open spec fn spec_targets_of(t: Target) -> Seq<u64> {
    match t {
        Target::Single(Some(id)) => seq![id],
        Target::Single(None) => Seq::empty(),
        Target::Multiple(ids) => ids@,
    }
}

/// The ids of the listed creeps whose kind the class `hits` can reach, in
/// order.
pub open spec fn spec_matching_ids(list: Seq<(u64, CreepType)>, hits: Hits) -> Seq<u64>
    decreases list.len(),
{
    if list.len() == 0 {
        Seq::empty()
    } else {
        let prefix = spec_matching_ids(list.drop_last(), hits);
        if list.last().1.spec_hits(hits) {
            prefix.push(list.last().0)
        } else {
            prefix
        }
    }
}

/// Index `i` holds the closest creep to `pos`, and the first one at that
/// distance in list order.
pub open spec fn spec_first_closest(creeps: Seq<Creep>, pos: Pos, i: int) -> bool {
    &&& 0 <= i < creeps.len()
    &&& forall|j: int|
        0 <= j < creeps.len() ==> spec_dist_sq(#[trigger] creeps[j].pos, pos) >= spec_dist_sq(
            creeps[i].pos,
            pos,
        )
    &&& forall|j: int|
        0 <= j < i ==> spec_dist_sq(#[trigger] creeps[j].pos, pos) > spec_dist_sq(
            creeps[i].pos,
            pos,
        )
}

/// The position in the list of the creep with id `id`, if it is alive.
pub fn find_creep(creeps: &Vec<Creep>, id: u64) -> (r: Option<usize>)
    ensures
        r matches Some(i) ==> i < creeps@.len() && creeps@[i as int].id == id,
        r is None ==> !has_creep(creeps@, id),
{
    let n = creeps.len();
    let mut i: usize = 0;
    while i < n
        invariant
            n == creeps@.len(),
            i <= n,
            forall|k: int| 0 <= k < i ==> (#[trigger] creeps@[k]).id != id,
        decreases n - i,
    {
        if creeps[i].id == id {
            return Some(i);
        }
        i += 1;
    }
    None
}

impl LaserAttack {
    /// The creep closest to `position`, with its squared distance and kind;
    /// ties go to the earlier creep in the list. `None` only on an empty
    /// list.
    pub fn get_closest_creep(creeps: &Vec<Creep>, position: Pos) -> (r: Option<
        (u64, u64, CreepType),
    >)
        requires
            creeps_wf(creeps@),
            position.wf(),
        ensures
            r is None <==> creeps@.len() == 0,
            r matches Some((id, d, typ)) ==> exists|i: int|
                {
                    &&& #[trigger] spec_first_closest(creeps@, position, i)
                    &&& creeps@[i].id == id
                    &&& creeps@[i].typ == typ
                    &&& d == spec_dist_sq(creeps@[i].pos, position)
                },
    {
        let mut best: Option<(u64, u64, CreepType)> = None;
        let ghost mut best_index: int = 0int;
        let n = creeps.len();
        let mut i: usize = 0;
        while i < n
            invariant
                creeps_wf(creeps@),
                position.wf(),
                n == creeps@.len(),
                i <= n,
                best is None <==> i == 0,
                best matches Some((id, d, typ)) ==> {
                    &&& 0 <= best_index < i
                    &&& creeps@[best_index].id == id
                    &&& creeps@[best_index].typ == typ
                    &&& d == spec_dist_sq(creeps@[best_index].pos, position)
                    &&& forall|j: int|
                        0 <= j < i ==> spec_dist_sq(#[trigger] creeps@[j].pos, position)
                            >= spec_dist_sq(creeps@[best_index].pos, position)
                    &&& forall|j: int|
                        0 <= j < best_index ==> spec_dist_sq(#[trigger] creeps@[j].pos, position)
                            > spec_dist_sq(creeps@[best_index].pos, position)
                },
            decreases n - i,
        {
            let c = &creeps[i];
            let d = dist_sq(c.pos, position);
            let better = match best {
                None => true,
                Some((_, best_d, _)) => d < best_d,
            };
            if better {
                best = Some((c.id, d, c.typ));
                proof {
                    best_index = i as int;
                }
            }
            i += 1;
        }
        proof {
            if best is Some {
                assert(spec_first_closest(creeps@, position, best_index));
            }
        }
        best
    }

    /// The ids and kinds of every creep within `range` of `position`, in
    /// list order.
    pub fn get_creeps_in_range(creeps: &Vec<Creep>, position: Pos, range: u32) -> (r: Vec<
        (u64, CreepType),
    >)
        requires
            creeps_wf(creeps@),
            position.wf(),
        ensures
            r@ == spec_in_range_list(creeps@, position, range),
    {
        let mut r: Vec<(u64, CreepType)> = Vec::new();
        let n = creeps.len();
        let mut i: usize = 0;
        while i < n
            invariant
                creeps_wf(creeps@),
                position.wf(),
                n == creeps@.len(),
                i <= n,
                r@ == spec_in_range_list(creeps@.take(i as int), position, range),
            decreases n - i,
        {
            let c = &creeps[i];
            let d = dist_sq(c.pos, position);
            proof {
                assert(creeps@.take(i + 1).drop_last() =~= creeps@.take(i as int));
                assert(creeps@.take(i + 1).last() == creeps@[i as int]);
            }
            if d <= range_sq(range) {
                r.push((c.id, c.typ));
            }
            i += 1;
        }
        proof {
            assert(creeps@.take(n as int) =~= creeps@);
        }
        r
    }

    /// One frame of a tower's attack.
    ///
    /// Time passes on the cooldown; once it has run out the tower fires on
    /// every tracked target still alive and within reach, rolling its damage
    /// and winding the cooldown back up, and drops the targets that are gone
    /// or out of reach. A single-target tower that was tracking nothing
    /// locks onto the closest creep, if that creep is within reach and of a
    /// class the tower can hit.
    pub fn attack(
        &self,
        tower_id: u64,
        cooldown: &mut Cooldown,
        target: &mut Target,
        tower_pos: Pos,
        creeps: &Vec<Creep>,
        delta_ms: u32,
    ) -> (hits: Vec<Hit>)
        requires
            creeps_wf(creeps@),
            tower_pos.wf(),
            self.damage.wf(),
        ensures
            final(cooldown).duration_ms == old(cooldown).duration_ms,
            crate::creeps::sat_sub(old(cooldown).remaining_ms, delta_ms) != 0 ==> {
                &&& final(cooldown).remaining_ms == crate::creeps::sat_sub(
                    old(cooldown).remaining_ms,
                    delta_ms,
                )
                &&& hits@.len() == 0
                &&& *final(target) == *old(target)
            },
            crate::creeps::sat_sub(old(cooldown).remaining_ms, delta_ms) == 0 ==> {
                let ts = spec_targets_of(*old(target));
                let surv = spec_surviving(ts, creeps@, tower_pos, self.range);
                &&& hits@.len() == surv.len()
                &&& forall|k: int|
                    0 <= k < surv.len() ==> {
                        &&& (#[trigger] hits@[k]).source == tower_id
                        &&& hits@[k].target == surv[k]
                        &&& self.damage.spec_possible(hits@[k].value)
                    }
                &&& (surv.len() > 0 ==> final(cooldown).remaining_ms == old(cooldown).duration_ms)
                &&& (surv.len() == 0 ==> final(cooldown).remaining_ms == 0)
                &&& (*old(target) matches Target::Multiple(_) ==> (*final(target)) matches
                    Target::Multiple(kept) && kept@ == surv)
                &&& (forall|t: u64|
                    *old(target) == Target::Single(Some(t)) ==> if alive_in_range(
                        creeps@,
                        t,
                        tower_pos,
                        self.range,
                    ) {
                        *final(target) == *old(target)
                    } else {
                        *final(target) == Target::Single(None::<u64>)
                    })
                &&& (*old(target) == Target::Single(None::<u64>) ==> if creeps@.len() == 0 {
                    *final(target) == Target::Single(None::<u64>)
                } else {
                    exists|i: int|
                        #[trigger] spec_first_closest(creeps@, tower_pos, i) && *final(target) == (
                        if spec_in_range(creeps@[i], tower_pos, self.range)
                            && creeps@[i].typ.spec_hits(self.hits) {
                            Target::Single(Some(creeps@[i].id))
                        } else {
                            Target::Single(None::<u64>)
                        })
                })
            },
    {
        cooldown.tick(delta_ms);
        let mut hits: Vec<Hit> = Vec::new();
        if !cooldown.finished() {
            return hits;
        }
        let mut targets: Vec<u64> = Vec::new();
        match &*target {
            Target::Single(opt) => {
                if let Some(t) = opt {
                    targets.push(*t);
                }
            },
            Target::Multiple(ids) => {
                let m = ids.len();
                let mut k: usize = 0;
                while k < m
                    invariant
                        m == ids@.len(),
                        k <= m,
                        targets@ == ids@.take(k as int),
                    decreases m - k,
                {
                    targets.push(ids[k]);
                    k += 1;
                }
                proof {
                    assert(targets@ =~= ids@);
                }
            },
        }
        proof {
            assert(targets@ == spec_targets_of(*old(target)));
        }
        let ghost ts = targets@;
        let mut kept: Vec<u64> = Vec::new();
        let n = targets.len();
        let mut i: usize = 0;
        while i < n
            invariant
                creeps_wf(creeps@),
                tower_pos.wf(),
                self.damage.wf(),
                n == targets@.len(),
                i <= n,
                ts == targets@,
                cooldown.duration_ms == old(cooldown).duration_ms,
                kept@ == spec_surviving(ts.take(i as int), creeps@, tower_pos, self.range),
                hits@.len() == kept@.len(),
                forall|k: int|
                    0 <= k < hits@.len() ==> {
                        &&& (#[trigger] hits@[k]).source == tower_id
                        &&& hits@[k].target == kept@[k]
                        &&& self.damage.spec_possible(hits@[k].value)
                    },
                kept@.len() == 0 ==> cooldown.remaining_ms == 0,
                kept@.len() > 0 ==> cooldown.remaining_ms == cooldown.duration_ms,
            decreases n - i,
        {
            let t = targets[i];
            proof {
                assert(ts.take(i + 1).drop_last() =~= ts.take(i as int));
                assert(ts.take(i + 1).last() == ts[i as int]);
            }
            match find_creep(creeps, t) {
                Some(ci) => {
                    let d = dist_sq(creeps[ci].pos, tower_pos);
                    proof {
                        let j = choose|j: int|
                            0 <= j < creeps@.len() && (#[trigger] creeps@[j]).id == t;
                        assert(creeps@[ci as int].id == t);
                        assert(j == ci as int);
                        assert(creep_with_id(creeps@, t) == creeps@[ci as int]);
                    }
                    if d <= range_sq(self.range) {
                        cooldown.reset();
                        let value = self.damage.get_value();
                        hits.push(Hit { source: tower_id, target: t, value });
                        kept.push(t);
                        proof {
                            assert(alive_in_range(creeps@, t, tower_pos, self.range));
                        }
                    } else {
                        proof {
                            assert(!alive_in_range(creeps@, t, tower_pos, self.range));
                        }
                    }
                },
                None => {
                    proof {
                        assert(!alive_in_range(creeps@, t, tower_pos, self.range));
                    }
                },
            }
            i += 1;
        }
        proof {
            assert(ts.take(n as int) =~= ts);
            if ts.len() == 1 {
                let t0 = ts[0];
                assert(ts =~= seq![t0]);
                assert(ts.drop_last() =~= Seq::<u64>::empty());
                assert(spec_surviving(Seq::<u64>::empty(), creeps@, tower_pos, self.range)
                    =~= Seq::<u64>::empty());
                assert(spec_surviving(ts, creeps@, tower_pos, self.range) == (if alive_in_range(
                    creeps@,
                    t0,
                    tower_pos,
                    self.range,
                ) {
                    Seq::<u64>::empty().push(t0)
                } else {
                    Seq::<u64>::empty()
                }));
            }
        }
        let is_single = matches!(&*target, Target::Single(_));
        if is_single {
            if targets.len() == 0 {
                match Self::get_closest_creep(creeps, tower_pos) {
                    Some((id, d, typ)) => {
                        if range_sq(self.range) >= d && typ.hits(self.hits) {
                            *target = Target::Single(Some(id));
                        }
                    },
                    None => {},
                }
            } else if hits.len() == 0 {
                *target = Target::Single(None);
            }
        } else {
            *target = Target::Multiple(kept);
        }
        hits
    }

    /// Refresh a multi-target tower's list: it then tracks exactly the
    /// creeps within reach whose class it can hit. A single-target tower is
    /// left alone.
    pub fn update_multiple_targets(&self, target: &mut Target, tower_pos: Pos, creeps: &Vec<Creep>)
        requires
            creeps_wf(creeps@),
            tower_pos.wf(),
        ensures
            *old(target) matches Target::Single(_) ==> *final(target) == *old(target),
            *old(target) matches Target::Multiple(_) ==> (*final(target)) matches Target::Multiple(
                ids,
            ) && ids@ == spec_matching_ids(
                spec_in_range_list(creeps@, tower_pos, self.range),
                self.hits,
            ),
    {
        if matches!(&*target, Target::Multiple(_)) {
            let in_range = Self::get_creeps_in_range(creeps, tower_pos, self.range);
            let mut ids: Vec<u64> = Vec::new();
            let m = in_range.len();
            let mut k: usize = 0;
            while k < m
                invariant
                    m == in_range@.len(),
                    k <= m,
                    ids@ == spec_matching_ids(in_range@.take(k as int), self.hits),
                decreases m - k,
            {
                proof {
                    assert(in_range@.take(k + 1).drop_last() =~= in_range@.take(k as int));
                    assert(in_range@.take(k + 1).last() == in_range@[k as int]);
                }
                let (id, typ) = in_range[k];
                if typ.hits(self.hits) {
                    ids.push(id);
                }
                k += 1;
            }
            proof {
                assert(in_range@.take(m as int) =~= in_range@);
            }
            *target = Target::Multiple(ids);
        }
    }
}

} // verus!
