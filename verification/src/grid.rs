//! Occupancy of the build map.
//!
//! Towers stand on a rectangular map of square cells and cover a 2x2 block of
//! them. The grid records which cells are covered; placement refuses any
//! footprint that overlaps an occupied cell.

use vstd::prelude::*;

verus! {

/// Width of the build map in grid cells.
pub const MAP_WIDTH: u32 = 16;

/// Height of the build map in grid cells.
pub const MAP_HEIGHT: u32 = 16;

/// A cell of the build map, addressed by column `x` and row `y`.
#[derive(Clone, Copy, Debug, PartialEq, Eq, Structural)]
pub struct GridPos {
    pub x: u32,
    pub y: u32,
}

/// The four cells covered by a tower whose 2x2 footprint has `(x, y)` as its
/// corner with the smallest coordinates.
pub open spec fn footprint(x: int, y: int) -> Set<(int, int)> {
    set![(x, y), (x + 1, y), (x, y + 1), (x + 1, y + 1)]
}

/// The set of cells of the build map covered by towers.
///
/// Viewed as a set of `(column, row)` pairs. All cells lie on the map and the
/// backing vector holds each cell once.
pub struct BuildGrid {
    cells: Vec<GridPos>,
}

impl View for BuildGrid {
    type V = Set<(int, int)>;

    closed spec fn view(&self) -> Set<(int, int)> {
        Set::new(
            |p: (int, int)|
                exists|i: int|
                    0 <= i < self.cells@.len() && self.cells@[i].x == p.0 && self.cells@[i].y
                        == p.1,
        )
    }
}

impl BuildGrid {
    /// Every recorded cell lies on the map and no cell is recorded twice.
    pub closed spec fn wf(&self) -> bool {
        &&& forall|i: int|
            0 <= i < self.cells@.len() ==> self.cells@[i].x < MAP_WIDTH && self.cells@[i].y
                < MAP_HEIGHT
        &&& forall|i: int, j: int|
            0 <= i < j < self.cells@.len() ==> self.cells@[i] != self.cells@[j]
    }

    /// An empty grid: no cell is covered.
    pub fn new() -> (g: BuildGrid)
        ensures
            g.wf(),
            g@ == Set::<(int, int)>::empty(),
    {
        let g = BuildGrid { cells: Vec::new() };
        proof {
            assert(g@ =~= Set::<(int, int)>::empty());
        }
        g
    }

    /// Whether the cell `(x, y)` is covered.
    pub fn contains(&self, x: u32, y: u32) -> (r: bool)
        ensures
            r == self@.contains((x as int, y as int)),
    {
        let n = self.cells.len();
        let mut i: usize = 0;
        while i < n
            invariant
                n == self.cells@.len(),
                i <= n,
                forall|k: int| 0 <= k < i ==> !(self.cells@[k].x == x && self.cells@[k].y == y),
            decreases n - i,
        {
            if self.cells[i].x == x && self.cells[i].y == y {
                return true;
            }
            i += 1;
        }
        false
    }

    /// Mark the cell `(x, y)` as covered.
    pub fn insert(&mut self, x: u32, y: u32)
        requires
            old(self).wf(),
            x < MAP_WIDTH,
            y < MAP_HEIGHT,
        ensures
            final(self).wf(),
            final(self)@ == old(self)@.insert((x as int, y as int)),
    {
        let p = Ghost((x as int, y as int));
        if !self.contains(x, y) {
            self.cells.push(GridPos { x, y });
            proof {
                let oc = old(self).cells@;
                let nc = self.cells@;
                assert forall|k: int, l: int| 0 <= k < l < nc.len() implies nc[k] != nc[l] by {
                    if l < oc.len() {
                        assert(nc[k] == oc[k]);
                        assert(nc[l] == oc[l]);
                    } else {
                        assert(nc[k] == oc[k]);
                        assert(!old(self)@.contains(p@));
                    }
                }
                assert forall|q: (int, int)|
                    old(self)@.insert(p@).contains(q) implies self@.contains(q) by {
                    if q == p@ {
                        let k = oc.len() as int;
                        assert(nc[k].x == q.0 && nc[k].y == q.1);
                    } else {
                        let k = choose|k: int|
                            0 <= k < oc.len() && oc[k].x == q.0 && oc[k].y == q.1;
                        assert(nc[k] == oc[k]);
                    }
                }
                assert forall|q: (int, int)|
                    self@.contains(q) implies old(self)@.insert(p@).contains(q) by {
                    let k = choose|k: int| 0 <= k < nc.len() && nc[k].x == q.0 && nc[k].y == q.1;
                    if k < oc.len() {
                        assert(nc[k] == oc[k]);
                    }
                }
                assert(self@ =~= old(self)@.insert(p@));
            }
        } else {
            proof {
                assert(old(self)@.contains(p@));
                assert(self@ =~= old(self)@.insert(p@));
            }
        }
    }

    /// Mark the cell `(x, y)` as free.
    pub fn remove(&mut self, x: u32, y: u32)
        requires
            old(self).wf(),
        ensures
            final(self).wf(),
            final(self)@ == old(self)@.remove((x as int, y as int)),
    {
        let n = self.cells.len();
        let mut i: usize = 0;
        while i < n
            invariant
                old(self).wf(),
                self.cells@ == old(self).cells@,
                n == self.cells@.len(),
                i <= n,
                forall|k: int| 0 <= k < i ==> !(self.cells@[k].x == x && self.cells@[k].y == y),
            decreases n - i,
        {
            if self.cells[i].x == x && self.cells[i].y == y {
                self.cells.remove(i);
                proof {
                    let oc = old(self).cells@;
                    let nc = self.cells@;
                    let im = i as int;
                    assert forall|k: int|
                        0 <= k < nc.len() implies nc[k].x < MAP_WIDTH && nc[k].y < MAP_HEIGHT by {
                        if k < im {
                            assert(nc[k] == oc[k]);
                        } else {
                            assert(nc[k] == oc[k + 1]);
                        }
                    }
                    assert forall|k: int, l: int| 0 <= k < l < nc.len() implies nc[k] != nc[l] by {
                        let k0: int = if k < im {
                            k
                        } else {
                            k + 1
                        };
                        let l0: int = if l < im {
                            l
                        } else {
                            l + 1
                        };
                        assert(nc[k] == oc[k0]);
                        assert(nc[l] == oc[l0]);
                    }
                    let target = (x as int, y as int);
                    assert forall|p: (int, int)| self@.contains(p) implies old(self)@.remove(
                        target,
                    ).contains(p) by {
                        let k = choose|k: int|
                            0 <= k < nc.len() && nc[k].x == p.0 && nc[k].y == p.1;
                        let k0: int = if k < im {
                            k
                        } else {
                            k + 1
                        };
                        assert(nc[k] == oc[k0]);
                        assert(oc[k0] != oc[im]);
                    }
                    assert forall|p: (int, int)|
                        old(self)@.remove(target).contains(p) implies self@.contains(p) by {
                        let k0 = choose|k0: int|
                            0 <= k0 < oc.len() && oc[k0].x == p.0 && oc[k0].y == p.1;
                        let k: int = if k0 < im {
                            k0
                        } else {
                            k0 - 1
                        };
                        assert(nc[k] == oc[k0]);
                    }
                    assert(self@ =~= old(self)@.remove(target));
                }
                return;
            }
            i += 1;
        }
        proof {
            assert(self@ =~= old(self)@.remove((x as int, y as int)));
        }
    }

    /// Whether a 2x2 footprint with corner `(x, y)` would overlap no covered
    /// cell of `g`.
    pub open spec fn footprint_free(g: Set<(int, int)>, x: int, y: int) -> bool {
        forall|p: (int, int)| footprint(x, y).contains(p) ==> !g.contains(p)
    }

    /// Try to place a 2x2 footprint with corner `(x, y)`.
    ///
    /// The footprint is claimed, and placement succeeds, exactly when none of
    /// its four cells is already covered; on failure the grid is unchanged.
    pub fn try_place(&mut self, x: u32, y: u32) -> (placed: bool)
        requires
            old(self).wf(),
            x + 1 < MAP_WIDTH,
            y + 1 < MAP_HEIGHT,
        ensures
            final(self).wf(),
            placed == Self::footprint_free(old(self)@, x as int, y as int),
            placed ==> final(self)@ == old(self)@.union(footprint(x as int, y as int)),
            !placed ==> final(self)@ == old(self)@,
    {
        let free = !self.contains(x, y) && !self.contains(x + 1, y) && !self.contains(x, y + 1)
            && !self.contains(x + 1, y + 1);
        if free {
            self.insert(x, y);
            self.insert(x + 1, y);
            self.insert(x, y + 1);
            self.insert(x + 1, y + 1);
            proof {
                assert(self@ =~= old(self)@.union(footprint(x as int, y as int)));
            }
            true
        } else {
            false
        }
    }

    /// Free the 2x2 footprint with corner `(x, y)`, as when a tower standing
    /// there is torn down.
    pub fn remove_footprint(&mut self, x: u32, y: u32)
        requires
            old(self).wf(),
            x + 1 < MAP_WIDTH,
            y + 1 < MAP_HEIGHT,
        ensures
            final(self).wf(),
            final(self)@ == old(self)@.difference(footprint(x as int, y as int)),
    {
        self.remove(x, y);
        self.remove(x + 1, y);
        self.remove(x, y + 1);
        self.remove(x + 1, y + 1);
        proof {
            assert(self@ =~= old(self)@.difference(footprint(x as int, y as int)));
        }
    }

    /// The map flattened to one row-major slot per cell, `true` where the cell
    /// is covered and impassable for pathfinding.
    pub fn navability_map(&self) -> (t: Vec<bool>)
        ensures
            t@.len() == MAP_WIDTH * MAP_HEIGHT,
            forall|x: int, y: int|
                0 <= x < MAP_WIDTH && 0 <= y < MAP_HEIGHT ==> t@[y * MAP_WIDTH + x]
                    == self@.contains((x, y)),
    {
        let mut t: Vec<bool> = Vec::new();
        let mut y: u32 = 0;
        while y < MAP_HEIGHT
            invariant
                y <= MAP_HEIGHT,
                t@.len() == y * MAP_WIDTH,
                forall|xx: int, yy: int|
                    0 <= xx < MAP_WIDTH && 0 <= yy < y ==> t@[yy * MAP_WIDTH + xx]
                        == self@.contains((xx, yy)),
            decreases MAP_HEIGHT - y,
        {
            let mut x: u32 = 0;
            while x < MAP_WIDTH
                invariant
                    y < MAP_HEIGHT,
                    x <= MAP_WIDTH,
                    t@.len() == y * MAP_WIDTH + x,
                    forall|xx: int, yy: int|
                        0 <= xx < MAP_WIDTH && 0 <= yy < y ==> t@[yy * MAP_WIDTH + xx]
                            == self@.contains((xx, yy)),
                    forall|xx: int|
                        0 <= xx < x ==> t@[y * MAP_WIDTH + xx] == self@.contains((xx, y as int)),
                decreases MAP_WIDTH - x,
            {
                t.push(self.contains(x, y));
                x += 1;
            }
            y += 1;
        }
        t
    }

    /// The mark a rendered map shows for cell `(x, y)`.
    pub open spec fn render_char(g: Set<(int, int)>, x: int, y: int) -> char {
        if g.contains((x, y)) {
            'X'
        } else {
            'O'
        }
    }

    /// The map drawn as text, one row of marks per line: `X` for a covered
    /// cell, `O` for a free one.
    pub fn render(&self) -> (rows: Vec<Vec<char>>)
        ensures
            rows@.len() == MAP_HEIGHT,
            forall|y: int| 0 <= y < MAP_HEIGHT ==> (#[trigger] rows@[y])@.len() == MAP_WIDTH,
            forall|x: int, y: int|
                0 <= x < MAP_WIDTH && 0 <= y < MAP_HEIGHT ==> (#[trigger] rows@[y]@[x])
                    == Self::render_char(self@, x, y),
    {
        let mut rows: Vec<Vec<char>> = Vec::new();
        let mut y: u32 = 0;
        while y < MAP_HEIGHT
            invariant
                y <= MAP_HEIGHT,
                rows@.len() == y,
                forall|yy: int| 0 <= yy < y ==> (#[trigger] rows@[yy])@.len() == MAP_WIDTH,
                forall|xx: int, yy: int|
                    0 <= xx < MAP_WIDTH && 0 <= yy < y ==> (#[trigger] rows@[yy]@[xx])
                        == Self::render_char(self@, xx, yy),
            decreases MAP_HEIGHT - y,
        {
            let mut row: Vec<char> = Vec::new();
            let mut x: u32 = 0;
            while x < MAP_WIDTH
                invariant
                    y < MAP_HEIGHT,
                    x <= MAP_WIDTH,
                    row@.len() == x,
                    forall|xx: int|
                        0 <= xx < x ==> row@[xx] == Self::render_char(self@, xx, y as int),
                decreases MAP_WIDTH - x,
            {
                if self.contains(x, y) {
                    row.push('X');
                } else {
                    row.push('O');
                }
                x += 1;
            }
            rows.push(row);
            y += 1;
        }
        rows
    }

    /// Which cells of the 2x2 footprint with corner `(x, y)` are already
    /// covered, in the order `(x, y)`, `(x+1, y)`, `(x, y+1)`, `(x+1, y+1)`:
    /// what a placement preview highlights as blocked.
    pub fn footprint_occupied(&self, x: u32, y: u32) -> (r: (bool, bool, bool, bool))
        requires
            x + 1 < MAP_WIDTH,
            y + 1 < MAP_HEIGHT,
        ensures
            r.0 == self@.contains((x as int, y as int)),
            r.1 == self@.contains((x + 1 as int, y as int)),
            r.2 == self@.contains((x as int, y + 1 as int)),
            r.3 == self@.contains((x + 1 as int, y + 1 as int)),
    {
        (
            self.contains(x, y),
            self.contains(x + 1, y),
            self.contains(x, y + 1),
            self.contains(x + 1, y + 1),
        )
    }

    /// Placing a tower on free ground and tearing it down leaves the grid as
    /// it was: a successful `try_place` claims only cells that were free, so
    /// `remove_footprint` of the same corner gives exactly the old grid back.
    pub proof fn lemma_place_then_remove(g: Set<(int, int)>, x: int, y: int)
        requires
            Self::footprint_free(g, x, y),
        ensures
            g.union(footprint(x, y)).difference(footprint(x, y)) == g,
    {
        assert(g.union(footprint(x, y)).difference(footprint(x, y)) =~= g);
    }

    /// The grid a fresh game starts with: two 2x2 dirt piles, one near each of
    /// two opposite map corners.
    pub fn starting_grid() -> (g: BuildGrid)
        ensures
            g.wf(),
            g@ == footprint(0, 14).union(footprint(14, 0)),
    {
        let mut g = BuildGrid::new();
        g.insert(0, 15);
        g.insert(0, 14);
        g.insert(1, 14);
        g.insert(1, 15);
        g.insert(15, 0);
        g.insert(14, 0);
        g.insert(14, 1);
        g.insert(15, 1);
        proof {
            assert(g@ =~= footprint(0, 14).union(footprint(14, 0)));
        }
        g
    }
}

} // verus!
