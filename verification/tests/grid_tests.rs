use gem_td::game::{build_on_click, BuildOutcome, Builds};
use gem_td::grid::{BuildGrid, MAP_HEIGHT, MAP_WIDTH};

#[test]
fn new_grid_is_empty() {
    let g = BuildGrid::new();
    for y in 0..MAP_HEIGHT {
        for x in 0..MAP_WIDTH {
            assert!(!g.contains(x, y));
        }
    }
}

#[test]
fn insert_and_contains() {
    let mut g = BuildGrid::new();
    g.insert(3, 4);
    assert!(g.contains(3, 4));
    assert!(!g.contains(4, 3));
    g.insert(3, 4);
    assert!(g.contains(3, 4));
}

#[test]
fn remove_frees_cell() {
    let mut g = BuildGrid::new();
    g.insert(5, 5);
    g.remove(5, 5);
    assert!(!g.contains(5, 5));
    g.remove(0, 0);
    assert!(!g.contains(0, 0));
}

#[test]
fn place_covers_two_by_two() {
    let mut g = BuildGrid::new();
    assert!(g.try_place(2, 3));
    assert!(g.contains(2, 3));
    assert!(g.contains(3, 3));
    assert!(g.contains(2, 4));
    assert!(g.contains(3, 4));
    assert!(!g.contains(4, 3));
}

#[test]
fn place_refuses_overlap() {
    let mut g = BuildGrid::new();
    assert!(g.try_place(2, 3));
    // Overlaps the cell (3, 4) of the first footprint.
    assert!(!g.try_place(3, 4));
    // The failed attempt must not claim any cell.
    assert!(!g.contains(4, 4));
    assert!(!g.contains(4, 5));
    assert!(!g.contains(3, 5));
    // A disjoint footprint is fine.
    assert!(g.try_place(4, 3));
}

#[test]
fn remove_footprint_frees_all_four() {
    let mut g = BuildGrid::new();
    assert!(g.try_place(8, 8));
    g.remove_footprint(8, 8);
    assert!(!g.contains(8, 8));
    assert!(!g.contains(9, 8));
    assert!(!g.contains(8, 9));
    assert!(!g.contains(9, 9));
    // The same spot can be built on again.
    assert!(g.try_place(8, 8));
}

#[test]
fn starting_grid_blocks_two_corners() {
    let g = BuildGrid::starting_grid();
    for (x, y) in [(0, 14), (1, 14), (0, 15), (1, 15), (14, 0), (15, 0), (14, 1), (15, 1)] {
        assert!(g.contains(x, y));
    }
    assert!(!g.contains(2, 14));
    assert!(!g.contains(7, 7));
}

#[test]
fn navability_map_marks_covered_cells() {
    let mut g = BuildGrid::new();
    assert!(g.try_place(1, 2));
    let map = g.navability_map();
    assert_eq!(map.len(), (MAP_WIDTH * MAP_HEIGHT) as usize);
    assert!(map[(2 * MAP_WIDTH + 1) as usize]);
    assert!(map[(2 * MAP_WIDTH + 2) as usize]);
    assert!(map[(3 * MAP_WIDTH + 1) as usize]);
    assert!(!map[(2 * MAP_WIDTH + 3) as usize]);
    assert!(!map[0]);
}

#[test]
fn render_draws_rows_of_marks() {
    let mut g = BuildGrid::new();
    g.insert(0, 0);
    g.insert(15, 1);
    let rows = g.render();
    assert_eq!(rows.len(), MAP_HEIGHT as usize);
    let row0: String = rows[0].iter().collect();
    let row1: String = rows[1].iter().collect();
    let row2: String = rows[2].iter().collect();
    assert_eq!(row0, "XOOOOOOOOOOOOOOO");
    assert_eq!(row1, "OOOOOOOOOOOOOOOX");
    assert_eq!(row2, "OOOOOOOOOOOOOOOO");
}

#[test]
fn footprint_occupied_reports_each_cell() {
    let mut g = BuildGrid::new();
    g.insert(6, 5);
    g.insert(5, 6);
    let (a, b, c, d) = g.footprint_occupied(5, 5);
    assert!(!a);
    assert!(b);
    assert!(c);
    assert!(!d);
}

#[test]
fn build_click_places_and_spends_a_build() {
    let mut builds = Builds(2);
    let mut g = BuildGrid::new();
    assert_eq!(build_on_click(&mut builds, &mut g, 4, 4), BuildOutcome::Built);
    assert_eq!(builds.0, 1);
    assert!(g.contains(4, 4));
}

#[test]
fn build_click_on_occupied_ground_spends_nothing() {
    let mut builds = Builds(2);
    let mut g = BuildGrid::new();
    assert_eq!(build_on_click(&mut builds, &mut g, 4, 4), BuildOutcome::Built);
    assert_eq!(build_on_click(&mut builds, &mut g, 5, 5), BuildOutcome::Occupied);
    assert_eq!(builds.0, 1);
    assert!(!g.contains(6, 6));
}

#[test]
fn build_click_without_builds_ends_the_phase() {
    let mut builds = Builds(0);
    let mut g = BuildGrid::new();
    assert_eq!(build_on_click(&mut builds, &mut g, 4, 4), BuildOutcome::PhaseOver);
    assert_eq!(builds.0, 0);
    assert!(!g.contains(4, 4));
}
