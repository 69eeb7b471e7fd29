use gem_td::abilities::{
    Aura, AuraType, CritOnHit, SapphireSlowOnHit, Slow, SlowPoisonOnHit, SpeedModifiers,
    SplashOnHit, TowerUnit, SAPPHIRE_SLOW_DURATION_MS,
};
use gem_td::creeps::{Creep, CreepType, HitPoints};
use gem_td::game::{
    next_level, pick_tower_at, uncover_dirt, Builds, CurrentLevel, Phase, PickSelectedTower,
    RandomLevel, RefineAndPickSelectedTower, RemoveSelectedTower, SelectedTower, BUILDS_PER_ROUND,
};
use gem_td::grid::BuildGrid;
use gem_td::targeting::{Pos, Target};
use gem_td::towers::{GemQuality, GemType, Tower};

const ORIGIN: Pos = Pos { x: 0, y: 0, z: 0 };

fn creep(id: u64, x: i32, z: i32, hp: u32) -> Creep {
    Creep { id, pos: Pos { x, y: 0, z }, typ: CreepType::Ground, hp: HitPoints::new(hp) }
}

#[test]
fn a_round_starts_in_the_build_phase() {
    assert_eq!(Phase::default(), Phase::Build);
    assert_eq!(CurrentLevel::default().0, 1);
    assert_eq!(Builds::default().0, BUILDS_PER_ROUND);
    assert_eq!(RandomLevel::default().0, 0);
}

#[test]
fn next_level_steps_by_one() {
    let mut level = CurrentLevel::default();
    next_level(&mut level);
    next_level(&mut level);
    assert_eq!(level.0, 3);
}

#[test]
fn upgrades_raise_the_random_level() {
    let mut l = RandomLevel::default();
    l.increment();
    l.increment();
    assert_eq!(l.0, 2);
}

#[test]
fn builds_refill_each_round() {
    let mut b = Builds(0);
    b.reset_system();
    assert_eq!(b.0, BUILDS_PER_ROUND);
}

#[test]
fn uncovered_dirt_is_a_consistent_gem() {
    let t = uncover_dirt(RandomLevel(0));
    // At upgrade level zero the gem is always chipped.
    match t.tower {
        Tower::GemTower { quality, .. } => assert_eq!(quality, GemQuality::Chipped),
        Tower::Dirt => panic!("uncovering dirt must grow a gem"),
    }
    // The bundle matches the gem's own tables.
    assert_eq!(t.cooldown.duration_ms, t.tower.get_base_cooldown_time());
    assert_eq!(t.cooldown.remaining_ms, 0);
    assert_eq!(t.ability, t.tower.add_abilities());
    assert_eq!(t.modifiers.opal_aura, None);
    assert_eq!(t.target, Target::Single(None));
}

#[test]
fn clicks_pick_the_last_tower_in_reach() {
    let dirt = Tower::Dirt;
    let gem = Tower::GemTower { typ: GemType::Opal, quality: GemQuality::Normal };
    let towers = vec![
        (1, Pos { x: 0, y: 0, z: 0 }, dirt),
        (2, Pos { x: 50, y: 0, z: 0 }, gem),
        (3, Pos { x: 500, y: 0, z: 0 }, dirt),
    ];
    // Towers 1 and 2 are both within picking distance; the later one wins.
    assert_eq!(pick_tower_at(&towers, ORIGIN), Some((2, gem)));
    let far = Pos { x: 5000, y: 0, z: 0 };
    assert_eq!(pick_tower_at(&towers, far), None);
}

#[test]
fn selection_flags_follow_the_rules() {
    let gem = Tower::GemTower { typ: GemType::Ruby, quality: GemQuality::Chipped };
    let other = Tower::GemTower { typ: GemType::Ruby, quality: GemQuality::Flawed };
    let board = vec![gem, other, gem, Tower::Dirt];

    let s = SelectedTower::selection(7, gem, true, &board);
    assert_eq!(s.tower, 7);
    assert!(s.pickable);
    // Two equal chipped rubies stand on the board.
    assert!(s.refinable);
    assert!(!s.removable);

    let s = SelectedTower::selection(8, other, false, &board);
    assert!(!s.pickable);
    // Only one flawed ruby stands on the board.
    assert!(!s.refinable);
    assert!(!s.removable);

    let s = SelectedTower::selection(9, Tower::Dirt, false, &board);
    assert!(!s.pickable);
    assert!(!s.refinable);
    assert!(s.removable);
}

#[test]
fn picking_keeps_one_gem_and_dirts_the_rest() {
    let emerald = Tower::GemTower { typ: GemType::Emerald, quality: GemQuality::Chipped };
    let topaz = Tower::GemTower { typ: GemType::Topaz, quality: GemQuality::Flawed };
    let built = vec![(10, emerald), (11, topaz), (12, emerald)];
    let settled = PickSelectedTower::pick_building(&built, 11);
    assert_eq!(settled, vec![(10, Tower::Dirt), (11, topaz), (12, Tower::Dirt)]);
}

#[test]
fn removing_dirt_frees_its_footprint() {
    let mut grid = BuildGrid::new();
    assert!(grid.try_place(4, 4));
    let selected = SelectedTower { tower: 1, pickable: false, refinable: false, removable: true };
    RemoveSelectedTower::remove(&selected, Tower::Dirt, &mut grid, 4, 4);
    assert!(!grid.contains(4, 4));
    assert!(!grid.contains(5, 5));
}

#[test]
fn only_removable_dirt_is_removed() {
    let mut grid = BuildGrid::new();
    assert!(grid.try_place(4, 4));
    let not_removable =
        SelectedTower { tower: 1, pickable: true, refinable: false, removable: false };
    RemoveSelectedTower::remove(&not_removable, Tower::Dirt, &mut grid, 4, 4);
    assert!(grid.contains(4, 4));
    let removable = SelectedTower { tower: 1, pickable: false, refinable: false, removable: true };
    let gem = Tower::GemTower { typ: GemType::Ruby, quality: GemQuality::Normal };
    RemoveSelectedTower::remove(&removable, gem, &mut grid, 4, 4);
    assert!(grid.contains(4, 4));
}

#[test]
fn refine_and_pick_steps_a_gem_up() {
    let refinable = SelectedTower { tower: 1, pickable: false, refinable: true, removable: false };
    let gem = Tower::GemTower { typ: GemType::Sapphire, quality: GemQuality::Normal };
    assert_eq!(
        RefineAndPickSelectedTower::refine_and_pick(&refinable, gem),
        Some(Tower::GemTower { typ: GemType::Sapphire, quality: GemQuality::Flawless })
    );
    assert_eq!(RefineAndPickSelectedTower::refine_and_pick(&refinable, Tower::Dirt), None);
    let not_refinable =
        SelectedTower { tower: 1, pickable: false, refinable: false, removable: false };
    assert_eq!(RefineAndPickSelectedTower::refine_and_pick(&not_refinable, gem), None);
}

#[test]
fn slow_slots_hold_one_value_per_source() {
    let mut slow = Slow::new();
    let poison = SlowPoisonOnHit { dps: 2, slow: 15, duration_ms: 3000 }.on_hit();
    poison.add(&mut slow);
    assert_eq!(slow.poison, Some(15));
    assert_eq!(slow.sapphire, None);
    let chill = SapphireSlowOnHit { slow: 30 }.on_hit();
    assert_eq!(chill.duration_ms, SAPPHIRE_SLOW_DURATION_MS);
    chill.changed(&mut slow);
    assert_eq!(slow.sapphire, Some(30));
    assert_eq!(slow.poison, Some(15));
}

#[test]
fn poison_ticks_and_wears_off() {
    let mut poison = SlowPoisonOnHit { dps: 3, slow: 20, duration_ms: 4000 }.on_hit();
    let mut hp = HitPoints::new(7);
    let mut slow = Slow::new();
    poison.add(&mut slow);

    // A frame with a poison tick: damage lands, nothing expires.
    let (died, expired) = poison.update(&mut hp, &mut slow, true, 1000);
    assert!(!died);
    assert!(!expired);
    assert_eq!(hp.remaining(), 4);
    assert_eq!(slow.poison, Some(20));

    // A frame without a tick leaves health alone.
    let (died, expired) = poison.update(&mut hp, &mut slow, false, 1000);
    assert!(!died);
    assert!(!expired);
    assert_eq!(hp.remaining(), 4);

    // The duration runs out: the poison expires and takes its slow along.
    let (died, expired) = poison.update(&mut hp, &mut slow, true, 2000);
    assert!(!died);
    assert_eq!(hp.remaining(), 1);
    assert!(expired);
    assert_eq!(slow.poison, None);
}

#[test]
fn chill_wears_off_after_its_duration() {
    let mut chill = SapphireSlowOnHit { slow: 25 }.on_hit();
    let mut slow = Slow::new();
    chill.changed(&mut slow);
    assert!(!chill.update(&mut slow, 3999));
    assert_eq!(slow.sapphire, Some(25));
    assert!(chill.update(&mut slow, 1));
    assert_eq!(slow.sapphire, None);
}

#[test]
fn crits_follow_the_roll() {
    let mut hp = HitPoints::new(100);
    // A roll under the crit chance lands the damage again.
    assert!(!CritOnHit::crit(&mut hp, 30, 10));
    assert_eq!(hp.remaining(), 70);
    // A high roll leaves the creep alone.
    assert!(!CritOnHit::crit(&mut hp, 30, 25));
    assert_eq!(hp.remaining(), 70);
    // A killing crit is reported.
    assert!(CritOnHit::crit(&mut hp, 70, 0));
    assert_eq!(hp.remaining(), 0);
}

#[test]
fn random_crits_leave_health_sane() {
    for _ in 0..20 {
        let mut hp = HitPoints::new(50);
        CritOnHit::crit_random(&mut hp, 20);
        assert!(hp.remaining() == 50 || hp.remaining() == 30);
    }
}

#[test]
fn splash_shares_half_the_hit() {
    let splash = SplashOnHit { multiplier_percent: 50, range: 300 };
    assert_eq!(splash.splash_damage(20), 10);
    assert_eq!(splash.splash_damage(5), 2);
}

#[test]
fn splash_hits_neighbours_but_not_the_target() {
    let splash = SplashOnHit { multiplier_percent: 50, range: 300 };
    let mut creeps = vec![
        creep(1, 0, 0, 100),  // the hit creep itself
        creep(2, 200, 0, 100),  // close enough to be splashed
        creep(3, 2000, 0, 100),  // far away
        creep(4, 0, 100, 8),  // splashed and killed
    ];
    let deaths = splash.splash(&mut creeps, 1, 20);
    assert_eq!(creeps[0].hp.remaining(), 100);
    assert_eq!(creeps[1].hp.remaining(), 90);
    assert_eq!(creeps[2].hp.remaining(), 100);
    assert_eq!(creeps[3].hp.remaining(), 0);
    assert_eq!(deaths, vec![4]);
}

#[test]
fn splash_on_a_gone_creep_does_nothing() {
    let splash = SplashOnHit { multiplier_percent: 50, range: 300 };
    let mut creeps = vec![creep(2, 100, 0, 100)];
    let deaths = splash.splash(&mut creeps, 9, 20);
    assert!(deaths.is_empty());
    assert_eq!(creeps[0].hp.remaining(), 100);
}

#[test]
fn strongest_aura_wins() {
    let auras = vec![
        (ORIGIN, Aura { typ: AuraType::Opal(10), range: 800 }),
        (ORIGIN, Aura { typ: AuraType::Opal(25), range: 800 }),
        (ORIGIN, Aura { typ: AuraType::Opal(35), range: 100 }),
    ];
    let mut towers = vec![
        // Covered by the first two auras; the stronger one wins.
        TowerUnit { id: 1, pos: Pos { x: 500, y: 0, z: 0 }, modifiers: SpeedModifiers { opal_aura: None } },
        // Covered by no aura: an old bonus stays as it was.
        TowerUnit {
            id: 2,
            pos: Pos { x: 5000, y: 0, z: 0 },
            modifiers: SpeedModifiers { opal_aura: Some(10) },
        },
        // At the very center, the short-range aura reaches too.
        TowerUnit { id: 3, pos: ORIGIN, modifiers: SpeedModifiers { opal_aura: None } },
    ];
    Aura::reapply_auras(&mut towers, &auras);
    assert_eq!(towers[0].modifiers.opal_aura, Some(25));
    assert_eq!(towers[1].modifiers.opal_aura, Some(10));
    assert_eq!(towers[2].modifiers.opal_aura, Some(35));
}

#[test]
fn speed_bonus_cuts_the_cooldown() {
    let tower = Tower::GemTower { typ: GemType::Opal, quality: GemQuality::Normal };
    let plain = SpeedModifiers { opal_aura: None }.update(tower);
    assert_eq!(plain.duration_ms, 1000);
    assert_eq!(plain.remaining_ms, 0);
    let boosted = SpeedModifiers { opal_aura: Some(20) }.update(tower);
    assert_eq!(boosted.duration_ms, 800);
    // A bonus past the whole period floors the cooldown at zero.
    let capped = SpeedModifiers { opal_aura: Some(150) }.update(tower);
    assert_eq!(capped.duration_ms, 0);
}
