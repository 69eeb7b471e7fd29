use gem_td::creeps::{CreepSpawner, CreepType, Damaged, HitPoints, DEFAULT_SPAWN_AMOUNT};
use gem_td::towers::{
    Cooldown, Damage, GemQuality, GemType, Hits, LaserAttack, Tower, BASE_TOWER_SPEED_MS,
};

#[test]
fn hitpoints_start_full() {
    let hp = HitPoints::new(120);
    assert_eq!(hp.remaining(), 120);
    assert!(!hp.dead());
}

#[test]
fn damage_saturates_at_zero() {
    let mut hp = HitPoints::new(10);
    hp.sub(4);
    assert_eq!(hp.remaining(), 6);
    hp.sub(100);
    assert_eq!(hp.remaining(), 0);
    assert!(hp.dead());
    hp.sub(1);
    assert_eq!(hp.remaining(), 0);
}

#[test]
fn ratio_is_whole_percent_rounded_down() {
    let mut hp = HitPoints::new(90);
    assert_eq!(hp.ratio_percent(), 100);
    hp.sub(60);
    // 30 of 90 is a third.
    assert_eq!(hp.ratio_percent(), 33);
    hp.sub(30);
    assert_eq!(hp.ratio_percent(), 0);
}

#[test]
fn wave_table_gives_exact_hitpoints() {
    assert_eq!(HitPoints::from_level(1).remaining(), 10);
    assert_eq!(HitPoints::from_level(7).remaining(), 178);
    assert_eq!(HitPoints::from_level(15).remaining(), 1_000);
    assert_eq!(HitPoints::from_level(40).remaining(), 10_500);
    assert_eq!(HitPoints::from_level(42).remaining(), 23_000);
    assert_eq!(HitPoints::from_level(99).remaining(), 23_000);
}

#[test]
fn every_fourth_wave_flies() {
    assert_eq!(CreepType::from_level(4), CreepType::Flying);
    assert_eq!(CreepType::from_level(8), CreepType::Flying);
    assert_eq!(CreepType::from_level(1), CreepType::Ground);
    assert_eq!(CreepType::from_level(5), CreepType::Ground);
}

#[test]
fn target_classes_hit_the_right_creeps() {
    assert!(CreepType::Ground.hits(Hits::Ground));
    assert!(!CreepType::Ground.hits(Hits::Flying));
    assert!(CreepType::Ground.hits(Hits::All));
    assert!(!CreepType::Flying.hits(Hits::Ground));
    assert!(CreepType::Flying.hits(Hits::Flying));
    assert!(CreepType::Flying.hits(Hits::All));
}

#[test]
fn consume_reports_the_kill() {
    let mut hp = HitPoints::new(5);
    let first = Damaged { target: 7, value: 3 };
    assert!(!first.consume(&mut hp));
    let second = Damaged { target: 7, value: 3 };
    assert!(second.consume(&mut hp));
    assert_eq!(hp.remaining(), 0);
}

#[test]
fn spawner_releases_one_creep_per_tick() {
    let mut s = CreepSpawner::default();
    assert_eq!(s.amount, DEFAULT_SPAWN_AMOUNT);
    assert!(s.spawn(false, 1).is_none());
    assert_eq!(s.amount, DEFAULT_SPAWN_AMOUNT);
    let creep = s.spawn(true, 1).unwrap();
    assert_eq!(creep.0, CreepType::Ground);
    assert_eq!(creep.1.remaining(), 10);
    assert_eq!(s.amount, DEFAULT_SPAWN_AMOUNT - 1);
}

#[test]
fn exhausted_spawner_stays_quiet() {
    let mut s = CreepSpawner { amount: 1 };
    assert!(s.spawn(true, 4).is_some());
    assert!(s.spawn(true, 4).is_none());
    assert_eq!(s.amount, 0);
    s.reset_amount_system();
    assert_eq!(s.amount, DEFAULT_SPAWN_AMOUNT);
}

#[test]
fn wave_ends_only_with_nothing_left() {
    assert!(CreepSpawner::wave_complete(0, 0));
    assert!(!CreepSpawner::wave_complete(3, 0));
    assert!(!CreepSpawner::wave_complete(0, 2));
}

#[test]
fn refine_steps_up_one_tier() {
    let t = Tower::GemTower { typ: GemType::Ruby, quality: GemQuality::Chipped };
    let t = t.get_refine();
    assert_eq!(t, Tower::GemTower { typ: GemType::Ruby, quality: GemQuality::Flawed });
    let t = t.get_refine().get_refine().get_refine();
    assert_eq!(t, Tower::GemTower { typ: GemType::Ruby, quality: GemQuality::Perfect });
    assert_eq!(Tower::Dirt.get_refine(), Tower::Dirt);
}

#[test]
fn cooldown_table_is_exact() {
    let aqua = Tower::GemTower { typ: GemType::Aquamarine, quality: GemQuality::Perfect };
    assert_eq!(aqua.get_base_cooldown_time(), BASE_TOWER_SPEED_MS / 2);
    let chipped = Tower::GemTower { typ: GemType::Ruby, quality: GemQuality::Chipped };
    assert_eq!(chipped.get_base_cooldown_time(), BASE_TOWER_SPEED_MS - 200);
    let normal = Tower::GemTower { typ: GemType::Ruby, quality: GemQuality::Normal };
    assert_eq!(normal.get_base_cooldown_time(), BASE_TOWER_SPEED_MS);
    assert_eq!(Tower::Dirt.get_base_cooldown_time(), BASE_TOWER_SPEED_MS);
}

#[test]
fn taller_gems_sit_higher() {
    let chipped = Tower::GemTower { typ: GemType::Opal, quality: GemQuality::Chipped };
    let perfect = Tower::GemTower { typ: GemType::Opal, quality: GemQuality::Perfect };
    assert_eq!(chipped.get_y_offset(), 20);
    assert_eq!(perfect.get_y_offset(), 100);
    assert_eq!(Tower::Dirt.get_y_offset(), 0);
}

#[test]
fn tower_names_read_naturally() {
    let t = Tower::GemTower { typ: GemType::Emerald, quality: GemQuality::Chipped };
    assert_eq!(t.name(), "Chipped Emerald");
    let t = Tower::GemTower { typ: GemType::Ruby, quality: GemQuality::Normal };
    assert_eq!(t.name(), "Ruby");
    let t = Tower::GemTower { typ: GemType::Aquamarine, quality: GemQuality::Perfect };
    assert_eq!(t.name(), "Perfect Aquamarine");
    assert_eq!(Tower::Dirt.name(), "Dirt");
}

#[test]
fn hits_descriptions_are_exact() {
    assert_eq!(Hits::Ground.description(), "Ground only");
    assert_eq!(Hits::Flying.description(), "Air only");
    assert_eq!(Hits::All.description(), "Everything");
}

#[test]
fn damage_labels_print_exactly() {
    let s: String = (Damage::Range { min: 4, max: 7 }).label().iter().collect();
    assert_eq!(s, "4-7");
    let s: String = (Damage::Range { min: 140, max: 170 }).label().iter().collect();
    assert_eq!(s, "140-170");
    let s: String = Damage::Fixed(85).label().iter().collect();
    assert_eq!(s, "85");
    let s: String = Damage::Fixed(0).label().iter().collect();
    assert_eq!(s, "0");
}

#[test]
fn fixed_damage_is_deterministic() {
    assert_eq!(Damage::Fixed(85).get_value(), 85);
}

#[test]
fn rolled_damage_stays_in_range() {
    for _ in 0..50 {
        let v = (Damage::Range { min: 4, max: 7 }).get_value();
        assert!((4..=7).contains(&v));
    }
}

#[test]
fn attack_table_rows_are_exact() {
    let a = LaserAttack::from_tower(Tower::GemTower {
        typ: GemType::Emerald,
        quality: GemQuality::Chipped,
    });
    assert_eq!(a.range, 500);
    assert_eq!(a.damage, Damage::Range { min: 4, max: 7 });
    assert_eq!(a.hits, Hits::All);

    let a = LaserAttack::from_tower(Tower::GemTower {
        typ: GemType::Diamond,
        quality: GemQuality::Perfect,
    });
    assert_eq!(a.range, 750);
    assert_eq!(a.damage, Damage::Range { min: 140, max: 150 });
    assert_eq!(a.hits, Hits::Ground);

    let a = LaserAttack::from_tower(Tower::GemTower {
        typ: GemType::Amethyst,
        quality: GemQuality::Flawed,
    });
    assert_eq!(a.range, 1200);
    assert_eq!(a.hits, Hits::Flying);

    let a = LaserAttack::from_tower(Tower::GemTower {
        typ: GemType::Topaz,
        quality: GemQuality::Flawless,
    });
    assert_eq!(a.damage, Damage::Fixed(25));
}

#[test]
fn quality_rolls_follow_the_odds_table() {
    assert_eq!(GemQuality::for_roll(0, 99), GemQuality::Chipped);
    assert_eq!(GemQuality::for_roll(1, 69), GemQuality::Chipped);
    assert_eq!(GemQuality::for_roll(1, 70), GemQuality::Flawed);
    assert_eq!(GemQuality::for_roll(2, 90), GemQuality::Normal);
    assert_eq!(GemQuality::for_roll(4, 95), GemQuality::Flawless);
    assert_eq!(GemQuality::for_roll(7, 9), GemQuality::Chipped);
    assert_eq!(GemQuality::for_roll(8, 0), GemQuality::Flawed);
    assert_eq!(GemQuality::for_roll(8, 99), GemQuality::Perfect);
}

#[test]
fn level_zero_always_grows_chipped() {
    for _ in 0..20 {
        assert_eq!(GemQuality::random_with_modifier(0), GemQuality::Chipped);
    }
}

#[test]
fn high_levels_never_grow_chipped() {
    for _ in 0..20 {
        assert_ne!(GemQuality::random_with_modifier(9), GemQuality::Chipped);
    }
}

#[test]
fn gem_index_covers_all_eight() {
    let all = [
        GemType::Emerald,
        GemType::Ruby,
        GemType::Sapphire,
        GemType::Diamond,
        GemType::Amethyst,
        GemType::Opal,
        GemType::Aquamarine,
        GemType::Topaz,
    ];
    for (i, gem) in all.iter().enumerate() {
        assert_eq!(GemType::from_index(i as u8), *gem);
    }
    // A random draw lands on one of them.
    let drawn = GemType::random();
    assert!(all.contains(&drawn));
}

#[test]
fn cooldown_runs_down_and_winds_up() {
    let tower = Tower::GemTower { typ: GemType::Ruby, quality: GemQuality::Normal };
    let mut cd = Cooldown::for_tower(tower);
    // A fresh tower may fire at once.
    assert!(cd.finished());
    cd.reset();
    assert!(!cd.finished());
    assert_eq!(cd.remaining_ms, BASE_TOWER_SPEED_MS);
    cd.tick(400);
    assert_eq!(cd.remaining_ms, BASE_TOWER_SPEED_MS - 400);
    cd.tick(10_000);
    assert!(cd.finished());
}
