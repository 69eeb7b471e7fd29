//! Towers: gems of eight types and five qualities, and the dirt piles they
//! are carved from.
//!
//! The tables here decide everything a tower does: which targets it can hit,
//! how far it reaches, how much damage it rolls, how fast it fires, and which
//! on-hit ability it carries.

use vstd::prelude::*;

verus! {

use crate::rng::{random_in_range, random_u8_below};

/// A tower's firing period at base speed, in milliseconds.
pub const BASE_TOWER_SPEED_MS: u32 = 1000;

/// Which class of creeps an attack can reach.
#[derive(Clone, Copy, Debug, PartialEq, Eq, Structural)]
pub enum Hits {
    Ground,
    Flying,
    All,
}

impl Hits {
    /// The label shown for this target class.
    pub open spec fn spec_description(self) -> Seq<char> {
        match self {
            Hits::Ground => "Ground only"@,
            Hits::Flying => "Air only"@,
            Hits::All => "Everything"@,
        }
    }

    /// The label shown for this target class.
    pub fn description(&self) -> (r: &'static str)
        ensures
            r@ == self.spec_description(),
    {
        match self {
            Hits::Ground => "Ground only",
            Hits::Flying => "Air only",
            Hits::All => "Everything",
        }
    }
}

/// The eight gem types a tower can turn out as.
#[derive(Clone, Copy, Debug, PartialEq, Eq, Structural)]
pub enum GemType {
    Emerald,
    Ruby,
    Sapphire,
    Diamond,
    Amethyst,
    Opal,
    Aquamarine,
    Topaz,
}

impl GemType {
    /// The gem type at `index` in declaration order.
    pub open spec fn spec_from_index(index: u8) -> GemType {
        if index == 0 {
            GemType::Emerald
        } else if index == 1 {
            GemType::Ruby
        } else if index == 2 {
            GemType::Sapphire
        } else if index == 3 {
            GemType::Diamond
        } else if index == 4 {
            GemType::Amethyst
        } else if index == 5 {
            GemType::Opal
        } else if index == 6 {
            GemType::Aquamarine
        } else {
            GemType::Topaz
        }
    }

    /// The gem type at `index` in declaration order.
    pub fn from_index(index: u8) -> (t: GemType)
        requires
            index < 8,
        ensures
            t == Self::spec_from_index(index),
    {
        if index == 0 {
            GemType::Emerald
        } else if index == 1 {
            GemType::Ruby
        } else if index == 2 {
            GemType::Sapphire
        } else if index == 3 {
            GemType::Diamond
        } else if index == 4 {
            GemType::Amethyst
        } else if index == 5 {
            GemType::Opal
        } else if index == 6 {
            GemType::Aquamarine
        } else {
            GemType::Topaz
        }
    }

    /// A gem type drawn at random, each of the eight possible.
    pub fn random() -> (t: GemType)
        ensures
            exists|index: u8| index < 8 && t == Self::spec_from_index(index),
    {
        let index = random_u8_below(8);
        let t = Self::from_index(index);
        proof {
            assert(index < 8 && t == Self::spec_from_index(index));
        }
        t
    }

    /// The gem's name.
    pub open spec fn spec_name(self) -> Seq<char> {
        match self {
            GemType::Emerald => "Emerald"@,
            GemType::Ruby => "Ruby"@,
            GemType::Sapphire => "Sapphire"@,
            GemType::Diamond => "Diamond"@,
            GemType::Amethyst => "Amethyst"@,
            GemType::Opal => "Opal"@,
            GemType::Aquamarine => "Aquamarine"@,
            GemType::Topaz => "Topaz"@,
        }
    }

    /// The gem's name.
    pub fn name(&self) -> (r: &'static str)
        ensures
            r@ == self.spec_name(),
    {
        match self {
            GemType::Emerald => "Emerald",
            GemType::Ruby => "Ruby",
            GemType::Sapphire => "Sapphire",
            GemType::Diamond => "Diamond",
            GemType::Amethyst => "Amethyst",
            GemType::Opal => "Opal",
            GemType::Aquamarine => "Aquamarine",
            GemType::Topaz => "Topaz",
        }
    }
}

/// The five quality tiers of a gem, lowest to highest.
#[derive(Clone, Copy, Debug, PartialEq, Eq, Structural)]
pub enum GemQuality {
    Chipped,
    Flawed,
    Normal,
    Flawless,
    Perfect,
}

impl GemQuality {
    /// The quality that a percent roll yields at the given upgrade level:
    /// higher levels shift the odds toward higher tiers.
    pub open spec fn spec_for_roll(level: u32, roll: u32) -> GemQuality {
        if level == 0 {
            GemQuality::Chipped
        } else if level == 1 {
            if roll <= 69 {
                GemQuality::Chipped
            } else {
                GemQuality::Flawed
            }
        } else if level == 2 {
            if roll <= 59 {
                GemQuality::Chipped
            } else if roll <= 89 {
                GemQuality::Flawed
            } else {
                GemQuality::Normal
            }
        } else if level == 3 {
            if roll <= 49 {
                GemQuality::Chipped
            } else if roll <= 79 {
                GemQuality::Flawed
            } else {
                GemQuality::Normal
            }
        } else if level == 4 {
            if roll <= 39 {
                GemQuality::Chipped
            } else if roll <= 69 {
                GemQuality::Flawed
            } else if roll <= 89 {
                GemQuality::Normal
            } else {
                GemQuality::Flawless
            }
        } else if level == 5 {
            if roll <= 29 {
                GemQuality::Chipped
            } else if roll <= 59 {
                GemQuality::Flawed
            } else if roll <= 89 {
                GemQuality::Normal
            } else {
                GemQuality::Flawless
            }
        } else if level == 6 {
            if roll <= 19 {
                GemQuality::Chipped
            } else if roll <= 49 {
                GemQuality::Flawed
            } else if roll <= 79 {
                GemQuality::Normal
            } else {
                GemQuality::Flawless
            }
        } else if level == 7 {
            if roll <= 9 {
                GemQuality::Chipped
            } else if roll <= 39 {
                GemQuality::Flawed
            } else if roll <= 69 {
                GemQuality::Normal
            } else {
                GemQuality::Flawless
            }
        } else {
            if roll <= 29 {
                GemQuality::Flawed
            } else if roll <= 59 {
                GemQuality::Normal
            } else if roll <= 89 {
                GemQuality::Flawless
            } else {
                GemQuality::Perfect
            }
        }
    }

    /// The quality that the percent roll `roll` yields at `level`.
    pub fn for_roll(level: u32, roll: u32) -> (q: GemQuality)
        requires
            roll < 100,
        ensures
            q == Self::spec_for_roll(level, roll),
    {
        if level == 0 {
            GemQuality::Chipped
        } else if level == 1 {
            if roll <= 69 {
                GemQuality::Chipped
            } else {
                GemQuality::Flawed
            }
        } else if level == 2 {
            if roll <= 59 {
                GemQuality::Chipped
            } else if roll <= 89 {
                GemQuality::Flawed
            } else {
                GemQuality::Normal
            }
        } else if level == 3 {
            if roll <= 49 {
                GemQuality::Chipped
            } else if roll <= 79 {
                GemQuality::Flawed
            } else {
                GemQuality::Normal
            }
        } else if level == 4 {
            if roll <= 39 {
                GemQuality::Chipped
            } else if roll <= 69 {
                GemQuality::Flawed
            } else if roll <= 89 {
                GemQuality::Normal
            } else {
                GemQuality::Flawless
            }
        } else if level == 5 {
            if roll <= 29 {
                GemQuality::Chipped
            } else if roll <= 59 {
                GemQuality::Flawed
            } else if roll <= 89 {
                GemQuality::Normal
            } else {
                GemQuality::Flawless
            }
        } else if level == 6 {
            if roll <= 19 {
                GemQuality::Chipped
            } else if roll <= 49 {
                GemQuality::Flawed
            } else if roll <= 79 {
                GemQuality::Normal
            } else {
                GemQuality::Flawless
            }
        } else if level == 7 {
            if roll <= 9 {
                GemQuality::Chipped
            } else if roll <= 39 {
                GemQuality::Flawed
            } else if roll <= 69 {
                GemQuality::Normal
            } else {
                GemQuality::Flawless
            }
        } else {
            if roll <= 29 {
                GemQuality::Flawed
            } else if roll <= 59 {
                GemQuality::Normal
            } else if roll <= 89 {
                GemQuality::Flawless
            } else {
                GemQuality::Perfect
            }
        }
    }

    /// A quality drawn at random with the odds of the given upgrade level.
    /// At level zero the draw is always `Chipped`; from level eight up it can
    /// be `Perfect`.
    pub fn random_with_modifier(level: u32) -> (q: GemQuality)
        ensures
            exists|roll: u32| roll < 100 && q == Self::spec_for_roll(level, roll),
            level == 0 ==> q == GemQuality::Chipped,
            level >= 8 ==> q != GemQuality::Chipped,
    {
        let roll = random_in_range(0, 99);
        let q = Self::for_roll(level, roll);
        proof {
            assert(roll < 100 && q == Self::spec_for_roll(level, roll));
        }
        q
    }

    /// The quality one refinement step up.
    pub open spec fn spec_refined(self) -> GemQuality
        recommends
            self != GemQuality::Perfect,
    {
        match self {
            GemQuality::Chipped => GemQuality::Flawed,
            GemQuality::Flawed => GemQuality::Normal,
            GemQuality::Normal => GemQuality::Flawless,
            GemQuality::Flawless => GemQuality::Perfect,
            GemQuality::Perfect => GemQuality::Perfect,
        }
    }

    /// The label put in front of a gem's name.
    pub open spec fn spec_prefix(self) -> Seq<char> {
        match self {
            GemQuality::Chipped => "Chipped "@,
            GemQuality::Flawed => "Flawed "@,
            GemQuality::Normal => ""@,
            GemQuality::Flawless => "Flawless "@,
            GemQuality::Perfect => "Perfect "@,
        }
    }

    /// The label put in front of a gem's name.
    pub fn prefix(&self) -> (r: &'static str)
        ensures
            r@ == self.spec_prefix(),
    {
        match self {
            GemQuality::Chipped => "Chipped ",
            GemQuality::Flawed => "Flawed ",
            GemQuality::Normal => "",
            GemQuality::Flawless => "Flawless ",
            GemQuality::Perfect => "Perfect ",
        }
    }
}

/// A placed tower: either a bare dirt pile or a gem of some type and quality.
#[derive(Clone, Copy, Debug, PartialEq, Eq, Structural)]
pub enum Tower {
    GemTower { typ: GemType, quality: GemQuality },
    Dirt,
}

impl Tower {
    /// The tower after one refinement step: a gem rises one quality tier,
    /// dirt stays dirt.
    pub open spec fn spec_refine(self) -> Tower {
        match self {
            Tower::GemTower { typ, quality } => Tower::GemTower {
                typ,
                quality: quality.spec_refined(),
            },
            Tower::Dirt => Tower::Dirt,
        }
    }

    /// Refine the tower one step. A perfect gem cannot be refined further.
    pub fn get_refine(self) -> (r: Tower)
        requires
            !(self matches Tower::GemTower { quality: GemQuality::Perfect, .. }),
        ensures
            r == self.spec_refine(),
    {
        match self {
            Tower::GemTower { typ, quality } => Tower::GemTower {
                typ,
                quality: match quality {
                    GemQuality::Chipped => GemQuality::Flawed,
                    GemQuality::Flawed => GemQuality::Normal,
                    GemQuality::Normal => GemQuality::Flawless,
                    GemQuality::Flawless => GemQuality::Perfect,
                    GemQuality::Perfect => GemQuality::Perfect,
                },
            },
            Tower::Dirt => self,
        }
    }

    /// The tower's firing period in milliseconds: aquamarine fires at double
    /// speed, other chipped gems slightly faster than base.
    pub open spec fn spec_base_cooldown_ms(self) -> u32 {
        match self {
            Tower::GemTower { typ, quality } => {
                if typ == GemType::Aquamarine {
                    (BASE_TOWER_SPEED_MS / 2) as u32
                } else if quality == GemQuality::Chipped {
                    (BASE_TOWER_SPEED_MS - 200) as u32
                } else {
                    BASE_TOWER_SPEED_MS
                }
            },
            Tower::Dirt => BASE_TOWER_SPEED_MS,
        }
    }

    /// The tower's firing period in milliseconds.
    pub fn get_base_cooldown_time(self) -> (ms: u32)
        ensures
            ms == self.spec_base_cooldown_ms(),
    {
        match self {
            Tower::GemTower { typ, quality } => {
                if matches!(typ, GemType::Aquamarine) {
                    BASE_TOWER_SPEED_MS / 2
                } else if matches!(quality, GemQuality::Chipped) {
                    BASE_TOWER_SPEED_MS - 200
                } else {
                    BASE_TOWER_SPEED_MS
                }
            },
            Tower::Dirt => BASE_TOWER_SPEED_MS,
        }
    }

    /// How high above the ground the tower's model sits, in hundredths of a
    /// map unit: each quality tier stands a little taller.
    pub open spec fn spec_y_offset(self) -> u32 {
        match self {
            Tower::GemTower { quality, .. } => match quality {
                GemQuality::Chipped => 20,
                GemQuality::Flawed => 40,
                GemQuality::Normal => 60,
                GemQuality::Flawless => 80,
                GemQuality::Perfect => 100,
            },
            Tower::Dirt => 0,
        }
    }

    /// How high above the ground the tower's model sits, in hundredths of a
    /// map unit.
    pub fn get_y_offset(self) -> (r: u32)
        ensures
            r == self.spec_y_offset(),
    {
        match self {
            Tower::GemTower { quality, .. } => match quality {
                GemQuality::Chipped => 20,
                GemQuality::Flawed => 40,
                GemQuality::Normal => 60,
                GemQuality::Flawless => 80,
                GemQuality::Perfect => 100,
            },
            Tower::Dirt => 0,
        }
    }

    /// The ability a tower carries: emeralds poison, sapphires chill,
    /// diamonds crit, topazes track several targets, rubies splash, opals
    /// radiate an aura; amethysts, aquamarines and dirt carry none.
    pub open spec fn spec_abilities(self) -> Option<crate::abilities::Ability> {
        match self {
            Tower::GemTower { typ, quality } => match (typ, quality) {
                (GemType::Emerald, GemQuality::Chipped) => Some(
                    crate::abilities::Ability::SlowPoison(
                        crate::abilities::SlowPoisonOnHit { dps: 2, slow: 15, duration_ms: 3000 },
                    ),
                ),
                (GemType::Emerald, GemQuality::Flawed) => Some(
                    crate::abilities::Ability::SlowPoison(
                        crate::abilities::SlowPoisonOnHit { dps: 3, slow: 20, duration_ms: 4000 },
                    ),
                ),
                (GemType::Emerald, GemQuality::Normal) => Some(
                    crate::abilities::Ability::SlowPoison(
                        crate::abilities::SlowPoisonOnHit { dps: 5, slow: 25, duration_ms: 5000 },
                    ),
                ),
                (GemType::Emerald, GemQuality::Flawless) => Some(
                    crate::abilities::Ability::SlowPoison(
                        crate::abilities::SlowPoisonOnHit { dps: 8, slow: 30, duration_ms: 6000 },
                    ),
                ),
                (GemType::Emerald, GemQuality::Perfect) => Some(
                    crate::abilities::Ability::SlowPoison(
                        crate::abilities::SlowPoisonOnHit { dps: 16, slow: 50, duration_ms: 8000 },
                    ),
                ),
                (GemType::Sapphire, q) => Some(
                    crate::abilities::Ability::SapphireSlow(
                        crate::abilities::SapphireSlowOnHit {
                            slow: match q {
                                GemQuality::Chipped => 20,
                                GemQuality::Flawed => 25,
                                GemQuality::Normal => 30,
                                GemQuality::Flawless => 35,
                                GemQuality::Perfect => 40,
                            },
                        },
                    ),
                ),
                (GemType::Diamond, _) => Some(crate::abilities::Ability::Crit),
                (GemType::Topaz, _) => Some(crate::abilities::Ability::MultiTarget),
                (GemType::Ruby, GemQuality::Perfect) => Some(
                    crate::abilities::Ability::Splash(
                        crate::abilities::SplashOnHit { multiplier_percent: 50, range: 350 },
                    ),
                ),
                (GemType::Ruby, _) => Some(
                    crate::abilities::Ability::Splash(
                        crate::abilities::SplashOnHit { multiplier_percent: 50, range: 300 },
                    ),
                ),
                (GemType::Opal, GemQuality::Chipped) => Some(
                    crate::abilities::Ability::OpalAura(
                        crate::abilities::Aura {
                            typ: crate::abilities::AuraType::Opal(10),
                            range: 800,
                        },
                    ),
                ),
                (GemType::Opal, GemQuality::Flawed) => Some(
                    crate::abilities::Ability::OpalAura(
                        crate::abilities::Aura {
                            typ: crate::abilities::AuraType::Opal(15),
                            range: 900,
                        },
                    ),
                ),
                (GemType::Opal, GemQuality::Normal) => Some(
                    crate::abilities::Ability::OpalAura(
                        crate::abilities::Aura {
                            typ: crate::abilities::AuraType::Opal(20),
                            range: 1000,
                        },
                    ),
                ),
                (GemType::Opal, GemQuality::Flawless) => Some(
                    crate::abilities::Ability::OpalAura(
                        crate::abilities::Aura {
                            typ: crate::abilities::AuraType::Opal(25),
                            range: 1100,
                        },
                    ),
                ),
                (GemType::Opal, GemQuality::Perfect) => Some(
                    crate::abilities::Ability::OpalAura(
                        crate::abilities::Aura {
                            typ: crate::abilities::AuraType::Opal(35),
                            range: 1200,
                        },
                    ),
                ),
                _ => None,
            },
            Tower::Dirt => None,
        }
    }

    /// The ability this tower carries, to be attached to it when it is
    /// placed, if it has one.
    pub fn add_abilities(self) -> (r: Option<crate::abilities::Ability>)
        ensures
            r == self.spec_abilities(),
    {
        match self {
            Tower::GemTower { typ, quality } => match (typ, quality) {
                (GemType::Emerald, GemQuality::Chipped) => Some(
                    crate::abilities::Ability::SlowPoison(
                        crate::abilities::SlowPoisonOnHit { dps: 2, slow: 15, duration_ms: 3000 },
                    ),
                ),
                (GemType::Emerald, GemQuality::Flawed) => Some(
                    crate::abilities::Ability::SlowPoison(
                        crate::abilities::SlowPoisonOnHit { dps: 3, slow: 20, duration_ms: 4000 },
                    ),
                ),
                (GemType::Emerald, GemQuality::Normal) => Some(
                    crate::abilities::Ability::SlowPoison(
                        crate::abilities::SlowPoisonOnHit { dps: 5, slow: 25, duration_ms: 5000 },
                    ),
                ),
                (GemType::Emerald, GemQuality::Flawless) => Some(
                    crate::abilities::Ability::SlowPoison(
                        crate::abilities::SlowPoisonOnHit { dps: 8, slow: 30, duration_ms: 6000 },
                    ),
                ),
                (GemType::Emerald, GemQuality::Perfect) => Some(
                    crate::abilities::Ability::SlowPoison(
                        crate::abilities::SlowPoisonOnHit { dps: 16, slow: 50, duration_ms: 8000 },
                    ),
                ),
                (GemType::Sapphire, q) => Some(
                    crate::abilities::Ability::SapphireSlow(
                        crate::abilities::SapphireSlowOnHit {
                            slow: match q {
                                GemQuality::Chipped => 20,
                                GemQuality::Flawed => 25,
                                GemQuality::Normal => 30,
                                GemQuality::Flawless => 35,
                                GemQuality::Perfect => 40,
                            },
                        },
                    ),
                ),
                (GemType::Diamond, _) => Some(crate::abilities::Ability::Crit),
                (GemType::Topaz, _) => Some(crate::abilities::Ability::MultiTarget),
                (GemType::Ruby, GemQuality::Perfect) => Some(
                    crate::abilities::Ability::Splash(
                        crate::abilities::SplashOnHit { multiplier_percent: 50, range: 350 },
                    ),
                ),
                (GemType::Ruby, _) => Some(
                    crate::abilities::Ability::Splash(
                        crate::abilities::SplashOnHit { multiplier_percent: 50, range: 300 },
                    ),
                ),
                (GemType::Opal, GemQuality::Chipped) => Some(
                    crate::abilities::Ability::OpalAura(
                        crate::abilities::Aura {
                            typ: crate::abilities::AuraType::Opal(10),
                            range: 800,
                        },
                    ),
                ),
                (GemType::Opal, GemQuality::Flawed) => Some(
                    crate::abilities::Ability::OpalAura(
                        crate::abilities::Aura {
                            typ: crate::abilities::AuraType::Opal(15),
                            range: 900,
                        },
                    ),
                ),
                (GemType::Opal, GemQuality::Normal) => Some(
                    crate::abilities::Ability::OpalAura(
                        crate::abilities::Aura {
                            typ: crate::abilities::AuraType::Opal(20),
                            range: 1000,
                        },
                    ),
                ),
                (GemType::Opal, GemQuality::Flawless) => Some(
                    crate::abilities::Ability::OpalAura(
                        crate::abilities::Aura {
                            typ: crate::abilities::AuraType::Opal(25),
                            range: 1100,
                        },
                    ),
                ),
                (GemType::Opal, GemQuality::Perfect) => Some(
                    crate::abilities::Ability::OpalAura(
                        crate::abilities::Aura {
                            typ: crate::abilities::AuraType::Opal(35),
                            range: 1200,
                        },
                    ),
                ),
                _ => None,
            },
            Tower::Dirt => None,
        }
    }

    /// The tower's display name: the quality label followed by the gem name,
    /// or just `Dirt`.
    pub open spec fn spec_display_name(self) -> Seq<char> {
        match self {
            Tower::GemTower { typ, quality } => quality.spec_prefix() + typ.spec_name(),
            Tower::Dirt => "Dirt"@,
        }
    }

    /// The tower's display name.
    pub fn name(&self) -> (r: String)
        ensures
            r@ == self.spec_display_name(),
    {
        match self {
            Tower::GemTower { typ, quality } => {
                let mut s = String::from_str(quality.prefix());
                s.append(typ.name());
                s
            },
            Tower::Dirt => String::from_str("Dirt"),
        }
    }
}

/// The damage an attack deals: a fixed value, or a uniform roll from an
/// inclusive range.
#[derive(Clone, Copy, Debug, PartialEq, Eq, Structural)]
pub enum Damage {
    Range { min: u32, max: u32 },
    Fixed(u32),
}

impl Damage {
    /// A damage range never runs backwards.
    pub open spec fn wf(self) -> bool {
        match self {
            Damage::Range { min, max } => min <= max,
            Damage::Fixed(_) => true,
        }
    }

    /// Whether `v` is a value this damage can deal.
    pub open spec fn spec_possible(self, v: u32) -> bool {
        match self {
            Damage::Range { min, max } => min <= v <= max,
            Damage::Fixed(val) => v == val,
        }
    }

    /// The label shown for this damage: a range as `min-max`, a fixed value
    /// as the bare number.
    pub open spec fn spec_label(self) -> Seq<char> {
        match self {
            Damage::Range { min, max } => spec_decimal(min as int) + seq!['-'] + spec_decimal(
                max as int,
            ),
            Damage::Fixed(val) => spec_decimal(val as int),
        }
    }

    /// The label shown for this damage.
    pub fn label(&self) -> (r: Vec<char>)
        ensures
            r@ == self.spec_label(),
    {
        let mut r: Vec<char> = Vec::new();
        match self {
            Damage::Range { min, max } => {
                push_decimal(*min, &mut r);
                r.push('-');
                push_decimal(*max, &mut r);
                proof {
                    assert(r@ =~= self.spec_label());
                }
            },
            Damage::Fixed(val) => {
                push_decimal(*val, &mut r);
                proof {
                    assert(r@ =~= self.spec_label());
                }
            },
        }
        r
    }

    /// One damage roll: the fixed value, or a draw from the range.
    pub fn get_value(self) -> (v: u32)
        requires
            self.wf(),
        ensures
            self.spec_possible(v),
    {
        match self {
            Damage::Range { min, max } => random_in_range(min, max),
            Damage::Fixed(val) => val,
        }
    }
}

/// The digit character for a value below ten.
pub open spec fn spec_digit(d: int) -> char {
    if d == 0 {
        '0'
    } else if d == 1 {
        '1'
    } else if d == 2 {
        '2'
    } else if d == 3 {
        '3'
    } else if d == 4 {
        '4'
    } else if d == 5 {
        '5'
    } else if d == 6 {
        '6'
    } else if d == 7 {
        '7'
    } else if d == 8 {
        '8'
    } else {
        '9'
    }
}

/// The decimal digits of `n`, most significant first.
pub open spec fn spec_decimal(n: int) -> Seq<char>
    recommends
        n >= 0,
    decreases n,
{
    if n < 10 {
        seq![spec_digit(n)]
    } else {
        spec_decimal(n / 10).push(spec_digit(n % 10))
    }
}

/// The digit character for `d`.
fn digit_char(d: u32) -> (c: char)
    requires
        d < 10,
    ensures
        c == spec_digit(d as int),
{
    if d == 0 {
        '0'
    } else if d == 1 {
        '1'
    } else if d == 2 {
        '2'
    } else if d == 3 {
        '3'
    } else if d == 4 {
        '4'
    } else if d == 5 {
        '5'
    } else if d == 6 {
        '6'
    } else if d == 7 {
        '7'
    } else if d == 8 {
        '8'
    } else {
        '9'
    }
}

/// Append the decimal digits of `n` to `s`, most significant first.
fn push_decimal(n: u32, s: &mut Vec<char>)
    ensures
        final(s)@ == old(s)@ + spec_decimal(n as int),
    decreases n,
{
    if n >= 10 {
        push_decimal(n / 10, s);
    }
    s.push(digit_char(n % 10));
    proof {
        if n >= 10 {
            assert(s@ =~= old(s)@ + spec_decimal(n as int));
        } else {
            assert(s@ =~= old(s)@ + spec_decimal(n as int));
        }
    }
}

/// A gem tower's attack: its reach in hundredths of a map unit, the damage
/// it rolls, and the class of creeps it can hit.
#[derive(Clone, Copy, Debug, PartialEq, Eq, Structural)]
pub struct LaserAttack {
    pub range: u32,
    pub damage: Damage,
    pub hits: Hits,
}

impl LaserAttack {
    /// The reach of a gem, in hundredths of a map unit.
    pub open spec fn spec_range_for(typ: GemType, quality: GemQuality) -> u32 {
        match (typ, quality) {
            (GemType::Emerald, GemQuality::Chipped) => 500,
            (GemType::Emerald, GemQuality::Flawed) => 550,
            (GemType::Emerald, GemQuality::Normal) => 600,
            (GemType::Emerald, GemQuality::Flawless) => 700,
            (GemType::Emerald, GemQuality::Perfect) => 700,
            (GemType::Ruby, _) => 800,
            (GemType::Sapphire, GemQuality::Chipped) => 550,
            (GemType::Sapphire, GemQuality::Flawed) => 750,
            (GemType::Sapphire, GemQuality::Normal) => 800,
            (GemType::Sapphire, GemQuality::Flawless) => 850,
            (GemType::Sapphire, GemQuality::Perfect) => 1400,
            (GemType::Diamond, GemQuality::Chipped) => 500,
            (GemType::Diamond, GemQuality::Flawed) => 550,
            (GemType::Diamond, GemQuality::Normal) => 600,
            (GemType::Diamond, GemQuality::Flawless) => 650,
            (GemType::Diamond, GemQuality::Perfect) => 750,
            (GemType::Amethyst, GemQuality::Chipped) => 1000,
            (GemType::Amethyst, GemQuality::Flawed) => 1200,
            (GemType::Amethyst, GemQuality::Normal) => 1300,
            (GemType::Amethyst, GemQuality::Flawless) => 1350,
            (GemType::Amethyst, GemQuality::Perfect) => 1600,
            (GemType::Opal, GemQuality::Chipped) => 600,
            (GemType::Opal, GemQuality::Flawed) => 700,
            (GemType::Opal, GemQuality::Normal) => 800,
            (GemType::Opal, GemQuality::Flawless) => 900,
            (GemType::Opal, GemQuality::Perfect) => 1000,
            (GemType::Aquamarine, GemQuality::Chipped) => 350,
            (GemType::Aquamarine, GemQuality::Flawed) => 365,
            (GemType::Aquamarine, GemQuality::Normal) => 380,
            (GemType::Aquamarine, GemQuality::Flawless) => 400,
            (GemType::Aquamarine, GemQuality::Perfect) => 550,
            (GemType::Topaz, _) => 500,
        }
    }

    /// The damage a gem rolls per attack.
    pub open spec fn spec_damage_for(typ: GemType, quality: GemQuality) -> Damage {
        match (typ, quality) {
            (GemType::Emerald, GemQuality::Chipped) => Damage::Range { min: 4, max: 7 },
            (GemType::Emerald, GemQuality::Flawed) => Damage::Range { min: 10, max: 13 },
            (GemType::Emerald, GemQuality::Normal) => Damage::Range { min: 15, max: 25 },
            (GemType::Emerald, GemQuality::Flawless) => Damage::Range { min: 30, max: 37 },
            (GemType::Emerald, GemQuality::Perfect) => Damage::Range { min: 80, max: 95 },
            (GemType::Ruby, GemQuality::Chipped) => Damage::Range { min: 8, max: 9 },
            (GemType::Ruby, GemQuality::Flawed) => Damage::Range { min: 13, max: 16 },
            (GemType::Ruby, GemQuality::Normal) => Damage::Range { min: 20, max: 25 },
            (GemType::Ruby, GemQuality::Flawless) => Damage::Range { min: 38, max: 45 },
            (GemType::Ruby, GemQuality::Perfect) => Damage::Range { min: 80, max: 100 },
            (GemType::Sapphire, GemQuality::Chipped) => Damage::Range { min: 5, max: 8 },
            (GemType::Sapphire, GemQuality::Flawed) => Damage::Range { min: 10, max: 14 },
            (GemType::Sapphire, GemQuality::Normal) => Damage::Range { min: 16, max: 22 },
            (GemType::Sapphire, GemQuality::Flawless) => Damage::Range { min: 30, max: 40 },
            (GemType::Sapphire, GemQuality::Perfect) => Damage::Range { min: 60, max: 80 },
            (GemType::Diamond, GemQuality::Chipped) => Damage::Range { min: 8, max: 12 },
            (GemType::Diamond, GemQuality::Flawed) => Damage::Range { min: 16, max: 18 },
            (GemType::Diamond, GemQuality::Normal) => Damage::Range { min: 30, max: 37 },
            (GemType::Diamond, GemQuality::Flawless) => Damage::Range { min: 58, max: 65 },
            (GemType::Diamond, GemQuality::Perfect) => Damage::Range { min: 140, max: 150 },
            (GemType::Amethyst, GemQuality::Chipped) => Damage::Range { min: 10, max: 15 },
            (GemType::Amethyst, GemQuality::Flawed) => Damage::Range { min: 20, max: 27 },
            (GemType::Amethyst, GemQuality::Normal) => Damage::Range { min: 30, max: 45 },
            (GemType::Amethyst, GemQuality::Flawless) => Damage::Range { min: 60, max: 80 },
            (GemType::Amethyst, GemQuality::Perfect) => Damage::Range { min: 140, max: 170 },
            (GemType::Opal, GemQuality::Chipped) => Damage::Fixed(5),
            (GemType::Opal, GemQuality::Flawed) => Damage::Fixed(10),
            (GemType::Opal, GemQuality::Normal) => Damage::Fixed(20),
            (GemType::Opal, GemQuality::Flawless) => Damage::Fixed(40),
            (GemType::Opal, GemQuality::Perfect) => Damage::Fixed(85),
            (GemType::Aquamarine, GemQuality::Chipped) => Damage::Range { min: 6, max: 8 },
            (GemType::Aquamarine, GemQuality::Flawed) => Damage::Range { min: 12, max: 15 },
            (GemType::Aquamarine, GemQuality::Normal) => Damage::Range { min: 24, max: 30 },
            (GemType::Aquamarine, GemQuality::Flawless) => Damage::Range { min: 48, max: 55 },
            (GemType::Aquamarine, GemQuality::Perfect) => Damage::Range { min: 100, max: 120 },
            (GemType::Topaz, GemQuality::Chipped) => Damage::Fixed(4),
            (GemType::Topaz, GemQuality::Flawed) => Damage::Fixed(8),
            (GemType::Topaz, GemQuality::Normal) => Damage::Fixed(14),
            (GemType::Topaz, GemQuality::Flawless) => Damage::Fixed(25),
            (GemType::Topaz, GemQuality::Perfect) => Damage::Fixed(75),
        }
    }

    /// The class of creeps a gem can hit: diamonds only ground, amethysts
    /// only air, every other gem both.
    pub open spec fn spec_hits_for(typ: GemType) -> Hits {
        match typ {
            GemType::Diamond => Hits::Ground,
            GemType::Amethyst => Hits::Flying,
            _ => Hits::All,
        }
    }

    /// The attack of a gem tower. Dirt does not attack.
    pub fn from_tower(tower: Tower) -> (r: LaserAttack)
        requires
            tower matches Tower::GemTower { .. },
        ensures
            tower matches Tower::GemTower { typ, quality } ==> {
                &&& r.range == Self::spec_range_for(typ, quality)
                &&& r.damage == Self::spec_damage_for(typ, quality)
                &&& r.hits == Self::spec_hits_for(typ)
            },
            r.damage.wf(),
            r.range <= 1600,
    {
        match tower {
            Tower::GemTower { typ, quality } => LaserAttack {
                range: match (typ, quality) {
                    (GemType::Emerald, GemQuality::Chipped) => 500,
                    (GemType::Emerald, GemQuality::Flawed) => 550,
                    (GemType::Emerald, GemQuality::Normal) => 600,
                    (GemType::Emerald, GemQuality::Flawless) => 700,
                    (GemType::Emerald, GemQuality::Perfect) => 700,
                    (GemType::Ruby, _) => 800,
                    (GemType::Sapphire, GemQuality::Chipped) => 550,
                    (GemType::Sapphire, GemQuality::Flawed) => 750,
                    (GemType::Sapphire, GemQuality::Normal) => 800,
                    (GemType::Sapphire, GemQuality::Flawless) => 850,
                    (GemType::Sapphire, GemQuality::Perfect) => 1400,
                    (GemType::Diamond, GemQuality::Chipped) => 500,
                    (GemType::Diamond, GemQuality::Flawed) => 550,
                    (GemType::Diamond, GemQuality::Normal) => 600,
                    (GemType::Diamond, GemQuality::Flawless) => 650,
                    (GemType::Diamond, GemQuality::Perfect) => 750,
                    (GemType::Amethyst, GemQuality::Chipped) => 1000,
                    (GemType::Amethyst, GemQuality::Flawed) => 1200,
                    (GemType::Amethyst, GemQuality::Normal) => 1300,
                    (GemType::Amethyst, GemQuality::Flawless) => 1350,
                    (GemType::Amethyst, GemQuality::Perfect) => 1600,
                    (GemType::Opal, GemQuality::Chipped) => 600,
                    (GemType::Opal, GemQuality::Flawed) => 700,
                    (GemType::Opal, GemQuality::Normal) => 800,
                    (GemType::Opal, GemQuality::Flawless) => 900,
                    (GemType::Opal, GemQuality::Perfect) => 1000,
                    (GemType::Aquamarine, GemQuality::Chipped) => 350,
                    (GemType::Aquamarine, GemQuality::Flawed) => 365,
                    (GemType::Aquamarine, GemQuality::Normal) => 380,
                    (GemType::Aquamarine, GemQuality::Flawless) => 400,
                    (GemType::Aquamarine, GemQuality::Perfect) => 550,
                    (GemType::Topaz, _) => 500,
                },
                damage: match (typ, quality) {
                    (GemType::Emerald, GemQuality::Chipped) => Damage::Range { min: 4, max: 7 },
                    (GemType::Emerald, GemQuality::Flawed) => Damage::Range { min: 10, max: 13 },
                    (GemType::Emerald, GemQuality::Normal) => Damage::Range { min: 15, max: 25 },
                    (GemType::Emerald, GemQuality::Flawless) => Damage::Range { min: 30, max: 37 },
                    (GemType::Emerald, GemQuality::Perfect) => Damage::Range { min: 80, max: 95 },
                    (GemType::Ruby, GemQuality::Chipped) => Damage::Range { min: 8, max: 9 },
                    (GemType::Ruby, GemQuality::Flawed) => Damage::Range { min: 13, max: 16 },
                    (GemType::Ruby, GemQuality::Normal) => Damage::Range { min: 20, max: 25 },
                    (GemType::Ruby, GemQuality::Flawless) => Damage::Range { min: 38, max: 45 },
                    (GemType::Ruby, GemQuality::Perfect) => Damage::Range { min: 80, max: 100 },
                    (GemType::Sapphire, GemQuality::Chipped) => Damage::Range { min: 5, max: 8 },
                    (GemType::Sapphire, GemQuality::Flawed) => Damage::Range { min: 10, max: 14 },
                    (GemType::Sapphire, GemQuality::Normal) => Damage::Range { min: 16, max: 22 },
                    (GemType::Sapphire, GemQuality::Flawless) => Damage::Range {
                        min: 30,
                        max: 40,
                    },
                    (GemType::Sapphire, GemQuality::Perfect) => Damage::Range { min: 60, max: 80 },
                    (GemType::Diamond, GemQuality::Chipped) => Damage::Range { min: 8, max: 12 },
                    (GemType::Diamond, GemQuality::Flawed) => Damage::Range { min: 16, max: 18 },
                    (GemType::Diamond, GemQuality::Normal) => Damage::Range { min: 30, max: 37 },
                    (GemType::Diamond, GemQuality::Flawless) => Damage::Range { min: 58, max: 65 },
                    (GemType::Diamond, GemQuality::Perfect) => Damage::Range {
                        min: 140,
                        max: 150,
                    },
                    (GemType::Amethyst, GemQuality::Chipped) => Damage::Range { min: 10, max: 15 },
                    (GemType::Amethyst, GemQuality::Flawed) => Damage::Range { min: 20, max: 27 },
                    (GemType::Amethyst, GemQuality::Normal) => Damage::Range { min: 30, max: 45 },
                    (GemType::Amethyst, GemQuality::Flawless) => Damage::Range {
                        min: 60,
                        max: 80,
                    },
                    (GemType::Amethyst, GemQuality::Perfect) => Damage::Range {
                        min: 140,
                        max: 170,
                    },
                    (GemType::Opal, GemQuality::Chipped) => Damage::Fixed(5),
                    (GemType::Opal, GemQuality::Flawed) => Damage::Fixed(10),
                    (GemType::Opal, GemQuality::Normal) => Damage::Fixed(20),
                    (GemType::Opal, GemQuality::Flawless) => Damage::Fixed(40),
                    (GemType::Opal, GemQuality::Perfect) => Damage::Fixed(85),
                    (GemType::Aquamarine, GemQuality::Chipped) => Damage::Range { min: 6, max: 8 },
                    (GemType::Aquamarine, GemQuality::Flawed) => Damage::Range { min: 12, max: 15 },
                    (GemType::Aquamarine, GemQuality::Normal) => Damage::Range { min: 24, max: 30 },
                    (GemType::Aquamarine, GemQuality::Flawless) => Damage::Range {
                        min: 48,
                        max: 55,
                    },
                    (GemType::Aquamarine, GemQuality::Perfect) => Damage::Range {
                        min: 100,
                        max: 120,
                    },
                    (GemType::Topaz, GemQuality::Chipped) => Damage::Fixed(4),
                    (GemType::Topaz, GemQuality::Flawed) => Damage::Fixed(8),
                    (GemType::Topaz, GemQuality::Normal) => Damage::Fixed(14),
                    (GemType::Topaz, GemQuality::Flawless) => Damage::Fixed(25),
                    (GemType::Topaz, GemQuality::Perfect) => Damage::Fixed(75),
                },
                hits: match typ {
                    GemType::Diamond => Hits::Ground,
                    GemType::Amethyst => Hits::Flying,
                    _ => Hits::All,
                },
            },
            Tower::Dirt => LaserAttack { range: 0, damage: Damage::Fixed(0), hits: Hits::All },
        }
    }
}

/// A tower's attack timer: `remaining_ms` runs down to zero, where the tower
/// may fire; firing winds it back up to the tower's period.
#[derive(Clone, Copy, Debug, PartialEq, Eq, Structural)]
pub struct Cooldown {
    pub remaining_ms: u32,
    pub duration_ms: u32,
}

impl Cooldown {
    /// The timer never holds more than a full period.
    pub open spec fn wf(self) -> bool {
        self.remaining_ms <= self.duration_ms
    }

    /// A tower's cooldown, starting ready to fire.
    pub fn for_tower(tower: Tower) -> (c: Cooldown)
        ensures
            c.wf(),
            c.duration_ms == tower.spec_base_cooldown_ms(),
            c.remaining_ms == 0,
    {
        Cooldown { remaining_ms: 0, duration_ms: tower.get_base_cooldown_time() }
    }

    /// Let `delta_ms` milliseconds pass.
    pub fn tick(&mut self, delta_ms: u32)
        ensures
            final(self).duration_ms == old(self).duration_ms,
            final(self).remaining_ms == crate::creeps::sat_sub(old(self).remaining_ms, delta_ms),
            old(self).wf() ==> final(self).wf(),
    {
        self.remaining_ms = if self.remaining_ms >= delta_ms {
            self.remaining_ms - delta_ms
        } else {
            0
        };
    }

    /// Whether the tower may fire.
    pub fn finished(&self) -> (r: bool)
        ensures
            r == (self.remaining_ms == 0),
    {
        self.remaining_ms == 0
    }

    /// Start a full period anew, as after firing.
    pub fn reset(&mut self)
        ensures
            final(self).duration_ms == old(self).duration_ms,
            final(self).remaining_ms == old(self).duration_ms,
            final(self).wf(),
    {
        self.remaining_ms = self.duration_ms;
    }
}

} // verus!
