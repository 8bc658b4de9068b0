//! Static descriptions of entities and levels, and the tables that hold them.

use vstd::prelude::*;
use crate::assets::SpriteId;

verus! {

/// Mass of an entity whose descriptor names none, in thousandths.
pub const DEFAULT_MASS: u32 = 1_000;

/// Collision radius of an entity whose descriptor names none.
pub const DEFAULT_COLLISION_RADIUS: u32 = 6_000;

/// Patrol speed of an entity whose descriptor names none, in thousandths of a
/// pixel per frame of a sixtieth of a second.
pub const DEFAULT_SPEED: u32 = 1_000;

/// Patrol range of an entity whose descriptor names none.
pub const DEFAULT_MOVE_RANGE: u32 = 135_000;

/// How an entity behaves once it is placed in a level.
#[derive(Debug, Clone, Copy, PartialEq, Eq, Structural)]
pub enum EntityType {
    /// Fixed position, fixed attributes.
    Basic,
    /// Comes with ranges for its mass and for the ratio of its value.
    RandomEffect,
    /// Walks back and forth within a range.
    MoveAround,
    /// Destroys what is near when it is touched.
    Explosive,
}

/// A horizontal direction of travel.
#[derive(Debug, Clone, Copy, PartialEq, Eq, Structural)]
pub enum Direction {
    Left,
    Right,
}

impl Direction {
    /// `-1` for left, `1` for right.
    pub open spec fn sign(self) -> int {
        match self {
            Direction::Left => -1,
            Direction::Right => 1,
        }
    }

    /// The other direction.
    pub open spec fn flipped(self) -> Direction {
        match self {
            Direction::Left => Direction::Right,
            Direction::Right => Direction::Left,
        }
    }

    /// Turns around.
    pub fn flip(self) -> (d: Direction)
        ensures
            d == self.flipped(),
            d.sign() == -self.sign(),
    {
        match self {
            Direction::Left => Direction::Right,
            Direction::Right => Direction::Left,
        }
    }
}

/// The class of a payout, which only selects the sound that goes with it.
#[derive(Debug, Clone, Copy, PartialEq, Eq, Structural)]
pub enum BonusCategory {
    High,
    Normal,
    Low,
}

/// The families of entities that the value multipliers tell apart.
#[derive(Debug, Clone, Copy, PartialEq, Eq, Structural)]
pub enum EntityFamily {
    /// A rock of any size.
    Rock,
    /// A bare diamond.
    Diamond,
    /// A creature that carries a diamond.
    DiamondCarrier,
    /// Anything else.
    Other,
}

/// A place on the screen: origin top left, `y` downwards.
#[derive(Debug, Clone, Copy, PartialEq, Eq, Structural)]
pub struct Position {
    pub x: i32,
    pub y: i32,
}

/// The fixed attributes of one type of entity.
#[derive(Debug, Clone, Copy, PartialEq, Eq)]
pub struct EntityDescriptor {
    pub entity_type: EntityType,
    /// Mass in thousandths; the heavier, the slower the hook returns.
    pub mass: Option<u32>,
    /// Money paid for bringing the entity home.
    pub bonus: Option<i32>,
    pub bonus_type: Option<BonusCategory>,
    pub random_mass_min: Option<u32>,
    pub random_mass_max: Option<u32>,
    pub bonus_base: Option<i32>,
    pub random_bonus_ratio_min: Option<i32>,
    pub random_bonus_ratio_max: Option<i32>,
    /// Probability, in millionths, that a grab pays a side effect and no money.
    pub extra_effect_chances: Option<u32>,
    /// Patrol speed, in thousandths of a pixel per sixtieth of a second.
    pub speed: Option<u32>,
    pub move_range: Option<u32>,
    /// The picture of what is left of an explosive.
    pub destroyed_type: Option<SpriteId>,
    /// Whether what is left of an explosive is grabbed with the small claw.
    pub is_destroyed_tiny: Option<bool>,
    pub collision_radius: Option<u32>,
}

impl EntityDescriptor {
    /// A descriptor is usable when its mass, if it names one, is positive.
    pub open spec fn is_valid(self) -> bool {
        self.mass != Some(0u32)
    }

    pub open spec fn spec_mass(self) -> int {
        match self.mass {
            Some(m) => m as int,
            None => DEFAULT_MASS as int,
        }
    }

    pub open spec fn spec_bonus(self) -> int {
        match self.bonus {
            Some(b) => b as int,
            None => 0,
        }
    }

    pub open spec fn spec_category(self) -> BonusCategory {
        match self.bonus_type {
            Some(c) => c,
            None => BonusCategory::Normal,
        }
    }

    pub open spec fn spec_chance(self) -> int {
        match self.extra_effect_chances {
            Some(c) => c as int,
            None => 0,
        }
    }

    pub open spec fn spec_speed(self) -> int {
        match self.speed {
            Some(s) => s as int,
            None => DEFAULT_SPEED as int,
        }
    }

    pub open spec fn spec_move_range(self) -> int {
        match self.move_range {
            Some(r) => r as int,
            None => DEFAULT_MOVE_RANGE as int,
        }
    }

    pub open spec fn spec_radius(self) -> int {
        match self.collision_radius {
            Some(r) => r as int,
            None => DEFAULT_COLLISION_RADIUS as int,
        }
    }

    /// A descriptor of the given type with every optional attribute left out.
    pub fn new(entity_type: EntityType) -> (d: EntityDescriptor)
        ensures
            d.entity_type == entity_type,
            d.mass.is_none(),
            d.bonus.is_none(),
            d.bonus_type.is_none(),
            d.random_mass_min.is_none(),
            d.random_mass_max.is_none(),
            d.bonus_base.is_none(),
            d.random_bonus_ratio_min.is_none(),
            d.random_bonus_ratio_max.is_none(),
            d.extra_effect_chances.is_none(),
            d.speed.is_none(),
            d.move_range.is_none(),
            d.destroyed_type.is_none(),
            d.is_destroyed_tiny.is_none(),
            d.collision_radius.is_none(),
            d.is_valid(),
    {
        EntityDescriptor {
            entity_type,
            mass: None,
            bonus: None,
            bonus_type: None,
            random_mass_min: None,
            random_mass_max: None,
            bonus_base: None,
            random_bonus_ratio_min: None,
            random_bonus_ratio_max: None,
            extra_effect_chances: None,
            speed: None,
            move_range: None,
            destroyed_type: None,
            is_destroyed_tiny: None,
            collision_radius: None,
        }
    }

    /// Tells whether the descriptor is usable.
    pub fn check(&self) -> (ok: bool)
        ensures
            ok == self.is_valid(),
    {
        match self.mass {
            Some(m) => m != 0,
            None => true,
        }
    }

    /// The mass, or the default where none is named.
    pub fn mass_or_default(&self) -> (m: u32)
        ensures
            m == self.spec_mass(),
    {
        match self.mass {
            Some(m) => m,
            None => DEFAULT_MASS,
        }
    }

    /// The payout, or zero where none is named.
    pub fn bonus_or_default(&self) -> (b: i32)
        ensures
            b == self.spec_bonus(),
    {
        match self.bonus {
            Some(b) => b,
            None => 0,
        }
    }

    /// The payout class, or `Normal` where none is named.
    pub fn category_or_default(&self) -> (c: BonusCategory)
        ensures
            c == self.spec_category(),
    {
        match self.bonus_type {
            Some(c) => c,
            None => BonusCategory::Normal,
        }
    }

    /// The side-effect probability, or zero where none is named.
    pub fn chance_or_default(&self) -> (c: u32)
        ensures
            c == self.spec_chance(),
    {
        match self.extra_effect_chances {
            Some(c) => c,
            None => 0,
        }
    }

    /// The patrol speed, or the default where none is named.
    pub fn speed_or_default(&self) -> (s: u32)
        ensures
            s == self.spec_speed(),
    {
        match self.speed {
            Some(s) => s,
            None => DEFAULT_SPEED,
        }
    }

    /// The patrol range, or the default where none is named.
    pub fn move_range_or_default(&self) -> (r: u32)
        ensures
            r == self.spec_move_range(),
    {
        match self.move_range {
            Some(r) => r,
            None => DEFAULT_MOVE_RANGE,
        }
    }

    /// The collision radius, or the default where none is named.
    pub fn radius_or_default(&self) -> (r: u32)
        ensures
            r == self.spec_radius(),
    {
        match self.collision_radius {
            Some(r) => r,
            None => DEFAULT_COLLISION_RADIUS,
        }
    }
}

/// One entity placed in a level.
#[derive(Debug, Clone)]
pub struct LevelEntity {
    /// The key of its descriptor in the entity table.
    pub entity_id: String,
    pub pos: Position,
    /// Where a patrolling entity heads first.
    pub dir: Option<Direction>,
}

/// One level: the background it uses and what is placed in it.
#[derive(Debug, Clone)]
pub struct LevelDescriptor {
    pub level_type: String,
    pub entities: Vec<LevelEntity>,
}

/// A descriptor under its key.
#[derive(Debug, Clone)]
pub struct NamedDescriptor {
    pub name: String,
    pub descriptor: EntityDescriptor,
}

/// A level under its key.
#[derive(Debug, Clone)]
pub struct NamedLevel {
    pub name: String,
    pub level: LevelDescriptor,
}

/// The entity table: descriptors under their keys, in the order they were given.
/// Where a key occurs twice, the first entry counts.
#[derive(Debug, Clone)]
pub struct EntitiesConfig {
    pub entities: Vec<NamedDescriptor>,
}

/// The level table: levels under their keys, in the order they were given.
/// Where a key occurs twice, the first entry counts.
#[derive(Debug, Clone)]
pub struct LevelsConfig {
    pub levels: Vec<NamedLevel>,
}

/// Compares two strings character by character, as `str`'s `==` does.
#[verifier::external_body]
pub(crate) fn str_eq(a: &str, b: &str) -> (same: bool)
    ensures
        same == (a@ == b@),
{
    a == b
}

impl EntitiesConfig {
    /// Entry `i` is the first one under the key `id`.
    pub open spec fn is_first(self, i: int, id: Seq<char>) -> bool {
        &&& 0 <= i < self.entities@.len()
        &&& self.entities@[i].name@ == id
        &&& forall|j: int| 0 <= j < i ==> (#[trigger] self.entities@[j]).name@ != id
    }

    /// Whether any entry has the key `id`.
    pub open spec fn contains(self, id: Seq<char>) -> bool {
        exists|i: int| 0 <= i < self.entities@.len() && (#[trigger] self.entities@[i]).name@ == id
    }

    /// The index of the first entry under the key `id`.
    pub fn find(&self, id: &str) -> (found: Option<usize>)
        ensures
            match found {
                Some(i) => self.is_first(i as int, id@),
                None => !self.contains(id@),
            },
    {
        let mut i: usize = 0;
        while i < self.entities.len()
            invariant
                i <= self.entities@.len(),
                forall|j: int| 0 <= j < i ==> (#[trigger] self.entities@[j]).name@ != id@,
            decreases self.entities@.len() - i,
        {
            if str_eq(self.entities[i].name.as_str(), id) {
                return Some(i);
            }
            i += 1;
        }
        None
    }

    /// The descriptor under the key `id`.
    pub fn get(&self, id: &str) -> (found: Option<EntityDescriptor>)
        ensures
            match found {
                Some(d) => exists|i: int| self.is_first(i, id@) && d == self.entities@[i].descriptor,
                None => !self.contains(id@),
            },
    {
        match self.find(id) {
            Some(i) => {
                assert(self.is_first(i as int, id@));
                Some(self.entities[i].descriptor)
            },
            None => None,
        }
    }
}

impl LevelsConfig {
    /// Entry `i` is the first one under the key `id`.
    pub open spec fn is_first(self, i: int, id: Seq<char>) -> bool {
        &&& 0 <= i < self.levels@.len()
        &&& self.levels@[i].name@ == id
        &&& forall|j: int| 0 <= j < i ==> (#[trigger] self.levels@[j]).name@ != id
    }

    /// Whether any entry has the key `id`.
    pub open spec fn contains(self, id: Seq<char>) -> bool {
        exists|i: int| 0 <= i < self.levels@.len() && (#[trigger] self.levels@[i]).name@ == id
    }

    /// The index of the first level under the key `id`.
    pub fn find(&self, id: &str) -> (found: Option<usize>)
        ensures
            match found {
                Some(i) => self.is_first(i as int, id@),
                None => !self.contains(id@),
            },
    {
        let mut i: usize = 0;
        while i < self.levels.len()
            invariant
                i <= self.levels@.len(),
                forall|j: int| 0 <= j < i ==> (#[trigger] self.levels@[j]).name@ != id@,
            decreases self.levels@.len() - i,
        {
            if str_eq(self.levels[i].name.as_str(), id) {
                return Some(i);
            }
            i += 1;
        }
        None
    }
}

/// The family that the key of an entity puts it in.
pub open spec fn spec_family_of(id: Seq<char>) -> EntityFamily {
    if id == "MiniRock"@ || id == "NormalRock"@ || id == "BigRock"@ {
        EntityFamily::Rock
    } else if id == "Diamond"@ {
        EntityFamily::Diamond
    } else if id == "MoleWithDiamond"@ {
        EntityFamily::DiamondCarrier
    } else {
        EntityFamily::Other
    }
}

/// The family that the key of an entity puts it in.
pub fn family_of(id: &str) -> (family: EntityFamily)
    ensures
        family == spec_family_of(id@),
{
    if str_eq(id, "MiniRock") || str_eq(id, "NormalRock") || str_eq(id, "BigRock") {
        EntityFamily::Rock
    } else if str_eq(id, "Diamond") {
        EntityFamily::Diamond
    } else if str_eq(id, "MoleWithDiamond") {
        EntityFamily::DiamondCarrier
    } else {
        EntityFamily::Other
    }
}

/// The payout class that a name stands for.
pub open spec fn spec_category_of(name: Seq<char>) -> Option<BonusCategory> {
    if name == "High"@ {
        Some(BonusCategory::High)
    } else if name == "Normal"@ {
        Some(BonusCategory::Normal)
    } else if name == "Low"@ {
        Some(BonusCategory::Low)
    } else {
        None
    }
}

impl BonusCategory {
    /// Reads a payout class from its name; any other text is no class.
    pub fn from_name(name: &str) -> (category: Option<BonusCategory>)
        ensures
            category == spec_category_of(name@),
    {
        if str_eq(name, "High") {
            Some(BonusCategory::High)
        } else if str_eq(name, "Normal") {
            Some(BonusCategory::Normal)
        } else if str_eq(name, "Low") {
            Some(BonusCategory::Low)
        } else {
            None
        }
    }

    /// The name of the class.
    pub fn name(&self) -> (name: &'static str)
        ensures
            spec_category_of(name@) == Some(*self),
    {
        proof {
            reveal_strlit("High");
            reveal_strlit("Normal");
            reveal_strlit("Low");
            assert("High"@.len() == 4);
            assert("Normal"@.len() == 6);
            assert("Low"@.len() == 3);
        }
        match self {
            BonusCategory::High => "High",
            BonusCategory::Normal => "Normal",
            BonusCategory::Low => "Low",
        }
    }
}

} // verus!
