//! The entities that are alive in the current level.

use vstd::prelude::*;
use crate::config::{
    family_of, EntitiesConfig, EntityDescriptor, EntityFamily, EntityType, LevelDescriptor,
    LevelEntity, spec_family_of,
};
use crate::entity::{init_patrol_system, PatrolState};
use crate::explosive::{ExplosionFX, ExplosiveState};
use crate::utils::{love_to_bevy_coords, Vec2, VIRTUAL_HEIGHT, VIRTUAL_WIDTH};

verus! {

/// One entity of the current level.
#[derive(Debug, Clone, Copy, PartialEq, Eq)]
pub struct LiveEntity {
    /// Its fixed attributes.
    pub descriptor: EntityDescriptor,
    /// The family that the value multipliers go by.
    pub family: EntityFamily,
    /// Where it is.
    pub pos: Vec2,
    /// Cleared when the entity is destroyed; a destroyed entity keeps its index.
    pub alive: bool,
    /// Present on entities that walk back and forth.
    pub patrol: Option<PatrolState>,
    /// Present on entities that explode.
    pub explosive: Option<ExplosiveState>,
}

impl LiveEntity {
    /// The entity lies in the play field, its descriptor is usable and its
    /// patrol, if it has one, is sound.
    pub open spec fn inv(self) -> bool {
        &&& self.pos.in_range()
        &&& self.descriptor.is_valid()
        &&& self.patrol matches Some(p) ==> p.inv()
    }

    /// The entity that a placement of the given descriptor gives rise to.
    pub open spec fn spec_spawn(descriptor: EntityDescriptor, placement: LevelEntity) -> LiveEntity {
        LiveEntity {
            descriptor,
            family: spec_family_of(placement.entity_id@),
            pos: Vec2 {
                x: (placement.pos.x - VIRTUAL_WIDTH / 2) as i64,
                y: (VIRTUAL_HEIGHT / 2 - placement.pos.y) as i64,
            },
            alive: true,
            patrol: if descriptor.entity_type == EntityType::MoveAround {
                Some(PatrolState::spec_start(descriptor, placement.pos, placement.dir))
            } else {
                None
            },
            explosive: if descriptor.entity_type == EntityType::Explosive {
                Some(ExplosiveState { is_exploding: false, damage_dealt: false })
            } else {
                None
            },
        }
    }

    /// Brings a placed entity to life.
    pub fn spawn(descriptor: EntityDescriptor, placement: &LevelEntity) -> (e: LiveEntity)
        ensures
            e == Self::spec_spawn(descriptor, *placement),
            descriptor.is_valid() ==> e.inv(),
    {
        LiveEntity {
            descriptor,
            family: family_of(placement.entity_id.as_str()),
            pos: love_to_bevy_coords(placement.pos.x, placement.pos.y),
            alive: true,
            patrol: init_patrol_system(&descriptor, placement.pos, placement.dir),
            explosive: match descriptor.entity_type {
                EntityType::Explosive => Some(ExplosiveState::default()),
                _ => None,
            },
        }
    }
}

/// Why a level could not be brought to life.
#[derive(Debug, Clone, Copy, PartialEq, Eq, Structural)]
pub enum LevelError {
    /// The placement at this index names an entity that the table does not hold.
    UnknownEntity(usize),
    /// The placement at this index names an entity whose descriptor is unusable.
    InvalidDescriptor(usize),
}

/// The current level: its entities, each at a fixed index, and the explosions
/// now on the screen.
#[derive(Debug, Clone)]
pub struct Level {
    pub entities: Vec<LiveEntity>,
    pub effects: Vec<ExplosionFX>,
}

impl Level {
    /// Every entity and every explosion is sound.
    pub open spec fn inv(self) -> bool {
        &&& forall|i: int| 0 <= i < self.entities@.len() ==> (#[trigger] self.entities@[i]).inv()
        &&& forall|k: int| 0 <= k < self.effects@.len() ==> (#[trigger] self.effects@[k]).inv()
    }

    /// A level without entities.
    pub fn new() -> (level: Level)
        ensures
            level.entities@.len() == 0,
            level.effects@.len() == 0,
            level.inv(),
    {
        Level { entities: Vec::new(), effects: Vec::new() }
    }

    /// Tells whether every entity and every explosion is sound.
    pub fn check(&self) -> (ok: bool)
        ensures
            ok == self.inv(),
    {
        let mut i: usize = 0;
        while i < self.entities.len()
            invariant
                i <= self.entities@.len(),
                forall|j: int| 0 <= j < i ==> (#[trigger] self.entities@[j]).inv(),
            decreases self.entities@.len() - i,
        {
            let e = &self.entities[i];
            let patrol_ok = match e.patrol {
                Some(p) => p.check(),
                None => true,
            };
            if !(e.pos.check() && e.descriptor.check() && patrol_ok) {
                assert(!self.entities@[i as int].inv());
                return false;
            }
            i += 1;
        }
        let mut k: usize = 0;
        while k < self.effects.len()
            invariant
                k <= self.effects@.len(),
                forall|j: int| 0 <= j < self.entities@.len() ==> (#[trigger] self.entities@[j]).inv(),
                forall|j: int| 0 <= j < k ==> (#[trigger] self.effects@[j]).inv(),
            decreases self.effects@.len() - k,
        {
            if !self.effects[k].check() {
                assert(!self.effects@[k as int].inv());
                return false;
            }
            k += 1;
        }
        true
    }
}

/// Placement `i` can be brought to life: the table holds its entity, under a
/// usable descriptor.
pub open spec fn placeable(config: EntitiesConfig, placement: LevelEntity) -> bool {
    exists|k: int| #[trigger]
        config.is_first(k, placement.entity_id@) && config.entities@[k].descriptor.is_valid()
}

/// The descriptor that the table holds for a placement.
pub open spec fn descriptor_for(config: EntitiesConfig, placement: LevelEntity) -> EntityDescriptor {
    config.entities@[choose|k: int| config.is_first(k, placement.entity_id@)].descriptor
}

/// Brings a level to life: one entity for each placement, in the order of the
/// placements, each with the descriptor that the table holds under its key.
///
/// Fails at the first placement whose key the table does not hold, or whose
/// descriptor is unusable.
pub fn spawn_level(config: &EntitiesConfig, level: &LevelDescriptor) -> (out: Result<
    Level,
    LevelError,
>)
    ensures
        match out {
            Ok(l) => {
                &&& l.inv()
                &&& l.effects@.len() == 0
                &&& l.entities@.len() == level.entities@.len()
                &&& forall|i: int|
                    0 <= i < level.entities@.len() ==> placeable(*config, #[trigger] level.entities@[i])
                        && l.entities@[i] == LiveEntity::spec_spawn(
                        descriptor_for(*config, level.entities@[i]),
                        level.entities@[i],
                    )
            },
            Err(LevelError::UnknownEntity(i)) => {
                &&& i < level.entities@.len()
                &&& !config.contains(level.entities@[i as int].entity_id@)
                &&& forall|j: int| 0 <= j < i ==> placeable(*config, #[trigger] level.entities@[j])
            },
            Err(LevelError::InvalidDescriptor(i)) => {
                &&& i < level.entities@.len()
                &&& config.contains(level.entities@[i as int].entity_id@)
                &&& !descriptor_for(*config, level.entities@[i as int]).is_valid()
                &&& forall|j: int| 0 <= j < i ==> placeable(*config, #[trigger] level.entities@[j])
            },
        },
{
    let mut entities: Vec<LiveEntity> = Vec::new();
    let mut i: usize = 0;
    while i < level.entities.len()
        invariant
            i <= level.entities@.len(),
            entities@.len() == i,
            forall|j: int| 0 <= j < i ==> (#[trigger] entities@[j]).inv(),
            forall|j: int|
                0 <= j < i ==> placeable(*config, #[trigger] level.entities@[j]) && entities@[j]
                    == LiveEntity::spec_spawn(
                    descriptor_for(*config, level.entities@[j]),
                    level.entities@[j],
                ),
        decreases level.entities@.len() - i,
    {
        let placement = &level.entities[i];
        match config.find(placement.entity_id.as_str()) {
            None => {
                return Err(LevelError::UnknownEntity(i));
            },
            Some(k) => {
                proof {
                    lemma_first_is_unique(*config, k as int, placement.entity_id@);
                }
                let descriptor = config.entities[k].descriptor;
                if !descriptor.check() {
                    return Err(LevelError::InvalidDescriptor(i));
                }
                entities.push(LiveEntity::spawn(descriptor, placement));
            },
        }
        i += 1;
    }
    Ok(Level { entities, effects: Vec::new() })
}

/// A key has at most one first entry, so the entry chosen for it is that one.
pub proof fn lemma_first_is_unique(config: EntitiesConfig, k: int, id: Seq<char>)
    requires
        config.is_first(k, id),
    ensures
        config.contains(id),
        (choose|j: int| config.is_first(j, id)) == k,
{
    let j = choose|j: int| config.is_first(j, id);
    assert(config.is_first(j, id));
    if j < k {
        assert(config.entities@[j].name@ != id);
    }
    if k < j {
        assert(config.entities@[k].name@ != id);
    }
}

} // verus!
