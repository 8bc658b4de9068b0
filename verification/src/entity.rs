//! Entities that walk back and forth, and the frames they are drawn with.

use vstd::prelude::*;
use crate::config::{Direction, EntityDescriptor, EntityType, Position};
use crate::level::{Level, LiveEntity};
use crate::timer::{Timer, TimerMode};
use crate::utils::{love_to_bevy_coords, Vec2, COORD_LIMIT, VIRTUAL_WIDTH};

verus! {

/// How long a patrolling entity rests at each end of its range, in milliseconds.
pub const PATROL_IDLE_DURATION: u32 = 1_000;

/// Frames per second that patrol speeds are stated for.
pub const FRAMES_PER_SECOND: u64 = 60;

/// The patrol of one entity.
#[derive(Debug, Clone, Copy, PartialEq, Eq, Structural)]
pub struct PatrolState {
    /// Walking, as opposed to resting.
    pub is_moving: bool,
    /// Where it is heading.
    pub direction: Direction,
    /// The `x` at which the current leg ends.
    pub destination_x: i64,
    /// Times the rest at the end of a leg.
    pub idle_timer: Timer,
    /// The length of a leg.
    pub move_range: u32,
}

impl PatrolState {
    /// The `x` at which the current leg began.
    pub open spec fn origin_x(self) -> int {
        self.destination_x - self.direction.sign() * self.move_range
    }

    /// Both ends of the current leg lie in the play field.
    pub open spec fn inv(self) -> bool {
        &&& self.idle_timer.inv()
        &&& -COORD_LIMIT <= self.destination_x <= COORD_LIMIT
        &&& -COORD_LIMIT <= self.origin_x() <= COORD_LIMIT
    }

    /// Tells whether both ends of the current leg lie in the play field.
    pub fn check(&self) -> (ok: bool)
        ensures
            ok == self.inv(),
    {
        let range: i64 = self.move_range as i64;
        let in_field = -COORD_LIMIT <= self.destination_x && self.destination_x <= COORD_LIMIT;
        if !in_field || self.idle_timer.elapsed > self.idle_timer.duration {
            return false;
        }
        let origin: i64 = match self.direction {
            Direction::Left => self.destination_x + range,
            Direction::Right => self.destination_x - range,
        };
        -COORD_LIMIT <= origin && origin <= COORD_LIMIT
    }

    /// The patrol of an entity placed at `pos` on the screen: it walks at once,
    /// in the direction given or else to the right, one range away from where
    /// it stands.
    pub open spec fn spec_start(
        descriptor: EntityDescriptor,
        pos: Position,
        dir: Option<Direction>,
    ) -> PatrolState {
        let current_x = pos.x - VIRTUAL_WIDTH / 2;
        let direction = match dir {
            Some(Direction::Left) => Direction::Left,
            _ => Direction::Right,
        };
        PatrolState {
            is_moving: true,
            direction,
            destination_x: (current_x + direction.sign() * descriptor.spec_move_range()) as i64,
            idle_timer: Timer {
                elapsed: 0,
                duration: PATROL_IDLE_DURATION,
                mode: TimerMode::Once,
                finished: false,
                times_finished_this_tick: 0,
            },
            move_range: descriptor.spec_move_range() as u32,
        }
    }
}

/// How far a patrolling entity of the given speed walks in `dt` milliseconds.
pub open spec fn patrol_distance(speed: int, dt: int) -> int {
    speed * FRAMES_PER_SECOND as int * dt / 1000
}

/// Gives an entity its patrol where its type asks for one.
pub fn init_patrol_system(
    descriptor: &EntityDescriptor,
    pos: Position,
    dir: Option<Direction>,
) -> (patrol: Option<PatrolState>)
    ensures
        patrol == if descriptor.entity_type == EntityType::MoveAround {
            Some(PatrolState::spec_start(*descriptor, pos, dir))
        } else {
            None
        },
        patrol matches Some(p) ==> p.inv(),
{
    match descriptor.entity_type {
        EntityType::MoveAround => {
            let move_range = descriptor.move_range_or_default();
            let current_x = love_to_bevy_coords(pos.x, pos.y).x;
            let direction = match dir {
                Some(Direction::Left) => Direction::Left,
                _ => Direction::Right,
            };
            let destination_x = match direction {
                Direction::Left => current_x - move_range as i64,
                Direction::Right => current_x + move_range as i64,
            };
            Some(
                PatrolState {
                    is_moving: true,
                    direction,
                    destination_x,
                    idle_timer: Timer::new(PATROL_IDLE_DURATION, TimerMode::Once),
                    move_range,
                },
            )
        },
        _ => None,
    }
}

/// A patrolling entity after `dt` milliseconds.
///
/// While it walks, it moves towards the end of its leg at its speed; where it
/// would reach or pass that end it stands exactly on it, turns round, takes the
/// end of the next leg one range away, and begins to rest. While it rests, the
/// time of its rest runs, and it walks again once that time is up. An entity
/// without a patrol is left as it is.
pub open spec fn spec_patrol_step(e: LiveEntity, dt: u32) -> LiveEntity {
    match e.patrol {
        None => e,
        Some(p) => if p.is_moving {
            let x = e.pos.x + p.direction.sign() * patrol_distance(
                e.descriptor.spec_speed(),
                dt as int,
            );
            let arrived = if p.direction == Direction::Right {
                x >= p.destination_x
            } else {
                x <= p.destination_x
            };
            if arrived {
                LiveEntity {
                    pos: Vec2 { x: p.destination_x, y: e.pos.y },
                    patrol: Some(
                        PatrolState {
                            is_moving: false,
                            direction: p.direction.flipped(),
                            destination_x: (p.destination_x - p.direction.sign()
                                * p.move_range) as i64,
                            idle_timer: p.idle_timer.reset_spec(),
                            move_range: p.move_range,
                        },
                    ),
                    ..e
                }
            } else {
                LiveEntity { pos: Vec2 { x: x as i64, y: e.pos.y }, ..e }
            }
        } else {
            LiveEntity {
                patrol: Some(
                    PatrolState {
                        is_moving: p.idle_timer.tick_spec(dt).finished,
                        idle_timer: p.idle_timer.tick_spec(dt),
                        ..p
                    },
                ),
                ..e
            }
        },
    }
}

/// What the patrol does to entity `i` in a tick: a live entity that the hook
/// does not hold takes a patrol step, any other is left as it is.
pub open spec fn spec_patrolled(e: LiveEntity, i: int, grabbed: Option<usize>, dt: u32) -> LiveEntity {
    if e.alive && grabbed != Some(i as usize) {
        spec_patrol_step(e, dt)
    } else {
        e
    }
}

/// Lets `dt` milliseconds pass for one patrolling entity.
pub fn patrol_step(e: &mut LiveEntity, dt: u32)
    requires
        old(e).inv(),
    ensures
        *final(e) == spec_patrol_step(*old(e), dt),
        final(e).inv(),
{
    match e.patrol {
        None => {},
        Some(p) => {
            if p.is_moving {
                let pace: u128 = e.descriptor.speed_or_default() as u128 * FRAMES_PER_SECOND as u128;
                let time: u128 = dt as u128;
                assert(0 <= pace * time <= 257_698_037_700 * 4_294_967_295) by (nonlinear_arith)
                    requires
                        0 <= pace <= 257_698_037_700,
                        0 <= time <= 4_294_967_295,
                ;
                let step: u128 = pace * time / 1000;
                let range: i64 = p.move_range as i64;
                let x: i128 = match p.direction {
                    Direction::Right => e.pos.x as i128 + step as i128,
                    Direction::Left => e.pos.x as i128 - step as i128,
                };
                let arrived = match p.direction {
                    Direction::Right => x >= p.destination_x as i128,
                    Direction::Left => x <= p.destination_x as i128,
                };
                if arrived {
                    let mut timer = p.idle_timer;
                    timer.reset();
                    e.pos.x = p.destination_x;
                    e.patrol = Some(
                        PatrolState {
                            is_moving: false,
                            direction: p.direction.flip(),
                            destination_x: match p.direction {
                                Direction::Right => p.destination_x - range,
                                Direction::Left => p.destination_x + range,
                            },
                            idle_timer: timer,
                            move_range: p.move_range,
                        },
                    );
                } else {
                    e.pos.x = x as i64;
                }
            } else {
                let mut timer = p.idle_timer;
                timer.tick(dt);
                e.patrol = Some(
                    PatrolState {
                        is_moving: timer.is_finished(),
                        direction: p.direction,
                        destination_x: p.destination_x,
                        idle_timer: timer,
                        move_range: p.move_range,
                    },
                );
            }
        },
    }
}

/// Lets `dt` milliseconds pass for every patrolling entity but the one that
/// the hook holds, which stays exactly as it is.
pub fn patrol_movement_system(level: &mut Level, grabbed: Option<usize>, dt: u32)
    requires
        old(level).inv(),
    ensures
        final(level).entities@.len() == old(level).entities@.len(),
        forall|i: int|
            0 <= i < old(level).entities@.len() ==> #[trigger] final(level).entities@[i]
                == spec_patrolled(old(level).entities@[i], i, grabbed, dt),
        grabbed matches Some(g) ==> g < old(level).entities@.len() ==> final(level).entities@[g as int]
            == old(level).entities@[g as int],
        final(level).effects@ == old(level).effects@,
        final(level).inv(),
{
    let mut i: usize = 0;
    while i < level.entities.len()
        invariant
            i <= level.entities@.len(),
            level.entities@.len() == old(level).entities@.len(),
            level.effects@ == old(level).effects@,
            level.inv(),
            forall|j: int|
                0 <= j < i ==> #[trigger] level.entities@[j] == spec_patrolled(
                    old(level).entities@[j],
                    j,
                    grabbed,
                    dt,
                ),
            forall|j: int| i <= j < level.entities@.len() ==> #[trigger] level.entities@[j] == old(
                level,
            ).entities@[j],
        decreases level.entities@.len() - i,
    {
        let held = match grabbed {
            Some(g) => g == i,
            None => false,
        };
        if level.entities[i].alive && !held {
            let mut e = level.entities[i];
            patrol_step(&mut e, dt);
            level.entities[i] = e;
        }
        i += 1;
    }
}

/// Whatever the patrol does in a tick, the entity that the hook holds is
/// where it was.
pub proof fn lemma_grabbed_entity_is_not_patrolled(e: LiveEntity, i: int, dt: u32)
    requires
        0 <= i <= usize::MAX,
    ensures
        spec_patrolled(e, i, Some(i as usize), dt) == e,
{
}

/// Whether a patrolling entity is drawn resting or walking.
#[derive(Debug, Clone, Copy, PartialEq, Eq, Hash, Structural)]
pub enum EntityAnimationState {
    Idle,
    Move,
}

impl Default for EntityAnimationState {
    fn default() -> (s: EntityAnimationState)
        ensures
            s == EntityAnimationState::Idle,
    {
        EntityAnimationState::Idle
    }
}

/// The animation of a patrolling entity.
#[derive(Debug, Clone)]
pub struct EntityAnimation {
    /// Times the frames.
    pub timer: Timer,
    /// The place of the frame now shown in the frames of the state.
    pub current_frame: usize,
    pub state: EntityAnimationState,
    /// The frames of the sprite sheet shown while resting.
    pub idle_frames: Vec<usize>,
    /// The frames of the sprite sheet shown while walking.
    pub move_frames: Vec<usize>,
}

impl EntityAnimation {
    /// The timer is sound and the place of the frame can be counted on from.
    pub open spec fn inv(self) -> bool {
        &&& self.timer.inv()
        &&& self.current_frame < usize::MAX
    }

    /// Tells whether the timer is sound and the frame can be counted on from.
    pub fn check(&self) -> (ok: bool)
        ensures
            ok == self.inv(),
    {
        self.timer.check() && self.current_frame < usize::MAX
    }

    /// The frames of the state that the entity is in.
    pub open spec fn spec_frames(self) -> Seq<usize> {
        match self.state {
            EntityAnimationState::Idle => self.idle_frames@,
            EntityAnimationState::Move => self.move_frames@,
        }
    }

    /// Whether `delta` more milliseconds bring the next frame: the time of the
    /// current frame comes to an end and the state has frames.
    pub open spec fn spec_advances(self, delta: u32) -> bool {
        self.timer.tick_spec(delta).times_finished_this_tick > 0 && self.spec_frames().len() > 0
    }

    /// The place of the frame shown after `delta` more milliseconds: the next
    /// one, and after the last the first, where the animation moves on.
    pub open spec fn spec_next_frame(self, delta: u32) -> int {
        if self.spec_advances(delta) {
            (self.current_frame + 1) % (self.spec_frames().len() as int)
        } else {
            self.current_frame as int
        }
    }

    /// The animation of an entity that walks, with frames of `frame_duration`
    /// milliseconds.
    pub fn new(frame_duration: u32, idle_frames: Vec<usize>, move_frames: Vec<usize>) -> (a:
        EntityAnimation)
        ensures
            a.timer == (Timer {
                elapsed: 0,
                duration: frame_duration,
                mode: TimerMode::Repeating,
                finished: false,
                times_finished_this_tick: 0,
            }),
            a.current_frame == 0,
            a.state == EntityAnimationState::Move,
            a.idle_frames == idle_frames,
            a.move_frames == move_frames,
            a.inv(),
    {
        EntityAnimation {
            timer: Timer::new(frame_duration, TimerMode::Repeating),
            current_frame: 0,
            state: EntityAnimationState::Move,
            idle_frames,
            move_frames,
        }
    }

    /// Changes between resting and walking. A change starts the state at its
    /// first frame, which is the frame to draw if the state has any.
    pub fn set_state(&mut self, state: EntityAnimationState) -> (draw: Option<usize>)
        ensures
            final(self).state == state,
            final(self).timer == old(self).timer,
            final(self).idle_frames == old(self).idle_frames,
            final(self).move_frames == old(self).move_frames,
            final(self).current_frame == if old(self).state == state {
                old(self).current_frame
            } else {
                0
            },
            draw == if old(self).state != state && final(self).spec_frames().len() > 0 {
                Some(final(self).spec_frames()[0])
            } else {
                None
            },
            old(self).inv() ==> final(self).inv(),
    {
        if self.state != state {
            self.state = state;
            self.current_frame = 0;
            match state {
                EntityAnimationState::Idle => if self.idle_frames.len() > 0 {
                    Some(self.idle_frames[0])
                } else {
                    None
                },
                EntityAnimationState::Move => if self.move_frames.len() > 0 {
                    Some(self.move_frames[0])
                } else {
                    None
                },
            }
        } else {
            None
        }
    }
}

/// Lets `delta` milliseconds pass for the animation of an entity, and tells
/// which frame of the sprite sheet to draw if the animation moved on.
pub fn entity_animation_system(anim: &mut EntityAnimation, delta: u32) -> (draw: Option<usize>)
    requires
        old(anim).inv(),
    ensures
        final(anim).timer == old(anim).timer.tick_spec(delta),
        final(anim).state == old(anim).state,
        final(anim).idle_frames == old(anim).idle_frames,
        final(anim).move_frames == old(anim).move_frames,
        final(anim).current_frame == old(anim).spec_next_frame(delta),
        draw == if old(anim).spec_advances(delta) {
            Some(old(anim).spec_frames()[old(anim).spec_next_frame(delta)])
        } else {
            None
        },
        final(anim).inv(),
{
    anim.timer.tick(delta);
    if anim.timer.just_finished() {
        let len = match anim.state {
            EntityAnimationState::Idle => anim.idle_frames.len(),
            EntityAnimationState::Move => anim.move_frames.len(),
        };
        if len > 0 {
            anim.current_frame = (anim.current_frame + 1) % len;
            let at = anim.current_frame;
            return Some(
                match anim.state {
                    EntityAnimationState::Idle => anim.idle_frames[at],
                    EntityAnimationState::Move => anim.move_frames[at],
                },
            );
        }
    }
    None
}

} // verus!
