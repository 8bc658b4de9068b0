//! The hook: it sweeps while idle, extends along its aim until it grabs
//! something or can go no further, and comes back at a speed that depends on
//! what it carries.

use vstd::prelude::*;
use crate::animation::PlayerAnimationState;
use crate::audio::AudioId;
use crate::config::DEFAULT_MASS;
use crate::explosive::{ExplosionFX, ExplosiveState};
use crate::level::{Level, LiveEntity};
use crate::player::{PlayerResource, DYNAMITE_THROW_DURATION};
use crate::utils::{spec_within, within, Vec2};

verus! {

/// The leftmost angle of the sweep.
pub const HOOK_MIN_ANGLE: i64 = -75_000;

/// The rightmost angle of the sweep.
pub const HOOK_MAX_ANGLE: i64 = 75_000;

/// How fast the idle hook turns, in degrees per second.
pub const HOOK_ROTATE_SPEED: i64 = 65;

/// How far the hook can extend.
pub const HOOK_MAX_LENGTH: i64 = 460_000;

/// How fast the hook extends, and comes back when it carries nothing and the
/// player has a strength of one, in pixels per second.
pub const HOOK_GRAB_SPEED: i64 = 100;

/// The radius of the claw.
pub const HOOK_COLLISION_RADIUS: i64 = 6_000;

/// How far ahead of the tip the centre of the claw lies.
pub const HOOK_COLLISION_OFFSET: i64 = 13_000;

/// How long a payout is shown, in milliseconds.
pub const BONUS_DISPLAY_DURATION: u32 = 1_000;

/// Where the rope is fastened.
pub const HOOK_BASE_X: i64 = -2_000;

/// Where the rope is fastened.
pub const HOOK_BASE_Y: i64 = 90_000;

/// The length of the aim vector: an aim of this much along an axis points
/// straight along it.
pub const AIM_UNIT: i64 = 1_000_000;

/// Half the width of the play field.
pub const FIELD_HALF_WIDTH: i64 = 160_000;

/// Half the height of the play field.
pub const FIELD_HALF_HEIGHT: i64 = 120_000;

/// The frame of the empty claw.
pub const HOOK_ANIM_IDLE: usize = 0;

/// The frame of the claw around something large.
pub const HOOK_ANIM_GRAB_NORMAL: usize = 1;

/// The frame of the claw around something small.
pub const HOOK_ANIM_GRAB_MINI: usize = 2;

/// Below this mass an entity counts as small.
pub const TINY_MASS_LIMIT: u32 = 2_000;

/// What the hook is doing.
#[derive(Debug, Clone, Copy, PartialEq, Eq, Structural)]
pub enum HookState {
    /// Sweeping from side to side.
    Idle,
    /// Going out along the aim.
    Extending,
    /// Coming back.
    Retracting,
    /// Back home with something, whose payout is being shown.
    BonusDisplay,
}

/// The direction in which the hook goes out: the unit vector of its angle,
/// scaled to `AIM_UNIT`.
#[derive(Debug, Clone, Copy, PartialEq, Eq, Structural)]
pub struct Aim {
    pub x: i64,
    pub y: i64,
}

impl Aim {
    /// Neither component is longer than the unit.
    pub open spec fn inv(self) -> bool {
        &&& -AIM_UNIT <= self.x <= AIM_UNIT
        &&& -AIM_UNIT <= self.y <= AIM_UNIT
    }

    /// An aim from its components, if neither is longer than the unit.
    pub fn new(x: i64, y: i64) -> (aim: Option<Aim>)
        ensures
            aim == if (Aim { x, y }).inv() {
                Some(Aim { x, y })
            } else {
                None
            },
    {
        if -AIM_UNIT <= x && x <= AIM_UNIT && -AIM_UNIT <= y && y <= AIM_UNIT {
            Some(Aim { x, y })
        } else {
            None
        }
    }
}

/// The hook.
#[derive(Debug, Clone, Copy, PartialEq, Eq)]
pub struct Hook {
    /// How far the tip is from the base.
    pub length: i64,
    /// The angle of the sweep; zero is straight down.
    pub angle: i64,
    /// The sweep is heading for the rightmost angle.
    pub rotate_right: bool,
    pub state: HookState,
    /// The direction taken when the hook was last fired.
    pub aim: Aim,
    /// The index of the entity in the claw.
    pub grabbed_entity: Option<usize>,
    /// What is left of the payout's display, in milliseconds.
    pub bonus_timer: u32,
    /// Set once the payout of the current grab has been made.
    pub bonus_resolved: bool,
    /// The money paid for the current grab.
    pub current_bonus: i64,
    /// Set while the current grab has paid a gain in strength.
    pub show_strength: bool,
    /// The frame with which the claw is drawn.
    pub frame: usize,
}

/// What a tick of the hook asks the outside for.
#[derive(Debug, Clone, Copy, PartialEq, Eq)]
pub struct HookOutcome {
    /// The sound to play.
    pub cue: Option<AudioId>,
    /// What the miner is to be shown doing.
    pub player_anim: Option<PlayerAnimationState>,
}

/// How far along one axis a point lies that is `distance` away in the
/// direction whose component along that axis is `component`, rounded towards
/// zero.
pub open spec fn spec_along(component: int, distance: int) -> int {
    if component >= 0 {
        component * distance / (AIM_UNIT as int)
    } else {
        -((-component) * distance / (AIM_UNIT as int))
    }
}

/// The point `length` away from the base in the direction `aim`.
pub open spec fn spec_tip(aim: Aim, length: int) -> Vec2 {
    Vec2 {
        x: (HOOK_BASE_X + spec_along(aim.x as int, length)) as i64,
        y: (HOOK_BASE_Y + spec_along(aim.y as int, length)) as i64,
    }
}

/// The centre of the claw when the hook is `length` long: a fixed distance
/// ahead of the tip.
pub open spec fn spec_collision_point(aim: Aim, length: int) -> Vec2 {
    spec_tip(aim, length + HOOK_COLLISION_OFFSET)
}

/// The point lies outside the play field.
pub open spec fn spec_out_of_bounds(p: Vec2) -> bool {
    p.x < -FIELD_HALF_WIDTH || p.x > FIELD_HALF_WIDTH || p.y < -FIELD_HALF_HEIGHT || p.y
        > FIELD_HALF_HEIGHT
}

/// A claw centred at `point` takes hold of the entity: the entity is alive and
/// its centre is closer than the two radii together.
pub open spec fn spec_grabs(point: Vec2, e: LiveEntity) -> bool {
    e.alive && spec_within(point, e.pos, HOOK_COLLISION_RADIUS + e.descriptor.spec_radius())
}

/// Entity `i` is the one at the lowest index that a claw centred at `point`
/// takes hold of.
pub open spec fn is_first_grab(entities: Seq<LiveEntity>, point: Vec2, i: int) -> bool {
    &&& 0 <= i < entities.len()
    &&& spec_grabs(point, entities[i])
    &&& forall|j: int| 0 <= j < i ==> !spec_grabs(point, #[trigger] entities[j])
}

/// The entity that a claw centred at `point` takes hold of: of all that it
/// touches, the one at the lowest index.
pub open spec fn spec_first_grab(entities: Seq<LiveEntity>, point: Vec2) -> Option<usize> {
    if exists|i: int| is_first_grab(entities, point, i) {
        Some((choose|i: int| is_first_grab(entities, point, i)) as usize)
    } else {
        None
    }
}

/// The entities after the claw has taken hold of entity `hit`: an explosive
/// is set off, anything else is left as it is.
pub open spec fn spec_set_off(entities: Seq<LiveEntity>, hit: Option<usize>) -> Seq<LiveEntity> {
    match hit {
        Some(i) if i < entities.len() => match entities[i as int].explosive {
            Some(s) => entities.update(
                i as int,
                LiveEntity {
                    explosive: Some(ExplosiveState { is_exploding: true, ..s }),
                    ..entities[i as int]
                },
            ),
            None => entities,
        },
        _ => entities,
    }
}

/// The entities after the claw, centred at `point`, has pulled along what it
/// holds: a live entity in the claw is at `point`, everything else is where it
/// was.
pub open spec fn spec_drag(entities: Seq<LiveEntity>, grabbed: Option<usize>, point: Vec2) -> Seq<
    LiveEntity,
> {
    match grabbed {
        Some(g) if g < entities.len() && entities[g as int].alive => entities.update(
            g as int,
            LiveEntity { pos: point, ..entities[g as int] },
        ),
        _ => entities,
    }
}

/// The mass that the hook pulls: that of a live entity in the claw, and the
/// default where the claw is empty.
pub open spec fn spec_payload_mass(entities: Seq<LiveEntity>, grabbed: Option<usize>) -> int {
    match grabbed {
        Some(g) if g < entities.len() && entities[g as int].alive => entities[g
            as int].descriptor.spec_mass(),
        _ => DEFAULT_MASS as int,
    }
}

/// How far the hook comes back in `dt` milliseconds: at the base speed times
/// the strength divided by the mass, the mass counting for two thirds of
/// itself where the player owns the strength drink.
pub open spec fn retract_distance(strength: int, mass: int, drink: bool, dt: int) -> int {
    HOOK_GRAB_SPEED * 1000 * (if drink {
        3int
    } else {
        2int
    }) * (strength * dt) / (2 * mass)
}

impl Hook {
    /// What always holds of a hook: angle and length lie within their bounds,
    /// the claw holds something only on the way back and while the payout is
    /// shown, and the payout is shown only at home with something in the claw.
    pub open spec fn inv(self) -> bool {
        &&& HOOK_MIN_ANGLE <= self.angle <= HOOK_MAX_ANGLE
        &&& 0 <= self.length <= HOOK_MAX_LENGTH
        &&& self.aim.inv()
        &&& self.frame <= HOOK_ANIM_GRAB_MINI
        &&& self.bonus_timer <= BONUS_DISPLAY_DURATION
        &&& (self.grabbed_entity.is_some() ==> self.state == HookState::Retracting || self.state
            == HookState::BonusDisplay)
        &&& (self.state == HookState::BonusDisplay ==> self.grabbed_entity.is_some() && self.length
            == 0)
        &&& (self.state == HookState::Idle ==> self.length == 0)
        &&& (self.state != HookState::BonusDisplay ==> self.bonus_timer == 0
            && !self.bonus_resolved && self.current_bonus == 0 && !self.show_strength)
    }

    /// The entity in the claw, if there is one, is one of the first `n`.
    pub open spec fn holds_within(self, n: nat) -> bool {
        self.grabbed_entity matches Some(g) ==> g < n
    }

    /// The hook after the fire button was pressed: an idle hook goes out along
    /// `aim`, any other hook is left as it is.
    pub open spec fn spec_fire(self, aim: Aim) -> Hook {
        if self.state == HookState::Idle {
            Hook { state: HookState::Extending, aim, ..self }
        } else {
            self
        }
    }

    /// The idle hook after `dt` milliseconds: it has turned at the rotation
    /// speed towards the bound it was heading for, and where it would have
    /// reached or passed that bound it stands exactly on it and heads for the
    /// other one.
    pub open spec fn spec_sweep(self, dt: u32) -> Hook {
        if self.rotate_right {
            if self.angle + HOOK_ROTATE_SPEED * dt >= HOOK_MAX_ANGLE {
                Hook { angle: HOOK_MAX_ANGLE, rotate_right: false, ..self }
            } else {
                Hook { angle: (self.angle + HOOK_ROTATE_SPEED * dt) as i64, ..self }
            }
        } else {
            if self.angle - HOOK_ROTATE_SPEED * dt <= HOOK_MIN_ANGLE {
                Hook { angle: HOOK_MIN_ANGLE, rotate_right: true, ..self }
            } else {
                Hook { angle: (self.angle - HOOK_ROTATE_SPEED * dt) as i64, ..self }
            }
        }
    }

    /// The length of the extending hook after `dt` milliseconds: grown at the
    /// extension speed, but no longer than the hook can be.
    pub open spec fn spec_extended_length(self, dt: u32) -> int {
        if self.length + HOOK_GRAB_SPEED * dt >= HOOK_MAX_LENGTH {
            HOOK_MAX_LENGTH as int
        } else {
            self.length + HOOK_GRAB_SPEED * dt
        }
    }

    /// The extending hook after `dt` milliseconds among `entities`.
    ///
    /// It has grown, and its claw has been tried against the entities. It
    /// turns back where it took hold of one, where it is as long as it can be,
    /// or where the claw has left the play field; the claw then shows what it
    /// holds.
    pub open spec fn spec_extend(self, dt: u32, entities: Seq<LiveEntity>) -> Hook {
        let length = self.spec_extended_length(dt);
        let point = spec_collision_point(self.aim, length);
        let hit = spec_first_grab(entities, point);
        let turns = hit.is_some() || length >= HOOK_MAX_LENGTH || spec_out_of_bounds(point);
        Hook {
            length: length as i64,
            state: if turns {
                HookState::Retracting
            } else {
                HookState::Extending
            },
            grabbed_entity: hit,
            frame: match hit {
                Some(i) => if entities[i as int].descriptor.spec_mass() < TINY_MASS_LIMIT {
                    HOOK_ANIM_GRAB_MINI
                } else {
                    HOOK_ANIM_GRAB_NORMAL
                },
                None => self.frame,
            },
            ..self
        }
    }

    /// The length of the returning hook after `dt` milliseconds: shorter by
    /// the distance it came back, but not less than zero.
    pub open spec fn spec_retracted_length(
        self,
        dt: u32,
        entities: Seq<LiveEntity>,
        player: PlayerResource,
    ) -> int {
        let back = retract_distance(
            player.strength as int,
            spec_payload_mass(entities, self.grabbed_entity),
            player.has_strength_drink,
            dt as int,
        );
        if self.length - back <= 0 {
            0
        } else {
            self.length - back
        }
    }

    /// The returning hook after `dt` milliseconds.
    ///
    /// Once home, it shows the payout if the claw holds something, and goes
    /// back to sweeping with an empty claw if not.
    pub open spec fn spec_retract(
        self,
        dt: u32,
        entities: Seq<LiveEntity>,
        player: PlayerResource,
    ) -> Hook {
        let length = self.spec_retracted_length(dt, entities, player);
        if length > 0 {
            Hook { length: length as i64, ..self }
        } else if self.grabbed_entity.is_some() {
            Hook {
                length: 0,
                state: HookState::BonusDisplay,
                bonus_timer: BONUS_DISPLAY_DURATION,
                ..self
            }
        } else {
            Hook { length: 0, state: HookState::Idle, frame: HOOK_ANIM_IDLE, ..self }
        }
    }

    /// The hook after `dt` milliseconds, whatever it is doing; a hook that
    /// shows a payout is left as it is.
    pub open spec fn spec_step(
        self,
        dt: u32,
        entities: Seq<LiveEntity>,
        player: PlayerResource,
    ) -> Hook {
        match self.state {
            HookState::Idle => self.spec_sweep(dt),
            HookState::Extending => self.spec_extend(dt, entities),
            HookState::Retracting => self.spec_retract(dt, entities, player),
            HookState::BonusDisplay => self,
        }
    }

    /// The hook after as many ticks as `dts` and `worlds` both hold, or as it
    /// takes to become idle, if that is fewer: tick `i` lasts `dts[i]`
    /// milliseconds and meets the entities `worlds[i]`.
    pub open spec fn spec_run_until_idle(
        self,
        dts: Seq<u32>,
        worlds: Seq<Seq<LiveEntity>>,
        player: PlayerResource,
    ) -> Hook
        decreases dts.len(),
    {
        if dts.len() == 0 || worlds.len() == 0 || self.state == HookState::Idle {
            self
        } else {
            self.spec_step(dts[0], worlds[0], player).spec_run_until_idle(
                dts.drop_first(),
                worlds.drop_first(),
                player,
            )
        }
    }

    /// Whether dynamite can be used now: the hook is on its way back with
    /// something in the claw, and the player has a charge and is not throwing
    /// one already.
    pub open spec fn spec_can_use_dynamite(self, player: PlayerResource) -> bool {
        &&& self.state == HookState::Retracting
        &&& self.grabbed_entity.is_some()
        &&& player.dynamite_count >= 1
        &&& !player.is_using_dynamite
    }

    /// Tells whether the hook satisfies its invariant.
    pub fn check(&self) -> (ok: bool)
        ensures
            ok == self.inv(),
    {
        let bounds = HOOK_MIN_ANGLE <= self.angle && self.angle <= HOOK_MAX_ANGLE && 0
            <= self.length && self.length <= HOOK_MAX_LENGTH && -AIM_UNIT <= self.aim.x
            && self.aim.x <= AIM_UNIT && -AIM_UNIT <= self.aim.y && self.aim.y <= AIM_UNIT
            && self.frame <= HOOK_ANIM_GRAB_MINI && self.bonus_timer <= BONUS_DISPLAY_DURATION;
        let holding = self.grabbed_entity.is_some();
        let by_state = match self.state {
            HookState::Idle => !holding && self.length == 0,
            HookState::Extending => !holding,
            HookState::Retracting => true,
            HookState::BonusDisplay => holding && self.length == 0,
        };
        let bonus_clear = match self.state {
            HookState::BonusDisplay => true,
            _ => self.bonus_timer == 0 && !self.bonus_resolved && self.current_bonus == 0
                && !self.show_strength,
        };
        bounds && by_state && bonus_clear
    }

    /// Where the tip of the hook is.
    pub fn tip(&self) -> (p: Vec2)
        requires
            self.inv(),
        ensures
            p == spec_tip(self.aim, self.length as int),
            p.in_range(),
    {
        point_along(self.aim, self.length)
    }

    /// Where the centre of the claw is.
    pub fn collision_point(&self) -> (p: Vec2)
        requires
            self.inv(),
        ensures
            p == spec_collision_point(self.aim, self.length as int),
            p.in_range(),
    {
        point_along(self.aim, self.length + HOOK_COLLISION_OFFSET)
    }

    /// Lets `dt` milliseconds pass for an idle hook.
    pub fn sweep(&mut self, dt: u32)
        requires
            old(self).inv(),
        ensures
            *final(self) == old(self).spec_sweep(dt),
            final(self).inv(),
            final(self).rotate_right != old(self).rotate_right ==> final(self).angle == (if old(
                self,
            ).rotate_right {
                HOOK_MAX_ANGLE
            } else {
                HOOK_MIN_ANGLE
            }),
    {
        let turn: i64 = HOOK_ROTATE_SPEED * dt as i64;
        if self.rotate_right {
            if self.angle + turn >= HOOK_MAX_ANGLE {
                self.angle = HOOK_MAX_ANGLE;
                self.rotate_right = false;
            } else {
                self.angle = self.angle + turn;
            }
        } else {
            if self.angle - turn <= HOOK_MIN_ANGLE {
                self.angle = HOOK_MIN_ANGLE;
                self.rotate_right = true;
            } else {
                self.angle = self.angle - turn;
            }
        }
    }

    /// Lets `dt` milliseconds pass for an extending hook.
    pub fn extend(&mut self, dt: u32, level: &mut Level) -> (out: HookOutcome)
        requires
            old(self).inv(),
            old(self).state == HookState::Extending,
            old(level).inv(),
        ensures
            *final(self) == old(self).spec_extend(dt, old(level).entities@),
            final(level).entities@ == spec_set_off(old(level).entities@, final(self).grabbed_entity),
            final(level).effects@ == old(level).effects@,
            out.cue == if final(self).state == HookState::Retracting {
                Some(AudioId::GrabBack)
            } else {
                None
            },
            out.player_anim == Some(PlayerAnimationState::Grab),
            final(self).inv(),
            final(self).holds_within(final(level).entities@.len()),
            final(level).inv(),
    {
        let grown: i64 = self.length + HOOK_GRAB_SPEED * dt as i64;
        let length: i64 = if grown >= HOOK_MAX_LENGTH {
            HOOK_MAX_LENGTH
        } else {
            grown
        };
        let point = point_along(self.aim, length + HOOK_COLLISION_OFFSET);
        let hit = find_grab(&level.entities, point);
        let outside = point.x < -FIELD_HALF_WIDTH || point.x > FIELD_HALF_WIDTH || point.y
            < -FIELD_HALF_HEIGHT || point.y > FIELD_HALF_HEIGHT;
        self.length = length;
        self.grabbed_entity = hit;
        match hit {
            Some(i) => {
                self.frame = if level.entities[i].descriptor.mass_or_default() < TINY_MASS_LIMIT {
                    HOOK_ANIM_GRAB_MINI
                } else {
                    HOOK_ANIM_GRAB_NORMAL
                };
                match level.entities[i].explosive {
                    Some(s) => {
                        level.entities[i].explosive = Some(
                            ExplosiveState { is_exploding: true, damage_dealt: s.damage_dealt },
                        );
                    },
                    None => {},
                }
            },
            None => {},
        }
        if hit.is_some() || length >= HOOK_MAX_LENGTH || outside {
            self.state = HookState::Retracting;
            HookOutcome {
                cue: Some(AudioId::GrabBack),
                player_anim: Some(PlayerAnimationState::Grab),
            }
        } else {
            HookOutcome { cue: None, player_anim: Some(PlayerAnimationState::Grab) }
        }
    }

    /// Lets `dt` milliseconds pass for a returning hook.
    pub fn retract(&mut self, dt: u32, level: &mut Level, player: &PlayerResource) -> (out:
        HookOutcome)
        requires
            old(self).inv(),
            old(self).state == HookState::Retracting,
            old(self).holds_within(old(level).entities@.len()),
            old(level).inv(),
            player.inv(),
        ensures
            *final(self) == old(self).spec_retract(dt, old(level).entities@, *player),
            final(level).entities@ == spec_drag(
                old(level).entities@,
                old(self).grabbed_entity,
                spec_collision_point(old(self).aim, final(self).length as int),
            ),
            final(level).effects@ == old(level).effects@,
            out.cue == if final(self).state == HookState::Idle {
                Some(AudioId::HookReset)
            } else {
                None
            },
            out.player_anim == if final(self).state == HookState::Idle {
                Some(PlayerAnimationState::Idle)
            } else if !player.is_using_dynamite {
                Some(PlayerAnimationState::GrabBack)
            } else {
                None
            },
            final(self).inv(),
            final(self).holds_within(final(level).entities@.len()),
            final(level).inv(),
    {
        let mass: u32 = match self.grabbed_entity {
            Some(g) => if level.entities[g].alive {
                level.entities[g].descriptor.mass_or_default()
            } else {
                DEFAULT_MASS
            },
            None => DEFAULT_MASS,
        };
        let back = distance_back(player.strength, mass, player.has_strength_drink, dt);
        let length: i64 = if back >= self.length as u64 {
            0
        } else {
            self.length - back as i64
        };
        self.length = length;
        let point = point_along(self.aim, length + HOOK_COLLISION_OFFSET);
        match self.grabbed_entity {
            Some(g) => {
                if level.entities[g].alive {
                    level.entities[g].pos = point;
                }
            },
            None => {},
        }
        if length > 0 {
            HookOutcome {
                cue: None,
                player_anim: if player.is_using_dynamite {
                    None
                } else {
                    Some(PlayerAnimationState::GrabBack)
                },
            }
        } else if self.grabbed_entity.is_some() {
            self.state = HookState::BonusDisplay;
            self.bonus_timer = BONUS_DISPLAY_DURATION;
            HookOutcome {
                cue: None,
                player_anim: if player.is_using_dynamite {
                    None
                } else {
                    Some(PlayerAnimationState::GrabBack)
                },
            }
        } else {
            self.state = HookState::Idle;
            self.frame = HOOK_ANIM_IDLE;
            HookOutcome {
                cue: Some(AudioId::HookReset),
                player_anim: Some(PlayerAnimationState::Idle),
            }
        }
    }
}

impl Default for Hook {
    /// A hook at home, at the rightmost angle, about to turn back.
    fn default() -> (h: Hook)
        ensures
            h == (Hook {
                length: 0,
                angle: HOOK_MAX_ANGLE,
                rotate_right: true,
                state: HookState::Idle,
                aim: Aim { x: 0, y: -1_000_000i64 },
                grabbed_entity: None,
                bonus_timer: 0,
                bonus_resolved: false,
                current_bonus: 0,
                show_strength: false,
                frame: HOOK_ANIM_IDLE,
            }),
            h.inv(),
    {
        Hook {
            length: 0,
            angle: HOOK_MAX_ANGLE,
            rotate_right: true,
            state: HookState::Idle,
            aim: Aim { x: 0, y: -AIM_UNIT },
            grabbed_entity: None,
            bonus_timer: 0,
            bonus_resolved: false,
            current_bonus: 0,
            show_strength: false,
            frame: HOOK_ANIM_IDLE,
        }
    }
}

/// How far along one axis a point lies that is `distance` away in the
/// direction whose component along that axis is `component`.
fn along(component: i64, distance: i64) -> (r: i64)
    requires
        -AIM_UNIT <= component <= AIM_UNIT,
        0 <= distance <= HOOK_MAX_LENGTH + HOOK_COLLISION_OFFSET,
    ensures
        r == spec_along(component as int, distance as int),
        -distance <= r <= distance,
{
    let size: i64 = if component >= 0 {
        component
    } else {
        -component
    };
    assert(0 <= size * distance <= 1_000_000 * distance) by (nonlinear_arith)
        requires
            0 <= size <= 1_000_000,
            0 <= distance,
    ;
    let q: i64 = size * distance / AIM_UNIT;
    if component >= 0 {
        q
    } else {
        -q
    }
}

/// The point `distance` away from the base in the direction `aim`.
fn point_along(aim: Aim, distance: i64) -> (p: Vec2)
    requires
        aim.inv(),
        0 <= distance <= HOOK_MAX_LENGTH + HOOK_COLLISION_OFFSET,
    ensures
        p == spec_tip(aim, distance as int),
        p.in_range(),
{
    Vec2 { x: HOOK_BASE_X + along(aim.x, distance), y: HOOK_BASE_Y + along(aim.y, distance) }
}

/// How far the hook comes back in `dt` milliseconds.
fn distance_back(strength: i32, mass: u32, drink: bool, dt: u32) -> (back: u64)
    requires
        1 <= strength <= 6,
        mass > 0,
    ensures
        back == retract_distance(strength as int, mass as int, drink, dt as int),
{
    let s: u64 = strength as u64;
    let t: u64 = dt as u64;
    assert(0 <= s * t <= 6 * 0xffff_ffff) by (nonlinear_arith)
        requires
            0 <= s <= 6,
            0 <= t <= 0xffff_ffff,
    ;
    let pace: u64 = s * t;
    let rate: u64 = HOOK_GRAB_SPEED as u64 * 1000 * if drink {
        3
    } else {
        2
    };
    assert(0 <= rate * pace <= 300_000 * (6 * 0xffff_ffff)) by (nonlinear_arith)
        requires
            0 <= rate <= 300_000,
            0 <= pace <= 6 * 0xffff_ffff,
    ;
    rate * pace / (2 * mass as u64)
}

/// Finds the entity that a claw centred at `point` takes hold of.
pub fn find_grab(entities: &Vec<LiveEntity>, point: Vec2) -> (hit: Option<usize>)
    requires
        point.in_range(),
        forall|i: int| 0 <= i < entities@.len() ==> (#[trigger] entities@[i]).pos.in_range(),
    ensures
        hit == spec_first_grab(entities@, point),
        match hit {
            Some(i) => is_first_grab(entities@, point, i as int),
            None => forall|j: int| 0 <= j < entities@.len() ==> !spec_grabs(point, #[trigger] entities@[j]),
        },
{
    let mut i: usize = 0;
    while i < entities.len()
        invariant
            i <= entities@.len(),
            point.in_range(),
            forall|k: int| 0 <= k < entities@.len() ==> (#[trigger] entities@[k]).pos.in_range(),
            forall|j: int| 0 <= j < i ==> !spec_grabs(point, #[trigger] entities@[j]),
        decreases entities@.len() - i,
    {
        let e = &entities[i];
        if e.alive && within(
            point,
            e.pos,
            HOOK_COLLISION_RADIUS + e.descriptor.radius_or_default() as i64,
        ) {
            proof {
                lemma_first_grab_is_unique(entities@, point, i as int);
            }
            return Some(i);
        }
        i += 1;
    }
    proof {
        assert forall|k: int| !is_first_grab(entities@, point, k) by {
            if 0 <= k < entities@.len() {
                assert(!spec_grabs(point, entities@[k]));
            }
        }
    }
    None
}

/// At most one entity is the first that the claw takes hold of.
pub proof fn lemma_first_grab_is_unique(entities: Seq<LiveEntity>, point: Vec2, i: int)
    requires
        is_first_grab(entities, point, i),
    ensures
        spec_first_grab(entities, point) == Some(i as usize),
{
    let k = choose|k: int| is_first_grab(entities, point, k);
    assert(is_first_grab(entities, point, k));
    if k < i {
        assert(!spec_grabs(point, entities[k]));
    }
    if i < k {
        assert(!spec_grabs(point, entities[i]));
    }
}

/// Fires the hook along `aim` if the button was pressed and the hook is idle.
pub fn handle_hook_input(hook: &mut Hook, fire: bool, aim: Aim) -> (cue: Option<AudioId>)
    requires
        old(hook).inv(),
        aim.inv(),
    ensures
        *final(hook) == if fire {
            old(hook).spec_fire(aim)
        } else {
            *old(hook)
        },
        cue == if fire && old(hook).state == HookState::Idle {
            Some(AudioId::GrabStart)
        } else {
            None
        },
        final(hook).inv(),
{
    if fire && hook.state == HookState::Idle {
        hook.state = HookState::Extending;
        hook.aim = aim;
        Some(AudioId::GrabStart)
    } else {
        None
    }
}

/// Lets `dt` milliseconds pass for the hook, whatever it is doing. A hook
/// that shows a payout is left alone.
pub fn update_hook(hook: &mut Hook, dt: u32, level: &mut Level, player: &PlayerResource) -> (out:
    HookOutcome)
    requires
        old(hook).inv(),
        old(hook).holds_within(old(level).entities@.len()),
        old(level).inv(),
        player.inv(),
    ensures
        *final(hook) == old(hook).spec_step(dt, old(level).entities@, *player),
        final(level).entities@ == match old(hook).state {
            HookState::Extending => spec_set_off(old(level).entities@, final(hook).grabbed_entity),
            HookState::Retracting => spec_drag(
                old(level).entities@,
                old(hook).grabbed_entity,
                spec_collision_point(old(hook).aim, final(hook).length as int),
            ),
            _ => old(level).entities@,
        },
        final(level).effects@ == old(level).effects@,
        out.cue == match old(hook).state {
            HookState::Extending if final(hook).state == HookState::Retracting => Some(
                AudioId::GrabBack,
            ),
            HookState::Retracting if final(hook).state == HookState::Idle => Some(
                AudioId::HookReset,
            ),
            _ => None,
        },
        out.player_anim == match old(hook).state {
            HookState::Extending => Some(PlayerAnimationState::Grab),
            HookState::Retracting => if final(hook).state == HookState::Idle {
                Some(PlayerAnimationState::Idle)
            } else if !player.is_using_dynamite {
                Some(PlayerAnimationState::GrabBack)
            } else {
                None
            },
            _ => None,
        },
        final(hook).inv(),
        final(hook).holds_within(final(level).entities@.len()),
        final(level).inv(),
{
    match hook.state {
        HookState::Idle => {
            hook.sweep(dt);
            HookOutcome { cue: None, player_anim: None }
        },
        HookState::Extending => hook.extend(dt, level),
        HookState::Retracting => hook.retract(dt, level, player),
        HookState::BonusDisplay => HookOutcome { cue: None, player_anim: None },
    }
}

/// Blows up what the claw holds, if dynamite can be used now: the entity is
/// destroyed, a charge is spent, the throw begins, the claw is empty and an
/// explosion that harms nothing is shown at the tip.
pub fn use_dynamite(hook: &mut Hook, level: &mut Level, player: &mut PlayerResource) -> (used: bool)
    requires
        old(hook).inv(),
        old(hook).holds_within(old(level).entities@.len()),
        old(level).inv(),
        old(player).inv(),
    ensures
        used == old(hook).spec_can_use_dynamite(*old(player)),
        !used ==> *final(hook) == *old(hook) && *final(level) == *old(level) && *final(player)
            == *old(player),
        used ==> {
            let g = old(hook).grabbed_entity.unwrap() as int;
            &&& *final(hook) == (Hook {
                grabbed_entity: None,
                frame: HOOK_ANIM_IDLE,
                ..*old(hook)
            })
            &&& final(level).entities@ == old(level).entities@.update(
                g,
                LiveEntity { alive: false, ..old(level).entities@[g] },
            )
            &&& final(level).effects@ == old(level).effects@.push(
                ExplosionFX {
                    pending: false,
                    ..ExplosionFX::spec_new(spec_tip(old(hook).aim, old(hook).length as int))
                },
            )
            &&& *final(player) == (PlayerResource {
                dynamite_count: (old(player).dynamite_count - 1) as i32,
                is_using_dynamite: true,
                using_dynamite_timer: DYNAMITE_THROW_DURATION,
                ..*old(player)
            })
        },
        final(hook).inv(),
        final(hook).holds_within(final(level).entities@.len()),
        final(level).inv(),
        final(player).inv(),
{
    let ready = match hook.state {
        HookState::Retracting => hook.grabbed_entity.is_some() && player.dynamite_count >= 1
            && !player.is_using_dynamite,
        _ => false,
    };
    if !ready {
        return false;
    }
    match hook.grabbed_entity {
        Some(g) => {
            level.entities[g].alive = false;
        },
        None => {},
    }
    let mut fx = ExplosionFX::new(hook.tip());
    fx.pending = false;
    level.effects.push(fx);
    player.dynamite_count = player.dynamite_count - 1;
    player.is_using_dynamite = true;
    player.using_dynamite_timer = DYNAMITE_THROW_DURATION;
    hook.grabbed_entity = None;
    hook.frame = HOOK_ANIM_IDLE;
    true
}

/// The idle sweep stays between its bounds however long the tick: it turns
/// round exactly when it would reach or pass the bound it is heading for, and
/// then stands on that bound; otherwise it has turned by the rotation speed
/// times the time.
pub proof fn lemma_sweep_stays_in_range(h: Hook, dt: u32)
    requires
        HOOK_MIN_ANGLE <= h.angle <= HOOK_MAX_ANGLE,
    ensures
        HOOK_MIN_ANGLE <= h.spec_sweep(dt).angle <= HOOK_MAX_ANGLE,
        h.spec_sweep(dt).rotate_right != h.rotate_right <==> (if h.rotate_right {
            h.angle + HOOK_ROTATE_SPEED * dt >= HOOK_MAX_ANGLE
        } else {
            h.angle - HOOK_ROTATE_SPEED * dt <= HOOK_MIN_ANGLE
        }),
        h.spec_sweep(dt).rotate_right != h.rotate_right ==> h.spec_sweep(dt).angle == (
        if h.rotate_right {
            HOOK_MAX_ANGLE
        } else {
            HOOK_MIN_ANGLE
        }),
        h.spec_sweep(dt).rotate_right == h.rotate_right ==> h.spec_sweep(dt).angle == (
        if h.rotate_right {
            h.angle + HOOK_ROTATE_SPEED * dt
        } else {
            h.angle - HOOK_ROTATE_SPEED * dt
        }),
{
}

/// While the hook extends its length never shrinks and never exceeds the
/// longest it can be; a longer tick never leaves it shorter; and the tick on
/// which it reaches that length is the tick on which it turns back.
pub proof fn lemma_extension_grows_to_the_limit(
    h: Hook,
    dt: u32,
    longer: u32,
    entities: Seq<LiveEntity>,
)
    requires
        0 <= h.length <= HOOK_MAX_LENGTH,
        dt <= longer,
    ensures
        h.length <= h.spec_extend(dt, entities).length <= HOOK_MAX_LENGTH,
        h.spec_extend(dt, entities).length <= h.spec_extend(longer, entities).length,
        h.spec_extend(dt, entities).length == HOOK_MAX_LENGTH ==> h.spec_extend(
            dt,
            entities,
        ).state == HookState::Retracting,
{
}

/// From the moment the hook is fired until it is idle again, whatever it
/// meets on the way, its angle and the direction of its sweep stay as they
/// were; and when it is idle again it is at home with an empty claw.
pub proof fn lemma_angle_frozen_until_home(
    h: Hook,
    dts: Seq<u32>,
    worlds: Seq<Seq<LiveEntity>>,
    player: PlayerResource,
)
    requires
        h.state == HookState::Idle ==> h.length == 0 && h.grabbed_entity.is_none(),
    ensures
        h.spec_run_until_idle(dts, worlds, player).angle == h.angle,
        h.spec_run_until_idle(dts, worlds, player).rotate_right == h.rotate_right,
        h.spec_run_until_idle(dts, worlds, player).state == HookState::Idle ==> h.spec_run_until_idle(
            dts,
            worlds,
            player,
        ).length == 0 && h.spec_run_until_idle(dts, worlds, player).grabbed_entity.is_none(),
    decreases dts.len(),
{
    if dts.len() == 0 || worlds.len() == 0 || h.state == HookState::Idle {
    } else {
        let next = h.spec_step(dts[0], worlds[0], player);
        lemma_angle_frozen_until_home(next, dts.drop_first(), worlds.drop_first(), player);
    }
}

/// Firing an idle hook and letting it come home empty leaves it ready to
/// sweep on from the angle at which it was fired.
pub proof fn lemma_empty_return_resumes_sweep(
    h: Hook,
    aim: Aim,
    dt: u32,
    entities: Seq<LiveEntity>,
    player: PlayerResource,
)
    requires
        h.inv(),
        aim.inv(),
        h.state == HookState::Retracting,
        h.grabbed_entity.is_none(),
        h.spec_retracted_length(dt, entities, player) == 0,
    ensures
        h.spec_retract(dt, entities, player) == (Hook {
            length: 0,
            state: HookState::Idle,
            frame: HOOK_ANIM_IDLE,
            ..h
        }),
        h.spec_retract(dt, entities, player).inv(),
        h.spec_retract(dt, entities, player).spec_fire(aim).state == HookState::Extending,
{
}

/// The hook comes back at the base speed times the strength divided by the
/// mass: the distance covered in a tick is that speed times the time. It is no
/// shorter for a stronger player and no longer for a heavier load.
pub proof fn lemma_retraction_speed(
    strength: int,
    stronger: int,
    mass: int,
    heavier: int,
    drink: bool,
    dt: int,
)
    requires
        0 <= strength <= stronger,
        0 < mass <= heavier,
        0 <= dt,
    ensures
        retract_distance(strength, mass, false, dt) == HOOK_GRAB_SPEED * 1000 * (strength * dt)
            / mass,
        retract_distance(strength, mass, drink, dt) <= retract_distance(stronger, mass, drink, dt),
        retract_distance(strength, heavier, drink, dt) <= retract_distance(
            strength,
            mass,
            drink,
            dt,
        ),
        0 <= retract_distance(strength, mass, drink, dt),
{
    let k: int = if drink {
        3
    } else {
        2
    };
    let rate = HOOK_GRAB_SPEED * 1000 * k;
    assert(0 <= strength * dt <= stronger * dt) by (nonlinear_arith)
        requires
            0 <= strength <= stronger,
            0 <= dt,
    ;
    assert(0 <= rate * (strength * dt) <= rate * (stronger * dt)) by (nonlinear_arith)
        requires
            0 <= rate,
            0 <= strength * dt <= stronger * dt,
    ;
    vstd::arithmetic::div_mod::lemma_div_is_ordered(
        rate * (strength * dt),
        rate * (stronger * dt),
        2 * mass,
    );
    vstd::arithmetic::div_mod::lemma_div_is_ordered_by_denominator(
        rate * (strength * dt),
        2 * mass,
        2 * heavier,
    );
    vstd::arithmetic::div_mod::lemma_div_pos_is_pos(rate * (strength * dt), 2 * mass);
    let plain = HOOK_GRAB_SPEED * 1000 * (strength * dt);
    assert(HOOK_GRAB_SPEED * 1000 * 2 * (strength * dt) == 2 * plain) by (nonlinear_arith)
        requires
            plain == HOOK_GRAB_SPEED * 1000 * (strength * dt),
    ;
    assert(0 <= plain) by (nonlinear_arith)
        requires
            plain == HOOK_GRAB_SPEED * 1000 * (strength * dt),
            0 <= strength * dt,
    ;
    vstd::arithmetic::div_mod::lemma_div_multiples_vanish_quotient(2, plain, mass);
}

/// Owning the strength drink divides the mass by one and a half: with the
/// drink, a load of three parts comes back as a load of two parts does
/// without it.
pub proof fn lemma_strength_drink_lightens(strength: int, part: int, dt: int)
    requires
        0 <= strength,
        0 < part,
        0 <= dt,
    ensures
        retract_distance(strength, 3 * part, true, dt) == retract_distance(
            strength,
            2 * part,
            false,
            dt,
        ),
{
    let pace = strength * dt;
    assert(0 <= pace) by (nonlinear_arith)
        requires
            pace == strength * dt,
            0 <= strength,
            0 <= dt,
    ;
    let unit = HOOK_GRAB_SPEED * 1000 * pace;
    assert(HOOK_GRAB_SPEED * 1000 * 3 * pace == 3 * unit) by (nonlinear_arith)
        requires
            unit == HOOK_GRAB_SPEED * 1000 * pace,
    ;
    assert(HOOK_GRAB_SPEED * 1000 * 2 * pace == 2 * unit) by (nonlinear_arith)
        requires
            unit == HOOK_GRAB_SPEED * 1000 * pace,
    ;
    assert(0 <= unit) by (nonlinear_arith)
        requires
            unit == HOOK_GRAB_SPEED * 1000 * pace,
            0 <= pace,
    ;
    vstd::arithmetic::div_mod::lemma_div_multiples_vanish_quotient(3, unit, 2 * part);
    vstd::arithmetic::div_mod::lemma_div_multiples_vanish_quotient(2, unit, 2 * part);
    assert(2 * (3 * part) == 3 * (2 * part));
    assert(2 * (2 * part) == 2 * (2 * part));
}

} // verus!
