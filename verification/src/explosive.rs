//! Explosions: what sets them off, how long they show, and what they destroy.

use vstd::prelude::*;
use crate::level::{Level, LiveEntity};
use crate::timer::{Timer, TimerMode};
use crate::utils::{spec_within, within, Vec2};

verus! {

/// How far an explosion reaches from its centre.
pub const EXPLOSION_RADIUS: i64 = 17_500;

/// How long each frame of an explosion is shown, in milliseconds.
pub const EXPLOSION_FRAME_DURATION: u32 = 60;

/// How many frames an explosion is made of.
pub const EXPLOSION_FRAME_COUNT: usize = 8;

/// The radius that other explosives are taken to have in a chain reaction.
pub const CHAIN_TARGET_RADIUS: i64 = 6_000;

/// The state of an explosive entity.
#[derive(Debug, Clone, Copy, PartialEq, Eq, Structural)]
pub struct ExplosiveState {
    /// Set once the entity has been set off.
    pub is_exploding: bool,
    /// Set once its explosion has been started, so that it starts only once.
    pub damage_dealt: bool,
}

impl Default for ExplosiveState {
    fn default() -> (s: ExplosiveState)
        ensures
            s == (ExplosiveState { is_exploding: false, damage_dealt: false }),
    {
        ExplosiveState { is_exploding: false, damage_dealt: false }
    }
}

/// One explosion on the screen.
#[derive(Debug, Clone, Copy, PartialEq, Eq, Structural)]
pub struct ExplosionFX {
    /// Times the frames.
    pub timer: Timer,
    /// The frame now shown.
    pub current_frame: usize,
    /// Where the explosion happened.
    pub center: Vec2,
    /// Set until the explosion has destroyed what is near it.
    pub pending: bool,
}

impl ExplosionFX {
    /// The explosion can still be shown and its centre lies in the play field.
    pub open spec fn inv(self) -> bool {
        &&& self.timer.inv()
        &&& self.current_frame < EXPLOSION_FRAME_COUNT
        &&& self.center.in_range()
    }

    /// Tells whether the explosion can still be shown and lies in the play field.
    pub fn check(&self) -> (ok: bool)
        ensures
            ok == self.inv(),
    {
        self.timer.elapsed <= self.timer.duration && self.current_frame < EXPLOSION_FRAME_COUNT
            && self.center.check()
    }

    /// An explosion at `center` that has done no damage yet.
    pub open spec fn spec_new(center: Vec2) -> ExplosionFX {
        ExplosionFX {
            timer: Timer {
                elapsed: 0,
                duration: EXPLOSION_FRAME_DURATION,
                mode: TimerMode::Repeating,
                finished: false,
                times_finished_this_tick: 0,
            },
            current_frame: 0,
            center,
            pending: true,
        }
    }

    /// An explosion at `center` that has done no damage yet.
    pub fn new(center: Vec2) -> (fx: ExplosionFX)
        ensures
            fx == Self::spec_new(center),
            center.in_range() ==> fx.inv(),
    {
        ExplosionFX {
            timer: Timer::new(EXPLOSION_FRAME_DURATION, TimerMode::Repeating),
            current_frame: 0,
            center,
            pending: true,
        }
    }
}

/// The entity is about to explode: it is alive and has been set off, and its
/// explosion has not been started yet.
pub open spec fn spec_starts(e: LiveEntity) -> bool {
    e.alive && (e.explosive matches Some(s) && s.is_exploding && !s.damage_dealt)
}

/// The entity once its explosion, if it was about to explode, has been
/// started.
pub open spec fn spec_started(e: LiveEntity) -> LiveEntity {
    match e.explosive {
        Some(s) if spec_starts(e) => LiveEntity {
            explosive: Some(ExplosiveState { damage_dealt: true, ..s }),
            ..e
        },
        _ => e,
    }
}

/// The explosions that start among `entities`: one at the place of each
/// entity that is about to explode, in the order of the entities.
pub open spec fn spec_new_effects(entities: Seq<LiveEntity>) -> Seq<ExplosionFX>
    decreases entities.len(),
{
    if entities.len() == 0 {
        Seq::empty()
    } else if spec_starts(entities.last()) {
        spec_new_effects(entities.drop_last()).push(ExplosionFX::spec_new(entities.last().pos))
    } else {
        spec_new_effects(entities.drop_last())
    }
}

/// The explosion after `dt` milliseconds: its timer has run, and it shows the
/// next frame if the time of the current one came to an end.
pub open spec fn spec_fx_step(fx: ExplosionFX, dt: u32) -> ExplosionFX {
    ExplosionFX {
        timer: fx.timer.tick_spec(dt),
        current_frame: if fx.timer.tick_spec(dt).times_finished_this_tick > 0 {
            (fx.current_frame + 1) as usize
        } else {
            fx.current_frame
        },
        ..fx
    }
}

/// The explosion is over after `dt` milliseconds: it has shown its last frame.
pub open spec fn spec_fx_over(fx: ExplosionFX, dt: u32) -> bool {
    fx.timer.tick_spec(dt).times_finished_this_tick > 0 && fx.current_frame + 1
        >= EXPLOSION_FRAME_COUNT
}

/// The explosions that are still shown after `dt` milliseconds, in their
/// order.
pub open spec fn spec_surviving(effects: Seq<ExplosionFX>, dt: u32) -> Seq<ExplosionFX>
    decreases effects.len(),
{
    if effects.len() == 0 {
        Seq::empty()
    } else if spec_fx_over(effects.last(), dt) {
        spec_surviving(effects.drop_last(), dt)
    } else {
        spec_surviving(effects.drop_last(), dt).push(spec_fx_step(effects.last(), dt))
    }
}

/// Some explosion that has not done its damage yet has its centre closer to
/// `pos` than its own radius and `radius` together.
pub open spec fn spec_blast_reaches(effects: Seq<ExplosionFX>, pos: Vec2, radius: int) -> bool {
    exists|k: int|
        0 <= k < effects.len() && (#[trigger] effects[k]).pending && spec_within(
            effects[k].center,
            pos,
            EXPLOSION_RADIUS + radius,
        )
}

/// The entity after the explosions that have not done their damage yet have
/// done it.
///
/// An entity that does not explode is destroyed if an explosion reaches it. An
/// explosive that has not been set off is set off if an explosion reaches it,
/// and is never destroyed. Anything else is left as it is.
pub open spec fn spec_damaged(e: LiveEntity, effects: Seq<ExplosionFX>) -> LiveEntity {
    if !e.alive {
        e
    } else {
        match e.explosive {
            None => if spec_blast_reaches(effects, e.pos, e.descriptor.spec_radius()) {
                LiveEntity { alive: false, ..e }
            } else {
                e
            },
            Some(s) => if !s.is_exploding && spec_blast_reaches(
                effects,
                e.pos,
                CHAIN_TARGET_RADIUS as int,
            ) {
                LiveEntity { explosive: Some(ExplosiveState { is_exploding: true, ..s }), ..e }
            } else {
                e
            },
        }
    }
}

/// Starts the explosion of every entity that is about to explode, and tells
/// how many were started; each asks for the sound of an explosion.
pub fn explosion_trigger_system(level: &mut Level) -> (started: usize)
    requires
        old(level).inv(),
    ensures
        final(level).entities@.len() == old(level).entities@.len(),
        forall|i: int|
            0 <= i < old(level).entities@.len() ==> #[trigger] final(level).entities@[i]
                == spec_started(old(level).entities@[i]),
        final(level).effects@ == old(level).effects@ + spec_new_effects(old(level).entities@),
        started == spec_new_effects(old(level).entities@).len(),
        final(level).inv(),
{
    let mut started: usize = 0;
    let mut i: usize = 0;
    proof {
        assert(old(level).entities@.take(0) =~= Seq::<LiveEntity>::empty());
        assert(old(level).effects@ + Seq::<ExplosionFX>::empty() =~= old(level).effects@);
    }
    while i < level.entities.len()
        invariant
            i <= level.entities@.len(),
            level.entities@.len() == old(level).entities@.len(),
            level.inv(),
            started == spec_new_effects(old(level).entities@.take(i as int)).len(),
            started <= i,
            level.effects@ == old(level).effects@ + spec_new_effects(
                old(level).entities@.take(i as int),
            ),
            forall|j: int|
                0 <= j < i ==> #[trigger] level.entities@[j] == spec_started(
                    old(level).entities@[j],
                ),
            forall|j: int| i <= j < level.entities@.len() ==> #[trigger] level.entities@[j] == old(
                level,
            ).entities@[j],
        decreases level.entities@.len() - i,
    {
        let e = level.entities[i];
        proof {
            let upto = old(level).entities@.take(i as int + 1);
            assert(upto.drop_last() =~= old(level).entities@.take(i as int));
            assert(upto.last() == old(level).entities@[i as int]);
        }
        match e.explosive {
            Some(s) => {
                if e.alive && s.is_exploding && !s.damage_dealt {
                    let fx = ExplosionFX::new(e.pos);
                    level.effects.push(fx);
                    level.entities[i].explosive = Some(
                        ExplosiveState { is_exploding: s.is_exploding, damage_dealt: true },
                    );
                    started = started + 1;
                    proof {
                        assert(level.effects@ =~= old(level).effects@ + spec_new_effects(
                            old(level).entities@.take(i as int + 1),
                        ));
                    }
                }
            },
            None => {},
        }
        i += 1;
    }
    proof {
        assert(old(level).entities@.take(i as int) =~= old(level).entities@);
    }
    started
}

/// Lets `dt` milliseconds pass for every explosion on the screen and takes
/// away those that are over.
pub fn explosion_fx_system(level: &mut Level, dt: u32)
    requires
        old(level).inv(),
    ensures
        final(level).effects@ == spec_surviving(old(level).effects@, dt),
        final(level).entities@ == old(level).entities@,
        final(level).inv(),
{
    let mut kept: Vec<ExplosionFX> = Vec::new();
    let mut k: usize = 0;
    proof {
        assert(level.effects@.take(0) =~= Seq::<ExplosionFX>::empty());
    }
    while k < level.effects.len()
        invariant
            k <= level.effects@.len(),
            *level == *old(level),
            level.inv(),
            kept@ == spec_surviving(level.effects@.take(k as int), dt),
            forall|j: int| 0 <= j < kept@.len() ==> (#[trigger] kept@[j]).inv(),
        decreases level.effects@.len() - k,
    {
        let mut fx = level.effects[k];
        proof {
            let upto = level.effects@.take(k as int + 1);
            assert(upto.drop_last() =~= level.effects@.take(k as int));
            assert(upto.last() == level.effects@[k as int]);
        }
        fx.timer.tick(dt);
        if fx.timer.just_finished() {
            if fx.current_frame + 1 < EXPLOSION_FRAME_COUNT {
                fx.current_frame = fx.current_frame + 1;
                kept.push(fx);
            }
        } else {
            kept.push(fx);
        }
        k += 1;
    }
    proof {
        assert(level.effects@.take(k as int) =~= level.effects@);
    }
    level.effects = kept;
}

/// Tells whether some explosion that has not done its damage yet reaches an
/// entity of the given radius at `pos`.
pub fn blast_reaches(effects: &Vec<ExplosionFX>, pos: Vec2, radius: u32) -> (reached: bool)
    requires
        pos.in_range(),
        forall|k: int| 0 <= k < effects@.len() ==> (#[trigger] effects@[k]).inv(),
    ensures
        reached == spec_blast_reaches(effects@, pos, radius as int),
{
    let mut k: usize = 0;
    while k < effects.len()
        invariant
            k <= effects@.len(),
            pos.in_range(),
            forall|j: int| 0 <= j < effects@.len() ==> (#[trigger] effects@[j]).inv(),
            forall|j: int|
                0 <= j < k ==> !((#[trigger] effects@[j]).pending && spec_within(
                    effects@[j].center,
                    pos,
                    EXPLOSION_RADIUS + radius,
                )),
        decreases effects@.len() - k,
    {
        let fx = &effects[k];
        if fx.pending && within(fx.center, pos, EXPLOSION_RADIUS + radius as i64) {
            return true;
        }
        k += 1;
    }
    false
}

/// Lets every explosion that has not done its damage yet do it, once: what
/// does not explode and is within reach is destroyed, and explosives within
/// reach are set off, to explode on a later tick.
pub fn explosion_damage_system(level: &mut Level)
    requires
        old(level).inv(),
    ensures
        final(level).entities@.len() == old(level).entities@.len(),
        forall|i: int|
            0 <= i < old(level).entities@.len() ==> #[trigger] final(level).entities@[i]
                == spec_damaged(old(level).entities@[i], old(level).effects@),
        final(level).effects@.len() == old(level).effects@.len(),
        forall|k: int|
            0 <= k < old(level).effects@.len() ==> #[trigger] final(level).effects@[k] == (
            ExplosionFX { pending: false, ..old(level).effects@[k] }),
        final(level).inv(),
{
    let mut i: usize = 0;
    while i < level.entities.len()
        invariant
            i <= level.entities@.len(),
            level.entities@.len() == old(level).entities@.len(),
            level.effects@ == old(level).effects@,
            level.inv(),
            forall|j: int|
                0 <= j < i ==> #[trigger] level.entities@[j] == spec_damaged(
                    old(level).entities@[j],
                    old(level).effects@,
                ),
            forall|j: int| i <= j < level.entities@.len() ==> #[trigger] level.entities@[j] == old(
                level,
            ).entities@[j],
        decreases level.entities@.len() - i,
    {
        let e = level.entities[i];
        if e.alive {
            match e.explosive {
                None => {
                    if blast_reaches(&level.effects, e.pos, e.descriptor.radius_or_default()) {
                        level.entities[i].alive = false;
                    }
                },
                Some(s) => {
                    if !s.is_exploding && blast_reaches(
                        &level.effects,
                        e.pos,
                        CHAIN_TARGET_RADIUS as u32,
                    ) {
                        level.entities[i].explosive = Some(
                            ExplosiveState { is_exploding: true, damage_dealt: s.damage_dealt },
                        );
                    }
                },
            }
        }
        i += 1;
    }
    let mut k: usize = 0;
    while k < level.effects.len()
        invariant
            k <= level.effects@.len(),
            level.entities@.len() == old(level).entities@.len(),
            level.effects@.len() == old(level).effects@.len(),
            level.inv(),
            forall|j: int|
                0 <= j < level.entities@.len() ==> #[trigger] level.entities@[j] == spec_damaged(
                    old(level).entities@[j],
                    old(level).effects@,
                ),
            forall|j: int|
                0 <= j < k ==> #[trigger] level.effects@[j] == (ExplosionFX {
                    pending: false,
                    ..old(level).effects@[j]
                }),
            forall|j: int| k <= j < level.effects@.len() ==> #[trigger] level.effects@[j] == old(
                level,
            ).effects@[j],
        decreases level.effects@.len() - k,
    {
        level.effects[k].pending = false;
        k += 1;
    }
}

/// An explosion does its damage once: after it has done it, nothing more is
/// destroyed or set off on its account, however often the damage is asked for.
pub proof fn lemma_damage_is_dealt_once(e: LiveEntity, effects: Seq<ExplosionFX>)
    requires
        forall|k: int| 0 <= k < effects.len() ==> !(#[trigger] effects[k]).pending,
    ensures
        spec_damaged(e, effects) == e,
{
}

/// An explosive that an explosion sets off does not explode on the same tick:
/// the damage adds no explosion, and the explosive starts its own the next time
/// explosions are started.
pub proof fn lemma_chain_waits_a_tick(e: LiveEntity, effects: Seq<ExplosionFX>)
    requires
        e.alive,
        e.explosive matches Some(s) && !s.is_exploding && !s.damage_dealt,
        spec_blast_reaches(effects, e.pos, CHAIN_TARGET_RADIUS as int),
    ensures
        !spec_starts(e),
        spec_starts(spec_damaged(e, effects)),
{
}

} // verus!
