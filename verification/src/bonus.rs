//! What a grab pays once it is home: money, or now and then a side effect.

use vstd::prelude::*;
use crate::animation::PlayerAnimationState;
use crate::audio::AudioId;
use crate::config::{EntityDescriptor, EntityFamily};
use crate::hook::{Hook, HookState, HOOK_ANIM_IDLE};
use crate::level::{Level, LiveEntity};
use crate::player::{PlayerResource, MAX_DYNAMITE, MAX_STRENGTH};
use crate::random::random_between;
use crate::stats::{spec_credit, LevelStats};

verus! {

/// The probability of a certain event.
pub const CHANCE_UNIT: u32 = 1_000_000;

/// Of the side effects, the share that gives dynamite; the rest give strength.
pub const DYNAMITE_SHARE: u32 = 200_000;

/// What a grab paid.
#[derive(Debug, Clone, Copy, PartialEq, Eq, Structural)]
pub enum BonusEffect {
    /// Money.
    Money,
    /// One charge of dynamite, and no money.
    Dynamite,
    /// One more strength, and no money.
    Strength,
}

/// The payout of one grab.
#[derive(Debug, Clone, Copy, PartialEq, Eq)]
pub struct Payout {
    pub effect: BonusEffect,
    /// The money paid; zero for a side effect.
    pub amount: i64,
    /// The sound that goes with the payout.
    pub cue: AudioId,
}

/// What a tick of the payout's display asks the outside for.
#[derive(Debug, Clone, Copy, PartialEq, Eq)]
pub struct BonusOutcome {
    /// The payout, on the tick on which it is made.
    pub payout: Option<Payout>,
    /// The amount to show beside the hook, where money other than zero was paid.
    pub popup: Option<i64>,
    /// The entity that was taken away because the display came to its end.
    pub removed: Option<usize>,
    /// The sound of the hook's return, on the tick on which the display comes
    /// to its end.
    pub reset_cue: Option<AudioId>,
    /// What the miner is to be shown doing.
    pub player_anim: Option<PlayerAnimationState>,
}

/// One and a half times `bonus`, halves rounded up.
pub open spec fn spec_polished(bonus: int) -> int {
    (3 * bonus + 1) / 2
}

/// The value of an entity after the multipliers that the player owns: three
/// times for a rock with the collector's book; failing that, one and a half
/// times for a diamond, bare or carried, with the gem polish.
pub open spec fn spec_multiplied_bonus(
    bonus: int,
    family: EntityFamily,
    book: bool,
    polish: bool,
) -> int {
    if book && family == EntityFamily::Rock {
        bonus * 3
    } else if polish && (family == EntityFamily::Diamond || family
        == EntityFamily::DiamondCarrier) {
        spec_polished(bonus)
    } else {
        bonus
    }
}

/// The probability of a side effect: that of the entity, doubled by the lucky
/// clover.
pub open spec fn spec_effective_chance(chance: int, clover: bool) -> int {
    if clover {
        2 * chance
    } else {
        chance
    }
}

/// Whether the draw `r1` brings a side effect: never where the chance is zero,
/// and otherwise where the draw lies below the chance.
pub open spec fn spec_side_effect(descriptor: EntityDescriptor, clover: bool, r1: u32) -> bool {
    spec_effective_chance(descriptor.spec_chance(), clover) > 0 && r1 < spec_effective_chance(
        descriptor.spec_chance(),
        clover,
    )
}

/// What a grab pays, given the two draws.
pub open spec fn spec_payout(
    descriptor: EntityDescriptor,
    family: EntityFamily,
    player: PlayerResource,
    r1: u32,
    r2: u32,
) -> Payout {
    if spec_side_effect(descriptor, player.has_lucky_clover, r1) {
        Payout {
            effect: if r2 < DYNAMITE_SHARE {
                BonusEffect::Dynamite
            } else {
                BonusEffect::Strength
            },
            amount: 0,
            cue: AudioId::High,
        }
    } else {
        Payout {
            effect: BonusEffect::Money,
            amount: spec_multiplied_bonus(
                descriptor.spec_bonus(),
                family,
                player.has_rock_collectors_book,
                player.has_gem_polish,
            ) as i64,
            cue: AudioId::spec_for_category(descriptor.spec_category()),
        }
    }
}

/// The player after a payout: a charge of dynamite or a point of strength
/// more, neither beyond its cap, where the payout is that side effect.
pub open spec fn spec_player_paid(player: PlayerResource, payout: Payout) -> PlayerResource {
    match payout.effect {
        BonusEffect::Money => player,
        BonusEffect::Dynamite => PlayerResource {
            dynamite_count: if player.dynamite_count < MAX_DYNAMITE {
                (player.dynamite_count + 1) as i32
            } else {
                MAX_DYNAMITE
            },
            ..player
        },
        BonusEffect::Strength => PlayerResource {
            strength: if player.strength < MAX_STRENGTH {
                (player.strength + 1) as i32
            } else {
                MAX_STRENGTH
            },
            ..player
        },
    }
}

/// Whether this tick makes the payout: the display is on, the payout has not
/// been made, and the entity in the claw is still there.
pub open spec fn spec_pays(hook: Hook, entities: Seq<LiveEntity>) -> bool {
    &&& hook.state == HookState::BonusDisplay
    &&& !hook.bonus_resolved
    &&& hook.grabbed_entity matches Some(g) && g < entities.len() && entities[g as int].alive
}

/// The payout that this tick makes, if it makes one.
pub open spec fn spec_tick_payout(
    hook: Hook,
    entities: Seq<LiveEntity>,
    player: PlayerResource,
    r1: u32,
    r2: u32,
) -> Option<Payout> {
    if spec_pays(hook, entities) {
        let e = entities[hook.grabbed_entity.unwrap() as int];
        Some(spec_payout(e.descriptor, e.family, player, r1, r2))
    } else {
        None
    }
}

/// The money owned after this tick.
pub open spec fn spec_money_after(money: u32, payout: Option<Payout>) -> int {
    match payout {
        Some(p) => spec_credit(money as int, p.amount as int),
        None => money as int,
    }
}

/// The player after this tick.
pub open spec fn spec_player_after(player: PlayerResource, payout: Option<Payout>) -> PlayerResource {
    match payout {
        Some(p) => spec_player_paid(player, p),
        None => player,
    }
}

/// Whether the display comes to its end on this tick.
pub open spec fn spec_expires(hook: Hook, dt: u32) -> bool {
    hook.state == HookState::BonusDisplay && dt >= hook.bonus_timer
}

/// The hook after a tick of the payout's display.
///
/// The first tick records the payout. Every tick lets the time of the display
/// run; on the tick on which it runs out the hook lets go, forgets the payout
/// and is idle again. A hook that shows no payout is left as it is.
pub open spec fn spec_bonus_tick(hook: Hook, dt: u32, payout: Option<Payout>) -> Hook {
    if hook.state != HookState::BonusDisplay {
        hook
    } else if dt >= hook.bonus_timer {
        Hook {
            state: HookState::Idle,
            grabbed_entity: None,
            bonus_timer: 0,
            bonus_resolved: false,
            current_bonus: 0,
            show_strength: false,
            frame: HOOK_ANIM_IDLE,
            ..hook
        }
    } else {
        Hook {
            bonus_timer: (hook.bonus_timer - dt) as u32,
            bonus_resolved: true,
            current_bonus: match payout {
                Some(p) => p.amount,
                None => hook.current_bonus,
            },
            show_strength: match payout {
                Some(p) => p.effect == BonusEffect::Strength,
                None => hook.show_strength,
            },
            ..hook
        }
    }
}

/// The entities after a tick of the payout's display: the entity in the claw
/// is taken away on the tick on which the display runs out.
pub open spec fn spec_bonus_entities(hook: Hook, dt: u32, entities: Seq<LiveEntity>) -> Seq<
    LiveEntity,
> {
    match hook.grabbed_entity {
        Some(g) if spec_expires(hook, dt) && g < entities.len() => entities.update(
            g as int,
            LiveEntity { alive: false, ..entities[g as int] },
        ),
        _ => entities,
    }
}

/// One and a half times `bonus`, halves rounded up.
fn polished(bonus: i64) -> (r: i64)
    requires
        -0x8000_0000 <= bonus <= 0x7fff_ffff,
    ensures
        r == spec_polished(bonus as int),
{
    let halves: i64 = 3 * bonus;
    if halves >= -1 {
        (halves + 1) / 2
    } else {
        -((-halves) / 2)
    }
}

/// The value of an entity after the multipliers that the player owns.
pub fn multiplied_bonus(bonus: i32, family: EntityFamily, book: bool, polish: bool) -> (r: i64)
    ensures
        r == spec_multiplied_bonus(bonus as int, family, book, polish),
{
    let is_rock = match family {
        EntityFamily::Rock => true,
        _ => false,
    };
    let is_diamond = match family {
        EntityFamily::Diamond => true,
        EntityFamily::DiamondCarrier => true,
        _ => false,
    };
    if book && is_rock {
        bonus as i64 * 3
    } else if polish && is_diamond {
        polished(bonus as i64)
    } else {
        bonus as i64
    }
}

/// Tells whether the draw `r1` brings a side effect.
pub fn side_effect_fires(descriptor: &EntityDescriptor, clover: bool, r1: u32) -> (fires: bool)
    ensures
        fires == spec_side_effect(*descriptor, clover, r1),
{
    let base: u64 = descriptor.chance_or_default() as u64;
    let chance: u64 = if clover {
        2 * base
    } else {
        base
    };
    chance > 0 && (r1 as u64) < chance
}

/// Makes the payout of one grab, given the two draws: pays the money in, or
/// gives the player the side effect.
pub fn resolve_bonus(
    descriptor: &EntityDescriptor,
    family: EntityFamily,
    player: &mut PlayerResource,
    stats: &mut LevelStats,
    r1: u32,
    r2: u32,
) -> (payout: Payout)
    requires
        old(player).inv(),
    ensures
        payout == spec_payout(*descriptor, family, *old(player), r1, r2),
        *final(player) == spec_player_paid(*old(player), payout),
        final(stats).money == spec_credit(old(stats).money as int, payout.amount as int),
        final(stats).goal == old(stats).goal,
        final(stats).goal_addon == old(stats).goal_addon,
        final(stats).level == old(stats).level,
        final(stats).timer == old(stats).timer,
        final(stats).is_first_init == old(stats).is_first_init,
        final(stats).real_level_str == old(stats).real_level_str,
        final(player).inv(),
{
    if side_effect_fires(descriptor, player.has_lucky_clover, r1) {
        stats.credit(0);
        if r2 < DYNAMITE_SHARE {
            if player.dynamite_count < MAX_DYNAMITE {
                player.dynamite_count = player.dynamite_count + 1;
            } else {
                player.dynamite_count = MAX_DYNAMITE;
            }
            Payout { effect: BonusEffect::Dynamite, amount: 0, cue: AudioId::High }
        } else {
            if player.strength < MAX_STRENGTH {
                player.strength = player.strength + 1;
            } else {
                player.strength = MAX_STRENGTH;
            }
            Payout { effect: BonusEffect::Strength, amount: 0, cue: AudioId::High }
        }
    } else {
        let amount = multiplied_bonus(
            descriptor.bonus_or_default(),
            family,
            player.has_rock_collectors_book,
            player.has_gem_polish,
        );
        stats.credit(amount);
        Payout {
            effect: BonusEffect::Money,
            amount,
            cue: AudioId::for_category(descriptor.category_or_default()),
        }
    }
}

/// Lets `dt` milliseconds of the payout's display pass, given the two draws
/// that decide a payout made on this tick.
pub fn update_bonus_state_with(
    hook: &mut Hook,
    dt: u32,
    level: &mut Level,
    player: &mut PlayerResource,
    stats: &mut LevelStats,
    r1: u32,
    r2: u32,
) -> (out: BonusOutcome)
    requires
        old(hook).inv(),
        old(hook).holds_within(old(level).entities@.len()),
        old(level).inv(),
        old(player).inv(),
    ensures
        out.payout == spec_tick_payout(*old(hook), old(level).entities@, *old(player), r1, r2),
        *final(hook) == spec_bonus_tick(*old(hook), dt, out.payout),
        final(level).entities@ == spec_bonus_entities(*old(hook), dt, old(level).entities@),
        final(level).effects@ == old(level).effects@,
        *final(player) == spec_player_after(*old(player), out.payout),
        final(stats).money == spec_money_after(old(stats).money, out.payout),
        final(stats).goal == old(stats).goal,
        final(stats).goal_addon == old(stats).goal_addon,
        final(stats).level == old(stats).level,
        final(stats).timer == old(stats).timer,
        final(stats).is_first_init == old(stats).is_first_init,
        final(stats).real_level_str == old(stats).real_level_str,
        out.popup == match out.payout {
            Some(p) if p.amount != 0 => Some(p.amount),
            _ => None,
        },
        out.removed == if spec_expires(*old(hook), dt) {
            old(hook).grabbed_entity
        } else {
            None
        },
        out.reset_cue == if spec_expires(*old(hook), dt) {
            Some(AudioId::HookReset)
        } else {
            None
        },
        out.player_anim == if spec_expires(*old(hook), dt) {
            Some(PlayerAnimationState::Idle)
        } else {
            match out.payout {
                Some(p) if p.effect == BonusEffect::Strength => Some(
                    PlayerAnimationState::Strengthen,
                ),
                _ => None,
            }
        },
        final(hook).inv(),
        final(hook).holds_within(final(level).entities@.len()),
        final(level).inv(),
        final(player).inv(),
{
    let mut out = BonusOutcome {
        payout: None,
        popup: None,
        removed: None,
        reset_cue: None,
        player_anim: None,
    };
    match hook.state {
        HookState::BonusDisplay => {},
        _ => {
            return out;
        },
    }
    let g: usize = match hook.grabbed_entity {
        Some(g) => g,
        None => {
            return out;
        },
    };
    if !hook.bonus_resolved {
        if level.entities[g].alive {
            let descriptor = level.entities[g].descriptor;
            let family = level.entities[g].family;
            let payout = resolve_bonus(&descriptor, family, player, stats, r1, r2);
            out.payout = Some(payout);
            if payout.amount != 0 {
                out.popup = Some(payout.amount);
            }
            hook.current_bonus = payout.amount;
            match payout.effect {
                BonusEffect::Strength => {
                    hook.show_strength = true;
                    out.player_anim = Some(PlayerAnimationState::Strengthen);
                },
                _ => {
                    hook.show_strength = false;
                },
            }
        }
        hook.bonus_resolved = true;
    }
    if dt >= hook.bonus_timer {
        level.entities[g].alive = false;
        hook.state = HookState::Idle;
        hook.grabbed_entity = None;
        hook.bonus_timer = 0;
        hook.bonus_resolved = false;
        hook.current_bonus = 0;
        hook.show_strength = false;
        hook.frame = HOOK_ANIM_IDLE;
        out.removed = Some(g);
        out.reset_cue = Some(AudioId::HookReset);
        out.player_anim = Some(PlayerAnimationState::Idle);
    } else {
        hook.bonus_timer = hook.bonus_timer - dt;
    }
    out
}

/// Lets `dt` milliseconds of the payout's display pass. Where this tick makes
/// the payout, the draws that decide it come from the thread's random number
/// generator, each below the unit of chance: the first only where the entity
/// has a chance of a side effect, the second only where the first brought one.
pub fn update_bonus_state(
    hook: &mut Hook,
    dt: u32,
    level: &mut Level,
    player: &mut PlayerResource,
    stats: &mut LevelStats,
) -> (out: BonusOutcome)
    requires
        old(hook).inv(),
        old(hook).holds_within(old(level).entities@.len()),
        old(level).inv(),
        old(player).inv(),
    ensures
        exists|r1: u32, r2: u32|
            r1 < CHANCE_UNIT && r2 < CHANCE_UNIT && #[trigger] spec_tick_payout(
                *old(hook),
                old(level).entities@,
                *old(player),
                r1,
                r2,
            ) == out.payout,
        *final(hook) == spec_bonus_tick(*old(hook), dt, out.payout),
        final(level).entities@ == spec_bonus_entities(*old(hook), dt, old(level).entities@),
        final(level).effects@ == old(level).effects@,
        *final(player) == spec_player_after(*old(player), out.payout),
        final(stats).money == spec_money_after(old(stats).money, out.payout),
        final(stats).goal == old(stats).goal,
        final(stats).goal_addon == old(stats).goal_addon,
        final(stats).level == old(stats).level,
        final(stats).timer == old(stats).timer,
        final(stats).is_first_init == old(stats).is_first_init,
        final(stats).real_level_str == old(stats).real_level_str,
        out.popup == match out.payout {
            Some(p) if p.amount != 0 => Some(p.amount),
            _ => None,
        },
        out.removed == if spec_expires(*old(hook), dt) {
            old(hook).grabbed_entity
        } else {
            None
        },
        out.reset_cue == if spec_expires(*old(hook), dt) {
            Some(AudioId::HookReset)
        } else {
            None
        },
        out.player_anim == if spec_expires(*old(hook), dt) {
            Some(PlayerAnimationState::Idle)
        } else {
            match out.payout {
                Some(p) if p.effect == BonusEffect::Strength => Some(
                    PlayerAnimationState::Strengthen,
                ),
                _ => None,
            }
        },
        final(hook).inv(),
        final(hook).holds_within(final(level).entities@.len()),
        final(level).inv(),
        final(player).inv(),
{
    let mut r1: u32 = 0;
    let mut r2: u32 = 0;
    let pays = match hook.state {
        HookState::BonusDisplay => !hook.bonus_resolved && match hook.grabbed_entity {
            Some(g) => level.entities[g].alive,
            None => false,
        },
        _ => false,
    };
    if pays {
        match hook.grabbed_entity {
            Some(g) => {
                let descriptor = level.entities[g].descriptor;
                if descriptor.chance_or_default() > 0 {
                    r1 = random_between(0, CHANCE_UNIT - 1);
                    if side_effect_fires(&descriptor, player.has_lucky_clover, r1) {
                        r2 = random_between(0, CHANCE_UNIT - 1);
                    }
                }
            },
            None => {},
        }
    }
    update_bonus_state_with(hook, dt, level, player, stats, r1, r2)
}

/// The payout is made once for each grab: once a tick of the display has
/// passed, however many more follow before the display runs out, and whatever
/// they draw, none of them pays money or a side effect.
pub proof fn lemma_payout_is_made_once(
    hook: Hook,
    dt: u32,
    later: Seq<LiveEntity>,
    player: PlayerResource,
    first: Option<Payout>,
    money: u32,
    r1: u32,
    r2: u32,
)
    ensures
        !spec_pays(spec_bonus_tick(hook, dt, first), later),
        spec_tick_payout(spec_bonus_tick(hook, dt, first), later, player, r1, r2).is_none(),
        spec_money_after(
            money,
            spec_tick_payout(spec_bonus_tick(hook, dt, first), later, player, r1, r2),
        ) == money,
        spec_player_after(
            player,
            spec_tick_payout(spec_bonus_tick(hook, dt, first), later, player, r1, r2),
        ) == player,
{
}

/// Where the chance of a side effect is zero no draw brings one, and where it
/// is the unit or more every draw below the unit does.
pub proof fn lemma_certain_and_impossible_chances(
    descriptor: EntityDescriptor,
    clover: bool,
    r1: u32,
)
    requires
        r1 < CHANCE_UNIT,
    ensures
        descriptor.spec_chance() == 0 ==> !spec_side_effect(descriptor, clover, r1),
        descriptor.spec_chance() >= CHANCE_UNIT ==> spec_side_effect(descriptor, clover, r1),
{
}

} // verus!
