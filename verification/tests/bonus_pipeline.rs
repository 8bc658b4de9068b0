use gold_miner::animation::PlayerAnimationState;
use gold_miner::audio::AudioId;
use gold_miner::bonus::{
    multiplied_bonus, resolve_bonus, side_effect_fires, update_bonus_state,
    update_bonus_state_with, BonusEffect, Payout,
};
use gold_miner::config::{BonusCategory, EntityDescriptor, EntityFamily, EntityType};
use gold_miner::hook::{Hook, HookState, HOOK_ANIM_IDLE};
use gold_miner::level::{Level, LiveEntity};
use gold_miner::player::PlayerResource;
use gold_miner::stats::LevelStats;
use gold_miner::utils::Vec2;

fn described(bonus: i32, category: Option<BonusCategory>, chance: u32) -> EntityDescriptor {
    let mut d = EntityDescriptor::new(EntityType::Basic);
    d.bonus = Some(bonus);
    d.bonus_type = category;
    d.extra_effect_chances = Some(chance);
    d
}

fn home_with(descriptor: EntityDescriptor, family: EntityFamily) -> (Hook, Level) {
    let entity = LiveEntity {
        descriptor,
        family,
        pos: Vec2 { x: -2_000, y: 77_000 },
        alive: true,
        patrol: None,
        explosive: None,
    };
    let mut hook = Hook::default();
    hook.state = HookState::BonusDisplay;
    hook.grabbed_entity = Some(0);
    hook.bonus_timer = 1_000;
    hook.frame = 1;
    (hook, Level { entities: vec![entity], effects: Vec::new() })
}

#[test]
fn plain_payout_credits_the_bonus_and_plays_its_category() {
    let (mut hook, mut level) = home_with(
        described(100, Some(BonusCategory::High), 0),
        EntityFamily::Other,
    );
    let mut player = PlayerResource::default();
    let mut stats = LevelStats::default();
    stats.money = 40;
    let out = update_bonus_state_with(&mut hook, 16, &mut level, &mut player, &mut stats, 0, 0);
    assert_eq!(stats.money, 140);
    assert_eq!(player.strength, 1);
    assert_eq!(player.dynamite_count, 0);
    assert_eq!(
        out.payout,
        Some(Payout { effect: BonusEffect::Money, amount: 100, cue: AudioId::High })
    );
    assert_eq!(out.popup, Some(100));
    assert_eq!(out.removed, None);
    assert_eq!(out.reset_cue, None);
    assert_eq!(hook.current_bonus, 100);
    assert!(!hook.show_strength);
    assert!(hook.bonus_resolved);
    assert_eq!(hook.bonus_timer, 984);
    // The sound is asked for once: later ticks carry no payout.
    let mut cues = 1;
    for _ in 0..10 {
        let out = update_bonus_state_with(&mut hook, 16, &mut level, &mut player, &mut stats, 0, 0);
        if out.payout.is_some() {
            cues += 1;
        }
    }
    assert_eq!(cues, 1);
    assert_eq!(stats.money, 140);
}

#[test]
fn side_effect_with_low_second_draw_gives_dynamite() {
    let (mut hook, mut level) = home_with(described(50, None, 1_000_000), EntityFamily::Other);
    let mut player = PlayerResource::default();
    let mut stats = LevelStats::default();
    stats.money = 7;
    let out = update_bonus_state_with(
        &mut hook, 1_000, &mut level, &mut player, &mut stats, 0, 100_000,
    );
    assert_eq!(player.dynamite_count, 1);
    assert_eq!(player.strength, 1);
    assert_eq!(stats.money, 7);
    assert_eq!(
        out.payout,
        Some(Payout { effect: BonusEffect::Dynamite, amount: 0, cue: AudioId::High })
    );
    assert_eq!(out.popup, None);
    // The display ran out on the same tick: the entity is gone.
    assert_eq!(out.removed, Some(0));
    assert!(!level.entities[0].alive);
    assert_eq!(hook.state, HookState::Idle);
}

#[test]
fn side_effect_with_high_second_draw_gives_strength() {
    let (mut hook, mut level) = home_with(described(50, None, 1_000_000), EntityFamily::Other);
    let mut player = PlayerResource::default();
    let mut stats = LevelStats::default();
    stats.money = 7;
    let out = update_bonus_state_with(
        &mut hook, 16, &mut level, &mut player, &mut stats, 0, 500_000,
    );
    assert_eq!(player.strength, 2);
    assert_eq!(player.dynamite_count, 0);
    assert_eq!(stats.money, 7);
    assert!(hook.show_strength);
    assert_eq!(hook.current_bonus, 0);
    assert_eq!(out.player_anim, Some(PlayerAnimationState::Strengthen));
    assert_eq!(
        out.payout,
        Some(Payout { effect: BonusEffect::Strength, amount: 0, cue: AudioId::High })
    );
}

#[test]
fn second_draw_of_exactly_a_fifth_gives_strength() {
    let d = described(50, None, 1_000_000);
    let mut player = PlayerResource::default();
    let mut stats = LevelStats::default();
    let p = resolve_bonus(&d, EntityFamily::Other, &mut player, &mut stats, 0, 199_999);
    assert_eq!(p.effect, BonusEffect::Dynamite);
    let p = resolve_bonus(&d, EntityFamily::Other, &mut player, &mut stats, 0, 200_000);
    assert_eq!(p.effect, BonusEffect::Strength);
}

#[test]
fn strength_and_dynamite_stop_at_their_caps() {
    let d = described(50, None, 1_000_000);
    let mut player = PlayerResource::default();
    player.strength = 6;
    player.dynamite_count = 12;
    let mut stats = LevelStats::default();
    resolve_bonus(&d, EntityFamily::Other, &mut player, &mut stats, 0, 900_000);
    assert_eq!(player.strength, 6);
    resolve_bonus(&d, EntityFamily::Other, &mut player, &mut stats, 0, 0);
    assert_eq!(player.dynamite_count, 12);
    player.strength = 5;
    resolve_bonus(&d, EntityFamily::Other, &mut player, &mut stats, 0, 900_000);
    assert_eq!(player.strength, 6);
    assert_eq!(stats.money, 0);
}

#[test]
fn rock_is_worth_three_times_with_the_collectors_book() {
    let (mut hook, mut level) = home_with(described(10, None, 0), EntityFamily::Rock);
    let mut player = PlayerResource::default();
    player.has_rock_collectors_book = true;
    let mut stats = LevelStats::default();
    let out = update_bonus_state_with(&mut hook, 16, &mut level, &mut player, &mut stats, 0, 0);
    assert_eq!(stats.money, 30);
    assert_eq!(out.popup, Some(30));
    assert_eq!(out.payout.map(|p| p.cue), Some(AudioId::Normal));
}

#[test]
fn multipliers_apply_to_their_own_family_only() {
    assert_eq!(multiplied_bonus(10, EntityFamily::Rock, true, true), 30);
    assert_eq!(multiplied_bonus(10, EntityFamily::Rock, false, true), 10);
    assert_eq!(multiplied_bonus(10, EntityFamily::Other, true, true), 10);
    assert_eq!(multiplied_bonus(10, EntityFamily::Diamond, true, false), 10);
    assert_eq!(multiplied_bonus(600, EntityFamily::Diamond, false, true), 900);
    assert_eq!(multiplied_bonus(602, EntityFamily::DiamondCarrier, true, true), 903);
    assert_eq!(multiplied_bonus(i32::MAX, EntityFamily::Rock, true, false), 6_442_450_941);
}

#[test]
fn polish_rounds_halves_up() {
    assert_eq!(multiplied_bonus(1, EntityFamily::Diamond, false, true), 2);
    assert_eq!(multiplied_bonus(3, EntityFamily::Diamond, false, true), 5);
    assert_eq!(multiplied_bonus(0, EntityFamily::Diamond, false, true), 0);
    assert_eq!(multiplied_bonus(-1, EntityFamily::Diamond, false, true), -1);
    assert_eq!(multiplied_bonus(-2, EntityFamily::Diamond, false, true), -3);
    assert_eq!(multiplied_bonus(-3, EntityFamily::Diamond, false, true), -4);
}

#[test]
fn chance_of_zero_never_fires_and_chance_of_one_always_does() {
    let never = described(1, None, 0);
    let always = described(1, None, 1_000_000);
    for r1 in [0u32, 1, 499_999, 999_999] {
        assert!(!side_effect_fires(&never, false, r1));
        assert!(!side_effect_fires(&never, true, r1));
        assert!(side_effect_fires(&always, false, r1));
    }
    let unset = EntityDescriptor::new(EntityType::Basic);
    assert!(!side_effect_fires(&unset, true, 0));
}

#[test]
fn lucky_clover_doubles_the_chance() {
    let d = described(1, None, 300_000);
    assert!(side_effect_fires(&d, false, 299_999));
    assert!(!side_effect_fires(&d, false, 300_000));
    assert!(side_effect_fires(&d, true, 599_999));
    assert!(!side_effect_fires(&d, true, 600_000));
    let huge = described(1, None, u32::MAX);
    assert!(side_effect_fires(&huge, true, u32::MAX));
}

#[test]
fn category_picks_the_sound_and_defaults_to_normal() {
    let mut player = PlayerResource::default();
    let mut stats = LevelStats::default();
    let low = described(5, Some(BonusCategory::Low), 0);
    let p = resolve_bonus(&low, EntityFamily::Other, &mut player, &mut stats, 0, 0);
    assert_eq!(p.cue, AudioId::Low);
    let normal = described(5, Some(BonusCategory::Normal), 0);
    let p = resolve_bonus(&normal, EntityFamily::Other, &mut player, &mut stats, 0, 0);
    assert_eq!(p.cue, AudioId::Normal);
    let unset = described(5, None, 0);
    let p = resolve_bonus(&unset, EntityFamily::Other, &mut player, &mut stats, 0, 0);
    assert_eq!(p.cue, AudioId::Normal);
    assert_eq!(stats.money, 15);
}

#[test]
fn worthless_catch_shows_no_popup() {
    let (mut hook, mut level) = home_with(described(0, None, 0), EntityFamily::Other);
    let mut player = PlayerResource::default();
    let mut stats = LevelStats::default();
    let out = update_bonus_state_with(&mut hook, 16, &mut level, &mut player, &mut stats, 0, 0);
    assert_eq!(out.popup, None);
    assert_eq!(out.payout.map(|p| p.amount), Some(0));
    assert_eq!(stats.money, 0);
}

#[test]
fn money_stays_between_zero_and_the_largest_amount() {
    let mut stats = LevelStats::default();
    stats.money = u32::MAX - 5;
    stats.credit(10);
    assert_eq!(stats.money, u32::MAX);
    stats.money = 5;
    stats.credit(-10);
    assert_eq!(stats.money, 0);
    stats.credit(i64::MAX);
    assert_eq!(stats.money, u32::MAX);
    stats.credit(i64::MIN);
    assert_eq!(stats.money, 0);
}

#[test]
fn payout_is_made_once_however_often_the_display_is_ticked() {
    let (mut hook, mut level) = home_with(described(100, None, 500_000), EntityFamily::Other);
    let mut player = PlayerResource::default();
    let mut stats = LevelStats::default();
    update_bonus_state_with(&mut hook, 100, &mut level, &mut player, &mut stats, 700_000, 0);
    assert_eq!(stats.money, 100);
    for _ in 0..8 {
        // Draws that would bring a side effect change nothing any more.
        let out = update_bonus_state_with(&mut hook, 100, &mut level, &mut player, &mut stats, 0, 0);
        assert_eq!(out.payout, None);
        assert_eq!(out.popup, None);
        assert_eq!(stats.money, 100);
        assert_eq!(player.dynamite_count, 0);
        assert_eq!(hook.state, HookState::BonusDisplay);
    }
    assert_eq!(hook.bonus_timer, 100);
    let out = update_bonus_state_with(&mut hook, 100, &mut level, &mut player, &mut stats, 0, 0);
    assert_eq!(out.removed, Some(0));
    assert_eq!(out.reset_cue, Some(AudioId::HookReset));
    assert_eq!(out.player_anim, Some(PlayerAnimationState::Idle));
    assert_eq!(stats.money, 100);
}

#[test]
fn display_ends_with_the_entity_gone_and_the_hook_idle() {
    let (mut hook, mut level) = home_with(described(100, None, 0), EntityFamily::Other);
    let mut player = PlayerResource::default();
    let mut stats = LevelStats::default();
    update_bonus_state_with(&mut hook, 999, &mut level, &mut player, &mut stats, 0, 0);
    assert_eq!(hook.state, HookState::BonusDisplay);
    assert!(level.entities[0].alive);
    update_bonus_state_with(&mut hook, 1, &mut level, &mut player, &mut stats, 0, 0);
    assert_eq!(hook.state, HookState::Idle);
    assert_eq!(hook.grabbed_entity, None);
    assert_eq!(hook.bonus_timer, 0);
    assert_eq!(hook.current_bonus, 0);
    assert!(!hook.bonus_resolved);
    assert!(!hook.show_strength);
    assert_eq!(hook.frame, HOOK_ANIM_IDLE);
    assert!(!level.entities[0].alive);
    assert!(hook.check());
    // A hook that shows no payout is left alone.
    let before = hook;
    let out = update_bonus_state_with(&mut hook, 500, &mut level, &mut player, &mut stats, 0, 0);
    assert_eq!(hook, before);
    assert_eq!(out.payout, None);
    assert_eq!(out.removed, None);
    assert_eq!(stats.money, 100);
}

#[test]
fn catch_that_was_destroyed_on_the_way_pays_nothing() {
    let (mut hook, mut level) = home_with(described(100, None, 1_000_000), EntityFamily::Other);
    level.entities[0].alive = false;
    let mut player = PlayerResource::default();
    let mut stats = LevelStats::default();
    let out = update_bonus_state_with(&mut hook, 16, &mut level, &mut player, &mut stats, 0, 0);
    assert_eq!(out.payout, None);
    assert_eq!(stats.money, 0);
    assert_eq!(player.dynamite_count, 0);
    assert!(hook.bonus_resolved);
}

#[test]
fn drawn_payout_is_one_of_the_possible_ones() {
    for _ in 0..200 {
        let (mut hook, mut level) = home_with(described(80, None, 500_000), EntityFamily::Other);
        let mut player = PlayerResource::default();
        let mut stats = LevelStats::default();
        let out = update_bonus_state(&mut hook, 16, &mut level, &mut player, &mut stats);
        let payout = out.payout.unwrap();
        match payout.effect {
            BonusEffect::Money => {
                assert_eq!(stats.money, 80);
                assert_eq!((player.strength, player.dynamite_count), (1, 0));
            }
            BonusEffect::Dynamite => {
                assert_eq!(stats.money, 0);
                assert_eq!((player.strength, player.dynamite_count), (1, 1));
            }
            BonusEffect::Strength => {
                assert_eq!(stats.money, 0);
                assert_eq!((player.strength, player.dynamite_count), (2, 0));
            }
        }
    }
}

#[test]
fn drawn_payout_without_chance_is_always_money() {
    for _ in 0..50 {
        let (mut hook, mut level) = home_with(described(80, None, 0), EntityFamily::Other);
        let mut player = PlayerResource::default();
        let mut stats = LevelStats::default();
        let out = update_bonus_state(&mut hook, 16, &mut level, &mut player, &mut stats);
        assert_eq!(out.payout.map(|p| p.effect), Some(BonusEffect::Money));
        assert_eq!(stats.money, 80);
    }
}

#[test]
fn drawn_payout_with_full_chance_is_never_money() {
    let mut dynamite = 0;
    let mut strength = 0;
    for _ in 0..300 {
        let (mut hook, mut level) = home_with(described(80, None, 1_000_000), EntityFamily::Other);
        let mut player = PlayerResource::default();
        let mut stats = LevelStats::default();
        let out = update_bonus_state(&mut hook, 16, &mut level, &mut player, &mut stats);
        match out.payout.map(|p| p.effect) {
            Some(BonusEffect::Dynamite) => dynamite += 1,
            Some(BonusEffect::Strength) => strength += 1,
            other => panic!("unexpected payout {:?}", other),
        }
        assert_eq!(stats.money, 0);
    }
    // Both branches are reachable, so the draws are not a constant.
    assert!(dynamite > 0);
    assert!(strength > 0);
}
