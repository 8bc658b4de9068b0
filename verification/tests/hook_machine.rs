use gold_miner::animation::PlayerAnimationState;
use gold_miner::audio::AudioId;
use gold_miner::config::{EntityDescriptor, EntityFamily, EntityType};
use gold_miner::explosive::ExplosiveState;
use gold_miner::hook::{
    find_grab, handle_hook_input, update_hook, use_dynamite, Aim, Hook, HookState,
    HOOK_ANIM_GRAB_MINI, HOOK_ANIM_GRAB_NORMAL, HOOK_ANIM_IDLE, HOOK_MAX_ANGLE, HOOK_MAX_LENGTH,
    HOOK_MIN_ANGLE,
};
use gold_miner::level::{Level, LiveEntity};
use gold_miner::player::PlayerResource;
use gold_miner::utils::Vec2;

fn down() -> Aim {
    Aim { x: 0, y: -1_000_000 }
}

fn thing(x: i64, y: i64, mass: Option<u32>) -> LiveEntity {
    let mut descriptor = EntityDescriptor::new(EntityType::Basic);
    descriptor.mass = mass;
    LiveEntity {
        descriptor,
        family: EntityFamily::Other,
        pos: Vec2 { x, y },
        alive: true,
        patrol: None,
        explosive: None,
    }
}

fn level_of(entities: Vec<LiveEntity>) -> Level {
    Level { entities, effects: Vec::new() }
}

fn fired(aim: Aim) -> Hook {
    let mut hook = Hook::default();
    hook.angle = 10_000;
    assert_eq!(handle_hook_input(&mut hook, true, aim), Some(AudioId::GrabStart));
    hook
}

#[test]
fn default_hook_is_idle_at_the_right_bound() {
    let hook = Hook::default();
    assert_eq!(hook.state, HookState::Idle);
    assert_eq!(hook.angle, HOOK_MAX_ANGLE);
    assert_eq!(hook.length, 0);
    assert!(hook.rotate_right);
    assert_eq!(hook.grabbed_entity, None);
    assert!(hook.check());
}

#[test]
fn sweep_turns_at_the_bounds_and_never_passes_them() {
    let mut hook = Hook::default();
    let mut level = Level::new();
    let player = PlayerResource::default();
    update_hook(&mut hook, 16, &mut level, &player);
    assert_eq!(hook.angle, HOOK_MAX_ANGLE);
    assert!(!hook.rotate_right);
    update_hook(&mut hook, 1_000, &mut level, &player);
    assert_eq!(hook.angle, 10_000);
    assert!(!hook.rotate_right);
    update_hook(&mut hook, 4_000_000_000, &mut level, &player);
    assert_eq!(hook.angle, HOOK_MIN_ANGLE);
    assert!(hook.rotate_right);
    update_hook(&mut hook, 100, &mut level, &player);
    assert_eq!(hook.angle, HOOK_MIN_ANGLE + 6_500);
    assert!(hook.rotate_right);
    update_hook(&mut hook, u32::MAX, &mut level, &player);
    assert_eq!(hook.angle, HOOK_MAX_ANGLE);
    assert!(!hook.rotate_right);
}

#[test]
fn sweep_stays_in_range_for_many_tick_lengths() {
    let mut hook = Hook::default();
    let mut level = Level::new();
    let player = PlayerResource::default();
    let mut dt: u32 = 1;
    for _ in 0..400 {
        update_hook(&mut hook, dt % 3_000, &mut level, &player);
        assert!(HOOK_MIN_ANGLE <= hook.angle && hook.angle <= HOOK_MAX_ANGLE);
        assert_eq!(hook.state, HookState::Idle);
        dt = dt.wrapping_mul(1_103_515_245).wrapping_add(12_345);
    }
}

#[test]
fn fire_only_starts_an_idle_hook() {
    let mut hook = Hook::default();
    assert_eq!(handle_hook_input(&mut hook, false, down()), None);
    assert_eq!(hook.state, HookState::Idle);
    assert_eq!(handle_hook_input(&mut hook, true, down()), Some(AudioId::GrabStart));
    assert_eq!(hook.state, HookState::Extending);
    assert_eq!(hook.aim, down());
    let again = Aim { x: 1_000_000, y: 0 };
    assert_eq!(handle_hook_input(&mut hook, true, again), None);
    assert_eq!(hook.aim, down());
}

#[test]
fn aim_is_refused_when_longer_than_the_unit() {
    assert_eq!(Aim::new(0, -1_000_000), Some(down()));
    assert_eq!(Aim::new(1_000_001, 0), None);
    assert_eq!(Aim::new(0, -1_000_001), None);
}

#[test]
fn tip_and_collision_point_lie_along_the_aim() {
    let mut hook = Hook::default();
    hook.state = HookState::Extending;
    hook.aim = Aim { x: 600_000, y: -800_000 };
    hook.length = 100_000;
    assert_eq!(hook.tip(), Vec2 { x: -2_000 + 60_000, y: 90_000 - 80_000 });
    assert_eq!(hook.collision_point(), Vec2 { x: -2_000 + 67_800, y: 90_000 - 90_400 });
    hook.aim = Aim { x: -600_000, y: -800_000 };
    assert_eq!(hook.tip(), Vec2 { x: -2_000 - 60_000, y: 90_000 - 80_000 });
}

#[test]
fn extending_grows_at_constant_speed() {
    let mut hook = fired(down());
    let mut level = Level::new();
    let player = PlayerResource::default();
    let out = update_hook(&mut hook, 100, &mut level, &player);
    assert_eq!(hook.length, 10_000);
    assert_eq!(hook.state, HookState::Extending);
    assert_eq!(out.cue, None);
    assert_eq!(out.player_anim, Some(PlayerAnimationState::Grab));
    update_hook(&mut hook, 250, &mut level, &player);
    assert_eq!(hook.length, 35_000);
    assert_eq!(hook.angle, 10_000);
}

#[test]
fn extending_turns_back_when_the_claw_leaves_the_field() {
    let mut hook = fired(down());
    let mut level = Level::new();
    let player = PlayerResource::default();
    let mut ticks = 0;
    while hook.state == HookState::Extending {
        let before = hook.length;
        let out = update_hook(&mut hook, 100, &mut level, &player);
        assert!(hook.length >= before);
        ticks += 1;
        if hook.state == HookState::Retracting {
            assert_eq!(out.cue, Some(AudioId::GrabBack));
        } else {
            assert_eq!(out.cue, None);
        }
    }
    // The claw is 13 px ahead of the tip and leaves the field below y = -120.
    assert_eq!(ticks, 20);
    assert_eq!(hook.length, 200_000);
    assert_eq!(hook.grabbed_entity, None);
}

#[test]
fn extending_is_clamped_at_the_longest_length_and_turns_back_at_once() {
    let mut hook = fired(Aim { x: 0, y: 0 });
    let mut level = Level::new();
    let player = PlayerResource::default();
    update_hook(&mut hook, 4_599, &mut level, &player);
    assert_eq!(hook.length, 459_900);
    assert_eq!(hook.state, HookState::Extending);
    let out = update_hook(&mut hook, u32::MAX, &mut level, &player);
    assert_eq!(hook.length, HOOK_MAX_LENGTH);
    assert_eq!(hook.state, HookState::Retracting);
    assert_eq!(out.cue, Some(AudioId::GrabBack));
}

#[test]
fn claw_grabs_the_first_entity_within_both_radii() {
    let far = thing(100_000, 0, None);
    let near = thing(-2_000, 60_000, Some(5_000));
    let also_near = thing(-2_000, 62_000, None);
    let mut level = level_of(vec![far, near, also_near]);
    let mut hook = fired(down());
    let player = PlayerResource::default();
    // After 100 ms the claw is at (-2, 67), 7 px from entity 1 and 5 px from entity 2.
    let out = update_hook(&mut hook, 100, &mut level, &player);
    assert_eq!(hook.grabbed_entity, Some(1));
    assert_eq!(hook.state, HookState::Retracting);
    assert_eq!(hook.frame, HOOK_ANIM_GRAB_NORMAL);
    assert_eq!(out.cue, Some(AudioId::GrabBack));
    assert_eq!(level.entities[1].explosive, None);
}

#[test]
fn claw_misses_at_exactly_the_sum_of_the_radii() {
    let entities = vec![thing(-2_000, 55_000, None)];
    assert_eq!(find_grab(&entities, Vec2 { x: -2_000, y: 67_000 }), None);
    assert_eq!(find_grab(&entities, Vec2 { x: -2_000, y: 66_999 }), Some(0));
    let mut wide = thing(-2_000, 55_000, None);
    wide.descriptor.collision_radius = Some(7_000);
    assert_eq!(find_grab(&vec![wide], Vec2 { x: -2_000, y: 67_000 }), Some(0));
}

#[test]
fn claw_ignores_destroyed_entities() {
    let mut gone = thing(-2_000, 60_000, None);
    gone.alive = false;
    let there = thing(-2_000, 61_000, Some(1_000));
    let entities = vec![gone, there];
    assert_eq!(find_grab(&entities, Vec2 { x: -2_000, y: 67_000 }), Some(1));
}

#[test]
fn small_catch_shows_the_small_claw() {
    let mut level = level_of(vec![thing(-2_000, 60_000, Some(1_999))]);
    let mut hook = fired(down());
    let player = PlayerResource::default();
    update_hook(&mut hook, 100, &mut level, &player);
    assert_eq!(hook.frame, HOOK_ANIM_GRAB_MINI);
}

#[test]
fn grabbing_an_explosive_sets_it_off() {
    let mut tnt = thing(-2_000, 60_000, None);
    tnt.descriptor.entity_type = EntityType::Explosive;
    tnt.explosive = Some(ExplosiveState { is_exploding: false, damage_dealt: false });
    let mut level = level_of(vec![tnt]);
    let mut hook = fired(down());
    let player = PlayerResource::default();
    update_hook(&mut hook, 100, &mut level, &player);
    assert_eq!(hook.grabbed_entity, Some(0));
    assert_eq!(
        level.entities[0].explosive,
        Some(ExplosiveState { is_exploding: true, damage_dealt: false })
    );
}

#[test]
fn empty_hook_comes_back_at_base_speed_times_strength() {
    let mut hook = fired(down());
    hook.state = HookState::Retracting;
    hook.length = 100_000;
    let mut level = Level::new();
    let mut player = PlayerResource::default();
    let out = update_hook(&mut hook, 100, &mut level, &player);
    assert_eq!(hook.length, 90_000);
    assert_eq!(out.cue, None);
    assert_eq!(out.player_anim, Some(PlayerAnimationState::GrabBack));
    player.strength = 3;
    update_hook(&mut hook, 100, &mut level, &player);
    assert_eq!(hook.length, 60_000);
}

#[test]
fn loaded_hook_comes_back_slower_by_the_mass() {
    let mut level = level_of(vec![thing(0, 0, Some(2_000)), thing(0, 0, Some(3_000))]);
    let mut hook = fired(down());
    hook.state = HookState::Retracting;
    hook.length = 100_000;
    hook.grabbed_entity = Some(0);
    let mut player = PlayerResource::default();
    update_hook(&mut hook, 100, &mut level, &player);
    assert_eq!(hook.length, 95_000);
    player.strength = 4;
    update_hook(&mut hook, 100, &mut level, &player);
    assert_eq!(hook.length, 75_000);
    player.strength = 1;
    player.has_strength_drink = true;
    update_hook(&mut hook, 100, &mut level, &player);
    assert_eq!(hook.length, 67_500);
    hook.grabbed_entity = Some(1);
    update_hook(&mut hook, 100, &mut level, &player);
    // A mass of 3 with the drink pulls like a mass of 2 without it.
    assert_eq!(hook.length, 62_500);
}

#[test]
fn retraction_never_gets_slower_with_strength_nor_faster_with_mass() {
    let mut last = 0;
    for strength in 1..=6 {
        let mut level = level_of(vec![thing(0, 0, Some(1_700))]);
        let mut hook = fired(down());
        hook.state = HookState::Retracting;
        hook.length = 400_000;
        hook.grabbed_entity = Some(0);
        let mut player = PlayerResource::default();
        player.strength = strength;
        update_hook(&mut hook, 33, &mut level, &player);
        let back = 400_000 - hook.length;
        assert!(back >= last);
        last = back;
    }
    let mut last = i64::MAX;
    for mass in [1u32, 500, 1_000, 1_001, 2_500, 10_000, u32::MAX] {
        let mut level = level_of(vec![thing(0, 0, Some(mass))]);
        let mut hook = fired(down());
        hook.state = HookState::Retracting;
        hook.length = 400_000;
        hook.grabbed_entity = Some(0);
        let player = PlayerResource::default();
        update_hook(&mut hook, 33, &mut level, &player);
        let back = 400_000 - hook.length;
        assert!(back <= last);
        last = back;
    }
}

#[test]
fn carried_entity_follows_the_claw() {
    let mut level = level_of(vec![thing(-2_000, 0, Some(1_000)), thing(5_000, 5_000, None)]);
    let mut hook = fired(down());
    hook.state = HookState::Retracting;
    hook.length = 100_000;
    hook.grabbed_entity = Some(0);
    let player = PlayerResource::default();
    update_hook(&mut hook, 100, &mut level, &player);
    assert_eq!(hook.length, 90_000);
    assert_eq!(level.entities[0].pos, Vec2 { x: -2_000, y: 90_000 - 103_000 });
    assert_eq!(level.entities[1].pos, Vec2 { x: 5_000, y: 5_000 });
}

#[test]
fn empty_return_goes_straight_back_to_sweeping() {
    let mut hook = fired(down());
    let mut level = Level::new();
    let player = PlayerResource::default();
    while hook.state == HookState::Extending {
        update_hook(&mut hook, 70, &mut level, &player);
    }
    assert_eq!(hook.state, HookState::Retracting);
    let mut out = update_hook(&mut hook, 70, &mut level, &player);
    while hook.state == HookState::Retracting {
        assert_eq!(hook.angle, 10_000);
        out = update_hook(&mut hook, 70, &mut level, &player);
    }
    assert_eq!(hook.state, HookState::Idle);
    assert_eq!(hook.length, 0);
    assert_eq!(hook.angle, 10_000);
    assert!(hook.rotate_right);
    assert_eq!(hook.grabbed_entity, None);
    assert_eq!(hook.frame, HOOK_ANIM_IDLE);
    assert_eq!(out.cue, Some(AudioId::HookReset));
    assert_eq!(out.player_anim, Some(PlayerAnimationState::Idle));
    assert!(hook.check());
    update_hook(&mut hook, 100, &mut level, &player);
    assert_eq!(hook.angle, 16_500);
}

#[test]
fn loaded_return_shows_the_payout() {
    let mut level = level_of(vec![thing(-2_000, 60_000, Some(1_000))]);
    let mut hook = fired(down());
    let player = PlayerResource::default();
    update_hook(&mut hook, 100, &mut level, &player);
    assert_eq!(hook.state, HookState::Retracting);
    let out = update_hook(&mut hook, 100, &mut level, &player);
    assert_eq!(hook.state, HookState::BonusDisplay);
    assert_eq!(hook.length, 0);
    assert_eq!(hook.bonus_timer, 1_000);
    assert_eq!(hook.grabbed_entity, Some(0));
    assert_eq!(out.cue, None);
    let frozen = hook;
    let out = update_hook(&mut hook, 100, &mut level, &player);
    assert_eq!(hook, frozen);
    assert_eq!(out.cue, None);
    assert_eq!(out.player_anim, None);
}

#[test]
fn dynamite_blows_up_the_carried_entity() {
    let mut level = level_of(vec![thing(0, 0, Some(9_000))]);
    let mut hook = fired(down());
    hook.state = HookState::Retracting;
    hook.length = 100_000;
    hook.grabbed_entity = Some(0);
    let mut player = PlayerResource::default();
    assert!(!use_dynamite(&mut hook, &mut level, &mut player));
    assert_eq!(hook.grabbed_entity, Some(0));
    player.dynamite_count = 2;
    assert!(use_dynamite(&mut hook, &mut level, &mut player));
    assert_eq!(player.dynamite_count, 1);
    assert!(player.is_using_dynamite);
    assert_eq!(hook.grabbed_entity, None);
    assert_eq!(hook.frame, HOOK_ANIM_IDLE);
    assert_eq!(hook.state, HookState::Retracting);
    assert!(!level.entities[0].alive);
    assert_eq!(level.effects.len(), 1);
    assert_eq!(level.effects[0].center, Vec2 { x: -2_000, y: -10_000 });
    assert!(!level.effects[0].pending);
    // The hook now comes back unladen.
    let out = update_hook(&mut hook, 100, &mut level, &player);
    assert_eq!(hook.length, 90_000);
    assert_eq!(out.player_anim, None);
    // No second charge while the first is being thrown.
    hook.grabbed_entity = Some(0);
    level.entities[0].alive = true;
    assert!(!use_dynamite(&mut hook, &mut level, &mut player));
    assert_eq!(player.dynamite_count, 1);
}

#[test]
fn dynamite_is_only_used_on_the_way_back() {
    let mut level = level_of(vec![thing(0, 0, None)]);
    let mut player = PlayerResource::default();
    player.dynamite_count = 3;
    let mut hook = Hook::default();
    assert!(!use_dynamite(&mut hook, &mut level, &mut player));
    let mut hook = fired(down());
    assert!(!use_dynamite(&mut hook, &mut level, &mut player));
    hook.state = HookState::Retracting;
    assert!(!use_dynamite(&mut hook, &mut level, &mut player));
    assert_eq!(player.dynamite_count, 3);
    assert!(level.entities[0].alive);
}

#[test]
fn throw_ends_after_its_time() {
    let mut player = PlayerResource::default();
    player.is_using_dynamite = true;
    player.update_dynamite(200);
    assert!(player.is_using_dynamite);
    assert_eq!(player.using_dynamite_timer, 190);
    player.update_dynamite(190);
    assert!(!player.is_using_dynamite);
    assert_eq!(player.using_dynamite_timer, 390);
    player.update_dynamite(50);
    assert_eq!(player.using_dynamite_timer, 390);
}
