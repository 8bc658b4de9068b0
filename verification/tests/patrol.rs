use gold_miner::config::{Direction, EntityDescriptor, EntityFamily, EntityType, Position};
use gold_miner::entity::{
    entity_animation_system, init_patrol_system, patrol_movement_system, patrol_step,
    EntityAnimation, EntityAnimationState, PatrolState,
};
use gold_miner::level::{Level, LiveEntity};
use gold_miner::utils::Vec2;

fn mole(x: i32, y: i32, dir: Option<Direction>) -> LiveEntity {
    let mut descriptor = EntityDescriptor::new(EntityType::MoveAround);
    descriptor.speed = Some(500);
    descriptor.move_range = Some(90_000);
    LiveEntity {
        descriptor,
        family: EntityFamily::Other,
        pos: Vec2 { x: x as i64 - 160_000, y: 120_000 - y as i64 },
        alive: true,
        patrol: init_patrol_system(&descriptor, Position { x, y }, dir),
        explosive: None,
    }
}

#[test]
fn patrol_starts_walking_one_range_away() {
    let d = EntityDescriptor::new(EntityType::MoveAround);
    let right = init_patrol_system(&d, Position { x: 100_000, y: 50_000 }, None).unwrap();
    assert!(right.is_moving);
    assert_eq!(right.direction, Direction::Right);
    assert_eq!(right.move_range, 135_000);
    assert_eq!(right.destination_x, -60_000 + 135_000);
    assert_eq!(right.idle_timer.duration, 1_000);
    assert!(right.check());
    let left = init_patrol_system(&d, Position { x: 100_000, y: 50_000 }, Some(Direction::Left))
        .unwrap();
    assert_eq!(left.direction, Direction::Left);
    assert_eq!(left.destination_x, -60_000 - 135_000);
    let stated = init_patrol_system(&d, Position { x: 0, y: 0 }, Some(Direction::Right)).unwrap();
    assert_eq!(stated.direction, Direction::Right);
}

#[test]
fn only_moving_entities_get_a_patrol() {
    for t in [EntityType::Basic, EntityType::RandomEffect, EntityType::Explosive] {
        let d = EntityDescriptor::new(t);
        assert_eq!(init_patrol_system(&d, Position { x: 0, y: 0 }, Some(Direction::Left)), None);
    }
}

#[test]
fn patrol_walks_at_sixty_frames_a_second() {
    let mut e = mole(160_000, 100_000, None);
    patrol_step(&mut e, 100);
    // Half a pixel per frame is 30 px/s: 3 px in 100 ms.
    assert_eq!(e.pos, Vec2 { x: 3_000, y: 20_000 });
    patrol_step(&mut e, 1);
    assert_eq!(e.pos.x, 3_030);
    let mut left = mole(160_000, 100_000, Some(Direction::Left));
    patrol_step(&mut left, 100);
    assert_eq!(left.pos.x, -3_000);
}

#[test]
fn patrol_snaps_to_its_destination_turns_and_rests() {
    let mut e = mole(160_000, 100_000, None);
    patrol_step(&mut e, 2_999);
    assert_eq!(e.pos.x, 89_970);
    patrol_step(&mut e, 1_000_000);
    assert_eq!(e.pos.x, 90_000);
    let p = e.patrol.unwrap();
    assert!(!p.is_moving);
    assert_eq!(p.direction, Direction::Left);
    assert_eq!(p.destination_x, 0);
    assert_eq!(p.idle_timer.elapsed, 0);
    // It rests for a second without moving.
    patrol_step(&mut e, 999);
    assert_eq!(e.pos.x, 90_000);
    assert!(!e.patrol.unwrap().is_moving);
    patrol_step(&mut e, 1);
    assert!(e.patrol.unwrap().is_moving);
    assert_eq!(e.pos.x, 90_000);
    // And walks back to where it came from.
    patrol_step(&mut e, 3_000);
    assert_eq!(e.pos.x, 0);
    let p = e.patrol.unwrap();
    assert_eq!(p.direction, Direction::Right);
    assert_eq!(p.destination_x, 90_000);
    assert!(!p.is_moving);
    assert!(p.check());
}

#[test]
fn patrol_reaching_its_destination_exactly_counts_as_arrival() {
    let mut e = mole(160_000, 100_000, None);
    patrol_step(&mut e, 3_000);
    assert_eq!(e.pos.x, 90_000);
    assert!(!e.patrol.unwrap().is_moving);
}

#[test]
fn grabbed_entity_is_not_moved_by_the_patrol() {
    let mut level = Level {
        entities: vec![mole(160_000, 100_000, None), mole(100_000, 100_000, None)],
        effects: Vec::new(),
    };
    let held = level.entities[1];
    for dt in [0u32, 16, 100, 5_000, u32::MAX] {
        patrol_movement_system(&mut level, Some(1), dt);
        assert_eq!(level.entities[1], held);
    }
    assert_ne!(level.entities[0].pos.x, 0);
    // Once no longer held it walks again.
    patrol_movement_system(&mut level, None, 100);
    assert_eq!(level.entities[1].pos.x, held.pos.x + 3_000);
}

#[test]
fn destroyed_and_still_entities_are_left_alone() {
    let mut dead = mole(160_000, 100_000, None);
    dead.alive = false;
    let still = LiveEntity {
        descriptor: EntityDescriptor::new(EntityType::Basic),
        family: EntityFamily::Other,
        pos: Vec2 { x: 7, y: 8 },
        alive: true,
        patrol: None,
        explosive: None,
    };
    let mut level = Level { entities: vec![dead, still], effects: Vec::new() };
    patrol_movement_system(&mut level, None, 500);
    assert_eq!(level.entities[0], dead);
    assert_eq!(level.entities[1], still);
    patrol_movement_system(&mut level, Some(7), 500);
    assert_eq!(level.entities[1], still);
}

#[test]
fn patrol_state_is_checked() {
    let mut p = PatrolState {
        is_moving: true,
        direction: Direction::Right,
        destination_x: 5,
        idle_timer: gold_miner::timer::Timer::new(1_000, gold_miner::timer::TimerMode::Once),
        move_range: 10,
    };
    assert!(p.check());
    p.destination_x = i64::MAX;
    assert!(!p.check());
    p.destination_x = -1_099_511_627_776;
    assert!(!p.check());
    p.direction = Direction::Left;
    assert!(p.check());
}

#[test]
fn entity_animation_cycles_through_the_frames_of_its_state() {
    let mut anim = EntityAnimation::new(150, vec![0], vec![0, 1, 2, 3, 4, 5, 6]);
    assert_eq!(anim.state, EntityAnimationState::Move);
    assert_eq!(entity_animation_system(&mut anim, 149), None);
    assert_eq!(entity_animation_system(&mut anim, 1), Some(1));
    for expected in [2usize, 3, 4, 5, 6, 0, 1] {
        assert_eq!(entity_animation_system(&mut anim, 150), Some(expected));
    }
    assert_eq!(anim.set_state(EntityAnimationState::Move), None);
    assert_eq!(anim.set_state(EntityAnimationState::Idle), Some(0));
    assert_eq!(anim.current_frame, 0);
    assert_eq!(entity_animation_system(&mut anim, 150), Some(0));
}

#[test]
fn entity_animation_without_frames_draws_nothing() {
    let mut anim = EntityAnimation::new(100, Vec::new(), vec![4, 9]);
    assert_eq!(anim.set_state(EntityAnimationState::Idle), None);
    assert_eq!(entity_animation_system(&mut anim, 100), None);
    assert_eq!(anim.current_frame, 0);
    assert_eq!(anim.set_state(EntityAnimationState::Move), Some(4));
    assert_eq!(entity_animation_system(&mut anim, 100), Some(9));
}
