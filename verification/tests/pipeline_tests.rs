use sprite_game::animation::MovementAnimation;
use sprite_game::direction::Direction;
use sprite_game::geom::Point;
use sprite_game::geom::Rect;
use sprite_game::input::InputEvent;
use sprite_game::input::Keyboard;
use sprite_game::input::MovementCommand;
use sprite_game::motion::Velocity;
use sprite_game::physics::Physics;
use sprite_game::physics::Position;
use sprite_game::pipeline::tick;
use sprite_game::PLAYER_MOVEMENT_SPEED;

#[test]
fn resolve_key_down_is_move() {
    assert_eq!(
        Keyboard::resolve_event(&InputEvent::KeyDown(Direction::Up)),
        Some(MovementCommand::Move(Direction::Up)),
    );
}

#[test]
fn resolve_key_up_is_stop() {
    assert_eq!(
        Keyboard::resolve_event(&InputEvent::KeyUp(Direction::Up, false)),
        Some(MovementCommand::Stop(Direction::Up)),
    );
}

#[test]
fn resolve_ignores_repeated_key_up() {
    assert_eq!(Keyboard::resolve_event(&InputEvent::KeyUp(Direction::Up, true)), None);
}

#[test]
fn resolve_ignores_quit_and_unknown() {
    assert_eq!(Keyboard::resolve_event(&InputEvent::Quit), None);
    assert_eq!(Keyboard::resolve_event(&InputEvent::Unknown), None);
}

#[test]
fn keyboard_run_without_command_changes_nothing() {
    let mut v = Velocity::new();
    v.press(Direction::Left);
    Keyboard::run(&None, &mut v);
    assert_eq!(v.speed, PLAYER_MOVEMENT_SPEED);
    assert_eq!(v.direction.back(), Some(Direction::Left));
}

#[test]
fn keyboard_applies_events_in_arrival_order() {
    let mut v = Velocity::new();
    let events = vec![
        InputEvent::KeyDown(Direction::Up),
        InputEvent::KeyUp(Direction::Up, false),
        InputEvent::KeyDown(Direction::Right),
    ];
    Keyboard::apply(&events, &mut v);
    assert_eq!(v.direction.len(), 1);
    assert_eq!(v.direction.back(), Some(Direction::Right));
    assert_eq!(v.speed, PLAYER_MOVEMENT_SPEED);
    assert_eq!(v.last_direction, Some(Direction::Up));
}

#[test]
fn physics_moves_along_each_axis() {
    let cases = [
        (Direction::Left, -PLAYER_MOVEMENT_SPEED, 0),
        (Direction::Right, PLAYER_MOVEMENT_SPEED, 0),
        (Direction::Up, 0, -PLAYER_MOVEMENT_SPEED),
        (Direction::Down, 0, PLAYER_MOVEMENT_SPEED),
    ];
    for (direction, dx, dy) in cases {
        let mut position = Position(Point::new(100, 200));
        let mut velocity = Velocity::new();
        velocity.press(direction);
        Physics::run(&mut position, &velocity);
        assert_eq!(position.0.x, 100 + dx);
        assert_eq!(position.0.y, 200 + dy);
    }
}

#[test]
fn physics_with_zero_speed_never_moves() {
    let mut position = Position(Point::new(7, -3));
    let velocity = Velocity::new();
    Physics::run(&mut position, &velocity);
    Physics::run(&mut position, &velocity);
    Physics::run(&mut position, &velocity);
    assert_eq!(position.0.x, 7);
    assert_eq!(position.0.y, -3);
}

#[test]
fn end_to_end_scenario() {
    let mut position = Position(Point::new(0, 0));
    let mut velocity = Velocity::new();
    let mut animation = MovementAnimation::new(0, Rect::new(0, 0, 26, 36));

    let sprite = tick(
        &vec![InputEvent::KeyDown(Direction::Right)],
        &mut position,
        &mut velocity,
        &mut animation,
    );
    assert_eq!(velocity.speed, PLAYER_MOVEMENT_SPEED);
    assert_eq!(velocity.direction.len(), 1);
    assert_eq!(velocity.direction.back(), Some(Direction::Right));
    assert_eq!(position.0.x, PLAYER_MOVEMENT_SPEED);
    assert_eq!(position.0.y, 0);
    assert_eq!(animation.current_frame, 1);
    assert_eq!(sprite.region.y, 2 * 36);
    assert_eq!(sprite.region.x, 26);

    tick(
        &vec![InputEvent::KeyDown(Direction::Up)],
        &mut position,
        &mut velocity,
        &mut animation,
    );
    assert_eq!(velocity.direction.len(), 2);
    assert_eq!(velocity.direction.back(), Some(Direction::Up));
    assert_eq!(position.0.x, PLAYER_MOVEMENT_SPEED);
    assert_eq!(position.0.y, -PLAYER_MOVEMENT_SPEED);

    tick(
        &vec![InputEvent::KeyUp(Direction::Up, false)],
        &mut position,
        &mut velocity,
        &mut animation,
    );
    assert_eq!(velocity.direction.len(), 1);
    assert_eq!(velocity.direction.back(), Some(Direction::Right));
    assert_eq!(position.0.x, 2 * PLAYER_MOVEMENT_SPEED);
    assert_eq!(position.0.y, -PLAYER_MOVEMENT_SPEED);
    assert_eq!(animation.current_frame, 0);
}

#[test]
fn tick_without_events_still_runs_downstream_steps() {
    let mut position = Position(Point::new(0, 0));
    let mut velocity = Velocity::new();
    let mut animation = MovementAnimation::new(0, Rect::new(0, 0, 26, 36));
    velocity.press(Direction::Down);

    let no_events: Vec<InputEvent> = Vec::new();
    tick(&no_events, &mut position, &mut velocity, &mut animation);
    assert_eq!(position.0.y, PLAYER_MOVEMENT_SPEED);
    assert_eq!(animation.current_frame, 1);

    velocity.release(Direction::Down);
    tick(&no_events, &mut position, &mut velocity, &mut animation);
    assert_eq!(position.0.y, PLAYER_MOVEMENT_SPEED);
    assert_eq!(animation.current_frame, 1);
}

#[test]
fn tick_ignores_repeated_key_up() {
    let mut position = Position(Point::new(0, 0));
    let mut velocity = Velocity::new();
    let mut animation = MovementAnimation::new(0, Rect::new(0, 0, 26, 36));
    velocity.press(Direction::Up);

    tick(
        &vec![InputEvent::KeyUp(Direction::Up, true)],
        &mut position,
        &mut velocity,
        &mut animation,
    );
    assert_eq!(velocity.speed, PLAYER_MOVEMENT_SPEED);
    assert_eq!(velocity.direction.back(), Some(Direction::Up));
    assert_eq!(position.0.y, -PLAYER_MOVEMENT_SPEED);
}

#[test]
fn stopped_entity_keeps_facing_its_last_direction() {
    let mut position = Position(Point::new(0, 0));
    let mut velocity = Velocity::new();
    let mut animation = MovementAnimation::new(0, Rect::new(0, 0, 26, 36));

    tick(
        &vec![InputEvent::KeyDown(Direction::Left)],
        &mut position,
        &mut velocity,
        &mut animation,
    );
    let sprite = tick(
        &vec![InputEvent::KeyUp(Direction::Left, false)],
        &mut position,
        &mut velocity,
        &mut animation,
    );
    assert_eq!(velocity.speed, 0);
    assert_eq!(velocity.last_direction, Some(Direction::Left));
    assert_eq!(sprite.region.y, 36);
    assert_eq!(sprite.region.x, 26);
}
