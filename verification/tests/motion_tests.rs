use sprite_game::direction::Direction;
use sprite_game::motion::Velocity;
use sprite_game::player::Player;
use sprite_game::stack::DirectionStack;
use sprite_game::PLAYER_MOVEMENT_SPEED;

#[test]
fn new_stack_is_empty() {
    let s = DirectionStack::new();
    assert!(s.is_empty());
    assert_eq!(s.len(), 0);
    assert_eq!(s.back(), None);
    assert!(!s.contains(Direction::Up));
}

#[test]
fn push_appends_to_tail() {
    let mut s = DirectionStack::new();
    s.push(Direction::Up);
    s.push(Direction::Left);
    assert_eq!(s.len(), 2);
    assert_eq!(s.back(), Some(Direction::Left));
    assert!(s.contains(Direction::Up));
    assert!(s.contains(Direction::Left));
}

#[test]
fn push_of_held_direction_is_noop() {
    let mut s = DirectionStack::new();
    s.push(Direction::Up);
    s.push(Direction::Up);
    assert_eq!(s.len(), 1);
    assert_eq!(s.back(), Some(Direction::Up));
}

#[test]
fn remove_takes_direction_from_middle() {
    let mut s = DirectionStack::new();
    s.push(Direction::Up);
    s.push(Direction::Left);
    s.push(Direction::Right);
    s.remove(Direction::Left);
    assert_eq!(s.len(), 2);
    assert_eq!(s.back(), Some(Direction::Right));
    assert!(s.contains(Direction::Up));
    assert!(!s.contains(Direction::Left));
}

#[test]
fn remove_of_absent_direction_is_noop() {
    let mut s = DirectionStack::new();
    s.push(Direction::Up);
    s.remove(Direction::Down);
    assert_eq!(s.len(), 1);
    assert_eq!(s.back(), Some(Direction::Up));
}

#[test]
fn opposite_pairs() {
    assert_eq!(Direction::Up.opposite(), Direction::Down);
    assert_eq!(Direction::Down.opposite(), Direction::Up);
    assert_eq!(Direction::Left.opposite(), Direction::Right);
    assert_eq!(Direction::Right.opposite(), Direction::Left);
}

#[test]
fn press_starts_moving() {
    let mut v = Velocity::new();
    assert_eq!(v.speed, 0);
    v.press(Direction::Right);
    assert_eq!(v.speed, PLAYER_MOVEMENT_SPEED);
    assert_eq!(v.direction.back(), Some(Direction::Right));
    assert_eq!(v.direction.len(), 1);
}

#[test]
fn press_repeat_keeps_single_entry() {
    let mut v = Velocity::new();
    v.press(Direction::Right);
    v.press(Direction::Right);
    assert_eq!(v.direction.len(), 1);
    assert_eq!(v.speed, PLAYER_MOVEMENT_SPEED);
}

#[test]
fn later_press_overrides_then_release_reverts() {
    let mut v = Velocity::new();
    v.press(Direction::Up);
    v.press(Direction::Left);
    assert_eq!(v.direction.back(), Some(Direction::Left));
    v.release(Direction::Left);
    assert_eq!(v.direction.back(), Some(Direction::Up));
    assert_eq!(v.speed, PLAYER_MOVEMENT_SPEED);
    assert_eq!(v.direction.len(), 1);
}

#[test]
fn release_to_empty_stops_and_records_last() {
    let mut v = Velocity::new();
    v.press(Direction::Up);
    v.release(Direction::Up);
    assert_eq!(v.speed, 0);
    assert!(v.direction.is_empty());
    assert_eq!(v.last_direction, Some(Direction::Up));
}

#[test]
fn release_of_unpressed_direction_changes_nothing() {
    let mut v = Velocity::new();
    v.press(Direction::Up);
    v.release(Direction::Down);
    assert_eq!(v.speed, PLAYER_MOVEMENT_SPEED);
    assert_eq!(v.direction.len(), 1);
    assert_eq!(v.direction.back(), Some(Direction::Up));
    assert_eq!(v.last_direction, None);
}

#[test]
fn release_with_nothing_held_changes_nothing() {
    let mut v = Velocity::new();
    v.release(Direction::Left);
    assert_eq!(v.speed, 0);
    assert!(v.direction.is_empty());
    assert_eq!(v.last_direction, None);
}

#[test]
fn player_new_is_idle_at_origin() {
    let p = Player::new();
    assert_eq!(p.position.x, 0);
    assert_eq!(p.position.y, 0);
    assert_eq!(p.sprite.x, 0);
    assert_eq!(p.sprite.y, 0);
    assert_eq!(p.sprite.width, 26);
    assert_eq!(p.sprite.height, 36);
    assert_eq!(p.velocity.speed, 0);
    assert!(p.velocity.direction.is_empty());
    assert_eq!(p.velocity.last_direction, None);
    assert_eq!(p.current_frame, 0);
}

#[test]
fn move_player_pushes_and_moves() {
    let mut p = Player::new();
    p.move_player(Direction::Up, Direction::Down);
    assert_eq!(p.velocity.speed, PLAYER_MOVEMENT_SPEED);
    assert_eq!(p.velocity.direction.back(), Some(Direction::Up));
}

#[test]
fn move_player_opposite_key_cancels_speed() {
    let mut p = Player::new();
    p.move_player(Direction::Up, Direction::Down);
    p.move_player(Direction::Down, Direction::Up);
    assert_eq!(p.velocity.speed, 0);
    assert_eq!(p.velocity.direction.len(), 2);
    assert_eq!(p.velocity.direction.back(), Some(Direction::Down));
}

#[test]
fn unmove_player_reverts_to_earlier_direction() {
    let mut p = Player::new();
    p.move_player(Direction::Up, Direction::Down);
    p.move_player(Direction::Left, Direction::Right);
    p.unmove_player(Direction::Left);
    assert_eq!(p.velocity.direction.back(), Some(Direction::Up));
    assert_eq!(p.velocity.speed, PLAYER_MOVEMENT_SPEED);
}

#[test]
fn unmove_player_to_empty_records_last() {
    let mut p = Player::new();
    p.move_player(Direction::Right, Direction::Left);
    p.unmove_player(Direction::Right);
    assert_eq!(p.velocity.speed, 0);
    assert_eq!(p.velocity.last_direction, Some(Direction::Right));
}
