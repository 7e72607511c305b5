use dodge_the_creeps::geom::Vec2;
use dodge_the_creeps::player::DirectionalInput;
use dodge_the_creeps::player::Player;
use dodge_the_creeps::player::PlayerAnim;

fn idle_input() -> DirectionalInput {
    DirectionalInput { right: 0, left: 0, down: 0, up: 0 }
}

fn test_player() -> Player {
    let mut p = Player::new(400, Vec2::new(480, 720));
    p.start(Vec2::new(100, 100));
    p
}

#[test]
fn start_places_shows_and_enables() {
    let mut p = Player::new(400, Vec2::new(480, 720));
    assert!(!p.visible);
    p.start(Vec2::new(240, 450));
    assert_eq!(p.position, Vec2::new(240, 450));
    assert!(p.visible);
    assert!(!p.collision_disabled);
}

#[test]
fn no_input_stops_animation_and_stays_put() {
    let mut p = test_player();
    p.process(&idle_input(), 16);
    assert_eq!(p.position, Vec2::new(100, 100));
    assert!(!p.animation_playing);
}

#[test]
fn full_right_for_one_second_moves_speed_pixels() {
    let mut p = test_player();
    let input = DirectionalInput { right: 1000, left: 0, down: 0, up: 0 };
    // 400 px/s for 500 ms: 200 px to the right.
    p.process(&input, 500);
    assert_eq!(p.position, Vec2::new(300, 100));
    assert_eq!(p.animation, PlayerAnim::Walk);
    assert!(!p.flip_h);
    assert!(!p.flip_v);
    assert!(p.animation_playing);
}

#[test]
fn movement_clamps_to_screen() {
    let mut p = test_player();
    let input = DirectionalInput { right: 1000, left: 0, down: 0, up: 0 };
    // 400 px/s for 1000 ms would pass the right edge at 480.
    p.process(&input, 1000);
    assert_eq!(p.position, Vec2::new(480, 100));
    let up = DirectionalInput { right: 0, left: 0, down: 0, up: 1000 };
    p.process(&up, 1000);
    assert_eq!(p.position, Vec2::new(480, 0));
}

#[test]
fn diagonal_speed_is_normalized() {
    let mut p = test_player();
    let input = DirectionalInput { right: 1000, left: 0, down: 1000, up: 0 };
    // |v| = sqrt(2_000_000) -> 1414; each component 1000 * 400 * 1000 / 1414000 = 282.
    p.process(&input, 1000);
    assert_eq!(p.position, Vec2::new(382, 382));
    assert_eq!(p.animation, PlayerAnim::Walk);
}

#[test]
fn left_flips_horizontally() {
    let mut p = test_player();
    let input = DirectionalInput { right: 0, left: 1000, down: 0, up: 0 };
    p.process(&input, 100);
    assert_eq!(p.position, Vec2::new(60, 100));
    assert_eq!(p.animation, PlayerAnim::Walk);
    assert!(p.flip_h);
}

#[test]
fn vertical_input_selects_up_animation() {
    let mut p = test_player();
    let down = DirectionalInput { right: 0, left: 0, down: 1000, up: 0 };
    p.process(&down, 100);
    assert_eq!(p.position, Vec2::new(100, 140));
    assert_eq!(p.animation, PlayerAnim::Up);
    assert!(p.flip_v);
    let up = DirectionalInput { right: 0, left: 0, down: 0, up: 1000 };
    p.process(&up, 100);
    assert_eq!(p.position, Vec2::new(100, 100));
    assert_eq!(p.animation, PlayerAnim::Up);
    assert!(!p.flip_v);
}

#[test]
fn half_strength_moves_at_full_speed_after_normalization() {
    let mut p = test_player();
    let input = DirectionalInput { right: 500, left: 0, down: 0, up: 0 };
    // (500, 0) normalized is still a unit vector: 400 px/s.
    p.process(&input, 1000);
    assert_eq!(p.position, Vec2::new(480, 100));
}

#[test]
fn hit_emits_once_until_restarted() {
    let mut p = test_player();
    assert!(p.on_body_entered());
    assert!(!p.visible);
    assert!(p.pending_collision_disable);
    assert!(!p.collision_disabled);
    // The disable takes effect only after the physics step.
    p.apply_deferred();
    assert!(p.collision_disabled);
    assert!(!p.pending_collision_disable);
    // A second collision while hidden emits nothing.
    assert!(!p.on_body_entered());
    p.start(Vec2::new(240, 450));
    assert!(p.visible);
    assert!(!p.collision_disabled);
    assert!(p.on_body_entered());
}
