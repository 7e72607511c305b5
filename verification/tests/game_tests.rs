use dodge_the_creeps::game::Game;
use dodge_the_creeps::game::Phase;
use dodge_the_creeps::game::TimerId;
use dodge_the_creeps::geom::Vec2;
use dodge_the_creeps::hud::Message;
use dodge_the_creeps::mob::path_point_and_tangent;

fn variants() -> Vec<String> {
    vec![String::from("walk"), String::from("swim"), String::from("fly")]
}

fn new_game_instance(seed: u64) -> Game {
    Game::new(Vec2::new(480, 720), Vec2::new(240, 450), 400, variants(), seed)
}

/// The tangent angle of the spawn path at a point of the screen rectangle's
/// perimeter, recovered from the point itself.
fn tangent_at(position: Vec2, screen: Vec2) -> i64 {
    if position.y == 0 && position.x < screen.x {
        0
    } else if position.x == screen.x && position.y < screen.y {
        90
    } else if position.y == screen.y && position.x > 0 {
        180
    } else {
        assert_eq!(position.x, 0);
        270
    }
}

#[test]
fn full_round_state_machine() {
    let mut g = new_game_instance(7);
    assert_eq!(g.phase, Phase::Idle);
    assert!(!g.start_timer_armed && !g.score_timer_armed && !g.mob_timer_armed);

    g.new_game();
    assert_eq!(g.phase, Phase::GetReady);
    assert_eq!(g.score, 0);
    assert_eq!(g.hud.score_text, "0");
    assert_eq!(g.hud.message, Message::GetReady);
    assert!(g.hud.message_visible);
    assert!(g.start_timer_armed);

    g.on_timer_expired(TimerId::Start);
    assert_eq!(g.phase, Phase::Playing);
    assert!(!g.start_timer_armed);
    assert!(g.score_timer_armed && g.mob_timer_armed);

    g.on_timer_expired(TimerId::Score);
    g.on_timer_expired(TimerId::Score);
    g.on_timer_expired(TimerId::Score);
    assert_eq!(g.score, 3);
    assert_eq!(g.hud.score_text, "3");

    g.on_player_hit();
    assert_eq!(g.phase, Phase::GameOver);
    assert_eq!(g.score, 3);
    assert!(!g.score_timer_armed && !g.mob_timer_armed);
    assert_eq!(g.hud.message, Message::GameOver);
    assert!(!g.music_playing);
    assert!(g.death_sound_playing);

    // The HUD's start sequence, end to end.
    assert!(g.hud.start_message_timer_armed);
    g.on_timer_expired(TimerId::HudStartMessage);
    assert_eq!(g.hud.message, Message::Title);
    assert!(g.hud.start_button_timer_armed);
    g.on_timer_expired(TimerId::HudStartButton);
    assert!(g.hud.start_button_visible);

    g.on_start_button_pressed();
    assert_eq!(g.phase, Phase::GetReady);
    assert_eq!(g.score, 0);
    assert!(!g.hud.start_button_visible);
}

#[test]
fn new_game_purges_all_mobs_and_resets_score() {
    let mut g = new_game_instance(11);
    // No mobs at all.
    g.new_game();
    assert_eq!(g.mobs.len(), 0);
    assert_eq!(g.score, 0);

    // One mob.
    g.on_timer_expired(TimerId::Start);
    g.on_timer_expired(TimerId::MobSpawn);
    assert_eq!(g.mobs.len(), 1);
    g.on_timer_expired(TimerId::Score);
    g.on_player_hit();
    g.new_game();
    assert_eq!(g.mobs.len(), 0);
    assert_eq!(g.score, 0);
    assert_eq!(g.hud.score_text, "0");

    // Many mobs.
    g.on_timer_expired(TimerId::Start);
    for _ in 0..50 {
        g.on_timer_expired(TimerId::MobSpawn);
    }
    assert_eq!(g.mobs.len(), 50);
    g.on_player_hit();
    assert_eq!(g.mobs.len(), 50);
    g.new_game();
    assert_eq!(g.mobs.len(), 0);
    assert_eq!(g.score, 0);
}

#[test]
fn spawn_policy_samples_stay_in_their_bands() {
    let mut g = new_game_instance(13);
    g.new_game();
    g.on_timer_expired(TimerId::Start);
    let screen = g.screen_size;
    let names = variants();
    for _ in 0..500 {
        g.on_timer_expired(TimerId::MobSpawn);
        let m = g.mobs.last().unwrap();
        // On the perimeter.
        assert!(
            m.position.x == 0 || m.position.x == screen.x || m.position.y == 0
                || m.position.y == screen.y
        );
        assert!(0 <= m.position.x && m.position.x <= screen.x);
        assert!(0 <= m.position.y && m.position.y <= screen.y);
        // Direction within the cone around the inward perpendicular.
        let tangent = tangent_at(m.position, screen);
        assert!(tangent + 90 - 45 <= m.direction_deg && m.direction_deg <= tangent + 90 + 45);
        // Speed within [150, 250].
        assert!(150 <= m.speed && m.speed <= 250);
        // The animation variant is one of the configured names.
        assert!(names.iter().any(|n| *n == m.animation));
    }
}

#[test]
fn same_seed_gives_same_spawns() {
    let mut a = new_game_instance(99);
    let mut b = new_game_instance(99);
    a.new_game();
    b.new_game();
    a.on_timer_expired(TimerId::Start);
    b.on_timer_expired(TimerId::Start);
    for _ in 0..20 {
        a.on_timer_expired(TimerId::MobSpawn);
        b.on_timer_expired(TimerId::MobSpawn);
    }
    assert_eq!(a.mobs.len(), b.mobs.len());
    for (ma, mb) in a.mobs.iter().zip(b.mobs.iter()) {
        assert_eq!(ma.position, mb.position);
        assert_eq!(ma.direction_deg, mb.direction_deg);
        assert_eq!(ma.speed, mb.speed);
        assert_eq!(ma.animation, mb.animation);
    }
}

#[test]
fn duplicate_hit_in_game_over_changes_nothing() {
    let mut g = new_game_instance(3);
    g.new_game();
    g.on_timer_expired(TimerId::Start);
    g.on_timer_expired(TimerId::Score);
    g.on_timer_expired(TimerId::Score);
    g.on_timer_expired(TimerId::MobSpawn);
    g.on_player_hit();
    let score = g.score;
    let mobs = g.mobs.len();
    g.on_player_hit();
    assert_eq!(g.phase, Phase::GameOver);
    assert_eq!(g.score, score);
    assert_eq!(g.mobs.len(), mobs);
    assert!(!g.score_timer_armed && !g.mob_timer_armed);
    assert_eq!(g.hud.message, Message::GameOver);
}

#[test]
fn collision_ends_round_once() {
    let mut g = new_game_instance(5);
    g.new_game();
    g.on_timer_expired(TimerId::Start);
    assert!(g.player.visible);
    g.on_player_collision();
    assert_eq!(g.phase, Phase::GameOver);
    assert!(!g.player.visible);
    assert!(g.player.pending_collision_disable);
    // A second collision hits a hidden player: nothing changes.
    let death_sound = g.death_sound_playing;
    g.on_player_collision();
    assert_eq!(g.phase, Phase::GameOver);
    assert_eq!(g.death_sound_playing, death_sound);
}

#[test]
fn stopped_timers_expire_without_effect() {
    let mut g = new_game_instance(17);
    g.new_game();
    g.on_timer_expired(TimerId::Start);
    g.on_timer_expired(TimerId::Score);
    g.on_player_hit();
    // Both repeating timers are stopped; late expiries change nothing.
    g.on_timer_expired(TimerId::Score);
    g.on_timer_expired(TimerId::MobSpawn);
    assert_eq!(g.score, 1);
    assert_eq!(g.mobs.len(), 0);
    // The start timer is not armed outside GetReady either.
    g.on_timer_expired(TimerId::Start);
    assert_eq!(g.phase, Phase::GameOver);
}

#[test]
fn mobs_self_destruct_on_screen_exit() {
    let mut g = new_game_instance(23);
    g.new_game();
    g.on_timer_expired(TimerId::Start);
    g.on_timer_expired(TimerId::MobSpawn);
    g.on_timer_expired(TimerId::MobSpawn);
    g.on_timer_expired(TimerId::MobSpawn);
    let second = (g.mobs[1].position, g.mobs[1].direction_deg, g.mobs[1].speed);
    g.on_mob_screen_exited(0);
    assert_eq!(g.mobs.len(), 2);
    assert_eq!((g.mobs[0].position, g.mobs[0].direction_deg, g.mobs[0].speed), second);
}

#[test]
fn spawn_path_walks_the_perimeter_clockwise() {
    let screen = Vec2::new(480, 720);
    assert_eq!(path_point_and_tangent(screen, 0), (Vec2::new(0, 0), 0));
    assert_eq!(path_point_and_tangent(screen, 10), (Vec2::new(10, 0), 0));
    assert_eq!(path_point_and_tangent(screen, 479), (Vec2::new(479, 0), 0));
    assert_eq!(path_point_and_tangent(screen, 480), (Vec2::new(480, 0), 90));
    assert_eq!(path_point_and_tangent(screen, 500), (Vec2::new(480, 20), 90));
    assert_eq!(path_point_and_tangent(screen, 1200), (Vec2::new(480, 720), 180));
    assert_eq!(path_point_and_tangent(screen, 1201), (Vec2::new(479, 720), 180));
    assert_eq!(path_point_and_tangent(screen, 1680), (Vec2::new(0, 720), 270));
    assert_eq!(path_point_and_tangent(screen, 2399), (Vec2::new(0, 1), 270));
    // The path is closed: progress wraps around the perimeter.
    assert_eq!(path_point_and_tangent(screen, 2400), (Vec2::new(0, 0), 0));
    assert_eq!(path_point_and_tangent(screen, 2405), (Vec2::new(5, 0), 0));
}
