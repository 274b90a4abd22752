use platformer::config::{
    BOOST_ONE, JUMP_BOOST, LIMIT, MAX_DT_MS, PLAYER_SIZE, SPEED_BOOST, START_LIVES, START_X,
    START_Y, STOMP_BOUNCE, UNIT,
};
use platformer::entities::{Coin, Enemy, Input, Player, PowerUp, PowerUpKind};
use platformer::game::{Camera, Game, GameState};
use platformer::geometry::{overlaps, Rect};
use platformer::interaction::{
    apply_effects, resolve_coins, resolve_enemies, resolve_powerups, Event, Snapshot,
};
use platformer::kinematics::{
    damp_velocity, push_out_x_one, push_out_y_one, resolve_horizontal, turn,
};
use platformer::level::Level;

fn empty_level() -> Level {
    Level {
        platforms: Vec::new(),
        enemies: Vec::new(),
        coins: Vec::new(),
        powerups: Vec::new(),
        goal_x: 10_000 * UNIT,
        goal_y: 0,
    }
}

fn playing_game() -> Game {
    let mut g = Game::new();
    g.state = GameState::Playing;
    g
}

fn player_box(x: i64, y: i64) -> Snapshot {
    Snapshot { body: Rect::new(x * UNIT, y * UNIT, PLAYER_SIZE, PLAYER_SIZE), vy: 0 }
}

#[test]
fn falling_player_lands_on_platform() {
    // A one-second frame moves the player 800 units down, so the platform
    // is thick enough to be met.
    let mut p = Player::new();
    assert_eq!((p.body.x, p.body.y, p.vy), (100 * UNIT, 480 * UNIT, 0));
    let platforms = vec![Rect::new(0, 550 * UNIT, 800 * UNIT, 1000 * UNIT)];
    p.update(1000, &platforms);
    assert_eq!(p.body.y, (550 - 32) * UNIT);
    assert_eq!(p.vy, 0);
    assert!(p.on_ground);
    assert_eq!(p.body.x, 100 * UNIT);
}

#[test]
fn falling_body_snaps_to_platform_top() {
    let p = Rect::new(0, 100 * UNIT, 50 * UNIT, 10 * UNIT);
    let b = Rect::new(10 * UNIT, 90 * UNIT, 5 * UNIT, 12 * UNIT);
    let (r, vy, grounded) = push_out_y_one(b, 7, false, &p);
    assert_eq!(r.y + r.height, 100 * UNIT);
    assert_eq!(vy, 0);
    assert!(grounded);
}

#[test]
fn rising_body_stops_under_platform() {
    let p = Rect::new(0, 100 * UNIT, 50 * UNIT, 10 * UNIT);
    let b = Rect::new(10 * UNIT, 105 * UNIT, 5 * UNIT, 12 * UNIT);
    let (r, vy, grounded) = push_out_y_one(b, -7, false, &p);
    assert_eq!(r.y, 110 * UNIT);
    assert_eq!(vy, 0);
    assert!(!grounded);
}

#[test]
fn touching_edges_do_not_overlap() {
    let a = Rect::new(0, 0, 10, 10);
    assert!(!overlaps(&a, &Rect::new(10, 0, 10, 10)));
    assert!(!overlaps(&a, &Rect::new(-10, 0, 10, 10)));
    assert!(!overlaps(&a, &Rect::new(0, 10, 10, 10)));
    assert!(!overlaps(&a, &Rect::new(0, -10, 10, 10)));
    assert!(overlaps(&a, &Rect::new(9, 9, 10, 10)));
}

#[test]
fn horizontal_push_out_stops_motion() {
    let b = Rect::new(95, 0, 10, 10);
    let wall = Rect::new(100, 0, 50, 50);
    assert_eq!(push_out_x_one(b, 5, &wall), (Rect::new(90, 0, 10, 10), 0));
    let b = Rect::new(145, 0, 10, 10);
    assert_eq!(push_out_x_one(b, -5, &wall), (Rect::new(150, 0, 10, 10), 0));
    let walls = vec![Rect::new(100, 0, 50, 50), Rect::new(80, 0, 20, 50)];
    let (r, v) = resolve_horizontal(Rect::new(95, 0, 10, 10), 5, &walls);
    assert_eq!(r.x, 90);
    assert_eq!(v, 0);
}

#[test]
fn damping_rounds_towards_zero() {
    assert_eq!(damp_velocity(1000), 800);
    assert_eq!(damp_velocity(-1000), -800);
    assert_eq!(damp_velocity(7), 5);
    assert_eq!(damp_velocity(-7), -5);
    assert_eq!(damp_velocity(0), 0);
}

#[test]
fn walking_then_damping() {
    let mut p = Player::new();
    let input = Input { right: true, ..Input::idle() };
    assert!(!p.handle_input(&input));
    assert_eq!(p.vx, 200_000);
    assert!(p.facing_right);
    p.update(100, &Vec::new());
    assert_eq!(p.body.x, 100 * UNIT + 20 * UNIT);
    assert_eq!(p.vx, 160_000);
}

#[test]
fn jump_needs_ground_and_uses_boost() {
    let mut p = Player::new();
    let input = Input { jump: true, ..Input::idle() };
    assert!(!p.handle_input(&input));
    assert_eq!(p.vy, 0);
    p.on_ground = true;
    p.jump_boost = JUMP_BOOST;
    assert!(p.handle_input(&input));
    assert_eq!(p.vy, -650_000);
}

#[test]
fn enemy_turns_at_platform_edge() {
    let platforms = vec![Rect::new(0, 100 * UNIT, 50 * UNIT, 10 * UNIT)];
    let b = Rect::new(26 * UNIT, 76 * UNIT, 24 * UNIT, 24 * UNIT);
    assert_eq!(turn(b, 1, &platforms), -1);
    let b = Rect::new(0, 76 * UNIT, 24 * UNIT, 24 * UNIT);
    assert_eq!(turn(b, -1, &platforms), 1);
    let b = Rect::new(10 * UNIT, 76 * UNIT, 24 * UNIT, 24 * UNIT);
    assert_eq!(turn(b, 1, &platforms), 1);
}

#[test]
fn enemy_patrols_and_lands() {
    let platforms = vec![Rect::new(0, 100 * UNIT, 500 * UNIT, 10 * UNIT)];
    let mut e = Enemy::new(100 * UNIT, 70 * UNIT);
    e.update(100, &platforms);
    assert_eq!(e.body.x, 105 * UNIT);
    assert_eq!(e.body.y, 76 * UNIT);
    assert_eq!(e.vy, 0);
    let mut dead = Enemy::new(100 * UNIT, 70 * UNIT);
    dead.alive = false;
    dead.update(100, &platforms);
    assert_eq!(dead, Enemy { alive: false, ..Enemy::new(100 * UNIT, 70 * UNIT) });
}

#[test]
fn two_coins_at_same_place_score_twenty() {
    let mut level = empty_level();
    level.coins = vec![Coin::new(100 * UNIT, 490 * UNIT), Coin::new(100 * UNIT, 490 * UNIT)];
    let mut events = Vec::new();
    let fx = level.resolve_interactions(0, player_box(100, 480), &mut events);
    assert_eq!(fx.score, 20);
    assert!(level.coins.iter().all(|c| c.collected));
    assert_eq!(events, vec![Event::CoinCollected, Event::CoinCollected]);
}

#[test]
fn collected_coin_is_inert() {
    let mut coins = vec![Coin::new(100 * UNIT, 490 * UNIT)];
    let mut events = Vec::new();
    assert_eq!(resolve_coins(&mut coins, player_box(100, 480), &mut events), 1);
    let before = coins.clone();
    assert_eq!(resolve_coins(&mut coins, player_box(100, 480), &mut events), 0);
    assert_eq!(coins, before);
    assert_eq!(events.len(), 1);
}

#[test]
fn collected_powerup_is_inert_and_boost_is_set() {
    let mut ups = vec![
        PowerUp::new(100 * UNIT, 490 * UNIT, PowerUpKind::SpeedBoost),
        PowerUp::new(100 * UNIT, 490 * UNIT, PowerUpKind::JumpBoost),
    ];
    let mut events = Vec::new();
    assert_eq!(resolve_powerups(&mut ups, player_box(100, 480), &mut events), (2, true, true));
    assert_eq!(resolve_powerups(&mut ups, player_box(100, 480), &mut events), (0, false, false));
    let mut level = empty_level();
    level.powerups = vec![PowerUp::new(100 * UNIT, 490 * UNIT, PowerUpKind::SpeedBoost)];
    let fx = level.resolve_interactions(0, player_box(100, 480), &mut events);
    let mut p = Player::new();
    apply_effects(&mut p, &fx);
    assert_eq!(p.score, 50);
    assert_eq!(p.speed_boost, SPEED_BOOST);
    assert_eq!(p.jump_boost, BOOST_ONE);
}

#[test]
fn stomp_defeats_enemy_once() {
    let mut level = empty_level();
    level.enemies = vec![Enemy::new(100 * UNIT, 500 * UNIT)];
    let s = Snapshot { vy: 100, ..player_box(100, 480) };
    let mut events = Vec::new();
    let fx = level.resolve_interactions(0, s, &mut events);
    assert!(!level.enemies[0].alive);
    assert_eq!(fx.score, 100);
    assert!(fx.bounce);
    let mut p = Player::new();
    apply_effects(&mut p, &fx);
    assert_eq!(p.vy, STOMP_BOUNCE);
    assert_eq!(p.score, 100);
    assert_eq!(p.lives, START_LIVES);
    let again = level.resolve_interactions(0, s, &mut events);
    assert_eq!(again.score, 0);
    assert_eq!(events, vec![Event::EnemyDefeated]);
}

#[test]
fn enemy_contact_without_stomp_costs_a_life() {
    let mut enemies = vec![Enemy::new(100 * UNIT, 490 * UNIT)];
    let mut events = Vec::new();
    let platforms: Vec<Rect> = Vec::new();
    let (stomps, hits) = resolve_enemies(&mut enemies, 0, &platforms, player_box(100, 480), &mut events);
    assert_eq!((stomps, hits), (0, 1));
    assert!(enemies[0].alive);
    let mut level = empty_level();
    level.enemies = vec![Enemy::new(100 * UNIT, 490 * UNIT)];
    let mut p = Player::new();
    p.body.x = 100 * UNIT;
    p.score = 7;
    p.speed_boost = SPEED_BOOST;
    let fx = level.resolve_interactions(0, player_box(100, 480), &mut events);
    apply_effects(&mut p, &fx);
    assert_eq!(p.lives, START_LIVES - 1);
    assert_eq!((p.body.x, p.body.y), (START_X, START_Y));
    assert_eq!(p.speed_boost, BOOST_ONE);
    assert_eq!(p.score, 7);
}

#[test]
fn falling_off_world_costs_a_life() {
    let mut g = playing_game();
    g.player.body.y = 800 * UNIT;
    let ev = g.update(16, Input::idle());
    assert_eq!(g.player.lives, START_LIVES - 1);
    assert_eq!((g.player.body.x, g.player.body.y), (START_X, START_Y));
    assert_eq!(g.state, GameState::Playing);
    assert_eq!(ev, vec![Event::PlayerHit]);
}

#[test]
fn falling_off_with_last_life_ends_game() {
    let mut g = playing_game();
    g.player.body.y = 800 * UNIT;
    g.player.lives = 1;
    g.update(16, Input::idle());
    assert_eq!(g.player.lives, 0);
    assert_eq!(g.state, GameState::GameOver);
}

#[test]
fn last_goal_ends_game() {
    let mut g = playing_game();
    g.current_level = 2;
    g.player.body.x = 2310 * UNIT;
    g.player.body.y = 420 * UNIT;
    let ev = g.update(0, Input::idle());
    assert_eq!(g.state, GameState::GameOver);
    assert_eq!(g.current_level, 2);
    assert_eq!(g.player.score, 1000);
    assert!(g.level_completed);
    assert_eq!(ev, vec![Event::LevelComplete]);
}

#[test]
fn goal_advances_to_next_level() {
    let mut g = playing_game();
    g.player.body.x = 1810 * UNIT;
    g.player.body.y = 420 * UNIT;
    g.player.lives = 2;
    let ev = g.update(0, Input::idle());
    assert_eq!(g.state, GameState::Playing);
    assert_eq!(g.current_level, 1);
    assert_eq!(g.player.score, 1000);
    assert_eq!(g.player.lives, 2);
    assert_eq!((g.player.body.x, g.player.body.y), (START_X, START_Y));
    assert!(!g.level_completed);
    assert_eq!(ev, vec![Event::LevelComplete]);
}

#[test]
fn restart_after_game_over_rebuilds_everything() {
    let mut g = playing_game();
    g.current_level = 1;
    g.player.score = 5000;
    g.player.lives = 0;
    g.levels[0].coins[0].collected = true;
    g.levels[1].enemies[0].alive = false;
    g.levels[2].powerups[0].collected = true;
    g.state = GameState::GameOver;
    g.update(16, Input { restart: true, ..Input::idle() });
    assert_eq!(g.state, GameState::Playing);
    assert_eq!(g.player.lives, 3);
    assert_eq!(g.player.score, 0);
    assert_eq!(g.current_level, 0);
    for l in &g.levels {
        assert!(l.enemies.iter().all(|e| e.alive));
        assert!(l.coins.iter().all(|c| !c.collected));
        assert!(l.powerups.iter().all(|u| !u.collected));
    }
}

#[test]
fn state_machine_transitions() {
    let mut g = Game::new();
    assert_eq!(g.state, GameState::StartScreen);
    g.update(16, Input::idle());
    assert_eq!(g.state, GameState::StartScreen);
    g.update(16, Input { start: true, ..Input::idle() });
    assert_eq!(g.state, GameState::Playing);
    let before = g.player;
    g.update(16, Input { pause: true, ..Input::idle() });
    assert_eq!(g.state, GameState::Paused);
    assert_eq!(g.player, before);
    g.update(16, Input::idle());
    assert_eq!(g.state, GameState::Paused);
    g.update(16, Input { pause: true, ..Input::idle() });
    assert_eq!(g.state, GameState::Playing);
    g.state = GameState::GameOver;
    g.update(16, Input { menu: true, ..Input::idle() });
    assert_eq!(g.state, GameState::StartScreen);
}

#[test]
fn first_frame_lands_on_ground_and_follows_camera() {
    let mut g = playing_game();
    let mut frames = 0;
    while !g.player.on_ground && frames < 100 {
        g.update(16, Input::idle());
        frames += 1;
    }
    assert!(g.player.on_ground);
    assert_eq!(g.player.body.y, 518 * UNIT);
    assert_eq!(g.camera, Camera { x: 100 * UNIT + 16 * UNIT - 400 * UNIT, y: 518 * UNIT + 16 * UNIT - 300 * UNIT });
}

#[test]
fn step_refuses_values_out_of_bounds() {
    let mut g = playing_game();
    assert!(g.step(-1, Input::idle()).is_none());
    assert!(g.step(MAX_DT_MS + 1, Input::idle()).is_none());
    g.player.score = LIMIT + 1;
    assert!(!g.check_fits());
    assert!(g.step(16, Input::idle()).is_none());
    assert_eq!(g.player.score, LIMIT + 1);
    g.player.score = 0;
    assert!(g.step(16, Input::idle()).is_some());
}

#[test]
fn built_levels_fit() {
    let l1 = Level::create_level_1();
    let l2 = Level::create_level_2();
    let l3 = Level::create_level_3();
    assert!(l1.check_fits() && l2.check_fits() && l3.check_fits());
    assert_eq!((l1.enemies.len(), l2.enemies.len(), l3.enemies.len()), (4, 7, 10));
    assert_eq!(l3.goal_rect(), Rect::new(2300 * UNIT, 350 * UNIT, 50 * UNIT, 150 * UNIT));
}
