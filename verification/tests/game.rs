//! Whole-game scenarios: the state machine, the fixed tick in its
//! intra-tick order, pursuit movement, weapon timing, and the pawn.

use survivors_core::constants::{PAWN_SPEED, PAWN_STARTING_HEALTH};
use survivors_core::enemy::{green_kobold, move_enemies, Enemy, EnemySprite, SpawnConfig};
use survivors_core::pawn::{move_pawn, Attack, Pawn};
use survivors_core::registry::Registry;
use survivors_core::weapon::{move_weapon, weapon_01, weapon_02, weapon_03, weapon_04};
use survivors_core::{AppState, Game, HighScore, MyCollisionEvent, ScoreEvent, Scoreboard};

fn test_config() -> SpawnConfig {
    SpawnConfig { k: 2, arena_half_width: 300, arena_half_height: 200 }
}

fn fresh_game() -> Game {
    Game::new(test_config(), Attack::default(), HighScore { score: 0, kills: 0 })
}

#[test]
fn setup_menu_session_flow() {
    let mut game = fresh_game();
    assert_eq!(game.state, AppState::Setup);
    game.finish_setup();
    assert_eq!(game.state, AppState::MainMenu);
    game.start_game();
    assert_eq!(game.state, AppState::InGame);
    let pawn = game.registry.pawn.unwrap();
    assert_eq!((pawn.x, pawn.y), (0, 0));
    assert_eq!(pawn.health, PAWN_STARTING_HEALTH);
    assert!(game.registry.weapon.is_some());
    assert!(game.registry.enemies.is_empty());
}

#[test]
fn ticks_outside_a_session_do_nothing() {
    let mut game = fresh_game();
    game.finish_setup();
    let (score_events, hits) = game.tick();
    assert!(score_events.is_empty() && hits.is_empty());
    assert_eq!(game.state, AppState::MainMenu);
    assert!(game.registry.enemies.is_empty());
}

#[test]
fn first_ticks_spawn_up_to_the_cap() {
    let mut game = fresh_game();
    game.finish_setup();
    game.start_game();
    // kills = 0, K = 2: the census may never exceed 2.
    for _ in 0..5 {
        game.tick();
        assert!(game.registry.enemies.len() <= 2);
    }
    assert_eq!(game.registry.enemies.len(), 2);
    assert_eq!(game.registry.enemies[0].stats, green_kobold());
}

#[test]
fn pause_despawns_everything_and_keeps_the_score() {
    let mut game = fresh_game();
    game.finish_setup();
    game.start_game();
    game.tick();
    game.scoreboard = Scoreboard { score: 30, kills: 3 };
    game.pause();
    assert_eq!(game.state, AppState::MainMenu);
    assert!(game.registry.pawn.is_none());
    assert!(game.registry.weapon.is_none());
    assert!(game.registry.enemies.is_empty());
    assert_eq!(game.scoreboard, Scoreboard { score: 30, kills: 3 });
}

fn overlapping_enemy(id: u64) -> Enemy {
    Enemy {
        id,
        x: 0,
        y: 0,
        facing_left: false,
        stats: EnemySprite { width: 16, height: 16, speed: 3, health: 100, score: 100 },
    }
}

fn dying_game() -> Game {
    // A running session whose pawn has one health left and an enemy on
    // top of it: the next tick ends the session.
    Game {
        state: AppState::InGame,
        registry: Registry {
            pawn: Some(Pawn { x: 0, y: 0, health: 1, speed: 200, speed_fast: 300, facing_left: false }),
            enemies: vec![overlapping_enemy(4)],
            weapon: Some(weapon_01()),
            next_id: 5,
        },
        scoreboard: Scoreboard { score: 40, kills: 2 },
        attack: Attack::default(),
        spawn_config: test_config(),
        high_score: HighScore { score: 10, kills: 1 },
    }
}

#[test]
fn lethal_contact_ends_the_session_and_despawns() {
    let mut game = dying_game();
    let (score_events, hits) = game.tick();
    assert_eq!(game.state, AppState::GameOver);
    assert!(game.registry.pawn.is_none());
    assert!(game.registry.weapon.is_none());
    assert!(game.registry.enemies.is_empty());
    assert!(score_events.is_empty());
    assert_eq!(hits, vec![MyCollisionEvent::EnemyHitsPawn(4)]);
    // The session's scoreboard stays readable on the game-over screen.
    assert_eq!(game.scoreboard, Scoreboard { score: 40, kills: 2 });
}

#[test]
fn after_game_over_no_tick_mutates_anything() {
    let mut game = dying_game();
    game.tick();
    let state = game.state;
    let scoreboard = game.scoreboard;
    let next_id = game.registry.next_id;
    for _ in 0..3 {
        let (score_events, hits) = game.tick();
        assert!(score_events.is_empty() && hits.is_empty());
        assert_eq!(game.state, state);
        assert_eq!(game.scoreboard, scoreboard);
        assert_eq!(game.registry.next_id, next_id);
        assert!(game.registry.pawn.is_none());
        assert!(game.registry.weapon.is_none());
        assert!(game.registry.enemies.is_empty());
    }
}

#[test]
fn restart_merges_the_high_score_and_resets_the_board() {
    let mut game = dying_game();
    game.tick();
    assert_eq!(game.state, AppState::GameOver);
    game.start_game();
    assert_eq!(game.state, AppState::InGame);
    // 40 beats the stored 10, so the finished session is kept.
    assert_eq!(game.high_score, HighScore { score: 40, kills: 2 });
    assert_eq!(game.scoreboard, Scoreboard { score: 0, kills: 0 });
    assert_eq!(game.registry.pawn.unwrap().health, PAWN_STARTING_HEALTH);
}

#[test]
fn lower_session_leaves_the_high_score_alone() {
    let mut game = dying_game();
    game.high_score = HighScore { score: 500, kills: 50 };
    game.tick();
    game.start_game();
    assert_eq!(game.high_score, HighScore { score: 500, kills: 50 });
}

#[test]
fn enemies_pursue_without_overshooting() {
    let pawn = Pawn { x: 0, y: 0, health: 100, speed: 200, speed_fast: 300, facing_left: false };
    let mut enemies = vec![
        Enemy { id: 0, x: 10, y: 0, facing_left: false, ..overlapping_enemy(0) },
        Enemy { id: 1, x: 1, y: 0, facing_left: true, ..overlapping_enemy(1) },
        Enemy { id: 2, x: 0, y: -5, facing_left: false, ..overlapping_enemy(2) },
        Enemy { id: 3, x: 0, y: 0, facing_left: true, ..overlapping_enemy(3) },
    ];
    move_enemies(&mut enemies, &pawn);
    // Speed 3, target left of the enemy: step 3, now facing left.
    assert_eq!((enemies[0].x, enemies[0].y), (7, 0));
    assert!(enemies[0].facing_left);
    // One unit away: lands on the pawn without overshooting, facing left.
    assert_eq!((enemies[1].x, enemies[1].y), (0, 0));
    assert!(enemies[1].facing_left);
    // Straight below: moves up, keeps its prior facing.
    assert_eq!((enemies[2].x, enemies[2].y), (0, -2));
    assert!(!enemies[2].facing_left);
    // Exactly on the pawn: no movement, facing kept.
    assert_eq!((enemies[3].x, enemies[3].y), (0, 0));
    assert!(enemies[3].facing_left);
}

#[test]
fn weapon_timer_pulses_once_per_period() {
    let pawn = Pawn { x: 12, y: -3, health: 100, speed: 200, speed_fast: 300, facing_left: true };
    let mut w = weapon_01();
    assert_eq!(w.timer_period, 3);
    move_weapon(&mut w, &pawn);
    assert!(!w.pulsed);
    assert_eq!(w.frame, 0);
    // The weapon tracks the pawn every tick.
    assert_eq!((w.x, w.y), (12, -3));
    assert!(w.facing_left);
    move_weapon(&mut w, &pawn);
    assert!(!w.pulsed);
    move_weapon(&mut w, &pawn);
    assert!(w.pulsed);
    assert_eq!(w.frame, 1);
    assert_eq!(w.timer_ticks, 0);
}

#[test]
fn weapon_frame_wraps_at_the_end_of_the_cycle() {
    let pawn = Pawn { x: 0, y: 0, health: 100, speed: 200, speed_fast: 300, facing_left: false };
    let mut w = weapon_01();
    w.frame = 23;
    w.timer_ticks = 2;
    move_weapon(&mut w, &pawn);
    assert!(w.pulsed);
    assert_eq!(w.frame, 0);
}

#[test]
fn damage_windows_of_the_stock_weapons() {
    let w1 = weapon_01();
    assert_eq!((w1.damage_frame_start, w1.damage_frame_end), (4, 18));
    assert!(!w1.is_damage_frame());
    let w2 = weapon_02();
    assert!(w2.is_damage_frame());
    let w3 = weapon_03();
    assert!(w3.is_damage_frame());
    let w4 = weapon_04();
    assert_eq!(w4.timer_period, 6);
}

#[test]
fn pawn_movement_steps_clamps_and_faces() {
    let mut p = Pawn { x: 0, y: 0, health: 100, speed: 200, speed_fast: 300, facing_left: false };
    move_pawn(&mut p, -1, 0, false, 300, 200);
    assert_eq!((p.x, p.y), (-200, 0));
    assert!(p.facing_left);
    // The arena edge clamps the step.
    move_pawn(&mut p, -1, 1, false, 300, 200);
    assert_eq!((p.x, p.y), (-300, 200));
    assert!(p.facing_left);
    // A vertical intent keeps the facing.
    move_pawn(&mut p, 0, -1, false, 300, 200);
    assert_eq!((p.x, p.y), (-300, 0));
    assert!(p.facing_left);
    // Sprinting uses the fast speed.
    move_pawn(&mut p, 1, 0, true, 300, 200);
    assert_eq!((p.x, p.y), (0, 0));
    assert!(!p.facing_left);
    assert_eq!(p.speed, PAWN_SPEED);
}

#[test]
fn game_level_pawn_movement_respects_the_state() {
    let mut game = fresh_game();
    game.finish_setup();
    game.pawn_movement(1, 0, false);
    assert!(game.registry.pawn.is_none());
    game.start_game();
    game.pawn_movement(1, 0, false);
    assert_eq!(game.registry.pawn.unwrap().x, 200);
}

#[test]
fn tick_consumes_kill_events_into_the_scoreboard() {
    // A running session with a weapon about to pulse inside its damage
    // window, over a weak enemy: the tick itself books the kill.
    let mut w = weapon_02();
    w.frame = 2;
    w.timer_ticks = 2;
    let mut game = Game {
        state: AppState::InGame,
        registry: Registry {
            pawn: Some(Pawn { x: 0, y: 0, health: 100, speed: 200, speed_fast: 300, facing_left: false }),
            enemies: vec![Enemy {
                id: 0,
                x: 20,
                y: 0,
                facing_left: false,
                stats: EnemySprite { width: 16, height: 16, speed: 3, health: 5, score: 77 },
            }],
            weapon: Some(w),
            next_id: 1,
        },
        scoreboard: Scoreboard { score: 0, kills: 0 },
        attack: Attack::default(),
        // A census cap of one: the lone enemy fills it, so no fresh
        // enemy muddies the second tick.
        spawn_config: SpawnConfig { k: 1, arena_half_width: 300, arena_half_height: 200 },
        high_score: HighScore { score: 0, kills: 0 },
    };
    // The stock weapons start unpulsed: the first strike waits for the
    // timer, so the enemy survives the first tick; it overlaps the
    // pawn, which takes one contact damage.
    let (score_events, hits) = game.tick();
    assert!(score_events.is_empty());
    assert_eq!(hits, vec![MyCollisionEvent::EnemyHitsPawn(0)]);
    assert_eq!(game.registry.pawn.unwrap().health, 99);
    // The timer pulses on the second tick and the kill is booked.
    let (score_events, _) = game.tick();
    assert_eq!(score_events, vec![ScoreEvent::Scored(77)]);
    assert_eq!(game.scoreboard, Scoreboard { score: 77, kills: 1 });
}
