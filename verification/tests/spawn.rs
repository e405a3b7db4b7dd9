//! Spawn-director scenarios: the enemy cap, tier selection, and
//! placement clear of the pawn.

use survivors_core::collision::{aabb_intersects, Aabb};
use survivors_core::constants::{PAWN_HALF_HEIGHT, PAWN_HALF_WIDTH, POS_LIMIT};
use survivors_core::enemy::{
    archetype_for_kills, blue_kobold, find_good_spot, green_kobold, spawn_enemies, troll, Enemy,
    SpawnConfig,
};
use survivors_core::pawn::Pawn;
use survivors_core::Scoreboard;

fn test_pawn() -> Pawn {
    Pawn { x: 0, y: 0, health: 100, speed: 200, speed_fast: 300, facing_left: false }
}

fn test_config(k: u32) -> SpawnConfig {
    SpawnConfig { k, arena_half_width: 300, arena_half_height: 200 }
}

fn dummy_enemies(count: u64) -> Vec<Enemy> {
    let mut enemies = Vec::new();
    for id in 0..count {
        enemies.push(Enemy {
            id,
            x: 1000 + id as i32,
            y: 1000,
            facing_left: false,
            stats: green_kobold(),
        });
    }
    enemies
}

#[test]
fn spawns_hundredth_enemy_then_stops() {
    // kills = 0, K = 100: with 99 enemies one more fits; at 100 the
    // cap (kills + 1) * K is reached and nothing spawns.
    let pawn = test_pawn();
    let sb = Scoreboard { score: 0, kills: 0 };
    let cfg = test_config(100);
    let mut enemies = dummy_enemies(99);
    let mut next_id = 99u64;
    assert!(spawn_enemies(&mut enemies, &pawn, &sb, &cfg, &mut next_id));
    assert_eq!(enemies.len(), 100);
    assert_eq!(next_id, 100);
    assert!(!spawn_enemies(&mut enemies, &pawn, &sb, &cfg, &mut next_id));
    assert_eq!(enemies.len(), 100);
    assert_eq!(next_id, 100);
}

#[test]
fn cap_scales_with_kills() {
    let pawn = test_pawn();
    let cfg = test_config(2);
    let mut enemies = dummy_enemies(2);
    let mut next_id = 2u64;
    // kills = 0: cap is 2, already full.
    let sb = Scoreboard { score: 0, kills: 0 };
    assert!(!spawn_enemies(&mut enemies, &pawn, &sb, &cfg, &mut next_id));
    // one kill: cap is 4, room again.
    let sb = Scoreboard { score: 100, kills: 1 };
    assert!(spawn_enemies(&mut enemies, &pawn, &sb, &cfg, &mut next_id));
    assert_eq!(enemies.len(), 3);
}

#[test]
fn spawned_enemy_carries_tier_stats_and_fresh_id() {
    let pawn = test_pawn();
    let sb = Scoreboard { score: 0, kills: 60 };
    let cfg = test_config(2);
    let mut enemies = Vec::new();
    let mut next_id = 41u64;
    assert!(spawn_enemies(&mut enemies, &pawn, &sb, &cfg, &mut next_id));
    assert_eq!(enemies.len(), 1);
    let spawned = enemies[0];
    assert_eq!(spawned.id, 41);
    assert_eq!(next_id, 42);
    assert_eq!(spawned.stats, blue_kobold());
    assert!(!spawned.facing_left);
}

#[test]
fn spawn_position_is_clear_of_the_pawn() {
    let pawn = Pawn { x: 40, y: -25, ..test_pawn() };
    let sb = Scoreboard { score: 0, kills: 0 };
    let cfg = test_config(100);
    let pawn_box = Aabb { cx: pawn.x, cy: pawn.y, hw: PAWN_HALF_WIDTH, hh: PAWN_HALF_HEIGHT };
    let mut enemies = Vec::new();
    let mut next_id = 0u64;
    for _ in 0..50 {
        assert!(spawn_enemies(&mut enemies, &pawn, &sb, &cfg, &mut next_id));
        let spawned = enemies[enemies.len() - 1];
        let hitbox = Aabb {
            cx: spawned.x,
            cy: spawned.y,
            hw: spawned.stats.width,
            hh: spawned.stats.height,
        };
        assert!(!aabb_intersects(&hitbox, &pawn_box));
        assert!(spawned.x.abs() <= POS_LIMIT && spawned.y.abs() <= POS_LIMIT);
    }
}

#[test]
fn find_good_spot_respects_the_clearance() {
    let pawn = test_pawn();
    let cfg = test_config(2);
    for _ in 0..200 {
        let (x, y) = find_good_spot(&pawn, 16, 20, &cfg);
        let hitbox = Aabb { cx: x, cy: y, hw: 16, hh: 20 };
        let pawn_box = Aabb { cx: 0, cy: 0, hw: PAWN_HALF_WIDTH, hh: PAWN_HALF_HEIGHT };
        assert!(!aabb_intersects(&hitbox, &pawn_box));
        assert!(x.abs() <= POS_LIMIT && y.abs() <= POS_LIMIT);
    }
}

#[test]
fn tiers_follow_the_kill_ranges_with_wraparound() {
    assert_eq!(archetype_for_kills(0), green_kobold());
    assert_eq!(archetype_for_kills(50), green_kobold());
    assert_eq!(archetype_for_kills(51), blue_kobold());
    assert_eq!(archetype_for_kills(75), blue_kobold());
    assert_eq!(archetype_for_kills(76), troll());
    assert_eq!(archetype_for_kills(100), troll());
    // Beyond the last explicit range the table wraps to the first
    // tier, so spawning never stops.
    assert_eq!(archetype_for_kills(101), green_kobold());
    assert_eq!(archetype_for_kills(u32::MAX), green_kobold());
}

#[test]
fn archetype_values() {
    let g = green_kobold();
    assert_eq!((g.width, g.height, g.speed, g.health, g.score), (16, 20, 3, 1000, 100));
    let b = blue_kobold();
    assert_eq!((b.width, b.height, b.speed, b.health, b.score), (16, 20, 3, 2000, 200));
    let t = troll();
    assert_eq!((t.width, t.height, t.speed, t.health, t.score), (48, 38, 1, 5000, 1000));
}
