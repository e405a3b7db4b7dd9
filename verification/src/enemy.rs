//! Enemies: their archetype stats, the spawn-tier table, and their
//! pursuit movement toward the pawn.

use vstd::prelude::*;

use crate::collision::aabb_intersects;
use crate::collision::aabbs_overlap;
use crate::collision::Aabb;
use crate::constants::ARENA_LIMIT;
use crate::constants::MAX_SPAWN_ATTEMPTS;
use crate::constants::PAWN_HALF_HEIGHT;
use crate::constants::PAWN_HALF_WIDTH;
use crate::constants::POS_LIMIT;
use crate::constants::SIZE_LIMIT;
use crate::rng::random_in_range;
use crate::Scoreboard;
use crate::pawn::Attack;
use crate::pawn::Pawn;
use crate::weapon::Weapon;
use crate::MyCollisionEvent;
use crate::ScoreEvent;

verus! {

/// An enemy archetype's stats: hitbox half-extents, per-tick speed,
/// health, and the score its death is worth. Copied by value into each
/// spawned enemy.
#[derive(Clone, Copy, PartialEq, Eq, Structural, Debug)]
pub struct EnemySprite {
    pub width: u32,
    pub height: u32,
    pub speed: u32,
    pub health: u32,
    pub score: u32,
}

/// A live enemy: a registry id, a position, a facing flag, and its
/// archetype stats.
#[derive(Clone, Copy, PartialEq, Eq, Structural, Debug)]
pub struct Enemy {
    pub id: u64,
    pub x: i32,
    pub y: i32,
    pub facing_left: bool,
    pub stats: EnemySprite,
}

impl EnemySprite {
    /// Bounds every accepted archetype obeys; a live enemy always has
    /// health left.
    pub open spec fn wf(self) -> bool {
        &&& self.width <= SIZE_LIMIT
        &&& self.height <= SIZE_LIMIT
        &&& self.speed <= SIZE_LIMIT
        &&& self.health >= 1
    }
}

impl Enemy {
    /// Bounds every live enemy obeys.
    pub open spec fn wf(self) -> bool {
        &&& -POS_LIMIT <= self.x <= POS_LIMIT
        &&& -POS_LIMIT <= self.y <= POS_LIMIT
        &&& self.stats.wf()
    }

    /// The enemy's hitbox: a box of its archetype's half-extents around
    /// its position.
    pub open spec fn hitbox(self) -> Aabb {
        Aabb { cx: self.x, cy: self.y, hw: self.stats.width, hh: self.stats.height }
    }
}

/// All enemies of a registry are within bounds.
pub open spec fn all_wf(s: Seq<Enemy>) -> bool {
    forall|i: int| 0 <= i < s.len() ==> #[trigger] s[i].wf()
}

/// No two enemies of a registry share an id.
pub open spec fn unique_ids(s: Seq<Enemy>) -> bool {
    forall|i: int, j: int| 0 <= i < j < s.len() ==> s[i].id != s[j].id
}

/// Every id of a registry is below the registry's next fresh id.
pub open spec fn ids_below(s: Seq<Enemy>, next: u64) -> bool {
    forall|i: int| 0 <= i < s.len() ==> #[trigger] s[i].id < next
}

/// The low-tier archetype.
pub open spec fn green_kobold_spec() -> EnemySprite {
    EnemySprite { width: 16, height: 20, speed: 3, health: 1000, score: 100 }
}

/// The mid-tier archetype.
pub open spec fn blue_kobold_spec() -> EnemySprite {
    EnemySprite { width: 16, height: 20, speed: 3, health: 2000, score: 200 }
}

/// The high-tier archetype: slow, tough, worth the most.
pub open spec fn troll_spec() -> EnemySprite {
    EnemySprite { width: 48, height: 38, speed: 1, health: 5000, score: 1000 }
}

/// The low-tier archetype's stats.
pub fn green_kobold() -> (s: EnemySprite)
    ensures
        s == green_kobold_spec(),
        s.wf(),
{
    EnemySprite { width: 16, height: 20, speed: 3, health: 1000, score: 100 }
}

/// The mid-tier archetype's stats.
pub fn blue_kobold() -> (s: EnemySprite)
    ensures
        s == blue_kobold_spec(),
        s.wf(),
{
    EnemySprite { width: 16, height: 20, speed: 3, health: 2000, score: 200 }
}

/// The high-tier archetype's stats.
pub fn troll() -> (s: EnemySprite)
    ensures
        s == troll_spec(),
        s.wf(),
{
    EnemySprite { width: 48, height: 38, speed: 1, health: 5000, score: 1000 }
}

/// The spawn tier for a kill count: an ordered table of kill ranges,
/// wrapping back to the first tier for counts beyond the last explicit
/// range so spawning never stops.
pub open spec fn spec_archetype_for_kills(kills: u32) -> EnemySprite {
    if kills <= 50 {
        green_kobold_spec()
    } else if kills <= 75 {
        blue_kobold_spec()
    } else if kills <= 100 {
        troll_spec()
    } else {
        green_kobold_spec()
    }
}

/// Selects the archetype to spawn for a kill count.
pub fn archetype_for_kills(kills: u32) -> (s: EnemySprite)
    ensures
        s == spec_archetype_for_kills(kills),
        s.wf(),
{
    if kills <= 50 {
        green_kobold()
    } else if kills <= 75 {
        blue_kobold()
    } else if kills <= 100 {
        troll()
    } else {
        green_kobold()
    }
}

/// One coordinate of a pursuit step: move toward the target by at most
/// the speed, without overshooting it.
pub open spec fn pursue_coord(c: int, target: int, s: int) -> int {
    if target - c > s {
        c + s
    } else if target - c < -s {
        c - s
    } else {
        target
    }
}

/// Where one pursuit tick takes an enemy: each axis steps toward the
/// pawn by at most the archetype speed, and the facing flag follows the
/// horizontal direction of pursuit, kept when that direction is zero.
pub open spec fn pursued(e: Enemy, px: int, py: int) -> Enemy {
    Enemy {
        x: pursue_coord(e.x as int, px, e.stats.speed as int) as i32,
        y: pursue_coord(e.y as int, py, e.stats.speed as int) as i32,
        facing_left: if px < e.x {
            true
        } else if px > e.x {
            false
        } else {
            e.facing_left
        },
        ..e
    }
}

/// All enemies after one pursuit tick.
pub open spec fn pursued_all(s: Seq<Enemy>, px: int, py: int) -> Seq<Enemy> {
    Seq::new(s.len(), |i: int| pursued(s[i], px, py))
}

/// One enemy's pursuit step.
fn pursue(e: &Enemy, p: &Pawn) -> (r: Enemy)
    requires
        e.wf(),
        p.wf(),
    ensures
        r == pursued(*e, p.x as int, p.y as int),
        r.wf(),
{
    let s: i64 = e.stats.speed as i64;
    let dx: i64 = (p.x as i64) - (e.x as i64);
    let nx: i64 = if dx > s {
        (e.x as i64) + s
    } else if dx < -s {
        (e.x as i64) - s
    } else {
        p.x as i64
    };
    let dy: i64 = (p.y as i64) - (e.y as i64);
    let ny: i64 = if dy > s {
        (e.y as i64) + s
    } else if dy < -s {
        (e.y as i64) - s
    } else {
        p.y as i64
    };
    let facing_left: bool = if p.x < e.x {
        true
    } else if p.x > e.x {
        false
    } else {
        e.facing_left
    };
    Enemy { x: nx as i32, y: ny as i32, facing_left, ..*e }
}

/// Advances every enemy one pursuit tick toward the pawn.
pub fn move_enemies(enemies: &mut Vec<Enemy>, p: &Pawn)
    requires
        all_wf(old(enemies)@),
        p.wf(),
    ensures
        final(enemies)@ == pursued_all(old(enemies)@, p.x as int, p.y as int),
        all_wf(final(enemies)@),
{
    let n: usize = enemies.len();
    let mut i: usize = 0;
    while i < n
        invariant
            all_wf(old(enemies)@),
            p.wf(),
            i <= n,
            n == old(enemies)@.len(),
            enemies@.len() == n,
            forall|j: int| i <= j < n ==> enemies@[j] == old(enemies)@[j],
            forall|j: int|
                0 <= j < i ==> enemies@[j] == pursued(old(enemies)@[j], p.x as int, p.y as int),
            forall|j: int| 0 <= j < i ==> (#[trigger] enemies@[j]).wf(),
        decreases n - i,
    {
        let e = enemies[i];
        let moved = pursue(&e, p);
        enemies.set(i, moved);
        i = i + 1;
    }
    proof {
        assert(enemies@ =~= pursued_all(old(enemies)@, p.x as int, p.y as int));
    }
}

/// The spawn director's tuning: the density constant `k` of the enemy
/// cap `(kills + 1) * k`, and the half-extents of the arena enemies
/// appear in.
#[derive(Clone, Copy, PartialEq, Eq, Structural, Debug)]
pub struct SpawnConfig {
    pub k: u32,
    pub arena_half_width: u32,
    pub arena_half_height: u32,
}

impl SpawnConfig {
    /// Bounds every accepted spawn configuration obeys.
    pub open spec fn wf(self) -> bool {
        &&& 1 <= self.k
        &&& self.arena_half_width <= ARENA_LIMIT
        &&& self.arena_half_height <= ARENA_LIMIT
    }
}

/// The enemy census the spawn director never exceeds: one density unit
/// per kill scored, plus one.
pub open spec fn spawn_cap(sb: Scoreboard, cfg: SpawnConfig) -> int {
    (sb.kills + 1) * cfg.k
}

/// Picks a spawn position whose enemy hitbox is clear of the pawn's, by
/// rejection sampling over the arena: candidates overlapping the pawn's
/// hitbox are redrawn. The retries are bounded; when they run out the
/// spot just beside the pawn, one unit past the combined half-widths,
/// is taken instead.
pub fn find_good_spot(p: &Pawn, e_hw: u32, e_hh: u32, cfg: &SpawnConfig) -> (spot: (i32, i32))
    requires
        p.wf(),
        cfg.wf(),
        e_hw <= SIZE_LIMIT,
        e_hh <= SIZE_LIMIT,
    ensures
        !aabbs_overlap(Aabb { cx: spot.0, cy: spot.1, hw: e_hw, hh: e_hh }, p.hitbox()),
        -POS_LIMIT <= spot.0 <= POS_LIMIT,
        -POS_LIMIT <= spot.1 <= POS_LIMIT,
{
    let ahw: i32 = cfg.arena_half_width as i32;
    let ahh: i32 = cfg.arena_half_height as i32;
    let pawn_box = Aabb { cx: p.x, cy: p.y, hw: PAWN_HALF_WIDTH, hh: PAWN_HALF_HEIGHT };
    let mut attempts: u32 = 0;
    while attempts < MAX_SPAWN_ATTEMPTS
        invariant
            p.wf(),
            0 <= ahw <= ARENA_LIMIT,
            0 <= ahh <= ARENA_LIMIT,
            pawn_box == p.hitbox(),
        decreases MAX_SPAWN_ATTEMPTS - attempts,
    {
        let x = random_in_range(-ahw, ahw);
        let y = random_in_range(-ahh, ahh);
        let cand = Aabb { cx: x, cy: y, hw: e_hw, hh: e_hh };
        if !aabb_intersects(&cand, &pawn_box) {
            return (x, y);
        }
        attempts = attempts + 1;
    }
    let clear: i32 = (PAWN_HALF_WIDTH as i32) + (e_hw as i32) + 1;
    let x: i32 = if p.x <= 0 {
        p.x + clear
    } else {
        p.x - clear
    };
    (x, p.y)
}

/// One run of the spawn director: when the enemy census is under the
/// cap `(kills + 1) * k`, spawns one enemy of the tier the kill count
/// selects, at a spot clear of the pawn, under a fresh id. Over the
/// cap it spawns nothing.
pub fn spawn_enemies(
    enemies: &mut Vec<Enemy>,
    p: &Pawn,
    scoreboard: &Scoreboard,
    cfg: &SpawnConfig,
    next_id: &mut u64,
) -> (spawned: bool)
    requires
        all_wf(old(enemies)@),
        unique_ids(old(enemies)@),
        ids_below(old(enemies)@, *old(next_id)),
        p.wf(),
        cfg.wf(),
        *old(next_id) < u64::MAX,
    ensures
        spawned == (old(enemies)@.len() < spawn_cap(*scoreboard, *cfg)),
        !spawned ==> final(enemies)@ == old(enemies)@ && *final(next_id) == *old(next_id),
        spawned ==> {
            &&& final(enemies)@ == old(enemies)@.push(final(enemies)@.last())
            &&& *final(next_id) == *old(next_id) + 1
            &&& final(enemies)@.last().id == *old(next_id)
            &&& final(enemies)@.last().stats == spec_archetype_for_kills(scoreboard.kills)
            &&& final(enemies)@.last().facing_left == false
            &&& !aabbs_overlap(final(enemies)@.last().hitbox(), p.hitbox())
        },
        old(enemies)@.len() <= spawn_cap(*scoreboard, *cfg) ==> final(enemies)@.len()
            <= spawn_cap(*scoreboard, *cfg),
        all_wf(final(enemies)@),
        unique_ids(final(enemies)@),
        ids_below(final(enemies)@, *final(next_id)),
{
    proof {
        assert((scoreboard.kills as u64 + 1) * (cfg.k as u64) <= 0x1_0000_0000u64
            * 0xffff_ffffu64) by (nonlinear_arith)
            requires
                scoreboard.kills <= 0xffff_ffffu32,
                cfg.k <= 0xffff_ffffu32,
        ;
    }
    let cap: u64 = ((scoreboard.kills as u64) + 1) * (cfg.k as u64);
    let count: usize = enemies.len();
    if (count as u64) < cap {
        let stats = archetype_for_kills(scoreboard.kills);
        let spot = find_good_spot(p, stats.width, stats.height, cfg);
        let ne = Enemy { id: *next_id, x: spot.0, y: spot.1, facing_left: false, stats };
        enemies.push(ne);
        *next_id = *next_id + 1;
        proof {
            assert forall|i: int, j: int| 0 <= i < j < enemies@.len() implies enemies@[i].id
                != enemies@[j].id by {
                if j == enemies@.len() - 1 {
                    assert(old(enemies)@[i].id < *old(next_id));
                } else {
                    assert(old(enemies)@[i].id != old(enemies)@[j].id);
                }
            }
        }
        true
    } else {
        false
    }
}

/// Whether the weapon strikes this enemy this tick: geometric overlap,
/// the once-per-cycle timer pulse, and the open damage window, all three
/// at once.
pub open spec fn enemy_struck(w: Weapon, e: Enemy) -> bool {
    w.strikes() && w.overlaps(e.hitbox())
}

/// A struck enemy whose remaining health one strike exhausts.
pub open spec fn struck_lethal(w: Weapon, a: Attack, e: Enemy) -> bool {
    enemy_struck(w, e) && a.damage() >= e.stats.health
}

/// The enemy after a non-lethal strike: its health reduced by the
/// strike's damage, everything else kept.
pub open spec fn damaged(e: Enemy, a: Attack) -> Enemy {
    Enemy {
        stats: EnemySprite { health: (e.stats.health - a.damage()) as u32, ..e.stats },
        ..e
    }
}

/// What one combat pass leaves of one enemy: untouched when not struck,
/// removed when the strike is lethal, damaged otherwise.
pub open spec fn resolve_one(w: Weapon, a: Attack, e: Enemy) -> Seq<Enemy> {
    if !enemy_struck(w, e) {
        seq![e]
    } else if a.damage() >= e.stats.health {
        seq![]
    } else {
        seq![damaged(e, a)]
    }
}

/// The score events one enemy contributes to one combat pass.
pub open spec fn events_one(w: Weapon, a: Attack, e: Enemy) -> Seq<ScoreEvent> {
    if !enemy_struck(w, e) {
        seq![]
    } else if a.damage() >= e.stats.health {
        seq![ScoreEvent::Scored(e.stats.score)]
    } else {
        seq![ScoreEvent::EnemyHit]
    }
}

/// The contact event one enemy contributes when the weapon strikes it.
pub open spec fn hits_one(w: Weapon, e: Enemy) -> Seq<MyCollisionEvent> {
    if enemy_struck(w, e) {
        seq![MyCollisionEvent::WeaponHitsEnemy(e.id)]
    } else {
        seq![]
    }
}

/// The enemies one combat pass leaves, in their incoming order.
pub open spec fn resolve_enemies(w: Weapon, a: Attack, s: Seq<Enemy>) -> Seq<Enemy>
    decreases s.len(),
{
    if s.len() == 0 {
        seq![]
    } else {
        resolve_enemies(w, a, s.drop_last()) + resolve_one(w, a, s.last())
    }
}

/// The score events one combat pass emits, in enemy order.
pub open spec fn resolve_score_events(w: Weapon, a: Attack, s: Seq<Enemy>) -> Seq<ScoreEvent>
    decreases s.len(),
{
    if s.len() == 0 {
        seq![]
    } else {
        resolve_score_events(w, a, s.drop_last()) + events_one(w, a, s.last())
    }
}

/// The contact events one combat pass emits, in enemy order.
pub open spec fn resolve_hits(w: Weapon, s: Seq<Enemy>) -> Seq<MyCollisionEvent>
    decreases s.len(),
{
    if s.len() == 0 {
        seq![]
    } else {
        resolve_hits(w, s.drop_last()) + hits_one(w, s.last())
    }
}

/// One combat pass of the weapon over every enemy. Damage lands only on
/// a tick whose timer pulsed with the damage window open; a lethal
/// strike removes the enemy and reports its configured score value, a
/// non-lethal one reduces its health and reports a plain hit.
pub fn collided_with_weapon(enemies: &mut Vec<Enemy>, w: &Weapon, a: &Attack) -> (ev: (
    Vec<ScoreEvent>,
    Vec<MyCollisionEvent>,
))
    requires
        all_wf(old(enemies)@),
        w.wf(),
    ensures
        final(enemies)@ == resolve_enemies(*w, *a, old(enemies)@),
        ev.0@ == resolve_score_events(*w, *a, old(enemies)@),
        ev.1@ == resolve_hits(*w, old(enemies)@),
        all_wf(final(enemies)@),
{
    proof {
        assert((a.damage_amount as u64) * (a.damage_scale as u64) <= 0xffff_ffff_u64
            * 0xffff_ffff_u64) by (nonlinear_arith)
            requires
                a.damage_amount <= 0xffff_ffffu32,
                a.damage_scale <= 0xffff_ffffu32,
        ;
    }
    let damage: u64 = (a.damage_amount as u64) * (a.damage_scale as u64);
    let striking: bool = w.pulsed && w.is_damage_frame();
    let n: usize = enemies.len();
    let mut out: Vec<Enemy> = Vec::new();
    let mut sev: Vec<ScoreEvent> = Vec::new();
    let mut hev: Vec<MyCollisionEvent> = Vec::new();
    let mut i: usize = 0;
    while i < n
        invariant
            all_wf(enemies@),
            w.wf(),
            striking == w.strikes(),
            damage == a.damage(),
            i <= n,
            n == enemies@.len(),
            out@ == resolve_enemies(*w, *a, enemies@.take(i as int)),
            sev@ == resolve_score_events(*w, *a, enemies@.take(i as int)),
            hev@ == resolve_hits(*w, enemies@.take(i as int)),
            all_wf(out@),
        decreases n - i,
    {
        let e = enemies[i];
        proof {
            assert(enemies@.take(i + 1).drop_last() =~= enemies@.take(i as int));
            assert(enemies@.take(i + 1).last() == enemies@[i as int]);
            assert(e.wf());
        }
        let hitbox = Aabb { cx: e.x, cy: e.y, hw: e.stats.width, hh: e.stats.height };
        if striking && w.intersects(&hitbox) {
            hev.push(MyCollisionEvent::WeaponHitsEnemy(e.id));
            if damage >= e.stats.health as u64 {
                sev.push(ScoreEvent::Scored(e.stats.score));
            } else {
                let d32: u32 = damage as u32;
                let mut ne = e;
                ne.stats.health = e.stats.health - d32;
                out.push(ne);
                sev.push(ScoreEvent::EnemyHit);
            }
        } else {
            out.push(e);
        }
        i = i + 1;
        proof {
            assert(out@ =~= resolve_enemies(*w, *a, enemies@.take(i as int)));
            assert(sev@ =~= resolve_score_events(*w, *a, enemies@.take(i as int)));
            assert(hev@ =~= resolve_hits(*w, enemies@.take(i as int)));
        }
    }
    proof {
        assert(enemies@.take(n as int) =~= enemies@);
    }
    *enemies = out;
    (sev, hev)
}

/// The three resolution sequences distribute over concatenation.
pub proof fn lemma_resolve_append(w: Weapon, a: Attack, s1: Seq<Enemy>, s2: Seq<Enemy>)
    ensures
        resolve_enemies(w, a, s1 + s2) == resolve_enemies(w, a, s1) + resolve_enemies(w, a, s2),
        resolve_score_events(w, a, s1 + s2) == resolve_score_events(w, a, s1)
            + resolve_score_events(w, a, s2),
        resolve_hits(w, s1 + s2) == resolve_hits(w, s1) + resolve_hits(w, s2),
    decreases s2.len(),
{
    if s2.len() == 0 {
        assert(s1 + s2 =~= s1);
        assert(resolve_enemies(w, a, s1) + resolve_enemies(w, a, s2) =~= resolve_enemies(
            w,
            a,
            s1,
        ));
        assert(resolve_score_events(w, a, s1) + resolve_score_events(w, a, s2)
            =~= resolve_score_events(w, a, s1));
        assert(resolve_hits(w, s1) + resolve_hits(w, s2) =~= resolve_hits(w, s1));
    } else {
        lemma_resolve_append(w, a, s1, s2.drop_last());
        assert((s1 + s2).drop_last() =~= s1 + s2.drop_last());
        assert((s1 + s2).last() == s2.last());
        assert(resolve_enemies(w, a, s1) + resolve_enemies(w, a, s2.drop_last()) + resolve_one(
            w,
            a,
            s2.last(),
        ) =~= resolve_enemies(w, a, s1) + resolve_enemies(w, a, s2));
        assert(resolve_score_events(w, a, s1) + resolve_score_events(w, a, s2.drop_last())
            + events_one(w, a, s2.last()) =~= resolve_score_events(w, a, s1)
            + resolve_score_events(w, a, s2));
        assert(resolve_hits(w, s1) + resolve_hits(w, s2.drop_last()) + hits_one(w, s2.last())
            =~= resolve_hits(w, s1) + resolve_hits(w, s2));
    }
}

/// The three resolution sequences on a single enemy reduce to that
/// enemy's own contribution.
pub proof fn lemma_resolve_singleton(w: Weapon, a: Attack, e: Enemy)
    ensures
        resolve_enemies(w, a, seq![e]) == resolve_one(w, a, e),
        resolve_score_events(w, a, seq![e]) == events_one(w, a, e),
        resolve_hits(w, seq![e]) == hits_one(w, e),
{
    let mid: Seq<Enemy> = seq![e];
    assert(mid.drop_last() =~= Seq::<Enemy>::empty());
    assert(mid.last() == e);
    assert(resolve_enemies(w, a, Seq::<Enemy>::empty()) =~= Seq::<Enemy>::empty());
    assert(resolve_score_events(w, a, Seq::<Enemy>::empty()) =~= Seq::<ScoreEvent>::empty());
    assert(resolve_hits(w, Seq::<Enemy>::empty()) =~= Seq::<MyCollisionEvent>::empty());
    assert(resolve_enemies(w, a, mid) =~= resolve_one(w, a, e));
    assert(resolve_score_events(w, a, mid) =~= events_one(w, a, e));
    assert(resolve_hits(w, mid) =~= hits_one(w, e));
}

/// Damage-window gating: on a tick where the weapon's timer has not
/// pulsed or its damage window is closed, a combat pass changes no
/// enemy and emits no event, whatever overlaps geometrically.
pub proof fn lemma_damage_window_gating(w: Weapon, a: Attack, s: Seq<Enemy>)
    requires
        !w.strikes(),
    ensures
        resolve_enemies(w, a, s) == s,
        resolve_score_events(w, a, s) == Seq::<ScoreEvent>::empty(),
        resolve_hits(w, s) == Seq::<MyCollisionEvent>::empty(),
    decreases s.len(),
{
    if s.len() == 0 {
        assert(resolve_enemies(w, a, s) =~= s);
        assert(resolve_score_events(w, a, s) =~= Seq::<ScoreEvent>::empty());
        assert(resolve_hits(w, s) =~= Seq::<MyCollisionEvent>::empty());
    } else {
        lemma_damage_window_gating(w, a, s.drop_last());
        assert(resolve_enemies(w, a, s) =~= s);
        assert(resolve_score_events(w, a, s) =~= Seq::<ScoreEvent>::empty());
        assert(resolve_hits(w, s) =~= Seq::<MyCollisionEvent>::empty());
    }
}

/// Every enemy of `r` is an enemy of `s` by id, with its health not
/// increased.
pub open spec fn health_dominated(r: Seq<Enemy>, s: Seq<Enemy>) -> bool {
    forall|j: int|
        0 <= j < r.len() ==> exists|i: int|
            0 <= i < s.len() && (#[trigger] r[j]).id == s[i].id && r[j].stats.health
                <= s[i].stats.health
}

/// Monotonic health: a combat pass never raises any enemy's health, and
/// never invents an enemy — every survivor is one of the entering
/// enemies with its health at most what it was.
pub proof fn lemma_health_monotonic(w: Weapon, a: Attack, s: Seq<Enemy>)
    ensures
        health_dominated(resolve_enemies(w, a, s), s),
    decreases s.len(),
{
    let r = resolve_enemies(w, a, s);
    if s.len() == 0 {
    } else {
        lemma_health_monotonic(w, a, s.drop_last());
        let rp = resolve_enemies(w, a, s.drop_last());
        let one = resolve_one(w, a, s.last());
        assert forall|j: int| 0 <= j < r.len() implies exists|i: int|
            0 <= i < s.len() && (#[trigger] r[j]).id == s[i].id && r[j].stats.health
                <= s[i].stats.health by {
            if j < rp.len() {
                assert(r[j] == rp[j]);
                let i = choose|i: int|
                    0 <= i < s.drop_last().len() && (#[trigger] rp[j]).id == s.drop_last()[i].id
                        && rp[j].stats.health <= s.drop_last()[i].stats.health;
                assert(s.drop_last()[i] == s[i]);
                assert(0 <= i < s.len() && r[j].id == s[i].id && r[j].stats.health
                    <= s[i].stats.health);
            } else {
                let i = s.len() - 1;
                assert(r[j] == one[j - rp.len()]);
                assert(0 <= i < s.len() && r[j].id == s[i].id && r[j].stats.health
                    <= s[i].stats.health);
            }
        }
    }
}

/// A combat pass keeps ids unique, and below any bound the entering
/// ids were below.
pub proof fn lemma_resolve_ids(w: Weapon, a: Attack, s: Seq<Enemy>, next: u64)
    requires
        unique_ids(s),
        ids_below(s, next),
    ensures
        unique_ids(resolve_enemies(w, a, s)),
        ids_below(resolve_enemies(w, a, s), next),
    decreases s.len(),
{
    let r = resolve_enemies(w, a, s);
    if s.len() == 0 {
    } else {
        let sp = s.drop_last();
        assert(forall|i: int| 0 <= i < sp.len() ==> sp[i] == s[i]);
        lemma_resolve_ids(w, a, sp, next);
        lemma_health_monotonic(w, a, sp);
        let rp = resolve_enemies(w, a, sp);
        let one = resolve_one(w, a, s.last());
        assert forall|i: int, j: int| 0 <= i < j < r.len() implies r[i].id != r[j].id by {
            if j < rp.len() {
                assert(r[i] == rp[i] && r[j] == rp[j]);
            } else {
                assert(r[j] == one[j - rp.len()]);
                assert(r[j].id == s.last().id);
                if i < rp.len() {
                    assert(r[i] == rp[i]);
                    let k = choose|k: int|
                        0 <= k < sp.len() && (#[trigger] rp[i]).id == sp[k].id
                            && rp[i].stats.health <= sp[k].stats.health;
                    assert(sp[k] == s[k]);
                    assert(s[k].id != s[s.len() - 1].id);
                } else {
                    assert(one.len() > 1);
                    assert(false);
                }
            }
        }
        assert forall|i: int| 0 <= i < r.len() implies (#[trigger] r[i]).id < next by {
            if i < rp.len() {
                assert(r[i] == rp[i]);
            } else {
                assert(r[i] == one[i - rp.len()]);
                assert(r[i].id == s.last().id);
                assert(s[s.len() - 1].id < next);
            }
        }
    }
}

/// A pursuit tick keeps every enemy's id: uniqueness and any id bound
/// carry over.
pub proof fn lemma_pursuit_ids(s: Seq<Enemy>, px: int, py: int, next: u64)
    requires
        unique_ids(s),
        ids_below(s, next),
    ensures
        unique_ids(pursued_all(s, px, py)),
        ids_below(pursued_all(s, px, py), next),
{
    let r = pursued_all(s, px, py);
    assert(forall|i: int| 0 <= i < r.len() ==> (#[trigger] r[i]).id == s[i].id);
    assert forall|i: int, j: int| 0 <= i < j < r.len() implies r[i].id != r[j].id by {
        assert(s[i].id != s[j].id);
    }
    assert forall|i: int| 0 <= i < r.len() implies (#[trigger] r[i]).id < next by {
        assert(s[i].id < next);
    }
}

/// Despawn on lethal: when one strike exhausts an enemy's health, no
/// enemy with its id survives the pass, and the pass emits exactly one
/// kill event, bearing that enemy's configured score value, in that
/// enemy's place in the event order.
pub proof fn lemma_despawn_on_lethal(w: Weapon, a: Attack, s: Seq<Enemy>, i: int)
    requires
        unique_ids(s),
        0 <= i < s.len(),
        struck_lethal(w, a, s[i]),
    ensures
        forall|j: int|
            0 <= j < resolve_enemies(w, a, s).len() ==> (#[trigger] resolve_enemies(w, a, s)[j]).id
                != s[i].id,
        resolve_score_events(w, a, s) == resolve_score_events(w, a, s.take(i)) + seq![
            ScoreEvent::Scored(s[i].stats.score),
        ] + resolve_score_events(w, a, s.skip(i + 1)),
        resolve_hits(w, s) == resolve_hits(w, s.take(i)) + seq![
            MyCollisionEvent::WeaponHitsEnemy(s[i].id),
        ] + resolve_hits(w, s.skip(i + 1)),
{
    let t1 = s.take(i);
    let t3 = s.skip(i + 1);
    let mid = seq![s[i]];
    assert(s =~= (t1 + mid) + t3);
    lemma_resolve_append(w, a, t1 + mid, t3);
    lemma_resolve_append(w, a, t1, mid);
    lemma_resolve_singleton(w, a, s[i]);
    assert(resolve_one(w, a, s[i]) =~= Seq::<Enemy>::empty());
    assert(resolve_score_events(w, a, s) =~= resolve_score_events(w, a, t1) + seq![
        ScoreEvent::Scored(s[i].stats.score),
    ] + resolve_score_events(w, a, t3));
    assert(resolve_hits(w, s) =~= resolve_hits(w, t1) + seq![
        MyCollisionEvent::WeaponHitsEnemy(s[i].id),
    ] + resolve_hits(w, t3));
    let r = resolve_enemies(w, a, s);
    let r1 = resolve_enemies(w, a, t1);
    let r3 = resolve_enemies(w, a, t3);
    assert(r =~= r1 + r3);
    lemma_health_monotonic(w, a, t1);
    lemma_health_monotonic(w, a, t3);
    assert forall|j: int| 0 <= j < r.len() implies (#[trigger] r[j]).id != s[i].id by {
        if j < r1.len() {
            assert(r[j] == r1[j]);
            let k = choose|k: int|
                0 <= k < t1.len() && (#[trigger] r1[j]).id == t1[k].id && r1[j].stats.health
                    <= t1[k].stats.health;
            assert(t1[k] == s[k]);
            assert(k < i);
            assert(s[k].id != s[i].id);
        } else {
            let m = j - r1.len();
            assert(r[j] == r3[m]);
            let k = choose|k: int|
                0 <= k < t3.len() && (#[trigger] r3[m]).id == t3[k].id && r3[m].stats.health
                    <= t3[k].stats.health;
            assert(t3[k] == s[i + 1 + k]);
            assert(s[i + 1 + k].id != s[i].id);
        }
    }
}

} // verus!
