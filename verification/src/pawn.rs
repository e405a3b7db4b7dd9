//! The player's pawn: its combat record, its movement step, and the
//! attack configuration its weapon strikes with.

use vstd::prelude::*;

use crate::collision::aabb_intersects;
use crate::collision::aabbs_overlap;
use crate::collision::Aabb;
use crate::enemy::Enemy;
use crate::constants::ARENA_LIMIT;
use crate::constants::PAWN_HALF_HEIGHT;
use crate::constants::PAWN_HALF_WIDTH;
use crate::constants::PAWN_SPEED;
use crate::constants::PAWN_SPEED_FAST;
use crate::constants::HIT_SCORE;
use crate::constants::PAWN_STARTING_HEALTH;
use crate::constants::SIZE_LIMIT;
use crate::apply_score_event;
use crate::apply_score_events;
use crate::MyCollisionEvent;
use crate::Scoreboard;
use crate::ScoreEvent;

verus! {

/// The player's combat record. Exactly one pawn is live while a game
/// session runs.
#[derive(Clone, Copy, PartialEq, Eq, Structural, Debug)]
pub struct Pawn {
    pub x: i32,
    pub y: i32,
    pub health: u32,
    pub speed: u32,
    pub speed_fast: u32,
    pub facing_left: bool,
}

/// Damage the weapon deals on one strike pulse: `damage_amount`
/// scaled by `damage_scale`.
#[derive(Clone, Copy, PartialEq, Eq, Structural, Debug)]
pub struct Attack {
    pub damage_amount: u32,
    pub damage_scale: u32,
}

impl Attack {
    /// The damage one strike pulse deals.
    pub open spec fn damage(self) -> int {
        self.damage_amount * self.damage_scale
    }
}

impl Default for Attack {
    /// The stock attack configuration.
    fn default() -> (a: Attack)
        ensures
            a.damage_amount == 10,
            a.damage_scale == 1,
    {
        Attack { damage_amount: 10, damage_scale: 1 }
    }
}

impl Pawn {
    /// Bounds every live pawn obeys: it stands inside the largest
    /// accepted arena and its speeds are within the size limit.
    pub open spec fn wf(self) -> bool {
        &&& -ARENA_LIMIT <= self.x <= ARENA_LIMIT
        &&& -ARENA_LIMIT <= self.y <= ARENA_LIMIT
        &&& self.speed <= SIZE_LIMIT
        &&& self.speed_fast <= SIZE_LIMIT
    }

    /// The pawn's hitbox: a box of fixed half-extents around its position.
    pub open spec fn hitbox(self) -> Aabb {
        Aabb { cx: self.x, cy: self.y, hw: PAWN_HALF_WIDTH, hh: PAWN_HALF_HEIGHT }
    }

    /// A freshly spawned pawn: at the origin, full health, facing right.
    pub fn new() -> (p: Pawn)
        ensures
            p == starting_pawn(),
            p.wf(),
    {
        Pawn {
            x: 0,
            y: 0,
            health: PAWN_STARTING_HEALTH,
            speed: PAWN_SPEED,
            speed_fast: PAWN_SPEED_FAST,
            facing_left: false,
        }
    }
}

/// The pawn a new session starts with.
pub open spec fn starting_pawn() -> Pawn {
    Pawn {
        x: 0,
        y: 0,
        health: PAWN_STARTING_HEALTH,
        speed: PAWN_SPEED,
        speed_fast: PAWN_SPEED_FAST,
        facing_left: false,
    }
}

/// A value clamped into `[lo, hi]`.
pub open spec fn clamp_coord(v: int, lo: int, hi: int) -> int {
    if v < lo {
        lo
    } else if v > hi {
        hi
    } else {
        v
    }
}

/// Where one movement intent takes the pawn: one step of its speed in the
/// intended direction, clamped to the arena, with the facing flag
/// following the horizontal sign of the intent.
pub open spec fn pawn_step(p: Pawn, dx: int, dy: int, fast: bool, ahw: int, ahh: int) -> Pawn {
    let s: int = if fast {
        p.speed_fast as int
    } else {
        p.speed as int
    };
    Pawn {
        x: clamp_coord(p.x + dx * s, -ahw, ahw) as i32,
        y: clamp_coord(p.y + dy * s, -ahh, ahh) as i32,
        facing_left: if dx < 0 {
            true
        } else if dx > 0 {
            false
        } else {
            p.facing_left
        },
        ..p
    }
}

/// Advances the pawn by one movement intent. The intent is a unit
/// direction per axis (`-1`, `0` or `1`); a zero intent leaves position
/// and facing alone.
pub fn move_pawn(p: &mut Pawn, dx: i32, dy: i32, fast: bool, ahw: i32, ahh: i32)
    requires
        old(p).wf(),
        -1 <= dx <= 1,
        -1 <= dy <= 1,
        0 <= ahw <= ARENA_LIMIT,
        0 <= ahh <= ARENA_LIMIT,
    ensures
        *final(p) == pawn_step(*old(p), dx as int, dy as int, fast, ahw as int, ahh as int),
        final(p).wf(),
{
    let s: i64 = if fast {
        p.speed_fast as i64
    } else {
        p.speed as i64
    };
    let step_x: i64 = if dx < 0 {
        -s
    } else if dx > 0 {
        s
    } else {
        0
    };
    let step_y: i64 = if dy < 0 {
        -s
    } else if dy > 0 {
        s
    } else {
        0
    };
    proof {
        assert(dx == -1 ==> (dx as int) * (s as int) == -(s as int)) by (nonlinear_arith);
        assert(dx == 0 ==> (dx as int) * (s as int) == 0) by (nonlinear_arith);
        assert(dx == 1 ==> (dx as int) * (s as int) == s as int) by (nonlinear_arith);
        assert(dy == -1 ==> (dy as int) * (s as int) == -(s as int)) by (nonlinear_arith);
        assert(dy == 0 ==> (dy as int) * (s as int) == 0) by (nonlinear_arith);
        assert(dy == 1 ==> (dy as int) * (s as int) == s as int) by (nonlinear_arith);
    }
    let nx: i64 = (p.x as i64) + step_x;
    let ny: i64 = (p.y as i64) + step_y;
    let cx: i64 = if nx < -(ahw as i64) {
        -(ahw as i64)
    } else if nx > ahw as i64 {
        ahw as i64
    } else {
        nx
    };
    let cy: i64 = if ny < -(ahh as i64) {
        -(ahh as i64)
    } else if ny > ahh as i64 {
        ahh as i64
    } else {
        ny
    };
    p.x = cx as i32;
    p.y = cy as i32;
    if dx < 0 {
        p.facing_left = true;
    } else if dx > 0 {
        p.facing_left = false;
    }
}

/// The contact events one tick of enemy/pawn collision emits: one per
/// enemy whose hitbox overlaps the pawn's, in enemy order.
pub open spec fn pawn_contacts(s: Seq<Enemy>, p: Pawn) -> Seq<MyCollisionEvent>
    decreases s.len(),
{
    if s.len() == 0 {
        seq![]
    } else {
        pawn_contacts(s.drop_last(), p) + (if aabbs_overlap(s.last().hitbox(), p.hitbox()) {
            seq![MyCollisionEvent::EnemyHitsPawn(s.last().id)]
        } else {
            seq![]
        })
    }
}

/// The pawn after taking one point of contact damage per overlapping
/// enemy, with health clamped at zero.
pub open spec fn pawn_after_contacts(p: Pawn, n: int) -> Pawn {
    Pawn {
        health: if n >= p.health {
            0u32
        } else {
            (p.health - n) as u32
        },
        ..p
    }
}

/// One tick of enemy/pawn contact damage: every enemy overlapping the
/// pawn's hitbox costs the pawn one health, down to zero. Reports one
/// contact event per overlapping enemy.
pub fn collide_enemies(p: &mut Pawn, enemies: &Vec<Enemy>) -> (hits: Vec<MyCollisionEvent>)
    requires
        old(p).wf(),
    ensures
        hits@ == pawn_contacts(enemies@, *old(p)),
        *final(p) == pawn_after_contacts(*old(p), hits@.len() as int),
        final(p).wf(),
{
    let n: usize = enemies.len();
    let mut hits: Vec<MyCollisionEvent> = Vec::new();
    let pawn_box = Aabb { cx: p.x, cy: p.y, hw: PAWN_HALF_WIDTH, hh: PAWN_HALF_HEIGHT };
    let mut i: usize = 0;
    while i < n
        invariant
            i <= n,
            n == enemies@.len(),
            pawn_box == old(p).hitbox(),
            *p == *old(p),
            hits@ == pawn_contacts(enemies@.take(i as int), *old(p)),
            hits@.len() <= i,
        decreases n - i,
    {
        let e = &enemies[i];
        proof {
            assert(enemies@.take(i + 1).drop_last() =~= enemies@.take(i as int));
            assert(enemies@.take(i + 1).last() == enemies@[i as int]);
        }
        let enemy_box = Aabb { cx: e.x, cy: e.y, hw: e.stats.width, hh: e.stats.height };
        if aabb_intersects(&enemy_box, &pawn_box) {
            hits.push(MyCollisionEvent::EnemyHitsPawn(e.id));
        }
        i = i + 1;
        proof {
            assert(hits@ =~= pawn_contacts(enemies@.take(i as int), *old(p)));
        }
    }
    proof {
        assert(enemies@.take(n as int) =~= enemies@);
    }
    let count: usize = hits.len();
    if count as u64 >= p.health as u64 {
        p.health = 0;
    } else {
        p.health = p.health - (count as u32);
    }
    hits
}

/// Consumes a queue of score events into the scoreboard, in order.
pub fn update_score(score: &mut Scoreboard, events: &Vec<ScoreEvent>)
    ensures
        *final(score) == apply_score_events(*old(score), events@),
{
    let n: usize = events.len();
    let mut i: usize = 0;
    while i < n
        invariant
            i <= n,
            n == events@.len(),
            *score == apply_score_events(*old(score), events@.take(i as int)),
        decreases n - i,
    {
        proof {
            assert(events@.take(i + 1).drop_last() =~= events@.take(i as int));
            assert(events@.take(i + 1).last() == events@[i as int]);
        }
        match events[i] {
            ScoreEvent::Scored(v) => {
                if score.score <= u32::MAX - v {
                    score.score = score.score + v;
                } else {
                    score.score = u32::MAX;
                }
                if score.kills < u32::MAX {
                    score.kills = score.kills + 1;
                }
            },
            ScoreEvent::EnemyHit => {
                if score.score <= u32::MAX - HIT_SCORE {
                    score.score = score.score + HIT_SCORE;
                } else {
                    score.score = u32::MAX;
                }
            },
        }
        i = i + 1;
        proof {
            assert(*score == apply_score_event(
                apply_score_events(*old(score), events@.take(i - 1)),
                events@[i - 1],
            ));
        }
    }
    proof {
        assert(events@.take(n as int) =~= events@);
    }
}

} // verus!
