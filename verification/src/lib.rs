//! Core simulation of a top-down "survivors" action game: a pawn fights
//! waves of pursuing enemies with a periodically swinging weapon, on a
//! fixed-timestep loop. The crate covers the combat and spawning rules
//! alone; rendering, input devices and audio are left to the caller.

use vstd::prelude::*;

pub mod collision;
pub mod constants;
pub mod enemy;
pub mod pawn;
pub mod registry;
pub mod weapon;

mod rng;

use crate::collision::aabbs_overlap;
use crate::constants::HIT_SCORE;
use crate::enemy::collided_with_weapon;
use crate::enemy::lemma_despawn_on_lethal;
use crate::enemy::lemma_pursuit_ids;
use crate::enemy::lemma_resolve_ids;
use crate::enemy::move_enemies;
use crate::enemy::pursued_all;
use crate::enemy::resolve_enemies;
use crate::enemy::resolve_hits;
use crate::enemy::resolve_score_events;
use crate::enemy::spawn_cap;
use crate::enemy::spawn_enemies;
use crate::enemy::spec_archetype_for_kills;
use crate::enemy::struck_lethal;
use crate::enemy::Enemy;
use crate::enemy::SpawnConfig;
use crate::pawn::collide_enemies;
use crate::pawn::move_pawn;
use crate::pawn::pawn_after_contacts;
use crate::pawn::pawn_contacts;
use crate::pawn::pawn_step;
use crate::pawn::starting_pawn;
use crate::pawn::update_score;
use crate::pawn::Attack;
use crate::pawn::Pawn;
use crate::registry::Registry;
use crate::weapon::move_weapon;
use crate::weapon::weapon_01;
use crate::weapon::weapon_01_spec;
use crate::weapon::weapon_ticked;

verus! {

/// The overall game state machine. The combat simulation runs only
/// while the state is `InGame`.
#[derive(Clone, Copy, PartialEq, Eq, Structural, Debug)]
pub enum AppState {
    Setup,
    MainMenu,
    OptionMenu,
    InGame,
    GameOver,
}

impl Default for AppState {
    /// A fresh machine starts in `Setup`.
    fn default() -> (s: AppState)
        ensures
            s == AppState::Setup,
    {
        AppState::Setup
    }
}

/// The running session's score and kill count.
#[derive(Clone, Copy, PartialEq, Eq, Structural, Debug)]
pub struct Scoreboard {
    pub score: u32,
    pub kills: u32,
}

/// The best finished session, as kept across sessions.
#[derive(Clone, Copy, PartialEq, Eq, Structural, Debug)]
pub struct HighScore {
    pub score: u32,
    pub kills: u32,
}

/// Outcomes the combat resolver reports to the scoreboard: a kill worth
/// a score value, or a non-lethal hit.
#[derive(Clone, Copy, PartialEq, Eq, Structural, Debug)]
pub enum ScoreEvent {
    Scored(u32),
    EnemyHit,
}

/// Contact the combat resolver observed, tagged with the enemy's id.
#[derive(Clone, Copy, PartialEq, Eq, Structural, Debug)]
pub enum MyCollisionEvent {
    WeaponHitsEnemy(u64),
    EnemyHitsPawn(u64),
}

/// A sum clamped at the largest `u32`.
pub open spec fn sat_add_u32(a: u32, b: u32) -> u32 {
    if a + b > u32::MAX {
        u32::MAX
    } else {
        (a + b) as u32
    }
}

/// What consuming one score event does to the scoreboard: a kill adds
/// its score value and counts a kill; a non-lethal hit adds the flat
/// hit score.
pub open spec fn apply_score_event(sb: Scoreboard, ev: ScoreEvent) -> Scoreboard {
    match ev {
        ScoreEvent::Scored(v) => Scoreboard {
            score: sat_add_u32(sb.score, v),
            kills: sat_add_u32(sb.kills, 1),
        },
        ScoreEvent::EnemyHit => Scoreboard { score: sat_add_u32(sb.score, HIT_SCORE), ..sb },
    }
}

/// The scoreboard after consuming a queue of score events in order.
pub open spec fn apply_score_events(sb: Scoreboard, evs: Seq<ScoreEvent>) -> Scoreboard
    decreases evs.len(),
{
    if evs.len() == 0 {
        sb
    } else {
        apply_score_event(apply_score_events(sb, evs.drop_last()), evs.last())
    }
}

impl Scoreboard {
    /// A fresh session's scoreboard.
    pub fn new() -> (sb: Scoreboard)
        ensures
            sb == (Scoreboard { score: 0, kills: 0 }),
    {
        Scoreboard { score: 0, kills: 0 }
    }
}

impl HighScore {
    /// The high score to keep after a session ends: the stored one,
    /// unless the finished session scored higher.
    pub fn merged(&self, sb: &Scoreboard) -> (h: HighScore)
        ensures
            h == spec_merged(*self, *sb),
    {
        if sb.score > self.score {
            HighScore { score: sb.score, kills: sb.kills }
        } else {
            *self
        }
    }
}

/// The high score kept after a session: the stored record, replaced
/// when the session's score exceeds it.
pub open spec fn spec_merged(h: HighScore, sb: Scoreboard) -> HighScore {
    if sb.score > h.score {
        HighScore { score: sb.score, kills: sb.kills }
    } else {
        h
    }
}

/// The whole simulation: the state machine, the entity registry, the
/// session's scoreboard, the tuning, and the stored high score.
pub struct Game {
    pub state: AppState,
    pub registry: Registry,
    pub scoreboard: Scoreboard,
    pub attack: Attack,
    pub spawn_config: SpawnConfig,
    pub high_score: HighScore,
}

impl Game {
    /// The invariant every reachable game obeys: the registry and
    /// tuning are within bounds; a running session has exactly its
    /// pawn and weapon live, the pawn with health left; outside a
    /// session no entity is live.
    pub open spec fn wf(self) -> bool {
        &&& self.registry.wf()
        &&& self.spawn_config.wf()
        &&& self.state == AppState::InGame ==> {
            &&& self.registry.pawn is Some
            &&& self.registry.weapon is Some
            &&& self.registry.pawn.unwrap().health >= 1
        }
        &&& self.state != AppState::InGame ==> self.registry.empty()
    }

    /// A fresh game, before setup has finished: nothing live, nothing
    /// scored.
    pub fn new(spawn_config: SpawnConfig, attack: Attack, high_score: HighScore) -> (g: Game)
        requires
            spawn_config.wf(),
        ensures
            g.wf(),
            g.state == AppState::Setup,
            g.registry.empty(),
            g.registry.next_id == 0,
            g.scoreboard == (Scoreboard { score: 0, kills: 0 }),
            g.attack == attack,
            g.spawn_config == spawn_config,
            g.high_score == high_score,
    {
        Game {
            state: AppState::Setup,
            registry: Registry::new(),
            scoreboard: Scoreboard::new(),
            attack,
            spawn_config,
            high_score,
        }
    }

    /// Leaves the boot state for the main menu; in any other state it
    /// does nothing.
    pub fn finish_setup(&mut self)
        requires
            old(self).wf(),
        ensures
            final(self).wf(),
            old(self).state == AppState::Setup ==> *final(self) == (Game {
                state: AppState::MainMenu,
                ..*old(self)
            }),
            old(self).state != AppState::Setup ==> *final(self) == *old(self),
    {
        if self.state == AppState::Setup {
            self.state = AppState::MainMenu;
        }
    }

    /// Starts a session from the main menu, or restarts one from the
    /// game-over screen; in any other state it does nothing. Leaving
    /// the game-over state folds the finished session into the high
    /// score and resets the scoreboard. Entering the session spawns
    /// the pawn and its weapon; enemies arrive through later ticks.
    pub fn start_game(&mut self)
        requires
            old(self).wf(),
        ensures
            final(self).wf(),
            old(self).state == AppState::MainMenu || old(self).state == AppState::GameOver ==> {
                &&& final(self).state == AppState::InGame
                &&& final(self).registry.pawn == Some(starting_pawn())
                &&& final(self).registry.weapon == Some(weapon_01_spec())
                &&& final(self).registry.enemies@ == Seq::<Enemy>::empty()
                &&& final(self).registry.next_id == old(self).registry.next_id
                &&& final(self).attack == old(self).attack
                &&& final(self).spawn_config == old(self).spawn_config
                &&& final(self).scoreboard == (if old(self).state == AppState::GameOver {
                    Scoreboard { score: 0, kills: 0 }
                } else {
                    old(self).scoreboard
                })
                &&& final(self).high_score == (if old(self).state == AppState::GameOver {
                    spec_merged(old(self).high_score, old(self).scoreboard)
                } else {
                    old(self).high_score
                })
            },
            !(old(self).state == AppState::MainMenu || old(self).state == AppState::GameOver)
                ==> *final(self) == *old(self),
    {
        if self.state == AppState::MainMenu || self.state == AppState::GameOver {
            if self.state == AppState::GameOver {
                self.high_score = self.high_score.merged(&self.scoreboard);
                self.scoreboard = Scoreboard::new();
            }
            self.registry.pawn = Some(Pawn::new());
            self.registry.weapon = Some(weapon_01());
            self.state = AppState::InGame;
        }
    }

    /// Leaves a running session for the main menu, despawning every
    /// live entity on the way out; outside a session it does nothing.
    pub fn pause(&mut self)
        requires
            old(self).wf(),
        ensures
            final(self).wf(),
            old(self).state == AppState::InGame ==> {
                &&& final(self).state == AppState::MainMenu
                &&& final(self).registry.empty()
                &&& final(self).registry.next_id == old(self).registry.next_id
                &&& final(self).scoreboard == old(self).scoreboard
                &&& final(self).attack == old(self).attack
                &&& final(self).spawn_config == old(self).spawn_config
                &&& final(self).high_score == old(self).high_score
            },
            old(self).state != AppState::InGame ==> *final(self) == *old(self),
    {
        if self.state == AppState::InGame {
            self.registry.clear();
            self.state = AppState::MainMenu;
        }
    }

    /// Applies one movement intent to the pawn while a session runs;
    /// outside a session it does nothing.
    pub fn pawn_movement(&mut self, dx: i32, dy: i32, fast: bool)
        requires
            old(self).wf(),
            -1 <= dx <= 1,
            -1 <= dy <= 1,
        ensures
            final(self).wf(),
            old(self).state == AppState::InGame ==> *final(self) == (Game {
                registry: (Registry {
                    pawn: Some(
                        pawn_step(
                            old(self).registry.pawn.unwrap(),
                            dx as int,
                            dy as int,
                            fast,
                            old(self).spawn_config.arena_half_width as int,
                            old(self).spawn_config.arena_half_height as int,
                        ),
                    ),
                    ..old(self).registry
                }),
                ..*old(self)
            }),
            old(self).state != AppState::InGame ==> *final(self) == *old(self),
    {
        if self.state == AppState::InGame {
            let mut p = self.registry.pawn.unwrap();
            move_pawn(
                &mut p,
                dx,
                dy,
                fast,
                self.spawn_config.arena_half_width as i32,
                self.spawn_config.arena_half_height as i32,
            );
            self.registry.pawn = Some(p);
        }
    }
}

/// What one fixed tick of a running session does, relating the game
/// before (`g0`) to the game after (`g1`) and to the events the tick
/// reports. In intra-tick order: the combat resolver consumes the
/// prior tick's positions and weapon state, the scoreboard consumes
/// the score events, enemy contact costs the pawn health — reaching
/// zero ends the session on the spot, despawning everything — then
/// pursuit moves the enemies, the weapon advances its timing, and the
/// spawn director may add one enemy, last, so that nothing strikes or
/// pursues on the tick of its own birth.
pub open spec fn tick_post(
    g0: Game,
    g1: Game,
    sev: Seq<ScoreEvent>,
    hits: Seq<MyCollisionEvent>,
) -> bool {
    let p0 = g0.registry.pawn.unwrap();
    let w0 = g0.registry.weapon.unwrap();
    let s0 = g0.registry.enemies@;
    let survivors = resolve_enemies(w0, g0.attack, s0);
    let contacts = pawn_contacts(survivors, p0);
    let p1 = pawn_after_contacts(p0, contacts.len() as int);
    let sb1 = apply_score_events(g0.scoreboard, resolve_score_events(w0, g0.attack, s0));
    &&& sev == resolve_score_events(w0, g0.attack, s0)
    &&& hits == resolve_hits(w0, s0) + contacts
    &&& g1.scoreboard == sb1
    &&& g1.attack == g0.attack
    &&& g1.spawn_config == g0.spawn_config
    &&& g1.high_score == g0.high_score
    &&& if p1.health == 0 {
        &&& g1.state == AppState::GameOver
        &&& g1.registry.empty()
        &&& g1.registry.next_id == g0.registry.next_id
    } else {
        let moved = pursued_all(survivors, p1.x as int, p1.y as int);
        &&& g1.state == AppState::InGame
        &&& g1.registry.pawn == Some(p1)
        &&& g1.registry.weapon == Some(weapon_ticked(w0, p1))
        &&& if moved.len() < spawn_cap(sb1, g0.spawn_config) {
            &&& g1.registry.enemies@.len() == moved.len() + 1
            &&& g1.registry.enemies@.drop_last() == moved
            &&& g1.registry.enemies@.last().id == g0.registry.next_id
            &&& g1.registry.enemies@.last().stats == spec_archetype_for_kills(sb1.kills)
            &&& g1.registry.enemies@.last().facing_left == false
            &&& !aabbs_overlap(g1.registry.enemies@.last().hitbox(), p1.hitbox())
            &&& g1.registry.next_id == g0.registry.next_id + 1
        } else {
            &&& g1.registry.enemies@ == moved
            &&& g1.registry.next_id == g0.registry.next_id
        }
    }
}

impl Game {
    /// One fixed simulation tick. Outside a running session it does
    /// nothing at all; within one it runs the combat resolver, the
    /// scoreboard, pursuit movement, weapon timing and the spawn
    /// director, in that order, and reports the tick's events.
    pub fn tick(&mut self) -> (ev: (Vec<ScoreEvent>, Vec<MyCollisionEvent>))
        requires
            old(self).wf(),
            old(self).registry.next_id < u64::MAX,
        ensures
            final(self).wf(),
            old(self).state != AppState::InGame ==> *final(self) == *old(self) && ev.0@
                == Seq::<ScoreEvent>::empty() && ev.1@ == Seq::<MyCollisionEvent>::empty(),
            old(self).state == AppState::InGame ==> tick_post(
                *old(self),
                *final(self),
                ev.0@,
                ev.1@,
            ),
    {
        if self.state != AppState::InGame {
            return (Vec::new(), Vec::new());
        }
        let pawn0 = self.registry.pawn.unwrap();
        let w0 = self.registry.weapon.unwrap();
        let ghost s0 = self.registry.enemies@;

        let (sev, mut hits) = collided_with_weapon(&mut self.registry.enemies, &w0, &self.attack);
        update_score(&mut self.scoreboard, &sev);
        proof {
            lemma_resolve_ids(w0, self.attack, s0, self.registry.next_id);
        }
        let mut pawn = pawn0;
        let mut contacts = collide_enemies(&mut pawn, &self.registry.enemies);
        hits.append(&mut contacts);
        if pawn.health == 0 {
            self.state = AppState::GameOver;
            self.registry.clear();
            return (sev, hits);
        }
        self.registry.pawn = Some(pawn);
        move_enemies(&mut self.registry.enemies, &pawn);
        proof {
            lemma_pursuit_ids(
                resolve_enemies(w0, self.attack, s0),
                pawn.x as int,
                pawn.y as int,
                self.registry.next_id,
            );
        }
        let mut w1 = w0;
        move_weapon(&mut w1, &pawn);
        self.registry.weapon = Some(w1);
        let ghost moved = self.registry.enemies@;
        spawn_enemies(
            &mut self.registry.enemies,
            &pawn,
            &self.scoreboard,
            &self.spawn_config,
            &mut self.registry.next_id,
        );
        proof {
            if self.registry.enemies@.len() > moved.len() {
                assert(self.registry.enemies@.drop_last() =~= moved);
            }
        }
        (sev, hits)
    }
}

/// Despawn on lethal, across the whole tick: an enemy one strike
/// killed is absent from the registry when the next tick starts —
/// the combat pass removes it, pursuit keeps every id, and the spawn
/// director only ever issues a fresh id.
pub proof fn lemma_dead_enemy_stays_despawned(
    g0: Game,
    g1: Game,
    sev: Seq<ScoreEvent>,
    hits: Seq<MyCollisionEvent>,
    i: int,
)
    requires
        g0.wf(),
        g0.state == AppState::InGame,
        tick_post(g0, g1, sev, hits),
        0 <= i < g0.registry.enemies@.len(),
        struck_lethal(g0.registry.weapon.unwrap(), g0.attack, g0.registry.enemies@[i]),
    ensures
        forall|j: int|
            0 <= j < g1.registry.enemies@.len() ==> (#[trigger] g1.registry.enemies@[j]).id
                != g0.registry.enemies@[i].id,
{
    let w0 = g0.registry.weapon.unwrap();
    let s0 = g0.registry.enemies@;
    let dead_id = s0[i].id;
    let survivors = resolve_enemies(w0, g0.attack, s0);
    lemma_despawn_on_lethal(w0, g0.attack, s0, i);
    let p0 = g0.registry.pawn.unwrap();
    let contacts = pawn_contacts(survivors, p0);
    let p1 = pawn_after_contacts(p0, contacts.len() as int);
    if p1.health == 0 {
    } else {
        let moved = pursued_all(survivors, p1.x as int, p1.y as int);
        assert(forall|j: int|
            0 <= j < moved.len() ==> (#[trigger] moved[j]).id == survivors[j].id);
        assert forall|j: int| 0 <= j < g1.registry.enemies@.len() implies (
        #[trigger] g1.registry.enemies@[j]).id != dead_id by {
            if j < moved.len() {
                assert(g1.registry.enemies@[j] == moved[j]);
                assert(survivors[j].id != dead_id);
            } else {
                assert(g1.registry.enemies@[j] == g1.registry.enemies@.last());
                assert(g1.registry.enemies@[j].id == g0.registry.next_id);
                assert(dead_id < g0.registry.next_id);
            }
        }
    }
}

} // verus!
