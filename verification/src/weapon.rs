//! The pawn's weapon: it tracks the pawn each tick, advances its swing
//! animation on a repeating timer, and strikes only during the active
//! damage window of that animation.

use vstd::prelude::*;

use crate::collision::Aabb;
use crate::collision::Circle;
use crate::collision::aabbs_overlap;
use crate::collision::circle_overlaps_aabb;
use crate::constants::FRAME_LIMIT;
use crate::constants::PERIOD_LIMIT;
use crate::constants::POS_LIMIT;
use crate::constants::SIZE_LIMIT;
use crate::pawn::Pawn;

verus! {

/// The geometry a weapon strikes with: a circle around its tracked
/// position (a rotating blade), or a box pushed out in the facing
/// direction (a melee swing).
#[derive(Clone, Copy, PartialEq, Eq, Structural, Debug)]
pub enum WeaponShape {
    Circle { radius: u32 },
    OffsetBox { offset: u32, half_width: u32, half_height: u32 },
}

/// The weapon's record: tracked position and facing, animation frame
/// range and current frame, active damage window, and the repeating
/// timer that paces frame advance.
#[derive(Clone, Copy, PartialEq, Eq, Structural, Debug)]
pub struct Weapon {
    pub x: i32,
    pub y: i32,
    pub facing_left: bool,
    pub frame: u32,
    pub frame_first: u32,
    pub frame_last: u32,
    pub damage_frame_start: u32,
    pub damage_frame_end: u32,
    /// Ticks counted since the timer last elapsed.
    pub timer_ticks: u32,
    /// Ticks per timer lapse; the timer elapses when the count reaches it.
    pub timer_period: u32,
    /// Whether the timer elapsed on the most recent timing tick: the
    /// once-per-lapse strike pulse.
    pub pulsed: bool,
    pub shape: WeaponShape,
}

impl WeaponShape {
    /// Bounds every accepted shape obeys.
    pub open spec fn wf(self) -> bool {
        match self {
            WeaponShape::Circle { radius } => radius <= SIZE_LIMIT,
            WeaponShape::OffsetBox { offset, half_width, half_height } => {
                &&& offset <= SIZE_LIMIT
                &&& half_width <= SIZE_LIMIT
                &&& half_height <= SIZE_LIMIT
            },
        }
    }
}

impl Weapon {
    /// Bounds and shape constraints every live weapon obeys.
    pub open spec fn wf(self) -> bool {
        &&& -POS_LIMIT <= self.x <= POS_LIMIT
        &&& -POS_LIMIT <= self.y <= POS_LIMIT
        &&& self.frame_first <= self.frame <= self.frame_last <= FRAME_LIMIT
        &&& 1 <= self.timer_period <= PERIOD_LIMIT
        &&& self.timer_ticks < self.timer_period
        &&& self.shape.wf()
    }

    /// Whether the current frame lies in the active damage window.
    pub open spec fn spec_is_damage_frame(self) -> bool {
        self.damage_frame_start <= self.frame <= self.damage_frame_end
    }

    /// Whether the weapon strikes this tick: its timer pulsed and the
    /// current frame is inside the damage window.
    pub open spec fn strikes(self) -> bool {
        self.pulsed && self.spec_is_damage_frame()
    }

    /// The horizontal center of the weapon's hitbox: the tracked
    /// position, pushed out by the shape's offset in the facing
    /// direction when the shape has one.
    pub open spec fn hitbox_cx(self) -> int {
        match self.shape {
            WeaponShape::Circle { .. } => self.x as int,
            WeaponShape::OffsetBox { offset, .. } => {
                if self.facing_left {
                    self.x - offset
                } else {
                    self.x + offset
                }
            },
        }
    }

    /// Whether the weapon's hitbox overlaps a box.
    pub open spec fn overlaps(self, b: Aabb) -> bool {
        match self.shape {
            WeaponShape::Circle { radius } => circle_overlaps_aabb(
                Circle { cx: self.x, cy: self.y, radius },
                b,
            ),
            WeaponShape::OffsetBox { offset, half_width, half_height } => aabbs_overlap(
                Aabb {
                    cx: self.hitbox_cx() as i32,
                    cy: self.y,
                    hw: half_width,
                    hh: half_height,
                },
                b,
            ),
        }
    }

    /// Decides whether the weapon's hitbox overlaps a box.
    pub fn intersects(&self, b: &Aabb) -> (r: bool)
        requires
            self.wf(),
        ensures
            r == self.overlaps(*b),
    {
        match self.shape {
            WeaponShape::Circle { radius } => {
                let c = Circle { cx: self.x, cy: self.y, radius };
                crate::collision::circle_intersects_aabb(&c, b)
            },
            WeaponShape::OffsetBox { offset, half_width, half_height } => {
                let cx: i64 = if self.facing_left {
                    (self.x as i64) - (offset as i64)
                } else {
                    (self.x as i64) + (offset as i64)
                };
                let own = Aabb { cx: cx as i32, cy: self.y, hw: half_width, hh: half_height };
                crate::collision::aabb_intersects(&own, b)
            },
        }
    }

    /// Reports whether the current frame lies in the damage window.
    pub fn is_damage_frame(&self) -> (r: bool)
        ensures
            r == self.spec_is_damage_frame(),
    {
        self.damage_frame_start <= self.frame && self.frame <= self.damage_frame_end
    }
}

/// Where one timing tick takes the weapon: it tracks the pawn's position
/// and facing, counts its repeating timer up, and on a lapse resets the
/// count, pulses, and advances the frame cyclically over the animation
/// range.
pub open spec fn weapon_ticked(w: Weapon, p: Pawn) -> Weapon {
    let lapsed = w.timer_ticks + 1 >= w.timer_period;
    Weapon {
        x: p.x,
        y: p.y,
        facing_left: p.facing_left,
        timer_ticks: if lapsed {
            0
        } else {
            (w.timer_ticks + 1) as u32
        },
        pulsed: lapsed,
        frame: if !lapsed {
            w.frame
        } else if w.frame == w.frame_last {
            w.frame_first
        } else {
            (w.frame + 1) as u32
        },
        ..w
    }
}

/// Advances the weapon by one timing tick.
pub fn move_weapon(w: &mut Weapon, p: &Pawn)
    requires
        old(w).wf(),
        p.wf(),
    ensures
        *final(w) == weapon_ticked(*old(w), *p),
        final(w).wf(),
{
    w.x = p.x;
    w.y = p.y;
    w.facing_left = p.facing_left;
    let t: u32 = w.timer_ticks + 1;
    if t >= w.timer_period {
        w.timer_ticks = 0;
        w.pulsed = true;
        if w.frame == w.frame_last {
            w.frame = w.frame_first;
        } else {
            w.frame = w.frame + 1;
        }
    } else {
        w.timer_ticks = t;
        w.pulsed = false;
    }
}

/// The stock rotating-blade weapon: a full swing cycle with a damage
/// window over its middle frames.
pub fn weapon_01() -> (w: Weapon)
    ensures
        w == (Weapon {
            x: 0,
            y: 0,
            facing_left: false,
            frame: 0,
            frame_first: 0,
            frame_last: 23,
            damage_frame_start: 4,
            damage_frame_end: 18,
            timer_ticks: 0,
            timer_period: 3,
            pulsed: false,
            shape: WeaponShape::Circle { radius: 32 },
        }),
        w.wf(),
{
    Weapon {
        x: 0,
        y: 0,
        facing_left: false,
        frame: 0,
        frame_first: 0,
        frame_last: 23,
        damage_frame_start: 4,
        damage_frame_end: 18,
        timer_ticks: 0,
        timer_period: 3,
        pulsed: false,
        shape: WeaponShape::Circle { radius: 32 },
    }
}

/// A blade variant whose damage window spans the whole cycle.
pub fn weapon_02() -> (w: Weapon)
    ensures
        w.frame_first == 0 && w.frame_last == 23,
        w.damage_frame_start == 0 && w.damage_frame_end == 23,
        w.shape == (WeaponShape::Circle { radius: 32 }),
        w == (Weapon { damage_frame_start: 0, damage_frame_end: 23, ..weapon_01_spec() }),
        w.wf(),
{
    let mut w = weapon_01();
    w.damage_frame_start = 0;
    w.damage_frame_end = 23;
    w
}

/// A wide melee swing: an offset box in the facing direction.
pub fn weapon_03() -> (w: Weapon)
    ensures
        w == (Weapon {
            shape: WeaponShape::OffsetBox { offset: 30, half_width: 32, half_height: 32 },
            damage_frame_start: 0,
            damage_frame_end: 23,
            ..weapon_01_spec()
        }),
        w.wf(),
{
    let mut w = weapon_01();
    w.damage_frame_start = 0;
    w.damage_frame_end = 23;
    w.shape = WeaponShape::OffsetBox { offset: 30, half_width: 32, half_height: 32 };
    w
}

/// A slower blade variant: the same cycle paced by a longer timer.
pub fn weapon_04() -> (w: Weapon)
    ensures
        w == (Weapon { timer_period: 6, damage_frame_start: 0, damage_frame_end: 23, ..weapon_01_spec() }),
        w.wf(),
{
    let mut w = weapon_01();
    w.damage_frame_start = 0;
    w.damage_frame_end = 23;
    w.timer_period = 6;
    w
}

/// The record `weapon_01` returns.
pub open spec fn weapon_01_spec() -> Weapon {
    Weapon {
        x: 0,
        y: 0,
        facing_left: false,
        frame: 0,
        frame_first: 0,
        frame_last: 23,
        damage_frame_start: 4,
        damage_frame_end: 18,
        timer_ticks: 0,
        timer_period: 3,
        pulsed: false,
        shape: WeaponShape::Circle { radius: 32 },
    }
}

} // verus!
