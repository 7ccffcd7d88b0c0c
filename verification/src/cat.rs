//! The agents ("cats"): per-kind tunables, the five-state behaviour
//! machine, the annoyance accumulator, and the per-state movement rules.

use vstd::prelude::*;

verus! {

use crate::geom::{
    Vec2, Facing, clamp1, div_trunc, dist2, dist2_i64, spec_in_rect, spec_rects_overlap,
    spec_norm_to, norm_to, spec_wrap_angle, wrap_angle, spec_sin_mrad, spec_cos_mrad, sin_mrad,
    cos_mrad, ceil_sqrt, ceil_sqrt_i64, vel_step, ARENA_LIMIT, POS_LIMIT, VEL_LIMIT, DT_LIMIT,
    TIME_LIMIT, TAU_MRAD,
};
use crate::dog::{Dog, DogState};
use crate::rng::sample_range;

/// Annoyance level at which an agent escalates, in milli-units.
pub const ANNOYANCE_THRESHOLD: i64 = 1000;

/// How long an agent jitters before dashing, in milliseconds.
pub const CANNONBALL_COUNTDOWN: i64 = 1000;

/// Dash speed, in milli-pixels per second.
pub const CANNONBALL_SPEED: i64 = 240_000;

/// How long a dash lasts, in milliseconds.
pub const CANNONBALL_TIME: i64 = 1250;

/// Largest jitter offset from the jitter origin, in milli-pixels.
pub const JITTER_AMOUNT: i64 = 2000;

/// Every agent's square footprint edge, in milli-pixels.
pub const CAT_SIZE: i64 = 30_000;

/// How far an agent notices the chasing pursuer, in milli-pixels.
pub const DETECTION_RADIUS: i64 = 70_000;

/// A direction vector scaled to this length is a unit vector.
pub const UNIT: i64 = 1000;

/// Capacity of the fixed-width annoyance accumulator, in milli-units.
pub const ANNOYANCE_CAP: i64 = 1_000_000_000;

/// How many sprite tints the presentation layer offers.
pub const NUM_CAT_COLORS: usize = 4;

pub const BASIC_CAT_ANNOYANCE_RATE: i64 = 1000;

pub const BASIC_CAT_CALMING_RATE: i64 = 750;

pub const BASIC_CAT_SPEED: i64 = 150_000;

pub const BASIC_CAT_RW_RADIUS: i64 = 9000;

pub const BASIC_CAT_FLEE_SCALAR: i64 = 1000;

pub const KITTEN_ANNOYANCE_RATE: i64 = 0;

pub const KITTEN_CALMING_RATE: i64 = 0;

pub const KITTEN_SPEED: i64 = 175_000;

pub const KITTEN_RW_RADIUS: i64 = 12_000;

pub const KITTEN_FLEE_SCALAR: i64 = 1500;

pub const FAT_CAT_ANNOYANCE_RATE: i64 = 1500;

pub const FAT_CAT_CALMING_RATE: i64 = 500;

pub const FAT_CAT_SPEED: i64 = 100_000;

pub const FAT_CAT_RW_RADIUS: i64 = 6000;

pub const FAT_CAT_FLEE_SCALAR: i64 = 1000;

/// The meow timer's repeat interval, in milliseconds.
pub const MEOW_INTERVAL: i64 = 3000;

/// The three agent kinds; they share the state machine and differ only in
/// their tunables.
#[derive(Clone, Copy, PartialEq, Eq, Structural, Debug)]
pub enum CatType {
    Basic,
    Kitten,
    Fat,
}

/// The agent behaviour states.
#[derive(Clone, Copy, PartialEq, Eq, Structural, Debug)]
pub enum CatState {
    Flee,
    Idle,
    InPen,
    Jittering,
    Cannonballing,
}

/// The goal region ("pen"): a static rectangle, one per session.
#[derive(Clone, Copy, PartialEq, Eq, Structural, Debug)]
pub struct CatBox {
    pub pos: Vec2,
    pub size: Vec2,
}

impl CatBox {
    pub open spec fn wf(self) -> bool {
        &&& -ARENA_LIMIT <= self.pos.x <= ARENA_LIMIT
        &&& -ARENA_LIMIT <= self.pos.y <= ARENA_LIMIT
        &&& 0 < self.size.x <= 1_000_000
        &&& 0 < self.size.y <= 1_000_000
    }

    /// Inclusive containment test against `pos ± size/2`.
    pub fn in_bounds(&self, point: &Vec2) -> (r: bool)
        requires
            self.wf(),
        ensures
            r == spec_in_rect(*point, self.pos, self.size),
    {
        let half_x = self.size.x / 2;
        let half_y = self.size.y / 2;
        point.x >= self.pos.x - half_x && point.x <= self.pos.x + half_x && point.y >= self.pos.y
            - half_y && point.y <= self.pos.y + half_y
    }
}

/// A pursued agent.
#[derive(Clone, Copy, PartialEq, Eq, Structural, Debug)]
pub struct Cat {
    pub pos: Vec2,
    pub facing: Facing,
    pub cat_type: CatType,
    /// Detection radius, in milli-pixels.
    pub radius: i64,
    /// Base speed, in milli-pixels per second.
    pub speed: i64,
    pub size: Vec2,
    /// Stress accumulator, in milli-units; never negative.
    pub annoyance_total: i64,
    /// Accumulation rate while fleeing, in milli-units per second.
    pub annoyance_rate: i64,
    /// Decay rate while idle or penned, in milli-units per second.
    pub calming_rate: i64,
    pub state: CatState,
    pub velocity: Vec2,
    /// Random-walk circle radius, in milli-pixels.
    pub rw_radius: i64,
    /// Random-walk heading, in milliradians within `[0, TAU_MRAD)`.
    pub rw_theta: i64,
    /// Where the stationary shake is anchored.
    pub jitter_origin: Vec2,
    /// Time left jittering before the dash starts, in milliseconds.
    pub targeting_time: i64,
    /// Unit dash direction, scaled by `UNIT`.
    pub dog_target: Vec2,
    /// Time left dashing, in milliseconds.
    pub cannonballing_time: i64,
    /// Flee speed multiplier, in thousandths.
    pub flee_scalar: i64,
    /// Which sprite tint the presentation layer should use.
    pub color: usize,
    /// Meow cadence, in milliseconds.
    pub meow_interval: i64,
    /// Time since the last meow, in milliseconds; starts at a random
    /// negative offset so a fresh batch does not meow in unison.
    pub meow_time: i64,
}

/// Annoyance after decaying for `dt` milliseconds at `rate` milli-units
/// per second, floored at zero.
pub open spec fn decayed(total: int, rate: int, dt: int) -> int {
    let d = total - rate * dt / 1000;
    if d < 0 {
        0
    } else {
        d
    }
}

/// The strict movement clamp: move by `change`, then keep the full
/// footprint inside the arena, confining the center to
/// `[half, bounds - half]` per axis.
pub open spec fn spec_strict_move(pos: Vec2, change: Vec2, bounds: Vec2) -> Vec2 {
    Vec2 {
        x: clamp1(pos.x + change.x, CAT_SIZE / 2, bounds.x - CAT_SIZE / 2) as i64,
        y: clamp1(pos.y + change.y, CAT_SIZE / 2, bounds.y - CAT_SIZE / 2) as i64,
    }
}

/// The transition function, evaluated once per tick per agent; the first
/// matching rule wins.
pub open spec fn next_state(c: Cat, d: Dog, b: CatBox) -> CatState {
    if c.state is Cannonballing && c.cannonballing_time > 0 {
        CatState::Cannonballing
    } else if c.state is Cannonballing {
        CatState::Idle
    } else if c.state is Jittering && c.targeting_time <= 0 {
        CatState::Cannonballing
    } else if c.annoyance_total >= ANNOYANCE_THRESHOLD {
        CatState::Jittering
    } else if spec_in_rect(c.pos, b.pos, b.size) {
        CatState::InPen
    } else if d.dog_state is Chasing && dist2(c.pos, d.pos) < c.radius * c.radius {
        CatState::Flee
    } else {
        CatState::Idle
    }
}

/// A dash lands if and only if the pursuer is chasing and the two
/// footprints overlap; a blinking pursuer cannot be hit.
pub open spec fn spec_collides(c: Cat, d: Dog) -> bool {
    d.dog_state is Chasing && spec_rects_overlap(c.pos, c.size, d.pos, d.size)
}

/// The idle random-walk velocity: nudge the heading, blend the heading
/// circle vector into the current velocity, renormalise to a third of the
/// agent's speed, and push away from the pen when near it.
pub open spec fn spec_idle_velocity(c: Cat, b: CatBox, theta: int) -> Vec2 {
    let circle0 = Vec2 { x: spec_cos_mrad(theta) as i64, y: spec_sin_mrad(theta) as i64 };
    let circle = spec_norm_to(circle0, c.rw_radius as int);
    let sum = Vec2 {
        x: (c.velocity.x + circle.x) as i64,
        y: (c.velocity.y + circle.y) as i64,
    };
    let base = if sum.x == 0 && sum.y == 0 {
        c.velocity
    } else {
        spec_norm_to(sum, c.speed as int / 3)
    };
    let d2 = dist2(c.pos, b.pos);
    let reach = b.size.x / 2 + c.radius;
    if 0 < d2 && d2 < reach * reach {
        let away = Vec2 { x: (c.pos.x - b.pos.x) as i64, y: (c.pos.y - b.pos.y) as i64 };
        let rep = spec_norm_to(away, 150_000_000 as int / ceil_sqrt(d2));
        let sum2 = Vec2 { x: (base.x + rep.x) as i64, y: (base.y + rep.y) as i64 };
        spec_norm_to(sum2, c.speed as int / 3)
    } else {
        base
    }
}

/// One tick's displacement at velocity `v`, each component truncated
/// toward zero.
pub open spec fn spec_vel_change(v: Vec2, dt: int) -> Vec2 {
    Vec2 { x: div_trunc(v.x * dt, 1000) as i64, y: div_trunc(v.y * dt, 1000) as i64 }
}

/// What one `idle` tick does to an agent, given the sampled heading nudge
/// `delta`.
pub open spec fn spec_idle_step(c: Cat, b: CatBox, bounds: Vec2, dt: int, delta: int) -> Cat {
    let theta = spec_wrap_angle(c.rw_theta as int, delta);
    let v = spec_idle_velocity(c, b, theta);
    Cat {
        rw_theta: theta as i64,
        velocity: v,
        pos: spec_strict_move(c.pos, spec_vel_change(v, dt), bounds),
        annoyance_total: decayed(c.annoyance_total as int, c.calming_rate as int, dt) as i64,
        ..c
    }
}

/// What one `in_pen` tick does to an agent.
pub open spec fn spec_in_pen_step(c: Cat, dt: int) -> Cat {
    Cat {
        velocity: Vec2 { x: 0, y: 0 },
        annoyance_total: decayed(c.annoyance_total as int, c.calming_rate as int, dt) as i64,
        ..c
    }
}

/// What one `flee` tick does to an agent running from a pursuer at
/// `dog_pos`, the turn to face the flight included.
pub open spec fn spec_flee_step(c: Cat, dog_pos: Vec2, bounds: Vec2, dt: int) -> Cat {
    let dir = Vec2 { x: (c.pos.x - dog_pos.x) as i64, y: (c.pos.y - dog_pos.y) as i64 };
    let facing = if dir.x > 0 {
        Facing::Right
    } else if dir.x < 0 {
        Facing::Left
    } else {
        c.facing
    };
    let v = spec_norm_to(dir, c.speed * c.flee_scalar / 1000);
    let pos = spec_strict_move(c.pos, spec_vel_change(v, dt), bounds);
    let a = c.annoyance_total + c.annoyance_rate * dt / 1000;
    if a >= ANNOYANCE_THRESHOLD {
        Cat {
            facing,
            velocity: v,
            pos,
            annoyance_total: a as i64,
            jitter_origin: pos,
            targeting_time: CANNONBALL_COUNTDOWN,
            ..c
        }
    } else {
        Cat { facing, velocity: v, pos, annoyance_total: a as i64, ..c }
    }
}

/// What one `jitter` tick does to an agent, given the sampled shake
/// offsets.
pub open spec fn spec_jitter_step(c: Cat, dog_pos: Vec2, dt: int, jx: int, jy: int) -> Cat {
    let pos = Vec2 { x: (c.jitter_origin.x + jx) as i64, y: (c.jitter_origin.y + jy) as i64 };
    let t = c.targeting_time - dt;
    if t <= 0 {
        Cat {
            pos,
            targeting_time: t as i64,
            dog_target: spec_norm_to(
                (Vec2 { x: (dog_pos.x - pos.x) as i64, y: (dog_pos.y - pos.y) as i64 }),
                UNIT as int,
            ),
            cannonballing_time: CANNONBALL_TIME,
            ..c
        }
    } else {
        Cat { pos, targeting_time: t as i64, ..c }
    }
}

/// What one `cannonball` tick does to an agent (the possible hit is the
/// pursuer's side of the story).
pub open spec fn spec_dash_step(c: Cat, bounds: Vec2, dt: int) -> Cat {
    let v = Vec2 {
        x: div_trunc(c.dog_target.x * CANNONBALL_SPEED * dt, 1_000_000) as i64,
        y: div_trunc(c.dog_target.y * CANNONBALL_SPEED * dt, 1_000_000) as i64,
    };
    Cat {
        velocity: v,
        pos: spec_strict_move(c.pos, v, bounds),
        cannonballing_time: (c.cannonballing_time - dt) as i64,
        ..c
    }
}

impl Cat {
    /// Bounds that every reachable agent value satisfies, including that
    /// the annoyance accumulator is never negative.
    pub open spec fn wf(self) -> bool {
        &&& -POS_LIMIT <= self.pos.x <= POS_LIMIT
        &&& -POS_LIMIT <= self.pos.y <= POS_LIMIT
        &&& 0 < self.radius <= 1_000_000
        &&& 0 < self.speed <= 1_000_000
        &&& self.size == (Vec2 { x: CAT_SIZE, y: CAT_SIZE })
        &&& 0 <= self.annoyance_total <= ANNOYANCE_CAP
        &&& 0 <= self.annoyance_rate <= 100_000
        &&& 0 <= self.calming_rate <= 100_000
        &&& -VEL_LIMIT <= self.velocity.x <= VEL_LIMIT
        &&& -VEL_LIMIT <= self.velocity.y <= VEL_LIMIT
        &&& 0 <= self.rw_radius <= 1_000_000
        &&& 0 <= self.rw_theta < TAU_MRAD
        &&& -ARENA_LIMIT <= self.jitter_origin.x <= ARENA_LIMIT
        &&& -ARENA_LIMIT <= self.jitter_origin.y <= ARENA_LIMIT
        &&& -TIME_LIMIT <= self.targeting_time <= TIME_LIMIT
        &&& -UNIT <= self.dog_target.x <= UNIT
        &&& -UNIT <= self.dog_target.y <= UNIT
        &&& -TIME_LIMIT <= self.cannonballing_time <= TIME_LIMIT
        &&& 0 <= self.flee_scalar <= 10_000
        &&& self.color < NUM_CAT_COLORS
        &&& 0 <= self.meow_interval <= TIME_LIMIT
        &&& -TIME_LIMIT <= self.meow_time <= TIME_LIMIT
    }

    /// The fields every newly spawned agent shares, whatever its kind.
    pub open spec fn spawned_at(self, pos: Vec2, vel: Vec2) -> bool {
        &&& self.pos == pos
        &&& self.facing is Left
        &&& self.radius == DETECTION_RADIUS
        &&& self.size == (Vec2 { x: CAT_SIZE, y: CAT_SIZE })
        &&& self.annoyance_total == 0
        &&& self.state is Idle
        &&& self.velocity == vel
        &&& self.rw_theta == 0
        &&& self.jitter_origin == pos
        &&& self.targeting_time == 0
        &&& self.dog_target == (Vec2 { x: 0, y: 0 })
        &&& self.cannonballing_time == 0
        &&& self.color < NUM_CAT_COLORS
        &&& self.meow_interval == MEOW_INTERVAL
    }

    /// The agent carries exactly its kind's tunables from the table:
    /// speed, annoyance and calming rates, random-walk radius, and flee
    /// scalar.
    pub open spec fn tuned_for_kind(self) -> bool {
        match self.cat_type {
            CatType::Basic => {
                &&& self.speed == BASIC_CAT_SPEED
                &&& self.annoyance_rate == BASIC_CAT_ANNOYANCE_RATE
                &&& self.calming_rate == BASIC_CAT_CALMING_RATE
                &&& self.rw_radius == BASIC_CAT_RW_RADIUS
                &&& self.flee_scalar == BASIC_CAT_FLEE_SCALAR
            },
            CatType::Kitten => {
                &&& self.speed == KITTEN_SPEED
                &&& self.annoyance_rate == KITTEN_ANNOYANCE_RATE
                &&& self.calming_rate == KITTEN_CALMING_RATE
                &&& self.rw_radius == KITTEN_RW_RADIUS
                &&& self.flee_scalar == KITTEN_FLEE_SCALAR
            },
            CatType::Fat => {
                &&& self.speed == FAT_CAT_SPEED
                &&& self.annoyance_rate == FAT_CAT_ANNOYANCE_RATE
                &&& self.calming_rate == FAT_CAT_CALMING_RATE
                &&& self.rw_radius == FAT_CAT_RW_RADIUS
                &&& self.flee_scalar == FAT_CAT_FLEE_SCALAR
            },
        }
    }

    /// A basic cat: middling speed, steady temper.
    pub fn new_basic_cat(pos: Vec2, vel: Vec2) -> (c: Cat)
        requires
            -ARENA_LIMIT <= pos.x <= ARENA_LIMIT,
            -ARENA_LIMIT <= pos.y <= ARENA_LIMIT,
            -VEL_LIMIT <= vel.x <= VEL_LIMIT,
            -VEL_LIMIT <= vel.y <= VEL_LIMIT,
        ensures
            c.wf(),
            c.spawned_at(pos, vel),
            c.cat_type is Basic,
            c.tuned_for_kind(),
            c.speed == BASIC_CAT_SPEED,
            c.annoyance_rate == BASIC_CAT_ANNOYANCE_RATE,
            c.calming_rate == BASIC_CAT_CALMING_RATE,
            c.rw_radius == BASIC_CAT_RW_RADIUS,
            c.flee_scalar == BASIC_CAT_FLEE_SCALAR,
            -3000 <= c.meow_time < 2000,
    {
        let meow_time = sample_range(-3000, 1999);
        let color = sample_range(0, 3);
        Cat {
            pos,
            facing: Facing::Left,
            cat_type: CatType::Basic,
            radius: DETECTION_RADIUS,
            speed: BASIC_CAT_SPEED,
            size: Vec2 { x: CAT_SIZE, y: CAT_SIZE },
            annoyance_total: 0,
            annoyance_rate: BASIC_CAT_ANNOYANCE_RATE,
            calming_rate: BASIC_CAT_CALMING_RATE,
            state: CatState::Idle,
            velocity: vel,
            rw_radius: BASIC_CAT_RW_RADIUS,
            rw_theta: 0,
            jitter_origin: pos,
            targeting_time: 0,
            dog_target: Vec2 { x: 0, y: 0 },
            cannonballing_time: 0,
            flee_scalar: BASIC_CAT_FLEE_SCALAR,
            color: color as usize,
            meow_interval: MEOW_INTERVAL,
            meow_time,
        }
    }

    /// A kitten: fast, flighty, and never annoyed enough to dash.
    pub fn new_kitten(pos: Vec2, vel: Vec2) -> (c: Cat)
        requires
            -ARENA_LIMIT <= pos.x <= ARENA_LIMIT,
            -ARENA_LIMIT <= pos.y <= ARENA_LIMIT,
            -VEL_LIMIT <= vel.x <= VEL_LIMIT,
            -VEL_LIMIT <= vel.y <= VEL_LIMIT,
        ensures
            c.wf(),
            c.spawned_at(pos, vel),
            c.cat_type is Kitten,
            c.tuned_for_kind(),
            c.speed == KITTEN_SPEED,
            c.annoyance_rate == KITTEN_ANNOYANCE_RATE,
            c.calming_rate == KITTEN_CALMING_RATE,
            c.rw_radius == KITTEN_RW_RADIUS,
            c.flee_scalar == KITTEN_FLEE_SCALAR,
            -3000 <= c.meow_time < 2000,
    {
        let meow_time = sample_range(-3000, 1999);
        let color = sample_range(0, 3);
        Cat {
            pos,
            facing: Facing::Left,
            cat_type: CatType::Kitten,
            radius: DETECTION_RADIUS,
            speed: KITTEN_SPEED,
            size: Vec2 { x: CAT_SIZE, y: CAT_SIZE },
            annoyance_total: 0,
            annoyance_rate: KITTEN_ANNOYANCE_RATE,
            calming_rate: KITTEN_CALMING_RATE,
            state: CatState::Idle,
            velocity: vel,
            rw_radius: KITTEN_RW_RADIUS,
            rw_theta: 0,
            jitter_origin: pos,
            targeting_time: 0,
            dog_target: Vec2 { x: 0, y: 0 },
            cannonballing_time: 0,
            flee_scalar: KITTEN_FLEE_SCALAR,
            color: color as usize,
            meow_interval: MEOW_INTERVAL,
            meow_time,
        }
    }

    /// A fat cat: slow, quick to anger, slow to calm down.
    pub fn new_fat_cat(pos: Vec2, vel: Vec2) -> (c: Cat)
        requires
            -ARENA_LIMIT <= pos.x <= ARENA_LIMIT,
            -ARENA_LIMIT <= pos.y <= ARENA_LIMIT,
            -VEL_LIMIT <= vel.x <= VEL_LIMIT,
            -VEL_LIMIT <= vel.y <= VEL_LIMIT,
        ensures
            c.wf(),
            c.spawned_at(pos, vel),
            c.cat_type is Fat,
            c.tuned_for_kind(),
            c.speed == FAT_CAT_SPEED,
            c.annoyance_rate == FAT_CAT_ANNOYANCE_RATE,
            c.calming_rate == FAT_CAT_CALMING_RATE,
            c.rw_radius == FAT_CAT_RW_RADIUS,
            c.flee_scalar == FAT_CAT_FLEE_SCALAR,
            -1000 <= c.meow_time < 1000,
    {
        let meow_time = sample_range(-1000, 999);
        let color = sample_range(0, 3);
        Cat {
            pos,
            facing: Facing::Left,
            cat_type: CatType::Fat,
            radius: DETECTION_RADIUS,
            speed: FAT_CAT_SPEED,
            size: Vec2 { x: CAT_SIZE, y: CAT_SIZE },
            annoyance_total: 0,
            annoyance_rate: FAT_CAT_ANNOYANCE_RATE,
            calming_rate: FAT_CAT_CALMING_RATE,
            state: CatState::Idle,
            velocity: vel,
            rw_radius: FAT_CAT_RW_RADIUS,
            rw_theta: 0,
            jitter_origin: pos,
            targeting_time: 0,
            dog_target: Vec2 { x: 0, y: 0 },
            cannonballing_time: 0,
            flee_scalar: FAT_CAT_FLEE_SCALAR,
            color: color as usize,
            meow_interval: MEOW_INTERVAL,
            meow_time,
        }
    }

    /// Whether this agent's dash connects with the pursuer right now.
    pub fn collides_with(&self, dog: &Dog) -> (r: bool)
        requires
            self.wf(),
            dog.wf(),
        ensures
            r == spec_collides(*self, *dog),
    {
        if !(matches!(dog.dog_state, DogState::Chasing)) {
            return false;
        }
        let is_right = self.pos.x > dog.pos.x + dog.size.x;
        let is_left = self.pos.x + self.size.x < dog.pos.x;
        let is_top = self.pos.y + self.size.y < dog.pos.y;
        let is_bottom = self.pos.y > dog.pos.y + dog.size.y;
        !(is_right || is_left || is_top || is_bottom)
    }

    /// Locks the dash onto the pursuer's current position and starts the
    /// dash timer.
    fn start_targeting(&mut self, dog_pos: Vec2)
        requires
            old(self).wf(),
            -POS_LIMIT <= dog_pos.x <= POS_LIMIT,
            -POS_LIMIT <= dog_pos.y <= POS_LIMIT,
        ensures
            final(self).wf(),
            final(self).dog_target == spec_norm_to(
                (Vec2 { x: (dog_pos.x - old(self).pos.x) as i64, y: (dog_pos.y - old(self).pos.y) as i64 }),
                UNIT as int,
            ),
            *final(self) == (Cat {
                dog_target: final(self).dog_target,
                cannonballing_time: CANNONBALL_TIME,
                ..*old(self)
            }),
    {
        let d = Vec2 { x: dog_pos.x - self.pos.x, y: dog_pos.y - self.pos.y };
        self.dog_target = norm_to(d, UNIT);
        self.cannonballing_time = CANNONBALL_TIME;
    }

    /// Anchors the stationary shake at the current position and starts the
    /// jitter countdown.
    fn start_jitter(&mut self)
        requires
            old(self).wf(),
            -ARENA_LIMIT <= old(self).pos.x <= ARENA_LIMIT,
            -ARENA_LIMIT <= old(self).pos.y <= ARENA_LIMIT,
        ensures
            final(self).wf(),
            *final(self) == (Cat {
                jitter_origin: old(self).pos,
                targeting_time: CANNONBALL_COUNTDOWN,
                ..*old(self)
            }),
    {
        self.jitter_origin = self.pos;
        self.targeting_time = CANNONBALL_COUNTDOWN;
    }

    /// The annoyance level relative to the escalation threshold, in
    /// thousandths; drives the presentation layer's shake tint.
    pub fn normalized_jitter(&self) -> (r: i64)
        requires
            self.wf(),
        ensures
            r == self.annoyance_total * 1000 / (ANNOYANCE_THRESHOLD as int),
    {
        self.annoyance_total * 1000 / ANNOYANCE_THRESHOLD
    }

    /// One tick of the stationary shake: the position is overwritten with
    /// the anchor plus the sampled offsets (not accumulated), and the
    /// jitter countdown burns down; when it runs out the dash is aimed at
    /// the pursuer from the shake-end position.
    pub fn jitter(&mut self, dt: i64, jx: i64, jy: i64, dog: &Dog)
        requires
            old(self).wf(),
            dog.wf(),
            0 <= dt <= DT_LIMIT,
            -JITTER_AMOUNT <= jx <= JITTER_AMOUNT,
            -JITTER_AMOUNT <= jy <= JITTER_AMOUNT,
            old(self).targeting_time - dt >= -TIME_LIMIT,
        ensures
            final(self).wf(),
            final(self).pos == (Vec2 {
                x: (old(self).jitter_origin.x + jx) as i64,
                y: (old(self).jitter_origin.y + jy) as i64,
            }),
            final(self).targeting_time == old(self).targeting_time - dt,
            old(self).targeting_time - dt <= 0 ==> {
                &&& final(self).dog_target == spec_norm_to(
                    (Vec2 {
                        x: (dog.pos.x - final(self).pos.x) as i64,
                        y: (dog.pos.y - final(self).pos.y) as i64,
                    }),
                    UNIT as int,
                )
                &&& final(self).cannonballing_time == CANNONBALL_TIME
            },
            old(self).targeting_time - dt > 0 ==> {
                &&& final(self).dog_target == old(self).dog_target
                &&& final(self).cannonballing_time == old(self).cannonballing_time
            },
            *final(self) == (Cat {
                pos: final(self).pos,
                targeting_time: final(self).targeting_time,
                dog_target: final(self).dog_target,
                cannonballing_time: final(self).cannonballing_time,
                ..*old(self)
            }),
    {
        self.pos = Vec2 { x: self.jitter_origin.x + jx, y: self.jitter_origin.y + jy };
        self.cannonball_countdown(dt, dog);
    }

    /// Burns down the jitter countdown; on expiry, aims the dash.
    fn cannonball_countdown(&mut self, dt: i64, dog: &Dog)
        requires
            old(self).wf(),
            dog.wf(),
            0 <= dt <= DT_LIMIT,
            old(self).targeting_time - dt >= -TIME_LIMIT,
        ensures
            final(self).wf(),
            final(self).targeting_time == old(self).targeting_time - dt,
            old(self).targeting_time - dt <= 0 ==> {
                &&& final(self).dog_target == spec_norm_to(
                    (Vec2 {
                        x: (dog.pos.x - old(self).pos.x) as i64,
                        y: (dog.pos.y - old(self).pos.y) as i64,
                    }),
                    UNIT as int,
                )
                &&& final(self).cannonballing_time == CANNONBALL_TIME
            },
            old(self).targeting_time - dt > 0 ==> {
                &&& final(self).dog_target == old(self).dog_target
                &&& final(self).cannonballing_time == old(self).cannonballing_time
            },
            *final(self) == (Cat {
                targeting_time: final(self).targeting_time,
                dog_target: final(self).dog_target,
                cannonballing_time: final(self).cannonballing_time,
                ..*old(self)
            }),
    {
        self.targeting_time = self.targeting_time - dt;
        if self.targeting_time <= 0 {
            self.start_targeting(dog.pos);
        }
    }

    /// Evaluates the transition rules and installs the next state; leaving
    /// a finished dash also resets the annoyance accumulator.
    pub fn update_state(&mut self, dog: &Dog, cat_box: &CatBox) -> (s: CatState)
        requires
            old(self).wf(),
            dog.wf(),
            cat_box.wf(),
        ensures
            final(self).wf(),
            s == next_state(*old(self), *dog, *cat_box),
            final(self).annoyance_total == if old(self).state is Cannonballing && old(
                self,
            ).cannonballing_time <= 0 {
                0
            } else {
                old(self).annoyance_total
            },
            *final(self) == (Cat {
                state: s,
                annoyance_total: final(self).annoyance_total,
                ..*old(self)
            }),
    {
        let d2 = dist2_i64(self.pos, dog.pos);
        let rad = self.radius;
        assert(0 <= rad * rad <= 1_000_000_000_000) by (nonlinear_arith)
            requires
                0 < rad <= 1_000_000,
        ;
        let radius_sq_ok = d2 < rad * rad;
        let in_box = cat_box.in_bounds(&self.pos);

        let s: CatState;
        if matches!(self.state, CatState::Cannonballing) && self.cannonballing_time > 0 {
            s = CatState::Cannonballing;
        } else if matches!(self.state, CatState::Cannonballing) {
            self.stop_cannonballing();
            s = CatState::Idle;
        } else if matches!(self.state, CatState::Jittering) && self.targeting_time <= 0 {
            s = CatState::Cannonballing;
        } else if self.annoyance_total >= ANNOYANCE_THRESHOLD {
            s = CatState::Jittering;
        } else if in_box {
            s = CatState::InPen;
        } else if matches!(dog.dog_state, DogState::Chasing) && radius_sq_ok {
            s = CatState::Flee;
        } else {
            s = CatState::Idle;
        }
        self.state = s;
        s
    }

    /// One tick of fleeing: run straight away from the pursuer at
    /// `speed * flee_scalar`, clamped to the arena, while annoyance
    /// accumulates; crossing the threshold anchors the coming jitter here.
    pub fn flee(&mut self, bounds: &Vec2, dir: &Vec2, dt: i64)
        requires
            old(self).wf(),
            CAT_SIZE <= bounds.x <= ARENA_LIMIT,
            CAT_SIZE <= bounds.y <= ARENA_LIMIT,
            -100_000_000 <= dir.x <= 100_000_000,
            -100_000_000 <= dir.y <= 100_000_000,
            0 <= dt <= DT_LIMIT,
            old(self).annoyance_total + old(self).annoyance_rate * dt / 1000 <= ANNOYANCE_CAP,
        ensures
            final(self).wf(),
            final(self).velocity == spec_norm_to(
                *dir,
                old(self).speed * old(self).flee_scalar / 1000,
            ),
            final(self).pos == spec_strict_move(
                old(self).pos,
                (Vec2 {
                    x: div_trunc(final(self).velocity.x * dt, 1000) as i64,
                    y: div_trunc(final(self).velocity.y * dt, 1000) as i64,
                }),
                *bounds,
            ),
            final(self).annoyance_total == old(self).annoyance_total + old(self).annoyance_rate
                * dt / 1000,
            final(self).annoyance_total >= ANNOYANCE_THRESHOLD ==> {
                &&& final(self).jitter_origin == final(self).pos
                &&& final(self).targeting_time == CANNONBALL_COUNTDOWN
            },
            final(self).annoyance_total < ANNOYANCE_THRESHOLD ==> {
                &&& final(self).jitter_origin == old(self).jitter_origin
                &&& final(self).targeting_time == old(self).targeting_time
            },
            *final(self) == (Cat {
                velocity: final(self).velocity,
                pos: final(self).pos,
                annoyance_total: final(self).annoyance_total,
                jitter_origin: final(self).jitter_origin,
                targeting_time: final(self).targeting_time,
                ..*old(self)
            }),
    {
        let sp = self.speed;
        let fs = self.flee_scalar;
        assert(0 <= sp * fs <= 10_000_000_000) by (nonlinear_arith)
            requires
                0 < sp <= 1_000_000,
                0 <= fs <= 10_000,
        ;
        let speed = sp * fs / 1000;
        let v = norm_to(*dir, speed);
        self.velocity = v;
        let change = vel_step(v, dt);
        self.try_move(bounds, change);
        self.increase_annoyance(dt);
    }

    /// One tick of the biased random walk, with decay of the annoyance
    /// accumulator; `theta_delta` is the sampled heading nudge in
    /// milliradians.
    pub fn idle(&mut self, bounds: &Vec2, cat_box: &CatBox, dt: i64, theta_delta: i64)
        requires
            old(self).wf(),
            cat_box.wf(),
            CAT_SIZE <= bounds.x <= ARENA_LIMIT,
            CAT_SIZE <= bounds.y <= ARENA_LIMIT,
            0 <= dt <= DT_LIMIT,
            -300 <= theta_delta <= 300,
        ensures
            final(self).wf(),
            final(self).rw_theta == spec_wrap_angle(old(self).rw_theta as int, theta_delta as int),
            final(self).velocity == spec_idle_velocity(
                *old(self),
                *cat_box,
                final(self).rw_theta as int,
            ),
            final(self).pos == spec_strict_move(
                old(self).pos,
                (Vec2 {
                    x: div_trunc(final(self).velocity.x * dt, 1000) as i64,
                    y: div_trunc(final(self).velocity.y * dt, 1000) as i64,
                }),
                *bounds,
            ),
            final(self).annoyance_total == decayed(
                old(self).annoyance_total as int,
                old(self).calming_rate as int,
                dt as int,
            ),
            final(self).annoyance_total >= 0,
            *final(self) == (Cat {
                rw_theta: final(self).rw_theta,
                velocity: final(self).velocity,
                pos: final(self).pos,
                annoyance_total: final(self).annoyance_total,
                ..*old(self)
            }),
    {
        self.rw_theta = wrap_angle(self.rw_theta, theta_delta);
        let t = self.rw_theta;
        let circle0 = Vec2 { x: cos_mrad(t), y: sin_mrad(t) };
        let circle = norm_to(circle0, self.rw_radius);
        let sum = Vec2 { x: self.velocity.x + circle.x, y: self.velocity.y + circle.y };
        if !(sum.x == 0 && sum.y == 0) {
            self.velocity = norm_to(sum, self.speed / 3);
        }
        let d2 = dist2_i64(self.pos, cat_box.pos);
        let reach = cat_box.size.x / 2 + self.radius;
        assert(0 <= reach * reach <= 2_250_000_000_000) by (nonlinear_arith)
            requires
                0 < reach <= 1_500_000,
        ;
        if 0 < d2 && d2 < reach * reach {
            let away = Vec2 { x: self.pos.x - cat_box.pos.x, y: self.pos.y - cat_box.pos.y };
            let l = ceil_sqrt_i64(d2);
            let rep = norm_to(away, 150_000_000 / l);
            let sum2 = Vec2 { x: self.velocity.x + rep.x, y: self.velocity.y + rep.y };
            self.velocity = norm_to(sum2, self.speed / 3);
        }
        let change = vel_step(self.velocity, dt);
        self.try_move(bounds, change);
        self.decrease_annoyance(dt);
    }

    /// One tick penned: the agent stays put with zero velocity while its
    /// annoyance decays.
    pub fn in_pen(&mut self, _bounds: &Vec2, dt: i64)
        requires
            old(self).wf(),
            0 <= dt <= DT_LIMIT,
        ensures
            final(self).wf(),
            final(self).velocity == (Vec2 { x: 0, y: 0 }),
            final(self).annoyance_total == decayed(
                old(self).annoyance_total as int,
                old(self).calming_rate as int,
                dt as int,
            ),
            final(self).annoyance_total >= 0,
            *final(self) == (Cat {
                velocity: (Vec2 { x: 0, y: 0 }),
                annoyance_total: final(self).annoyance_total,
                ..*old(self)
            }),
    {
        self.velocity = Vec2 { x: 0, y: 0 };
        self.decrease_annoyance(dt);
    }

    /// One tick of dashing. The velocity already carries the `dt` factor
    /// and the move step adds it to the position directly — a deliberate
    /// one-step-ahead integration, not a double application of `dt`.
    /// Returns whether the dash connected: true exactly when the
    /// footprints overlap and the pursuer is chasing. The orchestrator
    /// consumes the event.
    pub fn cannonball(&mut self, bounds: &Vec2, dt: i64, dog: &Dog) -> (hit: bool)
        requires
            old(self).wf(),
            dog.wf(),
            CAT_SIZE <= bounds.x <= ARENA_LIMIT,
            CAT_SIZE <= bounds.y <= ARENA_LIMIT,
            0 <= dt <= DT_LIMIT,
            old(self).cannonballing_time - dt >= -TIME_LIMIT,
        ensures
            final(self).wf(),
            final(self).velocity == (Vec2 {
                x: div_trunc(old(self).dog_target.x * CANNONBALL_SPEED * dt, 1_000_000) as i64,
                y: div_trunc(old(self).dog_target.y * CANNONBALL_SPEED * dt, 1_000_000) as i64,
            }),
            final(self).pos == spec_strict_move(old(self).pos, final(self).velocity, *bounds),
            final(self).cannonballing_time == old(self).cannonballing_time - dt,
            hit == spec_collides(*final(self), *dog),
            *final(self) == (Cat {
                velocity: final(self).velocity,
                pos: final(self).pos,
                cannonballing_time: final(self).cannonballing_time,
                ..*old(self)
            }),
    {
        let v = dash_velocity(self.dog_target, dt);
        self.velocity = v;
        self.try_move(bounds, v);
        self.cannonballing_time = self.cannonballing_time - dt;
        self.collides_with(dog)
    }

    /// Reports a meow: resets the meow timer and says whether the angry
    /// recording should play (it should while the agent is jittering).
    pub fn meow(&mut self) -> (angry: bool)
        requires
            old(self).wf(),
        ensures
            final(self).wf(),
            angry == (old(self).state is Jittering),
            *final(self) == (Cat { meow_time: 0, ..*old(self) }),
    {
        self.meow_time = 0;
        matches!(self.state, CatState::Jittering)
    }

    /// Leaving a finished dash: calm down completely and go idle.
    fn stop_cannonballing(&mut self)
        requires
            old(self).wf(),
        ensures
            final(self).wf(),
            *final(self) == (Cat { annoyance_total: 0, state: CatState::Idle, ..*old(self) }),
    {
        self.annoyance_total = 0;
        self.state = CatState::Idle;
    }

    /// Moves by `change`, then clamps the center so the full footprint
    /// stays inside the arena: the strict clamp, `[half, bounds - half]`
    /// per axis.
    pub fn try_move(&mut self, bounds: &Vec2, change: Vec2)
        requires
            old(self).wf(),
            CAT_SIZE <= bounds.x <= ARENA_LIMIT,
            CAT_SIZE <= bounds.y <= ARENA_LIMIT,
            -1_000_000_000 <= change.x <= 1_000_000_000,
            -1_000_000_000 <= change.y <= 1_000_000_000,
        ensures
            final(self).wf(),
            final(self).pos == spec_strict_move(old(self).pos, change, *bounds),
            CAT_SIZE / 2 <= final(self).pos.x <= bounds.x - CAT_SIZE / 2,
            CAT_SIZE / 2 <= final(self).pos.y <= bounds.y - CAT_SIZE / 2,
            *final(self) == (Cat { pos: final(self).pos, ..*old(self) }),
    {
        let half_x = self.size.x / 2;
        let half_y = self.size.y / 2;
        let min_x = half_x;
        let max_x = bounds.x - half_x;
        let min_y = half_y;
        let max_y = bounds.y - half_y;

        let mut new_x = self.pos.x + change.x;
        let mut new_y = self.pos.y + change.y;
        new_x = if new_x < min_x {
            min_x
        } else if new_x > max_x {
            max_x
        } else {
            new_x
        };
        new_y = if new_y < min_y {
            min_y
        } else if new_y > max_y {
            max_y
        } else {
            new_y
        };

        self.pos = Vec2 { x: new_x, y: new_y };
    }

    /// Decays the annoyance accumulator, floored at zero: it never goes
    /// negative.
    pub fn decrease_annoyance(&mut self, dt: i64)
        requires
            old(self).wf(),
            0 <= dt <= DT_LIMIT,
        ensures
            final(self).wf(),
            final(self).annoyance_total == decayed(
                old(self).annoyance_total as int,
                old(self).calming_rate as int,
                dt as int,
            ),
            final(self).annoyance_total >= 0,
            *final(self) == (Cat {
                annoyance_total: final(self).annoyance_total,
                ..*old(self)
            }),
    {
        let cr = self.calming_rate;
        assert(0 <= cr * dt <= 1_000_000_000) by (nonlinear_arith)
            requires
                0 <= cr <= 100_000,
                0 <= dt <= DT_LIMIT,
        ;
        let dec = self.calming_rate * dt / 1000;
        if self.annoyance_total - dec < 0 {
            self.annoyance_total = 0;
        } else {
            self.annoyance_total = self.annoyance_total - dec;
        }
    }

    /// Accumulates annoyance; on crossing the threshold, anchors the
    /// coming jitter at the current position.
    pub fn increase_annoyance(&mut self, dt: i64)
        requires
            old(self).wf(),
            0 <= dt <= DT_LIMIT,
            old(self).annoyance_total + old(self).annoyance_rate * dt / 1000 <= ANNOYANCE_CAP,
            -ARENA_LIMIT <= old(self).pos.x <= ARENA_LIMIT,
            -ARENA_LIMIT <= old(self).pos.y <= ARENA_LIMIT,
        ensures
            final(self).wf(),
            final(self).annoyance_total == old(self).annoyance_total + old(self).annoyance_rate
                * dt / 1000,
            final(self).annoyance_total >= ANNOYANCE_THRESHOLD ==> {
                &&& final(self).jitter_origin == old(self).pos
                &&& final(self).targeting_time == CANNONBALL_COUNTDOWN
            },
            final(self).annoyance_total < ANNOYANCE_THRESHOLD ==> {
                &&& final(self).jitter_origin == old(self).jitter_origin
                &&& final(self).targeting_time == old(self).targeting_time
            },
            *final(self) == (Cat {
                annoyance_total: final(self).annoyance_total,
                jitter_origin: final(self).jitter_origin,
                targeting_time: final(self).targeting_time,
                ..*old(self)
            }),
    {
        let ar = self.annoyance_rate;
        assert(0 <= ar * dt <= 1_000_000_000) by (nonlinear_arith)
            requires
                0 <= ar <= 100_000,
                0 <= dt <= DT_LIMIT,
        ;
        let inc = self.annoyance_rate * dt / 1000;
        self.annoyance_total = self.annoyance_total + inc;
        if self.annoyance_total >= ANNOYANCE_THRESHOLD {
            self.start_jitter();
        }
    }
}

/// The dash displacement for one tick: the unit direction (scaled by
/// `UNIT`) times `CANNONBALL_SPEED` times `dt`, rescaled into
/// milli-pixels.
fn dash_velocity(target: Vec2, dt: i64) -> (v: Vec2)
    requires
        -UNIT <= target.x <= UNIT,
        -UNIT <= target.y <= UNIT,
        0 <= dt <= DT_LIMIT,
    ensures
        v.x == div_trunc(target.x * CANNONBALL_SPEED * dt, 1_000_000),
        v.y == div_trunc(target.y * CANNONBALL_SPEED * dt, 1_000_000),
        -2_400_000 <= v.x <= 2_400_000,
        -2_400_000 <= v.y <= 2_400_000,
{
    let ax = if target.x >= 0 {
        target.x
    } else {
        -target.x
    };
    let ay = if target.y >= 0 {
        target.y
    } else {
        -target.y
    };
    assert(0 <= ax * CANNONBALL_SPEED * dt <= 2_400_000_000_000 && 0 <= ay * CANNONBALL_SPEED * dt
        <= 2_400_000_000_000) by (nonlinear_arith)
        requires
            0 <= ax <= UNIT,
            0 <= ay <= UNIT,
            0 <= dt <= DT_LIMIT,
    ;
    let qx = (ax * CANNONBALL_SPEED) * dt / 1_000_000;
    let qy = (ay * CANNONBALL_SPEED) * dt / 1_000_000;
    assert((-(target.x as int)) * CANNONBALL_SPEED * dt == -(target.x * CANNONBALL_SPEED * dt))
        by (nonlinear_arith);
    assert((-(target.y as int)) * CANNONBALL_SPEED * dt == -(target.y * CANNONBALL_SPEED * dt))
        by (nonlinear_arith);
    let vx = if target.x >= 0 {
        qx
    } else {
        -qx
    };
    let vy = if target.y >= 0 {
        qy
    } else {
        -qy
    };
    Vec2 { x: vx, y: vy }
}

} // verus!
