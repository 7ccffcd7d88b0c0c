//! The pursuer ("dog"): a two-state machine — chasing, or blinking through
//! a short invulnerability flash after being hit — plus its movement clamp.

use vstd::prelude::*;

verus! {

use crate::geom::{
    Vec2, Facing, clamp1, spec_norm_to, norm_to, ARENA_LIMIT, POS_LIMIT, VEL_LIMIT, DT_LIMIT,
    TIME_LIMIT,
};

/// How long a hit keeps the pursuer blinking, in milliseconds.
pub const HIT_TIME: i64 = 500;

/// The flash toggles once every this many ticks (frame-rate coupled by
/// design).
pub const BLINK_FRAMES: u32 = 2;

/// The pursuer's movement speed, in milli-pixels per second.
pub const MOVE_SPEED: i64 = 150_000;

/// The pursuer is either chasing, or blinking with the flash currently on
/// or off.
#[derive(Clone, Copy, PartialEq, Eq, Structural, Debug)]
pub enum DogState {
    Chasing,
    Blinking(bool),
}

/// The pursuing entity.
#[derive(Clone, Copy, PartialEq, Eq, Structural, Debug)]
pub struct Dog {
    pub pos: Vec2,
    pub vel: Vec2,
    pub size: Vec2,
    pub facing: Facing,
    pub dog_state: DogState,
    /// Remaining blink time, in milliseconds.
    pub hit_time: i64,
    /// Ticks since the flash last toggled.
    pub hit_frame: u32,
}

impl Dog {
    /// Bounds that every reachable pursuer value satisfies.
    pub open spec fn wf(self) -> bool {
        &&& -POS_LIMIT <= self.pos.x <= POS_LIMIT
        &&& -POS_LIMIT <= self.pos.y <= POS_LIMIT
        &&& -VEL_LIMIT <= self.vel.x <= VEL_LIMIT
        &&& -VEL_LIMIT <= self.vel.y <= VEL_LIMIT
        &&& 0 < self.size.x <= 1_000_000
        &&& 0 < self.size.y <= 1_000_000
        &&& -3 * DT_LIMIT <= self.hit_time <= TIME_LIMIT
        &&& self.dog_state is Blinking ==> self.hit_time >= -DT_LIMIT
        &&& self.hit_frame < BLINK_FRAMES
    }

    /// A chasing pursuer at `pos`, of the standard 30x30 pixel footprint.
    pub fn new(pos: Vec2) -> (d: Dog)
        requires
            -ARENA_LIMIT <= pos.x <= ARENA_LIMIT,
            -ARENA_LIMIT <= pos.y <= ARENA_LIMIT,
        ensures
            d.wf(),
            d.pos == pos,
            d.vel == (Vec2 { x: 0, y: 0 }),
            d.size == (Vec2 { x: 30_000, y: 30_000 }),
            d.facing is Left,
            d.dog_state is Chasing,
            d.hit_time == 0,
            d.hit_frame == 0,
    {
        Dog {
            pos,
            vel: Vec2 { x: 0, y: 0 },
            size: Vec2 { x: 30_000, y: 30_000 },
            facing: Facing::Left,
            dog_state: DogState::Chasing,
            hit_time: 0,
            hit_frame: 0,
        }
    }

    /// A successful dash collision: start the invulnerability flash. The
    /// orchestrator reports the accompanying yip to the audio collaborator.
    pub fn hit(&mut self)
        requires
            old(self).wf(),
        ensures
            final(self).wf(),
            *final(self) == (Dog {
                dog_state: DogState::Blinking(true),
                hit_time: HIT_TIME,
                hit_frame: 0,
                ..*old(self)
            }),
    {
        self.dog_state = DogState::Blinking(true);
        self.hit_time = HIT_TIME;
        self.hit_frame = 0;
    }

    /// The blink bookkeeping one tick of `dt` milliseconds performs.
    pub open spec fn spec_tick(self, dt: int) -> Dog {
        match self.dog_state {
            DogState::Chasing => self,
            DogState::Blinking(flash) => {
                if self.hit_frame + 1 >= BLINK_FRAMES {
                    let time = self.hit_time - dt;
                    if time > 0 {
                        Dog {
                            dog_state: DogState::Blinking(!flash),
                            hit_time: time as i64,
                            hit_frame: 0,
                            ..self
                        }
                    } else {
                        Dog {
                            dog_state: DogState::Chasing,
                            hit_time: time as i64,
                            hit_frame: 0,
                            ..self
                        }
                    }
                } else {
                    Dog { hit_frame: (self.hit_frame + 1) as u32, ..self }
                }
            },
        }
    }

    /// Advances the blink state by one tick: while chasing this is a no-op;
    /// while blinking, every `BLINK_FRAMES`-th tick spends `dt` of the hit
    /// timer and either toggles the flash or returns to chasing.
    pub fn update(&mut self, dt: i64)
        requires
            old(self).wf(),
            0 <= dt <= DT_LIMIT,
        ensures
            final(self).wf(),
            *final(self) == old(self).spec_tick(dt as int),
    {
        match self.dog_state {
            DogState::Chasing => {},
            DogState::Blinking(flash) => {
                if self.hit_frame + 1 >= BLINK_FRAMES {
                    self.update_blink(flash, dt);
                    self.hit_frame = 0;
                } else {
                    self.hit_frame = self.hit_frame + 1;
                }
            },
        }
    }

    fn update_blink(&mut self, flash: bool, dt: i64)
        requires
            old(self).wf(),
            old(self).dog_state == DogState::Blinking(flash),
            0 <= dt <= DT_LIMIT,
        ensures
            final(self).hit_time == old(self).hit_time - dt,
            old(self).hit_time - dt > 0 ==> final(self).dog_state == DogState::Blinking(!flash),
            old(self).hit_time - dt <= 0 ==> final(self).dog_state is Chasing,
            final(self).pos == old(self).pos,
            final(self).vel == old(self).vel,
            final(self).size == old(self).size,
            final(self).facing == old(self).facing,
            final(self).hit_frame == old(self).hit_frame,
    {
        self.hit_time = self.hit_time - dt;
        if self.hit_time > 0 {
            self.dog_state = DogState::Blinking(!flash);
        } else {
            self.dog_state = DogState::Chasing;
        }
    }

    /// Takes the input collaborator's raw intent vector and points the
    /// velocity that way at `MOVE_SPEED`, turning to face a nonzero
    /// horizontal component.
    pub fn set_velocity_from_intent(&mut self, intent: Vec2)
        requires
            old(self).wf(),
            -1_000_000 <= intent.x <= 1_000_000,
            -1_000_000 <= intent.y <= 1_000_000,
        ensures
            final(self).wf(),
            final(self).vel == spec_norm_to(intent, MOVE_SPEED as int),
            intent.x > 0 ==> final(self).facing is Right,
            intent.x < 0 ==> final(self).facing is Left,
            intent.x == 0 ==> final(self).facing == old(self).facing,
            *final(self) == (Dog { vel: final(self).vel, facing: final(self).facing, ..*old(self) }),
    {
        let v = norm_to(intent, MOVE_SPEED);
        self.vel = v;
        if intent.x > 0 {
            self.facing = Facing::Right;
        } else if intent.x < 0 {
            self.facing = Facing::Left;
        }
    }

    /// Moves by `change`, then clamps the *center* into `[0, bounds]` on
    /// each axis: the loose clamp, which lets the sprite overhang the arena
    /// edge by its own half-size. Intentionally laxer than the agents'
    /// strict clamp.
    pub fn try_move(&mut self, bounds: &Vec2, change: Vec2)
        requires
            old(self).wf(),
            0 < bounds.x <= ARENA_LIMIT,
            0 < bounds.y <= ARENA_LIMIT,
            -1_000_000_000 <= change.x <= 1_000_000_000,
            -1_000_000_000 <= change.y <= 1_000_000_000,
        ensures
            final(self).wf(),
            final(self).pos.x == clamp1(old(self).pos.x + change.x, 0, bounds.x as int),
            final(self).pos.y == clamp1(old(self).pos.y + change.y, 0, bounds.y as int),
            0 <= final(self).pos.x <= bounds.x,
            0 <= final(self).pos.y <= bounds.y,
            *final(self) == (Dog { pos: final(self).pos, ..*old(self) }),
    {
        let min_x: i64 = 0;
        let max_x: i64 = bounds.x;
        let min_y: i64 = 0;
        let max_y: i64 = bounds.y;

        let mut new_x = self.pos.x + change.x;
        let mut new_y = self.pos.y + change.y;
        new_x = if new_x < min_x {
            min_x
        } else if new_x > max_x {
            max_x
        } else {
            new_x
        };
        new_y = if new_y < min_y {
            min_y
        } else if new_y > max_y {
            max_y
        } else {
            new_y
        };

        self.pos = Vec2 { x: new_x, y: new_y };
    }
}

} // verus!
