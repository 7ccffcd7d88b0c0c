//! The session orchestrator: level validation and construction, the
//! per-tick simulation step (pursuer first, then every agent, then the win
//! condition), and the agent statistics.

use vstd::prelude::*;

verus! {

use crate::geom::{Vec2, Facing, clamp1, div_trunc, spec_in_rect, spec_norm_to, vel_step,
    ARENA_LIMIT, DT_LIMIT};
use crate::dog::{Dog, DogState, MOVE_SPEED, HIT_TIME};
use crate::cat::{Cat, CatBox, CatType, CatState, next_state, spec_idle_step, spec_in_pen_step,
    spec_flee_step, spec_jitter_step, spec_dash_step, CAT_SIZE, ANNOYANCE_THRESHOLD,
    CANNONBALL_TIME};
use crate::rng::sample_range;

/// Which kind of agent to spawn, and where.
#[derive(Clone, Copy, PartialEq, Eq, Structural, Debug)]
pub struct CatSpawn {
    pub kind: CatType,
    pub pos: Vec2,
}

/// The spawn layout a session starts from, supplied by the level-definition
/// collaborator and treated as opaque input data.
#[derive(Clone)]
pub struct Level {
    pub cat_box: CatBox,
    pub bounds: Vec2,
    pub dog_start: Vec2,
    pub spawns: Vec<CatSpawn>,
}

/// Why a session could not be constructed.
#[derive(Clone, Copy, PartialEq, Eq, Structural, Debug)]
pub enum ConfigError {
    /// An arena extent is too small to hold an agent, or beyond the model's
    /// limit.
    BadArena,
    /// The pen is degenerate or does not fit inside the arena.
    BadPen,
    /// The pursuer or an agent would spawn outside the arena.
    BadSpawn,
}

impl Level {
    /// The arena holds at least one agent footprint and stays within the
    /// fixed-point model's range.
    pub open spec fn arena_ok(self) -> bool {
        &&& CAT_SIZE <= self.bounds.x <= ARENA_LIMIT
        &&& CAT_SIZE <= self.bounds.y <= ARENA_LIMIT
    }

    /// The pen is a nondegenerate rectangle lying fully inside the arena.
    pub open spec fn pen_ok(self) -> bool {
        &&& 0 < self.cat_box.size.x <= 1_000_000
        &&& 0 < self.cat_box.size.y <= 1_000_000
        &&& self.cat_box.pos.x - self.cat_box.size.x / 2 >= 0
        &&& self.cat_box.pos.x + self.cat_box.size.x / 2 <= self.bounds.x
        &&& self.cat_box.pos.y - self.cat_box.size.y / 2 >= 0
        &&& self.cat_box.pos.y + self.cat_box.size.y / 2 <= self.bounds.y
    }

    /// The pursuer and every agent start inside the arena.
    pub open spec fn spawns_ok(self) -> bool {
        &&& 0 <= self.dog_start.x <= self.bounds.x
        &&& 0 <= self.dog_start.y <= self.bounds.y
        &&& forall|i: int|
            0 <= i < self.spawns.len() ==> {
                &&& 0 <= #[trigger] self.spawns[i].pos.x <= self.bounds.x
                &&& 0 <= self.spawns[i].pos.y <= self.bounds.y
            }
    }

    /// A level a session may be built from.
    pub open spec fn valid(self) -> bool {
        self.arena_ok() && self.pen_ok() && self.spawns_ok()
    }
}

/// Every agent of the sequence is inside the pen.
pub open spec fn all_in_pen(cats: Seq<Cat>, b: CatBox) -> bool {
    forall|i: int| 0 <= i < cats.len() ==> spec_in_rect(#[trigger] cats[i].pos, b.pos, b.size)
}

/// The escalation bookkeeping the simulation maintains beyond each agent's
/// own bounds: a jitter whose countdown has run out has its dash timer
/// armed, and an agent over the annoyance threshold that has not yet begun
/// jittering still has its jitter countdown ahead of it.
pub open spec fn primed(c: Cat) -> bool {
    &&& (c.state is Jittering && c.targeting_time <= 0 ==> c.cannonballing_time
        == CANNONBALL_TIME)
    &&& (c.annoyance_total >= ANNOYANCE_THRESHOLD && !(c.state is Jittering) && !(
    c.state is Cannonballing) ==> c.targeting_time > 0)
}

/// An agent after the transition rules ran against the pursuer view `d`:
/// the next state is installed, and leaving a finished dash resets the
/// annoyance accumulator.
pub open spec fn spec_transitioned(c: Cat, d: Dog, b: CatBox) -> Cat {
    Cat {
        state: next_state(c, d, b),
        annoyance_total: if c.state is Cannonballing && c.cannonballing_time <= 0 {
            0
        } else {
            c.annoyance_total
        },
        ..c
    }
}

/// The pursuer after the intent is applied and the blink state ticked:
/// velocity from the intent, a turn toward a nonzero horizontal component,
/// the loosely clamped move, then the blink bookkeeping.
pub open spec fn spec_dog_drive(d: Dog, intent: Vec2, bounds: Vec2, dt: int) -> Dog {
    let v = spec_norm_to(intent, MOVE_SPEED as int);
    let facing = if intent.x > 0 {
        Facing::Right
    } else if intent.x < 0 {
        Facing::Left
    } else {
        d.facing
    };
    let pos = Vec2 {
        x: clamp1(d.pos.x + div_trunc(v.x * dt, 1000), 0, bounds.x as int) as i64,
        y: clamp1(d.pos.y + div_trunc(v.y * dt, 1000), 0, bounds.y as int) as i64,
    };
    (Dog { vel: v, facing, pos, ..d }).spec_tick(dt)
}

/// The pursuer the instant a dash lands on it.
pub open spec fn spec_dog_hit(d: Dog) -> Dog {
    Dog { dog_state: DogState::Blinking(true), hit_time: HIT_TIME, hit_frame: 0, ..d }
}

/// `post` is a lawful outcome of one tick for the agent `pre` against the
/// pursuer view `d`: the transition rules pick the state, and the state's
/// behaviour runs with some admissible random draws.
pub open spec fn stepped(pre: Cat, post: Cat, d: Dog, b: CatBox, bounds: Vec2, dt: int) -> bool {
    let mid = spec_transitioned(pre, d, b);
    match mid.state {
        CatState::Idle => exists|delta: int|
            -300 <= delta <= 300 && post == spec_idle_step(mid, b, bounds, dt, delta),
        CatState::InPen => post == spec_in_pen_step(mid, dt),
        CatState::Flee => post == spec_flee_step(mid, d.pos, bounds, dt),
        CatState::Jittering => exists|jx: int, jy: int|
            -2000 <= jx <= 2000 && -2000 <= jy <= 2000 && post == spec_jitter_step(
                mid,
                d.pos,
                dt,
                jx,
                jy,
            ),
        CatState::Cannonballing => post == spec_dash_step(mid, bounds, dt),
    }
}

/// `post` is a lawful outcome of one tick for `pre` under the driven
/// pursuer `dmid`, which an earlier agent's dash may already have flipped
/// to blinking.
pub open spec fn stepped_from(
    pre: Cat,
    post: Cat,
    dmid: Dog,
    b: CatBox,
    bounds: Vec2,
    dt: int,
) -> bool {
    stepped(pre, post, dmid, b, bounds, dt) || stepped(
        pre,
        post,
        spec_dog_hit(dmid),
        b,
        bounds,
        dt,
    )
}

/// How many of the agents are in the pen.
pub open spec fn count_in_pen(s: Seq<Cat>) -> nat
    decreases s.len(),
{
    if s.len() == 0 {
        0
    } else {
        count_in_pen(s.drop_last()) + (if s.last().state is InPen {
            1nat
        } else {
            0nat
        })
    }
}

/// At most every agent is in the pen.
pub proof fn lemma_count_in_pen_le_len(s: Seq<Cat>)
    ensures
        count_in_pen(s) <= s.len(),
    decreases s.len(),
{
    if s.len() > 0 {
        lemma_count_in_pen_le_len(s.drop_last());
    }
}

/// Counts of agents, total and penned, for the session UI.
#[derive(Clone, Copy, PartialEq, Eq, Structural, Debug, Default)]
pub struct CatStats {
    pub total: u32,
    pub in_pen: u32,
}

impl CatStats {
    pub fn total(&self) -> (r: u32)
        ensures
            r == self.total,
    {
        self.total
    }

    pub fn in_pen(&self) -> (r: u32)
        ensures
            r == self.in_pen,
    {
        self.in_pen
    }

    /// Whether every agent is penned; an empty session never counts as
    /// penned.
    pub fn all_penned(&self) -> (r: bool)
        ensures
            r == (self.total > 0 && self.in_pen == self.total),
    {
        self.total > 0 && self.in_pen == self.total
    }
}

/// Recounts the agents and how many of them are penned.
pub fn update_cat_stats(cats: &Vec<Cat>) -> (st: CatStats)
    requires
        cats@.len() <= u32::MAX,
    ensures
        st.total == cats@.len(),
        st.in_pen == count_in_pen(cats@),
{
    let mut in_pen: u32 = 0;
    let mut i: usize = 0;
    proof {
        assert(cats@.take(0) =~= Seq::<Cat>::empty());
    }
    while i < cats.len()
        invariant
            i <= cats@.len() <= u32::MAX,
            in_pen == count_in_pen(cats@.take(i as int)),
            in_pen <= i,
        decreases cats@.len() - i,
    {
        proof {
            assert(cats@.take(i + 1).drop_last() =~= cats@.take(i as int));
            assert(cats@.take(i + 1).last() == cats@[i as int]);
            lemma_count_in_pen_le_len(cats@.take(i as int));
        }
        if matches!(cats[i].state, CatState::InPen) {
            in_pen = in_pen + 1;
        }
        i = i + 1;
    }
    proof {
        assert(cats@.take(cats@.len() as int) =~= cats@);
    }
    CatStats { total: cats.len() as u32, in_pen }
}

/// One session: the level, the pursuer, the agents, and the latched win
/// flag.
pub struct GameWorld {
    pub level: Level,
    pub dog: Dog,
    pub cats: Vec<Cat>,
    pub we_win: bool,
}

impl GameWorld {
    /// What the per-tick step preserves.
    pub open spec fn wf(self) -> bool {
        &&& self.level.valid()
        &&& self.dog.wf()
        &&& forall|i: int|
            0 <= i < self.cats.len() ==> (#[trigger] self.cats[i]).wf() && primed(self.cats[i])
    }

    /// Builds a session from a level, failing fast on an invalid
    /// configuration: a bad arena, a pen that does not fit, or a spawn
    /// outside the arena. Nothing is silently clamped.
    pub fn new(level: Level) -> (r: Result<GameWorld, ConfigError>)
        ensures
            r is Ok <==> level.valid(),
            !level.arena_ok() ==> r == Result::<GameWorld, ConfigError>::Err(
                ConfigError::BadArena,
            ),
            level.arena_ok() && !level.pen_ok() ==> r == Result::<GameWorld, ConfigError>::Err(
                ConfigError::BadPen,
            ),
            level.arena_ok() && level.pen_ok() && !level.spawns_ok() ==> r == Result::<
                GameWorld,
                ConfigError,
            >::Err(ConfigError::BadSpawn),
            r matches Ok(w) ==> {
                &&& w.wf()
                &&& w.level == level
                &&& !w.we_win
                &&& w.dog.pos == level.dog_start
                &&& w.dog.vel == (Vec2 { x: 0, y: 0 })
                &&& w.dog.size == (Vec2 { x: 30_000, y: 30_000 })
                &&& w.dog.facing is Left
                &&& w.dog.dog_state is Chasing
                &&& w.dog.hit_time == 0
                &&& w.dog.hit_frame == 0
                &&& w.cats.len() == level.spawns.len()
                &&& forall|i: int|
                    0 <= i < w.cats.len() ==> {
                        &&& (#[trigger] w.cats[i]).cat_type == level.spawns[i].kind
                        &&& w.cats[i].spawned_at(level.spawns[i].pos, (Vec2 { x: 0, y: 0 }))
                        &&& w.cats[i].tuned_for_kind()
                    }
            },
    {
        if !(level.bounds.x >= CAT_SIZE && level.bounds.x <= ARENA_LIMIT && level.bounds.y
            >= CAT_SIZE && level.bounds.y <= ARENA_LIMIT) {
            return Err(ConfigError::BadArena);
        }
        let cb = level.cat_box;
        if !(cb.size.x > 0 && cb.size.x <= 1_000_000 && cb.size.y > 0 && cb.size.y <= 1_000_000
            && cb.pos.x >= 0 && cb.pos.x <= level.bounds.x && cb.pos.y >= 0 && cb.pos.y
            <= level.bounds.y) {
            return Err(ConfigError::BadPen);
        }
        let half_x = cb.size.x / 2;
        let half_y = cb.size.y / 2;
        if !(cb.pos.x - half_x >= 0 && cb.pos.x + half_x <= level.bounds.x && cb.pos.y - half_y
            >= 0 && cb.pos.y + half_y <= level.bounds.y) {
            return Err(ConfigError::BadPen);
        }
        if !(level.dog_start.x >= 0 && level.dog_start.x <= level.bounds.x && level.dog_start.y
            >= 0 && level.dog_start.y <= level.bounds.y) {
            return Err(ConfigError::BadSpawn);
        }
        let mut i: usize = 0;
        while i < level.spawns.len()
            invariant
                i <= level.spawns.len(),
                level.arena_ok(),
                level.pen_ok(),
                0 <= level.dog_start.x <= level.bounds.x,
                0 <= level.dog_start.y <= level.bounds.y,
                forall|j: int|
                    0 <= j < i ==> {
                        &&& 0 <= #[trigger] level.spawns[j].pos.x <= level.bounds.x
                        &&& 0 <= level.spawns[j].pos.y <= level.bounds.y
                    },
            decreases level.spawns.len() - i,
        {
            let p = level.spawns[i].pos;
            if !(p.x >= 0 && p.x <= level.bounds.x && p.y >= 0 && p.y <= level.bounds.y) {
                return Err(ConfigError::BadSpawn);
            }
            i = i + 1;
        }

        let dog = Dog::new(level.dog_start);
        let mut cats: Vec<Cat> = Vec::new();
        let mut k: usize = 0;
        while k < level.spawns.len()
            invariant
                level.valid(),
                k == cats.len() <= level.spawns.len(),
                forall|j: int|
                    0 <= j < k ==> {
                        &&& (#[trigger] cats[j]).wf()
                        &&& primed(cats[j])
                        &&& cats[j].cat_type == level.spawns[j].kind
                        &&& cats[j].spawned_at(level.spawns[j].pos, (Vec2 { x: 0, y: 0 }))
                        &&& cats[j].tuned_for_kind()
                    },
            decreases level.spawns.len() - k,
        {
            let sp = level.spawns[k];
            let c = match sp.kind {
                CatType::Basic => Cat::new_basic_cat(sp.pos, Vec2 { x: 0, y: 0 }),
                CatType::Kitten => Cat::new_kitten(sp.pos, Vec2 { x: 0, y: 0 }),
                CatType::Fat => Cat::new_fat_cat(sp.pos, Vec2 { x: 0, y: 0 }),
            };
            cats.push(c);
            k = k + 1;
        }

        Ok(GameWorld { level, dog, cats, we_win: false })
    }

    /// One simulation tick. `intent` is the input collaborator's raw
    /// movement vector for the pursuer; `dt` is the tick duration in
    /// milliseconds. Returns whether a dash connected this tick, so the
    /// caller can forward the yip to the audio collaborator.
    ///
    /// The pursuer moves and ticks its blink state first; then each agent
    /// evaluates its transition and runs its state behaviour (a landing
    /// dash flips the pursuer to blinking at once, shielding it from the
    /// remaining agents this very tick); finally, once every agent sits in
    /// the pen, the win flag latches — and once latched it never reverts.
    pub fn update(&mut self, intent: Vec2, dt: i64) -> (yip: bool)
        requires
            old(self).wf(),
            0 <= dt <= DT_LIMIT,
            -1_000_000 <= intent.x <= 1_000_000,
            -1_000_000 <= intent.y <= 1_000_000,
        ensures
            final(self).wf(),
            final(self).level == old(self).level,
            final(self).cats.len() == old(self).cats.len(),
            old(self).we_win ==> final(self).we_win,
            final(self).we_win == (old(self).we_win || (final(self).cats.len() > 0 && all_in_pen(
                final(self).cats@,
                old(self).level.cat_box,
            ))),
            final(self).dog.vel == spec_norm_to(intent, MOVE_SPEED as int),
            final(self).dog.pos.x == clamp1(
                old(self).dog.pos.x + div_trunc(
                    spec_norm_to(intent, MOVE_SPEED as int).x * dt,
                    1000,
                ),
                0,
                old(self).level.bounds.x as int,
            ),
            final(self).dog.pos.y == clamp1(
                old(self).dog.pos.y + div_trunc(
                    spec_norm_to(intent, MOVE_SPEED as int).y * dt,
                    1000,
                ),
                0,
                old(self).level.bounds.y as int,
            ),
            !yip ==> final(self).dog == spec_dog_drive(
                old(self).dog,
                intent,
                old(self).level.bounds,
                dt as int,
            ),
            yip ==> final(self).dog == spec_dog_hit(
                spec_dog_drive(old(self).dog, intent, old(self).level.bounds, dt as int),
            ),
            forall|i: int|
                0 <= i < old(self).cats.len() ==> #[trigger] stepped_from(
                    old(self).cats[i],
                    final(self).cats[i],
                    spec_dog_drive(old(self).dog, intent, old(self).level.bounds, dt as int),
                    old(self).level.cat_box,
                    old(self).level.bounds,
                    dt as int,
                ),
    {
        let bounds = self.level.bounds;
        let cbox = self.level.cat_box;
        assert(cbox.wf());

        // Pursuer: velocity from intent, move, tick the blink state.
        self.dog.set_velocity_from_intent(intent);
        let change = vel_step(self.dog.vel, dt);
        self.dog.try_move(&bounds, change);
        proof {
            // Ticking reads only the blink fields, which the movement left
            // alone.
            assert(self.dog.spec_tick(dt as int).dog_state == old(self).dog.spec_tick(
                dt as int,
            ).dog_state);
            assert(self.dog.spec_tick(dt as int).hit_time == old(self).dog.spec_tick(
                dt as int,
            ).hit_time);
            assert(self.dog.spec_tick(dt as int).hit_frame == old(self).dog.spec_tick(
                dt as int,
            ).hit_frame);
        }
        self.dog.update(dt);
        let ghost dog_mid = self.dog;
        proof {
            assert(dog_mid == spec_dog_drive(old(self).dog, intent, bounds, dt as int));
        }

        // Agents: transition, then state behaviour, in stable order.
        let mut yip = false;
        let mut i: usize = 0;
        while i < self.cats.len()
            invariant
                i <= self.cats.len(),
                self.level == old(self).level,
                self.level.valid(),
                self.we_win == old(self).we_win,
                self.cats.len() == old(self).cats.len(),
                self.dog.wf(),
                forall|j: int|
                    0 <= j < self.cats.len() ==> (#[trigger] self.cats[j]).wf() && primed(
                        self.cats[j],
                    ),
                0 <= dt <= DT_LIMIT,
                bounds == self.level.bounds,
                cbox == self.level.cat_box,
                cbox.wf(),
                CAT_SIZE <= bounds.x <= ARENA_LIMIT,
                CAT_SIZE <= bounds.y <= ARENA_LIMIT,
                -1_000_000 <= intent.x <= 1_000_000,
                -1_000_000 <= intent.y <= 1_000_000,
                self.dog.pos == dog_mid.pos,
                self.dog.vel == dog_mid.vel,
                yip ==> self.dog == spec_dog_hit(dog_mid),
                !yip ==> self.dog == dog_mid,
                forall|j: int| i <= j < self.cats.len() ==> self.cats[j] == old(self).cats[j],
                forall|j: int|
                    0 <= j < i ==> #[trigger] stepped_from(
                        old(self).cats[j],
                        self.cats[j],
                        dog_mid,
                        cbox,
                        bounds,
                        dt as int,
                    ),
            decreases self.cats.len() - i,
        {
            let dog_view = self.dog;
            let ghost pre = self.cats@[i as int];
            let mut c = self.cats[i];
            let st = c.update_state(&dog_view, &cbox);
            let ghost mid = c;
            proof {
                assert(mid == spec_transitioned(pre, dog_view, cbox));
            }
            match st {
                CatState::Idle => {
                    let theta_delta = sample_range(-300, 300);
                    c.idle(&bounds, &cbox, dt, theta_delta);
                    proof {
                        assert(c == spec_idle_step(mid, cbox, bounds, dt as int,
                            theta_delta as int));
                    }
                },
                CatState::InPen => {
                    c.in_pen(&bounds, dt);
                    proof {
                        assert(c == spec_in_pen_step(mid, dt as int));
                    }
                },
                CatState::Flee => {
                    let dir = Vec2 { x: c.pos.x - dog_view.pos.x, y: c.pos.y - dog_view.pos.y };
                    if dir.x != 0 {
                        c.facing = if dir.x > 0 {
                            Facing::Right
                        } else {
                            Facing::Left
                        };
                    }
                    let ghost rate = c.annoyance_rate;
                    assert(0 <= rate * dt <= 1_000_000_000) by (nonlinear_arith)
                        requires
                            0 <= rate <= 100_000,
                            0 <= dt <= DT_LIMIT,
                    ;
                    c.flee(&bounds, &dir, dt);
                    proof {
                        assert(c == spec_flee_step(mid, dog_view.pos, bounds, dt as int));
                    }
                },
                CatState::Jittering => {
                    let jx = sample_range(-2000, 2000);
                    let jy = sample_range(-2000, 2000);
                    c.jitter(dt, jx, jy, &dog_view);
                    proof {
                        assert(c == spec_jitter_step(mid, dog_view.pos, dt as int, jx as int,
                            jy as int));
                    }
                },
                CatState::Cannonballing => {
                    let hit = c.cannonball(&bounds, dt, &dog_view);
                    proof {
                        assert(c == spec_dash_step(mid, bounds, dt as int));
                    }
                    if hit {
                        self.dog.hit();
                        yip = true;
                    }
                },
            }
            proof {
                assert(stepped(pre, c, dog_view, cbox, bounds, dt as int));
                assert(dog_view == dog_mid || dog_view == spec_dog_hit(dog_mid));
            }
            self.cats[i] = c;
            i = i + 1;
        }

        // Win condition: latched once every agent is penned.
        if !self.we_win {
            let mut all = true;
            let mut j: usize = 0;
            while j < self.cats.len()
                invariant
                    j <= self.cats.len(),
                    cbox.wf(),
                    all == (forall|k: int|
                        0 <= k < j ==> spec_in_rect(
                            (#[trigger] self.cats[k]).pos,
                            cbox.pos,
                            cbox.size,
                        )),
                decreases self.cats.len() - j,
            {
                let inb = cbox.in_bounds(&self.cats[j].pos);
                all = all && inb;
                j = j + 1;
            }
            if all && self.cats.len() > 0 {
                self.we_win = true;
            }
        }
        yip
    }

    /// The session's pen.
    pub fn cat_box(&self) -> (r: &CatBox)
        ensures
            r == self.level.cat_box,
    {
        &self.level.cat_box
    }
}

} // verus!
