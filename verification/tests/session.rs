use herding_cats::cat::{CatState, CatType};
use herding_cats::dog::{Dog, DogState};
use herding_cats::geom::Vec2;
use herding_cats::sounds::Sounds;
use herding_cats::world::{update_cat_stats, CatSpawn, ConfigError, GameWorld, Level};

fn base_level(spawns: Vec<CatSpawn>) -> Level {
    Level {
        cat_box: herding_cats::cat::CatBox {
            pos: Vec2 { x: 100_000, y: 100_000 },
            size: Vec2 { x: 60_000, y: 60_000 },
        },
        bounds: Vec2 { x: 400_000, y: 300_000 },
        dog_start: Vec2 { x: 200_000, y: 150_000 },
        spawns,
    }
}

fn spawn(kind: CatType, x: i64, y: i64) -> CatSpawn {
    CatSpawn {
        kind,
        pos: Vec2 { x, y },
    }
}

#[test]
fn construction_rejects_a_degenerate_arena() {
    let mut level = base_level(vec![]);
    level.bounds = Vec2 { x: 0, y: 300_000 };
    assert_eq!(GameWorld::new(level).err(), Some(ConfigError::BadArena));

    // An arena narrower than one agent footprint cannot hold a session.
    let mut level = base_level(vec![]);
    level.bounds = Vec2 { x: 20_000, y: 300_000 };
    assert_eq!(GameWorld::new(level).err(), Some(ConfigError::BadArena));
}

#[test]
fn construction_rejects_a_pen_outside_the_arena() {
    let mut level = base_level(vec![]);
    level.cat_box.size = Vec2 { x: 0, y: 60_000 };
    assert_eq!(GameWorld::new(level).err(), Some(ConfigError::BadPen));

    // Pen center too close to the wall for its half-extent.
    let mut level = base_level(vec![]);
    level.cat_box.pos = Vec2 { x: 10_000, y: 100_000 };
    assert_eq!(GameWorld::new(level).err(), Some(ConfigError::BadPen));
}

#[test]
fn construction_rejects_spawns_outside_the_arena() {
    let mut level = base_level(vec![]);
    level.dog_start = Vec2 { x: -1, y: 150_000 };
    assert_eq!(GameWorld::new(level).err(), Some(ConfigError::BadSpawn));

    let level = base_level(vec![spawn(CatType::Basic, 500_000, 150_000)]);
    assert_eq!(GameWorld::new(level).err(), Some(ConfigError::BadSpawn));
}

#[test]
fn construction_spawns_the_requested_batch() {
    let level = base_level(vec![
        spawn(CatType::Basic, 50_000, 50_000),
        spawn(CatType::Kitten, 300_000, 200_000),
        spawn(CatType::Fat, 350_000, 60_000),
    ]);
    let world = GameWorld::new(level).unwrap();
    assert!(!world.we_win);
    assert_eq!(world.dog.pos, Vec2 { x: 200_000, y: 150_000 });
    assert_eq!(world.dog.dog_state, DogState::Chasing);
    // The pursuer spawns at rest, with no blink pending.
    assert_eq!(world.dog.vel, Vec2 { x: 0, y: 0 });
    assert_eq!(world.dog.hit_time, 0);
    assert_eq!(world.dog.hit_frame, 0);
    assert_eq!(world.cats.len(), 3);
    assert_eq!(world.cats[0].cat_type, CatType::Basic);
    assert_eq!(world.cats[1].cat_type, CatType::Kitten);
    assert_eq!(world.cats[2].cat_type, CatType::Fat);
    assert_eq!(world.cats[1].pos, Vec2 { x: 300_000, y: 200_000 });
    assert_eq!(world.cat_box().pos, Vec2 { x: 100_000, y: 100_000 });
    // Each spawned agent starts idle, calm, at rest, with its kind's
    // tunables from the table.
    for cat in &world.cats {
        assert_eq!(cat.state, CatState::Idle);
        assert_eq!(cat.annoyance_total, 0);
        assert_eq!(cat.velocity, Vec2 { x: 0, y: 0 });
    }
    assert_eq!(world.cats[0].speed, 150_000);
    assert_eq!(world.cats[1].speed, 175_000);
    assert_eq!(world.cats[1].flee_scalar, 1500);
    assert_eq!(world.cats[2].speed, 100_000);
    assert_eq!(world.cats[2].annoyance_rate, 1500);
}

#[test]
fn dog_blink_toggles_every_second_tick_then_expires() {
    let mut dog = Dog::new(Vec2 { x: 200_000, y: 150_000 });
    dog.hit();
    assert_eq!(dog.dog_state, DogState::Blinking(true));
    assert_eq!(dog.hit_time, 500);
    assert_eq!(dog.hit_frame, 0);

    // First tick only counts a frame; the flash holds.
    dog.update(100);
    assert_eq!(dog.dog_state, DogState::Blinking(true));
    assert_eq!(dog.hit_frame, 1);
    // Second tick spends dt and flips the flash.
    dog.update(100);
    assert_eq!(dog.dog_state, DogState::Blinking(false));
    assert_eq!(dog.hit_time, 400);
    assert_eq!(dog.hit_frame, 0);

    // Every two ticks spend 100 ms: after eight more the timer hits zero
    // and the pursuer chases again.
    for _ in 0..8 {
        dog.update(100);
    }
    assert_eq!(dog.dog_state, DogState::Chasing);

    // Chasing ticks are a no-op.
    dog.update(100);
    assert_eq!(dog.dog_state, DogState::Chasing);
}

#[test]
fn dog_movement_follows_the_intent_vector() {
    let level = base_level(vec![]);
    let mut world = GameWorld::new(level).unwrap();
    world.update(Vec2 { x: 1000, y: 0 }, 100);
    assert_eq!(world.dog.vel, Vec2 { x: 150_000, y: 0 });
    assert_eq!(world.dog.pos, Vec2 { x: 215_000, y: 150_000 });
    assert_eq!(world.dog.facing, herding_cats::geom::Facing::Right);

    // A diagonal intent is normalised: the speed stays 150 px/s overall,
    // not per axis.
    world.update(Vec2 { x: -1000, y: -1000 }, 100);
    assert_eq!(world.dog.vel, Vec2 { x: -106_007, y: -106_007 });
    assert_eq!(world.dog.facing, herding_cats::geom::Facing::Left);
}

#[test]
fn dog_loose_clamp_reaches_the_arena_edges() {
    let bounds = Vec2 { x: 400_000, y: 300_000 };
    let mut dog = Dog::new(Vec2 { x: 200_000, y: 150_000 });
    dog.try_move(&bounds, Vec2 { x: -1_000_000_000, y: -1_000_000_000 });
    assert_eq!(dog.pos, Vec2 { x: 0, y: 0 });
    dog.try_move(&bounds, Vec2 { x: 1_000_000_000, y: 1_000_000_000 });
    assert_eq!(dog.pos, Vec2 { x: 400_000, y: 300_000 });
}

#[test]
fn win_latches_once_every_agent_is_penned() {
    // Both agents start at the pen center, the pursuer far away.
    let mut level = base_level(vec![
        spawn(CatType::Basic, 100_000, 100_000),
        spawn(CatType::Kitten, 110_000, 90_000),
    ]);
    level.dog_start = Vec2 { x: 390_000, y: 290_000 };
    let mut world = GameWorld::new(level).unwrap();
    assert!(!world.we_win);

    world.update(Vec2 { x: 0, y: 0 }, 100);
    assert_eq!(world.cats[0].state, CatState::InPen);
    assert_eq!(world.cats[1].state, CatState::InPen);
    assert!(world.we_win);
}

#[test]
fn win_does_not_unlatch_when_an_agent_leaves_the_pen() {
    let mut level = base_level(vec![spawn(CatType::Basic, 100_000, 100_000)]);
    level.dog_start = Vec2 { x: 390_000, y: 290_000 };
    let mut world = GameWorld::new(level).unwrap();
    world.update(Vec2 { x: 0, y: 0 }, 100);
    assert!(world.we_win);

    // Drag the agent well outside the pen afterward: the win stays.
    world.cats[0].pos = Vec2 { x: 300_000, y: 200_000 };
    let yip = world.update(Vec2 { x: 0, y: 0 }, 100);
    assert!(!yip);
    assert!(world.we_win);
}

#[test]
fn win_needs_at_least_one_agent() {
    // An empty session must not spuriously declare a win.
    let level = base_level(vec![]);
    let mut world = GameWorld::new(level).unwrap();
    world.update(Vec2 { x: 0, y: 0 }, 100);
    assert!(!world.we_win);
}

#[test]
fn a_landing_dash_yips_once_and_shields_the_pursuer() {
    // One agent dashing in place right on top of the pursuer.
    let mut level = base_level(vec![spawn(CatType::Basic, 200_000, 150_000)]);
    level.dog_start = Vec2 { x: 200_000, y: 150_000 };
    let mut world = GameWorld::new(level).unwrap();
    world.cats[0].state = CatState::Cannonballing;
    world.cats[0].cannonballing_time = 500;
    world.cats[0].dog_target = Vec2 { x: 0, y: 0 };

    // The dash overlaps a chasing pursuer: it connects, exactly once.
    let yip = world.update(Vec2 { x: 0, y: 0 }, 100);
    assert!(yip);
    assert_eq!(world.dog.dog_state, DogState::Blinking(true));
    assert_eq!(world.dog.hit_time, 500);

    // Still overlapping on the next tick, but the pursuer is blinking:
    // no second hit.
    let yip = world.update(Vec2 { x: 0, y: 0 }, 100);
    assert!(!yip);
}

#[test]
fn a_nearby_chase_sends_the_agent_fleeing() {
    let mut level = base_level(vec![spawn(CatType::Basic, 200_000, 150_000)]);
    level.dog_start = Vec2 { x: 210_000, y: 150_000 };
    let mut world = GameWorld::new(level).unwrap();

    let yip = world.update(Vec2 { x: 0, y: 0 }, 100);
    assert!(!yip);
    let cat = &world.cats[0];
    assert_eq!(cat.state, CatState::Flee);
    // Straight away from the pursuer at full speed, facing the flight.
    assert_eq!(cat.velocity, Vec2 { x: -150_000, y: 0 });
    assert_eq!(cat.pos, Vec2 { x: 185_000, y: 150_000 });
    assert_eq!(cat.facing, herding_cats::geom::Facing::Left);
    assert_eq!(cat.annoyance_total, 100);
}

#[test]
fn an_undisturbed_agent_idles_inside_the_arena() {
    let mut level = base_level(vec![spawn(CatType::Basic, 300_000, 200_000)]);
    level.dog_start = Vec2 { x: 20_000, y: 20_000 };
    let mut world = GameWorld::new(level).unwrap();

    // 20 ticks of 100 ms: at most 100 px of wandering, never enough to
    // reach the pen or the idle pursuer from this start.
    for _ in 0..20 {
        world.update(Vec2 { x: 0, y: 0 }, 100);
        let cat = &world.cats[0];
        assert_eq!(cat.state, CatState::Idle);
        assert_eq!(cat.annoyance_total, 0);
        // The strict clamp holds whatever the random walk does.
        assert!(15_000 <= cat.pos.x && cat.pos.x <= 385_000);
        assert!(15_000 <= cat.pos.y && cat.pos.y <= 285_000);
        // The walk speed is capped at a third of the kind speed.
        let v = cat.velocity;
        assert!(v.x * v.x + v.y * v.y <= 50_000i64 * 50_000);
    }
}

#[test]
fn stats_count_the_penned_agents() {
    let level = base_level(vec![
        spawn(CatType::Basic, 100_000, 100_000),
        spawn(CatType::Kitten, 300_000, 200_000),
        spawn(CatType::Fat, 350_000, 60_000),
    ]);
    let mut world = GameWorld::new(level).unwrap();
    let stats = update_cat_stats(&world.cats);
    assert_eq!(stats.total(), 3);
    assert_eq!(stats.in_pen(), 0);
    assert!(!stats.all_penned());

    world.cats[0].state = CatState::InPen;
    let stats = update_cat_stats(&world.cats);
    assert_eq!(stats.in_pen(), 1);
    assert!(!stats.all_penned());

    world.cats[1].state = CatState::InPen;
    world.cats[2].state = CatState::InPen;
    let stats = update_cat_stats(&world.cats);
    assert_eq!(stats.in_pen(), 3);
    assert!(stats.all_penned());
}

#[test]
fn stats_never_declare_an_empty_session_penned() {
    let cats = Vec::new();
    let stats = update_cat_stats(&cats);
    assert_eq!(stats.total(), 0);
    assert!(!stats.all_penned());
}

#[test]
fn angry_meow_picks_one_of_the_three_recordings() {
    let _sounds = Sounds::new();
    for _ in 0..32 {
        let choice = Sounds::angry_meow();
        assert!((1..=3).contains(&choice));
    }
}
