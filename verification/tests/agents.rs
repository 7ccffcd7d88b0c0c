use herding_cats::cat::{Cat, CatBox, CatState, CatType};
use herding_cats::dog::Dog;
use herding_cats::geom::Vec2;

fn arena() -> Vec2 {
    Vec2 { x: 400_000, y: 300_000 }
}

fn pen() -> CatBox {
    CatBox {
        pos: Vec2 { x: 100_000, y: 100_000 },
        size: Vec2 { x: 60_000, y: 60_000 },
    }
}

fn far_dog() -> Dog {
    Dog::new(Vec2 { x: 390_000, y: 290_000 })
}

#[test]
fn spawned_cats_carry_their_kind_tunables() {
    let pos = Vec2 { x: 50_000, y: 60_000 };
    let vel = Vec2 { x: 0, y: 0 };

    let basic = Cat::new_basic_cat(pos, vel);
    assert_eq!(basic.cat_type, CatType::Basic);
    assert_eq!(basic.speed, 150_000);
    assert_eq!(basic.annoyance_rate, 1000);
    assert_eq!(basic.calming_rate, 750);
    assert_eq!(basic.rw_radius, 9000);
    assert_eq!(basic.flee_scalar, 1000);
    assert_eq!(basic.annoyance_total, 0);
    assert_eq!(basic.state, CatState::Idle);
    assert_eq!(basic.radius, 70_000);
    assert_eq!(basic.size, Vec2 { x: 30_000, y: 30_000 });
    assert!(basic.color < 4);
    assert!(-3000 <= basic.meow_time && basic.meow_time < 2000);

    let kitten = Cat::new_kitten(pos, vel);
    assert_eq!(kitten.cat_type, CatType::Kitten);
    assert_eq!(kitten.speed, 175_000);
    assert_eq!(kitten.annoyance_rate, 0);
    assert_eq!(kitten.calming_rate, 0);
    assert_eq!(kitten.rw_radius, 12_000);
    assert_eq!(kitten.flee_scalar, 1500);

    let fat = Cat::new_fat_cat(pos, vel);
    assert_eq!(fat.cat_type, CatType::Fat);
    assert_eq!(fat.speed, 100_000);
    assert_eq!(fat.annoyance_rate, 1500);
    assert_eq!(fat.calming_rate, 500);
    assert_eq!(fat.rw_radius, 6000);
    assert!(-1000 <= fat.meow_time && fat.meow_time < 1000);
}

#[test]
fn annoyance_decay_never_goes_negative() {
    let bounds = arena();
    let mut cat = Cat::new_basic_cat(Vec2 { x: 200_000, y: 150_000 }, Vec2 { x: 0, y: 0 });
    cat.annoyance_total = 500;
    // One penned tick decays by 750 * 10 = 7500 milli-units, far past zero:
    // the accumulator floors at zero instead of going negative.
    cat.in_pen(&bounds, 10_000);
    assert_eq!(cat.annoyance_total, 0);
    cat.in_pen(&bounds, 10_000);
    assert_eq!(cat.annoyance_total, 0);
}

#[test]
fn decrease_annoyance_floors_at_zero() {
    let mut cat = Cat::new_basic_cat(Vec2 { x: 200_000, y: 150_000 }, Vec2 { x: 0, y: 0 });
    // Above the floor: exact decay, 750 milli-units per second.
    cat.annoyance_total = 500;
    cat.decrease_annoyance(100);
    assert_eq!(cat.annoyance_total, 425);
    // Through the floor: saturates at zero.
    cat.decrease_annoyance(1000);
    assert_eq!(cat.annoyance_total, 0);
    cat.decrease_annoyance(1000);
    assert_eq!(cat.annoyance_total, 0);
}

#[test]
fn increase_annoyance_arms_the_jitter_on_crossing() {
    let mut cat = Cat::new_basic_cat(Vec2 { x: 200_000, y: 150_000 }, Vec2 { x: 0, y: 0 });
    // Below the threshold: exact accumulation, no entry action.
    cat.increase_annoyance(900);
    assert_eq!(cat.annoyance_total, 900);
    assert_eq!(cat.targeting_time, 0);
    // Crossing: no upper clamp, and the jitter is anchored here and armed.
    cat.increase_annoyance(200);
    assert_eq!(cat.annoyance_total, 1100);
    assert_eq!(cat.jitter_origin, cat.pos);
    assert_eq!(cat.targeting_time, 1000);
}

#[test]
fn try_move_keeps_the_center_in_the_strict_band() {
    let bounds = arena();
    let mut cat = Cat::new_basic_cat(Vec2 { x: 200_000, y: 150_000 }, Vec2 { x: 0, y: 0 });
    cat.try_move(&bounds, Vec2 { x: -1_000_000_000, y: 1_000_000_000 });
    assert_eq!(cat.pos, Vec2 { x: 15_000, y: 285_000 });
    cat.try_move(&bounds, Vec2 { x: 1_000_000_000, y: -1_000_000_000 });
    assert_eq!(cat.pos, Vec2 { x: 385_000, y: 15_000 });
    // An interior move is applied unclamped.
    cat.try_move(&bounds, Vec2 { x: -5000, y: 5000 });
    assert_eq!(cat.pos, Vec2 { x: 380_000, y: 20_000 });
}

#[test]
fn idle_decays_annoyance_exactly() {
    let bounds = arena();
    let cat_box = pen();
    let mut cat = Cat::new_basic_cat(Vec2 { x: 200_000, y: 150_000 }, Vec2 { x: 0, y: 0 });
    cat.annoyance_total = 500;
    // 750 milli-units per second for 100 ms is 75.
    cat.idle(&bounds, &cat_box, 100, 0);
    assert_eq!(cat.annoyance_total, 425);
}

#[test]
fn kitten_annoyance_never_moves() {
    let bounds = arena();
    let mut kitten = Cat::new_kitten(Vec2 { x: 200_000, y: 150_000 }, Vec2 { x: 0, y: 0 });
    kitten.annoyance_total = 500;
    kitten.in_pen(&bounds, 10_000);
    assert_eq!(kitten.annoyance_total, 500);
    let dir = Vec2 { x: -190_000, y: -140_000 };
    kitten.state = CatState::Flee;
    kitten.flee(&bounds, &dir, 1000);
    assert_eq!(kitten.annoyance_total, 500);
}

#[test]
fn threshold_escalation_goes_through_jittering() {
    let bounds = arena();
    let cat_box = pen();
    let dog = far_dog();
    let mut cat = Cat::new_basic_cat(Vec2 { x: 200_000, y: 150_000 }, Vec2 { x: 0, y: 0 });
    cat.state = CatState::Flee;
    // At 1000 milli-units per second, ten 100 ms ticks reach the threshold.
    for tick in 0..10 {
        assert!(cat.annoyance_total < 1000);
        let dir = Vec2 {
            x: cat.pos.x - dog.pos.x,
            y: cat.pos.y - dog.pos.y,
        };
        cat.flee(&bounds, &dir, 100);
        assert_eq!(cat.annoyance_total, (tick + 1) * 100);
    }
    assert_eq!(cat.annoyance_total, 1000);
    // Crossing the threshold anchored the coming jitter at the flee-end
    // position and armed the jitter countdown.
    assert_eq!(cat.jitter_origin, cat.pos);
    assert_eq!(cat.targeting_time, 1000);
    // The next transition is Jittering — never straight to Cannonballing.
    let st = cat.update_state(&dog, &cat_box);
    assert_eq!(st, CatState::Jittering);
}

#[test]
fn jitter_hands_off_to_the_dash() {
    let cat_box = pen();
    let mut cat = Cat::new_basic_cat(Vec2 { x: 200_000, y: 150_000 }, Vec2 { x: 0, y: 0 });
    cat.state = CatState::Jittering;
    cat.targeting_time = 100;
    cat.annoyance_total = 1000;
    // Aimed so that the pursuer sits 3-4-5 from the shake-end position.
    let dog = Dog::new(Vec2 { x: 203_500, y: 153_500 });

    cat.jitter(100, 500, -500, &dog);
    // The shake overwrites the position relative to the anchor.
    assert_eq!(cat.pos, Vec2 { x: 200_500, y: 149_500 });
    assert_eq!(cat.targeting_time, 0);
    // The countdown ran out: the dash is aimed at the pursuer from the
    // shake-end position (unit vector, scaled by 1000) and the dash timer
    // is armed.
    assert_eq!(cat.dog_target, Vec2 { x: 600, y: 800 });
    assert_eq!(cat.cannonballing_time, 1250);

    let st = cat.update_state(&dog, &cat_box);
    assert_eq!(st, CatState::Cannonballing);
}

#[test]
fn jitter_keeps_shaking_while_the_countdown_runs() {
    let mut cat = Cat::new_basic_cat(Vec2 { x: 200_000, y: 150_000 }, Vec2 { x: 0, y: 0 });
    cat.state = CatState::Jittering;
    cat.targeting_time = 1000;
    cat.annoyance_total = 1000;
    let dog = far_dog();
    let target_before = cat.dog_target;

    cat.jitter(100, 2000, 2000, &dog);
    assert_eq!(cat.pos, Vec2 { x: 202_000, y: 152_000 });
    assert_eq!(cat.targeting_time, 900);
    // Not expired: no aiming yet.
    assert_eq!(cat.dog_target, target_before);
    assert_eq!(cat.cannonballing_time, 0);
}

#[test]
fn dash_collision_gating() {
    let bounds = arena();
    let here = Vec2 { x: 200_000, y: 150_000 };

    // Overlapping a chasing pursuer: the dash must connect.
    let mut cat = Cat::new_basic_cat(here, Vec2 { x: 0, y: 0 });
    cat.state = CatState::Cannonballing;
    cat.cannonballing_time = 500;
    let chasing = Dog::new(here);
    assert!(cat.cannonball(&bounds, 0, &chasing));

    // Overlapping a blinking pursuer: the dash must not connect.
    let mut blinking = Dog::new(here);
    blinking.hit();
    assert!(!cat.cannonball(&bounds, 0, &blinking));

    // A chasing pursuer fully apart: no hit either.
    let apart = Dog::new(Vec2 { x: 300_000, y: 150_000 });
    assert!(!cat.cannonball(&bounds, 0, &apart));
}

#[test]
fn dash_moves_by_the_prescaled_velocity_and_burns_its_timer() {
    let bounds = arena();
    let mut cat = Cat::new_basic_cat(Vec2 { x: 200_000, y: 150_000 }, Vec2 { x: 0, y: 0 });
    cat.state = CatState::Cannonballing;
    cat.cannonballing_time = 1250;
    cat.dog_target = Vec2 { x: 1000, y: 0 };
    let dog = far_dog();
    // 240 px/s for 100 ms is 24 px: the velocity carries the dt factor and
    // the move adds it directly.
    cat.cannonball(&bounds, 100, &dog);
    assert_eq!(cat.velocity, Vec2 { x: 24_000, y: 0 });
    assert_eq!(cat.pos, Vec2 { x: 224_000, y: 150_000 });
    assert_eq!(cat.cannonballing_time, 1150);
}

#[test]
fn finished_dash_resets_annoyance_and_idles() {
    let cat_box = pen();
    let dog = far_dog();
    let mut cat = Cat::new_basic_cat(Vec2 { x: 200_000, y: 150_000 }, Vec2 { x: 0, y: 0 });
    cat.state = CatState::Cannonballing;
    cat.cannonballing_time = 0;
    cat.annoyance_total = 1000;
    let st = cat.update_state(&dog, &cat_box);
    assert_eq!(st, CatState::Idle);
    assert_eq!(cat.annoyance_total, 0);
}

#[test]
fn transition_priority_prefers_escalation_over_the_pen() {
    let cat_box = pen();
    let dog = far_dog();
    // In the pen but over the threshold: escalation wins.
    let mut cat = Cat::new_basic_cat(Vec2 { x: 100_000, y: 100_000 }, Vec2 { x: 0, y: 0 });
    cat.annoyance_total = 1500;
    let st = cat.update_state(&dog, &cat_box);
    assert_eq!(st, CatState::Jittering);
}

#[test]
fn detection_radius_is_a_strict_bound() {
    let cat_box = pen();
    let mut cat = Cat::new_basic_cat(Vec2 { x: 200_000, y: 150_000 }, Vec2 { x: 0, y: 0 });
    // Exactly 70 px away: not detected (strictly closer is required).
    let at_radius = Dog::new(Vec2 { x: 270_000, y: 150_000 });
    assert_eq!(cat.update_state(&at_radius, &cat_box), CatState::Idle);
    // A hair closer: detected.
    let closer = Dog::new(Vec2 { x: 269_999, y: 150_000 });
    assert_eq!(cat.update_state(&closer, &cat_box), CatState::Flee);
    // Same spot, but blinking: agents do not flee a blinking pursuer.
    let mut blinking = Dog::new(Vec2 { x: 269_999, y: 150_000 });
    blinking.hit();
    assert_eq!(cat.update_state(&blinking, &cat_box), CatState::Idle);
}

#[test]
fn strict_clamp_confines_the_agent_footprint() {
    let bounds = arena();
    let dog = Dog::new(Vec2 { x: 390_000, y: 150_000 });
    let mut cat = Cat::new_basic_cat(Vec2 { x: 20_000, y: 150_000 }, Vec2 { x: 0, y: 0 });
    cat.state = CatState::Flee;
    // Fleeing left for 10 s runs far past the wall; the center stops at
    // the half-footprint line, 15 px in.
    let dir = Vec2 { x: -1000, y: 0 };
    cat.flee(&bounds, &dir, 10_000);
    assert_eq!(cat.pos, Vec2 { x: 15_000, y: 150_000 });

    // And symmetrically on the far side: 400 - 15 px.
    let dir = Vec2 { x: 1000, y: 0 };
    let mut cat = Cat::new_basic_cat(Vec2 { x: 380_000, y: 150_000 }, Vec2 { x: 0, y: 0 });
    cat.state = CatState::Flee;
    cat.flee(&bounds, &dir, 10_000);
    assert_eq!(cat.pos, Vec2 { x: 385_000, y: 150_000 });
}

#[test]
fn flee_speed_scales_with_the_kind_scalar() {
    let bounds = arena();
    let mut kitten = Cat::new_kitten(Vec2 { x: 200_000, y: 150_000 }, Vec2 { x: 0, y: 0 });
    kitten.state = CatState::Flee;
    // Kitten flee speed: 175 px/s times 1.5 = 262.5 px/s, due east.
    kitten.flee(&bounds, &Vec2 { x: 1000, y: 0 }, 100);
    assert_eq!(kitten.velocity, Vec2 { x: 262_500, y: 0 });
}

#[test]
fn idle_scenario_in_the_concrete_arena() {
    // Arena 400x300, pen centered at (100, 100) sized 60x60, one basic
    // agent at the origin with zero annoyance, pursuer far away and
    // chasing.
    let bounds = arena();
    let cat_box = pen();
    let dog = far_dog();
    let mut cat = Cat::new_basic_cat(Vec2 { x: 0, y: 0 }, Vec2 { x: 0, y: 0 });

    assert_eq!(cat.update_state(&dog, &cat_box), CatState::Idle);
    cat.idle(&bounds, &cat_box, 100, 0);

    // No fleeing happened: annoyance stays zero.
    assert_eq!(cat.annoyance_total, 0);
    // The walk step is bounded by speed/3: |velocity| <= 50 px/s, so the
    // raw step is at most 5 px for dt = 0.1 s...
    let v = cat.velocity;
    assert!(v.x * v.x + v.y * v.y <= 50_000 * 50_000);
    assert_eq!(v, Vec2 { x: 50_000, y: 0 });
    // ...and the clamp then pulls the off-arena start into bounds.
    assert_eq!(cat.pos, Vec2 { x: 15_000, y: 15_000 });
    assert!(15_000 <= cat.pos.x && cat.pos.x <= 385_000);
    assert!(15_000 <= cat.pos.y && cat.pos.y <= 285_000);
}

#[test]
fn idle_step_from_the_arena_interior_is_bounded() {
    let bounds = arena();
    let cat_box = pen();
    let mut cat = Cat::new_basic_cat(Vec2 { x: 200_000, y: 150_000 }, Vec2 { x: 0, y: 0 });
    cat.idle(&bounds, &cat_box, 100, 0);
    // Heading 0 walks due east at exactly speed/3: a 5 px step.
    assert_eq!(cat.pos, Vec2 { x: 205_000, y: 150_000 });
    assert_eq!(cat.velocity, Vec2 { x: 50_000, y: 0 });
}

#[test]
fn idle_near_the_pen_is_repelled() {
    let bounds = arena();
    let cat_box = pen();
    // 1 px due east of the pen center: the 150/distance repulsion is at
    // its strongest there, with the random walk heading straight back at
    // the pen.
    let mut cat = Cat::new_basic_cat(Vec2 { x: 101_000, y: 100_000 }, Vec2 { x: 0, y: 0 });
    cat.rw_theta = 3142; // facing west, toward the pen
    cat.idle(&bounds, &cat_box, 100, 0);
    // The repulsion term (150 px/s at 1 px) overcomes the 50 px/s westward
    // walk: the agent ends up pushed east, away from the pen.
    assert_eq!(cat.velocity, Vec2 { x: 50_000, y: 0 });
}

#[test]
fn normalized_jitter_reports_thousandths_of_threshold() {
    let mut cat = Cat::new_basic_cat(Vec2 { x: 200_000, y: 150_000 }, Vec2 { x: 0, y: 0 });
    cat.annoyance_total = 500;
    assert_eq!(cat.normalized_jitter(), 500);
    cat.annoyance_total = 0;
    assert_eq!(cat.normalized_jitter(), 0);
}

#[test]
fn meow_resets_the_timer_and_flags_anger() {
    let mut cat = Cat::new_basic_cat(Vec2 { x: 200_000, y: 150_000 }, Vec2 { x: 0, y: 0 });
    cat.meow_time = 1234;
    assert!(!cat.meow());
    assert_eq!(cat.meow_time, 0);
    cat.state = CatState::Jittering;
    cat.meow_time = 1234;
    assert!(cat.meow());
    assert_eq!(cat.meow_time, 0);
}

#[test]
fn pen_containment_is_inclusive() {
    let cat_box = pen();
    // The pen spans [70, 130] on each axis.
    assert!(cat_box.in_bounds(&Vec2 { x: 70_000, y: 130_000 }));
    assert!(cat_box.in_bounds(&Vec2 { x: 100_000, y: 100_000 }));
    assert!(!cat_box.in_bounds(&Vec2 { x: 69_999, y: 100_000 }));
    assert!(!cat_box.in_bounds(&Vec2 { x: 100_000, y: 130_001 }));
}
