use particlebench::pool::{Particle, Pool, MAX_X, MIN_X};
use particlebench::rng::Rng;

fn inert() -> Particle {
    Particle { x: 0, y: 0, z: 0, vx: 0, vy: 0, vz: 0, r: 0, life: 0, live: false }
}

fn live_at(x: i64, vx: i64, r: i64) -> Particle {
    Particle { x, y: 0, z: 100_000_000, vx, vy: 0, vz: 0, r, life: 1_000_000, live: true }
}

#[test]
fn bounce_energy_gain() {
    // A particle past the left wall with velocity -5 leaves boundary
    // resolution at the wall plus its radius with velocity +5.5.
    let p = live_at(MIN_X - 1, -5_000_000, 1_000_000);
    let mut pool = Pool { pts: vec![p], min_pt: 0, max_pts: 1 };
    pool.check_colls();
    assert_eq!(pool.pts[0].x, MIN_X + 1_000_000);
    assert_eq!(pool.pts[0].vx, 5_500_000);
}

#[test]
fn bounce_at_far_wall() {
    let p = live_at(MAX_X + 250_000, 4_000_000, 500_000);
    let mut pool = Pool { pts: vec![p], min_pt: 0, max_pts: 1 };
    pool.check_colls();
    assert_eq!(pool.pts[0].x, MAX_X - 500_000);
    assert_eq!(pool.pts[0].vx, -4_400_000);
}

#[test]
fn no_bounce_exactly_at_wall() {
    // Reflection triggers strictly past a wall: a particle exactly on it
    // is left alone.
    let p = live_at(MIN_X, -5_000_000, 1_000_000);
    let mut pool = Pool { pts: vec![p], min_pt: 0, max_pts: 1 };
    pool.check_colls();
    assert_eq!(pool.pts[0].x, MIN_X);
    assert_eq!(pool.pts[0].vx, -5_000_000);
}

#[test]
fn dead_slots_skip_collision() {
    let mut p = live_at(MIN_X - 1, -5_000_000, 1_000_000);
    p.live = false;
    let mut pool = Pool { pts: vec![p], min_pt: 0, max_pts: 1 };
    pool.check_colls();
    assert_eq!(pool.pts[0].x, MIN_X - 1);
    assert_eq!(pool.pts[0].vx, -5_000_000);
}

#[test]
fn integration_moves_and_ages() {
    // 1 unit/s for 16 ms moves 0.016; gravity pulls the vertical velocity
    // by 0.5 unscaled; a lifetime shorter than the step kills the slot.
    let p = Particle {
        x: 0,
        y: 0,
        z: 0,
        vx: 1_000_000,
        vy: 0,
        vz: 0,
        r: 1_000_000,
        life: 10_000,
        live: true,
    };
    let mut pool = Pool { pts: vec![p], min_pt: 0, max_pts: 1 };
    pool.mov_pts(0, 0, 0, 16_000);
    assert_eq!(pool.pts[0].x, 16_000);
    assert_eq!(pool.pts[0].vy, -500_000);
    assert_eq!(pool.pts[0].life, -6_000);
    assert!(!pool.pts[0].live);
    // a second pass never revives it
    pool.mov_pts(0, 0, 0, 16_000);
    assert!(!pool.pts[0].live);
    assert_eq!(pool.pts[0].x, 16_000);
}

#[test]
fn wind_effect_inverse_to_radius() {
    // wind 3.0 over radius 0.005 adds 600 to the horizontal velocity.
    let mut small = live_at(0, 0, 5_000);
    small.life = 10_000_000;
    let mut pool = Pool { pts: vec![small], min_pt: 0, max_pts: 1 };
    pool.mov_pts(3_000_000, 0, 0, 0);
    assert_eq!(pool.pts[0].vx, 600_000_000);
}

#[test]
fn compaction_advances_to_first_live() {
    let mut live = live_at(0, 0, 5_000);
    live.life = 10_000_000;
    let pts = vec![inert(), inert(), live, inert()];
    let mut pool = Pool { pts, min_pt: 0, max_pts: 4 };
    pool.cleanup_pt_pool();
    assert_eq!(pool.min_pt, 2);
    // compaction never moves the mark backwards
    pool.cleanup_pt_pool();
    assert_eq!(pool.min_pt, 2);
}

#[test]
fn compaction_on_all_dead_pool_keeps_mark() {
    let pts = vec![inert(), inert(), inert()];
    let mut pool = Pool { pts, min_pt: 1, max_pts: 3 };
    pool.cleanup_pt_pool();
    assert_eq!(pool.min_pt, 1);
}

#[test]
fn spawn_batch_from_fixed_seed() {
    // 0.01 s at 2000 particles per second spawns exactly 20 particles;
    // the first one's attributes come from the first seven draws.
    let mut rng = Rng::new();
    let mut pool = Pool { pts: Vec::new(), min_pt: 0, max_pts: 50 };
    let ok = pool.spwn_pts(&mut rng, 10_000, 2000, 5000);
    assert!(ok);
    assert_eq!(pool.pts.len(), 20);
    let first = pool.pts[0];
    assert_eq!(first.x, 6_500_000);
    assert_eq!(first.y, 50_000_000);
    assert_eq!(first.z, 194_500_000);
    assert_eq!(first.vx, 2_000_000);
    assert_eq!(first.vy, 3_000_000);
    assert_eq!(first.vz, 1_000_000);
    assert_eq!(first.r, 1_595_000);
    assert_eq!(first.life, 2_828_000);
    assert!(first.live);
    for p in pool.pts.iter() {
        assert!(p.live);
        assert!(p.r > 0);
    }
}

#[test]
fn spawn_past_capacity_is_refused() {
    let mut rng = Rng::new();
    let mut pool = Pool { pts: Vec::new(), min_pt: 0, max_pts: 10 };
    let ok = pool.spwn_pts(&mut rng, 10_000, 2000, 5000);
    assert!(!ok);
    assert_eq!(pool.pts.len(), 0);
    assert_eq!(rng.seed, particlebench::rng::SEED);
}

#[test]
fn live_particles_in_slot_order() {
    let mut a = live_at(1, 0, 5_000);
    a.life = 10_000_000;
    let mut b = live_at(2, 0, 6_000);
    b.life = 10_000_000;
    let pts = vec![inert(), a, inert(), b];
    let pool = Pool { pts, min_pt: 1, max_pts: 4 };
    let out = pool.live_particles();
    assert_eq!(out.len(), 2);
    assert_eq!(out[0].x, 1);
    assert_eq!(out[0].r, 5_000);
    assert_eq!(out[1].x, 2);
    assert_eq!(out[1].r, 6_000);
}
