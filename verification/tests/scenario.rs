use particlebench::scene::initScene;
use particlebench::sim::{start, Config, SimError, StepStatus};
use particlebench::stats::compute_stats;

#[test]
fn full_run_with_stub_clock() {
    // A one-second run at 100 particles per second, spawn batches every
    // hundredth of a second, driven by a stub clock of 16 ms frames with
    // 1 ms of GPU submission each: the loop terminates once the run timer
    // reaches the run duration, having recorded a non-empty trace.
    let cfg = Config { running_time_s: 1, points_per_sec: 100, max_life_ms: 500, spawn_interval: 10_000 };
    let mut sim = start(cfg);
    let dt: i64 = 16_000;
    let gpu: i64 = 1_000;
    let mut frames: u32 = 0;
    loop {
        sim.sim_frame().expect("pool sized for the whole run");
        let live = sim.pool.live_particles();
        assert!(live.len() <= 100);
        match sim.end_frame(dt, gpu).expect("trace sized for the whole run") {
            StepStatus::Complete => break,
            StepStatus::Running => {}
        }
        frames += 1;
        assert!(frames < 10_000, "the run must terminate");
    }
    // 63 frames of 16 ms pass the 1 s mark; recording starts past the
    // 0.5 s warm-up window.
    assert_eq!(frames, 62);
    assert!(sim.run_tmr >= 1_000_000);
    assert!(sim.trace.cur_frame() > 0);
    assert_eq!(sim.trace.cur_frame(), 32);
    let st = compute_stats(&sim.trace.frames, &sim.trace.gpu_times).expect("non-empty trace");
    assert_eq!(st.frame_time_mean, 16_000);
    assert_eq!(st.frame_rate_mean, 62_500_000);
    assert_eq!(st.gpu_time_mean, 1_000);
    assert_eq!(st.cpu_time_mean, 15_000);
    assert_eq!(st.rate_sd, 0);
}

#[test]
fn pool_invariants_along_a_run() {
    let cfg = Config { running_time_s: 1, points_per_sec: 100, max_life_ms: 200, spawn_interval: 10_000 };
    let mut sim = start(cfg);
    let mut guard: u32 = 0;
    loop {
        sim.sim_frame().expect("pool sized for the whole run");
        // pool bounds hold at every frame
        assert!(sim.pool.min_pt <= sim.pool.pts.len());
        assert!(sim.pool.pts.len() <= sim.pool.max_pts);
        for i in 0..sim.pool.min_pt {
            assert!(!sim.pool.pts[i].live);
        }
        for p in sim.pool.pts.iter() {
            if p.live {
                assert!(p.r > 0);
            }
        }
        match sim.end_frame(20_000, 500).expect("trace sized for the whole run") {
            StepStatus::Complete => break,
            StepStatus::Running => {}
        }
        guard += 1;
        assert!(guard < 10_000, "the run must terminate");
    }
    // with 200 ms lifetimes and 20 ms frames, compaction has run and
    // abandoned dead slots behind the low-water mark
    assert!(sim.pool.min_pt > 0);
}

#[test]
fn undersized_pool_is_a_fatal_error() {
    // A spawn rate past what the pool was sized for must surface the
    // capacity violation, not write past the arena.
    let cfg = Config { running_time_s: 1, points_per_sec: 100, max_life_ms: 500, spawn_interval: 10_000 };
    let mut sim = start(cfg);
    sim.pool.max_pts = 0;
    sim.spwn_tmr = 10_000;
    let r = sim.sim_frame();
    assert_eq!(r, Err(SimError::PoolFull));
}

#[test]
fn fresh_run_state() {
    let cfg = Config::bench();
    assert_eq!(cfg.running_time_s, 25);
    assert_eq!(cfg.points_per_sec, 2000);
    assert_eq!(cfg.max_life_ms, 5000);
    assert_eq!(cfg.spawn_interval, 10_000);
    let sim = start(cfg);
    assert_eq!(sim.rng.seed, particlebench::rng::SEED);
    assert_eq!(sim.pool.pts.len(), 0);
    assert_eq!(sim.pool.min_pt, 0);
    assert_eq!(sim.pool.max_pts, 50_000);
    assert_eq!(sim.trace.cap, 25_000);
    assert_eq!(sim.run_tmr, 0);
}

#[test]
fn cube_mesh_has_24_vertices_with_face_normals() {
    let scene = initScene();
    assert_eq!(scene.len(), 24);
    let v0 = scene[0];
    assert_eq!((v0.x, v0.y, v0.z), (-1, -1, 1));
    assert_eq!((v0.nx, v0.ny, v0.nz), (0, 0, 1));
    // six faces of four vertices, each face sharing one unit normal
    for f in 0..6 {
        let n = (scene[4 * f].nx, scene[4 * f].ny, scene[4 * f].nz);
        assert_eq!(n.0.abs() + n.1.abs() + n.2.abs(), 1);
        for k in 1..4 {
            let v = scene[4 * f + k];
            assert_eq!((v.nx, v.ny, v.nz), n);
        }
    }
    for v in scene.iter() {
        assert_eq!(v.x.abs(), 1);
        assert_eq!(v.y.abs(), 1);
        assert_eq!(v.z.abs(), 1);
    }
}
