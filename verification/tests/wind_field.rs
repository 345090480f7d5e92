use particlebench::rng::Rng;
use particlebench::wind::{Wind, MAX_WIND};

#[test]
fn calm_start() {
    let w = Wind::new();
    assert_eq!((w.x, w.y, w.z), (0, 0, 0));
}

#[test]
fn one_step_from_fixed_seed() {
    // Three draws in axis order, each recentred into (-1, 0] and scaled
    // by a 16 ms frame.
    let mut w = Wind::new();
    let mut rng = Rng::new();
    w.do_wind(&mut rng, 16_000);
    assert_eq!(w.x, -1_728);
    assert_eq!(w.y, -13_104);
    assert_eq!(w.z, -4_904);
}

#[test]
fn soft_reflect_and_damp() {
    // An axis past the magnitude bound is multiplied by -0.5, not clamped.
    let mut w = Wind { x: 3_500_000, y: -3_500_000, z: 0 };
    let mut rng = Rng::new();
    w.do_wind(&mut rng, 0);
    assert_eq!(w.x, -1_750_000);
    assert_eq!(w.y, 1_750_000);
    assert_eq!(w.z, 0);
    assert!(w.x.abs() <= MAX_WIND && w.y.abs() <= MAX_WIND);
}
