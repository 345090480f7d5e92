use particlebench::rng::{Rng, SEED};

#[test]
fn seed_constant() {
    assert_eq!(SEED, 1234569);
    let g = Rng::new();
    assert_eq!(g.seed, SEED);
}

#[test]
fn fixed_sequence_from_seed() {
    // Drawing from the fixed seed reproduces this exact sequence: the
    // three-step xorshift is a pure function of the prior state.
    let mut g = Rng::new();
    let expected: [u32; 10] = [
        45655784, 3671070362, 3630459387, 4265560470, 4139630608, 2571308719, 3930377828,
        42369952, 2360324601, 679819921,
    ];
    for &want in expected.iter() {
        assert_eq!(g.next(), want);
    }
}

#[test]
fn determinism_across_generators() {
    let mut a = Rng::new();
    let mut b = Rng::new();
    for _ in 0..100 {
        assert_eq!(a.next(), b.next());
    }
}

#[test]
fn modulo_reduction() {
    let mut g = Rng::new();
    let v = g.next_mod(15);
    assert_eq!(v, 45655784 % 15);
    assert!(v < 15);
    let w = g.next_mod(7);
    assert_eq!(w, 3671070362 % 7);
}
