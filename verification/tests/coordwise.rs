use samplers::dist::multivar::Table2;
use samplers::dist::Flat;
use samplers::modular::Z;
use samplers::rng::Rng;
use samplers::sampler::Coordwise;
use samplers::Sampler;

#[test]
fn yields_only_on_acceptance() {
    // Under the flat density every weight is 1, so the acceptance variate
    // is 0 or 1 with equal probability and a pull is accepted half the
    // time: the yield cadence is visibly irregular.
    let pdf = Flat;
    let mut rng = Rng::new(17);
    let init = vec![Z::<16>(3), Z::<16>(5)];
    let mut s = Coordwise::new(init);
    let total = 20_000;
    let mut yielded = 0usize;
    for _ in 0..total {
        if let Some(v) = s.pull(&pdf, &mut rng) {
            assert_eq!(v.len(), 2);
            assert!(v[0].0 < 16 && v[1].0 < 16);
            yielded += 1;
        }
    }
    let frac = yielded as f64 / total as f64;
    assert!((frac - 0.5).abs() < 0.02, "acceptance fraction was {}", frac);
}

#[test]
fn weightless_state_never_moves() {
    // A density that is zero everywhere rejects every proposal: the chain
    // yields nothing and the state never changes.
    let pdf = Table2::new(2, 2, vec![0, 0, 0, 0]);
    let mut rng = Rng::new(18);
    let init = vec![Z::<2>(0), Z::<2>(1)];
    let mut s = Coordwise::new(init);
    for _ in 0..200 {
        assert!(s.pull(&pdf, &mut rng).is_none());
    }
}

#[test]
fn concentrates_on_heavy_cell() {
    // One cell carries almost all the mass; the chain should spend most
    // of its accepted pulls there.
    let mut w = vec![1u64; 16];
    w[5] = 1000;
    let pdf = Table2::new(4, 4, w);
    let mut rng = Rng::new(19);
    let init = vec![Z::<4>(0), Z::<4>(0)];
    let mut s = Coordwise::new(init);
    let mut hits = 0usize;
    let mut yielded = 0usize;
    for _ in 0..40_000 {
        if let Some(v) = s.pull(&pdf, &mut rng) {
            yielded += 1;
            if v[0].0 == 1 && v[1].0 == 1 {
                hits += 1;
            }
        }
    }
    assert!(yielded > 0);
    assert!(hits as f64 / yielded as f64 > 0.5);
}
