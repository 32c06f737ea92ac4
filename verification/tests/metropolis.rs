use samplers::dist::univar::Table;
use samplers::modular::Z;
use samplers::rng::Rng;
use samplers::sampler::metropolis::Independent;
use samplers::sampler::Metropolis;

fn gaussian_weights_mh(n: usize, mu: f64, sigma: f64) -> Vec<u64> {
    (0..n)
        .map(|x| {
            let d = x as f64 - mu;
            let w = (-(d * d) / (2.0 * sigma * sigma)).exp();
            (w * 1_000_000.0) as u64
        })
        .collect()
}

#[test]
fn sampler_gaussian_metropolis() {
    let pdf = Table::new(gaussian_weights_mh(256, 128.0, 32.0));
    let mut rng = Rng::new(2);
    let mut s = Metropolis::<Z<256>, Independent>::new(Independent);
    let mut draws: Vec<usize> = Vec::new();
    for _ in 0..30_000 {
        let d = s.step(&pdf, &mut rng);
        assert!(d.0 < 256);
        draws.push(d.0);
    }
    let tail = &draws[2000..];
    let mean = tail.iter().map(|&x| x as f64).sum::<f64>() / tail.len() as f64;
    assert!((mean - 128.0).abs() < 6.0, "mean was {}", mean);
}

#[test]
fn acceptance_matches_density_ratio() {
    // Target weights [3, 1] on two values, independent uniform proposal.
    // A pull changes the state exactly when a differing proposal is
    // accepted; under the acceptance rule that happens with probability
    // pi(0) * q(1) * 1/3 + pi(1) * q(0) * 1 = 1/8 + 1/8 = 1/4.
    let pdf = Table::new(vec![3, 1]);
    let mut rng = Rng::new(9);
    let mut s = Metropolis::<Z<2>, Independent>::new(Independent);
    let mut prev = s.step(&pdf, &mut rng).0;
    let total = 100_000;
    let mut changes = 0usize;
    for _ in 0..total {
        let cur = s.step(&pdf, &mut rng).0;
        if cur != prev {
            changes += 1;
        }
        prev = cur;
    }
    let frac = changes as f64 / total as f64;
    assert!((frac - 0.25).abs() < 0.01, "transition fraction was {}", frac);
}

#[test]
fn stationary_frequencies_follow_weights() {
    let pdf = Table::new(vec![1, 1, 2]);
    let mut rng = Rng::new(10);
    let mut s = Metropolis::<Z<3>, Independent>::new(Independent);
    let mut counts = [0usize; 3];
    for _ in 0..1000 {
        s.step(&pdf, &mut rng);
    }
    let total = 120_000;
    for _ in 0..total {
        counts[s.step(&pdf, &mut rng).0] += 1;
    }
    let f2 = counts[2] as f64 / total as f64;
    assert!((f2 - 0.5).abs() < 0.02, "frequency of heaviest value was {}", f2);
}
