use samplers::dist::univar::Table;
use samplers::modular::Z;
use samplers::rng::Rng;
use samplers::sampler::Icdf;
use samplers::Sampler;

fn gaussian_weights_icdf(n: usize, mu: f64, sigma: f64) -> Vec<u64> {
    (0..n)
        .map(|x| {
            let d = x as f64 - mu;
            let w = (-(d * d) / (2.0 * sigma * sigma)).exp();
            (w * 1_000_000.0) as u64
        })
        .collect()
}

#[test]
fn exactness_two_values() {
    // Weights [1, 3]: value 0 must appear with frequency 1/4, value 1 with 3/4.
    let pdf = Table::new(vec![1, 3]);
    let mut rng = Rng::new(42);
    let mut s = Icdf::<Z<2>>::new();
    let draws = s.sample(&pdf, &mut rng, 100_000);
    let ones = draws.iter().filter(|z| z.0 == 1).count();
    let frac = ones as f64 / draws.len() as f64;
    assert!((frac - 0.75).abs() < 0.01, "frequency of value 1 was {}", frac);
}

#[test]
fn sampler_gaussian() {
    let pdf = Table::new(gaussian_weights_icdf(256, 128.0, 32.0));
    let mut rng = Rng::new(1);
    let mut s = Icdf::<Z<256>>::new();
    let draws = s.sample(&pdf, &mut rng, 20_000);
    assert_eq!(draws.len(), 20_000);
    for z in &draws {
        assert!(z.0 < 256);
    }
    let mean = draws.iter().map(|z| z.0 as f64).sum::<f64>() / draws.len() as f64;
    assert!((mean - 128.0).abs() < 3.0, "mean was {}", mean);
    let var = draws.iter().map(|z| (z.0 as f64 - mean).powi(2)).sum::<f64>()
        / draws.len() as f64;
    let sd = var.sqrt();
    assert!((sd - 32.0).abs() < 3.0, "standard deviation was {}", sd);
}

#[test]
fn zero_density_yields_nothing() {
    let pdf = Table::new(vec![0, 0, 0, 0]);
    let mut rng = Rng::new(3);
    let mut s = Icdf::<Z<4>>::new();
    for _ in 0..10 {
        assert!(s.pull(&pdf, &mut rng).is_none());
    }
}

#[test]
fn pull_draws_only_weighted_values() {
    // Mass only on values 2 and 5: no other value may ever be drawn.
    let pdf = Table::new(vec![0, 0, 9, 0, 0, 1, 0, 0]);
    let mut rng = Rng::new(4);
    let mut s = Icdf::<Z<8>>::new();
    for _ in 0..3000 {
        let d = s.pull(&pdf, &mut rng).expect("positive total mass");
        assert!(d.0 == 2 || d.0 == 5);
    }
}

#[test]
fn ties_resolve_to_first_qualifying_value() {
    // A zero-weight value between two weighted ones is never drawn even
    // though its cumulative entry equals its predecessor's.
    let pdf = Table::new(vec![1, 0, 1]);
    let mut rng = Rng::new(5);
    let mut s = Icdf::<Z<3>>::new();
    for _ in 0..2000 {
        let d = s.pull(&pdf, &mut rng).unwrap();
        assert!(d.0 != 1);
    }
}
