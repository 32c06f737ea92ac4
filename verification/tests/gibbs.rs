use nalgebra::{SMatrix, SVector};
use samplers::dist::multivar::Table2;
use samplers::modular::Z;
use samplers::rng::Rng;
use samplers::sampler::{Burn, Gibbs, Icdf};
use samplers::Sampler;

/// The joint table of the bivariate Gaussian shape with the given mean and
/// covariance, over the grid `{0..n-1}^2`, in fixed point.
fn gaussian_table2(n: usize, mu: SVector<f64, 2>, sigma: SMatrix<f64, 2, 2>) -> Vec<u64> {
    let inv = sigma.try_inverse().expect("covariance must be invertible");
    let mut w = Vec::with_capacity(n * n);
    for a in 0..n {
        for b in 0..n {
            let x = SVector::<f64, 2>::new(a as f64, b as f64) - mu;
            let q = (inv * x).dot(&x);
            let weight = (-q / 2.0).exp();
            w.push((weight * 1_000_000.0) as u64);
        }
    }
    w
}

fn marginal_mean_sd(draws: &[Vec<Z<64>>], coord: usize) -> (f64, f64) {
    let xs: Vec<f64> = draws.iter().map(|v| v[coord].0 as f64).collect();
    let mean = xs.iter().sum::<f64>() / xs.len() as f64;
    let var = xs.iter().map(|x| (x - mean).powi(2)).sum::<f64>() / xs.len() as f64;
    (mean, var.sqrt())
}

#[test]
fn sampler_gaussian_gibbs() {
    let mu = SVector::<f64, 2>::new(128.0, 128.0);
    let sigma = SMatrix::<f64, 2, 2>::from_row_slice(&[128.0, 32.0, 32.0, 64.0]);
    let pdf = Table2::new(256, 256, gaussian_table2(256, mu, sigma));
    let mut rng = Rng::new(20);
    let gibbs = Gibbs::new(2, Icdf::<Z<256>>::new());
    let mut s = Burn::new(gibbs, 1000);
    let mut draws: Vec<Vec<Z<256>>> = Vec::new();
    let mut pulls = 0;
    while draws.len() < 3000 && pulls < 10_000 {
        pulls += 1;
        if let Some(v) = s.pull(&pdf, &mut rng) {
            assert_eq!(v.len(), 2);
            assert!(v[0].0 < 256 && v[1].0 < 256);
            draws.push(v);
        }
    }
    assert_eq!(draws.len(), 3000);
    let m0 = draws.iter().map(|v| v[0].0 as f64).sum::<f64>() / draws.len() as f64;
    let m1 = draws.iter().map(|v| v[1].0 as f64).sum::<f64>() / draws.len() as f64;
    assert!((m0 - 128.0).abs() < 3.0, "first marginal mean was {}", m0);
    assert!((m1 - 128.0).abs() < 3.0, "second marginal mean was {}", m1);
}

#[test]
fn separable_density_matches_marginals() {
    // Uncorrelated diagonal covariance: after burn-in, each coordinate's
    // empirical marginal matches the corresponding 1-D Gaussian shape.
    let mu = SVector::<f64, 2>::new(32.0, 32.0);
    let sigma = SMatrix::<f64, 2, 2>::from_row_slice(&[100.0, 0.0, 0.0, 36.0]);
    let pdf = Table2::new(64, 64, gaussian_table2(64, mu, sigma));
    let mut rng = Rng::new(21);
    let gibbs = Gibbs::new(2, Icdf::<Z<64>>::new());
    let mut s = Burn::new(gibbs, 500);
    let mut draws: Vec<Vec<Z<64>>> = Vec::new();
    let mut pulls = 0;
    while draws.len() < 4000 && pulls < 10_000 {
        pulls += 1;
        if let Some(v) = s.pull(&pdf, &mut rng) {
            draws.push(v);
        }
    }
    assert_eq!(draws.len(), 4000);
    let (m0, sd0) = marginal_mean_sd(&draws, 0);
    let (m1, sd1) = marginal_mean_sd(&draws, 1);
    assert!((m0 - 32.0).abs() < 1.5, "first marginal mean was {}", m0);
    assert!((m1 - 32.0).abs() < 1.5, "second marginal mean was {}", m1);
    assert!((sd0 - 10.0).abs() < 1.5, "first marginal spread was {}", sd0);
    assert!((sd1 - 6.0).abs() < 1.5, "second marginal spread was {}", sd1);
}

#[test]
fn degenerate_corner_density_is_safe() {
    // Mass only at two opposite corners of the grid: Gibbs keeps yielding
    // valid vectors without panicking or leaving the domain.
    let mut w = vec![0u64; 64];
    w[0] = 3;
    w[63] = 5;
    let pdf = Table2::new(8, 8, w);
    let mut rng = Rng::new(22);
    let mut s = Gibbs::new(2, Icdf::<Z<8>>::new());
    for _ in 0..300 {
        let v = s.pull(&pdf, &mut rng).expect("a sweep always yields");
        assert_eq!(v.len(), 2);
        assert!(v[0].0 < 8 && v[1].0 < 8);
    }
}

#[test]
fn zero_joint_density_falls_back_to_uniform() {
    // An all-zero joint density starves every conditional sub-chain; the
    // sweep falls back to unconditioned draws and still yields valid
    // vectors.
    let pdf = Table2::new(4, 4, vec![0u64; 16]);
    let mut rng = Rng::new(23);
    let mut s = Gibbs::new(3, Icdf::<Z<4>>::new());
    for _ in 0..100 {
        let v = s.pull(&pdf, &mut rng).expect("a sweep always yields");
        assert_eq!(v.len(), 3);
        assert!(v.iter().all(|z| z.0 < 4));
    }
}
