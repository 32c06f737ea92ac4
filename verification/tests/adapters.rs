use samplers::dist::univar::Table;
use samplers::modular::Z;
use samplers::rng::Rng;
use samplers::sampler::{Burn, Icdf, Pick};
use samplers::Sampler;

fn skewed_weights(n: usize) -> Vec<u64> {
    (0..n).map(|x| (x as u64) + 1).collect()
}

fn chain_values(seed: u64, count: usize) -> Vec<usize> {
    let pdf = Table::new(skewed_weights(8));
    let mut rng = Rng::new(seed);
    let mut s = Icdf::<Z<8>>::new();
    let mut out = Vec::new();
    while out.len() < count {
        if let Some(d) = s.pull(&pdf, &mut rng) {
            out.push(d.0);
        }
    }
    out
}

#[test]
fn burn_drops_exactly_the_prefix() {
    // Same seed, same chain: the burned sampler must replay the plain
    // sampler's sequence with its first `skip` elements removed.
    let plain = chain_values(42, 40);
    let pdf = Table::new(skewed_weights(8));
    let mut rng = Rng::new(42);
    let mut b = Burn::new(Icdf::<Z<8>>::new(), 7);
    let mut burned = Vec::new();
    while burned.len() < 33 {
        if let Some(d) = b.pull(&pdf, &mut rng) {
            burned.push(d.0);
        }
    }
    assert_eq!(&plain[7..40], &burned[..]);
}

#[test]
fn burn_zero_is_identity() {
    let plain = chain_values(5, 20);
    let pdf = Table::new(skewed_weights(8));
    let mut rng = Rng::new(5);
    let mut b = Burn::new(Icdf::<Z<8>>::new(), 0);
    let mut burned = Vec::new();
    while burned.len() < 20 {
        if let Some(d) = b.pull(&pdf, &mut rng) {
            burned.push(d.0);
        }
    }
    assert_eq!(plain, burned);
}

#[test]
fn pick_keeps_every_kth() {
    // Same seed, same chain: the thinned sampler must yield elements
    // 2, 5, 8, ... (0-based) of the plain sequence, i.e. every 3rd
    // starting from the 3rd.
    let plain = chain_values(13, 30);
    let pdf = Table::new(skewed_weights(8));
    let mut rng = Rng::new(13);
    let mut p = Pick::new(Icdf::<Z<8>>::new(), 3);
    let mut thinned = Vec::new();
    while thinned.len() < 10 {
        if let Some(d) = p.pull(&pdf, &mut rng) {
            thinned.push(d.0);
        }
    }
    for (j, &v) in thinned.iter().enumerate() {
        assert_eq!(v, plain[(j + 1) * 3 - 1]);
    }
}

#[test]
fn pick_one_is_identity() {
    let plain = chain_values(21, 20);
    let pdf = Table::new(skewed_weights(8));
    let mut rng = Rng::new(21);
    let mut p = Pick::new(Icdf::<Z<8>>::new(), 1);
    let mut thinned = Vec::new();
    while thinned.len() < 20 {
        if let Some(d) = p.pull(&pdf, &mut rng) {
            thinned.push(d.0);
        }
    }
    assert_eq!(plain, thinned);
}

#[test]
fn burn_then_pick_compose() {
    let plain = chain_values(33, 31);
    let pdf = Table::new(skewed_weights(8));
    let mut rng = Rng::new(33);
    let mut s = Pick::new(Burn::new(Icdf::<Z<8>>::new(), 5), 2);
    let mut out = Vec::new();
    while out.len() < 13 {
        if let Some(d) = s.pull(&pdf, &mut rng) {
            out.push(d.0);
        }
    }
    // After removing the 5-element prefix, every 2nd of the rest.
    for (j, &v) in out.iter().enumerate() {
        assert_eq!(v, plain[5 + (j + 1) * 2 - 1]);
    }
}
