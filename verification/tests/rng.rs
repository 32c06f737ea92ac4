use samplers::rng::Rng;

#[test]
fn below_stays_in_range() {
    let mut rng = Rng::new(1);
    for n in 1..50u64 {
        for _ in 0..100 {
            assert!(rng.below(n) < n);
        }
    }
}

#[test]
fn below_varies() {
    let mut rng = Rng::new(2);
    let first = rng.below(1_000_000);
    let mut differs = false;
    for _ in 0..50 {
        if rng.below(1_000_000) != first {
            differs = true;
        }
    }
    assert!(differs);
}

#[test]
fn same_seed_same_stream() {
    let mut a = Rng::new(99);
    let mut b = Rng::new(99);
    for _ in 0..200 {
        assert_eq!(a.below(1000), b.below(1000));
    }
}
