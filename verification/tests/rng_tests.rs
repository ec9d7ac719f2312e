use bounce::rng::LcgRng;

#[test]
fn lcg_first_outputs_from_seed_42() {
    let mut rng = LcgRng::new(42);
    assert_eq!(rng.next_u64(), 16846135634367339998);
    assert_eq!(rng.next_u64(), 11679963896090501973);
    assert_eq!(rng.next_u64(), 8409398205182140992);
}

#[test]
fn lcg_first_output_from_seed_12345() {
    let mut rng = LcgRng::new(12345);
    assert_eq!(rng.next_u64(), 2021368500568277588);
}

#[test]
fn lcg_fraction_bits_are_top_53_bits() {
    let mut a = LcgRng::new(42);
    let mut b = LcgRng::new(42);
    for _ in 0..1000 {
        let bits = a.next_fraction_bits();
        let full = b.next_u64();
        assert_eq!(bits, full >> 11);
        assert!(bits < (1u64 << 53));
    }
}

#[test]
fn lcg_fraction_bits_first_value() {
    let mut rng = LcgRng::new(43);
    assert_eq!(rng.next_fraction_bits(), 8225652165218427);
}

#[test]
fn lcg_even_and_odd_seed_streams_match() {
    let mut even = LcgRng::new(9876);
    let mut odd = LcgRng::new(9877);
    for _ in 0..100 {
        assert_eq!(even.next_u64(), odd.next_u64());
    }
}

#[test]
fn lcg_different_seeds_differ() {
    let mut a = LcgRng::new(1);
    let mut b = LcgRng::new(3);
    assert_ne!(a.next_u64(), b.next_u64());
}

#[test]
fn distinct_states_step_to_distinct_states() {
    let mut outputs = std::collections::HashSet::new();
    for seed in 0..2000u64 {
        let mut rng = LcgRng::new(seed * 2);
        assert!(outputs.insert(rng.next_u64()));
    }
}
