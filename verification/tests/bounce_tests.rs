use bounce::grid::{height_px, width_px};
use bounce::rng::LcgRng;

#[test]
fn test_lcg_rng_seeding() {
    // 42 | 1 is 43, 43 | 1 is 43, so both seeds produce the same sequence.
    let mut rng1 = LcgRng::new(42);
    let mut rng2 = LcgRng::new(43);
    assert_eq!(rng1.next_u64(), rng2.next_u64());
}

#[test]
fn test_coordinate_math() {
    assert_eq!(width_px(80, 12), 960);
    assert_eq!(width_px(0, 12), 0);
    assert_eq!(height_px(30, 20), 600);
    assert_eq!(height_px(0, 20), 0);
}
