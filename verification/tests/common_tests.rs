use moonlitt_effects::common::oversampler::{MirroredDelay, OversamplingPlan, FILTER_LEN};

#[test]
fn plan_rounds_factor_to_nearest_power_of_two() {
    let cases = [
        (0usize, 1usize, 0usize),
        (1, 1, 0),
        (2, 2, 1),
        (3, 4, 2),
        (4, 4, 2),
        (5, 4, 2),
        (6, 8, 3),
        (7, 8, 3),
        (8, 8, 3),
        (11, 8, 3),
        (12, 16, 4),
        (16, 16, 4),
        (23, 16, 4),
        (24, 32, 5),
        (usize::MAX / 2 + 1, usize::MAX / 2 + 1, (usize::BITS - 1) as usize),
    ];
    for (req, factor, stages) in cases {
        let p = OversamplingPlan::new(req);
        assert_eq!(p.factor(), factor, "request {}", req);
        assert_eq!(p.num_stages(), stages, "request {}", req);
    }
}

#[test]
fn plan_latency() {
    assert_eq!(OversamplingPlan::new(1).latency(), 0);
    // one stage: 2 * 12 / 2
    assert_eq!(OversamplingPlan::new(2).latency(), 12);
    assert_eq!(OversamplingPlan::new(4).latency(), 18);
    assert_eq!(OversamplingPlan::new(8).latency(), 21);
    // 12 + 6 + 3 + 1: the fourth stage still adds a sample, later ones none.
    assert_eq!(OversamplingPlan::new(16).latency(), 22);
    assert_eq!(OversamplingPlan::new(64).latency(), 22);
    assert_eq!(FILTER_LEN, 25);
}

#[test]
fn plan_oversampled_len() {
    assert_eq!(OversamplingPlan::new(4).oversampled_len(256), 1024);
    assert_eq!(OversamplingPlan::new(1).oversampled_len(256), 256);
}

#[test]
fn mirrored_window_is_oldest_first() {
    let mut d: MirroredDelay<i32> = MirroredDelay::new(4, 0);
    assert_eq!(d.len(), 4);
    assert_eq!(d.window(), &[0, 0, 0, 0]);
    for x in 1..=6 {
        d.push(x);
    }
    assert_eq!(d.window(), &[3, 4, 5, 6]);
    d.reset(0);
    assert_eq!(d.window(), &[0, 0, 0, 0]);
    d.push(9);
    assert_eq!(d.window(), &[0, 0, 0, 9]);
}
