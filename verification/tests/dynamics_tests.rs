use moonlitt_effects::dynamics::gate::{GateControl, GateEvent, GateState};
use moonlitt_effects::dynamics::limiter::oversampling_from_rounded;
use moonlitt_effects::dynamics::multiband_compressor::{
    clamp_band_count, enforce_ascending_crossovers, BandControl, MultibandParam, MAX_BANDS,
    PARAM_COUNT,
};

fn ev(above: bool, below: bool, gain_open: bool, gain_closed: bool) -> GateEvent {
    GateEvent {
        above_threshold: above,
        below_release: below,
        gain_open,
        gain_closed,
    }
}

#[test]
fn gate_opens_through_attack() {
    let mut g = GateControl::new(3);
    assert_eq!(g.state, GateState::Closed);
    assert!(!g.targets_unity());
    g.step(ev(true, false, false, false));
    assert_eq!(g.state, GateState::Opening);
    assert!(g.targets_unity());
    g.step(ev(true, false, false, false));
    assert_eq!(g.state, GateState::Opening);
    g.step(ev(true, false, true, false));
    assert_eq!(g.state, GateState::Open);
}

#[test]
fn gate_drop_during_attack_closes() {
    let mut g = GateControl::new(3);
    g.step(ev(true, false, false, false));
    // gain reached unity but the level fell below the release point: closing wins
    g.step(ev(false, true, true, false));
    assert_eq!(g.state, GateState::Closing);
    assert!(!g.targets_unity());
}

#[test]
fn gate_hold_counts_down_then_closes() {
    let mut g = GateControl { state: GateState::Open, hold_counter: 0, hold_samples: 3 };
    g.step(ev(false, true, true, false));
    assert_eq!(g.state, GateState::Holding);
    assert_eq!(g.hold_counter, 3);
    for expected in [2u32, 1, 0] {
        g.step(ev(false, true, true, false));
        assert_eq!(g.state, GateState::Holding);
        assert_eq!(g.hold_counter, expected);
    }
    g.step(ev(false, true, true, false));
    assert_eq!(g.state, GateState::Closing);
    g.step(ev(false, true, false, false));
    assert_eq!(g.state, GateState::Closing);
    g.step(ev(false, true, false, true));
    assert_eq!(g.state, GateState::Closed);
}

#[test]
fn gate_hold_reopens_when_level_returns() {
    let mut g = GateControl { state: GateState::Holding, hold_counter: 5, hold_samples: 5 };
    g.step(ev(true, false, true, false));
    assert_eq!(g.state, GateState::Open);
}

#[test]
fn gate_closing_reopens_through_attack() {
    let mut g = GateControl { state: GateState::Closing, hold_counter: 0, hold_samples: 5 };
    g.step(ev(true, false, false, false));
    assert_eq!(g.state, GateState::Opening);
}

#[test]
fn gate_reset_and_hold_setting() {
    let mut g = GateControl { state: GateState::Holding, hold_counter: 7, hold_samples: 9 };
    g.set_hold_samples(2);
    assert_eq!(g.hold_samples, 2);
    assert_eq!(g.hold_counter, 7);
    g.reset();
    assert_eq!(g, GateControl { state: GateState::Closed, hold_counter: 0, hold_samples: 2 });
}

#[test]
fn multiband_param_layout() {
    assert_eq!(MultibandParam::from_id(0), Some(MultibandParam::BandCount));
    assert_eq!(MultibandParam::from_id(1), Some(MultibandParam::OutputGain));
    assert_eq!(MultibandParam::from_id(2), Some(MultibandParam::Bypass));
    assert_eq!(MultibandParam::from_id(3), Some(MultibandParam::Crossover { index: 0 }));
    assert_eq!(MultibandParam::from_id(7), Some(MultibandParam::Crossover { index: 4 }));
    assert_eq!(
        MultibandParam::from_id(8),
        Some(MultibandParam::Band { band: 0, control: BandControl::Threshold })
    );
    assert_eq!(
        MultibandParam::from_id(14),
        Some(MultibandParam::Band { band: 1, control: BandControl::Ratio })
    );
    assert_eq!(
        MultibandParam::from_id(37),
        Some(MultibandParam::Band { band: 5, control: BandControl::Makeup })
    );
    assert_eq!(MultibandParam::from_id(38), None);
}

#[test]
fn multiband_param_ids_are_distinct_and_complete() {
    let mut seen = Vec::new();
    for id in 0..PARAM_COUNT {
        let p = MultibandParam::from_id(id).expect("every id below the count names a parameter");
        assert!(!seen.contains(&p));
        seen.push(p);
    }
    assert_eq!(seen.len(), 38);
}

fn known(v: &[u64]) -> Vec<Option<u64>> {
    v.iter().map(|k| Some(*k)).collect()
}

#[test]
fn crossovers_raised_above_the_set_one() {
    let mut keys = known(&[100, 200, 900, 400, 1000]);
    let changed = enforce_ascending_crossovers(&mut keys, 2);
    assert_eq!(keys, known(&[100, 200, 900, 900, 1000]));
    assert_eq!(changed, vec![false, false, false, true, false]);
}

#[test]
fn crossovers_lowered_below_the_set_one() {
    let mut keys = known(&[100, 500, 600, 300, 1000]);
    let changed = enforce_ascending_crossovers(&mut keys, 3);
    assert_eq!(keys, known(&[100, 300, 300, 300, 1000]));
    assert_eq!(changed, vec![false, true, true, false, false]);
}

#[test]
fn crossovers_already_ascending_stay() {
    let mut keys = known(&[1, 2, 3, 4, 5]);
    let changed = enforce_ascending_crossovers(&mut keys, 0);
    assert_eq!(keys, known(&[1, 2, 3, 4, 5]));
    assert!(changed.iter().all(|c| !c));
}

#[test]
fn crossovers_first_set_to_top_raises_all() {
    let mut keys = known(&[5000, 2, 3, 4, 5]);
    let changed = enforce_ascending_crossovers(&mut keys, 0);
    assert_eq!(keys, known(&[5000; 5]));
    assert_eq!(changed, vec![false, true, true, true, true]);
}

#[test]
fn crossovers_from_ascending_take_min_below_and_max_above() {
    // Ascending 100, 200, 300, 400, 500; the middle one is set to 250.
    let mut keys = known(&[100, 200, 250, 400, 500]);
    enforce_ascending_crossovers(&mut keys, 2);
    assert_eq!(keys, known(&[100, 200, 250, 400, 500]));
    // The middle one set to 450: those above become max(old, 450).
    let mut keys = known(&[100, 200, 450, 400, 500]);
    enforce_ascending_crossovers(&mut keys, 2);
    assert_eq!(keys, known(&[100, 200, 450, 450, 500]));
    // The middle one set to 150: those below become min(old, 150).
    let mut keys = known(&[100, 200, 150, 400, 500]);
    enforce_ascending_crossovers(&mut keys, 2);
    assert_eq!(keys, known(&[100, 150, 150, 400, 500]));
}

#[test]
fn crossover_unknown_set_moves_nothing() {
    let mut keys = vec![Some(100), Some(200), None, Some(150), Some(50)];
    let changed = enforce_ascending_crossovers(&mut keys, 2);
    // Nothing compares with the unknown one, so the walk upward stops
    // raising at it; the pair above it is still compared with each other.
    assert_eq!(keys, vec![Some(100), Some(200), None, Some(150), Some(150)]);
    assert_eq!(changed, vec![false, false, false, false, true]);
}

#[test]
fn crossover_unknown_neighbour_is_left_alone() {
    let mut keys = vec![Some(100), None, Some(300), Some(50), Some(500)];
    let changed = enforce_ascending_crossovers(&mut keys, 2);
    assert_eq!(keys, vec![Some(100), None, Some(300), Some(300), Some(500)]);
    assert_eq!(changed, vec![false, false, false, true, false]);
}

#[test]
fn crossover_keys_follow_frequency_order() {
    let freqs = [20.0f64, 250.0, 2000.0, 150.0, 20000.0];
    let mut keys: Vec<Option<u64>> = freqs.iter().map(|f| Some(f.to_bits())).collect();
    enforce_ascending_crossovers(&mut keys, 2);
    let out: Vec<f64> = keys.iter().map(|k| f64::from_bits(k.unwrap())).collect();
    assert_eq!(out, vec![20.0, 250.0, 2000.0, 2000.0, 20000.0]);
}

#[test]
fn band_count_clamps() {
    assert_eq!(clamp_band_count(0), 1);
    assert_eq!(clamp_band_count(1), 1);
    assert_eq!(clamp_band_count(4), 4);
    assert_eq!(clamp_band_count(6), MAX_BANDS);
    assert_eq!(clamp_band_count(99), MAX_BANDS);
}

#[test]
fn limiter_oversampling_steps() {
    assert_eq!(oversampling_from_rounded(0), 1);
    assert_eq!(oversampling_from_rounded(1), 1);
    assert_eq!(oversampling_from_rounded(2), 2);
    assert_eq!(oversampling_from_rounded(3), 4);
    assert_eq!(oversampling_from_rounded(4), 4);
    assert_eq!(oversampling_from_rounded(100), 4);
}

#[test]
fn gate_hysteresis_band_keeps_state() {
    // level between release point and threshold: neither above nor below
    let mut open = GateControl { state: GateState::Open, hold_counter: 0, hold_samples: 4 };
    open.step(ev(false, false, true, false));
    assert_eq!(open.state, GateState::Open);
    let mut closed = GateControl::new(4);
    closed.step(ev(false, false, false, true));
    assert_eq!(closed.state, GateState::Closed);
}
