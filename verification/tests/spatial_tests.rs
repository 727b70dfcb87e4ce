use moonlitt_effects::spatial::convolver::{fdl_advance, fdl_slot};
use moonlitt_effects::spatial::dattorro::{
    DattorroLayout, DelayLine, PreDelay, INPUT_DIFFUSION_LENGTHS, LEFT_OUTPUT_TAPS,
    LEFT_TANK_LENGTHS, RIGHT_OUTPUT_TAPS, RIGHT_TANK_LENGTHS,
};
use moonlitt_effects::spatial::partition::{partition_count, partition_range};
use moonlitt_effects::spatial::reverb::{
    allpass_lengths, clamp_predelay, comb_lengths, max_predelay_samples, scale_delay,
    scale_delays, InputPreDelay, ALLPASS_TUNING, COMB_TUNING,
};

#[test]
fn delay_line_delays_by_its_length() {
    let mut d: DelayLine<i32> = DelayLine::new(4, 0);
    assert_eq!(d.len(), 4);
    let mut out = Vec::new();
    for x in 1..=10 {
        out.push(d.process(x));
    }
    assert_eq!(out, vec![0, 0, 0, 0, 1, 2, 3, 4, 5, 6]);
}

#[test]
fn delay_line_zero_size_holds_one_sample() {
    let mut d: DelayLine<i32> = DelayLine::new(0, 0);
    assert_eq!(d.len(), 1);
    assert_eq!(d.process(7), 0);
    assert_eq!(d.process(8), 7);
}

#[test]
fn delay_line_taps_read_back_writes() {
    let mut d: DelayLine<u32> = DelayLine::new(5, 0);
    for x in 1..=7u32 {
        d.write(x);
    }
    // newest is 7: tap 1 = 7, tap 2 = 6, ..., tap 5 = oldest = 3
    assert_eq!(d.read_at(1), 7);
    assert_eq!(d.read_at(2), 6);
    assert_eq!(d.read_at(5), 3);
    assert_eq!(d.read_at(0), 3);
    // offsets wrap modulo the length
    assert_eq!(d.read_at(6), 7);
    assert_eq!(d.read_at(12), 6);
}

#[test]
fn delay_line_physical_positions() {
    let mut d: DelayLine<u32> = DelayLine::new(3, 0);
    d.write(10);
    d.write(20);
    assert_eq!(d.write_position(), 2);
    assert_eq!(d.read_position(0), 10);
    assert_eq!(d.read_position(1), 20);
    assert_eq!(d.read_position(2), 0);
}

#[test]
fn delay_line_clear() {
    let mut d: DelayLine<u8> = DelayLine::new(3, 0);
    d.write(1);
    d.write(2);
    d.clear(9);
    assert_eq!(d.write_position(), 0);
    assert_eq!(d.read_at(1), 9);
    assert_eq!(d.process(4), 9);
}

#[test]
fn predelay_exact_delay() {
    let mut p: PreDelay<i32> = PreDelay::new(8, 0);
    p.set_delay(3);
    assert_eq!(p.delay_samples(), 3);
    let out: Vec<i32> = (1..=6).map(|x| p.process(x)).collect();
    assert_eq!(out, vec![0, 0, 0, 1, 2, 3]);
}

#[test]
fn predelay_is_capped_below_buffer_length() {
    let mut p: PreDelay<i32> = PreDelay::new(4, 0);
    p.set_delay(100);
    assert_eq!(p.delay_samples(), 3);
    p.clear(0);
    assert_eq!(p.delay_samples(), 3);
}

#[test]
fn predelay_zero_reads_oldest() {
    let mut p: PreDelay<i32> = PreDelay::new(2, 0);
    let out: Vec<i32> = (1..=4).map(|x| p.process(x)).collect();
    assert_eq!(out, vec![0, 0, 1, 2]);
}

#[test]
fn scale_delay_values() {
    assert_eq!(scale_delay(1116, 44100), 1116);
    assert_eq!(scale_delay(1116, 48000), 1215);
    assert_eq!(scale_delay(1116, 22050), 558);
    // 1 * 22050 / 44100 = 0.5 rounds up
    assert_eq!(scale_delay(1, 22050), 1);
    assert_eq!(scale_delay(4453, 96000), 9694);
    assert_eq!(scale_delay(0, 48000), 0);
    assert_eq!(moonlitt_effects::spatial::dattorro::scale_delay(142, 48000), 155);
}

#[test]
fn max_predelay_is_200ms_rounded_up() {
    assert_eq!(max_predelay_samples(44100), 8820);
    assert_eq!(max_predelay_samples(48000), 9600);
    assert_eq!(max_predelay_samples(44101), 8821);
    assert_eq!(max_predelay_samples(0), 0);
}

#[test]
fn predelay_clamp() {
    assert_eq!(clamp_predelay(10, 8820), 10);
    assert_eq!(clamp_predelay(8820, 8820), 8819);
    assert_eq!(clamp_predelay(99999, 8820), 8819);
    assert_eq!(clamp_predelay(5, 0), 0);
}

#[test]
fn partitions_cover_response() {
    assert_eq!(partition_count(0, 64), 1);
    assert_eq!(partition_count(1, 64), 1);
    assert_eq!(partition_count(64, 64), 1);
    assert_eq!(partition_count(65, 64), 2);
    assert_eq!(partition_count(1000, 256), 4);
    assert_eq!(partition_range(1000, 256, 0), (0, 256));
    assert_eq!(partition_range(1000, 256, 3), (768, 1000));
    assert_eq!(partition_range(0, 64, 0), (0, 0));
}

#[test]
fn fdl_slots_rotate() {
    assert_eq!(fdl_slot(0, 0, 4), 0);
    assert_eq!(fdl_slot(0, 1, 4), 3);
    assert_eq!(fdl_slot(2, 2, 4), 0);
    assert_eq!(fdl_slot(1, 3, 4), 2);
    assert_eq!(fdl_advance(2, 4), 3);
    assert_eq!(fdl_advance(3, 4), 0);
    // a block stored at slot 1, three advances later, is partition 3's input
    let mut idx = 1;
    for _ in 0..3 {
        idx = fdl_advance(idx, 4);
    }
    assert_eq!(fdl_slot(idx, 3, 4), 1);
}

#[test]
fn comb_lengths_at_base_rate_are_the_table() {
    assert_eq!(comb_lengths(44100, false), COMB_TUNING.to_vec());
    let right: Vec<usize> = COMB_TUNING.iter().map(|b| b + 23).collect();
    assert_eq!(comb_lengths(44100, true), right);
}

#[test]
fn comb_lengths_scale_to_48k() {
    assert_eq!(
        comb_lengths(48000, false),
        vec![1215, 1293, 1390, 1476, 1548, 1623, 1695, 1760]
    );
}

#[test]
fn allpass_lengths_right_channel_at_96k() {
    assert_eq!(allpass_lengths(96000, true), vec![1260, 1010, 792, 540]);
    assert_eq!(allpass_lengths(44100, false), ALLPASS_TUNING.to_vec());
}

#[test]
fn scale_delays_adds_spread_before_scaling() {
    assert_eq!(scale_delays(&[100, 200], 0, 88200), vec![200, 400]);
    assert_eq!(scale_delays(&[100, 200], 10, 88200), vec![220, 420]);
    assert!(scale_delays(&[], 5, 48000).is_empty());
}

#[test]
fn dattorro_layout_at_base_rate_is_the_tables() {
    let l = DattorroLayout::new(44100);
    assert_eq!(l.max_predelay, 8821);
    assert_eq!(l.input_diffusion, INPUT_DIFFUSION_LENGTHS.to_vec());
    assert_eq!(l.left_tank, LEFT_TANK_LENGTHS.to_vec());
    assert_eq!(l.right_tank, RIGHT_TANK_LENGTHS.to_vec());
    assert_eq!(l.left_taps, LEFT_OUTPUT_TAPS.to_vec());
    assert_eq!(l.right_taps, RIGHT_OUTPUT_TAPS.to_vec());
}

#[test]
fn dattorro_layout_scales_with_rate() {
    let l = DattorroLayout::new(48000);
    assert_eq!(l.max_predelay, 9601);
    assert_eq!(l.input_diffusion, vec![155, 116, 413, 301]);
    assert_eq!(l.left_tank, vec![731, 4847, 1959, 4049]);
    let r = DattorroLayout::new(96000);
    assert_eq!(r.right_taps, vec![768, 7896, 2673, 4595, 5819, 729, 263]);
}

#[test]
fn delay_line_echoes_after_its_length() {
    let mut d: DelayLine<i32> = DelayLine::new(5, 0);
    d.process(42);
    for x in 1..5 {
        assert_eq!(d.process(x), 0);
    }
    assert_eq!(d.process(99), 42);
}

#[test]
fn input_predelay_zero_passes_input() {
    let mut p: InputPreDelay<i32> = InputPreDelay::new(8, 0);
    assert_eq!(p.delay_samples(), 0);
    for x in 1..20 {
        assert_eq!(p.process(x), x);
    }
}

#[test]
fn input_predelay_delays_exactly() {
    let mut p: InputPreDelay<i32> = InputPreDelay::new(8, 0);
    p.set_delay(3);
    assert_eq!(p.delay_samples(), 3);
    let out: Vec<i32> = (1..=8).map(|x| p.process(x)).collect();
    assert_eq!(out, vec![0, 0, 0, 1, 2, 3, 4, 5]);
    p.set_delay(100);
    assert_eq!(p.delay_samples(), 7);
    p.clear(0);
    assert_eq!(p.delay_samples(), 7);
    assert_eq!(p.process(5), 0);
}
