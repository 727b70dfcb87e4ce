use moonlitt_effects::modulation::auto_filter::AutoFilterType;
use moonlitt_effects::modulation::chorus::{clamp_voice_count, MAX_VOICES};
use moonlitt_effects::modulation::phaser::{clamp_stage_count, MAX_STAGES, MIN_STAGES};
use moonlitt_effects::modulation::delay::{clamp_sync_note, note_value_label};
use moonlitt_effects::modulation::delay_line::FractionalDelayLine;
use moonlitt_effects::modulation::pitch_shifter::{
    fft_size_from_index, first_free_grain, grain_due, grain_interval, hop_size,
    phase_vocoder_latency, ring_slot, HopCounter, Xorshift64,
};

#[test]
fn note_labels() {
    assert_eq!(note_value_label(0), "1/32");
    assert_eq!(note_value_label(1), "1/16T");
    assert_eq!(note_value_label(6), "1/8.");
    assert_eq!(note_value_label(8), "1/4");
    assert_eq!(note_value_label(14), "1/1");
    assert_eq!(note_value_label(15), "2 bars");
    assert_eq!(note_value_label(16), "4 bars");
    assert_eq!(note_value_label(17), "4 bars");
    assert_eq!(note_value_label(u32::MAX), "4 bars");
}

#[test]
fn sync_note_clamp() {
    assert_eq!(clamp_sync_note(3), 3);
    assert_eq!(clamp_sync_note(16), 16);
    assert_eq!(clamp_sync_note(40), 16);
}

#[test]
fn fft_sizes() {
    assert_eq!(fft_size_from_index(0), 1024);
    assert_eq!(fft_size_from_index(1), 2048);
    assert_eq!(fft_size_from_index(2), 4096);
    assert_eq!(fft_size_from_index(7), 4096);
    assert_eq!(hop_size(2048), 512);
    assert_eq!(phase_vocoder_latency(2048), 1024);
    assert_eq!(phase_vocoder_latency(4096), 2048);
}

#[test]
fn grain_scheduling() {
    assert_eq!(grain_interval(882), 220);
    assert_eq!(grain_interval(4), 1);
    assert_eq!(grain_interval(2), 1);
    assert_eq!(first_free_grain(&[false, false, false, false]), Some(0));
    assert_eq!(first_free_grain(&[true, true, false, false]), Some(2));
    assert_eq!(first_free_grain(&[true, true, true, true]), None);
}

#[test]
fn pitch_shifter_rng_seed() {
    let mut zero = Xorshift64::new(0);
    let mut one = Xorshift64::new(1);
    assert_eq!(zero.next_u64(), one.next_u64());
    let mut g = Xorshift64::new(0xDEAD_BEEF_CAFE_BABE);
    let a = g.next_u64();
    assert_eq!(a, moonlitt_effects::modulation::lfo::xorshift64(0xDEAD_BEEF_CAFE_BABE));
    assert_ne!(a, 0);
}

#[test]
fn auto_filter_type_mapping() {
    assert_eq!(AutoFilterType::from_rounded(0), AutoFilterType::Lowpass);
    assert_eq!(AutoFilterType::from_rounded(1), AutoFilterType::Highpass);
    assert_eq!(AutoFilterType::from_rounded(2), AutoFilterType::Bandpass);
    assert_eq!(AutoFilterType::from_rounded(9), AutoFilterType::Bandpass);
    assert_eq!(AutoFilterType::Highpass.to_index(), 1);
    assert_eq!(AutoFilterType::Bandpass.label(), "BP");
}

#[test]
fn fractional_delay_whole_sample_taps() {
    // 8-point kernel, max delay 10: buffer of 19 samples
    let mut d: FractionalDelayLine<i32> = FractionalDelayLine::new(10, 8, 0);
    assert_eq!(d.max_delay_samples(), 10);
    assert_eq!(d.num_points(), 8);
    d.write(1);
    for _ in 0..5 {
        d.write(0);
    }
    // the impulse is 5 writes behind the newest sample
    let centre = 8 / 2 - 1;
    assert_eq!(d.kernel_tap(5, centre), 1);
    assert_eq!(d.kernel_tap(4, centre), 0);
    assert_eq!(d.kernel_tap(4, centre + 1), 1);
    assert_eq!(d.linear_taps(5), (1, 0));
    assert_eq!(d.linear_taps(4), (0, 1));
    d.clear(0);
    assert_eq!(d.linear_taps(4), (0, 0));
}

#[test]
fn chorus_voice_count_clamps() {
    assert_eq!(clamp_voice_count(0), 1);
    assert_eq!(clamp_voice_count(3), 3);
    assert_eq!(clamp_voice_count(4), MAX_VOICES);
    assert_eq!(clamp_voice_count(9), MAX_VOICES);
}

#[test]
fn phaser_stage_count_clamps() {
    assert_eq!(clamp_stage_count(0), MIN_STAGES);
    assert_eq!(clamp_stage_count(2), 2);
    assert_eq!(clamp_stage_count(8), 8);
    assert_eq!(clamp_stage_count(12), MAX_STAGES);
    assert_eq!(clamp_stage_count(40), MAX_STAGES);
}

#[test]
fn fractional_delay_reads_clamp_to_the_maximum() {
    let d: FractionalDelayLine<i32> = FractionalDelayLine::new(10, 8, 0);
    assert_eq!(d.clamp_delay(0), 0);
    assert_eq!(d.clamp_delay(7), 7);
    assert_eq!(d.clamp_delay(10), 10);
    assert_eq!(d.clamp_delay(11), 10);
    assert_eq!(d.clamp_delay(usize::MAX), 10);
}

#[test]
fn grains_start_every_interval() {
    assert!(grain_due(0, 441));
    assert!(!grain_due(1, 441));
    assert!(!grain_due(440, 441));
    assert!(grain_due(441, 441));
    assert!(grain_due(882, 441));
    assert!(grain_due(5, 1));
}

#[test]
fn ring_slot_wraps() {
    assert_eq!(ring_slot(0, 0, 8), 0);
    assert_eq!(ring_slot(3, 4, 8), 7);
    assert_eq!(ring_slot(5, 4, 8), 1);
    assert_eq!(ring_slot(7, 17, 8), 0);
    assert_eq!(ring_slot(usize::MAX, usize::MAX, 10), (usize::MAX % 10 * 2) % 10);
}

#[test]
fn hop_counter_fires_every_hop() {
    let mut c = HopCounter::new(4);
    let fired: Vec<bool> = (0..9).map(|_| c.tick()).collect();
    assert_eq!(fired, vec![false, false, false, true, false, false, false, true, false]);
    c.reset();
    assert!(!c.tick());
    assert!(!c.tick());
    assert!(!c.tick());
    assert!(c.tick());
}

#[test]
fn hop_counter_of_one_fires_every_sample() {
    let mut c = HopCounter::new(1);
    assert!(c.tick());
    assert!(c.tick());
}
