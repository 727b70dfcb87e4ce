use moonlitt_effects::distortion::bitcrusher::{
    clamp_bit_depth, quantization_levels, Xorshift64, FALLBACK_SEED,
};
use moonlitt_effects::distortion::saturator::{
    clamp_oversampling_param, os_param_to_factor, oversampling_label, SaturationMode,
};
use moonlitt_effects::modulation::lfo::xorshift64;

#[test]
fn bitcrusher_rng_sequence() {
    let mut g = Xorshift64::new(0xDEAD_BEEF_CAFE_BABE);
    let a = g.next_u64();
    let b = g.next_u64();
    assert_eq!(a, xorshift64(0xDEAD_BEEF_CAFE_BABE));
    assert_eq!(b, xorshift64(a));
    assert_ne!(a, 0xDEAD_BEEF_CAFE_BABE);
}

#[test]
fn bitcrusher_rng_zero_seed_uses_fallback() {
    let mut g = Xorshift64::new(0);
    assert_eq!(g.next_u64(), xorshift64(FALLBACK_SEED));
}

#[test]
fn bit_depth_and_levels() {
    assert_eq!(clamp_bit_depth(0), 1);
    assert_eq!(clamp_bit_depth(8), 8);
    assert_eq!(clamp_bit_depth(99), 24);
    assert_eq!(quantization_levels(1), 1);
    assert_eq!(quantization_levels(8), 128);
    assert_eq!(quantization_levels(16), 32768);
    assert_eq!(quantization_levels(24), 8_388_608);
}

#[test]
fn saturation_modes() {
    let all = [
        SaturationMode::Tube,
        SaturationMode::Tape,
        SaturationMode::Transistor,
        SaturationMode::Diode,
        SaturationMode::Fuzz,
    ];
    let names = ["Tube", "Tape", "Transistor", "Diode", "Fuzz"];
    for (i, m) in all.iter().enumerate() {
        assert_eq!(m.to_index(), i as u32);
        assert_eq!(SaturationMode::from_rounded(i as i32), *m);
        assert_eq!(m.name(), names[i]);
    }
    assert_eq!(SaturationMode::from_rounded(-1), SaturationMode::Tube);
    assert_eq!(SaturationMode::from_rounded(5), SaturationMode::Tube);
}

#[test]
fn oversampling_param() {
    assert_eq!(os_param_to_factor(0), 1);
    assert_eq!(os_param_to_factor(1), 2);
    assert_eq!(os_param_to_factor(2), 4);
    assert_eq!(os_param_to_factor(3), 2);
    assert_eq!(oversampling_label(0), "1x");
    assert_eq!(oversampling_label(2), "4x");
    assert_eq!(oversampling_label(7), "2x");
    assert_eq!(clamp_oversampling_param(1), 1);
    assert_eq!(clamp_oversampling_param(5), 2);
}
