use moonlitt_effects::eq::biquad::FilterType;
use moonlitt_effects::eq::parametric::{BandField, EqParam, EQ_PARAM_COUNT};

#[test]
fn filter_type_index_round_trip() {
    let all = [
        FilterType::Peak,
        FilterType::LowShelf,
        FilterType::HighShelf,
        FilterType::Lowpass,
        FilterType::Highpass,
        FilterType::Notch,
    ];
    for (i, t) in all.iter().enumerate() {
        assert_eq!(t.to_index(), i as u32);
        assert_eq!(FilterType::from_index(i as u32), *t);
        assert_eq!(FilterType::from_index(t.to_index()), *t);
    }
}

#[test]
fn filter_type_out_of_range_is_peak() {
    assert_eq!(FilterType::from_index(6), FilterType::Peak);
    assert_eq!(FilterType::from_index(1000), FilterType::Peak);
}

#[test]
fn eq_param_layout() {
    assert_eq!(EqParam::from_id(0), Some(EqParam::Band { band: 0, field: BandField::Frequency }));
    assert_eq!(EqParam::from_id(5), Some(EqParam::Band { band: 1, field: BandField::Gain }));
    assert_eq!(EqParam::from_id(14), Some(EqParam::Band { band: 3, field: BandField::Q }));
    assert_eq!(EqParam::from_id(31), Some(EqParam::Band { band: 7, field: BandField::Type }));
    assert_eq!(EqParam::from_id(32), Some(EqParam::Bypass));
    assert_eq!(EqParam::from_id(33), None);
    assert_eq!(EqParam::from_id(u32::MAX), None);
}

#[test]
fn eq_param_ids_are_distinct_and_complete() {
    let mut seen = Vec::new();
    for id in 0..EQ_PARAM_COUNT {
        let p = EqParam::from_id(id).expect("every id below the count names a parameter");
        assert!(!seen.contains(&p));
        seen.push(p);
    }
    assert_eq!(seen.len(), 33);
}
