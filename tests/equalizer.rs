use audio_player::equalizer::{
    center_frequency_millihertz, EqualizerPreset, EqualizerSettings, BAND_COUNT,
};

fn applied(preset: EqualizerPreset) -> Vec<i32> {
    let mut s = EqualizerSettings::new();
    s.set_preset(preset);
    s.apply_preset();
    s.gains_vec()
}

#[test]
fn new_settings_are_flat() {
    let s = EqualizerSettings::new();
    assert_eq!(s.preset(), EqualizerPreset::Flat);
    assert_eq!(s.gains_vec(), vec![0; 10]);
}

#[test]
fn rock_preset_sets_exact_table() {
    assert_eq!(
        applied(EqualizerPreset::Rock),
        vec![200, 150, 100, 0, -100, -100, 0, 100, 150, 200]
    );
}

#[test]
fn every_named_preset_table() {
    assert_eq!(applied(EqualizerPreset::Flat), vec![0; 10]);
    assert_eq!(
        applied(EqualizerPreset::Classical),
        vec![-200, -100, 0, 100, 200, 200, 100, 0, -100, -200]
    );
    assert_eq!(
        applied(EqualizerPreset::HipHop),
        vec![300, 200, 0, -100, -200, -200, -100, 0, 200, 300]
    );
    assert_eq!(
        applied(EqualizerPreset::Pop),
        vec![100, 150, 200, 250, 300, 300, 250, 200, 150, 100]
    );
    assert_eq!(
        applied(EqualizerPreset::HeavyMetal),
        vec![400, 300, 200, 100, 0, 0, 100, 200, 300, 400]
    );
    assert_eq!(
        applied(EqualizerPreset::Folk),
        vec![0, 50, 100, 150, 200, 200, 150, 100, 50, 0]
    );
}

#[test]
fn custom_preset_keeps_hand_edits() {
    let mut s = EqualizerSettings::new();
    s.set_preset(EqualizerPreset::Pop);
    s.apply_preset();
    s.set_preset(EqualizerPreset::Custom);
    s.set_band_gain(3, -750);
    s.apply_preset();
    assert_eq!(s.preset(), EqualizerPreset::Custom);
    assert_eq!(
        s.gains_vec(),
        vec![100, 150, 200, -750, 300, 300, 250, 200, 150, 100]
    );
}

#[test]
fn band_gain_edit_touches_one_band() {
    let mut s = EqualizerSettings::new();
    s.set_band_gain(9, 1000);
    assert_eq!(s.gain(9), 1000);
    assert_eq!(s.gain(8), 0);
    assert_eq!(s.preset(), EqualizerPreset::Flat);
}

#[test]
fn band_count_holds_over_edits() {
    let mut s = EqualizerSettings::new();
    let presets = [
        EqualizerPreset::Classical,
        EqualizerPreset::Custom,
        EqualizerPreset::HeavyMetal,
        EqualizerPreset::Folk,
    ];
    for (k, p) in presets.iter().enumerate() {
        s.set_preset(*p);
        s.apply_preset();
        s.set_band_gain(k, 10 * k as i32);
        assert_eq!(s.gains_vec().len(), BAND_COUNT);
    }
    let copy = s.snapshot();
    assert_eq!(copy.gains_vec(), s.gains_vec());
    assert_eq!(copy.preset(), s.preset());
}

#[test]
fn band_centers_double_from_31_hz() {
    assert_eq!(center_frequency_millihertz(0), 31_250);
    assert_eq!(center_frequency_millihertz(5), 1_000_000);
    assert_eq!(center_frequency_millihertz(9), 16_000_000);
}
