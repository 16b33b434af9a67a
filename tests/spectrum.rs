use audio_player::spectrum::{
    collect_band_levels, BandMeter, SampleWindow, SpectrumAnalyzer, LEVEL_FULL, PEAK_DECAY_STEP,
    PEAK_HOLD_FRAMES, SPECTRUM_BANDS, SPECTRUM_BUFFER_SIZE, WAVEFORM_POINTS,
};

#[test]
fn window_evicts_oldest_when_full() {
    let mut w: SampleWindow<i32> = SampleWindow::new(3);
    for x in 1..=5 {
        w.push(x);
    }
    assert_eq!(w.len(), 3);
    assert_eq!(w.to_vec(), vec![3, 4, 5]);
    assert_eq!(w.get(0), 3);
    assert_eq!(w.get(2), 5);
}

#[test]
fn window_below_capacity_keeps_all() {
    let mut w: SampleWindow<i32> = SampleWindow::new(4);
    w.push(7);
    w.push(8);
    assert_eq!(w.to_vec(), vec![7, 8]);
}

#[test]
fn waveform_slot_follows_window_length() {
    let mut a = SpectrumAnalyzer::new(44100, 0.0f32);
    assert_eq!(a.waveform().len(), WAVEFORM_POINTS);
    for _ in 0..3 {
        a.add_sample(0.0);
    }
    a.add_sample(0.5);
    // four samples in the window select slot 4 * 1024 / 4096 = 1
    assert_eq!(a.waveform()[1], 0.5);
    assert_eq!(a.waveform()[0], 0.0);
}

#[test]
fn analysis_waits_for_a_full_window() {
    let mut a = SpectrumAnalyzer::new(44100, 0.0f32);
    for _ in 0..SPECTRUM_BUFFER_SIZE - 1 {
        a.add_sample(0.25);
    }
    assert!(!a.needs_analysis());
    a.add_sample(0.25);
    assert!(a.needs_analysis());
    assert_eq!(a.window_samples().len(), SPECTRUM_BUFFER_SIZE);
    a.apply_band_levels(&vec![0; SPECTRUM_BANDS]);
    assert!(!a.needs_analysis());
    a.add_sample(0.25);
    assert!(a.needs_analysis());
    assert_eq!(a.window_len(), SPECTRUM_BUFFER_SIZE);
    assert_eq!(a.sample_rate(), 44100);
}

#[test]
fn silence_gives_zero_bands_and_peaks() {
    let mut a = SpectrumAnalyzer::new(44100, 0.0f32);
    for _ in 0..SPECTRUM_BUFFER_SIZE {
        a.add_sample(0.0);
    }
    assert!(a.needs_analysis());
    let bins = SPECTRUM_BUFFER_SIZE / 2;
    let bands: Vec<usize> = (0..bins).map(|i| i * SPECTRUM_BANDS / bins).collect();
    let levels = collect_band_levels(&bands, &vec![0; bins]);
    a.apply_band_levels(&levels);
    assert_eq!(a.display_bands(), vec![0; SPECTRUM_BANDS]);
    assert_eq!(a.peaks(), vec![0; SPECTRUM_BANDS]);
}

#[test]
fn band_takes_maximum_of_its_bins() {
    let bands = vec![0, 0, 1, 70, 63];
    let levels = vec![5, 9, 3, 100, 4];
    let r = collect_band_levels(&bands, &levels);
    assert_eq!(r.len(), SPECTRUM_BANDS);
    assert_eq!(r[0], 9);
    assert_eq!(r[1], 3);
    assert_eq!(r[63], 4);
    assert_eq!(r[2], 0);
}

#[test]
fn smoothing_is_seventy_thirty() {
    let m = BandMeter::silent().step(LEVEL_FULL);
    assert_eq!(m.level, 300_000);
    assert_eq!(m.peak, 300_000);
    assert_eq!(m.hold, PEAK_HOLD_FRAMES);
    let m = m.step(LEVEL_FULL);
    assert_eq!(m.level, 510_000);
}

#[test]
fn band_value_above_full_scale_is_smoothed_then_capped() {
    let m = BandMeter::silent().step(1_500_000);
    assert_eq!(m.level, 450_000);
    assert_eq!(m.peak, 450_000);
    let m = m.step(1_750_000);
    assert_eq!(m.level, 840_000);
    let m = m.step(1_750_000);
    assert_eq!(m.level, LEVEL_FULL);
}

#[test]
fn levels_are_capped_at_full_scale() {
    let mut m = BandMeter::silent();
    for _ in 0..200 {
        m = m.step(u32::MAX);
        assert!(m.level <= LEVEL_FULL);
        assert!(m.peak <= LEVEL_FULL);
        assert!(m.level <= m.peak);
    }
    assert_eq!(m.level, LEVEL_FULL);
    assert_eq!(m.step(u32::MAX).level, LEVEL_FULL);
}

#[test]
fn peak_is_held_then_decays() {
    let m = BandMeter::silent().step(LEVEL_FULL);
    let peak = m.peak;
    let mut m = m;
    for _ in 0..PEAK_HOLD_FRAMES {
        m = m.step(0);
        assert_eq!(m.peak, peak);
    }
    assert_eq!(m.hold, 0);
    let level_before = m.level;
    m = m.step(0);
    assert_eq!(m.level, level_before * 7 / 10);
    assert_eq!(m.peak, peak - PEAK_DECAY_STEP);
}

#[test]
fn decayed_peak_never_falls_below_level() {
    let m = BandMeter { level: 500_000, peak: 505_000, hold: 0 };
    let m = m.step(500_000);
    assert_eq!(m.level, 500_000);
    assert_eq!(m.peak, 500_000);
}

#[test]
fn analyzer_meters_follow_band_levels() {
    let mut a = SpectrumAnalyzer::new(48000, 0.0f32);
    let mut levels = vec![0; SPECTRUM_BANDS];
    levels[10] = LEVEL_FULL;
    a.apply_band_levels(&levels);
    assert_eq!(a.display_bands()[10], 300_000);
    assert_eq!(a.peaks()[10], 300_000);
    assert_eq!(a.display_bands()[11], 0);
}
