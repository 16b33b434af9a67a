use audio_player::channel::{ConfigChannel, StreamTracker};
use audio_player::equalizer::{EqualizerPreset, EqualizerSettings};

#[test]
fn publish_bumps_version_and_replaces_settings() {
    let mut ch = ConfigChannel::new(EqualizerSettings::new());
    assert_eq!(ch.version(), 0);
    let mut rock = EqualizerSettings::new();
    rock.set_preset(EqualizerPreset::Rock);
    rock.apply_preset();
    ch.publish(rock);
    assert_eq!(ch.version(), 1);
    let (seen, version) = ch.snapshot();
    assert_eq!(version, 1);
    assert_eq!(seen.preset(), EqualizerPreset::Rock);
    assert_eq!(seen.gain(0), 200);
}

#[test]
fn last_publication_wins() {
    let mut ch = ConfigChannel::new(EqualizerSettings::new());
    let mut a = EqualizerSettings::new();
    a.set_band_gain(0, 300);
    let mut b = EqualizerSettings::new();
    b.set_band_gain(0, -300);
    ch.publish(a);
    ch.publish(b);
    let (seen, version) = ch.snapshot();
    assert_eq!(version, 2);
    assert_eq!(seen.gain(0), -300);
}

#[test]
fn pull_after_publish_rebuilds_once() {
    let mut ch = ConfigChannel::new(EqualizerSettings::new());
    let mut t = StreamTracker::new(ch.version());
    assert!(!t.begin_pull(ch.version()));
    ch.publish(EqualizerSettings::new());
    assert!(t.begin_pull(ch.version()));
    assert_eq!(t.built_from(), 1);
    assert!(!t.begin_pull(ch.version()));
}

#[test]
fn burst_of_edits_coalesces_into_one_rebuild() {
    let mut ch = ConfigChannel::new(EqualizerSettings::new());
    let mut t = StreamTracker::new(ch.version());
    for g in 1..5 {
        let mut s = EqualizerSettings::new();
        s.set_band_gain(2, g * 100);
        ch.publish(s);
    }
    assert!(t.begin_pull(ch.version()));
    assert_eq!(t.built_from(), 4);
    assert!(!t.begin_pull(ch.version()));
}

#[test]
fn exhaustion_passes_exactly_the_upstream_samples() {
    let upstream: Vec<Option<f32>> = vec![Some(0.1), Some(-0.2), Some(0.3), None];
    let mut t = StreamTracker::new(0);
    let mut out = Vec::new();
    for item in upstream.iter() {
        t.begin_pull(0);
        if t.end_pull(item.is_some()) {
            out.push(item.unwrap());
        } else {
            break;
        }
    }
    assert_eq!(out, vec![0.1, -0.2, 0.3]);
    assert_eq!(t.delivered(), 3);
    assert!(!t.end_pull(false));
    assert_eq!(t.delivered(), 3);
}
