//! Ten-band equalizer settings.
//!
//! Gains are held as whole hundredths of a decibel, so `150` is +1.5 dB.
use vstd::prelude::*;

verus! {

/// Number of equalizer bands.
pub const BAND_COUNT: usize = 10;

/// Gain steps in one decibel.
pub const STEPS_PER_DB: i32 = 100;

/// Center frequency of each band, in millihertz: 31.25 Hz doubling up to
/// 16 kHz.
pub open spec fn center_table() -> Seq<u32> {
    seq![31250u32, 62500, 125000, 250000, 500000, 1000000, 2000000, 4000000, 8000000, 16000000]
}

/// Center frequency of band `band`, in millihertz.
pub fn center_frequency_millihertz(band: usize) -> (r: u32)
    requires
        band < BAND_COUNT,
    ensures
        r == center_table()[band as int],
{
    match band {
        0 => 31250,
        1 => 62500,
        2 => 125000,
        3 => 250000,
        4 => 500000,
        5 => 1000000,
        6 => 2000000,
        7 => 4000000,
        8 => 8000000,
        _ => 16000000,
    }
}

/// The named equalization curves, and `Custom` for hand-edited gains.
#[derive(Clone, Copy, Debug, PartialEq, Eq, Structural)]
pub enum EqualizerPreset {
    Flat,
    Classical,
    HipHop,
    Pop,
    Rock,
    HeavyMetal,
    Folk,
    Custom,
}

/// The fixed gain table of a named preset, in hundredths of a decibel;
/// `None` for `Custom`, which keeps whatever gains are set.
pub open spec fn preset_table(p: EqualizerPreset) -> Option<Seq<i32>> {
    match p {
        EqualizerPreset::Flat => Some(seq![0i32, 0, 0, 0, 0, 0, 0, 0, 0, 0]),
        EqualizerPreset::Classical => Some(
            seq![-200i32, -100i32, 0, 100, 200, 200, 100, 0, -100i32, -200i32],
        ),
        EqualizerPreset::HipHop => Some(
            seq![300i32, 200, 0, -100i32, -200i32, -200i32, -100i32, 0, 200, 300],
        ),
        EqualizerPreset::Pop => Some(seq![100i32, 150, 200, 250, 300, 300, 250, 200, 150, 100]),
        EqualizerPreset::Rock => Some(seq![200i32, 150, 100, 0, -100i32, -100i32, 0, 100, 150, 200]),
        EqualizerPreset::HeavyMetal => Some(seq![400i32, 300, 200, 100, 0, 0, 100, 200, 300, 400]),
        EqualizerPreset::Folk => Some(seq![0i32, 50, 100, 150, 200, 200, 150, 100, 50, 0]),
        EqualizerPreset::Custom => None,
    }
}

/// The gains of a named preset as a vector.
fn table_vec(p: EqualizerPreset) -> (r: Vec<i32>)
    requires
        p != EqualizerPreset::Custom,
    ensures
        preset_table(p) == Some(r@),
{
    let r = match p {
        EqualizerPreset::Flat => vec![0i32, 0, 0, 0, 0, 0, 0, 0, 0, 0],
        EqualizerPreset::Classical => vec![-200i32, -100, 0, 100, 200, 200, 100, 0, -100, -200],
        EqualizerPreset::HipHop => vec![300i32, 200, 0, -100, -200, -200, -100, 0, 200, 300],
        EqualizerPreset::Pop => vec![100i32, 150, 200, 250, 300, 300, 250, 200, 150, 100],
        EqualizerPreset::Rock => vec![200i32, 150, 100, 0, -100, -100, 0, 100, 150, 200],
        EqualizerPreset::HeavyMetal => vec![400i32, 300, 200, 100, 0, 0, 100, 200, 300, 400],
        EqualizerPreset::Folk => vec![0i32, 50, 100, 150, 200, 200, 150, 100, 50, 0],
        EqualizerPreset::Custom => vec![],
    };
    assert(preset_table(p) == Some(r@));
    r
}

/// A preset choice with one gain per band.
pub struct EqualizerSettings {
    preset: EqualizerPreset,
    bands: Vec<i32>,
}

impl EqualizerSettings {
    /// The selected preset.
    pub closed spec fn preset_spec(&self) -> EqualizerPreset {
        self.preset
    }

    /// The gain of each band, lowest frequency first.
    pub closed spec fn gains(&self) -> Seq<i32> {
        self.bands@
    }

    /// One gain per band.
    pub closed spec fn well_formed(&self) -> bool {
        self.bands@.len() == BAND_COUNT
    }

    /// Flat preset, every gain 0 dB.
    pub fn new() -> (r: Self)
        ensures
            r.well_formed(),
            r.preset_spec() == EqualizerPreset::Flat,
            Some(r.gains()) == preset_table(EqualizerPreset::Flat),
    {
        EqualizerSettings { preset: EqualizerPreset::Flat, bands: table_vec(EqualizerPreset::Flat) }
    }

    /// Overwrites the gains with the table of the selected preset; `Custom`
    /// leaves them as they are.
    pub fn apply_preset(&mut self)
        requires
            old(self).well_formed(),
        ensures
            final(self).well_formed(),
            final(self).preset_spec() == old(self).preset_spec(),
            final(self).gains() == match preset_table(old(self).preset_spec()) {
                Some(t) => t,
                None => old(self).gains(),
            },
    {
        if self.preset != EqualizerPreset::Custom {
            self.bands = table_vec(self.preset);
        }
    }

    /// Selects a preset without touching the gains; `apply_preset` then loads
    /// its table.
    pub fn set_preset(&mut self, preset: EqualizerPreset)
        requires
            old(self).well_formed(),
        ensures
            final(self).well_formed(),
            final(self).preset_spec() == preset,
            final(self).gains() == old(self).gains(),
    {
        self.preset = preset;
    }

    /// Sets one band's gain by hand; the preset choice is kept.
    pub fn set_band_gain(&mut self, index: usize, gain: i32)
        requires
            old(self).well_formed(),
            index < BAND_COUNT,
        ensures
            final(self).well_formed(),
            final(self).preset_spec() == old(self).preset_spec(),
            final(self).gains() == old(self).gains().update(index as int, gain),
    {
        self.bands.set(index, gain);
    }

    /// The selected preset.
    pub fn preset(&self) -> (r: EqualizerPreset)
        ensures
            r == self.preset_spec(),
    {
        self.preset
    }

    /// The gain of band `index`, in hundredths of a decibel.
    pub fn gain(&self, index: usize) -> (r: i32)
        requires
            self.well_formed(),
            index < BAND_COUNT,
        ensures
            r == self.gains()[index as int],
    {
        self.bands[index]
    }

    /// All gains, lowest band first.
    pub fn gains_vec(&self) -> (r: Vec<i32>)
        ensures
            r@ == self.gains(),
    {
        self.bands.clone()
    }

    /// An independent copy of these settings.
    pub fn snapshot(&self) -> (r: Self)
        requires
            self.well_formed(),
        ensures
            r.well_formed(),
            r.preset_spec() == self.preset_spec(),
            r.gains() == self.gains(),
    {
        EqualizerSettings { preset: self.preset, bands: self.bands.clone() }
    }
}

/// Every settings value has exactly one gain per band, whatever sequence of
/// preset applications and hand edits produced it.
pub proof fn lemma_band_count(s: EqualizerSettings)
    requires
        s.well_formed(),
    ensures
        s.gains().len() == BAND_COUNT,
{
}

/// A table of a named preset has one gain per band.
pub proof fn lemma_preset_table_len(p: EqualizerPreset)
    ensures
        preset_table(p) matches Some(t) ==> t.len() == BAND_COUNT,
{
}

} // verus!
