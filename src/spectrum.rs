//! Spectrum analyzer bookkeeping: the sliding window of raw samples, the
//! oscilloscope trace, the per-band aggregation of spectrum bins, temporal
//! smoothing and peak hold.
//!
//! Intensities are whole fractions of full scale: `LEVEL_FULL` is 1.0. The
//! transform itself, and the conversion of each bin to a level and a band,
//! are done by the caller on floating-point values.
use vstd::prelude::*;

verus! {

/// Samples in one analysis window (a power of two).
pub const SPECTRUM_BUFFER_SIZE: usize = 4096;

/// Display bands.
pub const SPECTRUM_BANDS: usize = 64;

/// Points in the oscilloscope trace.
pub const WAVEFORM_POINTS: usize = 1024;

/// The level that stands for full scale (1.0).
pub const LEVEL_FULL: u32 = 1000000;

/// Analysis calls for which a fresh peak is held before it starts to fall.
pub const PEAK_HOLD_FRAMES: u8 = 30;

/// How far a peak falls per analysis call once its hold has run out (0.01).
pub const PEAK_DECAY_STEP: u32 = 10000;

/// `w` after `x` is pushed into a window of `capacity` samples: the oldest
/// sample leaves once the window is full.
pub open spec fn window_after<S>(w: Seq<S>, capacity: nat, x: S) -> Seq<S> {
    if w.len() < capacity {
        w.push(x)
    } else {
        w.push(x).drop_first()
    }
}

/// A bounded first-in first-out window of samples, kept in a ring.
pub struct SampleWindow<S> {
    buf: Vec<S>,
    head: usize,
    capacity: usize,
}

impl<S: Copy> SampleWindow<S> {
    /// The samples, oldest first.
    pub closed spec fn view(&self) -> Seq<S> {
        if self.buf@.len() < self.capacity {
            self.buf@
        } else {
            self.buf@.subrange(self.head as int, self.capacity as int) + self.buf@.subrange(
                0,
                self.head as int,
            )
        }
    }

    /// The most samples the window holds.
    pub closed spec fn capacity_spec(&self) -> nat {
        self.capacity as nat
    }

    /// Ring position and fill are consistent.
    pub closed spec fn well_formed(&self) -> bool {
        &&& 0 < self.capacity
        &&& self.buf@.len() <= self.capacity
        &&& self.head < self.capacity
        &&& self.buf@.len() < self.capacity ==> self.head == 0
    }

    /// An empty window of `capacity` samples.
    pub fn new(capacity: usize) -> (r: Self)
        requires
            capacity > 0,
        ensures
            r.well_formed(),
            r.view() == Seq::<S>::empty(),
            r.capacity_spec() == capacity,
    {
        SampleWindow { buf: Vec::new(), head: 0, capacity }
    }

    /// Appends `x`, evicting the oldest sample when full.
    pub fn push(&mut self, x: S)
        requires
            old(self).well_formed(),
        ensures
            final(self).well_formed(),
            final(self).capacity_spec() == old(self).capacity_spec(),
            final(self).view() == window_after(old(self).view(), old(self).capacity_spec(), x),
    {
        let ghost w = self.view();
        if self.buf.len() < self.capacity {
            self.buf.push(x);
            assert(self.buf@.len() < self.capacity ==> self.view() == w.push(x));
            assert(self.buf@.len() == self.capacity ==> self.view() =~= w.push(x)) by {
                if self.buf@.len() == self.capacity {
                    assert(self.buf@.subrange(0, self.capacity as int) =~= self.buf@);
                }
            }
        } else {
            let ghost b = self.buf@;
            let h = self.head;
            self.buf.set(h, x);
            if h + 1 < self.capacity {
                self.head = h + 1;
            } else {
                self.head = 0;
            }
            let ghost c = self.capacity as int;
            assert(w =~= b.subrange(h as int, c) + b.subrange(0, h as int));
            if h + 1 < self.capacity {
                assert(self.view() =~= w.push(x).drop_first());
            } else {
                assert(self.buf@.subrange(0, c) =~= self.buf@);
                assert(self.view() =~= w.push(x).drop_first());
            }
        }
    }

    /// Number of samples held.
    pub fn len(&self) -> (r: usize)
        requires
            self.well_formed(),
        ensures
            r == self.view().len(),
    {
        self.buf.len()
    }

    /// The `i`-th sample, oldest first.
    pub fn get(&self, i: usize) -> (r: S)
        requires
            self.well_formed(),
            i < self.view().len(),
        ensures
            r == self.view()[i as int],
    {
        let n = self.buf.len();
        let j = if i < n - self.head {
            self.head + i
        } else {
            i - (n - self.head)
        };
        self.buf[j]
    }

    /// All samples, oldest first.
    pub fn to_vec(&self) -> (r: Vec<S>)
        requires
            self.well_formed(),
        ensures
            r@ == self.view(),
    {
        let n = self.buf.len();
        let mut r: Vec<S> = Vec::new();
        let mut i: usize = 0;
        while i < n
            invariant
                self.well_formed(),
                n == self.view().len(),
                i <= n,
                r@ == self.view().subrange(0, i as int),
            decreases n - i,
        {
            r.push(self.get(i));
            i = i + 1;
            assert(r@ =~= self.view().subrange(0, i as int));
        }
        assert(r@ =~= self.view());
        r
    }
}

/// The smoothed level, the held peak and the frames left in the hold of one
/// display band.
#[derive(Clone, Copy, Debug, PartialEq, Eq, Structural)]
pub struct BandMeter {
    pub level: u32,
    pub peak: u32,
    pub hold: u8,
}

/// The new smoothed level: 70% of the old one and 30% of the new value,
/// the result capped at full scale.
pub open spec fn smoothed(level: u32, input: u32) -> u32 {
    let mixed: int = (level as int * 7 + input as int * 3) / 10;
    if mixed > LEVEL_FULL {
        LEVEL_FULL
    } else {
        mixed as u32
    }
}

/// One analysis call on one band: smooth, then raise the peak and restart
/// its hold if the level passed it, else count the hold down, else let the
/// peak fall by one step but never below the level.
pub open spec fn meter_step(m: BandMeter, input: u32) -> BandMeter {
    let level = smoothed(m.level, input);
    if level > m.peak {
        BandMeter { level, peak: level, hold: PEAK_HOLD_FRAMES }
    } else if m.hold > 0 {
        BandMeter { level, peak: m.peak, hold: (m.hold - 1) as u8 }
    } else {
        let fallen: int = if m.peak >= PEAK_DECAY_STEP {
            m.peak - PEAK_DECAY_STEP
        } else {
            0
        };
        BandMeter { level, peak: if fallen >= level { fallen as u32 } else { level }, hold: 0 }
    }
}

/// The meter after one analysis call per input, in order.
pub open spec fn run_meter(m: BandMeter, inputs: Seq<u32>) -> BandMeter
    decreases inputs.len(),
{
    if inputs.len() == 0 {
        m
    } else {
        meter_step(run_meter(m, inputs.drop_last()), inputs.last())
    }
}

/// Level and peak within full scale, the peak at or above the level, and
/// the hold no longer than `PEAK_HOLD_FRAMES`.
pub open spec fn meter_valid(m: BandMeter) -> bool {
    &&& m.level <= LEVEL_FULL
    &&& m.peak <= LEVEL_FULL
    &&& m.level <= m.peak
    &&& m.hold <= PEAK_HOLD_FRAMES
}

impl BandMeter {
    /// A silent meter.
    pub fn silent() -> (r: Self)
        ensures
            r == (BandMeter { level: 0, peak: 0, hold: 0 }),
    {
        BandMeter { level: 0, peak: 0, hold: 0 }
    }

    /// The meter after one analysis call that measured `input`.
    pub fn step(self, input: u32) -> (r: Self)
        requires
            meter_valid(self),
        ensures
            r == meter_step(self, input),
            meter_valid(r),
    {
        let mixed: u64 = (self.level as u64 * 7 + input as u64 * 3) / 10;
        let level: u32 = if mixed > LEVEL_FULL as u64 {
            LEVEL_FULL
        } else {
            mixed as u32
        };
        if level > self.peak {
            BandMeter { level, peak: level, hold: PEAK_HOLD_FRAMES }
        } else if self.hold > 0 {
            BandMeter { level, peak: self.peak, hold: self.hold - 1 }
        } else {
            let fallen: u32 = if self.peak >= PEAK_DECAY_STEP {
                self.peak - PEAK_DECAY_STEP
            } else {
                0
            };
            BandMeter { level, peak: if fallen >= level { fallen } else { level }, hold: 0 }
        }
    }
}

/// Levels and peaks never leave full scale, whatever is measured.
pub proof fn lemma_meter_valid(m: BandMeter, input: u32)
    requires
        meter_valid(m),
    ensures
        meter_valid(meter_step(m, input)),
{
}

/// Once a band's level passes its peak, the peak does not fall during the
/// next `PEAK_HOLD_FRAMES` analysis calls, whatever they measure (silence
/// included).
pub proof fn lemma_peak_hold(m: BandMeter, input: u32, later: Seq<u32>)
    requires
        smoothed(m.level, input) > m.peak,
        later.len() <= PEAK_HOLD_FRAMES,
    ensures
        meter_step(m, input).hold == PEAK_HOLD_FRAMES,
        meter_step(m, input).peak == smoothed(m.level, input),
        run_meter(meter_step(m, input), later).peak >= meter_step(m, input).peak,
{
    lemma_peak_held(meter_step(m, input), later);
}

/// Within the hold, the peak never falls and the hold counts down by at most
/// one per call.
proof fn lemma_peak_held(m: BandMeter, later: Seq<u32>)
    requires
        later.len() <= m.hold,
        m.hold <= PEAK_HOLD_FRAMES,
    ensures
        run_meter(m, later).peak >= m.peak,
        run_meter(m, later).hold >= m.hold - later.len(),
    decreases later.len(),
{
    if later.len() > 0 {
        lemma_peak_held(m, later.drop_last());
    }
}

/// The largest level among the first `n` bins that map to band `b`; 0 when
/// none does.
pub open spec fn band_peak(bands: Seq<usize>, levels: Seq<u32>, b: int, n: int) -> u32
    decreases n,
{
    if n <= 0 {
        0
    } else {
        let prev = band_peak(bands, levels, b, n - 1);
        if bands[n - 1] as int == b && levels[n - 1] > prev {
            levels[n - 1]
        } else {
            prev
        }
    }
}

/// Aggregates spectrum bins into display bands: bin `i` has level
/// `bin_levels[i]` and falls in band `bin_bands[i]`, and each band takes the
/// maximum of its bins (not their average). Bins whose band is out of range
/// are ignored.
pub fn collect_band_levels(bin_bands: &Vec<usize>, bin_levels: &Vec<u32>) -> (r: Vec<u32>)
    requires
        bin_bands@.len() == bin_levels@.len(),
    ensures
        r@.len() == SPECTRUM_BANDS,
        forall|b: int|
            0 <= b < SPECTRUM_BANDS ==> #[trigger] r@[b] == band_peak(
                bin_bands@,
                bin_levels@,
                b,
                bin_bands@.len() as int,
            ),
{
    let mut r: Vec<u32> = vec![0u32; SPECTRUM_BANDS];
    let n = bin_bands.len();
    let mut i: usize = 0;
    while i < n
        invariant
            n == bin_bands@.len(),
            n == bin_levels@.len(),
            i <= n,
            r@.len() == SPECTRUM_BANDS,
            forall|b: int|
                0 <= b < SPECTRUM_BANDS ==> #[trigger] r@[b] == band_peak(
                    bin_bands@,
                    bin_levels@,
                    b,
                    i as int,
                ),
        decreases n - i,
    {
        let b = bin_bands[i];
        if b < SPECTRUM_BANDS && bin_levels[i] > r[b] {
            r.set(b, bin_levels[i]);
        }
        i = i + 1;
        assert forall|c: int| 0 <= c < SPECTRUM_BANDS implies #[trigger] r@[c] == band_peak(
            bin_bands@,
            bin_levels@,
            c,
            i as int,
        ) by {
            assert(band_peak(bin_bands@, bin_levels@, c, i as int) == {
                let prev = band_peak(bin_bands@, bin_levels@, c, i - 1);
                if bin_bands@[i - 1] as int == c && bin_levels@[i - 1] > prev {
                    bin_levels@[i - 1]
                } else {
                    prev
                }
            });
        }
    }
    r
}

/// Oscilloscope position written when the window holds `n` samples.
pub open spec fn waveform_slot(n: nat) -> int {
    (n * WAVEFORM_POINTS as nat / SPECTRUM_BUFFER_SIZE as nat) as int % WAVEFORM_POINTS as int
}

/// The analyzer of one playback session.
pub struct SpectrumAnalyzer<S> {
    window: SampleWindow<S>,
    waveform: Vec<S>,
    meters: Vec<BandMeter>,
    sample_rate: u32,
    dirty: bool,
}

impl<S: Copy> SpectrumAnalyzer<S> {
    /// Raw samples, oldest first.
    pub closed spec fn window_spec(&self) -> Seq<S> {
        self.window.view()
    }

    /// The oscilloscope trace.
    pub closed spec fn waveform_spec(&self) -> Seq<S> {
        self.waveform@
    }

    /// One meter per display band, lowest frequency first.
    pub closed spec fn meters_spec(&self) -> Seq<BandMeter> {
        self.meters@
    }

    /// Sample rate of the analyzed stream, in hertz.
    pub closed spec fn sample_rate_spec(&self) -> u32 {
        self.sample_rate
    }

    /// Whether samples arrived since the last analysis.
    pub closed spec fn dirty_spec(&self) -> bool {
        self.dirty
    }

    /// Sizes as configured, every meter within full scale.
    pub closed spec fn well_formed(&self) -> bool {
        &&& self.window.well_formed()
        &&& self.window.capacity_spec() == SPECTRUM_BUFFER_SIZE
        &&& self.waveform@.len() == WAVEFORM_POINTS
        &&& self.meters@.len() == SPECTRUM_BANDS
        &&& forall|b: int| 0 <= b < SPECTRUM_BANDS ==> meter_valid(#[trigger] self.meters@[b])
    }

    /// An empty window, a trace of `silence`, all meters at zero.
    pub fn new(sample_rate: u32, silence: S) -> (r: Self)
        ensures
            r.well_formed(),
            r.window_spec() == Seq::<S>::empty(),
            r.waveform_spec() == Seq::new(WAVEFORM_POINTS as nat, |i: int| silence),
            r.meters_spec() == Seq::new(
                SPECTRUM_BANDS as nat,
                |i: int| BandMeter { level: 0, peak: 0, hold: 0 },
            ),
            r.sample_rate_spec() == sample_rate,
            r.dirty_spec(),
    {
        let mut waveform: Vec<S> = Vec::new();
        let mut i: usize = 0;
        while i < WAVEFORM_POINTS
            invariant
                i <= WAVEFORM_POINTS,
                waveform@ == Seq::new(i as nat, |k: int| silence),
            decreases WAVEFORM_POINTS - i,
        {
            waveform.push(silence);
            i = i + 1;
            assert(waveform@ =~= Seq::new(i as nat, |k: int| silence));
        }
        let mut meters: Vec<BandMeter> = Vec::new();
        let mut j: usize = 0;
        while j < SPECTRUM_BANDS
            invariant
                j <= SPECTRUM_BANDS,
                meters@ == Seq::new(j as nat, |k: int| BandMeter { level: 0, peak: 0, hold: 0 }),
            decreases SPECTRUM_BANDS - j,
        {
            meters.push(BandMeter::silent());
            j = j + 1;
            assert(meters@ =~= Seq::new(
                j as nat,
                |k: int| BandMeter { level: 0, peak: 0, hold: 0 },
            ));
        }
        SpectrumAnalyzer {
            window: SampleWindow::new(SPECTRUM_BUFFER_SIZE),
            waveform,
            meters,
            sample_rate,
            dirty: true,
        }
    }

    /// Takes in one raw sample: it enters the window (the oldest leaving when
    /// full) and is drawn into the trace at the slot that the window's new
    /// length selects.
    pub fn add_sample(&mut self, x: S)
        requires
            old(self).well_formed(),
        ensures
            final(self).well_formed(),
            final(self).window_spec() == window_after(
                old(self).window_spec(),
                SPECTRUM_BUFFER_SIZE as nat,
                x,
            ),
            final(self).waveform_spec() == old(self).waveform_spec().update(
                waveform_slot(final(self).window_spec().len()),
                x,
            ),
            final(self).meters_spec() == old(self).meters_spec(),
            final(self).sample_rate_spec() == old(self).sample_rate_spec(),
            final(self).dirty_spec(),
    {
        self.window.push(x);
        self.dirty = true;
        let n = self.window.len();
        let slot = (n * WAVEFORM_POINTS / SPECTRUM_BUFFER_SIZE) % WAVEFORM_POINTS;
        self.waveform.set(slot, x);
    }

    /// Whether `analyze` would do anything: samples arrived since the last
    /// analysis and the window is full.
    pub fn needs_analysis(&self) -> (r: bool)
        requires
            self.well_formed(),
        ensures
            r == (self.dirty_spec() && self.window_spec().len() == SPECTRUM_BUFFER_SIZE),
    {
        self.dirty && self.window.len() == SPECTRUM_BUFFER_SIZE
    }

    /// The window's samples, oldest first, for the transform.
    pub fn window_samples(&self) -> (r: Vec<S>)
        requires
            self.well_formed(),
        ensures
            r@ == self.window_spec(),
    {
        self.window.to_vec()
    }

    /// Feeds one analysis result, one level per band, into the meters and
    /// clears the dirty mark.
    pub fn apply_band_levels(&mut self, band_levels: &Vec<u32>)
        requires
            old(self).well_formed(),
            band_levels@.len() == SPECTRUM_BANDS,
        ensures
            final(self).well_formed(),
            final(self).meters_spec().len() == SPECTRUM_BANDS,
            forall|b: int|
                0 <= b < SPECTRUM_BANDS ==> #[trigger] final(self).meters_spec()[b] == meter_step(
                    old(self).meters_spec()[b],
                    band_levels@[b],
                ),
            final(self).window_spec() == old(self).window_spec(),
            final(self).waveform_spec() == old(self).waveform_spec(),
            final(self).sample_rate_spec() == old(self).sample_rate_spec(),
            !final(self).dirty_spec(),
    {
        let ghost before = self.meters@;
        let ghost samples = self.window.view();
        let ghost trace = self.waveform@;
        let mut b: usize = 0;
        while b < SPECTRUM_BANDS
            invariant
                b <= SPECTRUM_BANDS,
                band_levels@.len() == SPECTRUM_BANDS,
                self.meters@.len() == SPECTRUM_BANDS,
                before.len() == SPECTRUM_BANDS,
                forall|c: int| 0 <= c < SPECTRUM_BANDS ==> meter_valid(#[trigger] before[c]),
                forall|c: int|
                    0 <= c < b ==> #[trigger] self.meters@[c] == meter_step(
                        before[c],
                        band_levels@[c],
                    ),
                forall|c: int| b <= c < SPECTRUM_BANDS ==> #[trigger] self.meters@[c] == before[c],
                forall|c: int|
                    0 <= c < SPECTRUM_BANDS ==> meter_valid(#[trigger] self.meters@[c]),
                self.window.well_formed(),
                self.window.capacity_spec() == SPECTRUM_BUFFER_SIZE,
                self.waveform@.len() == WAVEFORM_POINTS,
                self.window.view() == samples,
                self.waveform@ == trace,
                self.sample_rate == old(self).sample_rate,
            decreases SPECTRUM_BANDS - b,
        {
            let m = self.meters[b].step(band_levels[b]);
            self.meters.set(b, m);
            b = b + 1;
        }
        self.dirty = false;
    }

    /// Smoothed level of each band, lowest frequency first.
    pub fn display_bands(&self) -> (r: Vec<u32>)
        requires
            self.well_formed(),
        ensures
            r@.len() == SPECTRUM_BANDS,
            forall|b: int| 0 <= b < SPECTRUM_BANDS ==> #[trigger] r@[b] == self.meters_spec()[b].level,
    {
        let mut r: Vec<u32> = Vec::new();
        let mut b: usize = 0;
        while b < SPECTRUM_BANDS
            invariant
                self.well_formed(),
                b <= SPECTRUM_BANDS,
                r@.len() == b,
                forall|c: int| 0 <= c < b ==> #[trigger] r@[c] == self.meters_spec()[c].level,
            decreases SPECTRUM_BANDS - b,
        {
            r.push(self.meters[b].level);
            b = b + 1;
        }
        r
    }

    /// Held peak of each band, lowest frequency first.
    pub fn peaks(&self) -> (r: Vec<u32>)
        requires
            self.well_formed(),
        ensures
            r@.len() == SPECTRUM_BANDS,
            forall|b: int| 0 <= b < SPECTRUM_BANDS ==> #[trigger] r@[b] == self.meters_spec()[b].peak,
    {
        let mut r: Vec<u32> = Vec::new();
        let mut b: usize = 0;
        while b < SPECTRUM_BANDS
            invariant
                self.well_formed(),
                b <= SPECTRUM_BANDS,
                r@.len() == b,
                forall|c: int| 0 <= c < b ==> #[trigger] r@[c] == self.meters_spec()[c].peak,
            decreases SPECTRUM_BANDS - b,
        {
            r.push(self.meters[b].peak);
            b = b + 1;
        }
        r
    }

    /// The oscilloscope trace.
    pub fn waveform(&self) -> (r: Vec<S>)
        ensures
            r@ == self.waveform_spec(),
    {
        let mut r: Vec<S> = Vec::new();
        let mut i: usize = 0;
        while i < self.waveform.len()
            invariant
                i <= self.waveform@.len(),
                r@ == self.waveform@.subrange(0, i as int),
            decreases self.waveform@.len() - i,
        {
            r.push(self.waveform[i]);
            i = i + 1;
            assert(r@ =~= self.waveform@.subrange(0, i as int));
        }
        assert(r@ =~= self.waveform@);
        r
    }

    /// Sample rate of the analyzed stream, in hertz.
    pub fn sample_rate(&self) -> (r: u32)
        ensures
            r == self.sample_rate_spec(),
    {
        self.sample_rate
    }

    /// Number of samples in the window.
    pub fn window_len(&self) -> (r: usize)
        requires
            self.well_formed(),
        ensures
            r == self.window_spec().len(),
            r <= SPECTRUM_BUFFER_SIZE,
    {
        self.window.len()
    }
}

/// What every analyzer keeps: at most `SPECTRUM_BUFFER_SIZE` samples in
/// the window, `WAVEFORM_POINTS` points in the trace, and one valid meter
/// per display band.
pub proof fn lemma_analyzer_shape<S: Copy>(a: SpectrumAnalyzer<S>)
    requires
        a.well_formed(),
    ensures
        a.window_spec().len() <= SPECTRUM_BUFFER_SIZE,
        a.waveform_spec().len() == WAVEFORM_POINTS,
        a.meters_spec().len() == SPECTRUM_BANDS,
        forall|b: int| 0 <= b < SPECTRUM_BANDS ==> meter_valid(#[trigger] a.meters_spec()[b]),
{
}

/// Every displayed level and peak lies within full scale, whatever the
/// analyzer was fed.
pub proof fn lemma_magnitude_bound<S: Copy>(a: SpectrumAnalyzer<S>)
    requires
        a.well_formed(),
    ensures
        a.meters_spec().len() == SPECTRUM_BANDS,
        forall|b: int|
            0 <= b < SPECTRUM_BANDS ==> #[trigger] a.meters_spec()[b].level <= LEVEL_FULL
                && a.meters_spec()[b].peak <= LEVEL_FULL,
{
    assert forall|b: int| 0 <= b < SPECTRUM_BANDS implies #[trigger] a.meters_spec()[b].level
        <= LEVEL_FULL && a.meters_spec()[b].peak <= LEVEL_FULL by {
        assert(meter_valid(a.meters@[b]));
    }
}

} // verus!
