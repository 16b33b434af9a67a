//! The configuration cell shared between the interface and the audio thread,
//! and the audio side's decision of when to rebuild its filter bank.
//!
//! The cell itself is plain data: whoever shares it across threads guards it
//! with one short critical section per publish or snapshot.
use vstd::prelude::*;
use crate::equalizer::EqualizerSettings;

verus! {

/// The latest published settings and a counter that every publication bumps.
pub struct ConfigChannel {
    settings: EqualizerSettings,
    version: u64,
}

impl ConfigChannel {
    /// The settings most recently published.
    pub closed spec fn current(&self) -> EqualizerSettings {
        self.settings
    }

    /// How many publications have happened since creation.
    pub closed spec fn version_spec(&self) -> u64 {
        self.version
    }

    /// The channel holds well-formed settings.
    pub open spec fn well_formed(&self) -> bool {
        self.current().well_formed()
    }

    /// A channel holding `initial` at version 0.
    pub fn new(initial: EqualizerSettings) -> (r: Self)
        requires
            initial.well_formed(),
        ensures
            r.well_formed(),
            r.current() == initial,
            r.version_spec() == 0,
    {
        ConfigChannel { settings: initial, version: 0 }
    }

    /// Replaces the settings and bumps the version; the previous value is
    /// superseded whether or not anyone read it.
    pub fn publish(&mut self, settings: EqualizerSettings)
        requires
            old(self).well_formed(),
            settings.well_formed(),
            old(self).version_spec() < u64::MAX,
        ensures
            published(*old(self), settings, *final(self)),
            final(self).well_formed(),
    {
        self.settings = settings;
        self.version = self.version + 1;
    }

    /// The current version counter.
    pub fn version(&self) -> (r: u64)
        ensures
            r == self.version_spec(),
    {
        self.version
    }

    /// A copy of the whole current settings together with their version.
    pub fn snapshot(&self) -> (r: (EqualizerSettings, u64))
        requires
            self.well_formed(),
        ensures
            r.0.well_formed(),
            r.0.preset_spec() == self.current().preset_spec(),
            r.0.gains() == self.current().gains(),
            r.1 == self.version_spec(),
    {
        (self.settings.snapshot(), self.version)
    }
}

/// `after` is `before` with `settings` published.
pub open spec fn published(
    before: ConfigChannel,
    settings: EqualizerSettings,
    after: ConfigChannel,
) -> bool {
    &&& after.current() == settings
    &&& after.version_spec() == before.version_spec() + 1
}

/// The audio side's record of which configuration version its filter bank
/// was built from, and how many samples it has handed on.
pub struct StreamTracker {
    built_from: u64,
    delivered: u64,
}

impl StreamTracker {
    /// Version of the configuration the current filter bank was built from.
    pub closed spec fn built_from_spec(&self) -> u64 {
        self.built_from
    }

    /// Samples handed on so far.
    pub closed spec fn delivered_spec(&self) -> u64 {
        self.delivered
    }

    /// A tracker whose filter bank was just built from `version`.
    pub fn new(version: u64) -> (r: Self)
        ensures
            r.built_from_spec() == version,
            r.delivered_spec() == 0,
    {
        StreamTracker { built_from: version, delivered: 0 }
    }

    /// The version the current filter bank was built from.
    pub fn built_from(&self) -> (r: u64)
        ensures
            r == self.built_from_spec(),
    {
        self.built_from
    }

    /// Samples handed on so far.
    pub fn delivered(&self) -> (r: u64)
        ensures
            r == self.delivered_spec(),
    {
        self.delivered
    }

    /// Called at the start of each pull with the version just read from the
    /// channel. Returns whether the filter bank must be rebuilt from the
    /// channel's settings before the sample is filtered; afterwards the
    /// tracker records that version as the one in use.
    pub fn begin_pull(&mut self, published_version: u64) -> (rebuild: bool)
        ensures
            pulled(*old(self), published_version, *final(self), rebuild),
    {
        let rebuild = self.built_from != published_version;
        self.built_from = published_version;
        rebuild
    }

    /// Called with what upstream gave: a sample is handed on exactly when
    /// upstream had one, and exhaustion is passed on as it is. The count of
    /// samples handed on stops at `u64::MAX`.
    pub fn end_pull(&mut self, upstream_had_sample: bool) -> (deliver: bool)
        ensures
            deliver == upstream_had_sample,
            final(self).built_from_spec() == old(self).built_from_spec(),
            final(self).delivered_spec() == if upstream_had_sample && old(self).delivered_spec()
                < u64::MAX {
                (old(self).delivered_spec() + 1) as u64
            } else {
                old(self).delivered_spec()
            },
    {
        if upstream_had_sample && self.delivered < u64::MAX {
            self.delivered = self.delivered + 1;
        }
        upstream_had_sample
    }
}

/// `after` is `before` once a pull has read `published_version`.
pub open spec fn pulled(
    before: StreamTracker,
    published_version: u64,
    after: StreamTracker,
    rebuild: bool,
) -> bool {
    &&& rebuild == (before.built_from_spec() != published_version)
    &&& after.built_from_spec() == published_version
    &&& after.delivered_spec() == before.delivered_spec()
}

/// Once a configuration is published, the next pull that reads the channel
/// filters with a bank built from that publication (or a later one): the
/// tracker then stands at the new version, and a rebuild is asked for unless
/// the bank already came from it.
pub proof fn lemma_rebuild_on_change(
    before: ConfigChannel,
    settings: EqualizerSettings,
    after: ConfigChannel,
    tracker: StreamTracker,
    read_version: u64,
    next: StreamTracker,
    rebuild: bool,
)
    requires
        published(before, settings, after),
        read_version >= after.version_spec(),
        pulled(tracker, read_version, next, rebuild),
    ensures
        next.built_from_spec() >= before.version_spec() + 1,
        tracker.built_from_spec() <= before.version_spec() ==> rebuild,
{
}

} // verus!
