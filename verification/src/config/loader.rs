//! The configuration loader's state: the last good snapshot and the
//! modification time it was parsed at.
//!
//! The loader itself does no file reading. A caller stats the file, asks
//! `get` for the snapshot under the observed modification time, and — when
//! `get` reports staleness — parses the file and hands the result to
//! `install`. A failed parse simply never reaches `install`, so the previous
//! good snapshot stays in effect.

use vstd::prelude::*;

use crate::config::dynamic::DynamicConfig;

verus! {

/// The last good snapshot and the file modification time it belongs to
/// (nanoseconds since the epoch).
pub struct Loader {
    pub value: DynamicConfig,
    pub last_modified: u128,
}

/// What a read under an observed modification time must return: the cached
/// snapshot while the file is not newer, nothing (a reload) once it is.
pub open spec fn snapshot_for(l: Loader, observed_modified: u128) -> Option<DynamicConfig> {
    if observed_modified <= l.last_modified {
        Option::Some(l.value)
    } else {
        Option::None
    }
}

/// The loader state after a reload installs `value` at `observed_modified`.
pub open spec fn installed(l: Loader, value: DynamicConfig, observed_modified: u128) -> Loader {
    Loader { value, last_modified: observed_modified }
}

impl Loader {
    /// Start from a first parsed snapshot and its modification time.
    pub fn new(value: DynamicConfig, last_modified: u128) -> (r: Loader)
        ensures
            r == (Loader { value, last_modified }),
    {
        Loader { value, last_modified }
    }

    /// The snapshot under an observed file modification time: the cached one
    /// unless the file is strictly newer, in which case the caller must
    /// reload and `install`.
    pub fn get(&self, observed_modified: u128) -> (r: Option<&DynamicConfig>)
        ensures
            match r {
                Option::Some(c) => snapshot_for(*self, observed_modified) == Option::Some(*c),
                Option::None => snapshot_for(*self, observed_modified) is None,
            },
    {
        if observed_modified <= self.last_modified {
            Some(&self.value)
        } else {
            None
        }
    }

    /// Install a freshly parsed snapshot together with the modification time
    /// it was read under.
    pub fn install(&mut self, value: DynamicConfig, observed_modified: u128)
        ensures
            *final(self) == installed(*old(self), value, observed_modified),
    {
        self.value = value;
        self.last_modified = observed_modified;
    }

    /// The last good snapshot, with no staleness check at all.
    pub fn get_cached(&self) -> (r: &DynamicConfig)
        ensures
            *r == self.value,
    {
        &self.value
    }
}

/// Reads are idempotent: while the file's modification time has not advanced
/// past the recorded one, every read returns the one cached snapshot, and no
/// read asks for a reload.
pub proof fn lemma_snapshot_idempotent(l: Loader, m1: u128, m2: u128)
    requires
        m1 <= l.last_modified,
        m2 <= l.last_modified,
    ensures
        snapshot_for(l, m1) == Option::Some(l.value),
        snapshot_for(l, m1) == snapshot_for(l, m2),
{
}

/// Staleness is detected: once the file's modification time advances past
/// the recorded one, a read refuses the cache, and after the reload installs
/// the fresh snapshot, a read under that time returns it — while the cached
/// accessor of the un-installed state still held the old one.
pub proof fn lemma_staleness_detected(l: Loader, fresh: DynamicConfig, observed: u128)
    requires
        observed > l.last_modified,
    ensures
        snapshot_for(l, observed) is None,
        snapshot_for(installed(l, fresh, observed), observed) == Option::Some(fresh),
        installed(l, fresh, observed).value == fresh,
{
}

} // verus!
