//! Lease and time-to-live durations, carried as whole seconds.
use vstd::prelude::*;

verus! {

/// Largest count of seconds a duration can hold.
pub const MAX_SECS: u64 = 0xffff_ffff_ffff_ffff;

/// A duration in whole seconds, as the service sends it on the wire.
#[derive(Debug, Clone, Copy, PartialEq, Eq, PartialOrd, Ord, Hash, Structural)]
pub struct VaultDuration(pub u64);

impl VaultDuration {
    /// The number of seconds the duration stands for.
    pub open spec fn secs(self) -> nat {
        self.0 as nat
    }

    /// Construct a duration from some number of seconds.
    pub fn seconds(s: u64) -> (r: VaultDuration)
        ensures
            r.secs() == s,
    {
        VaultDuration(s)
    }

    /// Construct a duration from some number of minutes.
    pub fn minutes(m: u64) -> (r: VaultDuration)
        requires
            m * 60 <= MAX_SECS,
        ensures
            r.secs() == m * 60,
    {
        VaultDuration::seconds(m * 60)
    }

    /// Construct a duration from some number of hours.
    pub fn hours(h: u64) -> (r: VaultDuration)
        requires
            h * 3600 <= MAX_SECS,
        ensures
            r.secs() == h * 3600,
    {
        VaultDuration::minutes(h * 60)
    }

    /// Construct a duration from some number of days.
    pub fn days(d: u64) -> (r: VaultDuration)
        requires
            d * 86400 <= MAX_SECS,
        ensures
            r.secs() == d * 86400,
    {
        VaultDuration::hours(d * 24)
    }

    /// The whole seconds of the duration.
    pub fn as_secs(&self) -> (r: u64)
        ensures
            r == self.secs(),
    {
        self.0
    }
}

/// Reads a duration from its wire form, a non-negative count of seconds.
pub fn decode_duration_seconds(wire_value: u64) -> (r: VaultDuration)
    ensures
        r.secs() == wire_value,
{
    VaultDuration(wire_value)
}

/// Writes a duration in its wire form, a non-negative count of seconds.
pub fn encode_duration_seconds(d: VaultDuration) -> (r: u64)
    ensures
        r == d.secs(),
{
    d.0
}

/// Decoding what encoding wrote gives back the same duration: whenever `w` is
/// what `encode_duration_seconds(d)` returns and `r` what
/// `decode_duration_seconds(w)` returns, `r == d`.
pub proof fn lemma_duration_round_trip(d: VaultDuration, w: u64, r: VaultDuration)
    requires
        w == d.secs(),
        r.secs() == w,
    ensures
        r == d,
{
}

} // verus!
