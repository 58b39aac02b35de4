//! Settings model over the persisted key-value document: reading the two
//! numeric settings with their read-site defaults, and the first-run
//! bootstrap that assigns a default to each missing key and leaves present
//! values untouched.
//!
//! The document's values are JSON values of an outside crate; what this
//! module reads out of them goes through trusted wrappers, and the
//! defaulting logic around those reads is verified.

use vstd::prelude::*;

verus! {

#[verifier::external_type_specification]
#[verifier::external_body]
pub struct ExValue(serde_json::Value);

/// What `serde_json::Value::as_u64` reads out of a JSON value: `Some(n)`
/// exactly when the value is a non-negative integer that fits in a `u64`,
/// `None` for every other value. The result depends on the value alone.
pub uninterp spec fn value_u64(v: serde_json::Value) -> Option<u64>;

/// What `serde_json::Value::as_bool` reads out of a JSON value: `Some(b)`
/// exactly when the value is the JSON boolean `b`.
pub uninterp spec fn value_bool(v: serde_json::Value) -> Option<bool>;

/// Relies on `serde_json::Value::as_u64`: `Some` exactly for a JSON number
/// stored as a non-negative integer, `None` otherwise.
#[verifier::external_body]
pub(crate) fn value_as_u64(v: &serde_json::Value) -> (r: Option<u64>)
    ensures
        r == value_u64(*v),
{
    v.as_u64()
}

/// Relies on `serde_json::Value::from(u64)`: builds a JSON number holding
/// exactly `n`, which `as_u64` reads back as `Some(n)`.
#[verifier::external_body]
pub(crate) fn value_from_u64(n: u64) -> (v: serde_json::Value)
    ensures
        value_u64(v) == Some(n),
{
    serde_json::Value::from(n)
}

/// Relies on `serde_json::Value::from(bool)`: builds the JSON boolean `b`,
/// which `as_bool` reads back as `Some(b)`.
#[verifier::external_body]
pub(crate) fn value_from_bool(b: bool) -> (v: serde_json::Value)
    ensures
        value_bool(v) == Some(b),
{
    serde_json::Value::from(b)
}

/// The settings document: one optional JSON value per key. A key that the
/// persisted store does not hold is `None`.
pub struct SettingsDoc {
    /// Key `intervalMinutes`: break cadence in minutes, 0 disables the timer.
    pub interval_minutes: Option<serde_json::Value>,
    /// Key `overlayDurationSeconds`: how long the overlay counts down.
    pub overlay_duration_seconds: Option<serde_json::Value>,
    /// Key `autoStart`: whether the application registers itself at login.
    pub auto_start: Option<serde_json::Value>,
}

/// Which keys a bootstrap run assigned a default to; the shell mirrors
/// exactly these keys back into the persisted store and saves it.
#[derive(Clone, Copy, Debug, PartialEq, Eq, Structural)]
pub struct BootstrapActions {
    pub set_interval_minutes: bool,
    pub set_overlay_duration_seconds: bool,
    pub set_auto_start: bool,
}

/// Default break cadence in minutes.
pub const DEFAULT_INTERVAL_MINUTES: u64 = 20;

/// Default overlay duration in seconds.
pub const DEFAULT_OVERLAY_DURATION_SECONDS: u64 = 30;

/// The overlay duration a raw `overlayDurationSeconds` read yields: the
/// stored number, or 30 when the key is absent or not a non-negative
/// integer.
pub open spec fn spec_overlay_duration(raw: Option<serde_json::Value>) -> u64 {
    match raw {
        None => DEFAULT_OVERLAY_DURATION_SECONDS,
        Some(v) => match value_u64(v) {
            Some(n) => n,
            None => DEFAULT_OVERLAY_DURATION_SECONDS,
        },
    }
}

/// The break interval a raw `intervalMinutes` read yields: the stored
/// number, or 20 when the key is absent or not a non-negative integer.
pub open spec fn spec_interval_minutes(raw: Option<serde_json::Value>) -> u64 {
    match raw {
        None => DEFAULT_INTERVAL_MINUTES,
        Some(v) => match value_u64(v) {
            Some(n) => n,
            None => DEFAULT_INTERVAL_MINUTES,
        },
    }
}

/// Reads the overlay duration from the raw stored value, falling back to 30
/// seconds when the key is absent or does not hold a valid non-negative
/// integer.
pub fn get_overlay_duration(raw: Option<serde_json::Value>) -> (d: u64)
    ensures
        d == spec_overlay_duration(raw),
{
    match raw {
        None => DEFAULT_OVERLAY_DURATION_SECONDS,
        Some(v) => match value_as_u64(&v) {
            Some(n) => n,
            None => DEFAULT_OVERLAY_DURATION_SECONDS,
        },
    }
}

/// Reads the break interval from the raw stored value, falling back to 20
/// minutes when the key is absent or does not hold a valid non-negative
/// integer.
pub fn get_interval_minutes(raw: Option<serde_json::Value>) -> (n: u64)
    ensures
        n == spec_interval_minutes(raw),
{
    match raw {
        None => DEFAULT_INTERVAL_MINUTES,
        Some(v) => match value_as_u64(&v) {
            Some(m) => m,
            None => DEFAULT_INTERVAL_MINUTES,
        },
    }
}

/// First-run bootstrap of the settings document: every missing key is
/// assigned its default (20, 30, false); a key that is already present is
/// left exactly as it was, whatever it holds. Running it again is therefore
/// a no-op on an already-populated document.
pub fn bootstrap_settings(doc: &mut SettingsDoc) -> (acts: BootstrapActions)
    ensures
        acts.set_interval_minutes == old(doc).interval_minutes is None,
        acts.set_overlay_duration_seconds == old(doc).overlay_duration_seconds is None,
        acts.set_auto_start == old(doc).auto_start is None,
        old(doc).interval_minutes is Some ==> final(doc).interval_minutes
            == old(doc).interval_minutes,
        old(doc).interval_minutes is None ==> (final(doc).interval_minutes matches Some(v)
            && value_u64(v) == Some(DEFAULT_INTERVAL_MINUTES)),
        old(doc).overlay_duration_seconds is Some ==> final(doc).overlay_duration_seconds
            == old(doc).overlay_duration_seconds,
        old(doc).overlay_duration_seconds is None ==> (final(doc).overlay_duration_seconds
            matches Some(v) && value_u64(v) == Some(DEFAULT_OVERLAY_DURATION_SECONDS)),
        old(doc).auto_start is Some ==> final(doc).auto_start == old(doc).auto_start,
        old(doc).auto_start is None ==> (final(doc).auto_start matches Some(v)
            && value_bool(v) == Some(false)),
{
    let set_interval_minutes = doc.interval_minutes.is_none();
    if set_interval_minutes {
        doc.interval_minutes = Some(value_from_u64(DEFAULT_INTERVAL_MINUTES));
    }
    let set_overlay_duration_seconds = doc.overlay_duration_seconds.is_none();
    if set_overlay_duration_seconds {
        doc.overlay_duration_seconds = Some(value_from_u64(DEFAULT_OVERLAY_DURATION_SECONDS));
    }
    let set_auto_start = doc.auto_start.is_none();
    if set_auto_start {
        doc.auto_start = Some(value_from_bool(false));
    }
    BootstrapActions { set_interval_minutes, set_overlay_duration_seconds, set_auto_start }
}

/// Law: bootstrap never touches a present key, so over an already-populated
/// document (all three keys present) it assigns nothing and changes nothing:
/// defaulting is idempotent, and existing non-default values survive it.
pub proof fn lemma_bootstrap_preserves_present_keys(
    doc: SettingsDoc,
    done: SettingsDoc,
    acts: BootstrapActions,
)
    requires
        doc.interval_minutes is Some,
        doc.overlay_duration_seconds is Some,
        doc.auto_start is Some,
        // what `bootstrap_settings` ensures of a run over `doc`:
        acts.set_interval_minutes == doc.interval_minutes is None,
        acts.set_overlay_duration_seconds == doc.overlay_duration_seconds is None,
        acts.set_auto_start == doc.auto_start is None,
        doc.interval_minutes is Some ==> done.interval_minutes == doc.interval_minutes,
        doc.overlay_duration_seconds is Some ==> done.overlay_duration_seconds
            == doc.overlay_duration_seconds,
        doc.auto_start is Some ==> done.auto_start == doc.auto_start,
    ensures
        !acts.set_interval_minutes,
        !acts.set_overlay_duration_seconds,
        !acts.set_auto_start,
        done.interval_minutes == doc.interval_minutes,
        done.overlay_duration_seconds == doc.overlay_duration_seconds,
        done.auto_start == doc.auto_start,
{
}

} // verus!
