use vstd::prelude::*;

verus! {

#[verifier::external_type_specification]
#[verifier::external_body]
pub struct ExSystemTime(std::time::SystemTime);

/// Wraps `std::time::SystemTime::now`; nothing is stated of the reading,
/// which depends on the time of the call.
#[verifier::external_body]
pub(crate) fn now() -> std::time::SystemTime {
    std::time::SystemTime::now()
}

/// Wraps `SystemTime::duration_since(UNIX_EPOCH)`: the time elapsed since
/// the epoch, `None` when the reading lies before it. Nothing is stated of
/// the duration, which depends on the reading.
#[verifier::external_body]
pub(crate) fn duration_since_epoch(t: &std::time::SystemTime) -> Option<core::time::Duration> {
    t.duration_since(std::time::UNIX_EPOCH).ok()
}

/// Wraps `Duration::as_secs`: the whole seconds of a duration. The duration
/// is opaque here, so nothing is stated of the value.
#[verifier::external_body]
pub(crate) fn whole_secs(d: &core::time::Duration) -> u64 {
    d.as_secs()
}

/// Wraps `Duration::as_millis`: the whole milliseconds of a duration. The
/// duration is opaque here, so nothing is stated of the value.
#[verifier::external_body]
pub(crate) fn whole_millis(d: &core::time::Duration) -> u128 {
    d.as_millis()
}

} // verus!
