//! Types of std and of outside crates that the library carries without
//! looking inside, and the few calls on them that the library makes.
//!
//! Everything here is trusted: Verus believes the contracts below.
use vstd::prelude::*;

verus! {

/// `std::time::SystemTime`: a point in wall-clock time, carried opaquely.
#[verifier::external_type_specification]
#[verifier::external_body]
pub struct ExSystemTime(std::time::SystemTime);

/// `std::io::Error`: carried inside error values.
#[verifier::external_type_specification]
#[verifier::external_body]
pub struct ExIoError(std::io::Error);

/// `toml::ser::Error`: carried inside error values.
#[verifier::external_type_specification]
#[verifier::external_body]
pub struct ExTomlSerError(toml::ser::Error);

/// `toml::de::Error`: carried inside error values.
#[verifier::external_type_specification]
#[verifier::external_body]
pub struct ExTomlDeError(toml::de::Error);

/// `tracing::Level`: the level at which an error is logged.
#[verifier::external_type_specification]
#[verifier::external_body]
pub struct ExTracingLevel(tracing::Level);

/// `<Duration as Clone>::clone`: `Duration` is `Copy`, so a clone is the
/// same value.
pub assume_specification[ <std::time::Duration as Clone>::clone ](d: &std::time::Duration) -> (r: std::time::Duration)
    ensures
        r == *d,
;

/// `<SystemTime as Clone>::clone`: `SystemTime` is `Copy`, so a clone is the
/// same value.
pub assume_specification[ <std::time::SystemTime as Clone>::clone ](t: &std::time::SystemTime) -> (r: std::time::SystemTime)
    ensures
        r == *t,
;

/// `std::path::PathBuf`: a file path, carried opaquely.
#[verifier::external_type_specification]
#[verifier::external_body]
pub struct ExPathBuf(std::path::PathBuf);

/// `std::time::Instant`: a reading of the monotonic clock, carried opaquely.
#[verifier::external_type_specification]
#[verifier::external_body]
pub struct ExInstant(std::time::Instant);

/// Calls `Instant::now`. Nothing is claimed of the value: it rests on the
/// clock.
#[verifier::external_body]
pub(crate) fn instant_now() -> std::time::Instant {
    std::time::Instant::now()
}

/// What `Instant::duration_since` gives: the time from `earlier` to
/// `later`, or zero when `earlier` is the later of the two.
pub uninterp spec fn instant_since(later: std::time::Instant, earlier: std::time::Instant) -> std::time::Duration;

/// Calls `Instant::elapsed`, which std documents as the time from `t` to
/// now, computed as `Instant::now() - t`, that is `now.duration_since(t)`.
/// The clock's reading is not stated: only that the result is the time
/// from `t` to some instant, the moment of the call.
#[verifier::external_body]
pub(crate) fn instant_elapsed(t: &std::time::Instant) -> (d: std::time::Duration)
    ensures
        exists|now: std::time::Instant| d == #[trigger] instant_since(now, *t),
{
    t.elapsed()
}

/// What `<Duration as PartialOrd>::ge` answers for two durations.
pub uninterp spec fn duration_ge(a: std::time::Duration, b: std::time::Duration) -> bool;

/// Calls `<Duration as PartialOrd>::ge`: whether `a` is at least `b`. The
/// answer is named, not stated: a `Duration` has no view to state it over.
#[verifier::external_body]
pub(crate) fn duration_at_least(a: &std::time::Duration, b: &std::time::Duration) -> (r: bool)
    ensures
        r == duration_ge(*a, *b),
{
    *a >= *b
}

/// What `Duration::from_secs` gives for a number of seconds.
pub uninterp spec fn duration_of_secs(secs: u64) -> std::time::Duration;

/// Calls `Duration::from_secs`. The duration is named, not stated: a
/// `Duration` has no view to state it over.
#[verifier::external_body]
pub(crate) fn duration_from_secs(secs: u64) -> (d: std::time::Duration)
    ensures
        d == duration_of_secs(secs),
{
    std::time::Duration::from_secs(secs)
}

/// Calls `SystemTime::now`. Nothing is claimed of the value: it rests on
/// the clock.
#[verifier::external_body]
pub(crate) fn system_time_now() -> std::time::SystemTime {
    std::time::SystemTime::now()
}

/// The text of `<Duration as Debug>::fmt` for a duration.
pub uninterp spec fn duration_debug(d: std::time::Duration) -> Seq<char>;

/// Formats `d` with `Duration`'s `Debug` impl (such as `1.5s` or `500ms`).
/// The text is named, not stated: a `Duration` has no view to state it
/// over.
#[verifier::external_body]
pub(crate) fn duration_debug_text(d: &std::time::Duration) -> (s: String)
    ensures
        s@ == duration_debug(*d),
{
    format!("{:?}", d)
}

/// What `SystemTime::checked_sub` gives for a time and a duration.
pub uninterp spec fn time_minus(t: std::time::SystemTime, d: std::time::Duration) -> Option<std::time::SystemTime>;

/// Calls `SystemTime::checked_sub`: the time `d` before `t`, or `None`
/// when that time cannot be represented. The result is named, not stated:
/// a `SystemTime` has no view to state it over.
#[verifier::external_body]
pub(crate) fn time_before(t: std::time::SystemTime, d: std::time::Duration) -> (r: Option<std::time::SystemTime>)
    ensures
        r == time_minus(t, d),
{
    t.checked_sub(d)
}

/// What `<SystemTime as PartialOrd>::ge` answers for two times.
pub uninterp spec fn time_ge(a: std::time::SystemTime, b: std::time::SystemTime) -> bool;

/// Calls `<SystemTime as PartialOrd>::ge`: whether `a` is not earlier than
/// `b`. The answer is named, not stated: a `SystemTime` has no view to
/// state it over.
#[verifier::external_body]
pub(crate) fn time_not_before(a: &std::time::SystemTime, b: &std::time::SystemTime) -> (r: bool)
    ensures
        r == time_ge(*a, *b),
{
    *a >= *b
}

/// What `later.duration_since(earlier).ok()` gives for two times: the time
/// from `earlier` to `later`, or `None` when `earlier` is the later one.
pub uninterp spec fn system_since(later: std::time::SystemTime, earlier: std::time::SystemTime) -> Option<
    std::time::Duration,
>;

/// Calls `SystemTime::elapsed`, which std documents as
/// `SystemTime::now().duration_since(t)`: the time from `t` to now, or
/// `None` when the clock reads earlier than `t`. The clock's reading is not
/// stated: only that the result is measured from `t` to some time, the
/// moment of the call.
#[verifier::external_body]
pub(crate) fn elapsed_since(t: &std::time::SystemTime) -> (r: Option<std::time::Duration>)
    ensures
        exists|now: std::time::SystemTime| r == #[trigger] system_since(now, *t),
{
    t.elapsed().ok()
}

/// The low 64 bits of what `Duration::as_millis` gives for a duration.
pub uninterp spec fn millis_of(d: std::time::Duration) -> u64;

/// Calls `Duration::as_millis`, the whole milliseconds of `d`, truncated to
/// the low 64 bits. The value is named, not stated: a `Duration` has no
/// view to state it over.
#[verifier::external_body]
pub(crate) fn duration_millis(d: &std::time::Duration) -> (ms: u64)
    ensures
        ms == millis_of(*d),
{
    d.as_millis() as u64
}

/// What `<Duration as PartialOrd>::gt` answers for two durations.
pub uninterp spec fn duration_gt(a: std::time::Duration, b: std::time::Duration) -> bool;

/// Calls `<Duration as PartialOrd>::gt`: whether `a` is longer than `b`.
/// The answer is named; what is stated is that it is the negation of
/// `b >= a`, since `Duration` is totally ordered (`Ord`).
#[verifier::external_body]
pub(crate) fn duration_longer(a: &std::time::Duration, b: &std::time::Duration) -> (r: bool)
    ensures
        r == duration_gt(*a, *b),
        r == !duration_ge(*b, *a),
{
    *a > *b
}

/// What `SystemTime::duration_since(UNIX_EPOCH)` gives for a time: the
/// time since the Unix epoch, or `None` for a time before it.
pub uninterp spec fn since_epoch(t: std::time::SystemTime) -> Option<std::time::Duration>;

/// Calls `SystemTime::duration_since(UNIX_EPOCH)`; a time before the epoch
/// (the call's error) gives `None`. The duration is named; what is stated is
/// that adding it back to the epoch gives the time again, since
/// `SystemTime` adds and subtracts durations exactly.
#[verifier::external_body]
pub(crate) fn time_since_epoch(t: &std::time::SystemTime) -> (r: Option<std::time::Duration>)
    ensures
        r == since_epoch(*t),
        r matches Some(d) ==> epoch_plus(d) == *t,
{
    t.duration_since(std::time::UNIX_EPOCH).ok()
}

/// What `Duration::as_nanos` gives: the whole nanoseconds in a duration.
pub uninterp spec fn nanos_of(d: std::time::Duration) -> u128;

/// Calls `Duration::as_nanos`: the total number of whole nanoseconds in
/// `d`. The number is named; what is stated is that, where it fits in 64
/// bits, `Duration::from_nanos` of it is `d` again.
#[verifier::external_body]
pub(crate) fn duration_nanos(d: &std::time::Duration) -> (n: u128)
    ensures
        n == nanos_of(*d),
        n <= u64::MAX ==> duration_of_nanos(n as u64) == *d,
{
    d.as_nanos()
}

/// What `Duration::from_nanos` gives for a number of nanoseconds.
pub uninterp spec fn duration_of_nanos(nanos: u64) -> std::time::Duration;

/// Calls `Duration::from_nanos`. The duration is named, not stated: a
/// `Duration` has no view to state it over.
#[verifier::external_body]
pub(crate) fn duration_from_nanos(nanos: u64) -> (d: std::time::Duration)
    ensures
        d == duration_of_nanos(nanos),
{
    std::time::Duration::from_nanos(nanos)
}

/// What `<SystemTime as Add<Duration>>::add` gives on `UNIX_EPOCH`.
pub uninterp spec fn epoch_plus(d: std::time::Duration) -> std::time::SystemTime;

/// Calls `<SystemTime as Add<Duration>>::add` on `UNIX_EPOCH`: the time `d`
/// after the Unix epoch. The time is named, not stated: a `SystemTime` has
/// no view to state it over. The addition panics for a duration beyond the
/// range of `SystemTime`; `requires` admits only durations of at most
/// `u64::MAX` nanoseconds (about 584 years), which are within it.
#[verifier::external_body]
pub(crate) fn time_after_epoch(d: std::time::Duration) -> (t: std::time::SystemTime)
    requires
        exists|n: u64| d == #[trigger] duration_of_nanos(n),
    ensures
        t == epoch_plus(d),
{
    std::time::UNIX_EPOCH + d
}

} // verus!
