use vstd::prelude::*;

verus! {

/// The earliest instant rendered, in seconds from the epoch: 1601-01-01 00:00:00 UTC,
/// the start of the Windows file-time calendar that `time` converts through there.
pub const DATE_SECONDS_MIN: i64 = -11_644_473_600i64;

/// The latest instant rendered, in seconds from the epoch: 9999-12-31 23:59:59 UTC.
/// Below it the Windows conversion (seconds times 10^7) does not overflow, and
/// `gmtime_r` holds the year on unix.
pub const DATE_SECONDS_MAX: i64 = 253_402_300_799i64;

/// What `time::at_utc(Timespec::new(sec, nsec)).rfc822()` renders on the build target:
/// an RFC 822 date such as `Sun, 06 Nov 1994 08:49:37 GMT`, in UTC. Where `time_t`
/// has 64 bits it is the date of that instant; where it has 32 bits, `time` narrows
/// the seconds to it first. The name thus stands for one build target's rendering.
pub uninterp spec fn rfc822_utc(sec: i64, nsec: i32) -> Seq<char>;

/// Reads the clock through `time::get_time`. The seconds are whatever the clock
/// says; the nanoseconds are below one second, as `Timespec::new` asserts.
#[verifier::external_body]
fn current_time() -> (t: (i64, i32))
    ensures
        0 <= t.1 < 1_000_000_000,
{
    let ts = time::get_time();
    (ts.sec, ts.nsec)
}

/// Renders an instant through `time::at_utc` and `Tm::rfc822`, a function of the
/// instant alone (named `rfc822_utc`). `Timespec::new` panics on nanoseconds out of
/// range; on Windows the conversion to a file time overflows or is refused, and
/// panics, outside 1601 to 9999, and `gmtime_r` fails on years beyond a C `int`.
/// `requires` excludes all of these.
#[verifier::external_body]
fn render_rfc822_utc(sec: i64, nsec: i32) -> (s: String)
    requires
        0 <= nsec < 1_000_000_000,
        DATE_SECONDS_MIN <= sec <= DATE_SECONDS_MAX,
    ensures
        s@ == rfc822_utc(sec, nsec),
{
    time::at_utc(time::Timespec::new(sec, nsec)).rfc822().to_string()
}

/// A clock reading brought into the range that can be rendered.
pub open spec fn clamp_spec(sec: i64) -> i64 {
    if sec > DATE_SECONDS_MAX {
        DATE_SECONDS_MAX
    } else if sec < DATE_SECONDS_MIN {
        DATE_SECONDS_MIN
    } else {
        sec
    }
}

/// Brings a clock reading into the range that can be rendered.
pub fn clamp_seconds(sec: i64) -> (r: i64)
    ensures
        r == clamp_spec(sec),
        DATE_SECONDS_MIN <= r <= DATE_SECONDS_MAX,
        DATE_SECONDS_MIN <= sec <= DATE_SECONDS_MAX ==> r == sec,
{
    if sec > DATE_SECONDS_MAX {
        DATE_SECONDS_MAX
    } else if sec < DATE_SECONDS_MIN {
        DATE_SECONDS_MIN
    } else {
        sec
    }
}

/// The `Date:` header text for the clock reading `sec` seconds and `nsec`
/// nanoseconds after the epoch, clamped to the range that can be rendered.
pub fn date_at(sec: i64, nsec: i32) -> (s: String)
    requires
        0 <= nsec < 1_000_000_000,
    ensures
        s@ == rfc822_utc(clamp_spec(sec), nsec),
{
    let sec: i64 = clamp_seconds(sec);
    render_rfc822_utc(sec, nsec)
}

/// The current date as it appears in a `Date:` header: `date_at` of the clock.
pub fn now() -> (s: String)
    ensures
        exists|sec: i64, nsec: i32|
            DATE_SECONDS_MIN <= sec <= DATE_SECONDS_MAX && 0 <= nsec < 1_000_000_000
                && s@ == #[trigger] rfc822_utc(sec, nsec),
{
    let (sec, nsec) = current_time();
    date_at(sec, nsec)
}

} // verus!
