//! Points in time: the system clock's and those of the Store.

use crate::error::outcome;
use crate::error::rejected;
use crate::error::Error;
use crate::error::ErrorView;
use crate::iap::Iap;
use vstd::prelude::*;
use vstd::string::StringExecFns;

verus! {

/// A time since the start of 1970.
#[derive(Debug, Clone, Copy)]
pub struct UnixTime {
    pub secs: u64,
    pub subsec_nanos: u32,
}

/// A reading of the clock as its contents: a time, or why there is none.
pub open spec fn clock_contents(reading: Result<UnixTime, String>) -> Result<UnixTime, Seq<char>> {
    match reading {
        Ok(time) => Ok(time),
        Err(detail) => Err(detail@),
    }
}

/// Readings that the system clock can give.
pub open spec fn clock_reading(reading: Result<UnixTime, Seq<char>>) -> bool {
    reading matches Ok(time) ==> time.subsec_nanos < 1_000_000_000
}

/// `SystemTime::now` of std, as the time since `UNIX_EPOCH`, or the error of
/// `duration_since` as `{:?}` writes it. The time of a reading is open; the part
/// below a second is less than one second.
#[verifier::external_body]
pub(crate) fn read_clock() -> (reading: Result<UnixTime, String>)
    ensures
        clock_reading(clock_contents(reading)),
{
    match std::time::SystemTime::now().duration_since(std::time::UNIX_EPOCH) {
        Ok(time) => Ok(UnixTime { secs: time.as_secs(), subsec_nanos: time.subsec_nanos() }),
        Err(error) => Err(format!("{:?}", error)),
    }
}

/// The message of std's error when a number does not fit into an `i64`.
pub uninterp spec fn out_of_range_text(number: u128) -> Seq<char>;

/// `i64::try_from` of std on a `u128`: the number itself where it fits, else an
/// error, here as the text that its `Display` writes.
#[verifier::external_body]
pub(crate) fn narrow(number: u128) -> (narrowed: Result<i64, String>)
    ensures
        narrowed is Ok <==> number <= i64::MAX,
        narrowed matches Ok(same) ==> same == number,
        narrowed matches Err(text) ==> text@ == out_of_range_text(number),
{
    i64::try_from(number).map_err(|e| e.to_string())
}

/// Whole milliseconds since the start of 1970.
pub open spec fn unix_millis(time: UnixTime) -> int {
    time.secs * 1000 + time.subsec_nanos as int / 1_000_000
}

/// The time of a reading of the clock in milliseconds.
pub open spec fn millis_at(reading: Result<UnixTime, Seq<char>>) -> Result<i64, ErrorView> {
    match reading {
        Err(detail) => Err(
            rejected("systemTimeError"@, "Failed to get system time: "@ + detail),
        ),
        Ok(time) => if unix_millis(time) <= i64::MAX {
            Ok(unix_millis(time) as i64)
        } else {
            Err(
                rejected(
                    "systemTimeError"@,
                    "System time out of i64 range: "@ + out_of_range_text(
                        unix_millis(time) as u128,
                    ),
                ),
            )
        },
    }
}

/// The nonce that a reading of the clock gives: its part below a second.
pub open spec fn nonce_at(reading: Result<UnixTime, Seq<char>>) -> u32 {
    match reading {
        Ok(time) => time.subsec_nanos,
        Err(_) => 0,
    }
}

/// Units of 100 nanoseconds in a second.
pub const WINDOWS_TICK: i64 = 10_000_000;

/// Seconds from the start of 1601 to the start of 1970.
pub const SEC_TO_UNIX_EPOCH: i64 = 11_644_473_600;

/// Whole seconds in a number of ticks, rounded towards zero.
pub open spec fn whole_seconds(ticks: int) -> int {
    if ticks >= 0 {
        ticks / 10_000_000
    } else {
        -((-ticks) / 10_000_000)
    }
}

/// A Store time in milliseconds since the start of 1970, to the second.
pub open spec fn datetime_millis(ticks: int) -> int {
    (whole_seconds(ticks) - 11_644_473_600) * 1000
}

impl Iap {
    /// The time of a reading of the clock in milliseconds.
    pub fn millis_of(reading: &Result<UnixTime, String>) -> (millis: Result<i64, Error>)
        ensures
            outcome(millis) == millis_at(clock_contents(*reading)),
    {
        match reading {
            Ok(time) => {
                let ms: u128 = time.secs as u128 * 1000 + (time.subsec_nanos / 1_000_000) as u128;
                match narrow(ms) {
                    Ok(millis) => Ok(millis),
                    Err(detail) => {
                        let mut message = "System time out of i64 range: ".to_owned();
                        message.append(detail.as_str());
                        Err(Self::reject("systemTimeError", message))
                    },
                }
            },
            Err(detail) => {
                let mut message = "Failed to get system time: ".to_owned();
                message.append(detail.as_str());
                Err(Self::reject("systemTimeError", message))
            },
        }
    }

    /// The nonce that a reading of the clock gives.
    pub fn nonce_of(reading: &Result<UnixTime, String>) -> (nonce: u32)
        ensures
            nonce == nonce_at(clock_contents(*reading)),
    {
        match reading {
            Ok(time) => time.subsec_nanos,
            Err(_) => 0,
        }
    }

    /// The current time in milliseconds since the start of 1970. The time is the
    /// clock's; what becomes of a reading is stated for every one.
    pub fn now_millis() -> (millis: Result<i64, Error>)
        ensures
            exists|reading: Result<UnixTime, Seq<char>>| #[trigger]
                clock_reading(reading) && outcome(millis) == millis_at(reading),
    {
        let reading = read_clock();
        Self::millis_of(&reading)
    }

    /// A Store time, in ticks, as milliseconds since the start of 1970.
    pub fn datetime_to_unix_millis(ticks: i64) -> (millis: i64)
        ensures
            millis == datetime_millis(ticks as int),
    {
        let seconds_since_1601: i64 = ticks / WINDOWS_TICK;
        let unix_seconds: i64 = seconds_since_1601 - SEC_TO_UNIX_EPOCH;
        unix_seconds * 1000
    }
}

/// Later Store times are not earlier in milliseconds.
pub proof fn law_datetime_monotone(a: int, b: int)
    requires
        a <= b,
    ensures
        datetime_millis(a) <= datetime_millis(b),
{
}

/// A Store time on a whole second keeps its exact distance from the start of
/// 1970.
pub proof fn law_datetime_exact_on_seconds(seconds_since_1601: int)
    ensures
        datetime_millis(seconds_since_1601 * 10_000_000) == (seconds_since_1601 - 11_644_473_600)
            * 1000,
{
}

/// A reading of the clock is rounded down to the millisecond that it lies in, and
/// is refused only where that does not fit; a clock without a time is refused
/// with what it said.
pub proof fn law_millis_of_reading(time: UnixTime, detail: Seq<char>)
    ensures
        millis_at(Ok(time)) is Ok <==> time.secs * 1_000_000_000 + time.subsec_nanos
            < 9_223_372_036_854_775_808 * 1_000_000,
        millis_at(Ok(time)) matches Ok(ms) ==> ms * 1_000_000 <= time.secs * 1_000_000_000
            + time.subsec_nanos < (ms + 1) * 1_000_000,
        millis_at(Ok(time)) matches Err(error) ==> {
            &&& error is Rejected
            &&& error->code == Some("systemTimeError"@)
            &&& error->Rejected_message == Some(
                "System time out of i64 range: "@ + out_of_range_text(
                    ((time.secs * 1_000_000_000 + time.subsec_nanos) / 1_000_000) as u128,
                ),
            )
        },
        millis_at(Err(detail)) == Err::<i64, ErrorView>(
            ErrorView::Rejected {
                code: Some("systemTimeError"@),
                message: Some("Failed to get system time: "@ + detail),
            },
        ),
{
    let nanos = time.secs * 1_000_000_000 + time.subsec_nanos;
    assert(nanos / 1_000_000 == unix_millis(time));
}

/// The nonces of two readings are equal exactly where the readings lie equally far
/// past a second; a clock without a time gives zero.
pub proof fn law_nonce_of_reading(time: UnixTime, detail: Seq<char>)
    ensures
        nonce_at(Ok(time)) == time.subsec_nanos,
        nonce_at(Err(detail)) == 0,
{
}

/// A Store time falls on a whole second, the next one towards the start of 1601.
pub proof fn law_datetime_rounds(ticks: int)
    ensures
        datetime_millis(ticks) % 1000 == 0,
        ticks >= 0 ==> (datetime_millis(ticks) / 1000 + 11_644_473_600) * 10_000_000 <= ticks < (
        datetime_millis(ticks) / 1000 + 11_644_473_601) * 10_000_000,
        ticks <= 0 ==> (datetime_millis(ticks) / 1000 + 11_644_473_599) * 10_000_000 < ticks <= (
        datetime_millis(ticks) / 1000 + 11_644_473_600) * 10_000_000,
{
}

} // verus!
