//! What the host answers for itself: the log, the clocks, and the devices that it
//! has not.

use vstd::prelude::*;

verus! {

pub const LOG_PRIORITY_VERBOSE: i32 = 2;

pub const LOG_PRIORITY_DEBUG: i32 = 3;

pub const LOG_PRIORITY_INFO: i32 = 4;

pub const LOG_PRIORITY_WARN: i32 = 5;

pub const LOG_PRIORITY_ERROR: i32 = 6;

pub const LOG_PRIORITY_ASSERT: i32 = 7;

/// How many logs an app can write to.
pub const LOG_ID_MAX: i32 = 4;

/// The width of the screen, in density-independent pixels.
pub const DEFAULT_SCREEN_WIDTH_DP: i32 = 1280;

/// The height of the screen, in density-independent pixels.
pub const DEFAULT_SCREEN_HEIGHT_DP: i32 = 720;

/// The descriptor of the vibration motor that the host has not.
pub const NO_VIBRATOR: i32 = -1;

/// What a dialog has in place of a native part. It is not zero: there is nothing
/// behind it.
pub const DIALOG_PEER: i64 = 1;

/// Whether the network costs by use.
pub const NETWORK_METERED: bool = false;

/// Whether there is a network.
pub const NETWORK_AVAILABLE: bool = true;

/// How serious a line in the log is.
#[derive(Debug, Clone, Copy, PartialEq, Eq, Structural)]
pub enum LogLevel {
    Trace,
    Debug,
    Info,
    Warn,
    Error,
}

/// How serious a line is that an app logs with a priority.
pub open spec fn level_of(priority: i32) -> LogLevel {
    if priority == LOG_PRIORITY_VERBOSE {
        LogLevel::Trace
    } else if priority == LOG_PRIORITY_DEBUG {
        LogLevel::Debug
    } else if priority == LOG_PRIORITY_WARN {
        LogLevel::Warn
    } else if priority == LOG_PRIORITY_ERROR || priority == LOG_PRIORITY_ASSERT {
        LogLevel::Error
    } else {
        LogLevel::Info
    }
}

/// How serious a line is that an app logs with a priority.
pub fn log_level(priority: i32) -> (level: LogLevel)
    ensures
        level == level_of(priority),
        priority == 2 ==> level == LogLevel::Trace,
        priority == 3 ==> level == LogLevel::Debug,
        priority == 5 ==> level == LogLevel::Warn,
        priority == 6 || priority == 7 ==> level == LogLevel::Error,
        priority < 2 || priority == 4 || priority > 7 ==> level == LogLevel::Info,
{
    match priority {
        LOG_PRIORITY_VERBOSE => LogLevel::Trace,
        LOG_PRIORITY_DEBUG => LogLevel::Debug,
        LOG_PRIORITY_INFO => LogLevel::Info,
        LOG_PRIORITY_WARN => LogLevel::Warn,
        LOG_PRIORITY_ERROR | LOG_PRIORITY_ASSERT => LogLevel::Error,
        _ => LogLevel::Info,
    }
}

/// Whether an app's line is logged: there is a message, and the log is one of those
/// that apps write to. A line that is not logged is answered with -1.
pub fn log_accepts(buf_id: i32, has_message: bool) -> (b: bool)
    ensures
        b == (has_message && 0 <= buf_id < LOG_ID_MAX),
        b == (has_message && 0 <= buf_id < 4),
{
    has_message && 0 <= buf_id && buf_id < LOG_ID_MAX
}

/// What an app is answered that logged a line: how many bytes it wrote.
pub fn log_result(message_len: usize) -> (written: i32)
    ensures
        written == (if message_len <= i32::MAX {
            message_len as int
        } else {
            i32::MAX as int
        }),
{
    if message_len <= 2_147_483_647 {
        message_len as i32
    } else {
        i32::MAX
    }
}

/// A reading of a clock as Java holds it. One that Java cannot hold is the largest
/// that it can.
pub fn clock_reading(elapsed: u128) -> (reading: i64)
    ensures
        reading == (if elapsed <= i64::MAX {
            elapsed as int
        } else {
            i64::MAX as int
        }),
{
    if elapsed <= 9_223_372_036_854_775_807 {
        elapsed as i64
    } else {
        i64::MAX
    }
}

/// A number as near to `n` as Java can hold.
pub open spec fn saturated(n: int) -> int {
    if n > i64::MAX {
        i64::MAX as int
    } else if n < i64::MIN {
        i64::MIN as int
    } else {
        n
    }
}

fn saturate(n: i128) -> (m: i64)
    ensures
        m == saturated(n as int),
{
    if n > 9_223_372_036_854_775_807 {
        i64::MAX
    } else if n < -9_223_372_036_854_775_808 {
        i64::MIN
    } else {
        n as i64
    }
}

/// The milliseconds that the process ran, by the seconds and nanoseconds that the
/// kernel counted, where it told.
pub fn elapsed_cpu_millis(reading: Option<(i64, u64)>) -> (ms: i64)
    ensures
        ms == (match reading {
            Some((seconds, nanos)) => saturated(saturated(seconds * 1000) + nanos / 1_000_000),
            None => 0,
        }),
        reading matches Some((seconds, nanos)) ==> i64::MIN <= seconds * 1000 && seconds * 1000
            + nanos / 1_000_000 <= i64::MAX ==> ms == seconds * 1000 + nanos / 1_000_000,
{
    match reading {
        Some((seconds, nanos)) => {
            let whole: i64 = saturate(seconds as i128 * 1000);
            saturate(whole as i128 + (nanos / 1_000_000) as i128)
        },
        None => 0,
    }
}

/// A log line is as serious as its priority says: a higher one is never less serious.
pub proof fn law_higher_priority_is_no_less_serious(a: i32, b: i32)
    requires
        LOG_PRIORITY_VERBOSE <= a <= b <= LOG_PRIORITY_ASSERT,
    ensures
        rank(level_of(a)) <= rank(level_of(b)),
{
}

/// The place of a level among them, the least serious first.
pub open spec fn rank(level: LogLevel) -> int {
    match level {
        LogLevel::Trace => 0,
        LogLevel::Debug => 1,
        LogLevel::Info => 2,
        LogLevel::Warn => 3,
        LogLevel::Error => 4,
    }
}

/// A number that is cut off is the nearest that fits.
pub proof fn law_cut_off_is_the_nearest(n: int, m: i64)
    ensures
        i64::MIN <= n <= i64::MAX ==> saturated(n) == n,
        n > i64::MAX ==> saturated(n) >= m,
        n < i64::MIN ==> saturated(n) <= m,
        i64::MIN <= saturated(n) <= i64::MAX,
{
}

} // verus!
