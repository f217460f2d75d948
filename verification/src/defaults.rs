//! Default values of settings that a configuration leaves out.

use vstd::prelude::*;
use vstd::string::*;
use crate::log::LogLevel;

verus! {

/// Seconds between two checks of a target.
pub fn check_interval_secs() -> (r: i32)
    ensures
        r == 30,
{
    30
}

/// The least severe level that is logged.
pub fn min_log_level() -> (r: LogLevel)
    ensures
        r == LogLevel::Info,
{
    LogLevel::Info
}

/// The request method of a target.
pub fn method() -> (r: String)
    ensures
        r@ == "GET"@,
{
    String::from_str("GET")
}

/// An absent optional setting.
pub fn none<T>() -> (r: Option<T>)
    ensures
        r is None,
{
    None
}

/// Connection timeout, in seconds.
pub fn connect_timeout() -> (r: u64)
    ensures
        r == 30,
{
    30
}

/// General timeout, in seconds.
pub fn timeout() -> (r: u64)
    ensures
        r == 30,
{
    30
}

/// Read timeout, in seconds.
pub fn read_timeout() -> (r: u64)
    ensures
        r == 30,
{
    30
}

} // verus!
