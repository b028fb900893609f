//! Configuration values handed to the core by the surrounding process:
//! mode selection, log-level names and duration strings.
//!
//! All of it is checked before any session starts; a bad value is a
//! configuration error and never surfaces from inside a session.

use vstd::prelude::*;
use vstd::string::StrSliceExecFns;

use crate::errors::ConfigError;

verus! {

/// Which end of the probe this process is.
#[derive(Clone, Copy, Debug, PartialEq, Eq, Structural)]
pub enum Mode {
    /// Listen, accept one connection at a time, answer each command.
    Server,
    /// Connect, issue one command, run one transfer.
    Client,
}

/// Which mode the flags select: server wins when given, then client;
/// neither flag is a configuration error.
pub open spec fn spec_select_mode(server: bool, client: bool) -> Result<Mode, ConfigError> {
    if server {
        Ok(Mode::Server)
    } else if client {
        Ok(Mode::Client)
    } else {
        Err(ConfigError::NoModeSelected)
    }
}

/// Decides whether to run as server or client from the two flags; with
/// neither set there is nothing to do and configuration is rejected.
pub fn select_mode(server: bool, client: bool) -> (r: Result<Mode, ConfigError>)
    ensures
        r == spec_select_mode(server, client),
{
    if server {
        Ok(Mode::Server)
    } else if client {
        Ok(Mode::Client)
    } else {
        Err(ConfigError::NoModeSelected)
    }
}

/// How much the process logs, from nothing to everything.
#[derive(Clone, Copy, Debug, PartialEq, Eq, Structural)]
pub enum LogLevel {
    Off,
    Error,
    Warn,
    Info,
    Debug,
    Trace,
}

/// The level a spelling names: each level by its full name or its first
/// letter; anything else is a configuration error.
pub open spec fn spec_log_level(s: Seq<char>) -> Result<LogLevel, ConfigError> {
    if s == "off"@ || s == "o"@ {
        Ok(LogLevel::Off)
    } else if s == "error"@ || s == "e"@ {
        Ok(LogLevel::Error)
    } else if s == "warn"@ || s == "w"@ {
        Ok(LogLevel::Warn)
    } else if s == "info"@ || s == "i"@ {
        Ok(LogLevel::Info)
    } else if s == "debug"@ || s == "d"@ {
        Ok(LogLevel::Debug)
    } else if s == "trace"@ || s == "t"@ {
        Ok(LogLevel::Trace)
    } else {
        Err(ConfigError::UnknownLogLevel)
    }
}

/// Character-for-character equality of two string slices.
fn str_eq(a: &str, b: &str) -> (r: bool)
    ensures
        r == (a@ == b@),
{
    let alen = a.unicode_len();
    let blen = b.unicode_len();
    if alen != blen {
        return false;
    }
    let mut i: usize = 0;
    while i < alen
        invariant
            alen == a@.len(),
            blen == b@.len(),
            alen == blen,
            i <= alen,
            forall|j: int| 0 <= j < i ==> a@[j] == b@[j],
        decreases alen - i,
    {
        if a.get_char(i) != b.get_char(i) {
            return false;
        }
        i = i + 1;
    }
    proof {
        assert(a@ =~= b@);
    }
    true
}

/// Reads a log level from its spelling: the full name or the first
/// letter of each level; any other string is rejected.
pub fn to_log_level(s: &str) -> (r: Result<LogLevel, ConfigError>)
    ensures
        r == spec_log_level(s@),
{
    if str_eq(s, "off") || str_eq(s, "o") {
        Ok(LogLevel::Off)
    } else if str_eq(s, "error") || str_eq(s, "e") {
        Ok(LogLevel::Error)
    } else if str_eq(s, "warn") || str_eq(s, "w") {
        Ok(LogLevel::Warn)
    } else if str_eq(s, "info") || str_eq(s, "i") {
        Ok(LogLevel::Info)
    } else if str_eq(s, "debug") || str_eq(s, "d") {
        Ok(LogLevel::Debug)
    } else if str_eq(s, "trace") || str_eq(s, "t") {
        Ok(LogLevel::Trace)
    } else {
        Err(ConfigError::UnknownLogLevel)
    }
}

/// One decimal digit.
pub open spec fn is_digit(c: char) -> bool {
    '0' as u32 <= c as u32 && c as u32 <= '9' as u32
}

/// The value of one decimal digit.
pub open spec fn digit_val(c: char) -> int {
    c as u32 - '0' as u32
}

/// The seconds one unit letter stands for: seconds, minutes, hours, days
/// or weeks.
pub open spec fn spec_unit_secs(c: char) -> Option<int> {
    if c == 's' {
        Some(1int)
    } else if c == 'm' {
        Some(60int)
    } else if c == 'h' {
        Some(3600int)
    } else if c == 'd' {
        Some(86400int)
    } else if c == 'w' {
        Some(604800int)
    } else {
        None
    }
}

/// The pending number's value, zero when no digits are pending.
pub open spec fn pending_or_zero(pending: Option<int>) -> int {
    match pending {
        None => 0,
        Some(p) => p,
    }
}

/// One character advances the running parse of a duration string. A digit
/// extends the pending number; a unit letter closes it and adds that many
/// seconds to the sum. A unit with no digits before it or an unrecognised
/// character is malformed; a number or sum beyond the 64-bit range is too
/// large. The first fault wins.
pub open spec fn spec_duration_step(pending: Option<int>, sum: int, c: char) -> Result<
    (Option<int>, int),
    ConfigError,
> {
    if is_digit(c) {
        let q = pending_or_zero(pending) * 10 + digit_val(c);
        if q > u64::MAX {
            Err(ConfigError::DurationTooLarge)
        } else {
            Ok((Some(q), sum))
        }
    } else {
        match pending {
            None => Err(ConfigError::MalformedDuration),
            Some(p) => match spec_unit_secs(c) {
                None => Err(ConfigError::MalformedDuration),
                Some(mul) => {
                    let t = sum + p * mul;
                    if t > u64::MAX {
                        Err(ConfigError::DurationTooLarge)
                    } else {
                        Ok((None, t))
                    }
                },
            },
        }
    }
}

/// The running parse after the whole string: the still-pending number, if
/// any, and the seconds summed from the closed number-unit groups.
pub open spec fn spec_duration_state(s: Seq<char>) -> Result<(Option<int>, int), ConfigError>
    decreases s.len(),
{
    if s.len() == 0 {
        Ok((None, 0))
    } else {
        match spec_duration_state(s.drop_last()) {
            Err(e) => Err(e),
            Ok((pending, sum)) => spec_duration_step(pending, sum, s.last()),
        }
    }
}

/// The seconds a duration string denotes: the sum over its number-unit
/// groups, with trailing digits that lack a unit counting as seconds.
pub open spec fn spec_duration_secs(s: Seq<char>) -> Result<int, ConfigError> {
    match spec_duration_state(s) {
        Err(e) => Err(e),
        Ok((pending, sum)) => {
            let t = sum + pending_or_zero(pending);
            if t > u64::MAX {
                Err(ConfigError::DurationTooLarge)
            } else {
                Ok(t)
            }
        },
    }
}

/// Once the running parse of a prefix has faulted, the parse of the whole
/// string carries that same fault.
proof fn lemma_duration_fault_sticks(s: Seq<char>, k: int, e: ConfigError)
    requires
        0 <= k <= s.len(),
        spec_duration_state(s.take(k)) == Err::<(Option<int>, int), ConfigError>(e),
    ensures
        spec_duration_state(s) == Err::<(Option<int>, int), ConfigError>(e),
    decreases s.len() - k,
{
    if k == s.len() {
        assert(s.take(k) =~= s);
    } else {
        assert(s.take(k + 1).drop_last() =~= s.take(k));
        lemma_duration_fault_sticks(s, k + 1, e);
    }
}

/// The pending number as the spec sees it.
spec fn pending_view(pending: Option<u64>) -> Option<int> {
    match pending {
        None => None,
        Some(p) => Some(p as int),
    }
}

/// Reads a duration such as `90`, `5s`, `2h30m` or `1w` as whole seconds.
/// Each group is digits followed by a unit letter — seconds, minutes,
/// hours, days, weeks — and trailing digits without a unit count as
/// seconds. A unit without digits or an unknown character is rejected as
/// malformed; a count that overflows 64 bits is rejected as too large.
pub fn to_duration(s: &str) -> (r: Result<u64, ConfigError>)
    ensures
        r matches Ok(v) ==> spec_duration_secs(s@) == Ok::<int, ConfigError>(v as int),
        r matches Err(e) ==> spec_duration_secs(s@) == Err::<int, ConfigError>(e),
{
    let n = s.unicode_len();
    let mut i: usize = 0;
    let mut pending: Option<u64> = None;
    let mut sum: u64 = 0;
    while i < n
        invariant
            n == s@.len(),
            i <= n,
            spec_duration_state(s@.take(i as int)) == Ok::<(Option<int>, int), ConfigError>(
                (pending_view(pending), sum as int),
            ),
        decreases n - i,
    {
        let c = s.get_char(i);
        proof {
            assert(s@.take(i + 1).drop_last() =~= s@.take(i as int));
            assert(s@.take(i + 1).last() == s@[i as int]);
        }
        let cv = c as u32;
        if 48 <= cv && cv <= 57 {
            let d = (cv - 48) as u64;
            let p: u64 = match pending {
                None => 0,
                Some(p) => p,
            };
            let q: u128 = (p as u128) * 10 + (d as u128);
            if q > u64::MAX as u128 {
                proof {
                    lemma_duration_fault_sticks(s@, i + 1, ConfigError::DurationTooLarge);
                }
                return Err(ConfigError::DurationTooLarge);
            }
            pending = Some(q as u64);
        } else {
            let p: u64 = match pending {
                None => {
                    proof {
                        lemma_duration_fault_sticks(s@, i + 1, ConfigError::MalformedDuration);
                    }
                    return Err(ConfigError::MalformedDuration);
                },
                Some(p) => p,
            };
            let mul: u64 = if c == 's' {
                1
            } else if c == 'm' {
                60
            } else if c == 'h' {
                3600
            } else if c == 'd' {
                86400
            } else if c == 'w' {
                604800
            } else {
                proof {
                    lemma_duration_fault_sticks(s@, i + 1, ConfigError::MalformedDuration);
                }
                return Err(ConfigError::MalformedDuration);
            };
            proof {
                assert((p as int) * (mul as int) <= 604800 * (u64::MAX as int))
                    by (nonlinear_arith)
                    requires
                        0 <= p <= u64::MAX,
                        0 <= mul <= 604800,
                ;
            }
            let t: u128 = (sum as u128) + (p as u128) * (mul as u128);
            if t > u64::MAX as u128 {
                proof {
                    lemma_duration_fault_sticks(s@, i + 1, ConfigError::DurationTooLarge);
                }
                return Err(ConfigError::DurationTooLarge);
            }
            sum = t as u64;
            pending = None;
        }
        i = i + 1;
    }
    proof {
        assert(s@.take(n as int) =~= s@);
    }
    let p: u64 = match pending {
        None => 0,
        Some(p) => p,
    };
    let t: u128 = (sum as u128) + (p as u128);
    if t > u64::MAX as u128 {
        Err(ConfigError::DurationTooLarge)
    } else {
        Ok(t as u64)
    }
}

} // verus!
