//! The configuration that the watcher is started with.

use vstd::prelude::*;
use crate::decimal::{append_decimal, decimal, is_u64_text, parse_u64, unsigned_value};

verus! {

/// Seconds between two polls when none is given.
pub const DEFAULT_INTERVAL_SECONDS: u64 = 30;

/// Minutes of remaining runtime under which to warn, when none is given.
pub const DEFAULT_LIMIT_MINUTES: u64 = 10;

/// Why a configuration was refused.
#[derive(Debug, Clone, Copy, PartialEq, Eq, Structural)]
pub enum ConfigError {
    /// The interval is not the text of an unsigned integer that fits in 64 bits.
    InvalidInterval,
    /// The limit is not the text of an unsigned integer that fits in 64 bits.
    InvalidLimit,
    /// The interval is zero seconds.
    ZeroInterval,
    /// The limit is zero minutes.
    ZeroLimit,
}

/// What the watcher runs with, fixed at startup.
pub struct Config {
    /// Seconds between two polls.
    pub interval_seconds: u64,
    /// Minutes of remaining battery runtime under which to warn.
    pub limit_minutes: u64,
    /// Title of the warning notification.
    pub title: String,
    /// Body of the warning notification.
    pub message: String,
}

/// The body of the warning when none is given, for a limit of `limit` minutes.
pub open spec fn default_message_text(limit: nat) -> Seq<char> {
    "You only have "@ + decimal(limit) + " minutes left!"@
}

/// The title of the warning when none is given.
pub open spec fn default_title_text() -> Seq<char> {
    "Battery critical"@
}

/// The warning body used when none is given: the limit in whole minutes.
pub fn default_message(limit_minutes: u64) -> (r: String)
    ensures
        r@ == default_message_text(limit_minutes as nat),
{
    let mut r = String::from_str("You only have ");
    append_decimal(&mut r, limit_minutes);
    r.append(" minutes left!");
    r
}

/// The warning title used when none is given.
pub fn default_title() -> (r: String)
    ensures
        r@ == default_title_text(),
{
    String::from_str("Battery critical")
}

impl Config {
    /// Both periods are positive.
    pub open spec fn wf(&self) -> bool {
        self.interval_seconds > 0 && self.limit_minutes > 0
    }

    /// A configuration from its parts; without a message, the default one for
    /// the limit. Refused when the interval or the limit is zero, the
    /// interval being checked first.
    pub fn new(interval_seconds: u64, limit_minutes: u64, title: String, message: Option<String>) -> (r:
        Result<Config, ConfigError>)
        ensures
            interval_seconds == 0 ==> r == Err::<Config, ConfigError>(ConfigError::ZeroInterval),
            interval_seconds > 0 && limit_minutes == 0 ==> r == Err::<Config, ConfigError>(
                ConfigError::ZeroLimit,
            ),
            interval_seconds > 0 && limit_minutes > 0 ==> r is Ok,
            r matches Ok(c) ==> {
                &&& c.wf()
                &&& c.interval_seconds == interval_seconds
                &&& c.limit_minutes == limit_minutes
                &&& c.title == title
                &&& c.message@ == match message {
                    Some(m) => m@,
                    None => default_message_text(limit_minutes as nat),
                }
            },
    {
        if interval_seconds == 0 {
            return Err(ConfigError::ZeroInterval);
        }
        if limit_minutes == 0 {
            return Err(ConfigError::ZeroLimit);
        }
        let message = match message {
            Some(m) => m,
            None => default_message(limit_minutes),
        };
        Ok(Config { interval_seconds, limit_minutes, title, message })
    }

    /// A configuration from the texts of the interval (seconds) and the limit
    /// (minutes). The interval is read and checked first, then the limit; each
    /// must be an unsigned integer that fits in 64 bits, and positive.
    pub fn from_text(interval: &str, limit: &str, title: String, message: Option<String>) -> (r:
        Result<Config, ConfigError>)
        ensures
            !is_u64_text(interval@) ==> r == Err::<Config, ConfigError>(
                ConfigError::InvalidInterval,
            ),
            is_u64_text(interval@) && !is_u64_text(limit@) ==> r == Err::<Config, ConfigError>(
                ConfigError::InvalidLimit,
            ),
            is_u64_text(interval@) && is_u64_text(limit@) ==> {
                let i = unsigned_value(interval@);
                let l = unsigned_value(limit@);
                &&& i == 0 ==> r == Err::<Config, ConfigError>(ConfigError::ZeroInterval)
                &&& i > 0 && l == 0 ==> r == Err::<Config, ConfigError>(ConfigError::ZeroLimit)
                &&& i > 0 && l > 0 ==> r is Ok
            },
            r matches Ok(c) ==> {
                &&& c.wf()
                &&& c.interval_seconds as nat == unsigned_value(interval@)
                &&& c.limit_minutes as nat == unsigned_value(limit@)
                &&& c.title == title
                &&& c.message@ == match message {
                    Some(m) => m@,
                    None => default_message_text(c.limit_minutes as nat),
                }
            },
    {
        let interval_seconds = match parse_u64(interval) {
            Some(n) => n,
            None => return Err(ConfigError::InvalidInterval),
        };
        let limit_minutes = match parse_u64(limit) {
            Some(n) => n,
            None => return Err(ConfigError::InvalidLimit),
        };
        Config::new(interval_seconds, limit_minutes, title, message)
    }
}

} // verus!
