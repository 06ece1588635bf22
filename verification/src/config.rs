//! Process configuration decisions: which environment values are accepted,
//! and which logging levels follow from them. Reading the environment and
//! probing the file system happen outside; only the decisions live here.

use vstd::prelude::*;
use crate::diag::LogLevel;

verus! {

/// Why the configuration was rejected at startup.
#[derive(Clone, Copy, Debug, PartialEq, Eq, Structural)]
pub enum ConfigError {
    /// The database location was not set at all.
    DatabaseUrlMissing,
    /// The database location points to a non-existent file.
    DatabaseUrlNonexistent,
    /// The logging level text names no known level.
    LoggingLevelUnparseable,
}

/// One character of request text equals one lowercase pattern character,
/// ignoring ASCII case.
pub open spec fn char_eq_ci(c: char, lower: char) -> bool {
    c as u32 == lower as u32 || (65 <= c as u32 <= 90 && c as u32 + 32 == lower as u32)
}

/// `s` equals the lowercase pattern `t`, ignoring ASCII case.
pub open spec fn matches_ignore_case(s: Seq<char>, t: Seq<char>) -> bool {
    s.len() == t.len() && forall|i: int| 0 <= i < s.len() ==> char_eq_ci(#[trigger] s[i], t[i])
}

/// Decides whether `s` equals the lowercase pattern `t`, ignoring ASCII
/// case.
fn eq_ignore_case(s: &str, t: &str) -> (b: bool)
    ensures
        b == matches_ignore_case(s@, t@),
{
    let sn = s.unicode_len();
    let tn = t.unicode_len();
    if sn != tn {
        return false;
    }
    let mut i: usize = 0;
    while i < sn
        invariant
            s@.len() == sn,
            t@.len() == sn,
            i <= sn,
            forall|j: int| 0 <= j < i ==> char_eq_ci(#[trigger] s@[j], t@[j]),
        decreases sn - i,
    {
        let cu = s.get_char(i) as u32;
        let tu = t.get_char(i) as u32;
        let ok = cu == tu || (65 <= cu && cu <= 90 && cu + 32 == tu);
        if !ok {
            assert(!char_eq_ci(s@[i as int], t@[i as int]));
            return false;
        }
        i += 1;
    }
    true
}

/// The level a piece of level text names, ignoring ASCII case, or nothing
/// when it names none.
pub open spec fn spec_parse_level(s: Seq<char>) -> Option<LogLevel> {
    if matches_ignore_case(s, "off"@) {
        Some(LogLevel::Off)
    } else if matches_ignore_case(s, "error"@) {
        Some(LogLevel::Error)
    } else if matches_ignore_case(s, "warn"@) {
        Some(LogLevel::Warn)
    } else if matches_ignore_case(s, "info"@) {
        Some(LogLevel::Info)
    } else if matches_ignore_case(s, "debug"@) {
        Some(LogLevel::Debug)
    } else if matches_ignore_case(s, "trace"@) {
        Some(LogLevel::Trace)
    } else {
        None
    }
}

/// Parses level text into a logging level.
pub fn parse_level(s: &str) -> (r: Option<LogLevel>)
    ensures
        r == spec_parse_level(s@),
{
    if eq_ignore_case(s, "off") {
        Some(LogLevel::Off)
    } else if eq_ignore_case(s, "error") {
        Some(LogLevel::Error)
    } else if eq_ignore_case(s, "warn") {
        Some(LogLevel::Warn)
    } else if eq_ignore_case(s, "info") {
        Some(LogLevel::Info)
    } else if eq_ignore_case(s, "debug") {
        Some(LogLevel::Debug)
    } else if eq_ignore_case(s, "trace") {
        Some(LogLevel::Trace)
    } else {
        None
    }
}

/// The environment values the process runs with.
#[derive(Clone, Debug)]
pub struct EnvVars {
    pub database_url: String,
    pub logging_level: LogLevel,
}

impl EnvVars {
    /// Decides the configuration from the raw environment values: the
    /// database location as read (with whether it names an existing file)
    /// and the logging level text as read. A missing level defaults to
    /// `Info`; a set but unparseable one is rejected.
    pub fn new(database_url: Option<String>, database_url_exists: bool, logging_level: Option<
        String,
    >) -> (r: Result<EnvVars, ConfigError>)
        ensures
            database_url is None ==> r == Err::<EnvVars, ConfigError>(
                ConfigError::DatabaseUrlMissing,
            ),
            database_url is Some && !database_url_exists ==> r == Err::<EnvVars, ConfigError>(
                ConfigError::DatabaseUrlNonexistent,
            ),
            database_url is Some && database_url_exists ==> (match logging_level {
                None => r is Ok && r->Ok_0.database_url@ == database_url->0@
                    && r->Ok_0.logging_level == LogLevel::Info,
                Some(l) => (match spec_parse_level(l@) {
                    Some(level) => r is Ok && r->Ok_0.database_url@ == database_url->0@
                        && r->Ok_0.logging_level == level,
                    None => r == Err::<EnvVars, ConfigError>(ConfigError::LoggingLevelUnparseable),
                }),
            }),
    {
        let url = match database_url {
            None => {
                return Err(ConfigError::DatabaseUrlMissing);
            },
            Some(u) => u,
        };
        if !database_url_exists {
            return Err(ConfigError::DatabaseUrlNonexistent);
        }
        let level = match logging_level {
            None => LogLevel::Info,
            Some(l) => {
                match parse_level(l.as_str()) {
                    Some(level) => level,
                    None => {
                        return Err(ConfigError::LoggingLevelUnparseable);
                    },
                }
            },
        };
        Ok(EnvVars { database_url: url, logging_level: level })
    }

    /// Returns the correct logging level for the store's query tracing:
    /// one step quieter than `Info`, untouched otherwise.
    pub fn sqlx_query_logging_level(&self) -> (l: LogLevel)
        ensures
            l == (if self.logging_level == LogLevel::Info {
                LogLevel::Warn
            } else {
                self.logging_level
            }),
    {
        if self.logging_level == LogLevel::Info {
            LogLevel::Warn
        } else {
            self.logging_level
        }
    }
}

} // verus!
