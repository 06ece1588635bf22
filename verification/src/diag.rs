//! The store-failure taxonomy and the diagnostic each failure is reported
//! with. Failures never reach a caller as errors: they surface as empty
//! results, and the diagnostic is what remains for an operator to read.

use vstd::prelude::*;
use crate::decimal::{decimal_string, spec_decimal};

verus! {

/// Verbosity of one diagnostic record.
#[derive(Clone, Copy, Debug, PartialEq, Eq, Structural)]
pub enum LogLevel {
    Off,
    Error,
    Warn,
    Info,
    Debug,
    Trace,
}

/// A failure while talking to the record store, as this library models it.
/// Each variant carries the detail text the store reported.
#[derive(Clone, Debug)]
pub enum StoreError {
    /// The store handle itself is misconfigured; fatal at startup and never
    /// handed to the fetch path.
    Configuration(String),
    Database(String),
    Io(String),
    Tls(String),
    Protocol(String),
    RowNotFound,
    TypeNotFound(String),
    ColumnIndexOutOfBounds { index: usize, len: usize },
    ColumnNotFound(String),
    ColumnDecode { index: String, source: String },
    Decode(String),
    PoolTimedOut,
    PoolClosed,
    WorkerCrashed,
    Other(String),
}

/// One diagnostic record: a verbosity level and the text to emit.
#[derive(Clone, Debug)]
pub struct Diagnostic {
    pub level: LogLevel,
    pub text: String,
}

/// The level a store failure is reported at: absent rows are routine,
/// pool pressure is a warning, everything else is an error.
pub open spec fn spec_diagnostic_level(e: StoreError) -> LogLevel {
    match e {
        StoreError::RowNotFound => LogLevel::Trace,
        StoreError::PoolTimedOut => LogLevel::Warn,
        StoreError::PoolClosed => LogLevel::Warn,
        _ => LogLevel::Error,
    }
}

/// The text a store failure is reported with.
pub open spec fn spec_diagnostic_text(e: StoreError) -> Seq<char> {
    match e {
        StoreError::Configuration(s) => "Issue with database configuration: "@ + s@,
        StoreError::Database(s) => "Error returned from database: "@ + s@,
        StoreError::Io(s) => "IO error while communicating with database: "@ + s@,
        StoreError::Tls(s) => "Unable to establish TLS connection while communicating with database: "@
            + s@,
        StoreError::Protocol(s) => "Protocol error while communicating with database: "@ + s@,
        StoreError::RowNotFound => "No rows returned from database query"@,
        StoreError::TypeNotFound(s) => "Unable to find type for database query: "@ + s@,
        StoreError::ColumnIndexOutOfBounds { index, len } => "Column index out of bounds while performing database query: index "@
            + spec_decimal(index as nat) + "; len "@ + spec_decimal(len as nat),
        StoreError::ColumnNotFound(s) => "Column not found in database: "@ + s@,
        StoreError::ColumnDecode { index, source } => "Unable to decode column in database: "@
            + index@ + "; source "@ + source@,
        StoreError::Decode(s) => "Unable to decode value from database: "@ + s@,
        StoreError::PoolTimedOut => "No database pool connection available"@,
        StoreError::PoolClosed => "Database pool closed while trying to acquire connection"@,
        StoreError::WorkerCrashed => "Background worker for database pool crashed"@,
        StoreError::Other(s) => "Unknown error while performing database query: "@ + s@,
    }
}

/// Builds the diagnostic record for one store failure.
pub fn diagnostic_for(e: &StoreError) -> (d: Diagnostic)
    ensures
        d.level == spec_diagnostic_level(*e),
        d.text@ == spec_diagnostic_text(*e),
{
    match e {
        StoreError::Configuration(s) => Diagnostic {
            level: LogLevel::Error,
            text: String::from_str("Issue with database configuration: ").concat(s.as_str()),
        },
        StoreError::Database(s) => Diagnostic {
            level: LogLevel::Error,
            text: String::from_str("Error returned from database: ").concat(s.as_str()),
        },
        StoreError::Io(s) => Diagnostic {
            level: LogLevel::Error,
            text: String::from_str("IO error while communicating with database: ").concat(
                s.as_str(),
            ),
        },
        StoreError::Tls(s) => Diagnostic {
            level: LogLevel::Error,
            text: String::from_str(
                "Unable to establish TLS connection while communicating with database: ",
            ).concat(s.as_str()),
        },
        StoreError::Protocol(s) => Diagnostic {
            level: LogLevel::Error,
            text: String::from_str("Protocol error while communicating with database: ").concat(
                s.as_str(),
            ),
        },
        StoreError::RowNotFound => Diagnostic {
            level: LogLevel::Trace,
            text: String::from_str("No rows returned from database query"),
        },
        StoreError::TypeNotFound(s) => Diagnostic {
            level: LogLevel::Error,
            text: String::from_str("Unable to find type for database query: ").concat(s.as_str()),
        },
        StoreError::ColumnIndexOutOfBounds { index, len } => Diagnostic {
            level: LogLevel::Error,
            text: String::from_str(
                "Column index out of bounds while performing database query: index ",
            ).concat(decimal_string(*index).as_str()).concat("; len ").concat(
                decimal_string(*len).as_str(),
            ),
        },
        StoreError::ColumnNotFound(s) => Diagnostic {
            level: LogLevel::Error,
            text: String::from_str("Column not found in database: ").concat(s.as_str()),
        },
        StoreError::ColumnDecode { index, source } => Diagnostic {
            level: LogLevel::Error,
            text: String::from_str("Unable to decode column in database: ").concat(
                index.as_str(),
            ).concat("; source ").concat(source.as_str()),
        },
        StoreError::Decode(s) => Diagnostic {
            level: LogLevel::Error,
            text: String::from_str("Unable to decode value from database: ").concat(s.as_str()),
        },
        StoreError::PoolTimedOut => Diagnostic {
            level: LogLevel::Warn,
            text: String::from_str("No database pool connection available"),
        },
        StoreError::PoolClosed => Diagnostic {
            level: LogLevel::Warn,
            text: String::from_str("Database pool closed while trying to acquire connection"),
        },
        StoreError::WorkerCrashed => Diagnostic {
            level: LogLevel::Error,
            text: String::from_str("Background worker for database pool crashed"),
        },
        StoreError::Other(s) => Diagnostic {
            level: LogLevel::Error,
            text: String::from_str("Unknown error while performing database query: ").concat(
                s.as_str(),
            ),
        },
    }
}

/// Collapses one store outcome to an optional value: a success passes
/// through, a failure becomes an absent value plus its diagnostic.
/// Configuration failures are fatal before the fetch path runs, so they
/// are never handed here.
pub fn handle_entry<T>(entry: Result<T, StoreError>) -> (r: (Option<T>, Option<Diagnostic>))
    requires
        entry is Err ==> !(entry->Err_0 is Configuration),
    ensures
        entry is Ok ==> r.0 == Some(entry->Ok_0) && r.1 is None,
        entry is Err ==> r.0 is None && r.1 is Some
            && r.1->0.level == spec_diagnostic_level(entry->Err_0)
            && r.1->0.text@ == spec_diagnostic_text(entry->Err_0),
{
    match entry {
        Ok(v) => (Some(v), None),
        Err(e) => {
            let d = diagnostic_for(&e);
            (None, Some(d))
        },
    }
}

} // verus!
