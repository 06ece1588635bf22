use med_timer::diag::{diagnostic_for, handle_entry, LogLevel, StoreError};
use med_timer::fetch::{filtered_fetch, lookup, respond, DecodeError};
use med_timer::med::MedRow;

const U1: &str = "00000000-0000-4000-8000-000000000001";
const U2: &str = "00000000-0000-4000-8000-000000000002";
const U3: &str = "00000000-0000-4000-8000-000000000003";

fn med_row(name: &str, uuid: &str) -> MedRow {
    MedRow { name: String::from(name), uuid: String::from(uuid) }
}

#[test]
fn fetch_caps_at_limit() {
    let rows = vec![med_row("a", U1), med_row("b", U2), med_row("c", U3)];
    let (recs, drops) = filtered_fetch(&rows, 2);
    assert_eq!(recs.len(), 2);
    assert_eq!(recs[0].uuid, U1);
    assert_eq!(recs[1].uuid, U2);
    assert!(drops.is_empty());
}

#[test]
fn fetch_returns_all_when_fewer_than_limit() {
    let rows = vec![med_row("a", U1), med_row("b", U2)];
    let (recs, drops) = filtered_fetch(&rows, 100);
    assert_eq!(recs.len(), 2);
    assert!(drops.is_empty());
}

#[test]
fn fetch_with_zero_limit_returns_nothing() {
    let rows = vec![med_row("a", U1)];
    let (recs, drops) = filtered_fetch(&rows, 0);
    assert!(recs.is_empty());
    assert!(drops.is_empty());
}

#[test]
fn fetch_drops_undecodable_rows_and_keeps_counting() {
    // The limit counts successful decodes, not raw rows: the bad row in
    // the middle must not eat into the cap.
    let rows = vec![med_row("a", U1), med_row("bad", "not-a-uuid"), med_row("c", U3)];
    let (recs, drops) = filtered_fetch(&rows, 2);
    assert_eq!(recs.len(), 2);
    assert_eq!(recs[0].uuid, U1);
    assert_eq!(recs[1].uuid, U3);
    assert_eq!(drops, vec![DecodeError::BadUuid]);
}

#[test]
fn fetch_never_returns_invalid_identifier() {
    let rows = vec![med_row("bad", "0000"), med_row("good", U2), med_row("bad", "xyz")];
    let (recs, drops) = filtered_fetch(&rows, 100);
    assert_eq!(recs.len(), 1);
    assert_eq!(recs[0].uuid, U2);
    assert_eq!(drops.len(), 2);
}

#[test]
fn respond_shapes_successful_outcome() {
    let rows = vec![med_row("a", U1), med_row("bad", "nope"), med_row("c", U3)];
    let (recs, diags) = respond(Ok(rows), 10);
    assert_eq!(recs.len(), 2);
    assert_eq!(diags.len(), 1);
    assert_eq!(diags[0].level, LogLevel::Error);
    assert_eq!(diags[0].text, "row dropped: malformed identifier");
}

#[test]
fn respond_collapses_store_failure_to_empty() {
    let outcome: Result<Vec<MedRow>, StoreError> =
        Err(StoreError::Io(String::from("connection refused")));
    let (recs, diags) = respond(outcome, 10);
    assert!(recs.is_empty());
    assert_eq!(diags.len(), 1);
    assert_eq!(diags[0].level, LogLevel::Error);
    assert_eq!(diags[0].text, "IO error while communicating with database: connection refused");
}

#[test]
fn lookup_returns_present_record() {
    let rows = vec![med_row("a", U1)];
    let (found, diags) = lookup(Ok(rows));
    let found = found.unwrap();
    assert_eq!(found.name, "a");
    assert_eq!(found.uuid, U1);
    assert!(diags.is_empty());
}

#[test]
fn lookup_absent_is_none_not_error() {
    let rows: Vec<MedRow> = Vec::new();
    let (found, diags) = lookup(Ok(rows));
    assert!(found.is_none());
    assert!(diags.is_empty());
}

#[test]
fn lookup_on_store_failure_is_none_with_diagnostic() {
    let outcome: Result<Vec<MedRow>, StoreError> = Err(StoreError::PoolTimedOut);
    let (found, diags) = lookup(outcome);
    assert!(found.is_none());
    assert_eq!(diags.len(), 1);
    assert_eq!(diags[0].level, LogLevel::Warn);
    assert_eq!(diags[0].text, "No database pool connection available");
}

#[test]
fn handle_entry_passes_success_through() {
    let (value, diag) = handle_entry(Ok::<i64, StoreError>(9));
    assert_eq!(value, Some(9));
    assert!(diag.is_none());
}

#[test]
fn handle_entry_swallows_failure_with_diagnostic() {
    let (value, diag) = handle_entry(Err::<i64, StoreError>(StoreError::RowNotFound));
    assert!(value.is_none());
    let diag = diag.unwrap();
    assert_eq!(diag.level, LogLevel::Trace);
    assert_eq!(diag.text, "No rows returned from database query");
}

#[test]
fn diagnostics_name_each_failure_kind() {
    let d = diagnostic_for(&StoreError::Database(String::from("locked")));
    assert_eq!(d.level, LogLevel::Error);
    assert_eq!(d.text, "Error returned from database: locked");

    let d = diagnostic_for(&StoreError::ColumnIndexOutOfBounds { index: 3, len: 2 });
    assert_eq!(d.level, LogLevel::Error);
    assert_eq!(
        d.text,
        "Column index out of bounds while performing database query: index 3; len 2"
    );

    let d = diagnostic_for(&StoreError::ColumnDecode {
        index: String::from("1"),
        source: String::from("bad type"),
    });
    assert_eq!(d.text, "Unable to decode column in database: 1; source bad type");

    let d = diagnostic_for(&StoreError::PoolClosed);
    assert_eq!(d.level, LogLevel::Warn);
    assert_eq!(d.text, "Database pool closed while trying to acquire connection");

    let d = diagnostic_for(&StoreError::TypeNotFound(String::from("JSONB")));
    assert_eq!(d.text, "Unable to find type for database query: JSONB");

    let d = diagnostic_for(&StoreError::WorkerCrashed);
    assert_eq!(d.level, LogLevel::Error);
    assert_eq!(d.text, "Background worker for database pool crashed");

    let d = diagnostic_for(&StoreError::Other(String::from("???")));
    assert_eq!(d.text, "Unknown error while performing database query: ???");
}
