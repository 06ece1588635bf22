use med_timer::config::{ConfigError, EnvVars};
use med_timer::diag::LogLevel;
use med_timer::entry::{CombinedRow, EntryRow};
use med_timer::fetch::{lookup, respond};
use med_timer::med::Med;
use med_timer::plan::{
    all_entries_plan, all_meds_plan, entries_by_med_name_plan, entries_by_med_uuid_plan,
    entry_by_uuid_plan, med_by_name_plan, med_by_uuid_plan, DefaultQuery,
};

const MED_UUID: &str = "123e4567-e89b-12d3-a456-426614174000";
const E1: &str = "00000000-0000-4000-8000-00000000000a";
const E2: &str = "00000000-0000-4000-8000-00000000000b";
const E3: &str = "00000000-0000-4000-8000-00000000000c";

fn entry_row(amount: i64, time: &str, uuid: &str) -> EntryRow {
    EntryRow {
        amount,
        time: String::from(time),
        medication_uuid: String::from(MED_UUID),
        uuid: String::from(uuid),
    }
}

fn combined_row(amount: i64, time: &str, uuid: &str, name: &str) -> CombinedRow {
    CombinedRow {
        entry_uuid: String::from(uuid),
        entry_amount: amount,
        entry_time: String::from(time),
        medication_uuid: String::from(MED_UUID),
        medication_name: String::from(name),
    }
}

#[test]
fn count_defaults_to_one_hundred() {
    let q = DefaultQuery { count: None };
    assert_eq!(q.count_or_default(), 100);
    assert_eq!(q.count_or(7), 7);
    let q = DefaultQuery { count: Some(3) };
    assert_eq!(q.count_or_default(), 3);
    assert_eq!(q.count_or(7), 3);
}

#[test]
fn plans_fix_template_bindings_and_limit() {
    let q = DefaultQuery { count: None };

    let p = all_meds_plan(&q);
    assert_eq!(p.template, "SELECT name, uuid FROM medication");
    assert!(p.bindings.is_empty());
    assert_eq!(p.limit, 100);

    let p = med_by_uuid_plan(String::from(MED_UUID));
    assert_eq!(p.template, "SELECT name, uuid FROM medication WHERE uuid = ?");
    assert_eq!(p.bindings, vec![String::from(MED_UUID)]);
    assert_eq!(p.limit, 1);

    let p = med_by_name_plan(String::from("Aspirin"), &DefaultQuery { count: Some(5) });
    assert_eq!(p.template, "SELECT name, uuid FROM medication WHERE name = ?");
    assert_eq!(p.bindings, vec![String::from("Aspirin")]);
    assert_eq!(p.limit, 5);

    let p = all_entries_plan(&q);
    assert_eq!(
        p.template,
        "SELECT amount, time, medication_uuid, uuid FROM entry ORDER BY time DESC"
    );
    assert!(p.bindings.is_empty());
    assert_eq!(p.limit, 100);

    let p = entry_by_uuid_plan(String::from(E1));
    assert_eq!(
        p.template,
        "SELECT amount, time, medication_uuid, uuid FROM entry WHERE uuid = ? ORDER BY time DESC"
    );
    assert_eq!(p.bindings, vec![String::from(E1)]);
    assert_eq!(p.limit, 1);

    let p = entries_by_med_uuid_plan(String::from(MED_UUID), &q);
    assert_eq!(
        p.template,
        "SELECT amount, time, medication_uuid, uuid FROM entry WHERE medication_uuid = ? ORDER BY time DESC"
    );
    assert_eq!(p.bindings, vec![String::from(MED_UUID)]);
    assert_eq!(p.limit, 100);

    let p = entries_by_med_name_plan(String::from("Aspirin"), &q);
    assert_eq!(
        p.template,
        "SELECT entry.uuid AS entry_uuid, entry.amount AS entry_amount, entry.time AS entry_time, entry.medication_uuid, medication.name AS medication_name FROM entry INNER JOIN medication ON medication.uuid = entry.medication_uuid AND medication.name = ? ORDER BY entry.time DESC"
    );
    assert_eq!(p.bindings, vec![String::from("Aspirin")]);
    assert_eq!(p.limit, 100);
}

#[test]
fn entries_stay_most_recent_first() {
    // Store-ordered input, most recent first; the middle row fails to
    // decode and the survivors must keep the order.
    let rows = vec![
        entry_row(1, "2021-03-01T00:00:00+00:00", E1),
        entry_row(-5, "2021-02-01T00:00:00+00:00", E2),
        entry_row(2, "2021-01-01T00:00:00+00:00", E3),
    ];
    let (recs, diags) = respond(Ok(rows), 100);
    assert_eq!(recs.len(), 2);
    assert!(recs[0].time >= recs[1].time);
    assert_eq!(recs[0].uuid, E1);
    assert_eq!(recs[1].uuid, E3);
    assert_eq!(diags.len(), 1);
}

#[test]
fn med_round_trip_keeps_name_and_identifier() {
    let med = Med::new(String::from("Aspirin"));
    let uuid = med.uuid.clone();
    // The store would return exactly this row for a by-uuid lookup.
    let row = med.to_row();
    let (found, diags) = lookup(Ok(vec![row]));
    let found = found.unwrap();
    assert_eq!(found.name, "Aspirin");
    assert_eq!(found.uuid, uuid);
    assert!(diags.is_empty());
}

#[test]
fn joined_lookup_carries_fields_in_order_and_capped() {
    let rows = vec![
        combined_row(3, "2021-03-01T00:00:00+00:00", E1, "Aspirin"),
        combined_row(2, "2021-02-01T00:00:00+00:00", E2, "Aspirin"),
        combined_row(1, "2021-01-01T00:00:00+00:00", E3, "Aspirin"),
    ];
    let (recs, diags) = respond(Ok(rows), 2);
    assert_eq!(recs.len(), 2);
    assert!(diags.is_empty());
    assert_eq!(recs[0].medication_name, "Aspirin");
    assert_eq!(recs[1].medication_name, "Aspirin");
    assert_eq!(recs[0].entry_uuid, E1);
    assert_eq!(recs[0].entry_amount, 3);
    assert_eq!(recs[0].entry_time, "2021-03-01T00:00:00+00:00");
    assert_eq!(recs[1].entry_uuid, E2);
    assert_eq!(recs[1].entry_amount, 2);
    assert!(recs[0].entry_time >= recs[1].entry_time);
}

#[test]
fn env_vars_reject_missing_or_dangling_database() {
    assert_eq!(EnvVars::new(None, false, None).unwrap_err(), ConfigError::DatabaseUrlMissing);
    assert_eq!(
        EnvVars::new(Some(String::from("/tmp/db.sqlite")), false, None).unwrap_err(),
        ConfigError::DatabaseUrlNonexistent
    );
}

#[test]
fn env_vars_default_and_parse_levels() {
    let env = EnvVars::new(Some(String::from("db.sqlite")), true, None).unwrap();
    assert_eq!(env.database_url, "db.sqlite");
    assert_eq!(env.logging_level, LogLevel::Info);

    let env =
        EnvVars::new(Some(String::from("db.sqlite")), true, Some(String::from("TRACE"))).unwrap();
    assert_eq!(env.logging_level, LogLevel::Trace);

    assert_eq!(
        EnvVars::new(Some(String::from("db.sqlite")), true, Some(String::from("loud")))
            .unwrap_err(),
        ConfigError::LoggingLevelUnparseable
    );
}

#[test]
fn query_tracing_is_quieter_only_at_info() {
    let env = EnvVars::new(Some(String::from("db")), true, Some(String::from("info"))).unwrap();
    assert_eq!(env.sqlx_query_logging_level(), LogLevel::Warn);
    let env = EnvVars::new(Some(String::from("db")), true, Some(String::from("debug"))).unwrap();
    assert_eq!(env.sqlx_query_logging_level(), LogLevel::Debug);
    let env = EnvVars::new(Some(String::from("db")), true, Some(String::from("off"))).unwrap();
    assert_eq!(env.sqlx_query_logging_level(), LogLevel::Off);
}
