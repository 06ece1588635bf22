use med_timer::decimal::decimal_string;
use med_timer::entry::{CombinedRow, Entry, EntryRow};
use med_timer::fetch::{DecodeError, RowDecode};
use med_timer::ident::is_uuid_str;
use med_timer::med::{Med, MedRow};

const MED_UUID: &str = "123e4567-e89b-12d3-a456-426614174000";
const ENTRY_UUID: &str = "00000000-0000-4000-8000-000000000001";

#[test]
fn valid_uuid_shapes_accepted() {
    assert!(is_uuid_str(MED_UUID));
    assert!(is_uuid_str("00000000-0000-0000-0000-000000000000"));
    assert!(is_uuid_str("ABCDEF01-2345-6789-abcd-ef0123456789"));
}

#[test]
fn invalid_uuid_shapes_rejected() {
    assert!(!is_uuid_str(""));
    assert!(!is_uuid_str("123e4567-e89b-12d3-a456-42661417400"));
    assert!(!is_uuid_str("123e4567-e89b-12d3-a456-4266141740000"));
    assert!(!is_uuid_str("123e4567-e89b-12d3-a456-42661417400Z"));
    assert!(!is_uuid_str("123e4567xe89b-12d3-a456-426614174000"));
    assert!(!is_uuid_str("123e4567-e89b-12d3-a456-4266141740 0"));
}

#[test]
fn decode_keeps_canonical_time_text() {
    let row = EntryRow {
        amount: 1,
        time: String::from("2021-01-01T08:00:00+00:00"),
        medication_uuid: String::from(MED_UUID),
        uuid: String::from(ENTRY_UUID),
    };
    assert_eq!(row.decode().unwrap().time, "2021-01-01T08:00:00+00:00");
}

#[test]
fn decode_rejects_malformed_time_text() {
    for bad in ["", "yesterday", "2021-13-01T08:00:00+00:00", "2021-01-01 08:00"] {
        let row = EntryRow {
            amount: 1,
            time: String::from(bad),
            medication_uuid: String::from(MED_UUID),
            uuid: String::from(ENTRY_UUID),
        };
        assert_eq!(row.decode().unwrap_err(), DecodeError::BadTime);
    }
}

#[test]
fn med_new_generates_valid_identifier() {
    let med = Med::new(String::from("Aspirin"));
    assert_eq!(med.name, "Aspirin");
    assert_eq!(med.uuid.len(), 36);
    assert!(is_uuid_str(&med.uuid));
}

#[test]
fn med_new_identifiers_differ() {
    let a = Med::new(String::from("Aspirin"));
    let b = Med::new(String::from("Aspirin"));
    assert_ne!(a.uuid, b.uuid);
}

#[test]
fn med_decode_accepts_valid_row() {
    let row = MedRow { name: String::from("Aspirin"), uuid: String::from(MED_UUID) };
    let med = row.decode().unwrap();
    assert_eq!(med.name, "Aspirin");
    assert_eq!(med.uuid, MED_UUID);
}

#[test]
fn med_decode_rejects_bad_identifier() {
    let row = MedRow { name: String::from("Aspirin"), uuid: String::from("not-a-uuid") };
    assert_eq!(row.decode().unwrap_err(), DecodeError::BadUuid);
}

#[test]
fn entry_decode_normalizes_time() {
    let row = EntryRow {
        amount: 2,
        time: String::from("2021-06-01T12:30:00+05:30"),
        medication_uuid: String::from(MED_UUID),
        uuid: String::from(ENTRY_UUID),
    };
    let entry = row.decode().unwrap();
    assert_eq!(entry.amount, 2);
    assert_eq!(entry.time, "2021-06-01T07:00:00+00:00");
    assert_eq!(entry.medication_uuid, MED_UUID);
    assert_eq!(entry.uuid, ENTRY_UUID);
}

#[test]
fn entry_decode_rejects_each_bad_field() {
    let good = EntryRow {
        amount: 1,
        time: String::from("2021-06-01T12:30:00+00:00"),
        medication_uuid: String::from(MED_UUID),
        uuid: String::from(ENTRY_UUID),
    };

    let mut row = good.clone();
    row.amount = -1;
    assert_eq!(row.decode().unwrap_err(), DecodeError::NegativeAmount);

    let mut row = good.clone();
    row.time = String::from("twelve thirty");
    assert_eq!(row.decode().unwrap_err(), DecodeError::BadTime);

    let mut row = good.clone();
    row.medication_uuid = String::from("nope");
    assert_eq!(row.decode().unwrap_err(), DecodeError::BadMedicationUuid);

    let mut row = good;
    row.uuid = String::from("nope");
    assert_eq!(row.decode().unwrap_err(), DecodeError::BadUuid);
}

#[test]
fn combined_decode_carries_all_fields() {
    let row = CombinedRow {
        entry_uuid: String::from(ENTRY_UUID),
        entry_amount: 3,
        entry_time: String::from("2021-06-01T12:30:00-01:00"),
        medication_uuid: String::from(MED_UUID),
        medication_name: String::from("Aspirin"),
    };
    let rec = row.decode().unwrap();
    assert_eq!(rec.entry_uuid, ENTRY_UUID);
    assert_eq!(rec.entry_amount, 3);
    assert_eq!(rec.entry_time, "2021-06-01T13:30:00+00:00");
    assert_eq!(rec.medication_uuid, MED_UUID);
    assert_eq!(rec.medication_name, "Aspirin");
}

#[test]
fn combined_decode_rejects_bad_entry_identifier() {
    let row = CombinedRow {
        entry_uuid: String::from("nope"),
        entry_amount: 3,
        entry_time: String::from("2021-06-01T12:30:00+00:00"),
        medication_uuid: String::from(MED_UUID),
        medication_name: String::from("Aspirin"),
    };
    assert_eq!(row.decode().unwrap_err(), DecodeError::BadUuid);
}

#[test]
fn entry_new_normalizes_and_validates() {
    let entry = Entry::new(5, "1999-12-31T23:00:00-02:00", MED_UUID).unwrap();
    assert_eq!(entry.amount, 5);
    assert_eq!(entry.time, "2000-01-01T01:00:00+00:00");
    assert_eq!(entry.medication_uuid, MED_UUID);
    assert!(is_uuid_str(&entry.uuid));

    assert!(Entry::new(5, "not a time", MED_UUID).is_none());
    assert!(Entry::new(5, "1999-12-31T23:00:00-02:00", "not-a-uuid").is_none());
}

#[test]
fn entry_new_now_uses_current_clock() {
    let entry = Entry::new_now(1, MED_UUID).unwrap();
    assert_eq!(entry.amount, 1);
    assert_eq!(entry.medication_uuid, MED_UUID);
    assert!(is_uuid_str(&entry.uuid));
    // The clock's text is RFC 3339 and already UTC-normal: building another
    // entry at that same written time leaves the text unchanged.
    let again = Entry::new(1, &entry.time, MED_UUID).unwrap();
    assert_eq!(again.time, entry.time);

    assert!(Entry::new_now(1, "nope").is_none());
}

#[test]
fn decimal_renders_exact_digits() {
    assert_eq!(decimal_string(0), "0");
    assert_eq!(decimal_string(7), "7");
    assert_eq!(decimal_string(10), "10");
    assert_eq!(decimal_string(105), "105");
    assert_eq!(decimal_string(usize::MAX), usize::MAX.to_string());
}
