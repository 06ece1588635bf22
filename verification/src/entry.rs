//! The dosage entry record, and the entry-joined-with-medication-name
//! projection that the by-name lookup returns.

use vstd::prelude::*;
use crate::fetch::{DecodeError, RowDecode};
use crate::ident::{fresh_uuid, is_uuid, is_uuid_str};
use crate::timestamp::{normalize_rfc3339, now_rfc3339, rfc3339_utc};

verus! {

/// Stores information about a single medicine entry.
#[derive(Clone, Debug)]
pub struct Entry {
    pub amount: i64,
    pub time: String,
    pub medication_uuid: String,
    pub uuid: String,
}

/// The abstract value of a dosage entry.
#[verifier::ext_equal]
pub struct EntryV {
    pub amount: int,
    pub time: Seq<char>,
    pub medication_uuid: Seq<char>,
    pub uuid: Seq<char>,
}

impl View for Entry {
    type V = EntryV;

    open spec fn view(&self) -> EntryV {
        EntryV {
            amount: self.amount as int,
            time: self.time@,
            medication_uuid: self.medication_uuid@,
            uuid: self.uuid@,
        }
    }
}

/// A raw entry row as the store returns it.
#[derive(Clone, Debug)]
pub struct EntryRow {
    pub amount: i64,
    pub time: String,
    pub medication_uuid: String,
    pub uuid: String,
}

/// The abstract value of a raw entry row.
#[verifier::ext_equal]
pub struct EntryRowV {
    pub amount: int,
    pub time: Seq<char>,
    pub medication_uuid: Seq<char>,
    pub uuid: Seq<char>,
}

impl View for EntryRow {
    type V = EntryRowV;

    open spec fn view(&self) -> EntryRowV {
        EntryRowV {
            amount: self.amount as int,
            time: self.time@,
            medication_uuid: self.medication_uuid@,
            uuid: self.uuid@,
        }
    }
}

/// What decoding one entry row yields: every field must pass its
/// validation, the timestamp is re-normalized to UTC, and the first
/// failing field (in declaration order) names the rejection.
pub open spec fn spec_decode_entry(r: EntryRowV) -> Result<EntryV, DecodeError> {
    if r.amount < 0 {
        Err(DecodeError::NegativeAmount)
    } else if rfc3339_utc(r.time) is None {
        Err(DecodeError::BadTime)
    } else if !is_uuid(r.medication_uuid) {
        Err(DecodeError::BadMedicationUuid)
    } else if !is_uuid(r.uuid) {
        Err(DecodeError::BadUuid)
    } else {
        Ok(
            EntryV {
                amount: r.amount,
                time: rfc3339_utc(r.time)->0,
                medication_uuid: r.medication_uuid,
                uuid: r.uuid,
            },
        )
    }
}

impl RowDecode for EntryRow {
    type Out = Entry;

    open spec fn decode_spec(v: EntryRowV) -> Result<EntryV, DecodeError> {
        spec_decode_entry(v)
    }

    fn decode(&self) -> (r: Result<Entry, DecodeError>) {
        if self.amount < 0 {
            return Err(DecodeError::NegativeAmount);
        }
        let time = match normalize_rfc3339(self.time.as_str()) {
            Some(t) => t,
            None => {
                return Err(DecodeError::BadTime);
            },
        };
        if !is_uuid_str(self.medication_uuid.as_str()) {
            return Err(DecodeError::BadMedicationUuid);
        }
        if !is_uuid_str(self.uuid.as_str()) {
            return Err(DecodeError::BadUuid);
        }
        Ok(
            Entry {
                amount: self.amount,
                time,
                medication_uuid: self.medication_uuid.clone(),
                uuid: self.uuid.clone(),
            },
        )
    }
}

impl Entry {
    /// A well-formed entry: non-negative amount and validly shaped
    /// identifiers.
    pub open spec fn wf(self) -> bool {
        &&& self@.amount >= 0
        &&& is_uuid(self@.medication_uuid)
        &&& is_uuid(self@.uuid)
    }

    /// Constructs a new entry with the given amount, at the given RFC 3339
    /// time (converting into UTC), for the given medicine id. Yields
    /// nothing when the time does not parse or the id is malformed.
    pub fn new(amount: i64, time: &str, medicine_id: &str) -> (r: Option<Entry>)
        requires
            amount >= 0,
        ensures
            r is Some <==> (rfc3339_utc(time@) is Some && is_uuid(medicine_id@)),
            r is Some ==> {
                &&& r->0@.amount == amount as int
                &&& r->0@.time == rfc3339_utc(time@)->0
                &&& r->0@.medication_uuid == medicine_id@
                &&& r->0.wf()
            },
    {
        let time = match normalize_rfc3339(time) {
            Some(t) => t,
            None => {
                return None;
            },
        };
        if !is_uuid_str(medicine_id) {
            return None;
        }
        Some(
            Entry {
                amount,
                time,
                medication_uuid: String::from_str(medicine_id),
                uuid: fresh_uuid(),
            },
        )
    }

    /// Constructs a new entry with the given amount for the given medicine
    /// id at the current UTC time. Yields nothing when the id is malformed.
    /// The timestamp comes from the clock, so nothing is stated of it.
    pub fn new_now(amount: i64, medicine_id: &str) -> (r: Option<Entry>)
        requires
            amount >= 0,
        ensures
            r is Some <==> is_uuid(medicine_id@),
            r is Some ==> {
                &&& r->0@.amount == amount as int
                &&& r->0@.medication_uuid == medicine_id@
                &&& r->0.wf()
            },
    {
        if !is_uuid_str(medicine_id) {
            return None;
        }
        Some(
            Entry {
                amount,
                time: now_rfc3339(),
                medication_uuid: String::from_str(medicine_id),
                uuid: fresh_uuid(),
            },
        )
    }
}

/// Combined information of entry + medication, removing the need for a
/// second lookup in some situations.
#[derive(Clone, Debug)]
pub struct CombinedEntryMed {
    pub entry_uuid: String,
    pub entry_amount: i64,
    pub entry_time: String,
    pub medication_uuid: String,
    pub medication_name: String,
}

/// The abstract value of a combined entry-and-medication record.
#[verifier::ext_equal]
pub struct CombinedEntryMedV {
    pub entry_uuid: Seq<char>,
    pub entry_amount: int,
    pub entry_time: Seq<char>,
    pub medication_uuid: Seq<char>,
    pub medication_name: Seq<char>,
}

impl View for CombinedEntryMed {
    type V = CombinedEntryMedV;

    open spec fn view(&self) -> CombinedEntryMedV {
        CombinedEntryMedV {
            entry_uuid: self.entry_uuid@,
            entry_amount: self.entry_amount as int,
            entry_time: self.entry_time@,
            medication_uuid: self.medication_uuid@,
            medication_name: self.medication_name@,
        }
    }
}

/// A raw joined row as the store returns it.
#[derive(Clone, Debug)]
pub struct CombinedRow {
    pub entry_uuid: String,
    pub entry_amount: i64,
    pub entry_time: String,
    pub medication_uuid: String,
    pub medication_name: String,
}

/// The abstract value of a raw joined row.
#[verifier::ext_equal]
pub struct CombinedRowV {
    pub entry_uuid: Seq<char>,
    pub entry_amount: int,
    pub entry_time: Seq<char>,
    pub medication_uuid: Seq<char>,
    pub medication_name: Seq<char>,
}

impl View for CombinedRow {
    type V = CombinedRowV;

    open spec fn view(&self) -> CombinedRowV {
        CombinedRowV {
            entry_uuid: self.entry_uuid@,
            entry_amount: self.entry_amount as int,
            entry_time: self.entry_time@,
            medication_uuid: self.medication_uuid@,
            medication_name: self.medication_name@,
        }
    }
}

/// What decoding one joined row yields, with the same per-field
/// validation as a plain entry row.
pub open spec fn spec_decode_combined(r: CombinedRowV) -> Result<CombinedEntryMedV, DecodeError> {
    if r.entry_amount < 0 {
        Err(DecodeError::NegativeAmount)
    } else if rfc3339_utc(r.entry_time) is None {
        Err(DecodeError::BadTime)
    } else if !is_uuid(r.medication_uuid) {
        Err(DecodeError::BadMedicationUuid)
    } else if !is_uuid(r.entry_uuid) {
        Err(DecodeError::BadUuid)
    } else {
        Ok(
            CombinedEntryMedV {
                entry_uuid: r.entry_uuid,
                entry_amount: r.entry_amount,
                entry_time: rfc3339_utc(r.entry_time)->0,
                medication_uuid: r.medication_uuid,
                medication_name: r.medication_name,
            },
        )
    }
}

impl RowDecode for CombinedRow {
    type Out = CombinedEntryMed;

    open spec fn decode_spec(v: CombinedRowV) -> Result<CombinedEntryMedV, DecodeError> {
        spec_decode_combined(v)
    }

    fn decode(&self) -> (r: Result<CombinedEntryMed, DecodeError>) {
        if self.entry_amount < 0 {
            return Err(DecodeError::NegativeAmount);
        }
        let entry_time = match normalize_rfc3339(self.entry_time.as_str()) {
            Some(t) => t,
            None => {
                return Err(DecodeError::BadTime);
            },
        };
        if !is_uuid_str(self.medication_uuid.as_str()) {
            return Err(DecodeError::BadMedicationUuid);
        }
        if !is_uuid_str(self.entry_uuid.as_str()) {
            return Err(DecodeError::BadUuid);
        }
        Ok(
            CombinedEntryMed {
                entry_uuid: self.entry_uuid.clone(),
                entry_amount: self.entry_amount,
                entry_time,
                medication_uuid: self.medication_uuid.clone(),
                medication_name: self.medication_name.clone(),
            },
        )
    }
}

} // verus!
