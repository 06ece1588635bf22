//! The medication record: a free-text name and a generated identifier.

use vstd::prelude::*;
use crate::fetch::{DecodeError, RowDecode};
use crate::ident::{fresh_uuid, is_uuid, is_uuid_str};

verus! {

/// Stores information about a single medication.
#[derive(Clone, Debug)]
pub struct Med {
    pub name: String,
    pub uuid: String,
}

/// The abstract value of a medication record.
#[verifier::ext_equal]
pub struct MedV {
    pub name: Seq<char>,
    pub uuid: Seq<char>,
}

impl View for Med {
    type V = MedV;

    open spec fn view(&self) -> MedV {
        MedV { name: self.name@, uuid: self.uuid@ }
    }
}

/// A raw medication row as the store returns it, both columns as text.
#[derive(Clone, Debug)]
pub struct MedRow {
    pub name: String,
    pub uuid: String,
}

/// The abstract value of a raw medication row.
#[verifier::ext_equal]
pub struct MedRowV {
    pub name: Seq<char>,
    pub uuid: Seq<char>,
}

impl View for MedRow {
    type V = MedRowV;

    open spec fn view(&self) -> MedRowV {
        MedRowV { name: self.name@, uuid: self.uuid@ }
    }
}

/// What decoding one medication row yields: the row as a record when its
/// identifier is syntactically valid, else the rejection.
pub open spec fn spec_decode_med(r: MedRowV) -> Result<MedV, DecodeError> {
    if is_uuid(r.uuid) {
        Ok(MedV { name: r.name, uuid: r.uuid })
    } else {
        Err(DecodeError::BadUuid)
    }
}

impl RowDecode for MedRow {
    type Out = Med;

    open spec fn decode_spec(v: MedRowV) -> Result<MedV, DecodeError> {
        spec_decode_med(v)
    }

    fn decode(&self) -> (r: Result<Med, DecodeError>) {
        if is_uuid_str(self.uuid.as_str()) {
            Ok(Med { name: self.name.clone(), uuid: self.uuid.clone() })
        } else {
            Err(DecodeError::BadUuid)
        }
    }
}

impl Med {
    /// A well-formed medication: its identifier has the valid shape.
    pub open spec fn wf(self) -> bool {
        is_uuid(self@.uuid)
    }

    /// Creates a new medication with the given name and a fresh identifier.
    pub fn new(name: String) -> (m: Med)
        ensures
            m@.name == name@,
            m.wf(),
    {
        Med { name, uuid: fresh_uuid() }
    }

    /// The raw row this medication is stored as.
    pub fn to_row(&self) -> (r: MedRow)
        ensures
            r@.name == self@.name,
            r@.uuid == self@.uuid,
    {
        MedRow { name: self.name.clone(), uuid: self.uuid.clone() }
    }
}

/// The raw row a medication is stored as, abstractly.
pub open spec fn spec_med_row(m: MedV) -> MedRowV {
    MedRowV { name: m.name, uuid: m.uuid }
}

} // verus!
