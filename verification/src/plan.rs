//! Each endpoint's fixed query: a parameterized SQL template, the bind
//! values in placeholder order, and the result-count cap. The template is
//! fixed per call site — request text only ever flows into bind values —
//! and an absent filter omits its predicate rather than binding a wildcard.

use vstd::prelude::*;
use crate::DEFAULT_LIMIT;

verus! {

/// Simple query type that should work for most request parameters.
pub struct DefaultQuery {
    pub count: Option<usize>,
}

/// The count cap a request's parameters ask for, or the default when they
/// name none.
pub open spec fn spec_count_or_default(q: DefaultQuery) -> int {
    match q.count {
        Some(c) => c as int,
        None => DEFAULT_LIMIT as int,
    }
}

impl DefaultQuery {
    /// Returns the stored value, or `default` if nothing stored.
    pub fn count_or(&self, default: usize) -> (n: usize)
        ensures
            n == (match self.count {
                Some(c) => c,
                None => default,
            }),
    {
        match self.count {
            Some(c) => c,
            None => default,
        }
    }

    /// Returns the stored value, or the default cap if nothing stored.
    pub fn count_or_default(&self) -> (n: usize)
        ensures
            n == spec_count_or_default(*self),
    {
        self.count_or(DEFAULT_LIMIT)
    }
}

/// One ready-to-run store query: template text, bind values in placeholder
/// order, and how many decoded records the caller will keep at most.
pub struct QueryPlan {
    pub template: String,
    pub bindings: Vec<String>,
    pub limit: usize,
}

impl QueryPlan {
    /// The bind values, abstractly.
    pub open spec fn bindings_view(&self) -> Seq<Seq<char>> {
        self.bindings@.map_values(|b: String| b@)
    }
}

/// The query behind `GET /med/`: every medication, capped at the requested
/// count.
pub fn all_meds_plan(queries: &DefaultQuery) -> (p: QueryPlan)
    ensures
        p.template@ == "SELECT name, uuid FROM medication"@,
        p.bindings_view() == Seq::<Seq<char>>::empty(),
        p.limit == spec_count_or_default(*queries),
{
    let p = QueryPlan {
        template: String::from_str("SELECT name, uuid FROM medication"),
        bindings: Vec::new(),
        limit: queries.count_or_default(),
    };
    proof {
        assert(p.bindings_view() =~= Seq::<Seq<char>>::empty());
    }
    p
}

/// The query behind `GET /med/by-uuid/{uuid}/`: the medication with the
/// given identifier, a single-or-none lookup.
pub fn med_by_uuid_plan(medication_uuid: String) -> (p: QueryPlan)
    ensures
        p.template@ == "SELECT name, uuid FROM medication WHERE uuid = ?"@,
        p.bindings_view() == seq![medication_uuid@],
        p.limit == 1,
{
    let ghost u = medication_uuid@;
    let p = QueryPlan {
        template: String::from_str("SELECT name, uuid FROM medication WHERE uuid = ?"),
        bindings: vec![medication_uuid],
        limit: 1,
    };
    proof {
        assert(p.bindings_view() =~= seq![u]);
    }
    p
}

/// The query behind `GET /med/by-name/{name}/`: medications with the given
/// name, capped at the requested count.
pub fn med_by_name_plan(name: String, queries: &DefaultQuery) -> (p: QueryPlan)
    ensures
        p.template@ == "SELECT name, uuid FROM medication WHERE name = ?"@,
        p.bindings_view() == seq![name@],
        p.limit == spec_count_or_default(*queries),
{
    let ghost n = name@;
    let p = QueryPlan {
        template: String::from_str("SELECT name, uuid FROM medication WHERE name = ?"),
        bindings: vec![name],
        limit: queries.count_or_default(),
    };
    proof {
        assert(p.bindings_view() =~= seq![n]);
    }
    p
}

/// The query behind `GET /entry/`: every entry, most recent first, capped
/// at the requested count.
pub fn all_entries_plan(queries: &DefaultQuery) -> (p: QueryPlan)
    ensures
        p.template@ == "SELECT amount, time, medication_uuid, uuid FROM entry ORDER BY time DESC"@,
        p.bindings_view() == Seq::<Seq<char>>::empty(),
        p.limit == spec_count_or_default(*queries),
{
    let p = QueryPlan {
        template: String::from_str(
            "SELECT amount, time, medication_uuid, uuid FROM entry ORDER BY time DESC",
        ),
        bindings: Vec::new(),
        limit: queries.count_or_default(),
    };
    proof {
        assert(p.bindings_view() =~= Seq::<Seq<char>>::empty());
    }
    p
}

/// The query behind `GET /entry/by-entry-uuid/{uuid}/`: the entry with the
/// given identifier, a single-or-none lookup.
pub fn entry_by_uuid_plan(entry_uuid: String) -> (p: QueryPlan)
    ensures
        p.template@
            == "SELECT amount, time, medication_uuid, uuid FROM entry WHERE uuid = ? ORDER BY time DESC"@,
        p.bindings_view() == seq![entry_uuid@],
        p.limit == 1,
{
    let ghost u = entry_uuid@;
    let p = QueryPlan {
        template: String::from_str(
            "SELECT amount, time, medication_uuid, uuid FROM entry WHERE uuid = ? ORDER BY time DESC",
        ),
        bindings: vec![entry_uuid],
        limit: 1,
    };
    proof {
        assert(p.bindings_view() =~= seq![u]);
    }
    p
}

/// The query behind `GET /entry/by-med-uuid/{uuid}/`: the entries of one
/// medication, most recent first, capped at the requested count.
pub fn entries_by_med_uuid_plan(medication_uuid: String, queries: &DefaultQuery) -> (p: QueryPlan)
    ensures
        p.template@
            == "SELECT amount, time, medication_uuid, uuid FROM entry WHERE medication_uuid = ? ORDER BY time DESC"@,
        p.bindings_view() == seq![medication_uuid@],
        p.limit == spec_count_or_default(*queries),
{
    let ghost u = medication_uuid@;
    let p = QueryPlan {
        template: String::from_str(
            "SELECT amount, time, medication_uuid, uuid FROM entry WHERE medication_uuid = ? ORDER BY time DESC",
        ),
        bindings: vec![medication_uuid],
        limit: queries.count_or_default(),
    };
    proof {
        assert(p.bindings_view() =~= seq![u]);
    }
    p
}

/// The query behind `GET /entry/by-med-name/{name}/`: entries joined with
/// their medication's name, most recent first, capped at the requested
/// count. A dangling medication reference simply joins to no row.
pub fn entries_by_med_name_plan(medication_name: String, queries: &DefaultQuery) -> (p: QueryPlan)
    ensures
        p.template@
            == "SELECT entry.uuid AS entry_uuid, entry.amount AS entry_amount, entry.time AS entry_time, entry.medication_uuid, medication.name AS medication_name FROM entry INNER JOIN medication ON medication.uuid = entry.medication_uuid AND medication.name = ? ORDER BY entry.time DESC"@,
        p.bindings_view() == seq![medication_name@],
        p.limit == spec_count_or_default(*queries),
{
    let ghost n = medication_name@;
    let p = QueryPlan {
        template: String::from_str(
            "SELECT entry.uuid AS entry_uuid, entry.amount AS entry_amount, entry.time AS entry_time, entry.medication_uuid, medication.name AS medication_name FROM entry INNER JOIN medication ON medication.uuid = entry.medication_uuid AND medication.name = ? ORDER BY entry.time DESC",
        ),
        bindings: vec![medication_name],
        limit: queries.count_or_default(),
    };
    proof {
        assert(p.bindings_view() =~= seq![n]);
    }
    p
}

} // verus!
