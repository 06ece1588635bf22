//! The shared filtered-fetch mechanism: decode raw store rows one at a
//! time in store order, drop the ones that fail validation, and stop after
//! the requested number of successful decodes.

use vstd::prelude::*;
use crate::diag::{handle_entry, spec_diagnostic_level, spec_diagnostic_text, Diagnostic, LogLevel,
    StoreError};

verus! {

/// Why one raw row was rejected: the first field, in declaration order,
/// that failed its validation.
#[derive(Clone, Copy, Debug, PartialEq, Eq, Structural)]
pub enum DecodeError {
    NegativeAmount,
    BadTime,
    BadMedicationUuid,
    BadUuid,
}

/// A raw row kind that decodes into a record kind. Decoding is a pure
/// function of the row: the specification names the exact outcome.
pub trait RowDecode: View + Sized {
    type Out: View;

    /// What decoding one row yields: the decoded record's abstract value,
    /// or the reason the row is rejected.
    spec fn decode_spec(v: Self::V) -> Result<<Self::Out as View>::V, DecodeError>;

    /// Decodes this row.
    fn decode(&self) -> (r: Result<Self::Out, DecodeError>)
        ensures
            r is Ok <==> Self::decode_spec(self@) is Ok,
            r is Ok ==> r->Ok_0@ == Self::decode_spec(self@)->Ok_0,
            r is Err ==> r->Err_0 == Self::decode_spec(self@)->Err_0,
    ;
}

/// The abstract values of a sequence of rows.
pub open spec fn row_views<R: View>(rows: Seq<R>) -> Seq<R::V> {
    rows.map_values(|r: R| r@)
}

/// Every row of `rows` that decodes, in order.
pub open spec fn decoded_records<R: RowDecode>(rows: Seq<R::V>) -> Seq<<R::Out as View>::V>
    decreases rows.len(),
{
    if rows.len() == 0 {
        Seq::empty()
    } else {
        match R::decode_spec(rows[0]) {
            Ok(v) => seq![v] + decoded_records::<R>(rows.drop_first()),
            Err(_) => decoded_records::<R>(rows.drop_first()),
        }
    }
}

/// The whole of `s` when it has at most `n` elements, else its first `n`.
pub open spec fn take_at_most<T>(s: Seq<T>, n: nat) -> Seq<T> {
    if s.len() <= n {
        s
    } else {
        s.take(n as int)
    }
}

/// The records a fetch of at most `limit` returns: successful decodes in
/// store order, stopping as soon as `limit` of them have been produced.
pub open spec fn fetched_records<R: RowDecode>(rows: Seq<R::V>, limit: nat) -> Seq<
    <R::Out as View>::V,
>
    decreases rows.len(),
{
    if rows.len() == 0 || limit == 0 {
        Seq::empty()
    } else {
        match R::decode_spec(rows[0]) {
            Ok(v) => seq![v] + fetched_records::<R>(rows.drop_first(), (limit - 1) as nat),
            Err(_) => fetched_records::<R>(rows.drop_first(), limit),
        }
    }
}

/// The rejections among the rows such a fetch examines, in store order.
/// Rows past the point where the fetch stops are never examined.
pub open spec fn dropped_causes<R: RowDecode>(rows: Seq<R::V>, limit: nat) -> Seq<DecodeError>
    decreases rows.len(),
{
    if rows.len() == 0 || limit == 0 {
        Seq::empty()
    } else {
        match R::decode_spec(rows[0]) {
            Ok(_) => dropped_causes::<R>(rows.drop_first(), (limit - 1) as nat),
            Err(e) => seq![e] + dropped_causes::<R>(rows.drop_first(), limit),
        }
    }
}

/// Stopping at `limit` successes returns exactly the first `limit` of all
/// the successfully decodable rows, or all of them when fewer decode.
pub proof fn lemma_fetched_is_take<R: RowDecode>(rows: Seq<R::V>, limit: nat)
    ensures
        fetched_records::<R>(rows, limit) == take_at_most(decoded_records::<R>(rows), limit),
    decreases rows.len(),
{
    if rows.len() == 0 {
        assert(fetched_records::<R>(rows, limit) =~= take_at_most(
            decoded_records::<R>(rows),
            limit,
        ));
    } else if limit == 0 {
        assert(fetched_records::<R>(rows, limit) =~= take_at_most(
            decoded_records::<R>(rows),
            limit,
        ));
    } else {
        lemma_fetched_is_take::<R>(rows.drop_first(), (limit - 1) as nat);
        lemma_fetched_is_take::<R>(rows.drop_first(), limit);
        assert(fetched_records::<R>(rows, limit) =~= take_at_most(
            decoded_records::<R>(rows),
            limit,
        ));
    }
}

/// Some row of `rows` decodes to exactly the record `v`.
pub open spec fn comes_from_row<R: RowDecode>(rows: Seq<R::V>, v: <R::Out as View>::V) -> bool {
    exists|i: int|
        0 <= i < rows.len() && #[trigger] R::decode_spec(rows[i]) is Ok && v == R::decode_spec(
            rows[i],
        )->Ok_0
}

/// Every record a decode pass yields comes from some row that decodes to
/// exactly that record.
pub proof fn lemma_decoded_membership<R: RowDecode>(rows: Seq<R::V>)
    ensures
        forall|k: int|
            0 <= k < decoded_records::<R>(rows).len() ==> comes_from_row::<R>(
                rows,
                #[trigger] decoded_records::<R>(rows)[k],
            ),
    decreases rows.len(),
{
    if rows.len() == 0 {
    } else {
        lemma_decoded_membership::<R>(rows.drop_first());
        let d = decoded_records::<R>(rows);
        let dr = decoded_records::<R>(rows.drop_first());
        assert forall|k: int| 0 <= k < d.len() implies comes_from_row::<R>(rows, d[k]) by {
            if R::decode_spec(rows[0]) is Ok && k == 0 {
                assert(R::decode_spec(rows[0]) is Ok && d[0] == R::decode_spec(rows[0])->Ok_0);
            } else {
                let kr = if R::decode_spec(rows[0]) is Ok {
                    k - 1
                } else {
                    k
                };
                assert(d[k] == dr[kr]);
                assert(comes_from_row::<R>(rows.drop_first(), dr[kr]));
                let i0 = choose|i: int|
                    0 <= i < rows.drop_first().len() && #[trigger] R::decode_spec(
                        rows.drop_first()[i],
                    ) is Ok && dr[kr] == R::decode_spec(rows.drop_first()[i])->Ok_0;
                assert(rows.drop_first()[i0] == rows[i0 + 1]);
                assert(R::decode_spec(rows[i0 + 1]) is Ok && d[k] == R::decode_spec(
                    rows[i0 + 1],
                )->Ok_0);
            }
        }
    }
}

/// Decodes `rows` in store order, drops the ones that fail (returning each
/// cause, in order), and stops after `limit` successful decodes.
pub fn filtered_fetch<R: RowDecode>(rows: &Vec<R>, limit: usize) -> (out: (
    Vec<R::Out>,
    Vec<DecodeError>,
))
    ensures
        out.0@.map_values(|x: R::Out| x@) == take_at_most(
            decoded_records::<R>(row_views(rows@)),
            limit as nat,
        ),
        out.1@ == dropped_causes::<R>(row_views(rows@), limit as nat),
        out.0@.len() <= limit,
{
    let ghost views = row_views(rows@);
    let n = rows.len();
    let mut recs: Vec<R::Out> = Vec::new();
    let mut drops: Vec<DecodeError> = Vec::new();
    let mut i: usize = 0;
    proof {
        assert(views.skip(0) =~= views);
    }
    while i < n && recs.len() < limit
        invariant
            n == rows.len(),
            i <= n,
            views == row_views(rows@),
            views.len() == n,
            recs@.len() <= limit,
            fetched_records::<R>(views, limit as nat) == recs@.map_values(|x: R::Out| x@)
                + fetched_records::<R>(views.skip(i as int), (limit - recs@.len()) as nat),
            dropped_causes::<R>(views, limit as nat) == drops@ + dropped_causes::<R>(
                views.skip(i as int),
                (limit - recs@.len()) as nat,
            ),
        decreases n - i,
    {
        let row = &rows[i];
        proof {
            assert(views.skip(i as int).len() > 0);
            assert(views.skip(i as int)[0] == views[i as int]);
            assert(views[i as int] == rows@[i as int]@);
            assert(views.skip(i as int).drop_first() =~= views.skip(i as int + 1));
        }
        match row.decode() {
            Ok(rec) => {
                proof {
                    assert((recs@.push(rec)).map_values(|x: R::Out| x@) =~= recs@.map_values(
                        |x: R::Out| x@,
                    ).push(rec@));
                    assert(recs@.map_values(|x: R::Out| x@) + seq![rec@] + fetched_records::<R>(
                        views.skip(i as int + 1),
                        (limit - recs@.len() - 1) as nat,
                    ) =~= recs@.map_values(|x: R::Out| x@) + (seq![rec@] + fetched_records::<R>(
                        views.skip(i as int + 1),
                        (limit - recs@.len() - 1) as nat,
                    )));
                }
                recs.push(rec);
            },
            Err(e) => {
                proof {
                    assert(drops@ + seq![e] + dropped_causes::<R>(
                        views.skip(i as int + 1),
                        (limit - recs@.len()) as nat,
                    ) =~= drops@ + (seq![e] + dropped_causes::<R>(
                        views.skip(i as int + 1),
                        (limit - recs@.len()) as nat,
                    )));
                    assert((drops@.push(e)) =~= drops@ + seq![e]);
                }
                drops.push(e);
            },
        }
        i += 1;
    }
    proof {
        if i == n {
            assert(views.skip(n as int) =~= Seq::empty());
        }
        assert(fetched_records::<R>(views.skip(i as int), (limit - recs@.len()) as nat)
            =~= Seq::empty());
        assert(dropped_causes::<R>(views.skip(i as int), (limit - recs@.len()) as nat)
            =~= Seq::empty());
        assert(fetched_records::<R>(views, limit as nat) =~= recs@.map_values(|x: R::Out| x@));
        assert(dropped_causes::<R>(views, limit as nat) =~= drops@);
        lemma_fetched_is_take::<R>(views, limit as nat);
    }
    (recs, drops)
}

/// The text a dropped row is reported with.
pub open spec fn spec_drop_text(e: DecodeError) -> Seq<char> {
    match e {
        DecodeError::NegativeAmount => "row dropped: negative amount"@,
        DecodeError::BadTime => "row dropped: malformed timestamp"@,
        DecodeError::BadMedicationUuid => "row dropped: malformed medication identifier"@,
        DecodeError::BadUuid => "row dropped: malformed identifier"@,
    }
}

/// Builds the diagnostic record for one dropped row.
pub fn drop_diagnostic(e: DecodeError) -> (d: Diagnostic)
    ensures
        d.level == LogLevel::Error,
        d.text@ == spec_drop_text(e),
{
    match e {
        DecodeError::NegativeAmount => Diagnostic {
            level: LogLevel::Error,
            text: String::from_str("row dropped: negative amount"),
        },
        DecodeError::BadTime => Diagnostic {
            level: LogLevel::Error,
            text: String::from_str("row dropped: malformed timestamp"),
        },
        DecodeError::BadMedicationUuid => Diagnostic {
            level: LogLevel::Error,
            text: String::from_str("row dropped: malformed medication identifier"),
        },
        DecodeError::BadUuid => Diagnostic {
            level: LogLevel::Error,
            text: String::from_str("row dropped: malformed identifier"),
        },
    }
}

/// Shapes one whole fetch outcome as a response body: on success, the
/// decoded records capped at `limit` plus one diagnostic per dropped row;
/// on store failure, an empty result plus the failure's diagnostic. No
/// failure ever propagates to the caller as an error.
pub fn respond<R: RowDecode>(outcome: Result<Vec<R>, StoreError>, limit: usize) -> (out: (
    Vec<R::Out>,
    Vec<Diagnostic>,
))
    requires
        outcome is Err ==> !(outcome->Err_0 is Configuration),
    ensures
        outcome is Ok ==> {
            &&& out.0@.map_values(|x: R::Out| x@) == take_at_most(
                decoded_records::<R>(row_views(outcome->Ok_0@)),
                limit as nat,
            )
            &&& out.0@.len() <= limit
            &&& out.1@.len() == dropped_causes::<R>(row_views(outcome->Ok_0@), limit as nat).len()
            &&& forall|k: int|
                0 <= k < out.1@.len() ==> (#[trigger] out.1@[k]).level == LogLevel::Error
                    && out.1@[k].text@ == spec_drop_text(
                    dropped_causes::<R>(row_views(outcome->Ok_0@), limit as nat)[k],
                )
        },
        outcome is Err ==> {
            &&& out.0@.len() == 0
            &&& out.1@.len() == 1
            &&& out.1@[0].level == spec_diagnostic_level(outcome->Err_0)
            &&& out.1@[0].text@ == spec_diagnostic_text(outcome->Err_0)
        },
{
    let (rows_opt, err_diag) = handle_entry(outcome);
    match rows_opt {
        Some(rows) => {
            let (recs, drops) = filtered_fetch(&rows, limit);
            let mut diags: Vec<Diagnostic> = Vec::new();
            let mut j: usize = 0;
            while j < drops.len()
                invariant
                    j <= drops.len(),
                    diags@.len() == j,
                    forall|k: int|
                        0 <= k < j ==> (#[trigger] diags@[k]).level == LogLevel::Error
                            && diags@[k].text@ == spec_drop_text(drops@[k]),
                decreases drops.len() - j,
            {
                diags.push(drop_diagnostic(drops[j]));
                j += 1;
            }
            (recs, diags)
        },
        None => {
            let mut diags: Vec<Diagnostic> = Vec::new();
            match err_diag {
                Some(d) => diags.push(d),
                None => (),
            }
            (Vec::new(), diags)
        },
    }
}

/// A single-record lookup: the first (and, when the store key is unique,
/// only) record that decodes, or an explicit absent value when no row
/// matches or the store failed — never an error.
pub fn lookup<R: RowDecode>(outcome: Result<Vec<R>, StoreError>) -> (out: (
    Option<R::Out>,
    Vec<Diagnostic>,
))
    requires
        outcome is Err ==> !(outcome->Err_0 is Configuration),
    ensures
        outcome is Ok ==> {
            &&& (out.0 is Some <==> decoded_records::<R>(row_views(outcome->Ok_0@)).len() > 0)
            &&& (out.0 is Some ==> out.0->0@ == decoded_records::<R>(
                row_views(outcome->Ok_0@),
            )[0])
            &&& out.1@.len() == dropped_causes::<R>(row_views(outcome->Ok_0@), 1).len()
            &&& forall|k: int|
                0 <= k < out.1@.len() ==> (#[trigger] out.1@[k]).level == LogLevel::Error
                    && out.1@[k].text@ == spec_drop_text(
                    dropped_causes::<R>(row_views(outcome->Ok_0@), 1)[k],
                )
        },
        outcome is Err ==> {
            &&& out.0 is None
            &&& out.1@.len() == 1
            &&& out.1@[0].level == spec_diagnostic_level(outcome->Err_0)
            &&& out.1@[0].text@ == spec_diagnostic_text(outcome->Err_0)
        },
{
    let ghost is_ok = outcome is Ok;
    let ghost rows_view = if outcome is Ok {
        row_views(outcome->Ok_0@)
    } else {
        Seq::empty()
    };
    let (mut recs, diags) = respond::<R>(outcome, 1);
    proof {
        if is_ok {
            let d = decoded_records::<R>(rows_view);
            if d.len() > 0 {
                assert(take_at_most(d, 1) =~= d.take(1));
                assert(recs@.map_values(|x: R::Out| x@).len() == 1);
                assert(recs@.map_values(|x: R::Out| x@)[0] == d[0]);
                assert(recs@[0]@ == d[0]);
            } else {
                assert(take_at_most(d, 1) =~= d);
                assert(recs@.map_values(|x: R::Out| x@).len() == 0);
            }
        }
    }
    let first = recs.pop();
    (first, diags)
}

} // verus!
