//! The library-wide laws: what any fetch returns, what never appears in a
//! result, and how "most recent first" survives decoding. Each is proved
//! from the public contracts and specifications alone.

use vstd::prelude::*;
use crate::entry::{spec_decode_combined, spec_decode_entry, CombinedEntryMedV, CombinedRow,
    CombinedRowV, EntryRow, EntryRowV, EntryV};
use crate::fetch::{comes_from_row, decoded_records, fetched_records, lemma_decoded_membership,
    lemma_fetched_is_take, take_at_most, DecodeError, RowDecode};
use crate::ident::is_uuid;
use crate::med::{spec_decode_med, spec_med_row, Med, MedRow, MedRowV, MedV};
use crate::timestamp::{is_canonical_time, lemma_lex_refl, lex_le, non_increasing};

verus! {

/// A fetch capped at `limit` returns at most `limit` records, and exactly
/// all the successfully decodable ones when fewer than `limit` decode.
pub proof fn lemma_fetch_bounded<R: RowDecode>(rows: Seq<R::V>, limit: nat)
    ensures
        fetched_records::<R>(rows, limit).len() == (if decoded_records::<R>(rows).len() <= limit {
            decoded_records::<R>(rows).len() as int
        } else {
            limit as int
        }),
        decoded_records::<R>(rows).len() <= limit ==> fetched_records::<R>(rows, limit)
            == decoded_records::<R>(rows),
{
    lemma_fetched_is_take::<R>(rows, limit);
}

/// No medication record with a malformed identifier is ever returned,
/// however many valid rows surround it in the store.
pub proof fn lemma_med_identifiers_valid(rows: Seq<MedRowV>, limit: nat)
    ensures
        forall|k: int|
            0 <= k < fetched_records::<MedRow>(rows, limit).len() ==> is_uuid(
                (#[trigger] fetched_records::<MedRow>(rows, limit)[k]).uuid,
            ),
{
    lemma_fetched_is_take::<MedRow>(rows, limit);
    lemma_decoded_membership::<MedRow>(rows);
    let d = decoded_records::<MedRow>(rows);
    let f = fetched_records::<MedRow>(rows, limit);
    assert forall|k: int| 0 <= k < f.len() implies is_uuid(f[k].uuid) by {
        assert(f[k] == d[k]);
        assert(comes_from_row::<MedRow>(rows, d[k]));
        let i = choose|i: int|
            0 <= i < rows.len() && #[trigger] MedRow::decode_spec(rows[i]) is Ok && d[k]
                == MedRow::decode_spec(rows[i])->Ok_0;
        assert(is_uuid(rows[i].uuid));
    }
}

/// No entry record with a malformed identifier — its own or its
/// medication's — is ever returned.
pub proof fn lemma_entry_identifiers_valid(rows: Seq<EntryRowV>, limit: nat)
    ensures
        forall|k: int|
            0 <= k < fetched_records::<EntryRow>(rows, limit).len() ==> is_uuid(
                (#[trigger] fetched_records::<EntryRow>(rows, limit)[k]).uuid,
            ) && is_uuid(fetched_records::<EntryRow>(rows, limit)[k].medication_uuid),
{
    lemma_fetched_is_take::<EntryRow>(rows, limit);
    lemma_decoded_membership::<EntryRow>(rows);
    let d = decoded_records::<EntryRow>(rows);
    let f = fetched_records::<EntryRow>(rows, limit);
    assert forall|k: int| 0 <= k < f.len() implies is_uuid(f[k].uuid) && is_uuid(
        f[k].medication_uuid,
    ) by {
        assert(f[k] == d[k]);
        assert(comes_from_row::<EntryRow>(rows, d[k]));
        let i = choose|i: int|
            0 <= i < rows.len() && #[trigger] EntryRow::decode_spec(rows[i]) is Ok && d[k]
                == EntryRow::decode_spec(rows[i])->Ok_0;
        assert(is_uuid(rows[i].uuid) && is_uuid(rows[i].medication_uuid));
    }
}

/// No joined record with a malformed identifier is ever returned.
pub proof fn lemma_combined_identifiers_valid(rows: Seq<CombinedRowV>, limit: nat)
    ensures
        forall|k: int|
            0 <= k < fetched_records::<CombinedRow>(rows, limit).len() ==> is_uuid(
                (#[trigger] fetched_records::<CombinedRow>(rows, limit)[k]).entry_uuid,
            ) && is_uuid(fetched_records::<CombinedRow>(rows, limit)[k].medication_uuid),
{
    lemma_fetched_is_take::<CombinedRow>(rows, limit);
    lemma_decoded_membership::<CombinedRow>(rows);
    let d = decoded_records::<CombinedRow>(rows);
    let f = fetched_records::<CombinedRow>(rows, limit);
    assert forall|k: int| 0 <= k < f.len() implies is_uuid(f[k].entry_uuid) && is_uuid(
        f[k].medication_uuid,
    ) by {
        assert(f[k] == d[k]);
        assert(comes_from_row::<CombinedRow>(rows, d[k]));
        let i = choose|i: int|
            0 <= i < rows.len() && #[trigger] CombinedRow::decode_spec(rows[i]) is Ok && d[k]
                == CombinedRow::decode_spec(rows[i])->Ok_0;
        assert(is_uuid(rows[i].entry_uuid) && is_uuid(rows[i].medication_uuid));
    }
}

/// The times of a sequence of raw entry rows.
pub open spec fn entry_row_times(rows: Seq<EntryRowV>) -> Seq<Seq<char>> {
    rows.map_values(|r: EntryRowV| r.time)
}

/// The times of a sequence of decoded entries.
pub open spec fn entry_times(recs: Seq<EntryV>) -> Seq<Seq<char>> {
    recs.map_values(|e: EntryV| e.time)
}

/// Decoding preserves "most recent first": when every stored time is
/// canonical and the rows arrive non-increasing, the decoded entries are
/// non-increasing too.
proof fn lemma_decoded_entry_times_sorted(rows: Seq<EntryRowV>)
    requires
        forall|i: int| 0 <= i < rows.len() ==> is_canonical_time((#[trigger] rows[i]).time),
        non_increasing(entry_row_times(rows)),
    ensures
        non_increasing(entry_times(decoded_records::<EntryRow>(rows))),
    decreases rows.len(),
{
    if rows.len() == 0 {
    } else {
        let rest = rows.drop_first();
        assert forall|i: int| 0 <= i < rest.len() implies is_canonical_time(
            (#[trigger] rest[i]).time,
        ) by {
            assert(rest[i] == rows[i + 1]);
        }
        assert forall|i: int, j: int| 0 <= i <= j < entry_row_times(rest).len() implies lex_le(
            #[trigger] entry_row_times(rest)[j],
            #[trigger] entry_row_times(rest)[i],
        ) by {
            assert(entry_row_times(rest)[j] == rest[j].time);
            assert(rest[j] == rows[j + 1]);
            assert(rest[i] == rows[i + 1]);
            assert(entry_row_times(rows)[j + 1] == rows[j + 1].time);
            assert(entry_row_times(rows)[i + 1] == rows[i + 1].time);
            assert(lex_le(entry_row_times(rows)[j + 1], entry_row_times(rows)[i + 1]));
        }
        lemma_decoded_entry_times_sorted(rest);
        lemma_decoded_membership::<EntryRow>(rest);
        let d = decoded_records::<EntryRow>(rows);
        let dr = decoded_records::<EntryRow>(rest);
        assert forall|i: int, j: int| 0 <= i <= j < entry_times(d).len() implies lex_le(
            #[trigger] entry_times(d)[j],
            #[trigger] entry_times(d)[i],
        ) by {
            assert(entry_times(d)[j] == d[j].time);
            assert(entry_times(d)[i] == d[i].time);
            if spec_decode_entry(rows[0]) is Ok {
                assert(d == seq![spec_decode_entry(rows[0])->Ok_0] + dr);
                assert(d[0].time == rows[0].time);
                if i == 0 {
                    if j == 0 {
                        lemma_lex_refl(d[0].time);
                    } else {
                        assert(d[j] == dr[j - 1]);
                        assert(comes_from_row::<EntryRow>(rest, dr[j - 1]));
                        let w = choose|w: int|
                            0 <= w < rest.len() && #[trigger] EntryRow::decode_spec(
                                rest[w],
                            ) is Ok && dr[j - 1] == EntryRow::decode_spec(rest[w])->Ok_0;
                        assert(dr[j - 1].time == rest[w].time);
                        assert(rest[w] == rows[w + 1]);
                        assert(entry_row_times(rows)[w + 1] == rows[w + 1].time);
                        assert(entry_row_times(rows)[0] == rows[0].time);
                        assert(lex_le(entry_row_times(rows)[w + 1], entry_row_times(rows)[0]));
                    }
                } else {
                    assert(d[i] == dr[i - 1]);
                    assert(d[j] == dr[j - 1]);
                    assert(entry_times(dr)[j - 1] == dr[j - 1].time);
                    assert(entry_times(dr)[i - 1] == dr[i - 1].time);
                    assert(lex_le(entry_times(dr)[j - 1], entry_times(dr)[i - 1]));
                }
            } else {
                assert(d == dr);
                assert(lex_le(entry_times(dr)[j], entry_times(dr)[i]));
            }
        }
    }
}

/// Any "most recent first" entry fetch stays non-increasing by the
/// canonical timestamp text, whatever the cap and whichever rows fail to
/// decode.
pub proof fn lemma_entries_most_recent_first(rows: Seq<EntryRowV>, limit: nat)
    requires
        forall|i: int| 0 <= i < rows.len() ==> is_canonical_time((#[trigger] rows[i]).time),
        non_increasing(entry_row_times(rows)),
    ensures
        non_increasing(entry_times(fetched_records::<EntryRow>(rows, limit))),
{
    lemma_decoded_entry_times_sorted(rows);
    lemma_fetched_is_take::<EntryRow>(rows, limit);
    let d = decoded_records::<EntryRow>(rows);
    let f = fetched_records::<EntryRow>(rows, limit);
    assert forall|i: int, j: int| 0 <= i <= j < entry_times(f).len() implies lex_le(
        #[trigger] entry_times(f)[j],
        #[trigger] entry_times(f)[i],
    ) by {
        assert(f[i] == d[i]);
        assert(f[j] == d[j]);
        assert(entry_times(d)[i] == d[i].time);
        assert(entry_times(d)[j] == d[j].time);
        assert(lex_le(entry_times(d)[j], entry_times(d)[i]));
    }
}

/// Round trip: a newly constructed, well-formed medication, stored as its
/// row and decoded back, is exactly the same record — so a lookup against
/// the store rows holding just that row yields it.
pub proof fn lemma_med_round_trip(m: Med)
    requires
        m.wf(),
    ensures
        spec_decode_med(spec_med_row(m@)) == Ok::<MedV, DecodeError>(m@),
        decoded_records::<MedRow>(seq![spec_med_row(m@)]) == seq![m@],
        take_at_most(decoded_records::<MedRow>(seq![spec_med_row(m@)]), 1) == seq![m@],
{
    let row = spec_med_row(m@);
    assert(spec_decode_med(row)->Ok_0 =~= m@);
    let rows = seq![row];
    assert(rows[0] == row);
    assert(MedRow::decode_spec(rows[0]) is Ok);
    assert(rows.drop_first() =~= Seq::<MedRowV>::empty());
    assert(decoded_records::<MedRow>(rows.drop_first()) =~= Seq::<MedV>::empty());
    assert(decoded_records::<MedRow>(rows) =~= seq![m@]);
}

/// The times of a sequence of raw joined rows.
pub open spec fn combined_row_times(rows: Seq<CombinedRowV>) -> Seq<Seq<char>> {
    rows.map_values(|r: CombinedRowV| r.entry_time)
}

/// The times of a sequence of decoded joined records.
pub open spec fn combined_times(recs: Seq<CombinedEntryMedV>) -> Seq<Seq<char>> {
    recs.map_values(|r: CombinedEntryMedV| r.entry_time)
}

/// Decoding preserves "most recent first" for joined rows too.
proof fn lemma_decoded_combined_times_sorted(rows: Seq<CombinedRowV>)
    requires
        forall|i: int| 0 <= i < rows.len() ==> is_canonical_time((#[trigger] rows[i]).entry_time),
        non_increasing(combined_row_times(rows)),
    ensures
        non_increasing(combined_times(decoded_records::<CombinedRow>(rows))),
    decreases rows.len(),
{
    if rows.len() == 0 {
    } else {
        let rest = rows.drop_first();
        assert forall|i: int| 0 <= i < rest.len() implies is_canonical_time(
            (#[trigger] rest[i]).entry_time,
        ) by {
            assert(rest[i] == rows[i + 1]);
        }
        assert forall|i: int, j: int| 0 <= i <= j < combined_row_times(rest).len() implies lex_le(
            #[trigger] combined_row_times(rest)[j],
            #[trigger] combined_row_times(rest)[i],
        ) by {
            assert(rest[j] == rows[j + 1]);
            assert(rest[i] == rows[i + 1]);
            assert(combined_row_times(rows)[j + 1] == rows[j + 1].entry_time);
            assert(combined_row_times(rows)[i + 1] == rows[i + 1].entry_time);
            assert(lex_le(combined_row_times(rows)[j + 1], combined_row_times(rows)[i + 1]));
        }
        lemma_decoded_combined_times_sorted(rest);
        lemma_decoded_membership::<CombinedRow>(rest);
        let d = decoded_records::<CombinedRow>(rows);
        let dr = decoded_records::<CombinedRow>(rest);
        assert forall|i: int, j: int| 0 <= i <= j < combined_times(d).len() implies lex_le(
            #[trigger] combined_times(d)[j],
            #[trigger] combined_times(d)[i],
        ) by {
            assert(combined_times(d)[j] == d[j].entry_time);
            assert(combined_times(d)[i] == d[i].entry_time);
            if spec_decode_combined(rows[0]) is Ok {
                assert(d == seq![spec_decode_combined(rows[0])->Ok_0] + dr);
                assert(d[0].entry_time == rows[0].entry_time);
                if i == 0 {
                    if j == 0 {
                        lemma_lex_refl(d[0].entry_time);
                    } else {
                        assert(d[j] == dr[j - 1]);
                        assert(comes_from_row::<CombinedRow>(rest, dr[j - 1]));
                        let w = choose|w: int|
                            0 <= w < rest.len() && #[trigger] CombinedRow::decode_spec(
                                rest[w],
                            ) is Ok && dr[j - 1] == CombinedRow::decode_spec(rest[w])->Ok_0;
                        assert(dr[j - 1].entry_time == rest[w].entry_time);
                        assert(rest[w] == rows[w + 1]);
                        assert(combined_row_times(rows)[w + 1] == rows[w + 1].entry_time);
                        assert(combined_row_times(rows)[0] == rows[0].entry_time);
                        assert(lex_le(
                            combined_row_times(rows)[w + 1],
                            combined_row_times(rows)[0],
                        ));
                    }
                } else {
                    assert(d[i] == dr[i - 1]);
                    assert(d[j] == dr[j - 1]);
                    assert(combined_times(dr)[j - 1] == dr[j - 1].entry_time);
                    assert(combined_times(dr)[i - 1] == dr[i - 1].entry_time);
                    assert(lex_le(combined_times(dr)[j - 1], combined_times(dr)[i - 1]));
                }
            } else {
                assert(d == dr);
                assert(lex_le(combined_times(dr)[j], combined_times(dr)[i]));
            }
        }
    }
}

/// What the by-medication-name lookup returns, when the store honours the
/// join: only records carrying the requested name, each decoded
/// field-for-field from one of the joined rows, most recent first, capped
/// at the requested count.
pub proof fn lemma_joined_by_name(rows: Seq<CombinedRowV>, name: Seq<char>, limit: nat)
    requires
        forall|i: int| 0 <= i < rows.len() ==> (#[trigger] rows[i]).medication_name == name,
        forall|i: int| 0 <= i < rows.len() ==> is_canonical_time((#[trigger] rows[i]).entry_time),
        non_increasing(combined_row_times(rows)),
    ensures
        fetched_records::<CombinedRow>(rows, limit).len() <= limit,
        forall|k: int|
            0 <= k < fetched_records::<CombinedRow>(rows, limit).len() ==> (
            #[trigger] fetched_records::<CombinedRow>(rows, limit)[k]).medication_name == name,
        forall|k: int|
            0 <= k < fetched_records::<CombinedRow>(rows, limit).len() ==> comes_from_row::<
                CombinedRow,
            >(rows, #[trigger] fetched_records::<CombinedRow>(rows, limit)[k]),
        non_increasing(combined_times(fetched_records::<CombinedRow>(rows, limit))),
{
    lemma_fetched_is_take::<CombinedRow>(rows, limit);
    lemma_decoded_membership::<CombinedRow>(rows);
    lemma_decoded_combined_times_sorted(rows);
    let d = decoded_records::<CombinedRow>(rows);
    let f = fetched_records::<CombinedRow>(rows, limit);
    assert forall|k: int| 0 <= k < f.len() implies (#[trigger] f[k]).medication_name == name
        && comes_from_row::<CombinedRow>(rows, f[k]) by {
        assert(f[k] == d[k]);
        assert(comes_from_row::<CombinedRow>(rows, d[k]));
        let i = choose|i: int|
            0 <= i < rows.len() && #[trigger] CombinedRow::decode_spec(rows[i]) is Ok && d[k]
                == CombinedRow::decode_spec(rows[i])->Ok_0;
        assert(d[k].medication_name == rows[i].medication_name);
    }
    assert forall|i: int, j: int| 0 <= i <= j < combined_times(f).len() implies lex_le(
        #[trigger] combined_times(f)[j],
        #[trigger] combined_times(f)[i],
    ) by {
        assert(f[i] == d[i]);
        assert(f[j] == d[j]);
        assert(combined_times(d)[i] == d[i].entry_time);
        assert(combined_times(d)[j] == d[j].entry_time);
        assert(lex_le(combined_times(d)[j], combined_times(d)[i]));
    }
}

} // verus!
