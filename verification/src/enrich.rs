//! The enrichment pipeline: filtering the fetched list by author, parsing
//! each per-item approvals response, aggregating the per-item results
//! all-or-nothing, and merging the approval counts back into the items by
//! their `iid` join key.
//!
//! The network fetches themselves happen outside the library; the pipeline
//! receives each response body (or the transport failure that replaced it)
//! as plain data, in whatever order the concurrent fetches completed.

use vstd::prelude::*;

use crate::types::{FetchError, MergeRequest};

verus! {

/// Whether the approvals endpoint response text is a well-formed document,
/// that is whether parsing it succeeds.
pub uninterp spec fn json_doc_wf(s: Seq<char>) -> bool;

/// The integer `approvals_left` field of the parsed response text, if the
/// document carries one.
pub uninterp spec fn approvals_left_of(s: Seq<char>) -> Option<i64>;

/// Relies on `serde_json::from_str::<Value>`, `serde_json::Value::get` and
/// `serde_json::Value::as_i64`: parsing succeeds exactly on well-formed
/// documents, and both the parse and the field lookup are deterministic
/// functions of the input text. The error message is the parser's own.
#[verifier::external_body]
fn extract_approvals_left(body: &str) -> (r: Result<Option<i64>, String>)
    ensures
        r is Ok <==> json_doc_wf(body@),
        r is Ok ==> r->Ok_0 == approvals_left_of(body@),
{
    match serde_json::from_str::<serde_json::Value>(body) {
        Ok(doc) => Ok(doc.get("approvals_left").and_then(serde_json::Value::as_i64)),
        Err(e) => Err(e.to_string()),
    }
}

/// Parses one approvals response body: the outstanding approval count on
/// success, a deserialization error on a malformed document, a missing-data
/// error on a well-formed document without an integer approvals field.
pub fn parse_approval(body: &str) -> (r: Result<i64, FetchError>)
    ensures
        r is Ok <==> (json_doc_wf(body@) && approvals_left_of(body@) is Some),
        r is Ok ==> r->Ok_0 == approvals_left_of(body@)->Some_0,
        !json_doc_wf(body@) ==> r->Err_0 is Deserialization,
        (json_doc_wf(body@) && approvals_left_of(body@) is None) ==> r->Err_0 is MissingData,
{
    match extract_approvals_left(body) {
        Err(m) => Err(FetchError::Deserialization(m)),
        Ok(None) => Err(FetchError::MissingData),
        Ok(Some(v)) => Ok(v),
    }
}

/// One per-item fetch outcome: the item's iid, and either the response body
/// or the transport failure's message.
pub type FetchOutcome = (i64, Result<String, String>);

/// A per-item fetch succeeded end to end: the transport delivered a body,
/// the body parses, and it carries the approvals field.
pub open spec fn fetch_ok(entry: FetchOutcome) -> bool {
    &&& entry.1 is Ok
    &&& json_doc_wf(entry.1->Ok_0@)
    &&& approvals_left_of(entry.1->Ok_0@) is Some
}

/// The (iid, approvals) pair a successful fetch contributes.
pub open spec fn approvals_of(entry: FetchOutcome) -> (i64, i64) {
    (entry.0, approvals_left_of(entry.1->Ok_0@)->Some_0)
}

/// Every one of the per-item fetches succeeded.
pub open spec fn all_fetches_ok(fetched: Seq<FetchOutcome>) -> bool {
    forall|j: int| 0 <= j < fetched.len() ==> fetch_ok(#[trigger] fetched[j])
}

/// Maps a successful fetch to its pair.
pub open spec fn approvals_fn() -> spec_fn(FetchOutcome) -> (i64, i64) {
    |entry: FetchOutcome| approvals_of(entry)
}

/// The pairs contributed by the fetches, in the order they settled.
pub open spec fn tuples_of(fetched: Seq<FetchOutcome>) -> Seq<(i64, i64)> {
    fetched.map_values(approvals_fn())
}

/// Position `j` holds the first failed fetch.
pub open spec fn first_failure(fetched: Seq<FetchOutcome>, j: int) -> bool {
    &&& 0 <= j < fetched.len()
    &&& !fetch_ok(fetched[j])
    &&& forall|k: int| 0 <= k < j ==> fetch_ok(#[trigger] fetched[k])
}

/// The error reported for a failed fetch outcome: the transport message is
/// carried through; a malformed body is a deserialization error; a
/// well-formed body without the field is missing data.
pub open spec fn error_for(entry: FetchOutcome, e: FetchError) -> bool {
    if entry.1 is Err {
        e matches FetchError::Transport(m) && m@ == entry.1->Err_0@
    } else if !json_doc_wf(entry.1->Ok_0@) {
        e is Deserialization
    } else {
        e is MissingData
    }
}

/// Folds the per-item fetch outcomes into the (iid, approvals) pairs, all
/// or nothing: the first failed fetch aborts the whole aggregation, and no
/// pair is returned beside an error.
pub fn collect_approvals(fetched: &Vec<FetchOutcome>) -> (r: Result<Vec<(i64, i64)>, FetchError>)
    ensures
        r is Ok <==> all_fetches_ok(fetched@),
        r is Ok ==> r->Ok_0@ == tuples_of(fetched@),
        r is Err ==> exists|j: int|
            #[trigger] first_failure(fetched@, j) && error_for(fetched@[j], r->Err_0),
{
    let mut pairs: Vec<(i64, i64)> = Vec::new();
    let mut i: usize = 0;
    while i < fetched.len()
        invariant
            0 <= i <= fetched@.len(),
            forall|k: int| 0 <= k < i ==> fetch_ok(#[trigger] fetched@[k]),
            pairs@ == tuples_of(fetched@.take(i as int)),
        decreases fetched@.len() - i,
    {
        let entry = &fetched[i];
        match &entry.1 {
            Err(m) => {
                proof {
                    assert(first_failure(fetched@, i as int));
                }
                return Err(FetchError::Transport(m.clone()));
            },
            Ok(body) => {
                match parse_approval(body.as_str()) {
                    Err(e) => {
                        proof {
                            assert(first_failure(fetched@, i as int));
                        }
                        return Err(e);
                    },
                    Ok(v) => {
                        pairs.push((entry.0, v));
                        proof {
                            assert(fetched@.take(i as int).map_values(approvals_fn()).push(
                                approvals_of(fetched@[i as int]),
                            ) =~= fetched@.take(i as int + 1).map_values(approvals_fn()));
                        }
                    },
                }
            },
        }
        i = i + 1;
    }
    proof {
        assert(fetched@.take(fetched@.len() as int) =~= fetched@);
    }
    Ok(pairs)
}

/// The approval count an item ends up with: the value of the last pair that
/// carries the item's iid, or the item's current count where no pair does
/// (an unmatched item is left as it is, not reported).
pub open spec fn lookup_spec(pairs: Seq<(i64, i64)>, iid: i64, dflt: i64) -> i64
    decreases pairs.len(),
{
    if pairs.len() == 0 {
        dflt
    } else if pairs.last().0 == iid {
        pairs.last().1
    } else {
        lookup_spec(pairs.drop_last(), iid, dflt)
    }
}

fn lookup_last(pairs: &Vec<(i64, i64)>, iid: i64, dflt: i64) -> (r: i64)
    ensures
        r == lookup_spec(pairs@, iid, dflt),
{
    let mut r = dflt;
    let mut i: usize = 0;
    while i < pairs.len()
        invariant
            0 <= i <= pairs@.len(),
            r == lookup_spec(pairs@.take(i as int), iid, dflt),
        decreases pairs@.len() - i,
    {
        let p = pairs[i];
        if p.0 == iid {
            r = p.1;
        }
        proof {
            assert(pairs@.take(i as int + 1).drop_last() =~= pairs@.take(i as int));
            assert(pairs@.take(i as int + 1).last() == pairs@[i as int]);
        }
        i = i + 1;
    }
    proof {
        assert(pairs@.take(pairs@.len() as int) =~= pairs@);
    }
    r
}

/// The item with its approval requirement overwritten from the pairs.
pub open spec fn enriched_one(mr: MergeRequest, pairs: Seq<(i64, i64)>) -> MergeRequest {
    MergeRequest { approvals_needed: lookup_spec(pairs, mr.iid, mr.approvals_needed), ..mr }
}

/// Enrichment of each item in a sequence, order untouched.
pub open spec fn enriched_fn(pairs: Seq<(i64, i64)>) -> spec_fn(MergeRequest) -> MergeRequest {
    |mr: MergeRequest| enriched_one(mr, pairs)
}

/// The whole sequence enriched from the pairs, item by item.
pub open spec fn merge_spec(mrs: Seq<MergeRequest>, pairs: Seq<(i64, i64)>) -> Seq<MergeRequest> {
    mrs.map_values(enriched_fn(pairs))
}

/// Overwrites each item's approval requirement with the value fetched for
/// its iid. Association is strictly by iid, never by position, so the pairs
/// may arrive in any order; items without a matching pair keep their count.
pub fn merge_approvals(mrs: Vec<MergeRequest>, pairs: &Vec<(i64, i64)>) -> (r: Vec<MergeRequest>)
    ensures
        r@ == merge_spec(mrs@, pairs@),
{
    let ghost orig = mrs@;
    let mut rest = mrs;
    let mut out: Vec<MergeRequest> = Vec::new();
    while rest.len() > 0
        invariant
            rest@.len() <= orig.len(),
            rest@ == orig.subrange(orig.len() - rest@.len(), orig.len() as int),
            out@ == merge_spec(orig.take(orig.len() - rest@.len()), pairs@),
        decreases rest@.len(),
    {
        let ghost i = orig.len() - rest@.len();
        let mut mr = rest.remove(0);
        proof {
            assert(mr == orig[i as int]);
            assert(rest@ =~= orig.subrange(orig.len() - rest@.len(), orig.len() as int));
        }
        let count = lookup_last(pairs, mr.iid, mr.approvals_needed);
        mr.approvals_needed = count;
        out.push(mr);
        proof {
            assert(out@ =~= merge_spec(orig.take(i as int + 1), pairs@));
        }
    }
    proof {
        assert(orig.take(orig.len() as int) =~= orig);
    }
    out
}

/// Whether an item's author is one of the configured authors.
pub open spec fn author_pred(ids: Seq<i64>) -> spec_fn(MergeRequest) -> bool {
    |mr: MergeRequest| ids.contains(mr.author.id)
}

fn contains_id(ids: &Vec<i64>, id: i64) -> (b: bool)
    ensures
        b == ids@.contains(id),
{
    let mut i: usize = 0;
    while i < ids.len()
        invariant
            0 <= i <= ids@.len(),
            forall|k: int| 0 <= k < i ==> ids@[k] != id,
        decreases ids@.len() - i,
    {
        if ids[i] == id {
            return true;
        }
        i = i + 1;
    }
    false
}

/// Keeps exactly the items whose author is one of the configured authors,
/// preserving their relative order.
pub fn filter_by_authors(mrs: Vec<MergeRequest>, author_ids: &Vec<i64>) -> (r: Vec<MergeRequest>)
    ensures
        r@ == mrs@.filter(author_pred(author_ids@)),
{
    let ghost orig = mrs@;
    let mut rest = mrs;
    let mut out: Vec<MergeRequest> = Vec::new();
    while rest.len() > 0
        invariant
            rest@.len() <= orig.len(),
            rest@ == orig.subrange(orig.len() - rest@.len(), orig.len() as int),
            out@ == orig.take(orig.len() - rest@.len()).filter(author_pred(author_ids@)),
        decreases rest@.len(),
    {
        let ghost i = orig.len() - rest@.len();
        let mr = rest.remove(0);
        proof {
            assert(mr == orig[i as int]);
            assert(rest@ =~= orig.subrange(orig.len() - rest@.len(), orig.len() as int));
            orig.take(i as int).lemma_filter_push(mr, author_pred(author_ids@));
            assert(orig.take(i as int).push(mr) =~= orig.take(i as int + 1));
        }
        if contains_id(author_ids, mr.author.id) {
            out.push(mr);
        }
    }
    proof {
        assert(orig.take(orig.len() as int) =~= orig);
    }
    out
}

/// Enriches the filtered items from the per-item fetch outcomes, all or
/// nothing: on full success every item carries the approval count fetched
/// for its iid (or its own count where no outcome carries its iid); on any
/// failure the whole call fails and no item is returned.
pub fn enrich(mrs: Vec<MergeRequest>, fetched: &Vec<FetchOutcome>) -> (r: Result<
    Vec<MergeRequest>,
    FetchError,
>)
    ensures
        r is Ok <==> all_fetches_ok(fetched@),
        r is Ok ==> r->Ok_0@ == merge_spec(mrs@, tuples_of(fetched@)),
        r is Err ==> exists|j: int|
            #[trigger] first_failure(fetched@, j) && error_for(fetched@[j], r->Err_0),
{
    match collect_approvals(fetched) {
        Ok(pairs) => Ok(merge_approvals(mrs, &pairs)),
        Err(e) => Err(e),
    }
}

} // verus!
