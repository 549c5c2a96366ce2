//! Laws of the pipeline as a whole: what comes out of filtering and
//! enrichment is a subsequence of the fetched list, in its original order,
//! and every returned item matches the author predicate — whatever order the
//! concurrent approval fetches settled in.

use vstd::prelude::*;

use crate::classify::{blocked_pred, blockers_spec, ready_pred};
use crate::enrich::{author_pred, enriched_one, lookup_spec, merge_spec};
use crate::types::MergeRequest;

verus! {

/// `a` is a subsequence of `b`: `a` can be had from `b` by deleting
/// elements, keeping the relative order of the rest.
pub open spec fn is_subseq_of<A>(a: Seq<A>, b: Seq<A>) -> bool
    decreases b.len(),
{
    if a.len() == 0 {
        true
    } else if b.len() == 0 {
        false
    } else {
        (a.last() == b.last() && is_subseq_of(a.drop_last(), b.drop_last())) || is_subseq_of(
            a,
            b.drop_last(),
        )
    }
}

/// Filtering a sequence yields a subsequence of it.
pub proof fn lemma_filter_is_subseq<A>(s: Seq<A>, p: spec_fn(A) -> bool)
    ensures
        is_subseq_of(s.filter(p), s),
    decreases s.len(),
{
    reveal(Seq::filter);
    if s.len() == 0 {
    } else {
        lemma_filter_is_subseq(s.drop_last(), p);
        if p(s.last()) {
            let f = s.drop_last().filter(p).push(s.last());
            assert(s.filter(p) == f);
            assert(f.last() == s.last());
            assert(f.drop_last() =~= s.drop_last().filter(p));
        }
    }
}

/// Mapping a function over both sequences preserves the subsequence
/// relation.
pub proof fn lemma_map_preserves_subseq<A, B>(a: Seq<A>, b: Seq<A>, f: spec_fn(A) -> B)
    requires
        is_subseq_of(a, b),
    ensures
        is_subseq_of(a.map_values(f), b.map_values(f)),
    decreases b.len(),
{
    if a.len() == 0 {
        assert(a.map_values(f).len() == 0);
    } else {
        if a.last() == b.last() && is_subseq_of(a.drop_last(), b.drop_last()) {
            lemma_map_preserves_subseq(a.drop_last(), b.drop_last(), f);
            assert(a.map_values(f).drop_last() =~= a.drop_last().map_values(f));
            assert(b.map_values(f).drop_last() =~= b.drop_last().map_values(f));
            assert(a.map_values(f).last() == b.map_values(f).last());
        } else {
            lemma_map_preserves_subseq(a, b.drop_last(), f);
            assert(b.map_values(f).drop_last() =~= b.drop_last().map_values(f));
            assert(b.map_values(f).len() == b.len());
        }
    }
}

/// The iid of an item.
pub open spec fn iid_fn() -> spec_fn(MergeRequest) -> i64 {
    |mr: MergeRequest| mr.iid
}

/// The iids of a sequence of items, in order.
pub open spec fn iids_of(mrs: Seq<MergeRequest>) -> Seq<i64> {
    mrs.map_values(iid_fn())
}

/// What the whole pipeline returns on full success, as a function of the
/// fetched list, the configured author ids, and the (iid, approvals) pairs
/// the per-item fetches contributed in whatever order they settled.
pub open spec fn pipeline_spec(
    list: Seq<MergeRequest>,
    ids: Seq<i64>,
    pairs: Seq<(i64, i64)>,
) -> Seq<MergeRequest> {
    merge_spec(list.filter(author_pred(ids)), pairs)
}

/// Every item the pipeline returns has a configured author and stems from
/// an item of the fetched list: the same item, with only its approval
/// requirement overwritten.
pub proof fn lemma_pipeline_only_matching(
    list: Seq<MergeRequest>,
    ids: Seq<i64>,
    pairs: Seq<(i64, i64)>,
    i: int,
)
    requires
        0 <= i < pipeline_spec(list, ids, pairs).len(),
    ensures
        ids.contains(pipeline_spec(list, ids, pairs)[i].author.id),
        exists|j: int|
            0 <= j < list.len() && pipeline_spec(list, ids, pairs)[i] == enriched_one(
                #[trigger] list[j],
                pairs,
            ),
{
    let filtered = list.filter(author_pred(ids));
    list.lemma_filter_pred(author_pred(ids), i);
    assert(pipeline_spec(list, ids, pairs)[i] == enriched_one(filtered[i], pairs));
    assert(filtered.contains(filtered[i]));
    list.lemma_filter_contains_rev(author_pred(ids), filtered[i]);
    let j = choose|j: int| 0 <= j < list.len() && list[j] == filtered[i];
    assert(pipeline_spec(list, ids, pairs)[i] == enriched_one(list[j], pairs));
}

/// Order preservation: the iids the pipeline returns form a subsequence of
/// the fetched list's iids, in the list's original relative order,
/// regardless of the order in which the approval pairs settled.
pub proof fn lemma_pipeline_preserves_order(
    list: Seq<MergeRequest>,
    ids: Seq<i64>,
    pairs: Seq<(i64, i64)>,
)
    ensures
        is_subseq_of(iids_of(pipeline_spec(list, ids, pairs)), iids_of(list)),
{
    let filtered = list.filter(author_pred(ids));
    lemma_filter_is_subseq(list, author_pred(ids));
    lemma_map_preserves_subseq(filtered, list, iid_fn());
    assert(iids_of(pipeline_spec(list, ids, pairs)) =~= iids_of(filtered));
}

/// Classifier determinism: the blocker list is a function of the item's
/// fields alone, so any two results for the same item are identical.
pub proof fn lemma_blockers_deterministic(
    mr: MergeRequest,
    r1: Seq<Seq<char>>,
    r2: Seq<Seq<char>>,
)
    requires
        r1 == blockers_spec(mr),
        r2 == blockers_spec(mr),
    ensures
        r1 == r2,
{
}

/// The partition is complete: every item lands in exactly one of the two
/// groups, so the group sizes add up to the input size.
pub proof fn lemma_partition_complete(mrs: Seq<MergeRequest>)
    ensures
        mrs.filter(ready_pred()).len() + mrs.filter(blocked_pred()).len() == mrs.len(),
    decreases mrs.len(),
{
    reveal(Seq::filter);
    if mrs.len() > 0 {
        lemma_partition_complete(mrs.drop_last());
    }
}

/// No first component occurs twice among the pairs.
pub open spec fn distinct_iids(pairs: Seq<(i64, i64)>) -> bool {
    forall|j: int, k: int|
        0 <= j < k < pairs.len() ==> (#[trigger] pairs[j]).0 != (#[trigger] pairs[k]).0
}

/// With distinct iids, the looked-up count is the count of whichever pair
/// carries the iid, wherever it stands.
pub proof fn lemma_lookup_unique(pairs: Seq<(i64, i64)>, iid: i64, dflt: i64, k: int)
    requires
        distinct_iids(pairs),
        0 <= k < pairs.len(),
        pairs[k].0 == iid,
    ensures
        lookup_spec(pairs, iid, dflt) == pairs[k].1,
    decreases pairs.len(),
{
    if pairs.last().0 == iid {
        assert(k == pairs.len() - 1);
    } else {
        lemma_lookup_unique(pairs.drop_last(), iid, dflt, k);
    }
}

/// Where no pair carries the iid, the default stands.
pub proof fn lemma_lookup_absent(pairs: Seq<(i64, i64)>, iid: i64, dflt: i64)
    requires
        forall|j: int| 0 <= j < pairs.len() ==> (#[trigger] pairs[j]).0 != iid,
    ensures
        lookup_spec(pairs, iid, dflt) == dflt,
    decreases pairs.len(),
{
    if pairs.len() > 0 {
        lemma_lookup_absent(pairs.drop_last(), iid, dflt);
    }
}

/// Completion order is irrelevant: with each iid fetched once, two runs
/// whose per-item fetches settled in different orders — the same pairs as
/// sets — merge to the identical enriched sequence.
pub proof fn lemma_merge_order_irrelevant(
    mrs: Seq<MergeRequest>,
    pairs1: Seq<(i64, i64)>,
    pairs2: Seq<(i64, i64)>,
)
    requires
        distinct_iids(pairs1),
        distinct_iids(pairs2),
        forall|p: (i64, i64)| pairs1.contains(p) <==> pairs2.contains(p),
    ensures
        merge_spec(mrs, pairs1) == merge_spec(mrs, pairs2),
{
    assert forall|i: int| 0 <= i < mrs.len() implies enriched_one(mrs[i], pairs1) == enriched_one(
        mrs[i],
        pairs2,
    ) by {
        let iid = mrs[i].iid;
        let dflt = mrs[i].approvals_needed;
        if exists|k: int| 0 <= k < pairs1.len() && (#[trigger] pairs1[k]).0 == iid {
            let k1 = choose|k: int| 0 <= k < pairs1.len() && (#[trigger] pairs1[k]).0 == iid;
            lemma_lookup_unique(pairs1, iid, dflt, k1);
            assert(pairs1.contains(pairs1[k1]));
            assert(pairs2.contains(pairs1[k1]));
            let k2 = choose|k: int| 0 <= k < pairs2.len() && pairs2[k] == pairs1[k1];
            lemma_lookup_unique(pairs2, iid, dflt, k2);
        } else {
            assert forall|j: int| 0 <= j < pairs2.len() implies (#[trigger] pairs2[j]).0
                != iid by {
                assert(pairs2.contains(pairs2[j]));
                assert(pairs1.contains(pairs2[j]));
                let k = choose|k: int| 0 <= k < pairs1.len() && pairs1[k] == pairs2[j];
                assert(pairs1[k].0 != iid);
            }
            lemma_lookup_absent(pairs1, iid, dflt);
            lemma_lookup_absent(pairs2, iid, dflt);
        }
    }
    assert(merge_spec(mrs, pairs1) =~= merge_spec(mrs, pairs2));
}

} // verus!
