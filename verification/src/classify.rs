//! Blocker classification: a pure, deterministic map from a merge request's
//! fields to an ordered list of blocking reasons, and a stable partition of a
//! list into ready and blocked groups.

use vstd::prelude::*;
use vstd::string::StringExecFns;

use crate::text::{dec_rep, u64_to_dec, view_fn};
use crate::types::{MergeRequest, MergeStatus};

verus! {

/// A server-side status that blocks merging.
pub open spec fn unmergeable(st: MergeStatus) -> bool {
    st is CannotBeMerged || st is CannotBeMergedRecheck
}

/// Text of the approval blocker for an outstanding count.
pub open spec fn approval_reason(n: i64) -> Seq<char> {
    "requires approval ("@ + dec_rep(n as nat) + ")"@
}

/// The ordered blocker list of a merge request. The four checks are
/// independent and their order is fixed: unresolved discussions, conflicts,
/// unmergeable status, outstanding approvals. An empty list means the item
/// is ready to merge.
pub open spec fn blockers_spec(mr: MergeRequest) -> Seq<Seq<char>> {
    (if !mr.blocking_discussions_resolved {
        seq!["unresolved threads"@]
    } else {
        Seq::<Seq<char>>::empty()
    }) + (if mr.has_conflicts {
        seq!["has conflicts"@]
    } else {
        Seq::<Seq<char>>::empty()
    }) + (if unmergeable(mr.merge_status) {
        seq!["cannot be merged"@]
    } else {
        Seq::<Seq<char>>::empty()
    }) + (if mr.approvals_needed > 0 {
        seq![approval_reason(mr.approvals_needed)]
    } else {
        Seq::<Seq<char>>::empty()
    })
}

/// Ready to merge: nothing blocks the item.
pub open spec fn ready(mr: MergeRequest) -> bool {
    blockers_spec(mr).len() == 0
}

/// Predicate picking the ready items.
pub open spec fn ready_pred() -> spec_fn(MergeRequest) -> bool {
    |mr: MergeRequest| ready(mr)
}

/// Predicate picking the blocked items.
pub open spec fn blocked_pred() -> spec_fn(MergeRequest) -> bool {
    |mr: MergeRequest| !ready(mr)
}

impl MergeRequest {
    /// Ordered list of blocking reasons; the result is a function of the
    /// item's fields alone, so repeated calls yield the identical list.
    pub fn blockers(&self) -> (r: Vec<String>)
        ensures
            r@.map_values(view_fn()) == blockers_spec(*self),
    {
        let mut r: Vec<String> = Vec::new();

        if !self.blocking_discussions_resolved {
            r.push("unresolved threads".to_owned());
        }

        if self.has_conflicts {
            r.push("has conflicts".to_owned());
        }

        let cannot = match self.merge_status {
            MergeStatus::CannotBeMerged => true,
            MergeStatus::CannotBeMergedRecheck => true,
            _ => false,
        };
        if cannot {
            r.push("cannot be merged".to_owned());
        }

        if self.approvals_needed > 0 {
            let mut reason = "requires approval (".to_owned();
            let count = u64_to_dec(self.approvals_needed as u64);
            reason.append(count.as_str());
            reason.append(")");
            proof {
                assert(reason@ =~= approval_reason(self.approvals_needed));
            }
            r.push(reason);
        }

        proof {
            assert(r@.map_values(view_fn()) =~= blockers_spec(*self));
        }
        r
    }

    /// True when the blocker list is empty.
    pub fn is_ready(&self) -> (b: bool)
        ensures
            b == ready(*self),
    {
        let r = self.blockers();
        r.is_empty()
    }
}

/// Splits the items into the ready group and the blocked group, preserving
/// relative order within each group: a stable partition, not a sort.
pub fn classify_and_partition(mrs: Vec<MergeRequest>) -> (r: (Vec<MergeRequest>, Vec<MergeRequest>))
    ensures
        r.0@ == mrs@.filter(ready_pred()),
        r.1@ == mrs@.filter(blocked_pred()),
{
    let ghost orig = mrs@;
    let mut rest = mrs;
    let mut ready_group: Vec<MergeRequest> = Vec::new();
    let mut blocked_group: Vec<MergeRequest> = Vec::new();

    while rest.len() > 0
        invariant
            rest@.len() <= orig.len(),
            rest@ == orig.subrange(orig.len() - rest@.len(), orig.len() as int),
            ready_group@ == orig.take(orig.len() - rest@.len()).filter(ready_pred()),
            blocked_group@ == orig.take(orig.len() - rest@.len()).filter(blocked_pred()),
        decreases rest@.len(),
    {
        let ghost i = orig.len() - rest@.len();
        let mr = rest.remove(0);
        proof {
            assert(mr == orig[i as int]);
            assert(rest@ =~= orig.subrange(orig.len() - rest@.len(), orig.len() as int));
            orig.take(i as int).lemma_filter_push(mr, ready_pred());
            orig.take(i as int).lemma_filter_push(mr, blocked_pred());
            assert(orig.take(i as int).push(mr) =~= orig.take(i as int + 1));
        }
        if mr.is_ready() {
            ready_group.push(mr);
        } else {
            blocked_group.push(mr);
        }
    }
    proof {
        assert(orig.take(orig.len() as int) =~= orig);
    }
    (ready_group, blocked_group)
}

/// With no outstanding approvals (the default before any enrichment ran),
/// the approval check never fires: readiness is decided by the three other
/// signals alone, and the blocker list never exceeds those three reasons.
pub proof fn lemma_zero_default(mr: MergeRequest)
    requires
        mr.approvals_needed == 0,
    ensures
        ready(mr) <==> (mr.blocking_discussions_resolved && !mr.has_conflicts && !unmergeable(
            mr.merge_status,
        )),
        forall|i: int|
            0 <= i < blockers_spec(mr).len() ==> blockers_spec(mr)[i] != approval_reason(
                mr.approvals_needed,
            ),
{
    reveal_strlit("unresolved threads");
    reveal_strlit("has conflicts");
    reveal_strlit("cannot be merged");
    reveal_strlit("requires approval (");
    assert forall|i: int| 0 <= i < blockers_spec(mr).len() implies blockers_spec(mr)[i]
        != approval_reason(mr.approvals_needed) by {
        let b = blockers_spec(mr)[i];
        assert(b == "unresolved threads"@ || b == "has conflicts"@ || b == "cannot be merged"@);
        assert(approval_reason(mr.approvals_needed)[0] == 'r');
    }
}

} // verus!
