//! Merge-request source boundary: client-side filtering that establishes the
//! source contract — every merge request handed to the rest of the pipeline
//! is open and, when a target-branch filter is configured, targets exactly
//! that branch.

use vstd::prelude::*;

use crate::model::{MergeRequestSummary, MrState, MrView};

verus! {

/// The source keeps a merge request when it is open and, if a target-branch
/// filter is configured, when it targets exactly that branch (case-sensitive,
/// no pattern semantics).
pub open spec fn spec_source_keeps(m: MrView, target: Option<Seq<char>>) -> bool {
    m.state == MrState::Opened && match target {
        None => true,
        Some(tb) => m.target_branch == tb,
    }
}

/// The subsequence of `s` that the source keeps, in the order the host
/// returned it.
pub open spec fn spec_source_filter(s: Seq<MrView>, target: Option<Seq<char>>) -> Seq<MrView>
    decreases s.len(),
{
    if s.len() == 0 {
        Seq::empty()
    } else if spec_source_keeps(s.last(), target) {
        spec_source_filter(s.drop_last(), target).push(s.last())
    } else {
        spec_source_filter(s.drop_last(), target)
    }
}

/// Appending one merge request to the raw list appends it to the filtered
/// list exactly when the source keeps it.
pub proof fn lemma_source_filter_push(s: Seq<MrView>, m: MrView, target: Option<Seq<char>>)
    ensures
        spec_source_filter(s.push(m), target) == if spec_source_keeps(m, target) {
            spec_source_filter(s, target).push(m)
        } else {
            spec_source_filter(s, target)
        },
{
    assert(s.push(m).drop_last() =~= s);
    assert(s.push(m).last() == m);
}

/// Exec mirror of `spec_source_keeps`.
pub fn source_keeps(mr: &MergeRequestSummary, target: &Option<String>) -> (r: bool)
    ensures
        r == spec_source_keeps(mr@, target.deep_view()),
{
    mr.state == MrState::Opened && match target {
        None => true,
        Some(tb) => mr.target_branch == *tb,
    }
}

/// Client-side source filter: keeps exactly the open merge requests that
/// match the configured target branch (all open ones when no branch filter
/// is configured), preserving the host's order.
pub fn source_filter(items: &Vec<MergeRequestSummary>, target: &Option<String>) -> (r: Vec<
    MergeRequestSummary,
>)
    ensures
        r.deep_view() == spec_source_filter(items.deep_view(), target.deep_view()),
{
    let mut out: Vec<MergeRequestSummary> = Vec::new();
    let n: usize = items.len();
    for i in 0..n
        invariant
            n == items.len(),
            out.deep_view() == spec_source_filter(
                items.deep_view().take(i as int),
                target.deep_view(),
            ),
    {
        let keep = source_keeps(&items[i], target);
        proof {
            assert(items.deep_view().take(i as int).push(items@[i as int].deep_view())
                =~= items.deep_view().take(i + 1));
            lemma_source_filter_push(
                items.deep_view().take(i as int),
                items@[i as int].deep_view(),
                target.deep_view(),
            );
        }
        if keep {
            out.push(items[i].clone());
        }
    }
    proof {
        assert(items.deep_view().take(n as int) =~= items.deep_view());
    }
    out
}

/// Every merge request the source returns is open: one whose state is not
/// open is never included.
pub proof fn lemma_source_filter_only_open(s: Seq<MrView>, target: Option<Seq<char>>)
    ensures
        forall|j: int|
            0 <= j < spec_source_filter(s, target).len() ==> (#[trigger] spec_source_filter(
                s,
                target,
            )[j]).state == MrState::Opened,
    decreases s.len(),
{
    if s.len() > 0 {
        lemma_source_filter_only_open(s.drop_last(), target);
    }
}

/// With a target-branch filter configured, every merge request the source
/// returns targets exactly that branch.
pub proof fn lemma_source_filter_branch(s: Seq<MrView>, tb: Seq<char>)
    ensures
        forall|j: int|
            0 <= j < spec_source_filter(s, Some(tb)).len() ==> (#[trigger] spec_source_filter(
                s,
                Some(tb),
            )[j]).target_branch == tb,
    decreases s.len(),
{
    if s.len() > 0 {
        lemma_source_filter_branch(s.drop_last(), tb);
    }
}

} // verus!
