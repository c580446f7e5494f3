//! What holds of every traversal, stated over the same functions that the
//! contracts of the counting functions use.

use crate::counts::{
    cutoff_of, lemma_merges_bounded, lemma_window_len_bounds, lemma_window_len_is, tally,
    totals_of, window, window_len, CommitInfo, Totals,
};
use crate::history::{has_first_parent, mainline, on_mainline, Node};
use vstd::prelude::*;

verus! {

/// The totals of a traversal are balanced: the number of commits is the
/// number of merges plus the number of non-merges, none of the three is
/// negative, and no more commits are counted than the chain holds.
pub proof fn lemma_totals_balanced(chain: Seq<CommitInfo>, t_min: int)
    ensures
        totals_of(chain, t_min).balanced(),
        totals_of(chain, t_min).commits >= 0,
        totals_of(chain, t_min).merges >= 0,
        totals_of(chain, t_min).nonmerges >= 0,
        totals_of(chain, t_min).commits <= chain.len(),
{
    lemma_window_len_bounds(chain, t_min);
    lemma_merges_bounded(window(chain, t_min));
}

/// Two traversals of the same snapshot from the same commit with the same
/// cutoff give the same totals.
pub proof fn lemma_recount_identical(
    graph: Seq<Node>,
    start: int,
    t_min: int,
    first: Totals,
    second: Totals,
)
    requires
        first == totals_of(mainline(graph, start), t_min),
        second == totals_of(mainline(graph, start), t_min),
    ensures
        first == second,
{
}

/// The totals read nothing behind the cutoff: two chains that agree up to
/// and with their first commit older than the cutoff have the same totals.
pub proof fn lemma_totals_read_the_window_only(
    chain: Seq<CommitInfo>,
    other: Seq<CommitInfo>,
    t_min: int,
)
    requires
        window_len(chain, t_min) < chain.len(),
        other.len() > window_len(chain, t_min),
        forall|i: int| 0 <= i <= window_len(chain, t_min) ==> chain[i] == other[i],
    ensures
        totals_of(other, t_min) == totals_of(chain, t_min),
{
    let n = window_len(chain, t_min) as int;
    lemma_window_len_bounds(chain, t_min);
    assert forall|i: int| 0 <= i < n implies (#[trigger] other[i]).in_window(t_min) by {
        assert(other[i] == chain[i]);
    }
    assert(other[n] == chain[n]);
    lemma_window_len_is(other, t_min, n);
    assert(other.take(n) =~= chain.take(n));
}

/// The mainline reads first parents only: two snapshots of the same size
/// that agree, for each commit on the mainline of the first, on its time, on
/// the number of its parents and on its first parent, have the same mainline
/// from `start`, whatever else they hold.
pub proof fn lemma_mainline_reads_first_parents_only(
    graph: Seq<Node>,
    other: Seq<Node>,
    start: int,
)
    requires
        graph.len() == other.len(),
        forall|i: int| #[trigger]
            on_mainline(graph, start, i) ==> graph[i].time == other[i].time
                && graph[i].parents.len() == other[i].parents.len() && (graph[i].parents.len() > 0
                ==> graph[i].parents[0] == other[i].parents[0]),
    ensures
        mainline(other, start) == mainline(graph, start),
    decreases start,
{
    if 0 <= start < graph.len() {
        assert(on_mainline(graph, start, start));
        assert(graph[start].info() == other[start].info());
        if has_first_parent(graph, start) {
            let next = graph[start].parents[0];
            assert(has_first_parent(other, start));
            assert forall|i: int| #[trigger] on_mainline(graph, next, i) implies graph[i].time
                == other[i].time && graph[i].parents.len() == other[i].parents.len() && (
            graph[i].parents.len() > 0 ==> graph[i].parents[0] == other[i].parents[0]) by {
                assert(on_mainline(graph, start, i));
            }
            lemma_mainline_reads_first_parents_only(graph, other, next);
        } else {
            assert(!has_first_parent(other, start));
        }
    }
}

/// A commit on the mainline lies inside the snapshot.
pub proof fn lemma_on_mainline_in_range(graph: Seq<Node>, start: int, commit: int)
    requires
        on_mainline(graph, start, commit),
    ensures
        0 <= commit < graph.len(),
    decreases start,
{
    if 0 <= start < graph.len() && start != commit && has_first_parent(graph, start) {
        lemma_on_mainline_in_range(graph, graph[start].parents[0], commit);
    }
}

/// A commit that the mainline does not pass through is never counted:
/// whatever stands in its place, with whatever time, the totals of a
/// traversal from `start` are the same. So what a merge brings in through
/// its second parent stays out of the totals.
pub proof fn lemma_side_commits_not_counted(
    graph: Seq<Node>,
    start: int,
    side: int,
    replaced: Node,
    t_min: int,
)
    requires
        0 <= side < graph.len(),
        !on_mainline(graph, start, side),
    ensures
        mainline(graph.update(side, replaced), start) == mainline(graph, start),
        totals_of(mainline(graph.update(side, replaced), start), t_min) == totals_of(
            mainline(graph, start),
            t_min,
        ),
{
    let other = graph.update(side, replaced);
    assert forall|i: int| #[trigger] on_mainline(graph, start, i) implies graph[i].time
        == other[i].time && graph[i].parents.len() == other[i].parents.len() && (
    graph[i].parents.len() > 0 ==> graph[i].parents[0] == other[i].parents[0]) by {
        lemma_on_mainline_in_range(graph, start, i);
        assert(i != side);
    }
    lemma_mainline_reads_first_parents_only(graph, other, start);
}

/// The cutoff itself is inside the window. After a run of retained commits,
/// a commit is retained exactly when it is not older than the cutoff: one
/// dated at the cutoff is counted, and one dated a second earlier ends the
/// traversal there and is not counted, nor is anything after it.
pub proof fn lemma_cutoff_boundary(
    front: Seq<CommitInfo>,
    commit: CommitInfo,
    rest: Seq<CommitInfo>,
    t_min: int,
)
    requires
        forall|i: int| 0 <= i < front.len() ==> (#[trigger] front[i]).in_window(t_min),
    ensures
        commit.time >= t_min <==> window_len(front.push(commit) + rest, t_min) > front.len(),
        commit.time == t_min ==> window(front.push(commit) + rest, t_min).len() > front.len()
            && window(front.push(commit) + rest, t_min)[front.len() as int] == commit,
        commit.time == t_min - 1 ==> window(front.push(commit) + rest, t_min) == front
            && totals_of(front.push(commit) + rest, t_min) == tally(front),
{
    let chain = front.push(commit) + rest;
    let at = front.len() as int;
    assert(chain[at] == commit);
    assert forall|i: int| 0 <= i < at implies (#[trigger] chain[i]).in_window(t_min) by {
        assert(chain[i] == front[i]);
    }
    lemma_window_len_bounds(chain, t_min);
    if commit.time >= t_min {
        let n = window_len(chain, t_min) as int;
        if n <= at {
            assert(chain[n].in_window(t_min));
        }
    } else {
        lemma_window_len_is(chain, t_min, at);
        assert(chain.take(at) =~= front);
    }
}

/// A window of no hours starts at `now`, and a chain whose tip is older than
/// the cutoff gives totals of zero.
pub proof fn lemma_nothing_recent(chain: Seq<CommitInfo>, now: int)
    requires
        chain.len() > 0,
        chain[0].time < now,
    ensures
        cutoff_of(now, 0) == now,
        totals_of(chain, cutoff_of(now, 0)) == Totals::zero(),
{
    assert(window(chain, now) =~= Seq::<CommitInfo>::empty());
}

} // verus!
