//! A snapshot of a commit graph held in memory, and its mainline: the chain
//! of first parents from a given commit on.

use crate::counts::{count_window, totals_of, CommitCounts, CommitInfo};
use vstd::prelude::*;

verus! {

/// One commit of a snapshot, as the mathematics sees it.
pub struct Node {
    /// Commit time in seconds since the epoch.
    pub time: i64,
    /// The ids of the parents in their order; the first one continues the
    /// mainline.
    pub parents: Seq<int>,
}

impl Node {
    /// What counting reads of the commit.
    pub open spec fn info(self) -> CommitInfo {
        CommitInfo { time: self.time, parents: self.parents.len() as usize }
    }
}

/// One commit of a snapshot. A commit's id is its place in the snapshot.
#[derive(Debug)]
pub struct Entry {
    /// Commit time in seconds since the epoch.
    pub time: i64,
    /// The ids of the parents in their order.
    pub parents: Vec<usize>,
}

impl View for Entry {
    type V = Node;

    open spec fn view(&self) -> Node {
        Node { time: self.time, parents: self.parents@.map_values(|p: usize| p as int) }
    }
}

/// Every commit comes after all of its parents, so no chain of parents
/// returns to a commit that it has left.
pub open spec fn parents_first(graph: Seq<Node>) -> bool {
    forall|i: int, k: int|
        0 <= i < graph.len() && 0 <= k < graph[i].parents.len() ==> 0 <= #[trigger] graph[i].parents[k]
            < i
}

/// Whether `commit` has a first parent to go on with.
pub open spec fn has_first_parent(graph: Seq<Node>, commit: int) -> bool {
    &&& 0 <= commit < graph.len()
    &&& graph[commit].parents.len() > 0
    &&& 0 <= graph[commit].parents[0] < commit
}

/// The mainline from `start`: `start` itself, then its first parent, then
/// that commit's first parent, down to a commit without parents.
pub open spec fn mainline(graph: Seq<Node>, start: int) -> Seq<CommitInfo>
    decreases start,
{
    if !(0 <= start < graph.len()) {
        Seq::empty()
    } else if has_first_parent(graph, start) {
        seq![graph[start].info()] + mainline(graph, graph[start].parents[0])
    } else {
        seq![graph[start].info()]
    }
}

/// Whether the mainline from `start` passes through `commit`.
pub open spec fn on_mainline(graph: Seq<Node>, start: int, commit: int) -> bool
    decreases start,
{
    if !(0 <= start < graph.len()) {
        false
    } else if start == commit {
        true
    } else if has_first_parent(graph, start) {
        on_mainline(graph, graph[start].parents[0], commit)
    } else {
        false
    }
}

/// A snapshot of a commit graph. Commits are added parents first, and a
/// commit's id is the number of commits that were added before it.
#[derive(Debug)]
pub struct History {
    commits: Vec<Entry>,
}

impl View for History {
    type V = Seq<Node>;

    closed spec fn view(&self) -> Seq<Node> {
        self.commits@.map_values(|c: Entry| c@)
    }
}

impl History {
    #[verifier::type_invariant]
    spec fn ordered(self) -> bool {
        parents_first(self@)
    }

    /// A snapshot without commits.
    pub fn new() -> (history: History)
        ensures
            history@ == Seq::<Node>::empty(),
    {
        History { commits: Vec::new() }
    }

    /// The number of commits in the snapshot.
    pub fn len(&self) -> (n: usize)
        ensures
            n == self@.len(),
            parents_first(self@),
    {
        proof {
            use_type_invariant(self);
        }
        self.commits.len()
    }

    /// Adds a commit with the given time and parents and returns its id.
    /// A parent that is not in the snapshot yet leaves the snapshot as it was
    /// and gives `None`.
    pub fn add(&mut self, time: i64, parents: Vec<usize>) -> (id: Option<usize>)
        ensures
            parents_first(final(self)@),
            (forall|k: int| 0 <= k < parents@.len() ==> parents@[k] < old(self)@.len()) ==> id
                == Some(old(self)@.len() as usize) && final(self)@ == old(self)@.push(
                (Entry { time, parents })@,
            ),
            !(forall|k: int| 0 <= k < parents@.len() ==> parents@[k] < old(self)@.len()) ==> id
                is None && final(self)@ == old(self)@,
    {
        proof {
            use_type_invariant(&*self);
        }
        let n = self.commits.len();
        let mut k: usize = 0;
        while k < parents.len()
            invariant
                k <= parents@.len(),
                n == self.commits@.len(),
                *self == *old(self),
                parents_first(self@),
                forall|j: int| 0 <= j < k ==> parents@[j] < n,
            decreases parents.len() - k,
        {
            if parents[k] >= n {
                return None;
            }
            k = k + 1;
        }
        let commit = Entry { time, parents };
        let mut taken = History::new();
        std::mem::swap(self, &mut taken);
        let mut commits = taken.commits;
        proof {
            let before = commits@.map_values(|c: Entry| c@);
            let after = before.push(commit@);
            assert(commits@.push(commit).map_values(|c: Entry| c@) =~= after);
            assert forall|i: int, j: int|
                0 <= i < after.len() && 0 <= j < after[i].parents.len() implies 0
                <= #[trigger] after[i].parents[j] < i by {
                if i < before.len() {
                    assert(after[i] == before[i]);
                }
            }
        }
        commits.push(commit);
        *self = History { commits };
        Some(n)
    }

    /// The mainline from `start`, tip first.
    pub fn mainline(&self, start: usize) -> (chain: Vec<CommitInfo>)
        ensures
            chain@ == mainline(self@, start as int),
    {
        proof {
            use_type_invariant(self);
        }
        let mut chain: Vec<CommitInfo> = Vec::new();
        if start >= self.commits.len() {
            return chain;
        }
        let mut at: usize = start;
        let mut open = true;
        while open
            invariant
                parents_first(self@),
                at < self.commits@.len(),
                self@.len() == self.commits@.len(),
                open ==> chain@ + mainline(self@, at as int) == mainline(self@, start as int),
                !open ==> chain@ == mainline(self@, start as int),
            decreases at + if open { 1int } else { 0int },
        {
            let commit = &self.commits[at];
            let info = CommitInfo { time: commit.time, parents: commit.parents.len() };
            proof {
                assert(self@[at as int] == commit@);
                assert(info == self@[at as int].info());
            }
            let ghost before = chain@;
            chain.push(info);
            if commit.parents.len() > 0 {
                let next = commit.parents[0];
                proof {
                    assert(self@[at as int].parents[0] == next);
                    assert(has_first_parent(self@, at as int));
                    assert(before.push(info) + mainline(self@, next as int) =~= before + (seq![info]
                        + mainline(self@, next as int)));
                }
                at = next;
            } else {
                proof {
                    assert(!has_first_parent(self@, at as int));
                    assert(before.push(info) =~= before + seq![info]);
                }
                open = false;
            }
        }
        chain
    }

    /// Counts the commits on the mainline from `start` that come before the
    /// first one older than `t_min`.
    pub fn count(&self, start: usize, t_min: i128) -> (counts: CommitCounts)
        ensures
            counts@ == totals_of(mainline(self@, start as int), t_min as int),
            counts@.balanced(),
    {
        let chain = self.mainline(start);
        count_window(&chain, t_min)
    }
}

} // verus!
