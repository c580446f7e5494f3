//! The time window and the tally: which commits of a chain are retained, and
//! how the retained ones are counted.

use vstd::prelude::*;

verus! {

/// What counting reads of one commit.
#[derive(Clone, Copy, Debug, PartialEq, Eq, Structural)]
pub struct CommitInfo {
    /// Commit time in seconds since the epoch. It is supplied by the
    /// committer, so it need not decrease along a chain.
    pub time: i64,
    /// How many parents the commit has.
    pub parents: usize,
}

impl CommitInfo {
    /// A merge has two parents or more; a root commit is no merge.
    pub open spec fn is_merge(self) -> bool {
        self.parents > 1
    }

    /// A commit is inside the window when it is not older than the cutoff.
    pub open spec fn in_window(self, t_min: int) -> bool {
        self.time >= t_min
    }

    /// Tells whether the commit has two parents or more.
    pub fn merge(&self) -> (b: bool)
        ensures
            b == self.is_merge(),
    {
        self.parents > 1
    }

    /// Tells whether the commit is not older than `t_min`.
    pub fn admitted(&self, t_min: i128) -> (b: bool)
        ensures
            b == self.in_window(t_min as int),
    {
        self.time as i128 >= t_min
    }
}

/// The three totals as mathematical numbers.
pub struct Totals {
    pub commits: nat,
    pub merges: nat,
    pub nonmerges: nat,
}

impl Totals {
    /// Every counted commit is either a merge or a non-merge.
    pub open spec fn balanced(self) -> bool {
        self.commits == self.merges + self.nonmerges
    }

    /// The totals of nothing.
    pub open spec fn zero() -> Totals {
        Totals { commits: 0, merges: 0, nonmerges: 0 }
    }

    /// The totals after one more commit has been counted.
    pub open spec fn with(self, commit: CommitInfo) -> Totals {
        if commit.is_merge() {
            Totals { commits: self.commits + 1, merges: self.merges + 1, nonmerges: self.nonmerges }
        } else {
            Totals { commits: self.commits + 1, merges: self.merges, nonmerges: self.nonmerges + 1 }
        }
    }
}

/// The number of commits at the front of `chain` that are inside the window:
/// the position of the first commit older than `t_min`, or the length of the
/// chain when there is none.
pub open spec fn window_len(chain: Seq<CommitInfo>, t_min: int) -> nat
    decreases chain.len(),
{
    if chain.len() == 0 || !chain[0].in_window(t_min) {
        0
    } else {
        1 + window_len(chain.skip(1), t_min)
    }
}

/// The retained commits: the front of `chain` up to, and without, the first
/// commit older than `t_min`.
pub open spec fn window(chain: Seq<CommitInfo>, t_min: int) -> Seq<CommitInfo> {
    chain.take(window_len(chain, t_min) as int)
}

/// How many commits of `commits` are merges.
pub open spec fn merges_in(commits: Seq<CommitInfo>) -> nat
    decreases commits.len(),
{
    if commits.len() == 0 {
        0
    } else {
        merges_in(commits.drop_last()) + if commits.last().is_merge() {
            1nat
        } else {
            0nat
        }
    }
}

/// The totals of a run of commits, all of them counted.
pub open spec fn tally(commits: Seq<CommitInfo>) -> Totals {
    Totals {
        commits: commits.len(),
        merges: merges_in(commits),
        nonmerges: (commits.len() - merges_in(commits)) as nat,
    }
}

/// The totals of walking `chain` with the cutoff `t_min`.
pub open spec fn totals_of(chain: Seq<CommitInfo>, t_min: int) -> Totals {
    tally(window(chain, t_min))
}

/// The cutoff instant of a window of `hours_to_check` hours that ends at `now`.
pub open spec fn cutoff_of(now: int, hours_to_check: int) -> int {
    now - hours_to_check * 3600
}

/// No run of commits holds more merges than commits.
pub proof fn lemma_merges_bounded(commits: Seq<CommitInfo>)
    ensures
        merges_in(commits) <= commits.len(),
    decreases commits.len(),
{
    if commits.len() > 0 {
        lemma_merges_bounded(commits.drop_last());
    }
}

/// Counting one more commit adds it to the tally.
pub proof fn lemma_tally_push(commits: Seq<CommitInfo>, commit: CommitInfo)
    ensures
        tally(commits.push(commit)) == tally(commits).with(commit),
{
    assert(commits.push(commit).drop_last() =~= commits);
    lemma_merges_bounded(commits);
}

/// `n` is the window's length when the first `n` commits are inside the
/// window and the chain ends there or goes on with a commit that is not.
pub proof fn lemma_window_len_is(chain: Seq<CommitInfo>, t_min: int, n: int)
    requires
        0 <= n <= chain.len(),
        forall|i: int| 0 <= i < n ==> (#[trigger] chain[i]).in_window(t_min),
        n < chain.len() ==> !chain[n].in_window(t_min),
    ensures
        window_len(chain, t_min) == n,
    decreases n,
{
    if n > 0 {
        let rest = chain.skip(1);
        assert forall|i: int| 0 <= i < n - 1 implies (#[trigger] rest[i]).in_window(t_min) by {
            assert(rest[i] == chain[i + 1]);
        }
        lemma_window_len_is(rest, t_min, n - 1);
    }
}

/// The window is a front of the chain, all of it inside the window, and the
/// commit after it, if there is one, is older than the cutoff.
pub proof fn lemma_window_len_bounds(chain: Seq<CommitInfo>, t_min: int)
    ensures
        window_len(chain, t_min) <= chain.len(),
        forall|i: int|
            0 <= i < window_len(chain, t_min) ==> (#[trigger] chain[i]).in_window(t_min),
        window_len(chain, t_min) < chain.len() ==> !chain[
            window_len(chain, t_min) as int
        ].in_window(t_min),
    decreases chain.len(),
{
    if chain.len() > 0 && chain[0].in_window(t_min) {
        let rest = chain.skip(1);
        lemma_window_len_bounds(rest, t_min);
        assert forall|i: int| 0 <= i < window_len(chain, t_min) implies (#[trigger] chain[
            i
        ]).in_window(t_min) by {
            if i > 0 {
                assert(chain[i] == rest[i - 1]);
            }
        }
        if window_len(chain, t_min) < chain.len() {
            assert(chain[window_len(chain, t_min) as int] == rest[window_len(rest, t_min) as int]);
        }
    }
}

/// The cutoff instant of a window of `hours_to_check` hours that ends at
/// `now`, both in seconds. The result is wide enough for every `now` and every
/// number of hours.
pub fn minimum_time_epoch(now: i64, hours_to_check: i64) -> (t_min: i128)
    ensures
        t_min == cutoff_of(now as int, hours_to_check as int),
{
    let span: i128 = (hours_to_check as i128) * 3600;
    (now as i128) - span
}

/// The three totals of one traversal. The number of commits is always the
/// number of merges plus the number of non-merges.
#[derive(Clone, Copy, Debug, PartialEq, Eq)]
pub struct CommitCounts {
    commits: usize,
    merges: usize,
    nonmerges: usize,
}

impl View for CommitCounts {
    type V = Totals;

    closed spec fn view(&self) -> Totals {
        Totals {
            commits: self.commits as nat,
            merges: self.merges as nat,
            nonmerges: self.nonmerges as nat,
        }
    }
}

impl CommitCounts {
    #[verifier::type_invariant]
    spec fn sound(self) -> bool {
        self.commits == self.merges + self.nonmerges
    }

    /// The counts before any commit was seen.
    pub fn new() -> (counts: CommitCounts)
        ensures
            counts@ == Totals::zero(),
    {
        CommitCounts { commits: 0, merges: 0, nonmerges: 0 }
    }

    /// The number of counted commits.
    pub fn commits(&self) -> (n: usize)
        ensures
            n == self@.commits,
    {
        self.commits
    }

    /// The number of counted commits with two parents or more.
    pub fn merges(&self) -> (n: usize)
        ensures
            n == self@.merges,
    {
        self.merges
    }

    /// The number of counted commits with at most one parent.
    pub fn nonmerges(&self) -> (n: usize)
        ensures
            n == self@.nonmerges,
    {
        self.nonmerges
    }

    /// The totals as `(commits, merges, nonmerges)`.
    pub fn as_tuple(&self) -> (t: (usize, usize, usize))
        ensures
            t.0 == self@.commits,
            t.1 == self@.merges,
            t.2 == self@.nonmerges,
            t.0 == t.1 + t.2,
    {
        proof {
            use_type_invariant(self);
        }
        (self.commits, self.merges, self.nonmerges)
    }

    /// Tells whether one more commit can be counted.
    pub fn has_room(&self) -> (b: bool)
        ensures
            b == (self@.commits < usize::MAX),
            self@.balanced(),
    {
        proof {
            use_type_invariant(self);
        }
        self.commits < usize::MAX
    }

    /// Counts `commit`, as a merge or as a non-merge.
    pub fn record(self, commit: &CommitInfo) -> (counts: CommitCounts)
        requires
            self@.commits < usize::MAX,
        ensures
            counts@ == self@.with(*commit),
            counts@.balanced(),
    {
        proof {
            use_type_invariant(self);
        }
        if commit.merge() {
            CommitCounts {
                commits: self.commits + 1,
                merges: self.merges + 1,
                nonmerges: self.nonmerges,
            }
        } else {
            CommitCounts {
                commits: self.commits + 1,
                merges: self.merges,
                nonmerges: self.nonmerges + 1,
            }
        }
    }
}

/// Counts the commits of `chain`, which lists a first-parent chain from its
/// tip on, that come before the first commit older than `t_min`.
pub fn count_window(chain: &Vec<CommitInfo>, t_min: i128) -> (counts: CommitCounts)
    ensures
        counts@ == totals_of(chain@, t_min as int),
        counts@.balanced(),
{
    let mut counts = CommitCounts::new();
    let mut i: usize = 0;
    let mut open = true;
    proof {
        assert(chain@.take(0) =~= Seq::<CommitInfo>::empty());
    }
    while open && i < chain.len()
        invariant
            i <= chain.len(),
            counts@ == tally(chain@.take(i as int)),
            forall|k: int| 0 <= k < i ==> (#[trigger] chain@[k]).in_window(t_min as int),
            !open ==> i < chain.len() && !chain@[i as int].in_window(t_min as int),
        decreases chain.len() - i + if open { 1int } else { 0int },
    {
        let commit = chain[i];
        if commit.admitted(t_min) {
            proof {
                lemma_tally_push(chain@.take(i as int), commit);
                assert(chain@.take(i as int + 1) =~= chain@.take(i as int).push(commit));
            }
            counts = counts.record(&commit);
            i = i + 1;
        } else {
            open = false;
        }
    }
    proof {
        lemma_window_len_is(chain@, t_min as int, i as int);
        lemma_merges_bounded(window(chain@, t_min as int));
    }
    counts
}

} // verus!
