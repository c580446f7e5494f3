//! Counting on a repository: the branch's tip is looked up, the first-parent
//! chain is pulled from it commit by commit, and each pulled commit goes
//! through the window and into the tally.

use crate::conf::Conf;
use crate::counts::{
    cutoff_of, lemma_tally_push, lemma_window_len_is, minimum_time_epoch, tally, totals_of,
    CommitCounts, CommitInfo,
};
use crate::error::CountError;
use vstd::prelude::*;
use vstd::string::StringExecFns;

verus! {

/// `git2::Repository`: an open repository.
#[verifier::external_type_specification]
#[verifier::external_body]
pub struct ExRepository(git2::Repository);

/// `git2::Branch`: a branch that was found in a repository.
#[verifier::external_type_specification]
#[verifier::external_body]
pub struct ExBranch<'repo>(git2::Branch<'repo>);

/// `git2::Commit`: a commit that was read from a repository.
#[verifier::external_type_specification]
#[verifier::external_body]
pub struct ExCommit<'repo>(git2::Commit<'repo>);

/// `git2::Oid`: the id of an object.
#[verifier::external_type_specification]
#[verifier::external_body]
pub struct ExOid(git2::Oid);

/// `git2::Revwalk`: a walk over the commit graph that hands out ids.
#[verifier::external_type_specification]
#[verifier::external_body]
pub struct ExRevwalk<'repo>(git2::Revwalk<'repo>);

/// `git2::Error`: why a call into the repository failed.
#[verifier::external_type_specification]
#[verifier::external_body]
pub struct ExGitError(git2::Error);

/// `chrono::offset::Local::now` and `DateTime::timestamp`: the clock's
/// reading in seconds since the epoch. Nothing is claimed of it.
#[verifier::external_body]
fn local_now_seconds() -> i64 {
    chrono::offset::Local::now().timestamp()
}

/// `git2::Repository::find_branch` with `git2::BranchType::Remote`. It turns
/// the name into a C string before it looks anything up, and that fails on a
/// NUL character: such a name gives an error. Of any other name nothing is
/// claimed: the outcome depends on what the repository holds.
#[verifier::external_body]
fn find_remote_branch<'repo>(repo: &'repo git2::Repository, name: &str) -> (found: Result<
    git2::Branch<'repo>,
    git2::Error,
>)
    ensures
        name@.contains('\0') ==> found is Err,
{
    repo.find_branch(name, git2::BranchType::Remote)
}

/// `git2::Branch::get` and `git2::Reference::peel_to_commit`: the commit that
/// the branch leads to, through tags if need be. Nothing is claimed of the
/// outcome.
#[verifier::external_body]
fn peel_branch_to_commit<'repo>(branch: &git2::Branch<'repo>) -> Result<
    git2::Commit<'repo>,
    git2::Error,
> {
    branch.get().peel_to_commit()
}

/// `git2::Commit::id`. Nothing is claimed of the id.
#[verifier::external_body]
fn commit_id(commit: &git2::Commit<'_>) -> git2::Oid {
    commit.id()
}

/// `git2::Commit::time` and `git2::Time::seconds`: the commit time in seconds
/// since the epoch. Nothing is claimed of it.
#[verifier::external_body]
fn commit_seconds(commit: &git2::Commit<'_>) -> i64 {
    commit.time().seconds()
}

/// `git2::Commit::parent_ids`, counted. Nothing is claimed of the number.
#[verifier::external_body]
fn commit_parent_count(commit: &git2::Commit<'_>) -> usize {
    commit.parent_ids().count()
}

/// `git2::Repository::find_commit`. Nothing is claimed of the outcome.
#[verifier::external_body]
fn find_commit<'repo>(repo: &'repo git2::Repository, id: git2::Oid) -> Result<
    git2::Commit<'repo>,
    git2::Error,
> {
    repo.find_commit(id)
}

/// `git2::Repository::revwalk`: a fresh walk with nothing to visit yet.
/// Nothing is claimed of the outcome.
#[verifier::external_body]
fn new_revwalk<'repo>(repo: &'repo git2::Repository) -> Result<git2::Revwalk<'repo>, git2::Error> {
    repo.revwalk()
}

/// `git2::Revwalk::simplify_first_parent`. Nothing is claimed of the outcome.
#[verifier::external_body]
fn revwalk_simplify_first_parent(walk: &mut git2::Revwalk<'_>) -> Result<(), git2::Error> {
    walk.simplify_first_parent()
}

/// `git2::Revwalk::push`. Nothing is claimed of the outcome.
#[verifier::external_body]
fn revwalk_push(walk: &mut git2::Revwalk<'_>, id: git2::Oid) -> Result<(), git2::Error> {
    walk.push(id)
}

/// `Iterator::next` of `git2::Revwalk`. Nothing is claimed of the outcome.
#[verifier::external_body]
fn revwalk_next(walk: &mut git2::Revwalk<'_>) -> Option<Result<git2::Oid, git2::Error>> {
    walk.next()
}

/// What one pull on the walk gave.
#[derive(Clone, Copy, Debug, PartialEq, Eq, Structural)]
pub enum Pulled {
    /// The walk has no further commit.
    Exhausted,
    /// The next commit of the chain.
    Commit(CommitInfo),
    /// The repository could not be read.
    Failed,
}

/// What follows one pull.
#[derive(Clone, Copy, Debug, PartialEq, Eq)]
pub enum Step {
    /// The commit was counted; pull again.
    Continue(CommitCounts),
    /// The traversal is over with these counts.
    Done(CommitCounts),
    /// The traversal failed and gives no counts.
    Abort(CountError),
}

/// The name of the remote-tracking branch: remote, a slash, branch.
pub open spec fn tracking_name(remote: Seq<char>, branch: Seq<char>) -> Seq<char> {
    remote + "/"@ + branch
}

/// Whether the name of `remote`'s `branch` holds a NUL character. No
/// reference has such a name, so a lookup under it finds nothing, whatever
/// the repository holds.
pub open spec fn names_nothing(remote: Seq<char>, branch: Seq<char>) -> bool {
    remote.contains('\0') || branch.contains('\0')
}

/// A NUL character in the remote's or the branch's name is one in the name
/// that the branch is tracked under.
pub proof fn lemma_nul_reaches_tracking_name(remote: Seq<char>, branch: Seq<char>)
    requires
        names_nothing(remote, branch),
    ensures
        tracking_name(remote, branch).contains('\0'),
{
    let name = tracking_name(remote, branch);
    let slash = "/"@;
    if remote.contains('\0') {
        let i = choose|i: int| 0 <= i < remote.len() && remote[i] == '\0';
        assert(name[i] == '\0');
    } else {
        let j = choose|j: int| 0 <= j < branch.len() && branch[j] == '\0';
        assert(name[remote.len() + slash.len() + j] == '\0');
    }
}

/// Builds the name under which `remote`'s `branch` is tracked.
pub fn remote_branch_name(remote: &str, branch: &str) -> (name: String)
    ensures
        name@ == tracking_name(remote@, branch@),
{
    String::from_str(remote).concat("/").concat(branch)
}

/// Passes a success on and names a failure by the stage that it befell.
pub fn or_stage_error<T>(outcome: Result<T, git2::Error>, stage: CountError) -> (r: Result<
    T,
    CountError,
>)
    ensures
        outcome matches Ok(value) ==> r == Ok::<T, CountError>(value),
        outcome is Err ==> r == Err::<T, CountError>(stage),
{
    match outcome {
        Ok(value) => Ok(value),
        Err(_) => Err(stage),
    }
}

/// Decides what follows one pull. A commit older than `t_min` ends the
/// traversal and is not counted, nor is anything after it; the end of the
/// walk ends it too. Any other commit is counted. A failed read aborts, and
/// so does a commit beyond what the counters can hold: no chain of distinct
/// commits is that long.
pub fn advance(counts: CommitCounts, pulled: Pulled, t_min: i128) -> (step: Step)
    ensures
        step matches Step::Continue(next) ==> next@.balanced(),
        step matches Step::Done(total) ==> total@.balanced(),
        match pulled {
            Pulled::Exhausted => step == Step::Done(counts),
            Pulled::Failed => step == Step::Abort(CountError::RepositoryRead),
            Pulled::Commit(commit) => if !commit.in_window(t_min as int) {
                step == Step::Done(counts)
            } else if counts@.commits < usize::MAX {
                step matches Step::Continue(next) && next@ == counts@.with(commit)
            } else {
                step == Step::Abort(CountError::RepositoryRead)
            },
        },
{
    let room = counts.has_room();
    match pulled {
        Pulled::Exhausted => Step::Done(counts),
        Pulled::Failed => Step::Abort(CountError::RepositoryRead),
        Pulled::Commit(commit) => {
            if !commit.admitted(t_min) {
                Step::Done(counts)
            } else if room {
                Step::Continue(counts.record(&commit))
            } else {
                Step::Abort(CountError::RepositoryRead)
            }
        },
    }
}

/// Finds the commit at the tip of the remote-tracking branch `remote/branch`.
/// A branch that cannot be found gives `RefNotFound`; one that leads to no
/// commit gives `ObjectResolution`. A name with a NUL character is never
/// found.
pub fn resolve_branch(repo: &git2::Repository, remote: &str, branch: &str) -> (r: Result<
    git2::Oid,
    CountError,
>)
    ensures
        r matches Err(e) ==> e == CountError::RefNotFound || e == CountError::ObjectResolution,
        names_nothing(remote@, branch@) ==> (r matches Err(e) && e == CountError::RefNotFound),
{
    let name = remote_branch_name(remote, branch);
    proof {
        if names_nothing(remote@, branch@) {
            lemma_nul_reaches_tracking_name(remote@, branch@);
        }
    }
    let found = or_stage_error(find_remote_branch(repo, name.as_str()), CountError::RefNotFound)?;
    let tip = or_stage_error(peel_branch_to_commit(&found), CountError::ObjectResolution)?;
    Ok(commit_id(&tip))
}

/// Starts a walk at `start` that follows first parents only.
pub fn first_parent_walk<'repo>(repo: &'repo git2::Repository, start: git2::Oid) -> (r: Result<
    git2::Revwalk<'repo>,
    CountError,
>)
    ensures
        r matches Err(e) ==> e == CountError::RepositoryRead,
{
    let mut walk = or_stage_error(new_revwalk(repo), CountError::RepositoryRead)?;
    or_stage_error(revwalk_simplify_first_parent(&mut walk), CountError::RepositoryRead)?;
    or_stage_error(revwalk_push(&mut walk, start), CountError::RepositoryRead)?;
    Ok(walk)
}

/// Pulls the next commit from the walk and reads its time and the number of
/// its parents.
fn pull(repo: &git2::Repository, walk: &mut git2::Revwalk<'_>) -> Pulled {
    match revwalk_next(walk) {
        None => Pulled::Exhausted,
        Some(Err(_)) => Pulled::Failed,
        Some(Ok(id)) => match find_commit(repo, id) {
            Err(_) => Pulled::Failed,
            Ok(commit) => Pulled::Commit(
                CommitInfo { time: commit_seconds(&commit), parents: commit_parent_count(&commit) },
            ),
        },
    }
}

/// Counts the commits on the first-parent chain from `start` that come before
/// the first one older than `t_min`. The counts are the totals of the chain
/// that the repository handed out.
pub fn count_from(repo: &git2::Repository, start: git2::Oid, t_min: i128) -> (r: Result<
    CommitCounts,
    CountError,
>)
    ensures
        r matches Ok(counts) ==> counts@.balanced() && exists|chain: Seq<CommitInfo>|
            counts@ == totals_of(chain, t_min as int),
        r matches Err(e) ==> e == CountError::RepositoryRead,
{
    let mut walk = first_parent_walk(repo, start)?;
    let mut counts = CommitCounts::new();
    let ghost mut seen: Seq<CommitInfo> = Seq::empty();
    loop
        invariant
            counts@ == tally(seen),
            forall|k: int| 0 <= k < seen.len() ==> (#[trigger] seen[k]).in_window(t_min as int),
        decreases usize::MAX - counts@.commits,
    {
        let pulled = pull(repo, &mut walk);
        match advance(counts, pulled, t_min) {
            Step::Continue(next) => {
                proof {
                    let commit = pulled->Commit_0;
                    lemma_tally_push(seen, commit);
                    seen = seen.push(commit);
                }
                counts = next;
            },
            Step::Done(total) => {
                proof {
                    let chain = match pulled {
                        Pulled::Commit(commit) => seen.push(commit),
                        _ => seen,
                    };
                    lemma_window_len_is(chain, t_min as int, seen.len() as int);
                    assert(chain.take(seen.len() as int) =~= seen);
                    assert(total@ == totals_of(chain, t_min as int));
                }
                return Ok(total);
            },
            Step::Abort(e) => {
                return Err(e);
            },
        }
    }
}

/// Counts, at the cutoff `t_min`, the recent commits on the mainline of the
/// remote-tracking branch `remote/branch`. The counts are the totals of the
/// chain that the repository handed out; a name with a NUL character gives
/// `RefNotFound`.
pub fn count_commits_since(repo: &git2::Repository, remote: &str, branch: &str, t_min: i128) -> (r:
    Result<CommitCounts, CountError>)
    ensures
        r matches Ok(counts) ==> counts@.balanced() && exists|chain: Seq<CommitInfo>|
            counts@ == totals_of(chain, t_min as int),
        names_nothing(remote@, branch@) ==> (r matches Err(e) && e == CountError::RefNotFound),
{
    let start = resolve_branch(repo, remote, branch)?;
    count_from(repo, start, t_min)
}

/// Counts the commits of the last `hours_to_check` hours on the mainline of
/// the branch that `config` names. The window ends at the clock's reading when
/// the call is made. A remote or a branch with a NUL character in its name
/// gives `RefNotFound`.
pub fn count_commits_on_main_branch(repo: &git2::Repository, config: &Conf) -> (r: Result<
    CommitCounts,
    CountError,
>)
    ensures
        r matches Ok(counts) ==> counts@.balanced() && exists|now: i64, chain: Seq<CommitInfo>|
            counts@ == totals_of(chain, cutoff_of(now as int, config.hours())),
        names_nothing(config.remote(), config.branch()) ==> (r matches Err(e) && e
            == CountError::RefNotFound),
{
    let now = local_now_seconds();
    let t_min = minimum_time_epoch(now, *config.hours_to_check());
    count_commits_since(
        repo,
        config.origin_remote_name().as_str(),
        config.master_branch_name().as_str(),
        t_min,
    )
}

} // verus!
