use combot::{
    advance, count_window, minimum_time_epoch, CommitCounts, CommitInfo, CountError, Pulled, Step,
};

fn plain(time: i64) -> CommitInfo {
    CommitInfo { time, parents: 1 }
}

fn root(time: i64) -> CommitInfo {
    CommitInfo { time, parents: 0 }
}

fn merge(time: i64) -> CommitInfo {
    CommitInfo { time, parents: 2 }
}

#[test]
fn cutoff_is_now_minus_hours_in_seconds() {
    assert_eq!(minimum_time_epoch(1_000_000, 24), 1_000_000 - 86_400);
    assert_eq!(minimum_time_epoch(1_000_000, 1), 996_400);
    assert_eq!(minimum_time_epoch(7200, 2), 0);
}

#[test]
fn cutoff_of_zero_hours_is_now() {
    assert_eq!(minimum_time_epoch(1_700_000_000, 0), 1_700_000_000);
    assert_eq!(minimum_time_epoch(0, 0), 0);
    assert_eq!(minimum_time_epoch(-5, 0), -5);
}

#[test]
fn cutoff_does_not_wrap_at_the_limits() {
    assert_eq!(
        minimum_time_epoch(i64::MIN, i64::MAX),
        i64::MIN as i128 - (i64::MAX as i128) * 3600
    );
    assert_eq!(
        minimum_time_epoch(i64::MAX, i64::MIN),
        i64::MAX as i128 - (i64::MIN as i128) * 3600
    );
    assert_eq!(minimum_time_epoch(10, -1), 3610);
}

#[test]
fn new_counts_are_zero() {
    let counts = CommitCounts::new();
    assert_eq!(counts.commits(), 0);
    assert_eq!(counts.merges(), 0);
    assert_eq!(counts.nonmerges(), 0);
    assert_eq!(counts.as_tuple(), (0, 0, 0));
    assert!(counts.has_room());
}

#[test]
fn record_tells_merges_from_nonmerges() {
    let counts = CommitCounts::new().record(&plain(5));
    assert_eq!(counts.as_tuple(), (1, 0, 1));
    let counts = counts.record(&merge(4));
    assert_eq!(counts.as_tuple(), (2, 1, 1));
    let counts = counts.record(&root(3));
    assert_eq!(counts.as_tuple(), (3, 1, 2));
    let counts = counts.record(&CommitInfo { time: 2, parents: 8 });
    assert_eq!(counts.as_tuple(), (4, 2, 2));
}

#[test]
fn merge_needs_two_parents() {
    assert!(!root(0).merge());
    assert!(!plain(0).merge());
    assert!(merge(0).merge());
    assert!(CommitInfo { time: 0, parents: 3 }.merge());
}

#[test]
fn admitted_at_the_cutoff_and_not_a_second_before() {
    assert!(plain(100).admitted(100));
    assert!(plain(101).admitted(100));
    assert!(!plain(99).admitted(100));
    assert!(plain(i64::MIN).admitted(i64::MIN as i128 - 1));
    assert!(!plain(i64::MAX).admitted(i64::MAX as i128 + 1));
}

#[test]
fn empty_chain_counts_nothing() {
    assert_eq!(count_window(&vec![], 0).as_tuple(), (0, 0, 0));
}

#[test]
fn linear_history_inside_the_window() {
    let chain = vec![plain(500), plain(400), plain(300), plain(200), root(100)];
    assert_eq!(count_window(&chain, 50).as_tuple(), (5, 0, 5));
}

#[test]
fn one_merge_on_the_mainline() {
    let chain = vec![plain(500), merge(400), plain(300), plain(200), root(100)];
    assert_eq!(count_window(&chain, 50).as_tuple(), (5, 1, 4));
}

#[test]
fn cutoff_in_the_middle_of_the_chain() {
    let chain = vec![plain(500), plain(400), plain(30), plain(20), root(10)];
    assert_eq!(count_window(&chain, 100).as_tuple(), (2, 0, 2));
}

#[test]
fn zero_hour_window_with_nothing_recent() {
    let now = 1_700_000_000;
    let t_min = minimum_time_epoch(now, 0);
    let chain = vec![plain(now - 1), plain(now - 60), root(now - 3600)];
    assert_eq!(count_window(&chain, t_min).as_tuple(), (0, 0, 0));
}

#[test]
fn zero_hour_window_keeps_a_commit_dated_now() {
    let now = 1_700_000_000;
    let t_min = minimum_time_epoch(now, 0);
    let chain = vec![plain(now), root(now - 1)];
    assert_eq!(count_window(&chain, t_min).as_tuple(), (1, 0, 1));
}

#[test]
fn commit_at_the_cutoff_is_retained() {
    let chain = vec![plain(200), merge(100), root(99)];
    assert_eq!(count_window(&chain, 100).as_tuple(), (2, 1, 1));
}

#[test]
fn commit_a_second_older_stops_the_traversal() {
    let chain = vec![plain(200), merge(99), root(300)];
    assert_eq!(count_window(&chain, 100).as_tuple(), (1, 0, 1));
}

#[test]
fn nothing_after_the_first_old_commit_is_counted() {
    let chain = vec![plain(200), plain(50), merge(900), merge(800), plain(700)];
    assert_eq!(count_window(&chain, 100).as_tuple(), (1, 0, 1));
}

#[test]
fn counts_always_balance() {
    let chains = vec![
        vec![],
        vec![root(1)],
        vec![merge(9), merge(8), plain(7), root(6)],
        vec![merge(9), plain(2), merge(8)],
        vec![CommitInfo { time: 5, parents: 4 }, plain(5), plain(4)],
    ];
    for chain in &chains {
        for t_min in [-1i128, 0, 3, 5, 8, 10] {
            let (commits, merges, nonmerges) = count_window(chain, t_min).as_tuple();
            assert_eq!(commits, merges + nonmerges);
            assert!(commits <= chain.len());
        }
    }
}

#[test]
fn counting_twice_gives_the_same_record() {
    let chain = vec![plain(500), merge(400), plain(300), plain(20), root(10)];
    let first = count_window(&chain, 100);
    let second = count_window(&chain, 100);
    assert_eq!(first, second);
    assert_eq!(first.as_tuple(), (3, 1, 2));
}

#[test]
fn advance_ends_when_the_walk_is_exhausted() {
    let counts = CommitCounts::new().record(&plain(9));
    assert_eq!(advance(counts, Pulled::Exhausted, 0), Step::Done(counts));
}

#[test]
fn advance_aborts_on_a_failed_read() {
    let counts = CommitCounts::new().record(&plain(9));
    assert_eq!(
        advance(counts, Pulled::Failed, 0),
        Step::Abort(CountError::RepositoryRead)
    );
}

#[test]
fn advance_counts_a_commit_inside_the_window() {
    let counts = CommitCounts::new();
    match advance(counts, Pulled::Commit(merge(10)), 10) {
        Step::Continue(next) => assert_eq!(next.as_tuple(), (1, 1, 0)),
        other => panic!("unexpected step {:?}", other),
    }
    match advance(counts, Pulled::Commit(root(11)), 10) {
        Step::Continue(next) => assert_eq!(next.as_tuple(), (1, 0, 1)),
        other => panic!("unexpected step {:?}", other),
    }
}

#[test]
fn advance_stops_at_a_commit_older_than_the_cutoff() {
    let counts = CommitCounts::new().record(&merge(50));
    assert_eq!(
        advance(counts, Pulled::Commit(merge(9)), 10),
        Step::Done(counts)
    );
}

#[test]
fn error_descriptions_name_the_stage() {
    assert_eq!(
        CountError::RefNotFound.describe(),
        "remote-tracking branch not found"
    );
    assert_eq!(
        CountError::ObjectResolution.describe(),
        "branch does not resolve to a commit"
    );
    assert_eq!(
        CountError::RepositoryRead.describe(),
        "repository could not be read during the walk"
    );
}
