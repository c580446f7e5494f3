use combot::{CommitInfo, History};

fn chain_of_five(times: [i64; 5]) -> (History, usize) {
    let mut history = History::new();
    let c1 = history.add(times[0], vec![]).unwrap();
    let c2 = history.add(times[1], vec![c1]).unwrap();
    let c3 = history.add(times[2], vec![c2]).unwrap();
    let c4 = history.add(times[3], vec![c3]).unwrap();
    let c5 = history.add(times[4], vec![c4]).unwrap();
    (history, c5)
}

#[test]
fn new_history_is_empty() {
    let history = History::new();
    assert_eq!(history.len(), 0);
    assert_eq!(history.mainline(0), vec![]);
    assert_eq!(history.count(0, 0).as_tuple(), (0, 0, 0));
}

#[test]
fn add_hands_out_ids_in_order() {
    let mut history = History::new();
    assert_eq!(history.add(10, vec![]), Some(0));
    assert_eq!(history.add(20, vec![0]), Some(1));
    assert_eq!(history.add(30, vec![1, 0]), Some(2));
    assert_eq!(history.len(), 3);
}

#[test]
fn add_refuses_an_unknown_parent() {
    let mut history = History::new();
    assert_eq!(history.add(10, vec![0]), None);
    assert_eq!(history.len(), 0);
    assert_eq!(history.add(10, vec![]), Some(0));
    assert_eq!(history.add(20, vec![0, 1]), None);
    assert_eq!(history.add(20, vec![7]), None);
    assert_eq!(history.len(), 1);
}

#[test]
fn mainline_lists_tip_first() {
    let (history, tip) = chain_of_five([100, 200, 300, 400, 500]);
    assert_eq!(
        history.mainline(tip),
        vec![
            CommitInfo { time: 500, parents: 1 },
            CommitInfo { time: 400, parents: 1 },
            CommitInfo { time: 300, parents: 1 },
            CommitInfo { time: 200, parents: 1 },
            CommitInfo { time: 100, parents: 0 },
        ]
    );
}

#[test]
fn mainline_from_the_middle() {
    let (history, _) = chain_of_five([100, 200, 300, 400, 500]);
    assert_eq!(
        history.mainline(1),
        vec![
            CommitInfo { time: 200, parents: 1 },
            CommitInfo { time: 100, parents: 0 },
        ]
    );
    assert_eq!(history.mainline(5), vec![]);
}

#[test]
fn snapshot_linear_history() {
    let (history, tip) = chain_of_five([100, 200, 300, 400, 500]);
    assert_eq!(history.count(tip, 50).as_tuple(), (5, 0, 5));
}

#[test]
fn snapshot_with_one_merge() {
    for side_time in [0i64, 350, 1_000_000] {
        let mut history = History::new();
        let c1 = history.add(100, vec![]).unwrap();
        let cx = history.add(side_time, vec![]).unwrap();
        let c2 = history.add(200, vec![c1]).unwrap();
        let c3 = history.add(300, vec![c2]).unwrap();
        let c4 = history.add(400, vec![c3, cx]).unwrap();
        let c5 = history.add(500, vec![c4]).unwrap();
        assert_eq!(history.count(c5, 50).as_tuple(), (5, 1, 4));
        assert_eq!(history.mainline(c5).len(), 5);
    }
}

#[test]
fn snapshot_side_branch_is_never_counted() {
    let mut history = History::new();
    let c1 = history.add(100, vec![]).unwrap();
    let s1 = history.add(450, vec![c1]).unwrap();
    let s2 = history.add(460, vec![s1]).unwrap();
    let s3 = history.add(470, vec![s2]).unwrap();
    let c2 = history.add(200, vec![c1]).unwrap();
    let c3 = history.add(480, vec![c2, s3]).unwrap();
    let c4 = history.add(500, vec![c3]).unwrap();
    assert_eq!(history.count(c4, 50).as_tuple(), (4, 1, 3));
    assert_eq!(history.count(c4, 440).as_tuple(), (2, 1, 1));
}

#[test]
fn snapshot_first_parent_decides_the_mainline() {
    let mut history = History::new();
    let a = history.add(100, vec![]).unwrap();
    let b = history.add(900, vec![]).unwrap();
    let left = history.add(500, vec![a, b]).unwrap();
    let right = history.add(500, vec![b, a]).unwrap();
    assert_eq!(
        history.mainline(left),
        vec![
            CommitInfo { time: 500, parents: 2 },
            CommitInfo { time: 100, parents: 0 },
        ]
    );
    assert_eq!(
        history.mainline(right),
        vec![
            CommitInfo { time: 500, parents: 2 },
            CommitInfo { time: 900, parents: 0 },
        ]
    );
    assert_eq!(history.count(left, 200).as_tuple(), (1, 1, 0));
    assert_eq!(history.count(right, 200).as_tuple(), (2, 1, 1));
}

#[test]
fn snapshot_cutoff_in_the_middle() {
    let (history, tip) = chain_of_five([10, 20, 30, 400, 500]);
    assert_eq!(history.count(tip, 100).as_tuple(), (2, 0, 2));
}

#[test]
fn snapshot_boundary_of_the_window() {
    let (history, tip) = chain_of_five([10, 20, 99, 100, 101]);
    assert_eq!(history.count(tip, 100).as_tuple(), (2, 0, 2));
    assert_eq!(history.count(tip, 101).as_tuple(), (1, 0, 1));
    assert_eq!(history.count(tip, 102).as_tuple(), (0, 0, 0));
    assert_eq!(history.count(tip, 99).as_tuple(), (3, 0, 3));
}

#[test]
fn snapshot_out_of_order_times_stop_early() {
    let (history, tip) = chain_of_five([500, 500, 10, 500, 500]);
    assert_eq!(history.count(tip, 100).as_tuple(), (2, 0, 2));
}

#[test]
fn snapshot_recount_is_identical() {
    let (history, tip) = chain_of_five([10, 20, 30, 400, 500]);
    assert_eq!(history.count(tip, 25), history.count(tip, 25));
    assert_eq!(history.count(tip, 25).as_tuple(), (3, 0, 3));
}
