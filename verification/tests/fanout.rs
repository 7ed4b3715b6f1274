use signal::{retain_reached, settle, Either, Notify};

#[test]
fn retain_reached_keeps_order() {
    let kept = retain_reached(vec!['a', 'b', 'c', 'd', 'e'], &vec![false, true, true, false, true]);
    assert_eq!(kept, vec!['b', 'c', 'e']);
}

#[test]
fn retain_reached_counts_missing_outcomes_as_delivered() {
    let kept = retain_reached(vec![1, 2, 3, 4], &vec![false, true]);
    assert_eq!(kept, vec![2, 3, 4]);
    let kept = retain_reached(vec![1, 2], &vec![]);
    assert_eq!(kept, vec![1, 2]);
}

#[test]
fn retain_reached_ignores_outcomes_beyond_the_subscribers() {
    let kept = retain_reached(vec![1, 2], &vec![true, false, false, false]);
    assert_eq!(kept, vec![1]);
    let kept: Vec<i32> = retain_reached(Vec::new(), &vec![false]);
    assert!(kept.is_empty());
}

#[test]
fn retain_reached_may_drop_everyone() {
    let kept = retain_reached(vec![1, 2, 3], &vec![false, false, false]);
    assert!(kept.is_empty());
}

#[test]
fn settle_after_snapshot_looks_at_the_newest_only() {
    assert_eq!(settle(vec![1, 2, 3], Notify::Newest, &vec![false]), vec![1, 2]);
    assert_eq!(settle(vec![1, 2, 3], Notify::Newest, &vec![true]), vec![1, 2, 3]);
    assert_eq!(settle(vec![1, 2, 3], Notify::Newest, &vec![]), vec![1, 2, 3]);
    let nobody: Vec<i32> = settle(Vec::new(), Notify::Newest, &vec![false]);
    assert!(nobody.is_empty());
}

#[test]
fn settle_after_nothing_sent_keeps_everyone() {
    assert_eq!(settle(vec![1, 2, 3], Notify::Nobody, &vec![false, false, false]), vec![1, 2, 3]);
}

#[test]
fn settle_after_broadcast_drops_the_unreached() {
    assert_eq!(settle(vec![1, 2, 3], Notify::Everyone, &vec![true, true, false]), vec![1, 2]);
}

#[test]
fn either_tells_its_side() {
    let left: Either<i32, &str> = Either::Left(1);
    let right: Either<i32, &str> = Either::Right("x");
    assert!(left.is_left());
    assert!(!left.is_right());
    assert!(right.is_right());
    assert!(!right.is_left());
    assert_eq!(left.clone().left(), Some(1));
    assert_eq!(left.right(), None);
    assert_eq!(right.clone().right(), Some("x"));
    assert_eq!(right.left(), None);
}
