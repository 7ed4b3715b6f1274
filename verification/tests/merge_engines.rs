use signal::{
    merge, merge2, merge3, Merge, Merge2, Merge2Event, Merge3, Merge3Event, MergeEvent, Notify,
    Wait2, Wait3,
};

/// Sends what `notify` asks for, as a host would, and records it: `inbox[c]`
/// is what subscriber `c` has received.
fn carry_out_pair(
    state: &Merge2<i32, &'static str, usize>,
    notify: Notify,
    inbox: &mut Vec<Vec<(i32, &'static str)>>,
) {
    let targets: Vec<usize> = match notify {
        Notify::Nobody => Vec::new(),
        Notify::Newest => vec![*state.subscribers().last().unwrap()],
        Notify::Everyone => state.subscribers().clone(),
    };
    for subscriber in targets {
        let (a, b) = state.joint().unwrap();
        inbox[subscriber].push((*a, *b));
    }
}

#[test]
fn merge2_reads_its_parents_in_turn_at_startup() {
    let state: Merge2<i32, &str, usize> = Merge2::new();
    assert_eq!(state.wait(), Wait2 { first: true, second: false, registration: false });
    assert!(state.joint().is_none());
    let (state, notify) = merge2(state, Merge2Event::First(Some(1)));
    assert_eq!(notify, Notify::Nobody);
    assert_eq!(state.wait(), Wait2 { first: false, second: true, registration: false });
    assert!(state.joint().is_none());
    let (state, notify) = merge2(state, Merge2Event::Second(Some("a")));
    assert_eq!(notify, Notify::Nobody);
    assert_eq!(state.wait(), Wait2 { first: true, second: true, registration: true });
    assert_eq!(state.joint(), Some((&1, &"a")));
    assert!(state.subscribers().is_empty());
}

#[test]
fn merge2_answers_nobody_before_both_parents_produced() {
    let state: Merge2<i32, &str, usize> = Merge2::new();
    let (state, notify) = merge2(state, Merge2Event::Registration(Some(0)));
    assert_eq!(notify, Notify::Nobody);
    assert!(state.subscribers().is_empty());
    let (state, notify) = merge2(state, Merge2Event::Second(Some("early")));
    assert_eq!(notify, Notify::Nobody);
    assert_eq!(state.wait(), Wait2 { first: true, second: false, registration: false });
    let (state, _) = merge2(state, Merge2Event::First(Some(1)));
    let (state, notify) = merge2(state, Merge2Event::Registration(Some(0)));
    assert_eq!(notify, Notify::Nobody);
    assert!(state.subscribers().is_empty());
    let (state, notify) = merge2(state, Merge2Event::First(Some(2)));
    assert_eq!(notify, Notify::Nobody);
    assert!(state.joint().is_none());
    let (state, _) = merge2(state, Merge2Event::Second(Some("a")));
    assert_eq!(state.joint(), Some((&1, &"a")));
    let (state, notify) = merge2(state, Merge2Event::Registration(Some(0)));
    assert_eq!(notify, Notify::Newest);
    assert_eq!(state.subscribers(), &vec![0]);
}

#[test]
fn merge2_broadcasts_last_value_of_each_parent() {
    let mut inbox: Vec<Vec<(i32, &'static str)>> = vec![Vec::new(), Vec::new()];
    let mut state: Merge2<i32, &'static str, usize> = Merge2::new();
    let events = vec![
        Merge2Event::First(Some(1)),
        Merge2Event::Second(Some("a")),
        Merge2Event::Registration(Some(0)),
        Merge2Event::Second(Some("b")),
        Merge2Event::Second(Some("c")),
        Merge2Event::First(Some(2)),
        Merge2Event::Registration(Some(1)),
        Merge2Event::First(Some(3)),
        Merge2Event::Second(Some("d")),
    ];
    for event in events {
        let (next, notify) = merge2(state, event);
        carry_out_pair(&next, notify, &mut inbox);
        state = next;
    }
    assert_eq!(inbox[0], vec![(1, "a"), (1, "b"), (1, "c"), (2, "c"), (3, "c"), (3, "d")]);
    assert_eq!(inbox[1], vec![(2, "c"), (3, "c"), (3, "d")]);
}

#[test]
fn merge2_goes_on_while_any_source_is_open() {
    let state: Merge2<i32, &str, usize> = Merge2::new();
    let (state, _) = merge2(state, Merge2Event::First(Some(1)));
    let (state, _) = merge2(state, Merge2Event::Second(Some("a")));
    let (state, _) = merge2(state, Merge2Event::Registration(Some(0)));
    let (state, notify) = merge2(state, Merge2Event::First(None));
    assert_eq!(notify, Notify::Nobody);
    assert_eq!(state.wait(), Wait2 { first: false, second: true, registration: true });
    let (state, notify) = merge2(state, Merge2Event::First(Some(9)));
    assert_eq!(notify, Notify::Nobody);
    assert_eq!(state.joint(), Some((&1, &"a")));
    let (state, notify) = merge2(state, Merge2Event::Second(Some("b")));
    assert_eq!(notify, Notify::Everyone);
    assert_eq!(state.joint(), Some((&1, &"b")));
    let (state, _) = merge2(state, Merge2Event::Registration(None));
    assert_eq!(state.wait(), Wait2 { first: false, second: true, registration: false });
    let (state, notify) = merge2(state, Merge2Event::Registration(Some(1)));
    assert_eq!(notify, Notify::Nobody);
    assert_eq!(state.subscribers(), &vec![0]);
    let (state, _) = merge2(state, Merge2Event::Second(None));
    assert_eq!(state.wait(), Wait2 { first: false, second: false, registration: false });
    assert_eq!(state.joint(), Some((&1, &"b")));
}

#[test]
fn merge2_gives_up_when_a_parent_closes_during_startup() {
    let state: Merge2<i32, &str, usize> = Merge2::new();
    let (state, notify) = merge2(state, Merge2Event::First(None));
    assert_eq!(notify, Notify::Nobody);
    assert_eq!(state.wait(), Wait2 { first: false, second: false, registration: false });
    assert!(state.joint().is_none());

    let state: Merge2<i32, &str, usize> = Merge2::new();
    let (state, _) = merge2(state, Merge2Event::First(Some(1)));
    let (state, _) = merge2(state, Merge2Event::Second(None));
    assert_eq!(state.wait(), Wait2 { first: false, second: false, registration: false });
    let (state, notify) = merge2(state, Merge2Event::Second(Some("late")));
    assert_eq!(notify, Notify::Nobody);
    assert!(state.joint().is_none());
}

#[test]
fn merge2_drops_subscriber_that_could_not_be_reached() {
    let state: Merge2<i32, &str, usize> = Merge2::new();
    let (state, _) = merge2(state, Merge2Event::First(Some(1)));
    let (state, _) = merge2(state, Merge2Event::Second(Some("a")));
    let (state, _) = merge2(state, Merge2Event::Registration(Some(5)));
    let (state, _) = merge2(state, Merge2Event::Registration(Some(6)));
    let (state, notify) = merge2(state, Merge2Event::First(Some(2)));
    let state = state.settle(notify, &vec![false, true]);
    assert_eq!(state.subscribers(), &vec![6]);
    assert_eq!(state.joint(), Some((&2, &"a")));
}

#[test]
fn merge3_reads_its_parents_in_turn_at_startup() {
    let state: Merge3<i32, &str, bool, usize> = Merge3::new();
    assert_eq!(
        state.wait(),
        Wait3 { first: true, second: false, third: false, registration: false }
    );
    let (state, _) = merge3(state, Merge3Event::Registration(Some(0)));
    assert!(state.subscribers().is_empty());
    let (state, _) = merge3(state, Merge3Event::First(Some(1)));
    assert_eq!(
        state.wait(),
        Wait3 { first: false, second: true, third: false, registration: false }
    );
    let (state, _) = merge3(state, Merge3Event::Second(Some("a")));
    assert_eq!(
        state.wait(),
        Wait3 { first: false, second: false, third: true, registration: false }
    );
    assert!(state.joint().is_none());
    let (state, notify) = merge3(state, Merge3Event::Third(Some(true)));
    assert_eq!(notify, Notify::Nobody);
    assert_eq!(
        state.wait(),
        Wait3 { first: true, second: true, third: true, registration: true }
    );
    assert_eq!(state.joint(), Some((&1, &"a", &true)));
}

#[test]
fn merge3_updates_one_slot_at_a_time() {
    let state: Merge3<i32, &str, bool, usize> = Merge3::new();
    let (state, _) = merge3(state, Merge3Event::First(Some(1)));
    let (state, _) = merge3(state, Merge3Event::Second(Some("a")));
    let (state, _) = merge3(state, Merge3Event::Third(Some(false)));
    let (state, notify) = merge3(state, Merge3Event::Registration(Some(0)));
    assert_eq!(notify, Notify::Newest);
    assert_eq!(state.joint(), Some((&1, &"a", &false)));
    let (state, notify) = merge3(state, Merge3Event::Third(Some(true)));
    assert_eq!(notify, Notify::Everyone);
    assert_eq!(state.joint(), Some((&1, &"a", &true)));
    let (state, notify) = merge3(state, Merge3Event::First(Some(2)));
    assert_eq!(notify, Notify::Everyone);
    assert_eq!(state.joint(), Some((&2, &"a", &true)));
    let (state, notify) = merge3(state, Merge3Event::Second(Some("b")));
    assert_eq!(notify, Notify::Everyone);
    assert_eq!(state.joint(), Some((&2, &"b", &true)));
    assert_eq!(state.subscribers(), &vec![0]);
}

#[test]
fn merge3_goes_on_while_any_source_is_open() {
    let state: Merge3<i32, &str, bool, usize> = Merge3::new();
    let (state, _) = merge3(state, Merge3Event::First(Some(1)));
    let (state, _) = merge3(state, Merge3Event::Second(Some("a")));
    let (state, _) = merge3(state, Merge3Event::Third(Some(false)));
    let (state, _) = merge3(state, Merge3Event::Second(None));
    let (state, _) = merge3(state, Merge3Event::Registration(None));
    assert_eq!(
        state.wait(),
        Wait3 { first: true, second: false, third: true, registration: false }
    );
    let (state, notify) = merge3(state, Merge3Event::Second(Some("b")));
    assert_eq!(notify, Notify::Nobody);
    let (state, notify) = merge3(state, Merge3Event::Third(Some(true)));
    assert_eq!(notify, Notify::Everyone);
    assert_eq!(state.joint(), Some((&1, &"a", &true)));
    let (state, _) = merge3(state, Merge3Event::First(None));
    let (state, _) = merge3(state, Merge3Event::Third(None));
    assert_eq!(
        state.wait(),
        Wait3 { first: false, second: false, third: false, registration: false }
    );
}

#[test]
fn merge3_gives_up_when_a_parent_closes_during_startup() {
    let state: Merge3<i32, &str, bool, usize> = Merge3::new();
    let (state, _) = merge3(state, Merge3Event::First(Some(1)));
    let (state, _) = merge3(state, Merge3Event::Second(Some("a")));
    let (state, notify) = merge3(state, Merge3Event::Third(None));
    assert_eq!(notify, Notify::Nobody);
    assert_eq!(
        state.wait(),
        Wait3 { first: false, second: false, third: false, registration: false }
    );
    assert!(state.joint().is_none());
}

#[test]
fn merge3_drops_subscriber_that_could_not_be_reached() {
    let state: Merge3<i32, &str, bool, usize> = Merge3::new();
    let (state, _) = merge3(state, Merge3Event::First(Some(1)));
    let (state, _) = merge3(state, Merge3Event::Second(Some("a")));
    let (state, _) = merge3(state, Merge3Event::Third(Some(false)));
    let (state, notify) = merge3(state, Merge3Event::Registration(Some(4)));
    let state = state.settle(notify, &vec![false]);
    assert!(state.subscribers().is_empty());
}

#[test]
fn merge_hands_on_whatever_arrives() {
    let state: Merge<i32, usize> = Merge::new();
    assert_eq!(state.wait(), Wait2 { first: true, second: true, registration: true });
    assert!(state.last().is_none());
    let (state, notify) = merge(state, MergeEvent::Registration(Some(0)));
    assert_eq!(notify, Notify::Nobody);
    assert_eq!(state.subscribers(), &vec![0]);
    let (state, notify) = merge(state, MergeEvent::Second(Some(5)));
    assert_eq!(notify, Notify::Everyone);
    assert_eq!(state.last(), Some(&5));
    let (state, notify) = merge(state, MergeEvent::First(Some(6)));
    assert_eq!(notify, Notify::Everyone);
    assert_eq!(state.last(), Some(&6));
    let (state, notify) = merge(state, MergeEvent::Registration(Some(1)));
    assert_eq!(notify, Notify::Newest);
    assert_eq!(state.last(), Some(&6));
    assert_eq!(state.subscribers(), &vec![0, 1]);
}

#[test]
fn merge_goes_on_with_one_parent() {
    let state: Merge<i32, usize> = Merge::new();
    let (state, notify) = merge(state, MergeEvent::First(None));
    assert_eq!(notify, Notify::Nobody);
    assert_eq!(state.wait(), Wait2 { first: false, second: true, registration: true });
    let (state, notify) = merge(state, MergeEvent::First(Some(1)));
    assert_eq!(notify, Notify::Nobody);
    assert!(state.last().is_none());
    let (state, notify) = merge(state, MergeEvent::Second(Some(2)));
    assert_eq!(notify, Notify::Everyone);
    assert_eq!(state.last(), Some(&2));
    let (state, _) = merge(state, MergeEvent::Second(None));
    let (state, _) = merge(state, MergeEvent::Registration(None));
    assert_eq!(state.wait(), Wait2 { first: false, second: false, registration: false });
    let (state, notify) = merge(state, MergeEvent::Registration(Some(3)));
    assert_eq!(notify, Notify::Nobody);
    assert!(state.subscribers().is_empty());
}

#[test]
fn merge_drops_subscriber_that_could_not_be_reached() {
    let state: Merge<i32, usize> = Merge::new();
    let (state, _) = merge(state, MergeEvent::Registration(Some(0)));
    let (state, _) = merge(state, MergeEvent::Registration(Some(1)));
    let (state, notify) = merge(state, MergeEvent::First(Some(1)));
    let state = state.settle(notify, &vec![true, false]);
    assert_eq!(state.subscribers(), &vec![0]);
}
