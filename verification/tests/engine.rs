use signal::{filter, foldp, signal_loop, Event, Node, Notify, Wait};

/// Sends what `notify` asks for, as a host would, and records it: `inbox[c]`
/// is what subscriber `c` has received.
fn carry_out_node<U: Clone>(node: &Node<U, usize>, notify: Notify, inbox: &mut Vec<Vec<U>>) {
    match notify {
        Notify::Nobody => {}
        Notify::Newest => {
            let newest = *node.subscribers().last().unwrap();
            inbox[newest].push(node.value().clone());
        }
        Notify::Everyone => {
            for &subscriber in node.subscribers() {
                inbox[subscriber].push(node.value().clone());
            }
        }
    }
}

#[test]
fn new_node_is_fresh() {
    let node: Node<i32, usize> = Node::new(7);
    assert_eq!(*node.value(), 7);
    assert!(node.subscribers().is_empty());
    assert_eq!(node.wait(), Wait::Both);
}

#[test]
fn registration_gets_snapshot_of_current_value() {
    let add = |v: i32, held: i32| held + v;
    let all = |_: &i32| true;
    let node: Node<i32, usize> = Node::new(5);
    let mut inbox: Vec<Vec<i32>> = vec![Vec::new(), Vec::new()];

    let (node, notify) = signal_loop(node, Event::Update(Some(3)), &add, &all);
    assert_eq!(notify, Notify::Everyone);
    carry_out_node(&node, notify, &mut inbox);

    let (node, notify) = signal_loop(node, Event::Registration(Some(0)), &add, &all);
    assert_eq!(notify, Notify::Newest);
    assert_eq!(*node.value(), 8);
    carry_out_node(&node, notify, &mut inbox);

    let (node, notify) = signal_loop(node, Event::Update(Some(10)), &add, &all);
    carry_out_node(&node, notify, &mut inbox);
    let (node, notify) = signal_loop(node, Event::Registration(Some(1)), &add, &all);
    carry_out_node(&node, notify, &mut inbox);
    let (node, notify) = signal_loop(node, Event::Update(Some(1)), &add, &all);
    carry_out_node(&node, notify, &mut inbox);

    assert_eq!(inbox[0], vec![8, 18, 19]);
    assert_eq!(inbox[1], vec![18, 19]);
    assert_eq!(node.subscribers(), &vec![0, 1]);
}

#[test]
fn snapshot_goes_to_the_newest_subscriber_only() {
    let node: Node<u8, usize> = Node::new(1);
    let (node, _) = node.register(Some(0));
    let (node, notify) = node.register(Some(1));
    assert_eq!(notify, Notify::Newest);
    let mut inbox: Vec<Vec<u8>> = vec![Vec::new(), Vec::new()];
    carry_out_node(&node, notify, &mut inbox);
    assert!(inbox[0].is_empty());
    assert_eq!(inbox[1], vec![1]);
}

#[test]
fn fold_yields_accumulations_in_order() {
    let f = |v: i32, held: i32| held * 10 + v;
    let node: Node<i32, usize> = Node::new(0);
    let mut inbox: Vec<Vec<i32>> = vec![Vec::new()];
    let (mut node, notify) = foldp(node, Event::Registration(Some(0)), &f);
    carry_out_node(&node, notify, &mut inbox);
    for v in [1, 2, 3, 4] {
        let (next, notify) = foldp(node, Event::Update(Some(v)), &f);
        assert_eq!(notify, Notify::Everyone);
        carry_out_node(&next, notify, &mut inbox);
        node = next;
    }
    assert_eq!(inbox[0], vec![0, 1, 12, 123, 1234]);
}

#[test]
fn fold_hands_update_first_and_held_value_second() {
    let f = |v: i32, held: i32| held - 2 * v;
    let node: Node<i32, usize> = Node::new(100);
    let (node, _) = foldp(node, Event::Update(Some(7)), &f);
    assert_eq!(*node.value(), 86);
}

#[test]
fn rejected_update_changes_nothing() {
    let even = |v: &i32| *v % 2 == 0;
    let node: Node<i32, usize> = Node::new(4);
    let (node, _) = filter(node, Event::Registration(Some(0)), &even);
    let (node, notify) = filter(node, Event::Update(Some(7)), &even);
    assert_eq!(notify, Notify::Nobody);
    assert_eq!(*node.value(), 4);
    assert_eq!(node.subscribers(), &vec![0]);
    assert_eq!(node.wait(), Wait::Both);
    let (node, notify) = filter(node, Event::Update(Some(8)), &even);
    assert_eq!(notify, Notify::Everyone);
    assert_eq!(*node.value(), 8);
}

#[test]
fn filter_passes_values_unchanged() {
    let positive = |v: &i32| *v > 0;
    let node: Node<i32, usize> = Node::new(0);
    let mut inbox: Vec<Vec<i32>> = vec![Vec::new()];
    let (mut node, notify) = filter(node, Event::Registration(Some(0)), &positive);
    carry_out_node(&node, notify, &mut inbox);
    for v in [3, -1, 0, 9, -9, 2] {
        let (next, notify) = filter(node, Event::Update(Some(v)), &positive);
        carry_out_node(&next, notify, &mut inbox);
        node = next;
    }
    assert_eq!(inbox[0], vec![0, 3, 9, 2]);
}

#[test]
fn transform_is_not_called_on_a_rejected_update() {
    let never = |_: &i32| false;
    let process = |_: i32, _: i32| -> i32 { panic!("the transform ran on a rejected update") };
    let node: Node<i32, usize> = Node::new(1);
    let (node, notify) = signal_loop(node, Event::Update(Some(2)), &process, &never);
    assert_eq!(notify, Notify::Nobody);
    assert_eq!(*node.value(), 1);
}

#[test]
fn closed_update_source_leaves_registration() {
    let add = |v: i32, held: i32| held + v;
    let all = |_: &i32| true;
    let node: Node<i32, usize> = Node::new(1);
    let (node, notify) = signal_loop(node, Event::Update(None), &add, &all);
    assert_eq!(notify, Notify::Nobody);
    assert_eq!(node.wait(), Wait::Registration);
    let (node, notify) = signal_loop(node, Event::Registration(Some(0)), &add, &all);
    assert_eq!(notify, Notify::Newest);
    assert_eq!(*node.value(), 1);
    let (node, notify) = signal_loop(node, Event::Registration(None), &add, &all);
    assert_eq!(notify, Notify::Nobody);
    assert_eq!(node.wait(), Wait::Done);
}

#[test]
fn closed_registration_source_leaves_updates() {
    let add = |v: i32, held: i32| held + v;
    let all = |_: &i32| true;
    let node: Node<i32, usize> = Node::new(1);
    let (node, _) = signal_loop(node, Event::Registration(Some(0)), &add, &all);
    let (node, notify) = signal_loop(node, Event::Registration(None), &add, &all);
    assert_eq!(notify, Notify::Nobody);
    assert_eq!(node.wait(), Wait::Update);
    let (node, notify) = signal_loop(node, Event::Update(Some(2)), &add, &all);
    assert_eq!(notify, Notify::Everyone);
    assert_eq!(*node.value(), 3);
    assert_eq!(node.subscribers(), &vec![0]);
    let (node, _) = signal_loop(node, Event::Update(None), &add, &all);
    assert_eq!(node.wait(), Wait::Done);
}

#[test]
fn event_of_a_closed_source_is_not_serviced() {
    let add = |v: i32, held: i32| held + v;
    let all = |_: &i32| true;
    let node: Node<i32, usize> = Node::new(1);
    let (node, _) = signal_loop(node, Event::Update(None), &add, &all);
    let (node, notify) = signal_loop(node, Event::Update(Some(5)), &add, &all);
    assert_eq!(notify, Notify::Nobody);
    assert_eq!(*node.value(), 1);
    let (node, _) = signal_loop(node, Event::Registration(None), &add, &all);
    let (node, notify) = signal_loop(node, Event::Registration(Some(3)), &add, &all);
    assert_eq!(notify, Notify::Nobody);
    assert!(node.subscribers().is_empty());
    assert_eq!(node.wait(), Wait::Done);
}

#[test]
fn node_drops_subscriber_that_could_not_be_reached() {
    let node: Node<u8, usize> = Node::new(1);
    let (node, _) = node.register(Some(10));
    let (node, _) = node.register(Some(11));
    let (node, _) = node.register(Some(12));
    let node = node.settle(Notify::Everyone, &vec![true, false, true]);
    assert_eq!(node.subscribers(), &vec![10, 12]);
    assert_eq!(*node.value(), 1);
    let (node, notify) = node.register(Some(13));
    let node = node.settle(notify, &vec![false]);
    assert_eq!(node.subscribers(), &vec![10, 12]);
    let node = node.settle(Notify::Nobody, &vec![false, false]);
    assert_eq!(node.subscribers(), &vec![10, 12]);
}
