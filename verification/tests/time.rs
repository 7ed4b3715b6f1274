use std::cell::{Cell, RefCell};

use signal::{
    delay, delay_start, every, every_start, every_tick, sleep, timeOf, timeOf_start, timestamp,
    timestamp_start, Event, Node, Notify,
};

#[test]
fn sleep_asks_the_host_once_for_the_given_time() {
    let asked: RefCell<Vec<usize>> = RefCell::new(Vec::new());
    let host_sleep = |ms: usize| asked.borrow_mut().push(ms);
    sleep(250, &host_sleep);
    assert_eq!(*asked.borrow(), vec![250]);
    sleep(0, &host_sleep);
    assert_eq!(*asked.borrow(), vec![250, 0]);
}

#[test]
fn timer_starts_with_the_time_and_ticks_after_a_sleep() {
    let clock = Cell::new(1000u64);
    let log: RefCell<Vec<String>> = RefCell::new(Vec::new());
    let now = || {
        log.borrow_mut().push(format!("now {}", clock.get()));
        clock.get()
    };
    let host_sleep = |ms: usize| {
        log.borrow_mut().push(format!("sleep {ms}"));
        clock.set(clock.get() + ms as u64);
    };
    let node: Node<u64, usize> = every_start(&now);
    assert_eq!(*node.value(), 1000);
    let tick = every_tick(50, &host_sleep, &now);
    assert_eq!(tick, Some(1050));
    let (node, notify) = every(node, Event::Update(tick));
    assert_eq!(notify, Notify::Everyone);
    assert_eq!(*node.value(), 1050);
    assert_eq!(*log.borrow(), vec!["now 1000", "sleep 50", "now 1050"]);
}

#[test]
fn delay_sleeps_before_it_hands_a_value_on() {
    let slept: RefCell<Vec<usize>> = RefCell::new(Vec::new());
    let host_sleep = |ms: usize| slept.borrow_mut().push(ms);
    let node: Node<&str, usize> = delay_start("first", 30, &host_sleep);
    assert_eq!(*node.value(), "first");
    assert_eq!(*slept.borrow(), vec![30]);
    let (node, notify) = delay(node, Event::Update(Some("second")), 30, &host_sleep);
    assert_eq!(notify, Notify::Everyone);
    assert_eq!(*node.value(), "second");
    assert_eq!(*slept.borrow(), vec![30, 30]);
    let (node, notify) = delay(node, Event::Registration(Some(0)), 30, &host_sleep);
    assert_eq!(notify, Notify::Newest);
    assert_eq!(*node.value(), "second");
    assert_eq!(*slept.borrow(), vec![30, 30]);
}

#[test]
fn timestamp_pairs_values_with_the_time() {
    let clock = Cell::new(5u64);
    let now = || clock.get();
    let node: Node<(u64, char), usize> = timestamp_start('a', &now);
    assert_eq!(*node.value(), (5, 'a'));
    clock.set(9);
    let (node, notify) = timestamp(node, Event::Update(Some('b')), &now);
    assert_eq!(notify, Notify::Everyone);
    assert_eq!(*node.value(), (9, 'b'));
}

#[test]
fn time_of_replaces_values_by_the_time() {
    let clock = Cell::new(5u64);
    let now = || clock.get();
    let node: Node<u64, usize> = timeOf_start('a', &now);
    assert_eq!(*node.value(), 5);
    clock.set(9);
    let (node, notify) = timeOf(node, Event::Update(Some('b')), &now);
    assert_eq!(notify, Notify::Everyone);
    assert_eq!(*node.value(), 9);
}
