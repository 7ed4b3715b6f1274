//! Nodes that depend on time. The clock and the blocking sleep are the
//! host's: every function here takes them as functions and decides only when
//! they are called and what becomes of what they return.

use vstd::prelude::*;
use crate::combinators::{accept_all, forward, lift, lift_start, replace};
use crate::engine::{engine_next, Event, Node, NodeView};
use crate::fanout::Notify;

verus! {

/// The transform of a node that pairs each update with a reading of the
/// clock `now`.
pub open spec fn stamped<T, Tm, N: Fn() -> Tm>(now: N) -> spec_fn(T, (Tm, T), (Tm, T)) -> bool {
    |v: T, held: (Tm, T), next: (Tm, T)| call_ensures(now, (), next.0) && next.1 == v
}

/// The transform of a node that puts a reading of the clock `now` in the
/// place of each update.
pub open spec fn clocked<T, Tm, N: Fn() -> Tm>(now: N) -> spec_fn(T, Tm, Tm) -> bool {
    |v: T, held: Tm, next: Tm| call_ensures(now, (), next)
}

/// Suspends the caller for `ms` milliseconds, by one call of the host's
/// blocking sleep with `ms`.
pub fn sleep<S: Fn(usize)>(ms: usize, host_sleep: &S)
    requires
        call_requires(*host_sleep, (ms,)),
    ensures
        call_ensures(*host_sleep, (ms,), ()),
{
    host_sleep(ms)
}

/// Creates the worker of a periodic timer: the node starts with a reading of
/// the clock.
pub fn every_start<Tm, C, N: Fn() -> Tm>(now: &N) -> (node: Node<Tm, C>)
    requires
        call_requires(*now, ()),
    ensures
        call_ensures(*now, (), node@.value),
        node@ == NodeView::<Tm, C>::fresh(node@.value),
{
    Node::new(now())
}

/// Generates the next value of a periodic timer: sleeps for `ms`
/// milliseconds, then reads the clock. A timer is never exhausted.
pub fn every_tick<Tm, S: Fn(usize), N: Fn() -> Tm>(ms: usize, host_sleep: &S, now: &N) -> (tick:
    Option<Tm>)
    requires
        call_requires(*host_sleep, (ms,)),
        call_requires(*now, ()),
    ensures
        tick matches Some(time) && call_ensures(*now, (), time),
{
    sleep(ms, host_sleep);
    Some(now())
}

/// Services one event of a periodic timer: each tick replaces the held time
/// and is broadcast.
pub fn every<Tm, C>(node: Node<Tm, C>, event: Event<Tm, C>) -> (res: (Node<Tm, C>, Notify))
    ensures
        engine_next(accept_all(), replace(), node@, event, res.0@, res.1),
{
    forward(node, event)
}

/// Creates the worker of a node that hands its upstream on `ms` milliseconds
/// late, from the first value that upstream produced.
pub fn delay_start<T, C, S: Fn(usize)>(first: T, ms: usize, host_sleep: &S) -> (node: Node<T, C>)
    requires
        call_requires(*host_sleep, (ms,)),
    ensures
        node@ == NodeView::<T, C>::fresh(first),
{
    let late = |v: T| -> (next: T)
        requires
            call_requires(host_sleep, (ms,)),
        ensures
            next == v,
        {
            sleep(ms, host_sleep);
            v
        };
    lift_start(first, &late)
}

/// Services one event of a node that hands its upstream on `ms` milliseconds
/// late: the worker sleeps, then the update replaces the held value and is
/// broadcast.
pub fn delay<T, C, S: Fn(usize)>(
    node: Node<T, C>,
    event: Event<T, C>,
    ms: usize,
    host_sleep: &S,
) -> (res: (Node<T, C>, Notify))
    requires
        event matches Event::Update(Some(_)) ==> node@.update_open ==> call_requires(
            *host_sleep,
            (ms,),
        ),
    ensures
        engine_next(accept_all(), replace(), node@, event, res.0@, res.1),
{
    let late = |v: T| -> (next: T)
        requires
            call_requires(host_sleep, (ms,)),
        ensures
            next == v,
        {
            sleep(ms, host_sleep);
            v
        };
    lift(node, event, &late)
}

/// Creates the worker of a node that pairs each value of its upstream with
/// the time at which it came, from the first value that upstream produced.
pub fn timestamp_start<T, Tm, C, N: Fn() -> Tm>(first: T, now: &N) -> (node: Node<(Tm, T), C>)
    requires
        call_requires(*now, ()),
    ensures
        call_ensures(*now, (), node@.value.0),
        node@.value.1 == first,
        node@ == NodeView::<(Tm, T), C>::fresh(node@.value),
{
    let stamp = |v: T| -> (next: (Tm, T))
        requires
            call_requires(now, ()),
        ensures
            call_ensures(now, (), next.0),
            next.1 == v,
        { (now(), v) };
    lift_start(first, &stamp)
}

/// Services one event of a node that pairs each value of its upstream with
/// the time at which it came.
pub fn timestamp<T, Tm, C, N: Fn() -> Tm>(
    node: Node<(Tm, T), C>,
    event: Event<T, C>,
    now: &N,
) -> (res: (Node<(Tm, T), C>, Notify))
    requires
        event matches Event::Update(Some(_)) ==> node@.update_open ==> call_requires(*now, ()),
    ensures
        engine_next(accept_all(), stamped(*now), node@, event, res.0@, res.1),
{
    let stamp = |v: T| -> (next: (Tm, T))
        requires
            call_requires(now, ()),
        ensures
            call_ensures(now, (), next.0),
            next.1 == v,
        { (now(), v) };
    lift(node, event, &stamp)
}

/// Creates the worker of a node that tells the time at which each value of
/// its upstream came, from the first value that upstream produced.
#[allow(non_snake_case)]
pub fn timeOf_start<T, Tm, C, N: Fn() -> Tm>(first: T, now: &N) -> (node: Node<Tm, C>)
    requires
        call_requires(*now, ()),
    ensures
        call_ensures(*now, (), node@.value),
        node@ == NodeView::<Tm, C>::fresh(node@.value),
{
    let read = |v: T| -> (next: Tm)
        requires
            call_requires(now, ()),
        ensures
            call_ensures(now, (), next),
        { now() };
    lift_start(first, &read)
}

/// Services one event of a node that tells the time at which each value of
/// its upstream came.
#[allow(non_snake_case)]
pub fn timeOf<T, Tm, C, N: Fn() -> Tm>(node: Node<Tm, C>, event: Event<T, C>, now: &N) -> (res: (
    Node<Tm, C>,
    Notify,
))
    requires
        event matches Event::Update(Some(_)) ==> node@.update_open ==> call_requires(*now, ()),
    ensures
        engine_next(accept_all(), clocked(*now), node@, event, res.0@, res.1),
{
    let read = |v: T| -> (next: Tm)
        requires
            call_requires(now, ()),
        ensures
            call_ensures(now, (), next),
        { now() };
    lift(node, event, &read)
}

} // verus!
