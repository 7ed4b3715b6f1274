//! The combinators that run on the single-input engine: each one is the
//! engine with a transform and a filter of its own.

use vstd::prelude::*;
use crate::either::Either;
use crate::engine::{
    engine_next, filter_relation, process_relation, signal_loop, update_next, Event, Node, NodeView,
};
use crate::fanout::Notify;

verus! {

/// The filter that lets every update pass.
pub open spec fn accept_all<T>() -> spec_fn(T, bool) -> bool {
    |v: T, verdict: bool| verdict
}

/// The transform that puts the update in the place of the held value.
pub open spec fn replace<T>() -> spec_fn(T, T, T) -> bool {
    |v: T, held: T, next: T| next == v
}

/// The transform of a node that maps each update through `f` and forgets
/// what it held.
pub open spec fn map_relation<T, U, G: Fn(T) -> U>(f: G) -> spec_fn(T, U, U) -> bool {
    |v: T, held: U, next: U| call_ensures(f, (v,), next)
}

/// The count that follows `held`. A counter that has reached the largest
/// `usize` starts again at zero.
pub open spec fn successor(held: usize) -> usize {
    if held == usize::MAX {
        0
    } else {
        (held + 1) as usize
    }
}

/// The transform of a counter: whatever the update, the count goes up by one.
pub open spec fn counting<T>() -> spec_fn(T, usize, usize) -> bool {
    |v: T, held: usize, next: usize| next == successor(held)
}

/// The filter of a gated node: a pair passes when its gate is `true`.
pub open spec fn gate_open<T>() -> spec_fn((T, bool), bool) -> bool {
    |v: (T, bool), verdict: bool| verdict == v.1
}

/// The transform of a gated node: the value of the pair replaces the held
/// value.
pub open spec fn gated_value<T>() -> spec_fn((T, bool), T, T) -> bool {
    |v: (T, bool), held: T, next: T| next == v.0
}

/// The filter of the left output of a split: left values pass.
pub open spec fn left_only<T, U>() -> spec_fn(Either<T, U>, bool) -> bool {
    |v: Either<T, U>, verdict: bool| verdict == (v is Left)
}

/// The transform of the left output of a split: the left value replaces the
/// held value.
pub open spec fn left_value<T, U>() -> spec_fn(Either<T, U>, T, T) -> bool {
    |v: Either<T, U>, held: T, next: T| v == Either::<T, U>::Left(next)
}

/// The filter of the right output of a split: right values pass.
pub open spec fn right_only<T, U>() -> spec_fn(Either<T, U>, bool) -> bool {
    |v: Either<T, U>, verdict: bool| verdict == (v is Right)
}

/// The transform of the right output of a split: the right value replaces
/// the held value.
pub open spec fn right_value<T, U>() -> spec_fn(Either<T, U>, U, U) -> bool {
    |v: Either<T, U>, held: U, next: U| v == Either::<T, U>::Right(next)
}

/// The transform of a node that maps each pair of its upstream through `f`.
pub open spec fn map2_relation<T1, T2, V, F: Fn(T1, T2) -> V>(f: F) -> spec_fn(
    (T1, T2),
    V,
    V,
) -> bool {
    |v: (T1, T2), held: V, next: V| call_ensures(f, (v.0, v.1), next)
}

/// The transform of a node that maps each triple of its upstream through `f`.
pub open spec fn map3_relation<T1, T2, T3, V, F: Fn(T1, T2, T3) -> V>(f: F) -> spec_fn(
    (T1, T2, T3),
    V,
    V,
) -> bool {
    |v: (T1, T2, T3), held: V, next: V| call_ensures(f, (v.0, v.1, v.2), next)
}

/// The transform of a node that maps each pair of pairs of its upstream
/// through `f`.
pub open spec fn map4_relation<T1, T2, T3, T4, V, F: Fn(T1, T2, T3, T4) -> V>(f: F) -> spec_fn(
    ((T1, T2), (T3, T4)),
    V,
    V,
) -> bool {
    |v: ((T1, T2), (T3, T4)), held: V, next: V|
        call_ensures(f, (v.0.0, v.0.1, v.1.0, v.1.1), next)
}

/// The transform of a node that maps each pair of a pair and a triple of its
/// upstream through `f`.
pub open spec fn map5_relation<T1, T2, T3, T4, T5, V, F: Fn(T1, T2, T3, T4, T5) -> V>(
    f: F,
) -> spec_fn(((T1, T2), (T3, T4, T5)), V, V) -> bool {
    |v: ((T1, T2), (T3, T4, T5)), held: V, next: V|
        call_ensures(f, (v.0.0, v.0.1, v.1.0, v.1.1, v.1.2), next)
}

/// The transform of a node that maps each pair of triples of its upstream
/// through `f`.
pub open spec fn map6_relation<T1, T2, T3, T4, T5, T6, V, F: Fn(T1, T2, T3, T4, T5, T6) -> V>(
    f: F,
) -> spec_fn(((T1, T2, T3), (T4, T5, T6)), V, V) -> bool {
    |v: ((T1, T2, T3), (T4, T5, T6)), held: V, next: V|
        call_ensures(f, (v.0.0, v.0.1, v.0.2, v.1.0, v.1.1, v.1.2), next)
}

/// Creates the worker of a node that maps its upstream through `f`, from the
/// first value that upstream produced: the node starts with the image of
/// that value and never shows another initial value.
pub fn lift_start<T, U, C, G: Fn(T) -> U>(first: T, f: &G) -> (node: Node<U, C>)
    requires
        call_requires(*f, (first,)),
    ensures
        call_ensures(*f, (first,), node@.value),
        node@ == NodeView::<U, C>::fresh(node@.value),
{
    Node::new(f(first))
}

/// Services one event of a node that maps its upstream through `f`: every
/// update passes, and its image replaces the held value.
pub fn lift<T, U, C, G: Fn(T) -> U>(node: Node<U, C>, event: Event<T, C>, f: &G) -> (res: (
    Node<U, C>,
    Notify,
))
    requires
        event matches Event::Update(Some(v)) ==> node@.update_open ==> call_requires(*f, (v,)),
    ensures
        engine_next(accept_all(), map_relation(*f), node@, event, res.0@, res.1),
{
    let process = |v: T, held: U| -> (next: U)
        requires
            call_requires(f, (v,)),
        ensures
            call_ensures(f, (v,), next),
        { f(v) };
    let filter = |v: &T| -> (verdict: bool)
        ensures
            verdict,
        { true };
    signal_loop(node, event, &process, &filter)
}

/// Services one event of a node with a filter and a transform of the
/// caller's: an update that `filter` accepts goes with the held value through
/// `process`, and the result is broadcast.
pub fn filter_lift<T, U, C, F: Fn(&T) -> bool, P: Fn(T, U) -> U>(
    node: Node<U, C>,
    event: Event<T, C>,
    filter: &F,
    process: &P,
) -> (res: (Node<U, C>, Notify))
    requires
        event matches Event::Update(Some(v)) ==> node@.update_open ==> {
            &&& call_requires(*filter, (&v,))
            &&& call_ensures(*filter, (&v,), true) ==> call_requires(*process, (v, node@.value))
        },
    ensures
        engine_next(
            filter_relation(*filter),
            process_relation(*process),
            node@,
            event,
            res.0@,
            res.1,
        ),
{
    signal_loop(node, event, process, filter)
}

/// Services one event of a node that folds its upstream: every update passes
/// and goes with the held value through `f`.
pub fn foldp<T, U, C, P: Fn(T, U) -> U>(node: Node<U, C>, event: Event<T, C>, f: &P) -> (res: (
    Node<U, C>,
    Notify,
))
    requires
        event matches Event::Update(Some(v)) ==> node@.update_open ==> call_requires(
            *f,
            (v, node@.value),
        ),
    ensures
        engine_next(accept_all(), process_relation(*f), node@, event, res.0@, res.1),
{
    let filter = |v: &T| -> (verdict: bool)
        ensures
            verdict,
        { true };
    signal_loop(node, event, f, &filter)
}

/// Services one event of a node that keeps the updates for which `pred`
/// holds: such an update replaces the held value and is broadcast, any other
/// changes nothing and is not broadcast.
pub fn filter<T, C, F: Fn(&T) -> bool>(node: Node<T, C>, event: Event<T, C>, pred: &F) -> (res: (
    Node<T, C>,
    Notify,
))
    requires
        event matches Event::Update(Some(v)) ==> node@.update_open ==> call_requires(
            *pred,
            (&v,),
        ),
    ensures
        engine_next(filter_relation(*pred), replace(), node@, event, res.0@, res.1),
{
    let process = |v: T, held: T| -> (next: T)
        ensures
            next == v,
        { v };
    signal_loop(node, event, &process, pred)
}

/// Services one event of a node that hands on what it is given: every
/// update replaces the held value and is broadcast.
pub fn forward<T, C>(node: Node<T, C>, event: Event<T, C>) -> (res: (Node<T, C>, Notify))
    ensures
        engine_next(accept_all(), replace(), node@, event, res.0@, res.1),
{
    let process = |v: T, held: T| -> (next: T)
        ensures
            next == v,
        { v };
    let filter = |v: &T| -> (verdict: bool)
        ensures
            verdict,
        { true };
    signal_loop(node, event, &process, &filter)
}

/// Services one event of a counter: every update raises the count by one.
pub fn count<T, C>(node: Node<usize, C>, event: Event<T, C>) -> (res: (Node<usize, C>, Notify))
    ensures
        engine_next(accept_all(), counting(), node@, event, res.0@, res.1),
{
    let process = |v: T, held: usize| -> (next: usize)
        ensures
            next == successor(held),
        {
            if held == usize::MAX {
                0
            } else {
                held + 1
            }
        };
    let filter = |v: &T| -> (verdict: bool)
        ensures
            verdict,
        { true };
    signal_loop(node, event, &process, &filter)
}

/// Services one event of a gated node. Its upstream is the merge of a value
/// and a gate: a pair whose gate is `true` puts its value in the place of the
/// held value, which is broadcast; a pair whose gate is `false` changes
/// nothing.
#[allow(non_snake_case)]
pub fn keepWhen<T, C>(node: Node<T, C>, event: Event<(T, bool), C>) -> (res: (Node<T, C>, Notify))
    ensures
        engine_next(gate_open(), gated_value(), node@, event, res.0@, res.1),
{
    let process = |v: (T, bool), held: T| -> (next: T)
        ensures
            next == v.0,
        { v.0 };
    let filter = |v: &(T, bool)| -> (verdict: bool)
        ensures
            verdict == v.1,
        { v.1 };
    signal_loop(node, event, &process, &filter)
}

/// Services one event of a conditional counter: an update for which `pred`
/// holds raises the count by one, any other changes nothing.
#[allow(non_snake_case)]
pub fn countIf<T, C, F: Fn(&T) -> bool>(node: Node<usize, C>, event: Event<T, C>, pred: &F) -> (res:
    (Node<usize, C>, Notify))
    requires
        event matches Event::Update(Some(v)) ==> node@.update_open ==> call_requires(
            *pred,
            (&v,),
        ),
    ensures
        engine_next(filter_relation(*pred), counting(), node@, event, res.0@, res.1),
{
    let process = |v: T, held: usize| -> (next: usize)
        ensures
            next == successor(held),
        {
            if held == usize::MAX {
                0
            } else {
                held + 1
            }
        };
    signal_loop(node, event, &process, pred)
}

/// Hands one reading of the upstream of a split to its two outputs. A left
/// value replaces what the left output holds and is broadcast there, and the
/// right output does not see it; a right value goes the other way. When
/// upstream has closed, the update source of both outputs closes.
pub fn split<T, U, CL, CR>(
    left: Node<T, CL>,
    right: Node<U, CR>,
    update: Option<Either<T, U>>,
) -> (res: ((Node<T, CL>, Notify), (Node<U, CR>, Notify)))
    ensures
        update_next(left_only(), left_value(), left@, update, res.0.0@, res.0.1),
        update_next(right_only(), right_value(), right@, update, res.1.0@, res.1.1),
{
    match update {
        Some(Either::Left(l)) => (forward(left, Event::Update(Some(l))), (right, Notify::Nobody)),
        Some(Either::Right(r)) => ((left, Notify::Nobody), forward(right, Event::Update(Some(r)))),
        None => (forward(left, Event::Update(None)), forward(right, Event::Update(None))),
    }
}

/// Creates the worker of a node that maps the pairs of a pairwise merge
/// through `f`, from the first pair that the merge produced.
pub fn lift2_start<T1, T2, V, C, F: Fn(T1, T2) -> V>(first: (T1, T2), f: &F) -> (node: Node<V, C>)
    requires
        call_requires(*f, first),
    ensures
        call_ensures(*f, first, node@.value),
        node@ == NodeView::<V, C>::fresh(node@.value),
{
    Node::new(f(first.0, first.1))
}

/// Services one event of a node that maps the pairs of a pairwise merge
/// through `f`.
pub fn lift2<T1, T2, V, C, F: Fn(T1, T2) -> V>(
    node: Node<V, C>,
    event: Event<(T1, T2), C>,
    f: &F,
) -> (res: (Node<V, C>, Notify))
    requires
        event matches Event::Update(Some(v)) ==> node@.update_open ==> call_requires(*f, v),
    ensures
        engine_next(accept_all(), map2_relation(*f), node@, event, res.0@, res.1),
{
    let unpacked = |v: (T1, T2)| -> (next: V)
        requires
            call_requires(f, v),
        ensures
            call_ensures(f, v, next),
        { f(v.0, v.1) };
    lift(node, event, &unpacked)
}

/// Creates the worker of a node that maps the triples of a triple merge
/// through `f`, from the first triple that the merge produced.
pub fn lift3_start<T1, T2, T3, V, C, F: Fn(T1, T2, T3) -> V>(first: (T1, T2, T3), f: &F) -> (node:
    Node<V, C>)
    requires
        call_requires(*f, first),
    ensures
        call_ensures(*f, first, node@.value),
        node@ == NodeView::<V, C>::fresh(node@.value),
{
    Node::new(f(first.0, first.1, first.2))
}

/// Services one event of a node that maps the triples of a triple merge
/// through `f`.
pub fn lift3<T1, T2, T3, V, C, F: Fn(T1, T2, T3) -> V>(
    node: Node<V, C>,
    event: Event<(T1, T2, T3), C>,
    f: &F,
) -> (res: (Node<V, C>, Notify))
    requires
        event matches Event::Update(Some(v)) ==> node@.update_open ==> call_requires(*f, v),
    ensures
        engine_next(accept_all(), map3_relation(*f), node@, event, res.0@, res.1),
{
    let unpacked = |v: (T1, T2, T3)| -> (next: V)
        requires
            call_requires(f, v),
        ensures
            call_ensures(f, v, next),
        { f(v.0, v.1, v.2) };
    lift(node, event, &unpacked)
}

/// Creates the worker of a node that maps four parents, merged two by two,
/// through `f`, from the first value that the outer merge produced.
pub fn lift4_start<T1, T2, T3, T4, V, C, F: Fn(T1, T2, T3, T4) -> V>(
    first: ((T1, T2), (T3, T4)),
    f: &F,
) -> (node: Node<V, C>)
    requires
        call_requires(*f, (first.0.0, first.0.1, first.1.0, first.1.1)),
    ensures
        call_ensures(*f, (first.0.0, first.0.1, first.1.0, first.1.1), node@.value),
        node@ == NodeView::<V, C>::fresh(node@.value),
{
    let ((a, b), (c, d)) = first;
    Node::new(f(a, b, c, d))
}

/// Services one event of a node that maps four parents, merged two by two,
/// through `f`.
pub fn lift4<T1, T2, T3, T4, V, C, F: Fn(T1, T2, T3, T4) -> V>(
    node: Node<V, C>,
    event: Event<((T1, T2), (T3, T4)), C>,
    f: &F,
) -> (res: (Node<V, C>, Notify))
    requires
        event matches Event::Update(Some(v)) ==> node@.update_open ==> call_requires(
            *f,
            (v.0.0, v.0.1, v.1.0, v.1.1),
        ),
    ensures
        engine_next(accept_all(), map4_relation(*f), node@, event, res.0@, res.1),
{
    let unpacked = |v: ((T1, T2), (T3, T4))| -> (next: V)
        requires
            call_requires(f, (v.0.0, v.0.1, v.1.0, v.1.1)),
        ensures
            call_ensures(f, (v.0.0, v.0.1, v.1.0, v.1.1), next),
        {
            let ((a, b), (c, d)) = v;
            f(a, b, c, d)
        };
    lift(node, event, &unpacked)
}

/// Creates the worker of a node that maps five parents, merged as a pair and
/// a triple, through `f`, from the first value that the outer merge produced.
pub fn lift5_start<T1, T2, T3, T4, T5, V, C, F: Fn(T1, T2, T3, T4, T5) -> V>(
    first: ((T1, T2), (T3, T4, T5)),
    f: &F,
) -> (node: Node<V, C>)
    requires
        call_requires(*f, (first.0.0, first.0.1, first.1.0, first.1.1, first.1.2)),
    ensures
        call_ensures(*f, (first.0.0, first.0.1, first.1.0, first.1.1, first.1.2), node@.value),
        node@ == NodeView::<V, C>::fresh(node@.value),
{
    let ((a, b), (c, d, e)) = first;
    Node::new(f(a, b, c, d, e))
}

/// Services one event of a node that maps five parents, merged as a pair and
/// a triple, through `f`.
pub fn lift5<T1, T2, T3, T4, T5, V, C, F: Fn(T1, T2, T3, T4, T5) -> V>(
    node: Node<V, C>,
    event: Event<((T1, T2), (T3, T4, T5)), C>,
    f: &F,
) -> (res: (Node<V, C>, Notify))
    requires
        event matches Event::Update(Some(v)) ==> node@.update_open ==> call_requires(
            *f,
            (v.0.0, v.0.1, v.1.0, v.1.1, v.1.2),
        ),
    ensures
        engine_next(accept_all(), map5_relation(*f), node@, event, res.0@, res.1),
{
    let unpacked = |v: ((T1, T2), (T3, T4, T5))| -> (next: V)
        requires
            call_requires(f, (v.0.0, v.0.1, v.1.0, v.1.1, v.1.2)),
        ensures
            call_ensures(f, (v.0.0, v.0.1, v.1.0, v.1.1, v.1.2), next),
        {
            let ((a, b), (c, d, e)) = v;
            f(a, b, c, d, e)
        };
    lift(node, event, &unpacked)
}

/// Creates the worker of a node that maps six parents, merged as two
/// triples, through `f`, from the first value that the outer merge produced.
pub fn lift6_start<T1, T2, T3, T4, T5, T6, V, C, F: Fn(T1, T2, T3, T4, T5, T6) -> V>(
    first: ((T1, T2, T3), (T4, T5, T6)),
    f: &F,
) -> (node: Node<V, C>)
    requires
        call_requires(*f, (first.0.0, first.0.1, first.0.2, first.1.0, first.1.1, first.1.2)),
    ensures
        call_ensures(
            *f,
            (first.0.0, first.0.1, first.0.2, first.1.0, first.1.1, first.1.2),
            node@.value,
        ),
        node@ == NodeView::<V, C>::fresh(node@.value),
{
    let ((a, b, c), (d, e, g)) = first;
    Node::new(f(a, b, c, d, e, g))
}

/// Services one event of a node that maps six parents, merged as two
/// triples, through `f`.
pub fn lift6<T1, T2, T3, T4, T5, T6, V, C, F: Fn(T1, T2, T3, T4, T5, T6) -> V>(
    node: Node<V, C>,
    event: Event<((T1, T2, T3), (T4, T5, T6)), C>,
    f: &F,
) -> (res: (Node<V, C>, Notify))
    requires
        event matches Event::Update(Some(v)) ==> node@.update_open ==> call_requires(
            *f,
            (v.0.0, v.0.1, v.0.2, v.1.0, v.1.1, v.1.2),
        ),
    ensures
        engine_next(accept_all(), map6_relation(*f), node@, event, res.0@, res.1),
{
    let unpacked = |v: ((T1, T2, T3), (T4, T5, T6))| -> (next: V)
        requires
            call_requires(f, (v.0.0, v.0.1, v.0.2, v.1.0, v.1.1, v.1.2)),
        ensures
            call_ensures(f, (v.0.0, v.0.1, v.0.2, v.1.0, v.1.1, v.1.2), next),
        {
            let ((a, b, c), (d, e, g)) = v;
            f(a, b, c, d, e, g)
        };
    lift(node, event, &unpacked)
}

} // verus!
