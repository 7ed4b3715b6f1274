//! Runs of a single-input node, and what holds of every run.
//!
//! A run is a sequence of events together with the states that the worker
//! went through and what it asked the host to send after each event.

use vstd::prelude::*;
use crate::combinators::{accept_all, counting, successor};
use crate::engine::{deliveries, engine_next, Event, NodeView};
use crate::fanout::Notify;

verus! {

/// Whether the worker of a node may go through `states` on `events` and ask
/// for `notifies`: `states[i]` is the state before `events[i]`, and
/// `notifies[i]` what it asks for after it.
pub open spec fn node_run<T, U, C>(
    passes: spec_fn(T, bool) -> bool,
    yields: spec_fn(T, U, U) -> bool,
    states: Seq<NodeView<U, C>>,
    events: Seq<Event<T, C>>,
    notifies: Seq<Notify>,
) -> bool {
    &&& states.len() == events.len() + 1
    &&& notifies.len() == events.len()
    &&& forall|i: int|
        0 <= i < events.len() ==> engine_next(
            passes,
            yields,
            states[i],
            #[trigger] events[i],
            states[i + 1],
            notifies[i],
        )
}

/// The values that the host sends to subscriber `c` after an event that left
/// the node in state `post`.
pub open spec fn sent_to<U, C>(c: C, post: NodeView<U, C>, notify: Notify) -> Seq<U> {
    deliveries(post, notify).filter(|d: (C, U)| d.0 == c).map_values(|d: (C, U)| d.1)
}

/// The values that subscriber `c` has been sent during the first `n` events
/// of a run, in the order in which they were sent.
pub open spec fn heard<U, C>(c: C, states: Seq<NodeView<U, C>>, notifies: Seq<Notify>, n: int) -> Seq<
    U,
>
    decreases n,
{
    if n <= 0 {
        Seq::empty()
    } else {
        heard(c, states, notifies, n - 1) + sent_to(c, states[n], notifies[n - 1])
    }
}

/// What `c` is sent in three simple rounds: nothing when nobody is told, and
/// the held value once when `c` is the newest subscriber of a snapshot or
/// the only subscriber of a broadcast.
proof fn lemma_sent_to<U, C>(c: C, post: NodeView<U, C>, notify: Notify)
    ensures
        notify == Notify::Nobody ==> sent_to(c, post, notify) == Seq::<U>::empty(),
        notify == Notify::Newest && post.subscribers.len() > 0 && post.subscribers.last() == c
            ==> sent_to(c, post, notify) == seq![post.value],
        notify == Notify::Everyone && post.subscribers == seq![c] ==> sent_to(c, post, notify)
            == seq![post.value],
{
    reveal(Seq::filter);
    let to_c = |d: (C, U)| d.0 == c;
    let all = deliveries(post, notify);
    if notify == Notify::Nobody {
        assert(all.filter(to_c) == Seq::<(C, U)>::empty());
        assert(sent_to(c, post, notify) == Seq::<U>::empty());
    }
    if (notify == Notify::Newest && post.subscribers.len() > 0 && post.subscribers.last() == c) || (
    notify == Notify::Everyone && post.subscribers == seq![c]) {
        assert(all == seq![(c, post.value)]);
        assert(all.drop_last() == Seq::<(C, U)>::empty());
        assert(all.drop_last().filter(to_c) == Seq::<(C, U)>::empty());
        assert(all.filter(to_c) == seq![(c, post.value)]);
        assert(sent_to(c, post, notify) == seq![post.value]);
    }
}

/// What a subscriber has heard only grows as a run goes on.
proof fn lemma_heard_grows<U, C>(
    c: C,
    states: Seq<NodeView<U, C>>,
    notifies: Seq<Notify>,
    m: int,
    n: int,
)
    requires
        m <= n,
    ensures
        heard(c, states, notifies, m).is_prefix_of(heard(c, states, notifies, n)),
    decreases n - m,
{
    if m < n {
        lemma_heard_grows(c, states, notifies, m, n - 1);
    }
}

/// Snapshot first: in every run, a subscriber that registers at event `t`,
/// having heard nothing before, is sent exactly the value that the node held
/// at that moment, and whatever it hears later comes after that value.
pub proof fn law_snapshot_first<T, U, C>(
    passes: spec_fn(T, bool) -> bool,
    yields: spec_fn(T, U, U) -> bool,
    states: Seq<NodeView<U, C>>,
    events: Seq<Event<T, C>>,
    notifies: Seq<Notify>,
    t: int,
    c: C,
)
    requires
        node_run(passes, yields, states, events, notifies),
        0 <= t < events.len(),
        events[t] == Event::<T, C>::Registration(Some(c)),
        states[t].registration_open,
        heard(c, states, notifies, t).len() == 0,
    ensures
        deliveries(states[t + 1], notifies[t]) == seq![(c, states[t].value)],
        heard(c, states, notifies, t + 1) == seq![states[t].value],
        forall|n: int|
            t < n <= events.len() ==> (#[trigger] heard(c, states, notifies, n)).len() > 0 && heard(
                c,
                states,
                notifies,
                n,
            )[0] == states[t].value,
{
    let pre = states[t];
    let post = states[t + 1];
    assert(engine_next(passes, yields, pre, events[t], post, notifies[t]));
    assert(post == pre.subscribed(c));
    assert(post.subscribers.last() == c);
    lemma_sent_to(c, post, notifies[t]);
    assert(heard(c, states, notifies, t + 1) == seq![pre.value]);
    assert forall|n: int| t < n <= events.len() implies (#[trigger] heard(
        c,
        states,
        notifies,
        n,
    )).len() > 0 && heard(c, states, notifies, n)[0] == pre.value by {
        lemma_heard_grows(c, states, notifies, t + 1, n);
        let early = heard(c, states, notifies, t + 1);
        let late = heard(c, states, notifies, n);
        assert(early == late.subrange(0, early.len() as int));
        assert(early[0] == late[0]);
    }
}

/// A rejected update is a no-op: when the filter cannot accept `v`, the
/// event leaves the node as it was and nothing is sent.
pub proof fn law_filter_no_op<T, U, C>(
    passes: spec_fn(T, bool) -> bool,
    yields: spec_fn(T, U, U) -> bool,
    pre: NodeView<U, C>,
    v: T,
    post: NodeView<U, C>,
    notify: Notify,
)
    requires
        engine_next(passes, yields, pre, Event::<T, C>::Update(Some(v)), post, notify),
        !passes(v, true),
    ensures
        post == pre,
        notify == Notify::Nobody,
        deliveries(post, notify) == Seq::<(C, U)>::empty(),
{
}

/// No update is skipped: when the filter accepts `v` and the update source is
/// open, the node holds a result of the transform afterwards, and every
/// subscriber is sent that value, in the order of registration.
pub proof fn law_update_reaches_everyone<T, U, C>(
    passes: spec_fn(T, bool) -> bool,
    yields: spec_fn(T, U, U) -> bool,
    pre: NodeView<U, C>,
    v: T,
    post: NodeView<U, C>,
    notify: Notify,
)
    requires
        engine_next(passes, yields, pre, Event::<T, C>::Update(Some(v)), post, notify),
        pre.update_open,
        !passes(v, false),
    ensures
        yields(v, pre.value, post.value),
        post.subscribers == pre.subscribers,
        deliveries(post, notify) == pre.subscribers.map_values(|c: C| (c, post.value)),
{
}

/// What a fold holds after `updates`: each update in turn went with the held
/// value through `f`, starting from `default`.
pub open spec fn fold_of<T, U>(f: spec_fn(T, U) -> U, default: U, updates: Seq<T>) -> U {
    updates.fold_left(default, |held: U, v: T| f(v, held))
}

/// The events of a run in which `c` registers and upstream then produces
/// `updates`.
pub open spec fn registration_then<T, C>(c: C, updates: Seq<T>) -> Seq<Event<T, C>> {
    seq![Event::Registration(Some(c))] + updates.map_values(|v: T| Event::Update(Some(v)))
}

proof fn lemma_fold_order<T, U, C>(
    yields: spec_fn(T, U, U) -> bool,
    f: spec_fn(T, U) -> U,
    default: U,
    c: C,
    updates: Seq<T>,
    states: Seq<NodeView<U, C>>,
    notifies: Seq<Notify>,
    k: int,
)
    requires
        forall|v: T, held: U, next: U| #[trigger] yields(v, held, next) ==> next == f(v, held),
        node_run(accept_all(), yields, states, registration_then(c, updates), notifies),
        states[0] == NodeView::<U, C>::fresh(default),
        0 <= k <= updates.len(),
    ensures
        states[k + 1] == NodeView::<U, C>::fresh(fold_of(f, default, updates.take(k))).subscribed(
            c,
        ),
        heard(c, states, notifies, k + 1) == Seq::new(
            (k + 1) as nat,
            |i: int| fold_of(f, default, updates.take(i)),
        ),
    decreases k,
{
    let events = registration_then(c, updates);
    let pre = states[k];
    let post = states[k + 1];
    assert(engine_next(accept_all(), yields, pre, events[k], post, notifies[k]));
    if k == 0 {
        assert(updates.take(0) == Seq::<T>::empty());
        assert(post.subscribers == seq![c]);
        lemma_sent_to(c, post, notifies[0]);
        assert(heard(c, states, notifies, 0) == Seq::<U>::empty());
    } else {
        lemma_fold_order(yields, f, default, c, updates, states, notifies, k - 1);
        let v = updates[k - 1];
        assert(events[k] == Event::<T, C>::Update(Some(v)));
        assert(updates.take(k).drop_last() == updates.take(k - 1));
        assert(post.value == f(v, pre.value));
        assert(post.subscribers == seq![c]);
        lemma_sent_to(c, post, notifies[k]);
    }
}

/// Fold order: a subscriber that registers with a fold before upstream
/// produces `updates` hears the default first and then, update by update,
/// what the fold held after it: `default`, `f(v1, default)`,
/// `f(v2, f(v1, default))`, and so on.
pub proof fn law_fold_order<T, U, C>(
    yields: spec_fn(T, U, U) -> bool,
    f: spec_fn(T, U) -> U,
    default: U,
    c: C,
    updates: Seq<T>,
    states: Seq<NodeView<U, C>>,
    notifies: Seq<Notify>,
)
    requires
        forall|v: T, held: U, next: U| #[trigger] yields(v, held, next) ==> next == f(v, held),
        node_run(accept_all(), yields, states, registration_then(c, updates), notifies),
        states[0] == NodeView::<U, C>::fresh(default),
    ensures
        heard(c, states, notifies, updates.len() as int + 1) == Seq::new(
            updates.len() + 1,
            |i: int| fold_of(f, default, updates.take(i)),
        ),
{
    lemma_fold_order(yields, f, default, c, updates, states, notifies, updates.len() as int);
}

/// The number of updates among the first `n` events of a run that the worker
/// read while its update source was open.
pub open spec fn updates_applied<T, U, C>(
    states: Seq<NodeView<U, C>>,
    events: Seq<Event<T, C>>,
    n: int,
) -> nat
    decreases n,
{
    if n <= 0 {
        0
    } else if events[n - 1] matches Event::Update(Some(_)) && states[n - 1].update_open {
        updates_applied(states, events, n - 1) + 1
    } else {
        updates_applied(states, events, n - 1)
    }
}

/// Counting: in every run of a counter that starts at zero, the count after
/// `n` events is the number of updates applied so far, as long as that number
/// fits in a `usize`: the broadcast after the `k`-th update carries `k`, and
/// a subscriber that registers after `k` updates is told `k`.
pub proof fn law_count<T, C>(
    states: Seq<NodeView<usize, C>>,
    events: Seq<Event<T, C>>,
    notifies: Seq<Notify>,
    n: int,
)
    requires
        node_run(accept_all(), counting(), states, events, notifies),
        states[0].value == 0,
        0 <= n <= events.len(),
        updates_applied(states, events, n) <= usize::MAX,
    ensures
        states[n].value == updates_applied(states, events, n),
        n > 0 ==> forall|i: int|
            0 <= i < deliveries(states[n], notifies[n - 1]).len() ==> (#[trigger] deliveries(
                states[n],
                notifies[n - 1],
            )[i]).1 == updates_applied(states, events, n),
    decreases n,
{
    if n > 0 {
        law_count(states, events, notifies, n - 1);
        assert(engine_next(
            accept_all(),
            counting(),
            states[n - 1],
            events[n - 1],
            states[n],
            notifies[n - 1],
        ));
    }
}

} // verus!
