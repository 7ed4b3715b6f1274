//! The pairwise merge engine: two parents of different types feed one node
//! that holds the last value of each.

use vstd::prelude::*;
use crate::engine::{deliveries, registration_next, NodeView};
use crate::fanout::{settle, settled, Notify};

verus! {

/// What the worker of a pairwise merge read from one of its three sources.
/// `None` says that the source has closed.
pub enum Merge2Event<A, B, C> {
    /// The channel of the first parent was read.
    First(Option<A>),
    /// The channel of the second parent was read.
    Second(Option<B>),
    /// The registration source was read.
    Registration(Option<C>),
}

/// The sources the worker of a pairwise merge waits on. With none of them
/// left the worker terminates.
#[derive(Clone, Copy, Debug, PartialEq, Eq)]
pub struct Wait2 {
    /// Whether the channel of the first parent is waited on.
    pub first: bool,
    /// Whether the channel of the second parent is waited on.
    pub second: bool,
    /// Whether the registration source is waited on.
    pub registration: bool,
}

/// The last value of each parent, as far as the worker has got.
pub enum Slots2<A, B> {
    /// Startup: no parent has produced a value yet.
    Neither,
    /// Startup: the first parent has produced a value.
    First(A),
    /// Steady state: the last value of each parent.
    Both(A, B),
    /// A parent closed before its first value: the worker has given up.
    Failed,
}

/// The mathematical state of a pairwise merge.
#[verifier::ext_equal]
pub struct Merge2View<A, B, C> {
    /// The last value of each parent.
    pub slots: Slots2<A, B>,
    /// The live subscribers, oldest first.
    pub subscribers: Seq<C>,
    /// Whether the channel of the first parent is still open.
    pub first_open: bool,
    /// Whether the channel of the second parent is still open.
    pub second_open: bool,
    /// Whether the registration source is still open.
    pub registration_open: bool,
}

impl<A, B, C> Merge2View<A, B, C> {
    /// A merge whose worker has read nothing yet.
    pub open spec fn fresh() -> Self {
        Merge2View {
            slots: Slots2::Neither,
            subscribers: Seq::empty(),
            first_open: true,
            second_open: true,
            registration_open: true,
        }
    }

    /// The sources the worker waits on in this state. During startup it
    /// reads one parent after the other and nothing else.
    pub open spec fn wait(self) -> Wait2 {
        match self.slots {
            Slots2::Neither => Wait2 { first: true, second: false, registration: false },
            Slots2::First(_) => Wait2 { first: false, second: true, registration: false },
            Slots2::Both(_, _) => Wait2 {
                first: self.first_open,
                second: self.second_open,
                registration: self.registration_open,
            },
            Slots2::Failed => Wait2 { first: false, second: false, registration: false },
        }
    }

    /// Whether the worker reads the source that `event` comes from.
    pub open spec fn awaits(self, event: Merge2Event<A, B, C>) -> bool {
        match event {
            Merge2Event::First(_) => self.wait().first,
            Merge2Event::Second(_) => self.wait().second,
            Merge2Event::Registration(_) => self.wait().registration,
        }
    }

    /// The pair that the merge holds, once both parents have produced.
    pub open spec fn joint(self) -> Option<(A, B)> {
        match self.slots {
            Slots2::Both(a, b) => Some((a, b)),
            _ => None,
        }
    }

    /// A merge in steady state seen as a node that holds the pair. Its update
    /// side counts as open while a parent is open.
    pub open spec fn node(self) -> NodeView<(A, B), C>
        recommends
            self.slots is Both,
    {
        NodeView {
            value: self.joint().unwrap(),
            subscribers: self.subscribers,
            update_open: self.first_open || self.second_open,
            registration_open: self.registration_open,
        }
    }

    /// The state after one event, and whom the host has to send the pair to.
    /// An event of a source that the worker does not wait on changes nothing.
    pub open spec fn step(self, event: Merge2Event<A, B, C>) -> (Self, Notify) {
        if !self.awaits(event) {
            (self, Notify::Nobody)
        } else {
            match (self.slots, event) {
                (Slots2::Neither, Merge2Event::First(Some(a))) => (
                    Merge2View { slots: Slots2::First(a), ..self },
                    Notify::Nobody,
                ),
                (Slots2::First(a), Merge2Event::Second(Some(b))) => (
                    Merge2View { slots: Slots2::Both(a, b), ..self },
                    Notify::Nobody,
                ),
                (Slots2::Both(_, b), Merge2Event::First(Some(a))) => (
                    Merge2View { slots: Slots2::Both(a, b), ..self },
                    Notify::Everyone,
                ),
                (Slots2::Both(a, _), Merge2Event::Second(Some(b))) => (
                    Merge2View { slots: Slots2::Both(a, b), ..self },
                    Notify::Everyone,
                ),
                (Slots2::Both(_, _), Merge2Event::First(None)) => (
                    Merge2View { first_open: false, ..self },
                    Notify::Nobody,
                ),
                (Slots2::Both(_, _), Merge2Event::Second(None)) => (
                    Merge2View { second_open: false, ..self },
                    Notify::Nobody,
                ),
                (Slots2::Both(_, _), Merge2Event::Registration(Some(handle))) => (
                    Merge2View { subscribers: self.subscribers.push(handle), ..self },
                    Notify::Newest,
                ),
                (Slots2::Both(_, _), Merge2Event::Registration(None)) => (
                    Merge2View { registration_open: false, ..self },
                    Notify::Nobody,
                ),
                _ => (Merge2View { slots: Slots2::Failed, ..self }, Notify::Nobody),
            }
        }
    }

    /// The state after the host has carried out `notify` with the given
    /// outcomes: the subscribers that could not be reached are gone.
    pub open spec fn settled(self, notify: Notify, outcomes: Seq<bool>) -> Self {
        Merge2View { subscribers: settled(self.subscribers, notify, outcomes), ..self }
    }

    /// What the host sends after an event that left the merge in this state.
    pub open spec fn deliveries(self, notify: Notify) -> Seq<(C, (A, B))> {
        match self.slots {
            Slots2::Both(_, _) => deliveries(self.node(), notify),
            _ => Seq::empty(),
        }
    }
}

/// The state of the worker of a pairwise merge.
pub struct Merge2<A, B, C> {
    slots: Slots2<A, B>,
    subscribers: Vec<C>,
    first_open: bool,
    second_open: bool,
    registration_open: bool,
}

impl<A, B, C> View for Merge2<A, B, C> {
    type V = Merge2View<A, B, C>;

    closed spec fn view(&self) -> Merge2View<A, B, C> {
        Merge2View {
            slots: self.slots,
            subscribers: self.subscribers@,
            first_open: self.first_open,
            second_open: self.second_open,
            registration_open: self.registration_open,
        }
    }
}

impl<A, B, C> Merge2<A, B, C> {
    /// The state of a worker that has read nothing yet.
    pub fn new() -> (state: Self)
        ensures
            state@ == Merge2View::<A, B, C>::fresh(),
    {
        Merge2 {
            slots: Slots2::Neither,
            subscribers: Vec::new(),
            first_open: true,
            second_open: true,
            registration_open: true,
        }
    }

    /// The sources to wait on before the next event.
    pub fn wait(&self) -> (wait: Wait2)
        ensures
            wait == self@.wait(),
    {
        match self.slots {
            Slots2::Neither => Wait2 { first: true, second: false, registration: false },
            Slots2::First(_) => Wait2 { first: false, second: true, registration: false },
            Slots2::Both(_, _) => Wait2 {
                first: self.first_open,
                second: self.second_open,
                registration: self.registration_open,
            },
            Slots2::Failed => Wait2 { first: false, second: false, registration: false },
        }
    }

    /// The pair that the merge holds, once both parents have produced.
    pub fn joint(&self) -> (joint: Option<(&A, &B)>)
        ensures
            match joint {
                Some(pair) => self@.joint() == Some((*pair.0, *pair.1)),
                None => self@.joint() is None,
            },
    {
        match &self.slots {
            Slots2::Both(a, b) => Some((a, b)),
            _ => None,
        }
    }

    /// The live subscribers, oldest first.
    pub fn subscribers(&self) -> (subscribers: &Vec<C>)
        ensures
            subscribers@ == self@.subscribers,
    {
        &self.subscribers
    }

    /// Drops the subscribers that the host could not reach when it carried out
    /// `notify`.
    pub fn settle(self, notify: Notify, outcomes: &Vec<bool>) -> (state: Self)
        ensures
            state@ == self@.settled(notify, outcomes@),
    {
        let Merge2 { slots, subscribers, first_open, second_open, registration_open } = self;
        Merge2 {
            slots,
            subscribers: settle(subscribers, notify, outcomes),
            first_open,
            second_open,
            registration_open,
        }
    }
}

/// Services one event of a pairwise merge.
pub fn merge2<A, B, C>(state: Merge2<A, B, C>, event: Merge2Event<A, B, C>) -> (res: (
    Merge2<A, B, C>,
    Notify,
))
    ensures
        (res.0@, res.1) == state@.step(event),
{
    let Merge2 { slots, mut subscribers, mut first_open, mut second_open, mut registration_open } =
        state;
    let mut notify = Notify::Nobody;
    let slots = match slots {
        Slots2::Neither => match event {
            Merge2Event::First(Some(a)) => Slots2::First(a),
            Merge2Event::First(None) => Slots2::Failed,
            _ => Slots2::Neither,
        },
        Slots2::First(a) => match event {
            Merge2Event::Second(Some(b)) => Slots2::Both(a, b),
            Merge2Event::Second(None) => Slots2::Failed,
            _ => Slots2::First(a),
        },
        Slots2::Both(a, b) => match event {
            Merge2Event::First(update) => {
                if !first_open {
                    Slots2::Both(a, b)
                } else {
                    match update {
                        Some(value) => {
                            notify = Notify::Everyone;
                            Slots2::Both(value, b)
                        },
                        None => {
                            first_open = false;
                            Slots2::Both(a, b)
                        },
                    }
                }
            },
            Merge2Event::Second(update) => {
                if !second_open {
                    Slots2::Both(a, b)
                } else {
                    match update {
                        Some(value) => {
                            notify = Notify::Everyone;
                            Slots2::Both(a, value)
                        },
                        None => {
                            second_open = false;
                            Slots2::Both(a, b)
                        },
                    }
                }
            },
            Merge2Event::Registration(request) => {
                if registration_open {
                    match request {
                        Some(handle) => {
                            subscribers.push(handle);
                            notify = Notify::Newest;
                        },
                        None => {
                            registration_open = false;
                        },
                    }
                }
                Slots2::Both(a, b)
            },
        },
        Slots2::Failed => Slots2::Failed,
    };
    (Merge2 { slots, subscribers, first_open, second_open, registration_open }, notify)
}

/// Whether the worker of a pairwise merge goes through `states` on `events`
/// and asks for `notifies`: `states[i]` is the state before `events[i]`, and
/// `notifies[i]` what it asks for after it.
pub open spec fn merge2_run<A, B, C>(
    states: Seq<Merge2View<A, B, C>>,
    events: Seq<Merge2Event<A, B, C>>,
    notifies: Seq<Notify>,
) -> bool {
    &&& states.len() == events.len() + 1
    &&& notifies.len() == events.len()
    &&& forall|i: int|
        0 <= i < events.len() ==> (states[i + 1], notifies[i]) == states[i].step(
            #[trigger] events[i],
        )
}

/// The last value that the worker has read from the first parent during the
/// first `n` events of a run.
pub open spec fn last_from_first<A, B, C>(
    states: Seq<Merge2View<A, B, C>>,
    events: Seq<Merge2Event<A, B, C>>,
    n: int,
) -> Option<A>
    decreases n,
{
    if n <= 0 {
        None
    } else {
        match events[n - 1] {
            Merge2Event::First(Some(a)) => if states[n - 1].wait().first {
                Some(a)
            } else {
                last_from_first(states, events, n - 1)
            },
            _ => last_from_first(states, events, n - 1),
        }
    }
}

/// The last value that the worker has read from the second parent during the
/// first `n` events of a run.
pub open spec fn last_from_second<A, B, C>(
    states: Seq<Merge2View<A, B, C>>,
    events: Seq<Merge2Event<A, B, C>>,
    n: int,
) -> Option<B>
    decreases n,
{
    if n <= 0 {
        None
    } else {
        match events[n - 1] {
            Merge2Event::Second(Some(b)) => if states[n - 1].wait().second {
                Some(b)
            } else {
                last_from_second(states, events, n - 1)
            },
            _ => last_from_second(states, events, n - 1),
        }
    }
}

/// In every run the slots hold what was read last from each parent.
proof fn lemma_slots_hold_last<A, B, C>(
    states: Seq<Merge2View<A, B, C>>,
    events: Seq<Merge2Event<A, B, C>>,
    notifies: Seq<Notify>,
    n: int,
)
    requires
        merge2_run(states, events, notifies),
        states[0] == Merge2View::<A, B, C>::fresh(),
        0 <= n <= events.len(),
    ensures
        match states[n].slots {
            Slots2::Neither => {
                &&& last_from_first(states, events, n) is None
                &&& last_from_second(states, events, n) is None
            },
            Slots2::First(a) => {
                &&& last_from_first(states, events, n) == Some(a)
                &&& last_from_second(states, events, n) is None
            },
            Slots2::Both(a, b) => {
                &&& last_from_first(states, events, n) == Some(a)
                &&& last_from_second(states, events, n) == Some(b)
            },
            Slots2::Failed => true,
        },
    decreases n,
{
    if n > 0 {
        lemma_slots_hold_last(states, events, notifies, n - 1);
        assert((states[n], notifies[n - 1]) == states[n - 1].step(events[n - 1]));
    }
}

/// Gating and last values: in every run of a pairwise merge that starts with
/// a worker that has read nothing, nothing is sent to anybody before both
/// parents have produced a value, and whatever is sent after an event is the
/// pair of the last value read from the first parent and the last value read
/// from the second, in whatever order their values came.
pub proof fn law_merge2_last_values<A, B, C>(
    states: Seq<Merge2View<A, B, C>>,
    events: Seq<Merge2Event<A, B, C>>,
    notifies: Seq<Notify>,
    n: int,
)
    requires
        merge2_run(states, events, notifies),
        states[0] == Merge2View::<A, B, C>::fresh(),
        0 < n <= events.len(),
    ensures
        last_from_first(states, events, n) is None || last_from_second(states, events, n) is None
            ==> states[n].deliveries(notifies[n - 1]) == Seq::<(C, (A, B))>::empty(),
        forall|i: int|
            0 <= i < states[n].deliveries(notifies[n - 1]).len() ==> {
                &&& last_from_first(states, events, n) is Some
                &&& last_from_second(states, events, n) is Some
                &&& (#[trigger] states[n].deliveries(notifies[n - 1])[i]).1 == (
                    last_from_first(states, events, n).unwrap(),
                    last_from_second(states, events, n).unwrap(),
                )
            },
{
    lemma_slots_hold_last(states, events, notifies, n);
}

/// Snapshot first: a pairwise merge in steady state reacts to a reading of
/// its registration source as a node that holds the pair does, so a new
/// subscriber is sent exactly the pair of the last values, stale or fresh.
pub proof fn law_merge2_snapshot<A, B, C>(pre: Merge2View<A, B, C>, request: Option<C>)
    requires
        pre.slots is Both,
    ensures
        registration_next(
            pre.node(),
            request,
            pre.step(Merge2Event::Registration(request)).0.node(),
            pre.step(Merge2Event::Registration(request)).1,
        ),
        pre.registration_open ==> (request matches Some(handle) ==> pre.step(
            Merge2Event::Registration(request),
        ).0.deliveries(pre.step(Merge2Event::Registration(request)).1) == seq![
            (handle, pre.joint().unwrap()),
        ]),
{
    let post = pre.step(Merge2Event::Registration(request)).0;
    if pre.registration_open {
        match request {
            Some(handle) => {
                assert(post.node() == pre.node().subscribed(handle));
                assert(post.subscribers.last() == handle);
            },
            None => {
                assert(post.node() == pre.node().registration_closed());
            },
        }
    } else {
        assert(post.node() == pre.node());
    }
}

} // verus!
