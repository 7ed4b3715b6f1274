//! The triple merge engine: three parents of different types feed one node
//! that holds the last value of each.

use vstd::prelude::*;
use crate::engine::{deliveries, registration_next, NodeView};
use crate::fanout::{settle, settled, Notify};

verus! {

/// What the worker of a triple merge read from one of its four sources.
/// `None` says that the source has closed.
pub enum Merge3Event<A, B, D, C> {
    /// The channel of the first parent was read.
    First(Option<A>),
    /// The channel of the second parent was read.
    Second(Option<B>),
    /// The channel of the third parent was read.
    Third(Option<D>),
    /// The registration source was read.
    Registration(Option<C>),
}

/// The sources the worker of a triple merge waits on. With none of them left
/// the worker terminates.
#[derive(Clone, Copy, Debug, PartialEq, Eq)]
pub struct Wait3 {
    /// Whether the channel of the first parent is waited on.
    pub first: bool,
    /// Whether the channel of the second parent is waited on.
    pub second: bool,
    /// Whether the channel of the third parent is waited on.
    pub third: bool,
    /// Whether the registration source is waited on.
    pub registration: bool,
}

/// The last value of each parent, as far as the worker has got.
pub enum Slots3<A, B, D> {
    /// Startup: no parent has produced a value yet.
    Neither,
    /// Startup: the first parent has produced a value.
    First(A),
    /// Startup: the first and the second parent have produced a value.
    Two(A, B),
    /// Steady state: the last value of each parent.
    All(A, B, D),
    /// A parent closed before its first value: the worker has given up.
    Failed,
}

/// The mathematical state of a triple merge.
#[verifier::ext_equal]
pub struct Merge3View<A, B, D, C> {
    /// The last value of each parent.
    pub slots: Slots3<A, B, D>,
    /// The live subscribers, oldest first.
    pub subscribers: Seq<C>,
    /// Whether the channel of the first parent is still open.
    pub first_open: bool,
    /// Whether the channel of the second parent is still open.
    pub second_open: bool,
    /// Whether the channel of the third parent is still open.
    pub third_open: bool,
    /// Whether the registration source is still open.
    pub registration_open: bool,
}

impl<A, B, D, C> Merge3View<A, B, D, C> {
    /// A merge whose worker has read nothing yet.
    pub open spec fn fresh() -> Self {
        Merge3View {
            slots: Slots3::Neither,
            subscribers: Seq::empty(),
            first_open: true,
            second_open: true,
            third_open: true,
            registration_open: true,
        }
    }

    /// The sources the worker waits on in this state. During startup it
    /// reads one parent after the other and nothing else.
    pub open spec fn wait(self) -> Wait3 {
        match self.slots {
            Slots3::Neither => Wait3 {
                first: true,
                second: false,
                third: false,
                registration: false,
            },
            Slots3::First(_) => Wait3 {
                first: false,
                second: true,
                third: false,
                registration: false,
            },
            Slots3::Two(_, _) => Wait3 {
                first: false,
                second: false,
                third: true,
                registration: false,
            },
            Slots3::All(_, _, _) => Wait3 {
                first: self.first_open,
                second: self.second_open,
                third: self.third_open,
                registration: self.registration_open,
            },
            Slots3::Failed => Wait3 {
                first: false,
                second: false,
                third: false,
                registration: false,
            },
        }
    }

    /// Whether the worker reads the source that `event` comes from.
    pub open spec fn awaits(self, event: Merge3Event<A, B, D, C>) -> bool {
        match event {
            Merge3Event::First(_) => self.wait().first,
            Merge3Event::Second(_) => self.wait().second,
            Merge3Event::Third(_) => self.wait().third,
            Merge3Event::Registration(_) => self.wait().registration,
        }
    }

    /// The triple that the merge holds, once every parent has produced.
    pub open spec fn joint(self) -> Option<(A, B, D)> {
        match self.slots {
            Slots3::All(a, b, d) => Some((a, b, d)),
            _ => None,
        }
    }

    /// A merge in steady state seen as a node that holds the triple. Its
    /// update side counts as open while a parent is open.
    pub open spec fn node(self) -> NodeView<(A, B, D), C>
        recommends
            self.slots is All,
    {
        NodeView {
            value: self.joint().unwrap(),
            subscribers: self.subscribers,
            update_open: self.first_open || self.second_open || self.third_open,
            registration_open: self.registration_open,
        }
    }

    /// The state after one event, and whom the host has to send the triple
    /// to. An event of a source that the worker does not wait on changes
    /// nothing.
    pub open spec fn step(self, event: Merge3Event<A, B, D, C>) -> (Self, Notify) {
        if !self.awaits(event) {
            (self, Notify::Nobody)
        } else {
            match (self.slots, event) {
                (Slots3::Neither, Merge3Event::First(Some(a))) => (
                    Merge3View { slots: Slots3::First(a), ..self },
                    Notify::Nobody,
                ),
                (Slots3::First(a), Merge3Event::Second(Some(b))) => (
                    Merge3View { slots: Slots3::Two(a, b), ..self },
                    Notify::Nobody,
                ),
                (Slots3::Two(a, b), Merge3Event::Third(Some(d))) => (
                    Merge3View { slots: Slots3::All(a, b, d), ..self },
                    Notify::Nobody,
                ),
                (Slots3::All(_, b, d), Merge3Event::First(Some(a))) => (
                    Merge3View { slots: Slots3::All(a, b, d), ..self },
                    Notify::Everyone,
                ),
                (Slots3::All(a, _, d), Merge3Event::Second(Some(b))) => (
                    Merge3View { slots: Slots3::All(a, b, d), ..self },
                    Notify::Everyone,
                ),
                (Slots3::All(a, b, _), Merge3Event::Third(Some(d))) => (
                    Merge3View { slots: Slots3::All(a, b, d), ..self },
                    Notify::Everyone,
                ),
                (Slots3::All(_, _, _), Merge3Event::First(None)) => (
                    Merge3View { first_open: false, ..self },
                    Notify::Nobody,
                ),
                (Slots3::All(_, _, _), Merge3Event::Second(None)) => (
                    Merge3View { second_open: false, ..self },
                    Notify::Nobody,
                ),
                (Slots3::All(_, _, _), Merge3Event::Third(None)) => (
                    Merge3View { third_open: false, ..self },
                    Notify::Nobody,
                ),
                (Slots3::All(_, _, _), Merge3Event::Registration(Some(handle))) => (
                    Merge3View { subscribers: self.subscribers.push(handle), ..self },
                    Notify::Newest,
                ),
                (Slots3::All(_, _, _), Merge3Event::Registration(None)) => (
                    Merge3View { registration_open: false, ..self },
                    Notify::Nobody,
                ),
                _ => (Merge3View { slots: Slots3::Failed, ..self }, Notify::Nobody),
            }
        }
    }

    /// The state after the host has carried out `notify` with the given
    /// outcomes: the subscribers that could not be reached are gone.
    pub open spec fn settled(self, notify: Notify, outcomes: Seq<bool>) -> Self {
        Merge3View { subscribers: settled(self.subscribers, notify, outcomes), ..self }
    }

    /// What the host sends after an event that left the merge in this state.
    pub open spec fn deliveries(self, notify: Notify) -> Seq<(C, (A, B, D))> {
        match self.slots {
            Slots3::All(_, _, _) => deliveries(self.node(), notify),
            _ => Seq::empty(),
        }
    }
}

/// The state of the worker of a triple merge.
pub struct Merge3<A, B, D, C> {
    slots: Slots3<A, B, D>,
    subscribers: Vec<C>,
    first_open: bool,
    second_open: bool,
    third_open: bool,
    registration_open: bool,
}

impl<A, B, D, C> View for Merge3<A, B, D, C> {
    type V = Merge3View<A, B, D, C>;

    closed spec fn view(&self) -> Merge3View<A, B, D, C> {
        Merge3View {
            slots: self.slots,
            subscribers: self.subscribers@,
            first_open: self.first_open,
            second_open: self.second_open,
            third_open: self.third_open,
            registration_open: self.registration_open,
        }
    }
}

impl<A, B, D, C> Merge3<A, B, D, C> {
    /// The state of a worker that has read nothing yet.
    pub fn new() -> (state: Self)
        ensures
            state@ == Merge3View::<A, B, D, C>::fresh(),
    {
        Merge3 {
            slots: Slots3::Neither,
            subscribers: Vec::new(),
            first_open: true,
            second_open: true,
            third_open: true,
            registration_open: true,
        }
    }

    /// The sources to wait on before the next event.
    pub fn wait(&self) -> (wait: Wait3)
        ensures
            wait == self@.wait(),
    {
        match self.slots {
            Slots3::Neither => Wait3 {
                first: true,
                second: false,
                third: false,
                registration: false,
            },
            Slots3::First(_) => Wait3 {
                first: false,
                second: true,
                third: false,
                registration: false,
            },
            Slots3::Two(_, _) => Wait3 {
                first: false,
                second: false,
                third: true,
                registration: false,
            },
            Slots3::All(_, _, _) => Wait3 {
                first: self.first_open,
                second: self.second_open,
                third: self.third_open,
                registration: self.registration_open,
            },
            Slots3::Failed => Wait3 {
                first: false,
                second: false,
                third: false,
                registration: false,
            },
        }
    }

    /// The triple that the merge holds, once every parent has produced.
    pub fn joint(&self) -> (joint: Option<(&A, &B, &D)>)
        ensures
            match joint {
                Some(triple) => self@.joint() == Some((*triple.0, *triple.1, *triple.2)),
                None => self@.joint() is None,
            },
    {
        match &self.slots {
            Slots3::All(a, b, d) => Some((a, b, d)),
            _ => None,
        }
    }

    /// The live subscribers, oldest first.
    pub fn subscribers(&self) -> (subscribers: &Vec<C>)
        ensures
            subscribers@ == self@.subscribers,
    {
        &self.subscribers
    }

    /// Drops the subscribers that the host could not reach when it carried out
    /// `notify`.
    pub fn settle(self, notify: Notify, outcomes: &Vec<bool>) -> (state: Self)
        ensures
            state@ == self@.settled(notify, outcomes@),
    {
        let Merge3 { slots, subscribers, first_open, second_open, third_open, registration_open } =
            self;
        Merge3 {
            slots,
            subscribers: settle(subscribers, notify, outcomes),
            first_open,
            second_open,
            third_open,
            registration_open,
        }
    }
}

/// Services one event of a triple merge.
pub fn merge3<A, B, D, C>(state: Merge3<A, B, D, C>, event: Merge3Event<A, B, D, C>) -> (res: (
    Merge3<A, B, D, C>,
    Notify,
))
    ensures
        (res.0@, res.1) == state@.step(event),
{
    let Merge3 {
        slots,
        mut subscribers,
        mut first_open,
        mut second_open,
        mut third_open,
        mut registration_open,
    } = state;
    let mut notify = Notify::Nobody;
    let slots = match slots {
        Slots3::Neither => match event {
            Merge3Event::First(Some(a)) => Slots3::First(a),
            Merge3Event::First(None) => Slots3::Failed,
            _ => Slots3::Neither,
        },
        Slots3::First(a) => match event {
            Merge3Event::Second(Some(b)) => Slots3::Two(a, b),
            Merge3Event::Second(None) => Slots3::Failed,
            _ => Slots3::First(a),
        },
        Slots3::Two(a, b) => match event {
            Merge3Event::Third(Some(d)) => Slots3::All(a, b, d),
            Merge3Event::Third(None) => Slots3::Failed,
            _ => Slots3::Two(a, b),
        },
        Slots3::All(a, b, d) => match event {
            Merge3Event::First(update) => {
                if !first_open {
                    Slots3::All(a, b, d)
                } else {
                    match update {
                        Some(value) => {
                            notify = Notify::Everyone;
                            Slots3::All(value, b, d)
                        },
                        None => {
                            first_open = false;
                            Slots3::All(a, b, d)
                        },
                    }
                }
            },
            Merge3Event::Second(update) => {
                if !second_open {
                    Slots3::All(a, b, d)
                } else {
                    match update {
                        Some(value) => {
                            notify = Notify::Everyone;
                            Slots3::All(a, value, d)
                        },
                        None => {
                            second_open = false;
                            Slots3::All(a, b, d)
                        },
                    }
                }
            },
            Merge3Event::Third(update) => {
                if !third_open {
                    Slots3::All(a, b, d)
                } else {
                    match update {
                        Some(value) => {
                            notify = Notify::Everyone;
                            Slots3::All(a, b, value)
                        },
                        None => {
                            third_open = false;
                            Slots3::All(a, b, d)
                        },
                    }
                }
            },
            Merge3Event::Registration(request) => {
                if registration_open {
                    match request {
                        Some(handle) => {
                            subscribers.push(handle);
                            notify = Notify::Newest;
                        },
                        None => {
                            registration_open = false;
                        },
                    }
                }
                Slots3::All(a, b, d)
            },
        },
        Slots3::Failed => Slots3::Failed,
    };
    (Merge3 { slots, subscribers, first_open, second_open, third_open, registration_open }, notify)
}

/// Whether the worker of a triple merge goes through `states` on `events`
/// and asks for `notifies`: `states[i]` is the state before `events[i]`, and
/// `notifies[i]` what it asks for after it.
pub open spec fn merge3_run<A, B, D, C>(
    states: Seq<Merge3View<A, B, D, C>>,
    events: Seq<Merge3Event<A, B, D, C>>,
    notifies: Seq<Notify>,
) -> bool {
    &&& states.len() == events.len() + 1
    &&& notifies.len() == events.len()
    &&& forall|i: int|
        0 <= i < events.len() ==> (states[i + 1], notifies[i]) == states[i].step(
            #[trigger] events[i],
        )
}

/// The last values that the worker has read from its three parents during
/// the first `n` events of a run.
pub open spec fn last_read<A, B, D, C>(
    states: Seq<Merge3View<A, B, D, C>>,
    events: Seq<Merge3Event<A, B, D, C>>,
    n: int,
) -> (Option<A>, Option<B>, Option<D>)
    decreases n,
{
    if n <= 0 {
        (None, None, None)
    } else {
        let before = last_read(states, events, n - 1);
        if !states[n - 1].awaits(events[n - 1]) {
            before
        } else {
            match events[n - 1] {
                Merge3Event::First(Some(a)) => (Some(a), before.1, before.2),
                Merge3Event::Second(Some(b)) => (before.0, Some(b), before.2),
                Merge3Event::Third(Some(d)) => (before.0, before.1, Some(d)),
                _ => before,
            }
        }
    }
}

/// In every run the slots hold what was read last from each parent.
proof fn lemma_slots_hold_last<A, B, D, C>(
    states: Seq<Merge3View<A, B, D, C>>,
    events: Seq<Merge3Event<A, B, D, C>>,
    notifies: Seq<Notify>,
    n: int,
)
    requires
        merge3_run(states, events, notifies),
        states[0] == Merge3View::<A, B, D, C>::fresh(),
        0 <= n <= events.len(),
    ensures
        match states[n].slots {
            Slots3::Neither => last_read(states, events, n) == (None::<A>, None::<B>, None::<D>),
            Slots3::First(a) => last_read(states, events, n) == (Some(a), None::<B>, None::<D>),
            Slots3::Two(a, b) => last_read(states, events, n) == (Some(a), Some(b), None::<D>),
            Slots3::All(a, b, d) => last_read(states, events, n) == (Some(a), Some(b), Some(d)),
            Slots3::Failed => true,
        },
    decreases n,
{
    if n > 0 {
        lemma_slots_hold_last(states, events, notifies, n - 1);
        assert((states[n], notifies[n - 1]) == states[n - 1].step(events[n - 1]));
    }
}

/// Gating and last values: in every run of a triple merge that starts with a
/// worker that has read nothing, nothing is sent to anybody before every
/// parent has produced a value, and whatever is sent after an event is the
/// triple of the last values read from the three parents, in whatever order
/// their values came.
pub proof fn law_merge3_last_values<A, B, D, C>(
    states: Seq<Merge3View<A, B, D, C>>,
    events: Seq<Merge3Event<A, B, D, C>>,
    notifies: Seq<Notify>,
    n: int,
)
    requires
        merge3_run(states, events, notifies),
        states[0] == Merge3View::<A, B, D, C>::fresh(),
        0 < n <= events.len(),
    ensures
        last_read(states, events, n).0 is None || last_read(states, events, n).1 is None
            || last_read(states, events, n).2 is None ==> states[n].deliveries(notifies[n - 1])
            == Seq::<(C, (A, B, D))>::empty(),
        forall|i: int|
            0 <= i < states[n].deliveries(notifies[n - 1]).len() ==> {
                &&& last_read(states, events, n).0 is Some
                &&& last_read(states, events, n).1 is Some
                &&& last_read(states, events, n).2 is Some
                &&& (#[trigger] states[n].deliveries(notifies[n - 1])[i]).1 == (
                    last_read(states, events, n).0.unwrap(),
                    last_read(states, events, n).1.unwrap(),
                    last_read(states, events, n).2.unwrap(),
                )
            },
{
    lemma_slots_hold_last(states, events, notifies, n);
}

/// Snapshot first: a triple merge in steady state reacts to a reading of its
/// registration source as a node that holds the triple does, so a new
/// subscriber is sent exactly the triple of the last values, stale or fresh.
pub proof fn law_merge3_snapshot<A, B, D, C>(pre: Merge3View<A, B, D, C>, request: Option<C>)
    requires
        pre.slots is All,
    ensures
        registration_next(
            pre.node(),
            request,
            pre.step(Merge3Event::Registration(request)).0.node(),
            pre.step(Merge3Event::Registration(request)).1,
        ),
        pre.registration_open ==> (request matches Some(handle) ==> pre.step(
            Merge3Event::Registration(request),
        ).0.deliveries(pre.step(Merge3Event::Registration(request)).1) == seq![
            (handle, pre.joint().unwrap()),
        ]),
{
    let post = pre.step(Merge3Event::Registration(request)).0;
    if pre.registration_open {
        match request {
            Some(handle) => {
                assert(post.node() == pre.node().subscribed(handle));
                assert(post.subscribers.last() == handle);
            },
            None => {
                assert(post.node() == pre.node().registration_closed());
            },
        }
    } else {
        assert(post.node() == pre.node());
    }
}

} // verus!
