//! The homogeneous merge: two parents of one type feed one node, which hands
//! on whatever either of them produced.

use vstd::prelude::*;
use crate::engine::{deliveries, registration_next, NodeView};
use crate::fanout::{settle, settled, Notify};
use crate::merge2::Wait2;

verus! {

/// What the worker of a homogeneous merge read from one of its three
/// sources. `None` says that the source has closed.
pub enum MergeEvent<T, C> {
    /// The channel of the first parent was read.
    First(Option<T>),
    /// The channel of the second parent was read.
    Second(Option<T>),
    /// The registration source was read.
    Registration(Option<C>),
}

/// The mathematical state of a homogeneous merge.
#[verifier::ext_equal]
pub struct MergeView<T, C> {
    /// The value that was handed on last, if any was.
    pub last: Option<T>,
    /// The live subscribers, oldest first.
    pub subscribers: Seq<C>,
    /// Whether the channel of the first parent is still open.
    pub first_open: bool,
    /// Whether the channel of the second parent is still open.
    pub second_open: bool,
    /// Whether the registration source is still open.
    pub registration_open: bool,
}

impl<T, C> MergeView<T, C> {
    /// A merge whose worker has read nothing yet.
    pub open spec fn fresh() -> Self {
        MergeView {
            last: None,
            subscribers: Seq::empty(),
            first_open: true,
            second_open: true,
            registration_open: true,
        }
    }

    /// The sources that are still open. Before each wait on the parents the
    /// host services the registrations that are pending, without blocking;
    /// with no parent left it blocks on the registration source.
    pub open spec fn wait(self) -> Wait2 {
        Wait2 {
            first: self.first_open,
            second: self.second_open,
            registration: self.registration_open,
        }
    }

    /// Whether the worker reads the source that `event` comes from.
    pub open spec fn awaits(self, event: MergeEvent<T, C>) -> bool {
        match event {
            MergeEvent::First(_) => self.first_open,
            MergeEvent::Second(_) => self.second_open,
            MergeEvent::Registration(_) => self.registration_open,
        }
    }

    /// A merge that has handed on a value, seen as a node that holds it. Its
    /// update side counts as open while a parent is open.
    pub open spec fn node(self) -> NodeView<T, C>
        recommends
            self.last is Some,
    {
        NodeView {
            value: self.last.unwrap(),
            subscribers: self.subscribers,
            update_open: self.first_open || self.second_open,
            registration_open: self.registration_open,
        }
    }

    /// The state after one event, and whom the host has to send the held
    /// value to. A value of either parent is handed on to everyone. A new
    /// subscriber is owed a snapshot once the merge has handed on a value;
    /// before that there is nothing to tell it. An event of a source that
    /// has closed changes nothing.
    pub open spec fn step(self, event: MergeEvent<T, C>) -> (Self, Notify) {
        if !self.awaits(event) {
            (self, Notify::Nobody)
        } else {
            match event {
                MergeEvent::First(Some(v)) => (MergeView { last: Some(v), ..self }, Notify::Everyone),
                MergeEvent::Second(Some(v)) => (
                    MergeView { last: Some(v), ..self },
                    Notify::Everyone,
                ),
                MergeEvent::First(None) => (MergeView { first_open: false, ..self }, Notify::Nobody),
                MergeEvent::Second(None) => (
                    MergeView { second_open: false, ..self },
                    Notify::Nobody,
                ),
                MergeEvent::Registration(Some(handle)) => (
                    MergeView { subscribers: self.subscribers.push(handle), ..self },
                    if self.last is Some {
                        Notify::Newest
                    } else {
                        Notify::Nobody
                    },
                ),
                MergeEvent::Registration(None) => (
                    MergeView { registration_open: false, ..self },
                    Notify::Nobody,
                ),
            }
        }
    }

    /// The state after the host has carried out `notify` with the given
    /// outcomes: the subscribers that could not be reached are gone.
    pub open spec fn settled(self, notify: Notify, outcomes: Seq<bool>) -> Self {
        MergeView { subscribers: settled(self.subscribers, notify, outcomes), ..self }
    }

    /// What the host sends after an event that left the merge in this state.
    pub open spec fn deliveries(self, notify: Notify) -> Seq<(C, T)> {
        match self.last {
            Some(_) => deliveries(self.node(), notify),
            None => Seq::empty(),
        }
    }
}

/// The state of the worker of a homogeneous merge.
pub struct Merge<T, C> {
    last: Option<T>,
    subscribers: Vec<C>,
    first_open: bool,
    second_open: bool,
    registration_open: bool,
}

impl<T, C> View for Merge<T, C> {
    type V = MergeView<T, C>;

    closed spec fn view(&self) -> MergeView<T, C> {
        MergeView {
            last: self.last,
            subscribers: self.subscribers@,
            first_open: self.first_open,
            second_open: self.second_open,
            registration_open: self.registration_open,
        }
    }
}

impl<T, C> Merge<T, C> {
    /// The state of a worker that has read nothing yet.
    pub fn new() -> (state: Self)
        ensures
            state@ == MergeView::<T, C>::fresh(),
    {
        Merge {
            last: None,
            subscribers: Vec::new(),
            first_open: true,
            second_open: true,
            registration_open: true,
        }
    }

    /// The sources that are still open.
    pub fn wait(&self) -> (wait: Wait2)
        ensures
            wait == self@.wait(),
    {
        Wait2 {
            first: self.first_open,
            second: self.second_open,
            registration: self.registration_open,
        }
    }

    /// The value that was handed on last, if any was.
    pub fn last(&self) -> (last: Option<&T>)
        ensures
            match last {
                Some(value) => self@.last == Some(*value),
                None => self@.last is None,
            },
    {
        self.last.as_ref()
    }

    /// The live subscribers, oldest first.
    pub fn subscribers(&self) -> (subscribers: &Vec<C>)
        ensures
            subscribers@ == self@.subscribers,
    {
        &self.subscribers
    }

    /// Drops the subscribers that the host could not reach when it carried out
    /// `notify`.
    pub fn settle(self, notify: Notify, outcomes: &Vec<bool>) -> (state: Self)
        ensures
            state@ == self@.settled(notify, outcomes@),
    {
        let Merge { last, subscribers, first_open, second_open, registration_open } = self;
        Merge {
            last,
            subscribers: settle(subscribers, notify, outcomes),
            first_open,
            second_open,
            registration_open,
        }
    }
}

/// Services one event of a homogeneous merge.
pub fn merge<T, C>(state: Merge<T, C>, event: MergeEvent<T, C>) -> (res: (Merge<T, C>, Notify))
    ensures
        (res.0@, res.1) == state@.step(event),
{
    let Merge { mut last, mut subscribers, mut first_open, mut second_open, mut registration_open } =
        state;
    let mut notify = Notify::Nobody;
    match event {
        MergeEvent::First(update) => {
            if first_open {
                match update {
                    Some(value) => {
                        last = Some(value);
                        notify = Notify::Everyone;
                    },
                    None => {
                        first_open = false;
                    },
                }
            }
        },
        MergeEvent::Second(update) => {
            if second_open {
                match update {
                    Some(value) => {
                        last = Some(value);
                        notify = Notify::Everyone;
                    },
                    None => {
                        second_open = false;
                    },
                }
            }
        },
        MergeEvent::Registration(request) => {
            if registration_open {
                match request {
                    Some(handle) => {
                        subscribers.push(handle);
                        if last.is_some() {
                            notify = Notify::Newest;
                        }
                    },
                    None => {
                        registration_open = false;
                    },
                }
            }
        },
    }
    (Merge { last, subscribers, first_open, second_open, registration_open }, notify)
}

/// Whether the worker of a homogeneous merge goes through `states` on
/// `events` and asks for `notifies`: `states[i]` is the state before
/// `events[i]`, and `notifies[i]` what it asks for after it.
pub open spec fn merge_run<T, C>(
    states: Seq<MergeView<T, C>>,
    events: Seq<MergeEvent<T, C>>,
    notifies: Seq<Notify>,
) -> bool {
    &&& states.len() == events.len() + 1
    &&& notifies.len() == events.len()
    &&& forall|i: int|
        0 <= i < events.len() ==> (states[i + 1], notifies[i]) == states[i].step(
            #[trigger] events[i],
        )
}

/// The last value that the worker has read from either parent during the
/// first `n` events of a run.
pub open spec fn last_arrival<T, C>(
    states: Seq<MergeView<T, C>>,
    events: Seq<MergeEvent<T, C>>,
    n: int,
) -> Option<T>
    decreases n,
{
    if n <= 0 {
        None
    } else if !states[n - 1].awaits(events[n - 1]) {
        last_arrival(states, events, n - 1)
    } else {
        match events[n - 1] {
            MergeEvent::First(Some(v)) => Some(v),
            MergeEvent::Second(Some(v)) => Some(v),
            _ => last_arrival(states, events, n - 1),
        }
    }
}

/// In every run of a homogeneous merge that starts with a worker that has
/// read nothing, the merge holds the value that arrived last, from whichever
/// parent, and whatever is sent after an event is that value.
pub proof fn law_merge_hands_on_last<T, C>(
    states: Seq<MergeView<T, C>>,
    events: Seq<MergeEvent<T, C>>,
    notifies: Seq<Notify>,
    n: int,
)
    requires
        merge_run(states, events, notifies),
        states[0] == MergeView::<T, C>::fresh(),
        0 <= n <= events.len(),
    ensures
        states[n].last == last_arrival(states, events, n),
        n > 0 ==> forall|i: int|
            0 <= i < states[n].deliveries(notifies[n - 1]).len() ==> Some(
                (#[trigger] states[n].deliveries(notifies[n - 1])[i]).1,
            ) == last_arrival(states, events, n),
    decreases n,
{
    if n > 0 {
        law_merge_hands_on_last(states, events, notifies, n - 1);
        assert((states[n], notifies[n - 1]) == states[n - 1].step(events[n - 1]));
    }
}

/// Snapshot first: a homogeneous merge that has handed on a value reacts to
/// a reading of its registration source as a node that holds that value
/// does, so a new subscriber is sent exactly that value.
pub proof fn law_merge_snapshot<T, C>(pre: MergeView<T, C>, request: Option<C>)
    requires
        pre.last is Some,
    ensures
        registration_next(
            pre.node(),
            request,
            pre.step(MergeEvent::Registration(request)).0.node(),
            pre.step(MergeEvent::Registration(request)).1,
        ),
        pre.registration_open ==> (request matches Some(handle) ==> pre.step(
            MergeEvent::Registration(request),
        ).0.deliveries(pre.step(MergeEvent::Registration(request)).1) == seq![
            (handle, pre.last.unwrap()),
        ]),
{
    let post = pre.step(MergeEvent::Registration(request)).0;
    if pre.registration_open {
        match request {
            Some(handle) => {
                assert(post.node() == pre.node().subscribed(handle));
                assert(post.subscribers.last() == handle);
            },
            None => {
                assert(post.node() == pre.node().registration_closed());
            },
        }
    } else {
        assert(post.node() == pre.node());
    }
}

} // verus!
