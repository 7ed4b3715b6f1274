//! The single-input node engine: the state of one worker, the events of its
//! two sources, and its reaction to one event.

use vstd::prelude::*;
use crate::fanout::{recipients, settle, settled, Notify};

verus! {

/// What a worker read from one of the two sources of a single-input node.
pub enum Event<T, C> {
    /// The update source was read: `Some` holds a value that upstream
    /// produced, `None` says that the source has closed.
    Update(Option<T>),
    /// The registration source was read: `Some` holds the handle of a new
    /// subscriber, `None` says that the source has closed.
    Registration(Option<C>),
}

/// The sources a worker has to wait on before its next event.
#[derive(Clone, Copy, Debug, PartialEq, Eq)]
pub enum Wait {
    /// Both sources are open: whichever is ready is serviced.
    Both,
    /// Only the update source is still open.
    Update,
    /// Only the registration source is still open.
    Registration,
    /// Both sources have closed: the worker terminates.
    Done,
}

/// The mathematical state of a node.
#[verifier::ext_equal]
pub struct NodeView<U, C> {
    /// The value the node currently holds.
    pub value: U,
    /// The live subscribers, oldest first.
    pub subscribers: Seq<C>,
    /// Whether the update source is still open.
    pub update_open: bool,
    /// Whether the registration source is still open.
    pub registration_open: bool,
}

impl<U, C> NodeView<U, C> {
    /// A node that was just created: it holds `value`, nobody has subscribed
    /// and both sources are open.
    pub open spec fn fresh(value: U) -> Self {
        NodeView { value, subscribers: Seq::empty(), update_open: true, registration_open: true }
    }

    /// The node after it recomputed its value.
    pub open spec fn published(self, next: U) -> Self {
        NodeView { value: next, ..self }
    }

    /// The node after `handle` was added to its subscribers.
    pub open spec fn subscribed(self, handle: C) -> Self {
        NodeView { subscribers: self.subscribers.push(handle), ..self }
    }

    /// The node after its update source was found closed.
    pub open spec fn update_closed(self) -> Self {
        NodeView { update_open: false, ..self }
    }

    /// The node after its registration source was found closed.
    pub open spec fn registration_closed(self) -> Self {
        NodeView { registration_open: false, ..self }
    }

    /// The sources the worker waits on in this state.
    pub open spec fn wait(self) -> Wait {
        if self.update_open && self.registration_open {
            Wait::Both
        } else if self.update_open {
            Wait::Update
        } else if self.registration_open {
            Wait::Registration
        } else {
            Wait::Done
        }
    }

    /// The node after the host has carried out `notify` with the given
    /// outcomes: the subscribers that could not be reached are gone.
    pub open spec fn settled(self, notify: Notify, outcomes: Seq<bool>) -> Self {
        NodeView { subscribers: settled(self.subscribers, notify, outcomes), ..self }
    }

}

/// What the host sends after an event that left the node in state `post`:
/// pairs of a subscriber and the value sent to it, in sending order. Every
/// one of them carries the value that the node holds after the event.
pub open spec fn deliveries<U, C>(post: NodeView<U, C>, notify: Notify) -> Seq<(C, U)> {
    recipients(post.subscribers.len(), notify).map_values(
        |at: int| (post.subscribers[at], post.value),
    )
}

/// The reaction of a node to a registration event, which no transform or
/// filter takes part in.
pub open spec fn registration_next<U, C>(
    pre: NodeView<U, C>,
    request: Option<C>,
    post: NodeView<U, C>,
    notify: Notify,
) -> bool {
    if !pre.registration_open {
        post == pre && notify == Notify::Nobody
    } else {
        match request {
            Some(handle) => post == pre.subscribed(handle) && notify == Notify::Newest,
            None => post == pre.registration_closed() && notify == Notify::Nobody,
        }
    }
}

/// The reaction of a node to an update event. `passes(v, b)` says that the
/// filter may answer `b` on `v`; `yields(v, held, next)` says that the
/// transform may turn `v` and the held value into `next`.
pub open spec fn update_next<T, U, C>(
    passes: spec_fn(T, bool) -> bool,
    yields: spec_fn(T, U, U) -> bool,
    pre: NodeView<U, C>,
    update: Option<T>,
    post: NodeView<U, C>,
    notify: Notify,
) -> bool {
    if !pre.update_open {
        post == pre && notify == Notify::Nobody
    } else {
        match update {
            Some(v) => {
                ||| {
                    &&& passes(v, true)
                    &&& yields(v, pre.value, post.value)
                    &&& post == pre.published(post.value)
                    &&& notify == Notify::Everyone
                }
                ||| {
                    &&& passes(v, false)
                    &&& post == pre
                    &&& notify == Notify::Nobody
                }
            },
            None => post == pre.update_closed() && notify == Notify::Nobody,
        }
    }
}

/// One iteration of a node's worker: `pre` and `event` may lead to `post`
/// and `notify`.
pub open spec fn engine_next<T, U, C>(
    passes: spec_fn(T, bool) -> bool,
    yields: spec_fn(T, U, U) -> bool,
    pre: NodeView<U, C>,
    event: Event<T, C>,
    post: NodeView<U, C>,
    notify: Notify,
) -> bool {
    match event {
        Event::Update(update) => update_next(passes, yields, pre, update, post, notify),
        Event::Registration(request) => registration_next(pre, request, post, notify),
    }
}

/// The answers that the executable filter `filter` may give.
pub open spec fn filter_relation<T, F: Fn(&T) -> bool>(filter: F) -> spec_fn(T, bool) -> bool {
    |v: T, verdict: bool| call_ensures(filter, (&v,), verdict)
}

/// The results that the executable transform `process` may give.
pub open spec fn process_relation<T, U, P: Fn(T, U) -> U>(process: P) -> spec_fn(T, U, U) -> bool {
    |v: T, held: U, next: U| call_ensures(process, (v, held), next)
}

/// The state of one worker of a single-input node.
pub struct Node<U, C> {
    value: U,
    subscribers: Vec<C>,
    update_open: bool,
    registration_open: bool,
}

impl<U, C> View for Node<U, C> {
    type V = NodeView<U, C>;

    closed spec fn view(&self) -> NodeView<U, C> {
        NodeView {
            value: self.value,
            subscribers: self.subscribers@,
            update_open: self.update_open,
            registration_open: self.registration_open,
        }
    }
}

impl<U, C> Node<U, C> {
    /// Creates the state of a worker that starts with `value`.
    pub fn new(value: U) -> (node: Self)
        ensures
            node@ == NodeView::<U, C>::fresh(value),
    {
        Node { value, subscribers: Vec::new(), update_open: true, registration_open: true }
    }

    /// The value the node currently holds.
    pub fn value(&self) -> (value: &U)
        ensures
            *value == self@.value,
    {
        &self.value
    }

    /// The live subscribers, oldest first.
    pub fn subscribers(&self) -> (subscribers: &Vec<C>)
        ensures
            subscribers@ == self@.subscribers,
    {
        &self.subscribers
    }

    /// Services one reading of the registration source: a new subscriber is
    /// added and is owed a snapshot of the current value.
    pub fn register(self, request: Option<C>) -> (res: (Self, Notify))
        ensures
            registration_next(self@, request, res.0@, res.1),
    {
        let Node { value, mut subscribers, update_open, registration_open } = self;
        if !registration_open {
            (Node { value, subscribers, update_open, registration_open }, Notify::Nobody)
        } else {
            match request {
                Some(handle) => {
                    subscribers.push(handle);
                    (Node { value, subscribers, update_open, registration_open }, Notify::Newest)
                },
                None => (
                    Node { value, subscribers, update_open, registration_open: false },
                    Notify::Nobody,
                ),
            }
        }
    }

    /// Drops the subscribers that the host could not reach when it carried out
    /// `notify`.
    pub fn settle(self, notify: Notify, outcomes: &Vec<bool>) -> (node: Self)
        ensures
            node@ == self@.settled(notify, outcomes@),
    {
        let Node { value, subscribers, update_open, registration_open } = self;
        Node {
            value,
            subscribers: settle(subscribers, notify, outcomes),
            update_open,
            registration_open,
        }
    }

    /// The sources to wait on before the next event.
    pub fn wait(&self) -> (wait: Wait)
        ensures
            wait == self@.wait(),
    {
        if self.update_open && self.registration_open {
            Wait::Both
        } else if self.update_open {
            Wait::Update
        } else if self.registration_open {
            Wait::Registration
        } else {
            Wait::Done
        }
    }
}

/// Services one event of a node whose transform is `process` and whose
/// filter is `filter`.
pub fn signal_loop<T, U, C, P: Fn(T, U) -> U, F: Fn(&T) -> bool>(
    node: Node<U, C>,
    event: Event<T, C>,
    process: &P,
    filter: &F,
) -> (res: (Node<U, C>, Notify))
    requires
        event matches Event::Update(Some(v)) ==> node@.update_open ==> {
            &&& call_requires(*filter, (&v,))
            &&& call_ensures(*filter, (&v,), true) ==> call_requires(*process, (v, node@.value))
        },
    ensures
        engine_next(
            filter_relation(*filter),
            process_relation(*process),
            node@,
            event,
            res.0@,
            res.1,
        ),
{
    match event {
        Event::Update(update) => {
            let Node { value, subscribers, update_open, registration_open } = node;
            if !update_open {
                (Node { value, subscribers, update_open, registration_open }, Notify::Nobody)
            } else {
                match update {
                    Some(tmp) => {
                        if filter(&tmp) {
                            let next = process(tmp, value);
                            (
                                Node { value: next, subscribers, update_open, registration_open },
                                Notify::Everyone,
                            )
                        } else {
                            (
                                Node { value, subscribers, update_open, registration_open },
                                Notify::Nobody,
                            )
                        }
                    },
                    None => (
                        Node { value, subscribers, update_open: false, registration_open },
                        Notify::Nobody,
                    ),
                }
            }
        },
        Event::Registration(request) => node.register(request),
    }
}

} // verus!
