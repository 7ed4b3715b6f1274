//! The nodes that have no parent in the graph, or several of one type: the
//! constant, the node fed by a generator, and the node fed by any number of
//! parents.

use vstd::prelude::*;
use crate::combinators::{accept_all, forward, replace};
use crate::engine::{engine_next, Event, Node, NodeView};
use crate::fanout::Notify;

verus! {

/// The mathematical state of a constant.
pub struct ConstantView<T> {
    /// The value that every subscriber is told.
    pub value: T,
    /// Whether the registration source is still open.
    pub open: bool,
}

impl<T> ConstantView<T> {
    /// The state after one reading of the registration source, and the
    /// subscriber that the host has to send the value to, if there is one.
    pub open spec fn step<C>(self, request: Option<C>) -> (Self, Option<C>) {
        if !self.open {
            (self, None)
        } else {
            match request {
                Some(handle) => (self, Some(handle)),
                None => (ConstantView { open: false, ..self }, None),
            }
        }
    }
}

/// The state of the worker of a constant. A constant has no update source
/// and keeps no subscribers: each one is answered once.
pub struct Constant<T> {
    value: T,
    open: bool,
}

impl<T> View for Constant<T> {
    type V = ConstantView<T>;

    closed spec fn view(&self) -> ConstantView<T> {
        ConstantView { value: self.value, open: self.open }
    }
}

impl<T> Constant<T> {
    /// The state of the worker of a constant that holds `value`.
    pub fn new(value: T) -> (state: Self)
        ensures
            state@ == (ConstantView { value, open: true }),
    {
        Constant { value, open: true }
    }

    /// The value that every subscriber is told.
    pub fn value(&self) -> (value: &T)
        ensures
            *value == self@.value,
    {
        &self.value
    }

    /// Whether the worker still waits on its registration source. Once it
    /// does not, the worker terminates.
    pub fn is_open(&self) -> (open: bool)
        ensures
            open == self@.open,
    {
        self.open
    }
}

/// Services one reading of the registration source of a constant: a
/// subscriber is handed back, for the host to send it the value; the value
/// itself never changes.
pub fn constant<T, C>(state: Constant<T>, request: Option<C>) -> (res: (Constant<T>, Option<C>))
    ensures
        (res.0@, res.1) == state@.step(request),
{
    let Constant { value, open } = state;
    if !open {
        (Constant { value, open }, None)
    } else {
        match request {
            Some(handle) => (Constant { value, open }, Some(handle)),
            None => (Constant { value, open: false }, None),
        }
    }
}

/// What the host sends after a reading that left a constant in state `post`.
pub open spec fn constant_deliveries<T, C>(post: ConstantView<T>, reply: Option<C>) -> Seq<(C, T)> {
    match reply {
        Some(handle) => seq![(handle, post.value)],
        None => Seq::empty(),
    }
}

/// Whether the worker of a constant goes through `states` on `requests` and
/// hands back `replies`.
pub open spec fn constant_run<T, C>(
    states: Seq<ConstantView<T>>,
    requests: Seq<Option<C>>,
    replies: Seq<Option<C>>,
) -> bool {
    &&& states.len() == requests.len() + 1
    &&& replies.len() == requests.len()
    &&& forall|i: int|
        0 <= i < requests.len() ==> (states[i + 1], replies[i]) == states[i].step(
            #[trigger] requests[i],
        )
}

/// A constant tells everybody the same: in every run of a constant that
/// holds `value`, each subscriber that registers while the registration
/// source is open is sent `value` once, whatever the order and the number of
/// the registrations, and nothing else is ever sent.
pub proof fn law_constant<T, C>(
    value: T,
    states: Seq<ConstantView<T>>,
    requests: Seq<Option<C>>,
    replies: Seq<Option<C>>,
    n: int,
)
    requires
        constant_run(states, requests, replies),
        states[0].value == value,
        0 < n <= requests.len(),
    ensures
        states[n].value == value,
        constant_deliveries(states[n], replies[n - 1]) == (match requests[n - 1] {
            Some(handle) => if states[n - 1].open {
                seq![(handle, value)]
            } else {
                Seq::empty()
            },
            None => Seq::empty(),
        }),
    decreases n,
{
    assert((states[n], replies[n - 1]) == states[n - 1].step(requests[n - 1]));
    if n > 1 {
        law_constant(value, states, requests, replies, n - 1);
    }
}

/// Creates the worker of a node that a generator feeds. With a default the
/// node starts from it and `first` is not called; without one the node starts
/// from the first generated value, which `first` reads. The result is `None`
/// when that reading found the generator exhausted.
pub fn dispatcher_start<T, C, G: FnOnce() -> Option<T>>(default: Option<T>, first: G) -> (res:
    Option<Node<T, C>>)
    requires
        default is None ==> call_requires(first, ()),
    ensures
        match default {
            Some(value) => res matches Some(node) && node@ == NodeView::<T, C>::fresh(value),
            None => match res {
                Some(node) => {
                    &&& call_ensures(first, (), Some(node@.value))
                    &&& node@ == NodeView::<T, C>::fresh(node@.value)
                },
                None => call_ensures(first, (), None::<T>),
            },
        },
{
    match default {
        Some(value) => Some(Node::new(value)),
        None => match first() {
            Some(value) => Some(Node::new(value)),
            None => None,
        },
    }
}

/// Services one event of a node that a generator feeds: every generated
/// value replaces the held value and is broadcast. When the generator is
/// exhausted the update source closes.
pub fn dispatcher<T, C>(node: Node<T, C>, event: Event<T, C>) -> (res: (Node<T, C>, Notify))
    ensures
        engine_next(accept_all(), replace(), node@, event, res.0@, res.1),
{
    forward(node, event)
}

/// Why a node over several parents could not be created.
#[derive(Clone, Copy, Debug, PartialEq, Eq)]
pub enum MergesError {
    /// No parent was given.
    NoSignals,
    /// None of the parents had a first value.
    NoActiveSignals,
}

/// The first value of the last parent that had one.
pub open spec fn last_active<T>(firsts: Seq<Option<T>>) -> Option<T>
    decreases firsts.len(),
{
    if firsts.len() == 0 {
        None
    } else if firsts.last() is Some {
        firsts.last()
    } else {
        last_active(firsts.drop_last())
    }
}

/// `last_active` finds a value exactly when some parent had one, and what it
/// finds is the first value of a parent.
pub proof fn law_last_active<T>(firsts: Seq<Option<T>>)
    ensures
        last_active(firsts) is None <==> forall|i: int| 0 <= i < firsts.len() ==> firsts[i] is None,
        last_active(firsts) is Some ==> firsts.contains(last_active(firsts)),
    decreases firsts.len(),
{
    if firsts.len() > 0 {
        let front = firsts.drop_last();
        law_last_active(front);
        if firsts.last() is Some {
            assert(firsts[firsts.len() - 1] == last_active(firsts));
        } else if last_active(front) is Some {
            let i = choose|i: int| 0 <= i < front.len() && front[i] == last_active(front);
            assert(firsts[i] == last_active(firsts));
        } else {
            assert forall|i: int| 0 <= i < firsts.len() implies firsts[i] is None by {
                if i < front.len() {
                    assert(front[i] is None);
                }
            }
        }
    }
}

/// Creates the worker of a node over any number of parents of one type, from
/// what the first reading of each parent gave (`None` for a parent that had
/// closed). The node starts from the first value of the last parent that had
/// one.
pub fn merges_start<T, C>(firsts: Vec<Option<T>>) -> (res: Result<Node<T, C>, MergesError>)
    ensures
        match res {
            Ok(node) => last_active(firsts@) is Some && node@ == NodeView::<T, C>::fresh(
                last_active(firsts@).unwrap(),
            ),
            Err(MergesError::NoSignals) => firsts@.len() == 0,
            Err(MergesError::NoActiveSignals) => firsts@.len() > 0 && last_active(firsts@) is None,
        },
{
    let len: usize = firsts.len();
    if len == 0 {
        return Err(MergesError::NoSignals);
    }
    let mut initial: Option<T> = None;
    for first in it: firsts
        invariant
            it.seq() == firsts@,
            initial == last_active(firsts@.take(it.index() as int)),
    {
        proof {
            let i = it.index() as int;
            assert(firsts@.take(i + 1).drop_last() == firsts@.take(i));
        }
        if first.is_some() {
            initial = first;
        }
    }
    proof {
        assert(firsts@.take(firsts@.len() as int) == firsts@);
    }
    match initial {
        Some(value) => Ok(Node::new(value)),
        None => Err(MergesError::NoActiveSignals),
    }
}

/// Services one event of a node over any number of parents of one type. The
/// host reads them as one update source, which yields whatever any of them
/// produced: that value replaces the held value and is broadcast.
pub fn merges<T, C>(node: Node<T, C>, event: Event<T, C>) -> (res: (Node<T, C>, Notify))
    ensures
        engine_next(accept_all(), replace(), node@, event, res.0@, res.1),
{
    forward(node, event)
}

} // verus!
