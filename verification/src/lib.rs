//! A reactive dataflow ("signal") library, as verified state machines.
//!
//! Every node of a signal graph is run by one worker that waits on its
//! sources, services one event at a time and tells its subscribers. This
//! crate holds what such a worker decides: for each kind of node a function
//! from the worker's state and one event to the next state and to what has to
//! be sent. Waiting, channels and threads are the host's business.
//!
//! A host runs a worker like this: it asks the state which sources to wait
//! on, reads one of them, hands what it read to the function of the node,
//! sends a copy of the current value to whom the answer names, and reports
//! which sends failed, so that dead subscribers are dropped. When the state
//! has nothing left to wait on, the worker ends and the host closes the
//! channels of its subscribers.

pub mod combinators;
pub mod either;
pub mod engine;
pub mod fanout;
pub mod merge;
pub mod merge2;
pub mod merge3;
pub mod runs;
pub mod sources;
pub mod time;

pub use crate::combinators::{
    count, countIf, filter, filter_lift, foldp, forward, keepWhen, lift, lift2, lift2_start, lift3,
    lift3_start, lift4, lift4_start, lift5, lift5_start, lift6, lift6_start, lift_start, split,
};
pub use crate::either::Either;
pub use crate::engine::{signal_loop, Event, Node, Wait};
pub use crate::fanout::{retain_reached, settle, Notify};
pub use crate::merge::{merge, Merge, MergeEvent};
pub use crate::merge2::{merge2, Merge2, Merge2Event, Slots2, Wait2};
pub use crate::merge3::{merge3, Merge3, Merge3Event, Slots3, Wait3};
pub use crate::sources::{
    constant, dispatcher, dispatcher_start, merges, merges_start, Constant, MergesError,
};
pub use crate::time::{
    delay, delay_start, every, every_start, every_tick, sleep, timeOf, timeOf_start, timestamp,
    timestamp_start,
};
