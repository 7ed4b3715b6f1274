//! The fan-out side of a node: whom the host has to send to after an event,
//! and which subscribers stay once the host has tried.

use vstd::prelude::*;

verus! {

/// To whom the host has to send the node's current value after an event.
#[derive(Clone, Copy, Debug, PartialEq, Eq)]
pub enum Notify {
    /// Nothing is sent.
    Nobody,
    /// The snapshot for the subscriber that was added last.
    Newest,
    /// A broadcast to every subscriber, in the order of their registration.
    Everyone,
}

/// The positions in a list of `len` subscribers that `notify` asks the host
/// to send to, in sending order.
pub open spec fn recipients(len: nat, notify: Notify) -> Seq<int> {
    match notify {
        Notify::Nobody => Seq::empty(),
        Notify::Newest => if len > 0 {
            seq![len - 1]
        } else {
            Seq::empty()
        },
        Notify::Everyone => Seq::new(len, |i: int| i),
    }
}

/// Whether the `k`-th send of a round succeeded: `outcomes` holds one answer
/// for each recipient, in sending order. A send that the host gave no
/// outcome for counts as delivered.
pub open spec fn delivered(outcomes: Seq<bool>, k: int) -> bool {
    0 <= k < outcomes.len() ==> outcomes[k]
}

/// The first `n` subscribers without those that a broadcast could not reach:
/// `outcomes[i]` is the outcome of the send to `subscribers[i]`.
pub open spec fn reached<C>(subscribers: Seq<C>, outcomes: Seq<bool>, n: nat) -> Seq<C>
    decreases n,
{
    if n == 0 || n > subscribers.len() {
        Seq::empty()
    } else if delivered(outcomes, n - 1) {
        reached(subscribers, outcomes, (n - 1) as nat).push(subscribers[n - 1])
    } else {
        reached(subscribers, outcomes, (n - 1) as nat)
    }
}

/// The subscribers that stay after the host has carried out `notify` with
/// the given outcomes: a subscriber that could not be reached is dropped,
/// the others keep their order.
pub open spec fn settled<C>(subscribers: Seq<C>, notify: Notify, outcomes: Seq<bool>) -> Seq<C> {
    match notify {
        Notify::Nobody => subscribers,
        Notify::Newest => if subscribers.len() > 0 && !delivered(outcomes, 0) {
            subscribers.drop_last()
        } else {
            subscribers
        },
        Notify::Everyone => reached(subscribers, outcomes, subscribers.len()),
    }
}

/// Every subscriber that is left after a broadcast was reached by it, the
/// subscribers that were reached are all left, and they keep their order:
/// `reached` is the subsequence of the positions whose send succeeded.
pub proof fn law_reached_keeps_order<C>(subscribers: Seq<C>, outcomes: Seq<bool>, n: nat) -> (at:
    Seq<int>)
    requires
        n <= subscribers.len(),
    ensures
        at.len() == reached(subscribers, outcomes, n).len(),
        forall|k: int| 0 <= k < at.len() ==> 0 <= #[trigger] at[k] < n && delivered(outcomes, at[k]),
        forall|k: int|
            0 <= k < at.len() ==> reached(subscribers, outcomes, n)[k] == subscribers[#[trigger] at[k]],
        forall|j: int, k: int| 0 <= j < k < at.len() ==> at[j] < at[k],
        forall|i: int| 0 <= i < n && delivered(outcomes, i) ==> at.contains(i),
    decreases n,
{
    if n == 0 {
        Seq::empty()
    } else {
        let before = law_reached_keeps_order(subscribers, outcomes, (n - 1) as nat);
        if delivered(outcomes, n - 1) {
            let at = before.push(n - 1);
            assert forall|i: int| 0 <= i < n && delivered(outcomes, i) implies at.contains(i) by {
                if i < n - 1 {
                    let k = choose|k: int| 0 <= k < before.len() && before[k] == i;
                    assert(at[k] == i);
                } else {
                    assert(at[before.len() as int] == i);
                }
            }
            at
        } else {
            before
        }
    }
}

/// Whether the host tried to send to the subscriber at position `i` of `len`
/// when it carried out `notify`, and failed.
pub open spec fn failed_to_reach(len: nat, notify: Notify, outcomes: Seq<bool>, i: int) -> bool {
    exists|k: int|
        0 <= k < recipients(len, notify).len() && #[trigger] recipients(len, notify)[k] == i
            && !delivered(outcomes, k)
}

/// A dead subscriber is dropped and nobody else: the subscribers that stay
/// after the host has carried out `notify` are those that it did not fail to
/// reach, in their old order. The result names the positions that stay.
pub proof fn law_settled_drops_the_unreached<C>(
    subscribers: Seq<C>,
    notify: Notify,
    outcomes: Seq<bool>,
) -> (at: Seq<int>)
    ensures
        at.len() == settled(subscribers, notify, outcomes).len(),
        forall|k: int|
            0 <= k < at.len() ==> 0 <= #[trigger] at[k] < subscribers.len() && settled(
                subscribers,
                notify,
                outcomes,
            )[k] == subscribers[at[k]],
        forall|j: int, k: int| 0 <= j < k < at.len() ==> at[j] < at[k],
        forall|i: int|
            0 <= i < subscribers.len() ==> (at.contains(i) <==> !failed_to_reach(
                subscribers.len(),
                notify,
                outcomes,
                i,
            )),
{
    let len = subscribers.len();
    let all = Seq::new(len, |i: int| i);
    match notify {
        Notify::Nobody => {
            assert forall|i: int| 0 <= i < len implies all.contains(i) by {
                assert(all[i] == i);
            }
            all
        },
        Notify::Newest => {
            if len > 0 && !delivered(outcomes, 0) {
                let at = Seq::new((len - 1) as nat, |i: int| i);
                assert(recipients(len, notify)[0] == len - 1);
                assert forall|i: int| 0 <= i < len - 1 implies at.contains(i) by {
                    assert(at[i] == i);
                }
                at
            } else {
                assert forall|i: int| 0 <= i < len implies all.contains(i) by {
                    assert(all[i] == i);
                }
                all
            }
        },
        Notify::Everyone => {
            let at = law_reached_keeps_order(subscribers, outcomes, len);
            assert forall|i: int| 0 <= i < len && !delivered(outcomes, i) implies failed_to_reach(
                len,
                notify,
                outcomes,
                i,
            ) by {
                assert(recipients(len, notify)[i] == i);
            }
            at
        },
    }
}

/// Drops the subscribers that a broadcast could not reach.
pub fn retain_reached<C>(subscribers: Vec<C>, outcomes: &Vec<bool>) -> (kept: Vec<C>)
    ensures
        kept@ == reached(subscribers@, outcomes@, subscribers@.len()),
{
    let mut kept: Vec<C> = Vec::new();
    let len: usize = subscribers.len();
    let mut i: usize = 0;
    for handle in it: subscribers
        invariant
            i == it.index(),
            it.seq() == subscribers@,
            len == subscribers@.len(),
            kept@ == reached(subscribers@, outcomes@, i as nat),
    {
        if i >= outcomes.len() || outcomes[i] {
            kept.push(handle);
        }
        i = i + 1;
    }
    kept
}

/// Drops the subscribers that the host could not reach when it carried out
/// `notify`.
pub fn settle<C>(subscribers: Vec<C>, notify: Notify, outcomes: &Vec<bool>) -> (kept: Vec<C>)
    ensures
        kept@ == settled(subscribers@, notify, outcomes@),
{
    match notify {
        Notify::Nobody => subscribers,
        Notify::Newest => {
            let mut subscribers = subscribers;
            if subscribers.len() > 0 && outcomes.len() > 0 && !outcomes[0] {
                subscribers.pop();
            }
            subscribers
        },
        Notify::Everyone => retain_reached(subscribers, outcomes),
    }
}

} // verus!
