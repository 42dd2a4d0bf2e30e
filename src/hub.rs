use async_channel::{Receiver, Sender};
use vstd::prelude::*;

use crate::channel::{offer, open_channel, Delivery, Offer};
use crate::event::NodeEvent;

verus! {

/// The outcomes of a sequence of offers, in order.
pub open spec fn outcomes_of(offers: Seq<Offer>) -> Seq<Delivery> {
    offers.map_values(|o: Offer| o.outcome_view())
}

/// The consumers of `consumers` whose outcome in `outcomes` (same
/// positions) is not `Closed`, in their order.
pub open spec fn keep_open<T>(consumers: Seq<T>, outcomes: Seq<Delivery>) -> Seq<T>
    decreases consumers.len(),
{
    if consumers.len() == 0 || outcomes.len() == 0 {
        Seq::<T>::empty()
    } else {
        let rest = keep_open(consumers.drop_last(), outcomes.drop_last());
        if outcomes.last() == Delivery::Closed {
            rest
        } else {
            rest.push(consumers.last())
        }
    }
}

/// The channels of every consumer that asked for a live event feed.
pub struct EventHub {
    consumers: Vec<Sender<NodeEvent>>,
}

impl View for EventHub {
    type V = Seq<Sender<NodeEvent>>;

    closed spec fn view(&self) -> Seq<Sender<NodeEvent>> {
        self.consumers@
    }
}

impl EventHub {
    pub fn new() -> (r: EventHub)
        ensures
            r@ == Seq::<Sender<NodeEvent>>::empty(),
    {
        EventHub { consumers: Vec::new() }
    }

    /// The number of consumers currently listed.
    pub fn len(&self) -> (r: usize)
        ensures
            r == self@.len(),
    {
        self.consumers.len()
    }

    /// Opens a channel of `capacity` events, lists its sending side last
    /// and hands back its receiving side.
    pub fn subscribe(&mut self, capacity: usize) -> (r: Receiver<NodeEvent>)
        requires
            capacity > 0,
        ensures
            final(self)@.len() == old(self)@.len() + 1,
            final(self)@.drop_last() == old(self)@,
    {
        let (sender, receiver) = open_channel(capacity);
        self.consumers.push(sender);
        assert(self@.drop_last() =~= old(self)@);
        receiver
    }

    /// Offers `event` once to every listed consumer, without waiting, and
    /// then drops the consumers that turned out to be closed. The result
    /// holds the offer made to each consumer, in list order.
    pub fn broadcast(&mut self, event: &NodeEvent) -> (offers: Vec<Offer>)
        ensures
            offers@.len() == old(self)@.len(),
            forall|i: int|
                0 <= i < offers@.len() ==> #[trigger] offers@[i].sender_view() == old(self)@[i]
                    && offers@[i].event_view() == *event,
            final(self)@ == keep_open(old(self)@, outcomes_of(offers@)),
    {
        let n = self.consumers.len();
        let mut offers: Vec<Offer> = Vec::new();
        let mut i: usize = 0;
        while i < n
            invariant
                n == self.consumers.len(),
                self@ == old(self)@,
                0 <= i <= n,
                offers@.len() == i,
                forall|j: int|
                    0 <= j < i ==> #[trigger] offers@[j].sender_view() == old(self)@[j]
                        && offers@[j].event_view() == *event,
            decreases n - i,
        {
            let o = offer(&self.consumers[i], event);
            offers.push(o);
            i = i + 1;
        }
        let ghost outcomes = outcomes_of(offers@);
        let ghost all = self@;
        let mut j: usize = 0;
        let mut k: usize = 0;
        while j < n
            invariant
                n == all.len(),
                n == outcomes.len(),
                outcomes == outcomes_of(offers@),
                0 <= j <= n,
                k == keep_open(all.subrange(0, j as int), outcomes.subrange(0, j as int)).len(),
                self@ == keep_open(all.subrange(0, j as int), outcomes.subrange(0, j as int))
                    + all.subrange(j as int, n as int),
            decreases n - j,
        {
            let ghost kept = keep_open(all.subrange(0, j as int), outcomes.subrange(0, j as int));
            proof {
                assert(all.subrange(0, j + 1).drop_last() =~= all.subrange(0, j as int));
                assert(outcomes.subrange(0, j + 1).drop_last() =~= outcomes.subrange(0, j as int));
                assert(self@.len() == k + (n - j));
                assert(self@[k as int] == all[j as int]);
            }
            if offers[j].outcome() == Delivery::Closed {
                self.consumers.remove(k);
                assert(self@ =~= kept + all.subrange(j + 1, n as int));
            } else {
                assert(k < self.consumers.len());
                k = k + 1;
                assert(self@ =~= kept.push(all[j as int]) + all.subrange(j + 1, n as int));
            }
            j = j + 1;
        }
        assert(all.subrange(0, n as int) =~= all);
        assert(outcomes.subrange(0, n as int) =~= outcomes);
        assert(self@ =~= keep_open(all, outcomes));
        offers
    }
}

/// `keep_open` on a prefix extended by one position.
proof fn lemma_keep_open_step<T>(consumers: Seq<T>, outcomes: Seq<Delivery>, i: int)
    requires
        consumers.len() == outcomes.len(),
        0 <= i < consumers.len(),
    ensures
        keep_open(consumers.subrange(0, i + 1), outcomes.subrange(0, i + 1)) == if outcomes[i]
            == Delivery::Closed {
            keep_open(consumers.subrange(0, i), outcomes.subrange(0, i))
        } else {
            keep_open(consumers.subrange(0, i), outcomes.subrange(0, i)).push(consumers[i])
        },
{
    assert(consumers.subrange(0, i + 1).drop_last() =~= consumers.subrange(0, i));
    assert(outcomes.subrange(0, i + 1).drop_last() =~= outcomes.subrange(0, i));
}

/// `keep_open` on the first `i` positions, where only position `closed`
/// was found closed.
proof fn lemma_one_closed_prefix<T>(
    consumers: Seq<T>,
    outcomes: Seq<Delivery>,
    closed: int,
    i: int,
)
    requires
        consumers.len() == outcomes.len(),
        0 <= closed < consumers.len(),
        0 <= i <= consumers.len(),
        outcomes[closed] == Delivery::Closed,
        forall|j: int| 0 <= j < outcomes.len() && j != closed ==> outcomes[j] != Delivery::Closed,
    ensures
        keep_open(consumers.subrange(0, i), outcomes.subrange(0, i)) == if i <= closed {
            consumers.subrange(0, i)
        } else {
            consumers.subrange(0, i).remove(closed)
        },
    decreases i,
{
    if i == 0 {
        assert(consumers.subrange(0, 0) =~= Seq::<T>::empty());
    } else {
        let p = i - 1;
        lemma_one_closed_prefix(consumers, outcomes, closed, p);
        lemma_keep_open_step(consumers, outcomes, p);
        if p < closed {
            assert(consumers.subrange(0, p).push(consumers[p]) =~= consumers.subrange(0, i));
        } else if p == closed {
            assert(consumers.subrange(0, p) =~= consumers.subrange(0, i).remove(closed));
        } else {
            assert(consumers.subrange(0, p).remove(closed).push(consumers[p])
                =~= consumers.subrange(0, i).remove(closed));
        }
    }
}

/// Fan-out isolation: when one consumer is found closed and every other
/// one is not, a broadcast removes exactly that consumer; the others stay
/// listed, in their order.
pub proof fn lemma_one_closed_consumer<T>(consumers: Seq<T>, outcomes: Seq<Delivery>, closed: int)
    requires
        consumers.len() == outcomes.len(),
        0 <= closed < consumers.len(),
        outcomes[closed] == Delivery::Closed,
        forall|i: int| 0 <= i < outcomes.len() && i != closed ==> outcomes[i] != Delivery::Closed,
    ensures
        keep_open(consumers, outcomes) == consumers.remove(closed),
{
    let n = consumers.len() as int;
    lemma_one_closed_prefix(consumers, outcomes, closed, n);
    assert(consumers.subrange(0, n) =~= consumers);
    assert(outcomes.subrange(0, n) =~= outcomes);
}

/// A consumer that was not found closed stays listed: in particular the
/// last-listed one stays last.
pub proof fn lemma_open_consumer_stays<T>(consumers: Seq<T>, outcomes: Seq<Delivery>)
    requires
        consumers.len() == outcomes.len(),
        consumers.len() > 0,
        outcomes.last() != Delivery::Closed,
    ensures
        keep_open(consumers, outcomes).len() > 0,
        keep_open(consumers, outcomes).last() == consumers.last(),
{
}

} // verus!
