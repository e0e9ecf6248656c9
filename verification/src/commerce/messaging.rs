//! A message bus: the topics subscribed to, and the notices an order's
//! delivery produces.
use vstd::prelude::*;

use crate::commerce::domain::Order;
use crate::text::{concat2, owned, str_eq};

verus! {

/// The text of each string, in order.
pub open spec fn texts(v: Seq<String>) -> Seq<Seq<char>> {
    v.map_values(|s: String| s@)
}

pub struct MessageBus {
    subscribers: Vec<String>,
}

impl View for MessageBus {
    type V = Seq<Seq<char>>;

    /// The subscribed topics, oldest first.
    closed spec fn view(&self) -> Seq<Seq<char>> {
        texts(self.subscribers@)
    }
}

impl MessageBus {
    pub fn new() -> (r: Self)
        ensures
            r@ == Seq::<Seq<char>>::empty(),
    {
        let r = Self { subscribers: Vec::new() };
        assert(r@ =~= Seq::<Seq<char>>::empty());
        r
    }

    /// Adds `topic` as the newest subscription.
    pub fn subscribe(&mut self, topic: &str)
        ensures
            final(self)@ == old(self)@.push(topic@),
    {
        self.subscribers.push(owned(topic));
        assert(self@ =~= old(self)@.push(topic@));
    }

    /// Removes every subscription to `topic`, keeping the others in order.
    pub fn unsubscribe(&mut self, topic: &str)
        ensures
            final(self)@ == old(self)@.filter(|s: Seq<char>| s != topic@),
    {
        let ghost all = texts(self.subscribers@);
        let mut kept: Vec<String> = Vec::new();
        let mut i: usize = 0;
        assert(all.take(0) =~= Seq::<Seq<char>>::empty());
        while i < self.subscribers.len()
            invariant
                i <= self.subscribers.len(),
                all == texts(self.subscribers@),
                texts(kept@) == all.take(i as int).filter(|s: Seq<char>| s != topic@),
            decreases self.subscribers.len() - i,
        {
            assert(all.take(i + 1).drop_last() =~= all.take(i as int));
            reveal(Seq::filter);
            assert(all.take(i + 1).last() == self.subscribers@[i as int]@);
            if !str_eq(self.subscribers[i].as_str(), topic) {
                kept.push(self.subscribers[i].clone());
                assert(texts(kept@) =~= all.take(i + 1).filter(|s: Seq<char>| s != topic@));
            } else {
                assert(texts(kept@) =~= all.take(i + 1).filter(|s: Seq<char>| s != topic@));
            }
            i += 1;
        }
        assert(all.take(self.subscribers.len() as int) =~= all);
        self.subscribers = kept;
    }
}

/// The notice a delivery of an order with id `id` produces.
pub open spec fn delivery_notice(id: Seq<char>) -> Seq<char> {
    "delivering order "@ + id
}

fn deliver(order: &Order) -> (r: String)
    ensures
        r@ == delivery_notice(order.id@),
{
    concat2("delivering order ", order.id.as_str())
}

/// Delivers `order` twice, once for each of two consumers, and gives the two
/// delivery notices.
pub fn publish_twice(order: Order) -> (r: Vec<String>)
    ensures
        texts(r@) == seq![delivery_notice(order.id@), delivery_notice(order.id@)],
{
    let mut r: Vec<String> = Vec::new();
    r.push(deliver(&order));
    r.push(deliver(&order));
    assert(texts(r@) =~= seq![delivery_notice(order.id@), delivery_notice(order.id@)]);
    r
}

} // verus!
