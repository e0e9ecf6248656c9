//! Analytics: one event per tracked order.
use vstd::prelude::*;

use crate::commerce::domain::{lines_total, totals_fit, Order};
use crate::commerce::messaging::texts;
use crate::text::{chars_of, concat2, owned, signed_decimal, signed_decimal_string, string_from_chars};

verus! {

/// The event recorded for an order: `order:`, its id, `:` and its total in cents.
pub open spec fn order_event(id: Seq<char>, total_cents: int) -> Seq<char> {
    "order:"@ + id + ":"@ + signed_decimal(total_cents)
}

/// The category of an event: its text before the first colon, all of it
/// when it has none.
pub open spec fn event_category(event: Seq<char>) -> Seq<char>
    decreases event.len(),
{
    if event.len() == 0 || event[0] == ':' {
        Seq::empty()
    } else {
        seq![event[0]] + event_category(event.drop_first())
    }
}

proof fn lemma_category_skip(event: Seq<char>, i: int)
    requires
        0 <= i <= event.len(),
        forall|k: int| 0 <= k < i ==> event[k] != ':',
    ensures
        event_category(event) == event.take(i) + event_category(event.skip(i)),
    decreases i,
{
    if i == 0 {
        assert(event.skip(0) =~= event);
        assert(event.take(0) + event_category(event) =~= event_category(event));
    } else {
        let rest = event.drop_first();
        assert forall|k: int| 0 <= k < i - 1 implies rest[k] != ':' by {
            assert(rest[k] == event[k + 1]);
        }
        lemma_category_skip(rest, i - 1);
        assert(rest.skip(i - 1) =~= event.skip(i));
        assert(seq![event[0]] + rest.take(i - 1) =~= event.take(i));
        assert(event_category(event) == seq![event[0]] + event_category(rest));
        assert(seq![event[0]] + (rest.take(i - 1) + event_category(rest.skip(i - 1))) =~= event.take(i)
            + event_category(event.skip(i)));
    }
}

/// The category of `event`.
fn category_of(event: &str) -> (r: String)
    ensures
        r@ == event_category(event@),
{
    let chars = chars_of(event);
    let mut out: Vec<char> = Vec::new();
    let mut i: usize = 0;
    while i < chars.len() && chars[i] != ':'
        invariant
            chars@ == event@,
            i <= chars.len(),
            out@ == event@.take(i as int),
            forall|k: int| 0 <= k < i ==> event@[k] != ':',
        decreases chars.len() - i,
    {
        out.push(chars[i]);
        assert(event@.take(i + 1) =~= event@.take(i as int).push(chars@[i as int]));
        i += 1;
    }
    proof {
        lemma_category_skip(event@, i as int);
        if i < chars.len() {
            assert(event@.skip(i as int)[0] == ':');
        } else {
            assert(event@.skip(i as int).len() == 0);
        }
        assert(event@.take(i as int) + Seq::<char>::empty() =~= event@.take(i as int));
    }
    string_from_chars(&out)
}

pub struct Analytics {
    events: Vec<String>,
}

impl View for Analytics {
    type V = Seq<Seq<char>>;

    /// The recorded events, oldest first.
    closed spec fn view(&self) -> Seq<Seq<char>> {
        texts(self.events@)
    }
}

impl Analytics {
    pub fn new() -> (r: Self)
        ensures
            r@ == Seq::<Seq<char>>::empty(),
    {
        let r = Self { events: Vec::new() };
        assert(r@ =~= Seq::<Seq<char>>::empty());
        r
    }

    /// Records the event for `order`.
    pub fn track_order(&mut self, order: &Order)
        requires
            totals_fit(order.lines@),
        ensures
            final(self)@ == old(self)@.push(order_event(order.id@, lines_total(order.lines@))),
    {
        let head = concat2("order:", order.id.as_str());
        let mut event = concat2(head.as_str(), ":");
        let total = signed_decimal_string(order.total().cents());
        event.append(total.as_str());
        self.events.push(event);
        assert(self@ =~= old(self)@.push(order_event(order.id@, lines_total(order.lines@))));
    }

    /// Records the latest event once more and gives back its text.
    pub fn duplicate_latest(&mut self) -> (r: String)
        requires
            old(self)@.len() > 0,
        ensures
            final(self)@ == old(self)@.push(old(self)@.last()),
            r@ == old(self)@.last(),
    {
        let latest = owned(self.events[self.events.len() - 1].as_str());
        self.events.push(owned(latest.as_str()));
        assert(self@ =~= old(self)@.push(old(self)@.last()));
        latest
    }

    /// Replaces the latest event by `redacted` and gives back the category
    /// the event had.
    pub fn redact_latest(&mut self) -> (r: String)
        requires
            old(self)@.len() > 0,
        ensures
            final(self)@ == old(self)@.update(old(self)@.len() - 1, "redacted"@),
            r@ == event_category(old(self)@.last()),
    {
        let last = self.events.len() - 1;
        let category = category_of(self.events[last].as_str());
        self.events.set(last, owned("redacted"));
        assert(self@ =~= old(self)@.update(old(self)@.len() - 1, "redacted"@));
        category
    }

    /// Forgets every recorded event.
    pub fn clear_history(&mut self)
        ensures
            final(self)@ == Seq::<Seq<char>>::empty(),
    {
        self.events.clear();
        assert(self@ =~= Seq::<Seq<char>>::empty());
    }
}

} // verus!
