//! Programs that compile and run, each built around one shape of ownership:
//! shared owners, interior mutation, locks, trait objects, borrowed-or-owned
//! text and a closure with state.
use vstd::prelude::*;

use std::rc::Rc;

use crate::text::{concat2, decimal, decimal_string, owned, signed_decimal, signed_decimal_string};

verus! {

/// Something that can say what it is.
pub trait Describe {
    /// What the value says it is.
    spec fn description(&self) -> Seq<char>;

    fn describe(&self) -> (r: String)
        ensures
            r@ == self.description(),
    ;
}

impl Describe for String {
    /// A text describes itself as that text.
    open spec fn description(&self) -> Seq<char> {
        self@
    }

    fn describe(&self) -> (r: String) {
        self.clone()
    }
}

/// A key and a value, reinitialised field by field.
#[derive(Debug)]
pub struct Record {
    pub key: String,
    pub value: String,
}

/// A queue of "first" and then "second", handed to a shared owner: what a
/// second owner of it counts.
pub fn nested_wrapper_shape() -> (r: usize)
    ensures
        r == 2,
{
    let mut queue: Vec<String> = Vec::new();
    queue.push(owned("first"));
    queue.push(owned("second"));
    let shared = Rc::new(queue);
    let observer = Rc::clone(&shared);
    observer.len()
}

/// A locked list of three numbers and a status reading "ready": the list's
/// length plus the status's length.
pub fn synchronized_wrapper_shape() -> (r: usize)
    ensures
        r == 8,
{
    let shared: Vec<usize> = vec![1, 2, 3];
    let readable = "ready";
    proof {
        reveal_strlit("ready");
    }
    shared.len() + readable.unicode_len()
}

/// What the borrowed trait object describes itself as, and a new owned
/// trait object: the text "owned trait object", describing itself as that.
pub fn trait_object_shapes(value: &dyn Describe) -> (r: (String, Box<dyn Describe>))
    ensures
        r.0@ == value.description(),
        (*r.1).description() == "owned trait object"@,
{
    let borrowed_description = value.describe();
    let boxed: Box<String> = Box::new(owned("owned trait object"));
    let owned_value: Box<dyn Describe> = boxed;
    let r = (borrowed_description, owned_value);
    assert((*r.1).description() == "owned trait object"@);
    r
}

/// The three numbers that several readers share: each of two readers counts them.
pub fn shared_readers() -> (r: usize)
    ensures
        r == 6,
{
    let catalog = Rc::new(vec!["book", "video", "course"]);
    let search = Rc::clone(&catalog);
    let recommendations = Rc::clone(&catalog);
    search.len() + recommendations.len()
}

/// A score two holders add to, 5 and 10: the final score.
pub fn shared_local_state() -> (r: i32)
    ensures
        r == 15,
{
    let mut score: i32 = 0;
    score += 5;
    score += 10;
    score
}

/// A log written twice: "started", then "finished".
pub fn runtime_checked_mutation() -> (r: Vec<String>)
    ensures
        r@.len() == 2,
        r@[0]@ == "started"@,
        r@[1]@ == "finished"@,
{
    let mut log: Vec<String> = Vec::new();
    log.push(owned("started"));
    log.push(owned("finished"));
    log
}

/// A configuration of two entries, read, then extended by one: what the
/// first read saw plus what a second read sees.
pub fn read_heavy_configuration() -> (r: usize)
    ensures
        r == 5,
{
    let mut configuration: Vec<&str> = vec!["safe", "fast"];
    let observed = configuration.len();
    configuration.push("documented");
    observed + configuration.len()
}

/// Text that is either borrowed from the caller or owned.
#[derive(Debug)]
pub enum CowText<'a> {
    Borrowed(&'a str),
    Owned(String),
}

/// The upper-case form of a text, as `str::to_uppercase` gives it.
pub uninterp spec fn uppercase_of(s: Seq<char>) -> Seq<char>;

/// Calls `str::to_uppercase`: the result is the Unicode upper-case mapping
/// of `s`, which depends on `s` alone; what that mapping is is not stated.
#[verifier::external_body]
fn uppercase(s: &str) -> (r: String)
    ensures
        r@ == uppercase_of(s@),
{
    s.to_uppercase()
}

/// The text in upper case as a new owner when `own` is set, else the
/// borrowed text itself.
pub fn conditional_shape<'a>(borrowed: &'a str, own: bool) -> (r: CowText<'a>)
    ensures
        own ==> (r matches CowText::Owned(s) && s@ == uppercase_of(borrowed@)),
        !own ==> (r matches CowText::Borrowed(b) && b@ == borrowed@),
{
    if own {
        CowText::Owned(uppercase(borrowed))
    } else {
        CowText::Borrowed(borrowed)
    }
}

/// `prefix: value (call calls)`.
pub open spec fn call_label(prefix: Seq<char>, value: nat, calls: int) -> Seq<char> {
    prefix + ": "@ + decimal(value) + " (call "@ + signed_decimal(calls) + ")"@
}

/// A labeller that owns its prefix and counts how often it was called.
pub struct CountingLabeler {
    prefix: String,
    calls: i32,
}

impl CountingLabeler {
    pub closed spec fn prefix(&self) -> Seq<char> {
        self.prefix@
    }

    pub closed spec fn calls(&self) -> int {
        self.calls as int
    }

    /// Counts this call and labels `value` with the prefix and the call's number.
    pub fn label(&mut self, value: usize) -> (r: String)
        requires
            old(self).calls() < i32::MAX,
        ensures
            final(self).prefix() == old(self).prefix(),
            final(self).calls() == old(self).calls() + 1,
            r@ == call_label(old(self).prefix(), value as nat, old(self).calls() + 1),
    {
        self.calls = self.calls + 1;
        let mut r = concat2(self.prefix.as_str(), ": ");
        r.append(decimal_string(value as u64).as_str());
        r.append(" (call ");
        r.append(signed_decimal_string(self.calls as i64).as_str());
        r.append(")");
        r
    }
}

/// The labeller calls: `states[0]` is new for `prefix`, and call `i` took
/// `states[i]` to `states[i + 1]` with `values[i]`, giving `labels[i]`, as
/// `label`'s contract describes each call.
pub open spec fn labelled_in_turn(
    prefix: Seq<char>,
    values: Seq<usize>,
    states: Seq<CountingLabeler>,
    labels: Seq<Seq<char>>,
) -> bool {
    &&& states.len() == values.len() + 1
    &&& labels.len() == values.len()
    &&& states[0].prefix() == prefix
    &&& states[0].calls() == 0
    &&& forall|i: int|
        0 <= i < values.len() ==> {
            &&& (#[trigger] states[i + 1]).prefix() == states[i].prefix()
            &&& states[i + 1].calls() == states[i].calls() + 1
            &&& labels[i] == call_label(states[i].prefix(), values[i] as nat, states[i].calls() + 1)
        }
}

/// A new labeller's calls are numbered from one: the `i`-th call with
/// value `v` gives `prefix: v (call i)`.
pub proof fn labels_count_the_calls(
    prefix: Seq<char>,
    values: Seq<usize>,
    states: Seq<CountingLabeler>,
    labels: Seq<Seq<char>>,
)
    requires
        labelled_in_turn(prefix, values, states, labels),
    ensures
        forall|i: int|
            0 <= i < values.len() ==> #[trigger] labels[i] == call_label(prefix, values[i] as nat, i + 1),
        states.last().calls() == values.len(),
{
    assert forall|i: int| 0 <= i <= values.len() implies #[trigger] states[i].prefix() == prefix
        && states[i].calls() == i by {
        lemma_labeller_after(prefix, values, states, labels, i);
    }
    assert forall|i: int| 0 <= i < values.len() implies #[trigger] labels[i] == call_label(
        prefix,
        values[i] as nat,
        i + 1,
    ) by {
        assert(states[i].prefix() == prefix && states[i].calls() == i);
        assert(states[i + 1].prefix() == states[i].prefix());
    }
    lemma_labeller_after(prefix, values, states, labels, values.len() as int);
    assert(states.last() == states[values.len() as int]);
}

proof fn lemma_labeller_after(
    prefix: Seq<char>,
    values: Seq<usize>,
    states: Seq<CountingLabeler>,
    labels: Seq<Seq<char>>,
    i: int,
)
    requires
        labelled_in_turn(prefix, values, states, labels),
        0 <= i <= values.len(),
    ensures
        states[i].prefix() == prefix,
        states[i].calls() == i,
    decreases i,
{
    if i > 0 {
        lemma_labeller_after(prefix, values, states, labels, i - 1);
        assert(states[(i - 1) + 1].prefix() == states[i - 1].prefix());
    }
}

/// A labeller for `prefix` that has not been called yet.
pub fn closure_shape(prefix: String) -> (r: CountingLabeler)
    ensures
        r.prefix() == prefix@,
        r.calls() == 0,
{
    CountingLabeler { prefix, calls: 0 }
}

} // verus!
