//! Ordering scene items by their ids: sorted by id, one item per id, the
//! earliest of the items that share it.
use vstd::prelude::*;

use crate::text::{
    lemma_seq_lt_irreflexive, lemma_seq_lt_total, lemma_seq_lt_transitive, seq_lt, str_eq,
    str_lt,
};
use crate::topology::{TopologyEdge, TopologyNode};

verus! {

/// Something filed under a text id.
pub trait Keyed {
    spec fn key(&self) -> Seq<char>;

    fn key_str(&self) -> (r: &str)
        ensures
            r@ == self.key(),
    ;
}

impl Keyed for TopologyNode {
    open spec fn key(&self) -> Seq<char> {
        self.id@
    }

    fn key_str(&self) -> (r: &str) {
        self.id.as_str()
    }
}

impl Keyed for TopologyEdge {
    open spec fn key(&self) -> Seq<char> {
        self.id@
    }

    fn key_str(&self) -> (r: &str) {
        self.id.as_str()
    }
}

/// The ids of the items, in order.
pub open spec fn keys<T: Keyed>(items: Seq<T>) -> Seq<Seq<char>> {
    items.map_values(|x: T| x.key())
}

/// Ids strictly increase along the sequence.
pub open spec fn strictly_sorted(ks: Seq<Seq<char>>) -> bool {
    forall|a: int, b: int| 0 <= a < b < ks.len() ==> seq_lt(#[trigger] ks[a], #[trigger] ks[b])
}

/// No item before position `i` has the id of the item at `i`.
pub open spec fn is_first_occurrence<T: Keyed>(items: Seq<T>, i: int) -> bool {
    forall|j: int| 0 <= j < i ==> #[trigger] items[j].key() != items[i].key()
}

/// `x` is the first item of `items` with its id.
pub open spec fn first_of_its_key<T: Keyed>(items: Seq<T>, x: T) -> bool {
    exists|i: int| 0 <= i < items.len() && items[i] == x && #[trigger] is_first_occurrence(items, i)
}

/// `out` holds, sorted by id, exactly one item for each id of `items`:
/// the first item of `items` with that id.
pub open spec fn sorted_firsts<T: Keyed>(items: Seq<T>, out: Seq<T>) -> bool {
    &&& strictly_sorted(keys(out))
    &&& forall|i: int| 0 <= i < items.len() ==> keys(out).contains(#[trigger] items[i].key())
    &&& forall|o: int| 0 <= o < out.len() ==> first_of_its_key(items, #[trigger] out[o])
}

pub proof fn lemma_sorted_insert(ks: Seq<Seq<char>>, pos: int, k: Seq<char>)
    requires
        strictly_sorted(ks),
        0 <= pos <= ks.len(),
        forall|c: int| 0 <= c < pos ==> seq_lt(#[trigger] ks[c], k),
        pos < ks.len() ==> seq_lt(k, ks[pos]),
    ensures
        strictly_sorted(ks.insert(pos, k)),
{
    let n = ks.insert(pos, k);
    assert forall|a: int, b: int| 0 <= a < b < n.len() implies seq_lt(#[trigger] n[a], #[trigger] n[b]) by {
        if b < pos {
        } else if b == pos {
        } else if a < pos {
            assert(n[b] == ks[b - 1]);
            if b - 1 > pos {
                lemma_seq_lt_transitive(n[a], k, ks[pos]);
                lemma_seq_lt_transitive(n[a], ks[pos], ks[b - 1]);
            } else {
                lemma_seq_lt_transitive(n[a], k, ks[pos]);
            }
        } else if a == pos {
            assert(n[b] == ks[b - 1]);
            if b - 1 > pos {
                lemma_seq_lt_transitive(k, ks[pos], ks[b - 1]);
            }
        } else {
            assert(n[a] == ks[a - 1] && n[b] == ks[b - 1]);
        }
    }
}

/// The items sorted by id, keeping only the first item of each id.
pub fn sorted_by_key_first<T: Keyed>(items: Vec<T>) -> (r: Vec<T>)
    ensures
        sorted_firsts(items@, r@),
{
    let ghost input = items@;
    let mut rest = items;
    let mut out: Vec<T> = Vec::new();
    let mut taken: usize = 0;
    let ghost mut src: Seq<int> = Seq::empty();
    // process in input order: reverse once, then pop from the back
    let mut reversed: Vec<T> = Vec::new();
    assert(input.take(input.len() as int) =~= input);
    assert(input.skip(input.len() as int).reverse() =~= Seq::<T>::empty());
    while rest.len() > 0
        invariant
            rest.len() <= input.len(),
            rest@ == input.take(rest.len() as int),
            reversed@ =~= input.skip(rest.len() as int).reverse(),
        decreases rest.len(),
    {
        let ghost l = rest.len() as int;
        let x = rest.pop().unwrap();
        reversed.push(x);
        proof {
            assert(x == input[l - 1]);
            assert(input.skip(l - 1) =~= seq![x] + input.skip(l));
            assert(input.skip(l - 1).reverse() =~= input.skip(l).reverse().push(x));
            assert(rest@ =~= input.take(l - 1));
        }
    }
    assert(input.skip(0) =~= input);
    assert(reversed@ =~= input.reverse());
    assert(input.reverse().take(input.len() as int) =~= input.reverse());
    while reversed.len() > 0
        invariant
            input.len() <= usize::MAX,
            taken + reversed.len() == input.len(),
            reversed@ =~= input.reverse().take(reversed.len() as int),
            strictly_sorted(keys(out@)),
            src.len() == out.len(),
            forall|i: int| 0 <= i < taken ==> keys(out@).contains(#[trigger] input[i].key()),
            forall|o: int|
                0 <= o < out.len() ==> 0 <= #[trigger] src[o] < taken && input[src[o]] == out@[o]
                    && is_first_occurrence(input, src[o]),
        decreases reversed.len(),
    {
        let x = reversed.pop().unwrap();
        let ghost i = taken as int;
        proof {
            assert(input.reverse().take((reversed.len() + 1) as int).last() == x);
            assert(x == input[i]);
        }
        let mut pos: usize = 0;
        while pos < out.len() && str_lt(out[pos].key_str(), x.key_str())
            invariant
                pos <= out.len(),
                forall|c: int| 0 <= c < pos ==> seq_lt(#[trigger] keys(out@)[c], x.key()),
            decreases out.len() - pos,
        {
            pos += 1;
        }
        if pos < out.len() && str_eq(out[pos].key_str(), x.key_str()) {
            proof {
                assert(keys(out@)[pos as int] == x.key());
                assert(keys(out@).contains(input[i].key()));
            }
        } else {
            let ghost before = out@;
            let ghost before_src = src;
            proof {
                if pos < out.len() {
                    lemma_seq_lt_total(x.key(), keys(out@)[pos as int]);
                }
                lemma_sorted_insert(keys(out@), pos as int, x.key());
                assert forall|j: int| 0 <= j < i implies #[trigger] input[j].key() != x.key() by {
                    if input[j].key() == x.key() {
                        let w = choose|w: int| 0 <= w < before.len() && keys(before)[w] == input[j].key();
                        if w < pos {
                            lemma_seq_lt_irreflexive(x.key());
                        } else if w == pos {
                        } else {
                            lemma_seq_lt_transitive(x.key(), keys(before)[pos as int], keys(before)[w]);
                            lemma_seq_lt_irreflexive(x.key());
                        }
                    }
                }
            }
            out.insert(pos, x);
            proof {
                src = before_src.insert(pos as int, i);
                assert(keys(out@) =~= keys(before).insert(pos as int, input[i].key()));
                assert(keys(out@)[pos as int] == input[i].key());
                assert forall|t: int| 0 <= t < i + 1 implies keys(out@).contains(#[trigger] input[t].key()) by {
                    if t < i {
                        let w = choose|w: int| 0 <= w < before.len() && keys(before)[w] == input[t].key();
                        if w < pos {
                            assert(keys(out@)[w] == keys(before)[w]);
                        } else {
                            assert(keys(out@)[w + 1] == keys(before)[w]);
                        }
                    }
                }
                assert forall|o: int| 0 <= o < out.len() implies 0 <= #[trigger] src[o] < i + 1
                    && input[src[o]] == out@[o] && is_first_occurrence(input, src[o]) by {
                    if o < pos {
                        assert(src[o] == before_src[o] && out@[o] == before[o]);
                    } else if o > pos {
                        assert(src[o] == before_src[o - 1] && out@[o] == before[o - 1]);
                    }
                }
            }
        }
        taken += 1;
    }
    proof {
        assert forall|o: int| 0 <= o < out.len() implies first_of_its_key(input, #[trigger] out@[o]) by {
            assert(input[src[o]] == out@[o] && is_first_occurrence(input, src[o]));
        }
    }
    out
}


/// Keeping the first item of each id keeps as many items as there are ids.
pub proof fn lemma_sorted_firsts_count<T: Keyed>(items: Seq<T>, out: Seq<T>)
    requires
        sorted_firsts(items, out),
    ensures
        out.len() == keys(items).to_set().len(),
{
    let ko = keys(out);
    let ki = keys(items);
    assert(ko.no_duplicates()) by {
        assert forall|a: int, b: int| 0 <= a < ko.len() && 0 <= b < ko.len() && a != b implies ko[a] != ko[b] by {
            if a < b {
                assert(seq_lt(ko[a], ko[b]));
                lemma_seq_lt_irreflexive(ko[a]);
            } else {
                assert(seq_lt(ko[b], ko[a]));
                lemma_seq_lt_irreflexive(ko[b]);
            }
        }
    }
    assert(ko.to_set() =~= ki.to_set()) by {
        assert forall|x: Seq<char>| ko.to_set().contains(x) implies ki.to_set().contains(x) by {
            let o = choose|o: int| 0 <= o < ko.len() && ko[o] == x;
            assert(first_of_its_key(items, out[o]));
            let i = choose|i: int| 0 <= i < items.len() && items[i] == out[o] && #[trigger] is_first_occurrence(items, i);
            assert(ki[i] == x);
        }
        assert forall|x: Seq<char>| ki.to_set().contains(x) implies ko.to_set().contains(x) by {
            let i = choose|i: int| 0 <= i < ki.len() && ki[i] == x;
            assert(ko.contains(items[i].key()));
        }
    }
    ko.unique_seq_to_set();
}

} // verus!
