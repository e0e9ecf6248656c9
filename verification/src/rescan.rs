//! What a fresh scan of a file's problems changes: the problems are listed
//! in source order, and the selection follows the problem it was on.
use vstd::prelude::*;

use crate::protocol::{OwnershipProblem, Position};
use crate::teaching::opt_problem;
use crate::selection::{
    containing_choice, in_range, ownership_problem_index_at_position, reconciled_choice,
    reconciled_ownership_problem_index, same_target,
};
use crate::text::{lemma_seq_lt_total, lemma_seq_lt_transitive, seq_lt, str_eq, str_lt};

verus! {

broadcast use vstd::seq_lib::group_to_multiset_ensures;

/// `a` is listed before `b`: it starts earlier, or at the same place with a
/// smaller id.
pub open spec fn problem_before(a: OwnershipProblem, b: OwnershipProblem) -> bool {
    let (pa, pb) = (a.primary_range.start, b.primary_range.start);
    ||| pa.line < pb.line
    ||| pa.line == pb.line && pa.character < pb.character
    ||| pa.line == pb.line && pa.character == pb.character && seq_lt(a.id@, b.id@)
}

/// No problem is listed after one that follows it.
pub open spec fn in_source_order(ps: Seq<OwnershipProblem>) -> bool {
    forall|a: int, b: int| 0 <= a < b < ps.len() ==> !problem_before(#[trigger] ps[b], #[trigger] ps[a])
}

proof fn lemma_before_transitive(a: OwnershipProblem, b: OwnershipProblem, c: OwnershipProblem)
    requires
        problem_before(a, b),
        problem_before(b, c),
    ensures
        problem_before(a, c),
{
    let (pa, pb, pc) = (a.primary_range.start, b.primary_range.start, c.primary_range.start);
    if pa.line == pb.line && pb.line == pc.line && pa.character == pb.character && pb.character
        == pc.character {
        lemma_seq_lt_transitive(a.id@, b.id@, c.id@);
    }
}

proof fn lemma_before_asymmetric(a: OwnershipProblem, b: OwnershipProblem)
    ensures
        !(problem_before(a, b) && problem_before(b, a)),
{
    lemma_seq_lt_total(a.id@, b.id@);
}

fn listed_before(a: &OwnershipProblem, b: &OwnershipProblem) -> (r: bool)
    ensures
        r == problem_before(*a, *b),
{
    let (pa, pb) = (a.primary_range.start, b.primary_range.start);
    pa.line < pb.line || (pa.line == pb.line && pa.character < pb.character) || (pa.line
        == pb.line && pa.character == pb.character && str_lt(a.id.as_str(), b.id.as_str()))
}

/// Puts the problems in source order: by where their primary range starts,
/// then by id.
pub fn sort_problems(problems: &mut Vec<OwnershipProblem>)
    ensures
        in_source_order(final(problems)@),
        final(problems)@.to_multiset() == old(problems)@.to_multiset(),
{
    let ghost input = old(problems)@;
    let mut rest: Vec<OwnershipProblem> = Vec::new();
    std::mem::swap(&mut rest, problems);
    assert(rest@ == input);
    let n0 = rest.len();
    assert(n0 as int == input.len());
    let mut pending: Vec<OwnershipProblem> = Vec::new();
    assert(input.take(input.len() as int) =~= input);
    assert(input.skip(input.len() as int).reverse() =~= Seq::<OwnershipProblem>::empty());
    while rest.len() > 0
        invariant
            input.len() <= usize::MAX,
            rest.len() <= input.len(),
            rest@ == input.take(rest.len() as int),
            pending@ =~= input.skip(rest.len() as int).reverse(),
        decreases rest.len(),
    {
        let ghost l = rest.len() as int;
        let x = rest.pop().unwrap();
        pending.push(x);
        proof {
            assert(input.skip(l - 1) =~= seq![x] + input.skip(l));
            assert(input.skip(l - 1).reverse() =~= input.skip(l).reverse().push(x));
            assert(rest@ =~= input.take(l - 1));
        }
    }
    assert(input.skip(0) =~= input);
    assert(input.take(0) =~= Seq::<OwnershipProblem>::empty());
    let mut out: Vec<OwnershipProblem> = Vec::new();
    let mut taken: usize = 0;
    while pending.len() > 0
        invariant
            input.len() <= usize::MAX,
            taken + pending.len() == input.len(),
            pending@ =~= input.skip(taken as int).reverse(),
            out@.to_multiset() == input.take(taken as int).to_multiset(),
            in_source_order(out@),
        decreases pending.len(),
    {
        let x = pending.pop().unwrap();
        proof {
            assert(input.skip(taken as int).reverse().last() == input.skip(taken as int)[0]);
            assert(x == input[taken as int]);
            assert(pending@ =~= input.skip(taken + 1).reverse()) by {
                assert(input.skip(taken as int) =~= seq![x] + input.skip(taken + 1));
            }
        }
        let mut pos: usize = 0;
        while pos < out.len() && !listed_before(&x, &out[pos])
            invariant
                pos <= out.len(),
                forall|c: int| 0 <= c < pos ==> !problem_before(x, #[trigger] out@[c]),
            decreases out.len() - pos,
        {
            pos += 1;
        }
        let ghost before = out@;
        proof {
            assert forall|a: int, b: int|
                0 <= a < b < before.insert(pos as int, x).len() implies !problem_before(
                #[trigger] before.insert(pos as int, x)[b],
                #[trigger] before.insert(pos as int, x)[a],
            ) by {
                let n = before.insert(pos as int, x);
                if b < pos {
                } else if b == pos {
                } else if a < pos {
                    assert(n[b] == before[b - 1]);
                    if problem_before(n[b], n[a]) {
                        // n[a] is not after x, x is before before[pos], which n[b] does not precede
                        lemma_before_asymmetric(x, before[pos as int]);
                        if b - 1 > pos {
                            if problem_before(before[b - 1], x) {
                                lemma_before_transitive(before[b - 1], x, before[pos as int]);
                            }
                        }
                        if !problem_before(before[b - 1], x) {
                            lemma_before_total_split(n[b], n[a], x);
                        }
                    }
                } else if a == pos {
                    assert(n[b] == before[b - 1]);
                    if b - 1 > pos && problem_before(before[b - 1], x) {
                        lemma_before_transitive(before[b - 1], x, before[pos as int]);
                    }
                    if b - 1 == pos {
                        lemma_before_asymmetric(x, before[pos as int]);
                    }
                } else {
                    assert(n[a] == before[a - 1] && n[b] == before[b - 1]);
                }
            }
        }
        out.insert(pos, x);
        proof {
            assert(input.take(taken + 1) =~= input.take(taken as int).push(x));
        }
        taken += 1;
    }
    assert(input.take(input.len() as int) =~= input);
    *problems = out;
}

/// Whatever comes before `a` comes before any `x` that `a` does not follow.
proof fn lemma_before_total_split(b: OwnershipProblem, a: OwnershipProblem, x: OwnershipProblem)
    requires
        problem_before(b, a),
        !problem_before(x, a),
    ensures
        problem_before(b, x),
{
    let (pa, pb, px) = (a.primary_range.start, b.primary_range.start, x.primary_range.start);
    lemma_seq_lt_total(a.id@, x.id@);
    if pb.line == pa.line && pa.line == px.line && pb.character == pa.character && pa.character
        == px.character {
        if a.id@ == x.id@ {
        } else {
            lemma_seq_lt_transitive(b.id@, a.id@, x.id@);
        }
    }
}

/// The first problem at or after `i` whose id is `id`.
pub open spec fn first_with_id(problems: Seq<OwnershipProblem>, id: Seq<char>, i: int) -> Option<int>
    decreases problems.len() - i,
{
    if i < 0 || i >= problems.len() {
        None
    } else if problems[i].id@ == id {
        Some(i)
    } else {
        first_with_id(problems, id, i + 1)
    }
}

/// The first of the candidates that exists: the problem with the previously
/// selected id, the one that continues the previous problem, the one under
/// the cursor, the first problem.
pub open spec fn rescan_choice(
    by_id: Option<int>,
    continued: Option<usize>,
    under_cursor: Option<usize>,
    count: nat,
) -> Option<int> {
    if by_id is Some {
        by_id
    } else if continued is Some {
        Some(continued->0 as int)
    } else if under_cursor is Some {
        Some(under_cursor->0 as int)
    } else if count > 0 {
        Some(0)
    } else {
        None
    }
}

fn index_of_id(problems: &Vec<OwnershipProblem>, id: &str) -> (r: Option<usize>)
    ensures
        match r {
            Some(i) => i < problems.len() && first_with_id(problems@, id@, 0) == Some(i as int),
            None => first_with_id(problems@, id@, 0) is None,
        },
{
    let mut i: usize = 0;
    while i < problems.len()
        invariant
            i <= problems.len(),
            first_with_id(problems@, id@, 0) == first_with_id(problems@, id@, i as int),
        decreases problems.len() - i,
    {
        if str_eq(problems[i].id.as_str(), id) {
            return Some(i);
        }
        i += 1;
    }
    None
}

/// The text of an optional string slice.
pub open spec fn opt_str(s: Option<&str>) -> Option<Seq<char>> {
    match s {
        Some(t) => Some(t@),
        None => None,
    }
}

/// `r` is the selection after a rescan, given what the previous problem
/// continues as and which problem the cursor is in.
pub open spec fn rescan_picks(
    problems: Seq<OwnershipProblem>,
    previous_id: Option<Seq<char>>,
    previous: Option<OwnershipProblem>,
    cursor: Option<Position>,
    continued: Option<usize>,
    under_cursor: Option<usize>,
    r: Option<usize>,
) -> bool {
    &&& match previous {
        Some(p) => reconciled_choice(p, problems, continued),
        None => continued is None,
    }
    &&& match cursor {
        Some(c) => containing_choice(problems, c, under_cursor),
        None => under_cursor is None,
    }
    &&& r matches Some(i) ==> i < problems.len()
    &&& match r {
        Some(i) => Some(i as int),
        None => None,
    } == rescan_choice(
        match previous_id {
            Some(id) => first_with_id(problems, id, 0),
            None => None,
        },
        continued,
        under_cursor,
        problems.len(),
    )
}

/// The problem selected after a rescan.
pub fn rescanned_selection(
    problems: &Vec<OwnershipProblem>,
    previous_id: Option<&str>,
    previous: Option<&OwnershipProblem>,
    cursor: Option<Position>,
) -> (r: Option<usize>)
    ensures
        exists|continued: Option<usize>, under_cursor: Option<usize>|
            #[trigger] rescan_picks(
                problems@,
                opt_str(previous_id),
                opt_problem(previous),
                cursor,
                continued,
                under_cursor,
                r,
            ),
{
    let by_id = match previous_id {
        Some(id) => index_of_id(problems, id),
        None => None,
    };
    let continued = match previous {
        Some(p) => reconciled_ownership_problem_index(p, problems),
        None => None,
    };
    let under_cursor = match cursor {
        Some(c) => ownership_problem_index_at_position(problems, c),
        None => None,
    };
    let r = if by_id.is_some() {
        by_id
    } else if continued.is_some() {
        continued
    } else if under_cursor.is_some() {
        under_cursor
    } else if problems.len() > 0 {
        Some(0)
    } else {
        None
    };
    assert(rescan_picks(
        problems@,
        opt_str(previous_id),
        opt_problem(previous),
        cursor,
        continued,
        under_cursor,
        r,
    ));
    r
}

proof fn lemma_first_with_id(problems: Seq<OwnershipProblem>, id: Seq<char>, i: int)
    requires
        0 <= i,
    ensures
        first_with_id(problems, id, i) matches Some(k) ==> i <= k < problems.len() && problems[k].id@
            == id && forall|j: int| i <= j < k ==> problems[j].id@ != id,
        first_with_id(problems, id, i) is None ==> forall|j: int|
            i <= j < problems.len() ==> problems[j].id@ != id,
    decreases problems.len() - i,
{
    if i < problems.len() && problems[i].id@ != id {
        lemma_first_with_id(problems, id, i + 1);
    }
}

/// After a rescan the selection stays with the problem it was on:
/// - the first problem that keeps the previously selected id is selected;
/// - else, when a problem continues the previous one (same category,
///   binding and code), the continuing problem is selected, whatever the
///   cursor is on;
/// - else the problem under the cursor is selected;
/// - else the first problem, and nothing when there are none.
pub proof fn rescan_keeps_the_selected_problem(
    problems: Seq<OwnershipProblem>,
    previous_id: Option<Seq<char>>,
    previous: Option<OwnershipProblem>,
    cursor: Option<Position>,
    continued: Option<usize>,
    under_cursor: Option<usize>,
    r: Option<usize>,
)
    requires
        rescan_picks(problems, previous_id, previous, cursor, continued, under_cursor, r),
    ensures
        ({
            let id_kept = previous_id matches Some(id) && exists|i: int|
                0 <= i < problems.len() && #[trigger] problems[i].id@ == id;
            let continues = previous matches Some(p) && exists|i: int|
                0 <= i < problems.len() && same_target(#[trigger] problems[i], p);
            let under = cursor matches Some(c) && exists|i: int|
                0 <= i < problems.len() && in_range(c, #[trigger] problems[i].primary_range);
            &&& id_kept ==> (r matches Some(k) && k < problems.len() && problems[k as int].id@
                == previous_id->0 && forall|j: int| 0 <= j < k ==> problems[j].id@ != previous_id->0)
            &&& (!id_kept && continues) ==> (r matches Some(k) && k < problems.len() && same_target(
                problems[k as int],
                previous->0,
            ) && r == continued)
            &&& (!id_kept && !continues && under) ==> (r matches Some(k) && k < problems.len()
                && in_range(cursor->0, problems[k as int].primary_range) && r == under_cursor)
            &&& (!id_kept && !continues && !under) ==> r == (if problems.len() > 0 {
                Some(0usize)
            } else {
                None
            })
        }),
{
    if let Some(id) = previous_id {
        lemma_first_with_id(problems, id, 0);
    }
}

} // verus!
