//! Which ownership problem the workbench shows: cursor containment, cursor
//! distance, rescan reconciliation and keyboard navigation between problems.
use vstd::prelude::*;

use crate::protocol::{OwnershipProblem, Position, Range};
use crate::text::{opt_str_eq, opt_text};

verus! {

/// `left` comes strictly before `right` in document order.
pub open spec fn pos_lt(left: Position, right: Position) -> bool {
    left.line < right.line || (left.line == right.line && left.character < right.character)
}

/// `position` lies inside `range`, both ends included.
pub open spec fn in_range(position: Position, range: Range) -> bool {
    !pos_lt(position, range.start) && !pos_lt(range.end, position)
}

/// Lexicographic order on pairs.
pub open spec fn pair_lt(a: (u32, u32), b: (u32, u32)) -> bool {
    a.0 < b.0 || (a.0 == b.0 && a.1 < b.1)
}

/// Lexicographic order on triples.
pub open spec fn triple_lt(a: (u32, u32, int), b: (u32, u32, int)) -> bool {
    a.0 < b.0 || (a.0 == b.0 && (a.1 < b.1 || (a.1 == b.1 && a.2 < b.2)))
}

pub open spec fn sat_sub(a: u32, b: u32) -> u32 {
    if a >= b {
        (a - b) as u32
    } else {
        0
    }
}

pub open spec fn abs_diff(a: u32, b: u32) -> u32 {
    if a >= b {
        (a - b) as u32
    } else {
        (b - a) as u32
    }
}

/// How far `cursor` is from `range`: lines first, then characters on the
/// nearest line; `(0, 0)` inside the range.
pub open spec fn spec_distance(cursor: Position, range: Range) -> (u32, u32) {
    if pos_lt(cursor, range.start) {
        let line_distance = (range.start.line - cursor.line) as u32;
        (
            line_distance,
            if line_distance == 0 {
                (range.start.character - cursor.character) as u32
            } else {
                range.start.character
            },
        )
    } else if pos_lt(range.end, cursor) {
        let line_distance = (cursor.line - range.end.line) as u32;
        (
            line_distance,
            if line_distance == 0 {
                (cursor.character - range.end.character) as u32
            } else {
                cursor.character
            },
        )
    } else {
        (0, 0)
    }
}

/// The key by which containing problems compete: smaller spans win, then
/// earlier positions in the list.
pub open spec fn span_key(problem: OwnershipProblem, index: int) -> (u32, u32, int) {
    (
        sat_sub(problem.primary_range.end.line, problem.primary_range.start.line),
        sat_sub(problem.primary_range.end.character, problem.primary_range.start.character),
        index,
    )
}

/// The key problems are listed by: where their primary range starts, then
/// their id.
pub fn ownership_problem_sort_key(problem: &OwnershipProblem) -> (r: (u32, u32, &str))
    ensures
        r.0 == problem.primary_range.start.line,
        r.1 == problem.primary_range.start.character,
        r.2@ == problem.id@,
{
    (
        problem.primary_range.start.line,
        problem.primary_range.start.character,
        problem.id.as_str(),
    )
}

pub fn position_is_before(left: Position, right: Position) -> (r: bool)
    ensures
        r == pos_lt(left, right),
{
    left.line < right.line || (left.line == right.line && left.character < right.character)
}

pub fn position_is_in_range(position: Position, range: Range) -> (r: bool)
    ensures
        r == in_range(position, range),
{
    !position_is_before(position, range.start) && !position_is_before(range.end, position)
}

pub fn distance_to_range(cursor: Position, range: Range) -> (r: (u32, u32))
    ensures
        r == spec_distance(cursor, range),
{
    if position_is_before(cursor, range.start) {
        let line_distance = range.start.line - cursor.line;
        let character_distance = if line_distance == 0 {
            range.start.character - cursor.character
        } else {
            range.start.character
        };
        (line_distance, character_distance)
    } else if position_is_before(range.end, cursor) {
        let line_distance = cursor.line - range.end.line;
        let character_distance = if line_distance == 0 {
            cursor.character - range.end.character
        } else {
            cursor.character
        };
        (line_distance, character_distance)
    } else {
        (0, 0)
    }
}

/// A cursor is at distance zero from a range exactly when the range holds it.
pub proof fn distance_is_zero_exactly_inside(cursor: Position, range: Range)
    ensures
        (spec_distance(cursor, range) == (0u32, 0u32)) <==> in_range(cursor, range),
{
}

/// The ranges of a problem that count for cursor distance: primary, binding,
/// then every related range.
pub open spec fn problem_ranges(problem: OwnershipProblem) -> Seq<Range> {
    seq![problem.primary_range, problem.binding_range] + problem.related_ranges@
}

/// The smallest distance from `cursor` to any range of `ranges`, or
/// `(u32::MAX, u32::MAX)` when there is none.
pub open spec fn min_distance(cursor: Position, ranges: Seq<Range>) -> (u32, u32)
    decreases ranges.len(),
{
    if ranges.len() == 0 {
        (u32::MAX, u32::MAX)
    } else {
        let rest = min_distance(cursor, ranges.drop_last());
        let d = spec_distance(cursor, ranges.last());
        if pair_lt(d, rest) {
            d
        } else {
            rest
        }
    }
}

pub open spec fn spec_problem_distance(cursor: Position, problem: OwnershipProblem) -> (u32, u32) {
    min_distance(cursor, problem_ranges(problem))
}

/// The minimum is no larger than the distance to any single range.
pub proof fn min_distance_is_lower_bound(cursor: Position, ranges: Seq<Range>, k: int)
    requires
        0 <= k < ranges.len(),
    ensures
        !pair_lt(spec_distance(cursor, ranges[k]), min_distance(cursor, ranges)),
    decreases ranges.len(),
{
    if k < ranges.len() - 1 {
        min_distance_is_lower_bound(cursor, ranges.drop_last(), k);
    }
}

pub fn problem_distance(cursor: Position, problem: &OwnershipProblem) -> (r: (u32, u32))
    ensures
        r == spec_problem_distance(cursor, *problem),
{
    let ghost ranges = problem_ranges(*problem);
    let mut best: (u32, u32) = (u32::MAX, u32::MAX);
    let first = distance_to_range(cursor, problem.primary_range);
    assert(ranges[0] == problem.primary_range);
    assert(ranges[1] == problem.binding_range);
    assert(ranges.take(0).len() == 0);
    assert(min_distance(cursor, ranges.take(0)) == (u32::MAX, u32::MAX));
    assert(ranges.take(1).last() == ranges[0]);
    assert(ranges.take(2).last() == ranges[1]);
    assert(ranges.take(1).drop_last() =~= ranges.take(0));
    if first.0 < best.0 || (first.0 == best.0 && first.1 < best.1) {
        best = first;
    }
    assert(best == min_distance(cursor, ranges.take(1)));
    let second = distance_to_range(cursor, problem.binding_range);
    assert(ranges.take(2).drop_last() =~= ranges.take(1));
    if second.0 < best.0 || (second.0 == best.0 && second.1 < best.1) {
        best = second;
    }
    assert(best == min_distance(cursor, ranges.take(2)));
    let mut i: usize = 0;
    while i < problem.related_ranges.len()
        invariant
            ranges == problem_ranges(*problem),
            ranges.len() == problem.related_ranges.len() + 2,
            i <= problem.related_ranges.len(),
            best == min_distance(cursor, ranges.take(i + 2)),
        decreases problem.related_ranges.len() - i,
    {
        let range = problem.related_ranges[i];
        assert(range == ranges[i + 2]);
        let d = distance_to_range(cursor, range);
        assert(ranges.take(i + 3).drop_last() =~= ranges.take(i + 2));
        if d.0 < best.0 || (d.0 == best.0 && d.1 < best.1) {
            best = d;
        }
        i += 1;
    }
    assert(ranges.take(ranges.len() as int) =~= ranges);
    best
}

/// The problem nearest to `cursor`; ties go to the earlier problem.
pub fn nearest_ownership_problem_index(problems: &Vec<OwnershipProblem>, cursor: Position) -> (r:
    Option<usize>)
    ensures
        r is None <==> problems.len() == 0,
        r matches Some(i) ==> {
            &&& i < problems.len()
            &&& forall|j: int|
                0 <= j < problems.len() && j != i ==> {
                    let di = spec_problem_distance(cursor, problems@[i as int]);
                    let dj = spec_problem_distance(cursor, #[trigger] problems@[j]);
                    pair_lt(di, dj) || (di == dj && i < j)
                }
        },
{
    if problems.len() == 0 {
        return None;
    }
    let mut best_index: usize = 0;
    let mut best = problem_distance(cursor, &problems[0]);
    let mut i: usize = 1;
    while i < problems.len()
        invariant
            1 <= i <= problems.len(),
            best_index < i,
            best == spec_problem_distance(cursor, problems@[best_index as int]),
            forall|j: int|
                0 <= j < i && j != best_index ==> {
                    let dj = spec_problem_distance(cursor, #[trigger] problems@[j]);
                    pair_lt(best, dj) || (best == dj && best_index < j)
                },
        decreases problems.len() - i,
    {
        let d = problem_distance(cursor, &problems[i]);
        if d.0 < best.0 || (d.0 == best.0 && d.1 < best.1) {
            best = d;
            best_index = i;
        }
        i += 1;
    }
    Some(best_index)
}

/// `r` is the problem whose primary range holds `position`: among several
/// the narrowest, and among equally narrow ones the earliest; `None` when no
/// range holds it.
pub open spec fn containing_choice(problems: Seq<OwnershipProblem>, position: Position, r: Option<usize>) -> bool {
    &&& r is None <==> forall|j: int|
        0 <= j < problems.len() ==> !in_range(position, #[trigger] problems[j].primary_range)
    &&& r matches Some(i) ==> {
        &&& i < problems.len()
        &&& in_range(position, problems[i as int].primary_range)
        &&& forall|j: int|
            0 <= j < problems.len() && in_range(position, #[trigger] problems[j].primary_range)
                && j != i ==> triple_lt(span_key(problems[i as int], i as int), span_key(problems[j], j))
    }
}

/// The problem whose primary range holds `position`; among several, the
/// narrowest one, and among equally narrow ones the earliest.
pub fn ownership_problem_index_at_position(problems: &Vec<OwnershipProblem>, position: Position) -> (r:
    Option<usize>)
    ensures
        containing_choice(problems@, position, r),
{
    let mut best: Option<usize> = None;
    let mut best_lines: u32 = 0;
    let mut best_chars: u32 = 0;
    let mut i: usize = 0;
    while i < problems.len()
        invariant
            i <= problems.len(),
            best is None <==> forall|j: int|
                0 <= j < i ==> !in_range(position, #[trigger] problems@[j].primary_range),
            best matches Some(b) ==> {
                &&& b < i
                &&& in_range(position, problems@[b as int].primary_range)
                &&& span_key(problems@[b as int], b as int) == (best_lines, best_chars, b as int)
                &&& forall|j: int|
                    0 <= j < i && in_range(position, #[trigger] problems@[j].primary_range) && j
                        != b ==> triple_lt(
                        span_key(problems@[b as int], b as int),
                        span_key(problems@[j], j),
                    )
            },
        decreases problems.len() - i,
    {
        let range = problems[i].primary_range;
        if position_is_in_range(position, range) {
            let lines = range.end.line.saturating_sub(range.start.line);
            let chars = range.end.character.saturating_sub(range.start.character);
            let better = match best {
                None => true,
                Some(_) => lines < best_lines || (lines == best_lines && chars < best_chars),
            };
            if better {
                best = Some(i);
                best_lines = lines;
                best_chars = chars;
            }
        }
        i += 1;
    }
    best
}

/// After a rescan, the current problem that continues `previous`: same
/// diagnostic code, category and binding, nearest to the old start.
pub open spec fn same_target(a: OwnershipProblem, b: OwnershipProblem) -> bool {
    &&& opt_text(a.diagnostic_code) == opt_text(b.diagnostic_code)
    &&& a.category@ == b.category@
    &&& a.binding_name@ == b.binding_name@
}

pub open spec fn drift_key(previous: OwnershipProblem, candidate: OwnershipProblem, index: int) -> (
    u32,
    u32,
    int,
) {
    (
        abs_diff(candidate.primary_range.start.line, previous.primary_range.start.line),
        abs_diff(candidate.primary_range.start.character, previous.primary_range.start.character),
        index,
    )
}

pub fn same_problem_target(a: &OwnershipProblem, b: &OwnershipProblem) -> (r: bool)
    ensures
        r == same_target(*a, *b),
{
    opt_str_eq(&a.diagnostic_code, &b.diagnostic_code) && crate::text::str_eq(
        a.category.as_str(),
        b.category.as_str(),
    ) && crate::text::str_eq(a.binding_name.as_str(), b.binding_name.as_str())
}

/// `r` is the current problem that continues `previous`: one with the same
/// target, nearest to the old start, earliest among equally near ones;
/// `None` when no problem has that target.
pub open spec fn reconciled_choice(previous: OwnershipProblem, current: Seq<OwnershipProblem>, r: Option<usize>) -> bool {
    &&& r is None <==> forall|j: int|
        0 <= j < current.len() ==> !same_target(#[trigger] current[j], previous)
    &&& r matches Some(i) ==> {
        &&& i < current.len()
        &&& same_target(current[i as int], previous)
        &&& forall|j: int|
            0 <= j < current.len() && same_target(#[trigger] current[j], previous) && j != i
                ==> triple_lt(drift_key(previous, current[i as int], i as int), drift_key(previous, current[j], j))
    }
}

pub fn reconciled_ownership_problem_index(
    previous: &OwnershipProblem,
    current: &Vec<OwnershipProblem>,
) -> (r: Option<usize>)
    ensures
        reconciled_choice(*previous, current@, r),
{
    let mut best: Option<usize> = None;
    let mut best_lines: u32 = 0;
    let mut best_chars: u32 = 0;
    let mut i: usize = 0;
    while i < current.len()
        invariant
            i <= current.len(),
            best is None <==> forall|j: int|
                0 <= j < i ==> !same_target(#[trigger] current@[j], *previous),
            best matches Some(b) ==> {
                &&& b < i
                &&& same_target(current@[b as int], *previous)
                &&& drift_key(*previous, current@[b as int], b as int) == (
                    best_lines,
                    best_chars,
                    b as int,
                )
                &&& forall|j: int|
                    0 <= j < i && same_target(#[trigger] current@[j], *previous) && j != b
                        ==> triple_lt(
                        drift_key(*previous, current@[b as int], b as int),
                        drift_key(*previous, current@[j], j),
                    )
            },
        decreases current.len() - i,
    {
        let candidate = &current[i];
        if same_problem_target(candidate, previous) {
            let a = candidate.primary_range.start;
            let p = previous.primary_range.start;
            let lines = if a.line >= p.line {
                a.line - p.line
            } else {
                p.line - a.line
            };
            let chars = if a.character >= p.character {
                a.character - p.character
            } else {
                p.character - a.character
            };
            let better = match best {
                None => true,
                Some(_) => lines < best_lines || (lines == best_lines && chars < best_chars),
            };
            if better {
                best = Some(i);
                best_lines = lines;
                best_chars = chars;
            }
        }
        i += 1;
    }
    best
}

/// `(selected + direction) mod count`, with the selection defaulting to the
/// first problem.
pub open spec fn spec_relative_index(selected: Option<usize>, count: usize, direction: isize) -> int {
    let s: int = match selected {
        Some(s) => s as int,
        None => 0,
    };
    (s + direction) % (count as int)
}

pub fn relative_problem_index(selected: Option<usize>, problem_count: usize, direction: isize) -> (r:
    Option<usize>)
    requires
        problem_count <= isize::MAX,
        selected matches Some(s) ==> s <= isize::MAX && isize::MIN <= s + direction
            <= isize::MAX,
    ensures
        r is None <==> problem_count == 0,
        r matches Some(i) ==> i < problem_count && i as int == spec_relative_index(
            selected,
            problem_count,
            direction,
        ),
{
    if problem_count == 0 {
        return None;
    }
    let n = problem_count;
    let s: usize = match selected {
        Some(s) => s,
        None => 0,
    };
    let dm: usize = if direction >= 0 {
        (direction as usize) % n
    } else {
        let a = (-(direction + 1)) as usize;
        let r = a % n;
        proof {
            let q = (a / n) as int;
            vstd::arithmetic::div_mod::lemma_fundamental_div_mod(a as int, n as int);
            assert(direction == -(q + 1) * n + (n - 1 - r)) by (nonlinear_arith)
                requires
                    a == n * q + r,
                    a == -(direction + 1),
            ;
            lemma_euclid_rem(direction as int, n as int, -(q + 1), (n - 1 - r) as int);
        }
        n - 1 - r
    };
    let sm = s % n;
    let result = (sm + dm) % n;
    proof {
        vstd::arithmetic::div_mod::lemma_add_mod_noop(s as int, direction as int, n as int);
    }
    Some(result)
}

/// Rust's truncating remainder, corrected to be non-negative, equals the
/// Euclidean remainder.
proof fn lemma_euclid_rem(a: int, n: int, q: int, m: int)
    requires
        n > 0,
        0 <= m < n,
        a == q * n + m,
    ensures
        m == a % n,
{
    vstd::arithmetic::div_mod::lemma_fundamental_div_mod_converse(a, n, q, m);
}

/// Moving forward and then backward by the same step returns to the
/// selected problem.
pub proof fn relative_steps_cancel(selected: usize, count: usize, direction: isize)
    requires
        selected < count,
    ensures
        ((spec_relative_index(Some(selected), count, direction) - direction) % (count as int))
            == selected,
{
    let n = count as int;
    let a = selected + direction;
    let m = a % n;
    vstd::arithmetic::div_mod::lemma_fundamental_div_mod(a, n);
    let q = a / n;
    assert(m - direction == -q * n + selected) by (nonlinear_arith)
        requires
            a == n * q + m,
            a == selected + direction,
    ;
    vstd::arithmetic::div_mod::lemma_fundamental_div_mod_converse(m - direction, n, -q, selected as int);
}

} // verus!
