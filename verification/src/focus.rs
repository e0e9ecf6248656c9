//! What the panel points the editor at: the rows whose hints stay visible,
//! the source range each picture step cues, and whether choosing a problem
//! changes the selection.
use vstd::prelude::*;

use crate::coach::{visual_events, visual_moments};
use crate::protocol::{OwnershipEvent, OwnershipModel, OwnershipProblem, Range};
use crate::text::str_eq;

verus! {

/// The first and last line of `r`.
pub open spec fn rows_of(r: Range) -> (u32, u32) {
    (r.start.line, r.end.line)
}

/// The rows of a problem: its binding, its primary range, then each related
/// range.
pub open spec fn problem_rows(p: OwnershipProblem) -> Seq<(u32, u32)> {
    seq![rows_of(p.binding_range), rows_of(p.primary_range)] + p.related_ranges@.map_values(
        |r: Range| rows_of(r),
    )
}

pub open spec fn event_rows(events: Seq<OwnershipEvent>) -> Seq<(u32, u32)> {
    events.map_values(|e: OwnershipEvent| rows_of(e.range))
}

/// The rows the selected problem and the model's events touch, in order.
pub open spec fn candidate_rows(problem: Option<OwnershipProblem>, model: OwnershipModel) -> Seq<
    (u32, u32),
> {
    let own = match problem {
        Some(p) => problem_rows(p),
        None => Seq::empty(),
    };
    own + event_rows(model.events@)
}

/// The smallest first row of non-empty `rows`.
pub open spec fn min_start(rows: Seq<(u32, u32)>) -> u32
    decreases rows.len(),
{
    if rows.len() <= 1 {
        rows[0].0
    } else {
        let rest = min_start(rows.drop_last());
        if rows.last().0 < rest {
            rows.last().0
        } else {
            rest
        }
    }
}

/// The largest last row of non-empty `rows`.
pub open spec fn max_end(rows: Seq<(u32, u32)>) -> u32
    decreases rows.len(),
{
    if rows.len() <= 1 {
        rows[0].1
    } else {
        let rest = max_end(rows.drop_last());
        if rows.last().1 > rest {
            rows.last().1
        } else {
            rest
        }
    }
}

/// The rows whose hints stay visible: none are singled out when the whole
/// file is shown; when only the current function is, its rows, else one
/// span around everything touched, widened by a row each way; otherwise
/// every touched row range.
pub open spec fn spec_display_focus_rows(
    whole_file: bool,
    current_function: bool,
    problem: Option<OwnershipProblem>,
    model: OwnershipModel,
    function_rows: Option<(u32, u32)>,
) -> Seq<(u32, u32)> {
    let rows = candidate_rows(problem, model);
    if whole_file {
        Seq::empty()
    } else if current_function && function_rows is Some {
        seq![function_rows->0]
    } else if current_function && rows.len() > 0 {
        let start = min_start(rows);
        let end = max_end(rows);
        seq![
            (if start > 0 { (start - 1) as u32 } else { 0 }, if end < u32::MAX { (end + 1) as u32 } else { u32::MAX }),
        ]
    } else {
        rows
    }
}

fn push_rows(rows: &mut Vec<(u32, u32)>, r: Range)
    ensures
        final(rows)@ == old(rows)@.push(rows_of(r)),
{
    rows.push((r.start.line, r.end.line));
}

pub fn display_focus_rows(
    whole_file: bool,
    current_function: bool,
    problem: Option<&OwnershipProblem>,
    model: &OwnershipModel,
    function_rows: Option<(u32, u32)>,
) -> (r: Vec<(u32, u32)>)
    ensures
        r@ == spec_display_focus_rows(
            whole_file,
            current_function,
            match problem {
                Some(p) => Some(*p),
                None => None,
            },
            *model,
            function_rows,
        ),
{
    let ghost problem_view = match problem {
        Some(p) => Some(*p),
        None => None,
    };
    if whole_file {
        return Vec::new();
    }
    let mut rows: Vec<(u32, u32)> = Vec::new();
    if let Some(p) = problem {
        push_rows(&mut rows, p.binding_range);
        push_rows(&mut rows, p.primary_range);
        let mut i: usize = 0;
        while i < p.related_ranges.len()
            invariant
                i <= p.related_ranges.len(),
                rows@ == seq![rows_of(p.binding_range), rows_of(p.primary_range)]
                    + p.related_ranges@.take(i as int).map_values(|r: Range| rows_of(r)),
            decreases p.related_ranges.len() - i,
        {
            push_rows(&mut rows, p.related_ranges[i]);
            i += 1;
            assert(p.related_ranges@.take(i as int).map_values(|r: Range| rows_of(r))
                =~= p.related_ranges@.take(i - 1).map_values(|r: Range| rows_of(r)).push(
                rows_of(p.related_ranges@[i - 1]),
            ));
        }
        assert(p.related_ranges@.take(i as int) =~= p.related_ranges@);
    }
    assert(rows@ =~= match problem_view {
        Some(p) => problem_rows(p),
        None => Seq::empty(),
    });
    let ghost own = rows@;
    let mut k: usize = 0;
    while k < model.events.len()
        invariant
            k <= model.events.len(),
            rows@ == own + event_rows(model.events@.take(k as int)),
        decreases model.events.len() - k,
    {
        push_rows(&mut rows, model.events[k].range);
        k += 1;
        assert(event_rows(model.events@.take(k as int)) =~= event_rows(
            model.events@.take(k - 1),
        ).push(rows_of(model.events@[k - 1].range)));
    }
    assert(model.events@.take(k as int) =~= model.events@);
    assert(rows@ == candidate_rows(problem_view, *model));
    if current_function {
        if let Some(f) = function_rows {
            return vec![f];
        }
        if rows.len() > 0 {
            let mut start = rows[0].0;
            let mut end = rows[0].1;
            let mut j: usize = 1;
            while j < rows.len()
                invariant
                    1 <= j <= rows.len(),
                    start == min_start(rows@.take(j as int)),
                    end == max_end(rows@.take(j as int)),
                decreases rows.len() - j,
            {
                assert(rows@.take(j + 1).drop_last() =~= rows@.take(j as int));
                if rows[j].0 < start {
                    start = rows[j].0;
                }
                if rows[j].1 > end {
                    end = rows[j].1;
                }
                j += 1;
            }
            assert(rows@.take(j as int) =~= rows@);
            return vec![(start.saturating_sub(1), end.saturating_add(1))];
        }
    }
    rows
}

/// Where the `i`th timeline moment sits in the source, if there is one.
pub open spec fn timeline_range(problem: Option<OwnershipProblem>, model: OwnershipModel, i: int) -> Option<Range> {
    let ve = visual_events(model.events@);
    if model.conflict_graph is Some && model.conflict_graph->0.snapshots.len() > 0 {
        let snaps = model.conflict_graph->0.snapshots@;
        if 0 <= i < snaps.len() {
            Some(snaps[i].range)
        } else {
            None
        }
    } else if ve.len() > 0 || problem is None {
        if 0 <= i < ve.len() && i < 12 {
            Some(ve[i].range)
        } else {
            None
        }
    } else if i == 0 {
        Some(problem->0.binding_range)
    } else if i == 1 || i == 2 {
        Some(problem->0.primary_range)
    } else {
        None
    }
}

/// The range a picture step cues: the value trace's step when there is one,
/// else the timeline moment's.
pub fn visual_step_range(problem: Option<&OwnershipProblem>, model: &OwnershipModel, index: usize) -> (r: Option<Range>)
    ensures
        r == if index < model.value_trace.len() {
            Some(model.value_trace@[index as int].range)
        } else {
            timeline_range(
                match problem {
                    Some(p) => Some(*p),
                    None => None,
                },
                *model,
                index as int,
            )
        },
{
    if index < model.value_trace.len() {
        return Some(model.value_trace[index].range);
    }
    let moments = visual_moments(problem, model);
    if index < moments.len() {
        Some(moments[index].range)
    } else {
        None
    }
}

/// What choosing a problem does.
#[derive(Clone, Debug)]
pub enum ProblemSelection {
    /// There is no problem at that position.
    Missing,
    /// The problem is already selected; its range may be revealed again.
    Unchanged(Range),
    /// A different problem becomes selected.
    Changed { id: String, range: Range },
}

/// Choosing the problem at `index` when `selected_id` is selected.
pub fn problem_selection(
    problems: &Vec<OwnershipProblem>,
    selected_id: Option<&str>,
    index: usize,
) -> (r: ProblemSelection)
    ensures
        index >= problems.len() ==> r is Missing,
        index < problems.len() ==> {
            let p = problems@[index as int];
            match selected_id {
                Some(s) if s@ == p.id@ => r == ProblemSelection::Unchanged(p.primary_range),
                _ => r matches ProblemSelection::Changed { id, range } && id@ == p.id@ && range
                    == p.primary_range,
            }
        },
{
    if index >= problems.len() {
        return ProblemSelection::Missing;
    }
    let p = &problems[index];
    let same = match selected_id {
        Some(s) => str_eq(s, p.id.as_str()),
        None => false,
    };
    if same {
        ProblemSelection::Unchanged(p.primary_range)
    } else {
        ProblemSelection::Changed { id: p.id.clone(), range: p.primary_range }
    }
}

} // verus!
