//! What the teaching diagram is about: the family of the focused type, the
//! operation it explains, the focused place, and the moments of its story.
use vstd::prelude::*;

use crate::panel::{readable_access, spec_readable_access};
use crate::selection::{abs_diff, pair_lt};
use crate::protocol::{
    Position, OwnershipBinding, OwnershipConflictNode, OwnershipModel, OwnershipOperationInsight,
    OwnershipProblem, Range,
};
use crate::scene_graph::{selected_mutation_operation, spec_mutation_operation};
use crate::text::{
    ascii_lower, ascii_lowercased, concat3, has_substring, opt_text, owned, seq_contains,
    str_eq,
};
use crate::topology::{moment_views, place_root, spec_place_root, MomentView, TopologyMoment};
use crate::type_parser::{parse_type, spec_parse_type};

verus! {

/// The shape of picture a type is taught with.
#[derive(Clone, Copy, Debug, PartialEq, Eq, Structural)]
pub enum TeachingDiagramFamily {
    Value,
    Reference,
    Sequence,
    SharedOwner,
    InteriorMutable,
    Lock,
    Conditional,
    Closure,
    TraitObject,
    Async,
}

/// The family a problem's category and the focused type call for: async
/// and closure problems or types first, then trait objects, then the type's
/// outer name.
pub open spec fn spec_teaching_family(category: Option<Seq<char>>, type_text: Seq<char>) -> TeachingDiagramFamily {
    let outer = spec_parse_type(type_text).0;
    if (category == Some("await_outside_async"@) || category == Some("recursive_async_function"@))
        || seq_contains(type_text, "Future"@) || seq_contains(type_text, "async"@) {
        TeachingDiagramFamily::Async
    } else if (category == Some("closure_may_outlive_borrow"@) || category == Some(
        "borrowed_data_escapes"@,
    )) || seq_contains(type_text, "closure"@) || seq_contains(type_text, "Fn("@)
        || seq_contains(type_text, "FnMut"@) || seq_contains(type_text, "FnOnce"@) {
        TeachingDiagramFamily::Closure
    } else if seq_contains(type_text, "dyn "@) {
        TeachingDiagramFamily::TraitObject
    } else if outer == "Vec"@ || outer == "String"@ || outer == "VecDeque"@ || outer
        == "BinaryHeap"@ || outer == "HashMap"@ || outer == "HashSet"@ || outer == "BTreeMap"@
        || outer == "BTreeSet"@ || outer == "LinkedList"@ {
        TeachingDiagramFamily::Sequence
    } else if outer == "Rc"@ || outer == "Arc"@ || outer == "Weak"@ || outer == "Box"@ || outer
        == "Pin"@ {
        TeachingDiagramFamily::SharedOwner
    } else if outer == "Cell"@ || outer == "RefCell"@ || outer == "UnsafeCell"@ || outer
        == "OnceCell"@ || outer == "OnceLock"@ {
        TeachingDiagramFamily::InteriorMutable
    } else if outer == "Mutex"@ || outer == "RwLock"@ || outer == "MutexGuard"@ || outer
        == "RwLockReadGuard"@ || outer == "RwLockWriteGuard"@ {
        TeachingDiagramFamily::Lock
    } else if outer == "Option"@ || outer == "Result"@ || outer == "Cow"@ {
        TeachingDiagramFamily::Conditional
    } else if outer == "&"@ || outer == "&mut"@ || outer == "*const"@ || outer == "*mut"@ {
        TeachingDiagramFamily::Reference
    } else {
        TeachingDiagramFamily::Value
    }
}

/// The category of the problem, if there is one.
pub open spec fn problem_category(problem: Option<OwnershipProblem>) -> Option<Seq<char>> {
    match problem {
        Some(p) => Some(p.category@),
        None => None,
    }
}

#[verifier::rlimit(40)]
#[verifier::spinoff_prover]
pub fn teaching_diagram_family(problem: Option<&OwnershipProblem>, type_text: &str) -> (r:
    TeachingDiagramFamily)
    ensures
        r == spec_teaching_family(
            problem_category(
                match problem {
                    Some(p) => Some(*p),
                    None => None,
                },
            ),
            type_text@,
        ),
{
    let (is_async_problem, is_closure_problem) = match problem {
        Some(p) => (
            str_eq(p.category.as_str(), "await_outside_async") || str_eq(
                p.category.as_str(),
                "recursive_async_function",
            ),
            str_eq(p.category.as_str(), "closure_may_outlive_borrow") || str_eq(
                p.category.as_str(),
                "borrowed_data_escapes",
            ),
        ),
        None => (false, false),
    };
    if is_async_problem || has_substring(type_text, "Future") || has_substring(type_text, "async") {
        return TeachingDiagramFamily::Async;
    }
    if is_closure_problem || has_substring(type_text, "closure") || has_substring(type_text, "Fn(")
        || has_substring(type_text, "FnMut") || has_substring(type_text, "FnOnce") {
        return TeachingDiagramFamily::Closure;
    }
    if has_substring(type_text, "dyn ") {
        return TeachingDiagramFamily::TraitObject;
    }
    let parsed = parse_type(type_text);
    let outer = parsed.outer.as_str();
    if str_eq(outer, "Vec") || str_eq(outer, "String") || str_eq(outer, "VecDeque") || str_eq(
        outer,
        "BinaryHeap",
    ) || str_eq(outer, "HashMap") || str_eq(outer, "HashSet") || str_eq(outer, "BTreeMap")
        || str_eq(outer, "BTreeSet") || str_eq(outer, "LinkedList") {
        TeachingDiagramFamily::Sequence
    } else if str_eq(outer, "Rc") || str_eq(outer, "Arc") || str_eq(outer, "Weak") || str_eq(
        outer,
        "Box",
    ) || str_eq(outer, "Pin") {
        TeachingDiagramFamily::SharedOwner
    } else if str_eq(outer, "Cell") || str_eq(outer, "RefCell") || str_eq(outer, "UnsafeCell")
        || str_eq(outer, "OnceCell") || str_eq(outer, "OnceLock") {
        TeachingDiagramFamily::InteriorMutable
    } else if str_eq(outer, "Mutex") || str_eq(outer, "RwLock") || str_eq(outer, "MutexGuard")
        || str_eq(outer, "RwLockReadGuard") || str_eq(outer, "RwLockWriteGuard") {
        TeachingDiagramFamily::Lock
    } else if str_eq(outer, "Option") || str_eq(outer, "Result") || str_eq(outer, "Cow") {
        TeachingDiagramFamily::Conditional
    } else if str_eq(outer, "&") || str_eq(outer, "&mut") || str_eq(outer, "*const") || str_eq(
        outer,
        "*mut",
    ) {
        TeachingDiagramFamily::Reference
    } else {
        TeachingDiagramFamily::Value
    }
}

/// The heading of a teaching diagram about `place` (or the selected value).
pub open spec fn spec_teaching_title(family: TeachingDiagramFamily, place: Seq<char>) -> Seq<char> {
    let subject = if place.len() == 0 {
        "selected value"@
    } else {
        place
    };
    match family {
        TeachingDiagramFamily::Value => "How `"@ + subject + "` is stored and used"@,
        TeachingDiagramFamily::Reference => "What `"@ + subject + "` points to"@,
        TeachingDiagramFamily::Sequence => "Collection handle, elements, and references for `"@
            + subject + "`"@,
        TeachingDiagramFamily::SharedOwner => "Wrapper and owned allocation for `"@ + subject
            + "`"@,
        TeachingDiagramFamily::InteriorMutable => "Runtime access gate inside `"@ + subject
            + "`"@,
        TeachingDiagramFamily::Lock => "Lock, guard, and protected value for `"@ + subject
            + "`"@,
        TeachingDiagramFamily::Conditional => "Active representation of `"@ + subject + "`"@,
        TeachingDiagramFamily::Closure => "Closure environment and captured values for `"@
            + subject + "`"@,
        TeachingDiagramFamily::TraitObject => "Trait-object data and vtable for `"@ + subject
            + "`"@,
        TeachingDiagramFamily::Async => "Future state retained by `"@ + subject + "`"@,
    }
}

pub fn teaching_title(family: TeachingDiagramFamily, place: &str) -> (r: String)
    ensures
        r@ == spec_teaching_title(family, place@),
{
    let subject = if place.unicode_len() == 0 {
        "selected value"
    } else {
        place
    };
    match family {
        TeachingDiagramFamily::Value => concat3("How `", subject, "` is stored and used"),
        TeachingDiagramFamily::Reference => concat3("What `", subject, "` points to"),
        TeachingDiagramFamily::Sequence => concat3(
            "Collection handle, elements, and references for `",
            subject,
            "`",
        ),
        TeachingDiagramFamily::SharedOwner => concat3(
            "Wrapper and owned allocation for `",
            subject,
            "`",
        ),
        TeachingDiagramFamily::InteriorMutable => concat3(
            "Runtime access gate inside `",
            subject,
            "`",
        ),
        TeachingDiagramFamily::Lock => concat3("Lock, guard, and protected value for `", subject, "`"),
        TeachingDiagramFamily::Conditional => concat3("Active representation of `", subject, "`"),
        TeachingDiagramFamily::Closure => concat3(
            "Closure environment and captured values for `",
            subject,
            "`",
        ),
        TeachingDiagramFamily::TraitObject => concat3(
            "Trait-object data and vtable for `",
            subject,
            "`",
        ),
        TeachingDiagramFamily::Async => concat3("Future state retained by `", subject, "`"),
    }
}

/// A problem whose fix is about who may write.
pub open spec fn is_mutation_category(category: Seq<char>) -> bool {
    category == "multiple_mutable_borrows"@ || category == "mutable_while_shared"@ || category
        == "assign_while_borrowed"@ || category == "use_while_mutably_borrowed"@ || category
        == "immutable_mutation"@
}

/// How far an operation starts from a position: lines, then characters.
pub open spec fn op_distance(op: OwnershipOperationInsight, at: Position) -> (u32, u32) {
    (abs_diff(op.range.start.line, at.line), abs_diff(op.range.start.character, at.character))
}

/// Operation `i` is the first of the ownership-relevant operations closest to `at`.
pub open spec fn closest_relevant(ops: Seq<OwnershipOperationInsight>, at: Position, i: int) -> bool {
    &&& 0 <= i < ops.len()
    &&& ops[i].ownership_relevant
    &&& forall|j: int|
        0 <= j < ops.len() && #[trigger] ops[j].ownership_relevant ==> !pair_lt(
            op_distance(ops[j], at),
            op_distance(ops[i], at),
        )
    &&& forall|j: int|
        0 <= j < i && #[trigger] ops[j].ownership_relevant ==> pair_lt(
            op_distance(ops[i], at),
            op_distance(ops[j], at),
        )
}

/// The first ownership-relevant operation.
pub open spec fn first_relevant(ops: Seq<OwnershipOperationInsight>, i: int) -> Option<int>
    decreases ops.len() - i,
{
    if i < 0 || i >= ops.len() {
        None
    } else if ops[i].ownership_relevant {
        Some(i)
    } else {
        first_relevant(ops, i + 1)
    }
}

/// The operation the teaching diagram explains: for a mutation problem the
/// blocked operation, else the relevant operation closest to the problem,
/// else the first operation; without a problem, the first relevant
/// operation, else the first.
pub open spec fn spec_teaching_operation(problem: Option<OwnershipProblem>, model: OwnershipModel) -> Option<int> {
    let ops = model.operations@;
    let fallback = if ops.len() > 0 {
        Some(0int)
    } else {
        None
    };
    match problem {
        Some(p) => if is_mutation_category(p.category@) && spec_mutation_operation(model) is Some {
            spec_mutation_operation(model)
        } else if exists|i: int| closest_relevant(ops, p.primary_range.start, i) {
            Some(choose|i: int| closest_relevant(ops, p.primary_range.start, i))
        } else {
            fallback
        },
        None => match first_relevant(ops, 0) {
            Some(i) => Some(i),
            None => fallback,
        },
    }
}

fn abs_diff_u32(a: u32, b: u32) -> (r: u32)
    ensures
        r == abs_diff(a, b),
{
    if a >= b {
        a - b
    } else {
        b - a
    }
}

proof fn lemma_closest_unique(ops: Seq<OwnershipOperationInsight>, at: Position, i: int, k: int)
    requires
        closest_relevant(ops, at, i),
        closest_relevant(ops, at, k),
    ensures
        i == k,
{
    if i < k {
        assert(pair_lt(op_distance(ops[k], at), op_distance(ops[i], at)));
    } else if k < i {
        assert(pair_lt(op_distance(ops[i], at), op_distance(ops[k], at)));
    }
}

/// The position of the operation the teaching diagram explains.
pub fn selected_teaching_operation(problem: Option<&OwnershipProblem>, model: &OwnershipModel) -> (r:
    Option<usize>)
    ensures
        match r {
            Some(i) => i < model.operations.len() && spec_teaching_operation(
                match problem {
                    Some(p) => Some(*p),
                    None => None,
                },
                *model,
            ) == Some(i as int),
            None => spec_teaching_operation(
                match problem {
                    Some(p) => Some(*p),
                    None => None,
                },
                *model,
            ) is None,
        },
{
    let ops = &model.operations;
    match problem {
        Some(problem) => {
            let category = problem.category.as_str();
            if str_eq(category, "multiple_mutable_borrows") || str_eq(category, "mutable_while_shared")
                || str_eq(category, "assign_while_borrowed") || str_eq(
                category,
                "use_while_mutably_borrowed",
            ) || str_eq(category, "immutable_mutation") {
                if let Some(i) = selected_mutation_operation(model) {
                    assert(is_mutation_category(problem.category@));
                    assert(spec_teaching_operation(Some(*problem), *model) == Some(i as int));
                    return Some(i);
                }
            }
            let at = problem.primary_range.start;
            let mut best: Option<usize> = None;
            let mut i: usize = 0;
            while i < ops.len()
                invariant
                    i <= ops.len(),
                    ops == &model.operations,
                    match best {
                        Some(b) => b < i && ops@[b as int].ownership_relevant && (forall|j: int|
                            0 <= j < i && #[trigger] ops@[j].ownership_relevant ==> !pair_lt(
                                op_distance(ops@[j], at),
                                op_distance(ops@[b as int], at),
                            )) && (forall|j: int|
                            0 <= j < b && #[trigger] ops@[j].ownership_relevant ==> pair_lt(
                                op_distance(ops@[b as int], at),
                                op_distance(ops@[j], at),
                            )),
                        None => forall|j: int| 0 <= j < i ==> !(#[trigger] ops@[j].ownership_relevant),
                    },
                decreases ops.len() - i,
            {
                if ops[i].ownership_relevant {
                    let d = (
                        abs_diff_u32(ops[i].range.start.line, at.line),
                        abs_diff_u32(ops[i].range.start.character, at.character),
                    );
                    match best {
                        None => {
                            best = Some(i);
                        },
                        Some(b) => {
                            let db = (
                                abs_diff_u32(ops[b].range.start.line, at.line),
                                abs_diff_u32(ops[b].range.start.character, at.character),
                            );
                            if d.0 < db.0 || (d.0 == db.0 && d.1 < db.1) {
                                best = Some(i);
                            }
                        },
                    }
                }
                i += 1;
            }
            proof {
                let ghost pv = Some(*problem);
                if let Some(b) = best {
                    assert(closest_relevant(ops@, at, b as int));
                    if is_mutation_category(problem.category@) {
                        assert(spec_mutation_operation(*model) is None);
                    }
                    let c = choose|c: int| closest_relevant(ops@, at, c);
                    lemma_closest_unique(ops@, at, c, b as int);
                } else {
                    assert(!exists|c: int| closest_relevant(ops@, at, c));
                }
            }
            match best {
                Some(b) => Some(b),
                None => if ops.len() > 0 {
                    Some(0)
                } else {
                    None
                },
            }
        },
        None => {
            let mut i: usize = 0;
            while i < ops.len()
                invariant
                    i <= ops.len(),
                    ops == &model.operations,
                    problem is None,
                    first_relevant(ops@, 0) == first_relevant(ops@, i as int),
                decreases ops.len() - i,
            {
                if ops[i].ownership_relevant {
                    return Some(i);
                }
                i += 1;
            }
            if ops.len() > 0 {
                Some(0)
            } else {
                None
            }
        },
    }
}

/// The first conflict node at or after `i` with role `role`.
pub open spec fn first_role(nodes: Seq<OwnershipConflictNode>, role: Seq<char>, i: int) -> Option<int>
    decreases nodes.len() - i,
{
    if i < 0 || i >= nodes.len() {
        None
    } else if nodes[i].role@ == role {
        Some(i)
    } else {
        first_role(nodes, role, i + 1)
    }
}

/// The value a conflict is about: the first conflict node in the role of
/// the borrowed value.
pub open spec fn spec_referent(model: OwnershipModel) -> Option<OwnershipConflictNode> {
    match model.conflict_graph {
        Some(g) => match first_role(g.nodes@, "borrowed_value"@, 0) {
            Some(k) => Some(g.nodes@[k]),
            None => None,
        },
        None => None,
    }
}

/// The operation the teaching diagram explains.
pub open spec fn teaching_op(problem: Option<OwnershipProblem>, model: OwnershipModel) -> Option<
    OwnershipOperationInsight,
> {
    match spec_teaching_operation(problem, model) {
        Some(i) => Some(model.operations@[i]),
        None => None,
    }
}

/// The focused place: the explained operation's receiver, else the borrowed
/// value of a conflict, else the place a blocked mutation wanted, else the
/// model's selected place, else the problem's binding.
pub open spec fn spec_focus_place(problem: Option<OwnershipProblem>, model: OwnershipModel) -> Option<Seq<char>> {
    let op = teaching_op(problem, model);
    if op is Some && op->0.receiver_flow is Some {
        Some(op->0.receiver_flow->0.expression@)
    } else if spec_referent(model) is Some {
        Some(spec_referent(model)->0.label@)
    } else if model.mutation_requirement is Some {
        Some(model.mutation_requirement->0.target_place@)
    } else if model.selected_place is Some {
        Some(model.selected_place->0@)
    } else if problem is Some {
        Some(problem->0.binding_name@)
    } else {
        None
    }
}

/// The first binding at or after `i` named `place` or `root`.
pub open spec fn first_binding_named(
    bindings: Seq<OwnershipBinding>,
    place: Seq<char>,
    root: Seq<char>,
    i: int,
) -> Option<int>
    decreases bindings.len() - i,
{
    if i < 0 || i >= bindings.len() {
        None
    } else if bindings[i].name@ == place || bindings[i].name@ == root {
        Some(i)
    } else {
        first_binding_named(bindings, place, root, i + 1)
    }
}

/// The focused type: the operation's receiver type, else the borrowed
/// value's type, else the type of the binding named by the place or its
/// root, else the first related type, else an unresolved type.
pub open spec fn spec_focus_type(
    problem: Option<OwnershipProblem>,
    model: OwnershipModel,
    place: Seq<char>,
) -> Seq<char> {
    let op = teaching_op(problem, model);
    let referent = spec_referent(model);
    let binding = first_binding_named(model.bindings@, place, spec_place_root(place), 0);
    if op is Some && op->0.receiver_type is Some {
        op->0.receiver_type->0@
    } else if referent is Some && referent->0.type_text is Some {
        referent->0.type_text->0@
    } else if binding is Some {
        model.bindings@[binding->0].type_text@
    } else if model.source_context is Some && model.source_context->0.related_types@.len() > 0 {
        model.source_context->0.related_types@[0]@
    } else {
        "value of unresolved type"@
    }
}

/// Where the focus is in the source: the receiver's range, else the
/// borrowed value's, else the problem binding's.
pub open spec fn spec_focus_range(problem: Option<OwnershipProblem>, model: OwnershipModel) -> Option<Range> {
    let op = teaching_op(problem, model);
    let referent = spec_referent(model);
    if op is Some && op->0.receiver_flow is Some {
        Some(op->0.receiver_flow->0.range)
    } else if referent is Some && referent->0.range is Some {
        referent->0.range
    } else if problem is Some {
        Some(problem->0.binding_range)
    } else {
        None
    }
}

/// The focused place, its type and its range, when there is a place.
pub open spec fn spec_teaching_focus(problem: Option<OwnershipProblem>, model: OwnershipModel) -> Option<
    (Seq<char>, Seq<char>, Option<Range>),
> {
    match spec_focus_place(problem, model) {
        Some(place) => Some((place, spec_focus_type(problem, model, place), spec_focus_range(problem, model))),
        None => None,
    }
}

/// The problem, if any, as a value.
pub open spec fn opt_problem(problem: Option<&OwnershipProblem>) -> Option<OwnershipProblem> {
    match problem {
        Some(p) => Some(*p),
        None => None,
    }
}

fn referent_index(model: &OwnershipModel) -> (r: Option<usize>)
    ensures
        match r {
            Some(k) => model.conflict_graph is Some && k < model.conflict_graph->0.nodes.len()
                && spec_referent(*model) == Some(model.conflict_graph->0.nodes@[k as int]),
            None => spec_referent(*model) is None,
        },
{
    match &model.conflict_graph {
        Some(graph) => {
            let nodes = &graph.nodes;
            let mut k: usize = 0;
            while k < nodes.len()
                invariant
                    k <= nodes.len(),
                    nodes == &graph.nodes,
                    model.conflict_graph == Some(*graph),
                    first_role(nodes@, "borrowed_value"@, 0) == first_role(
                        nodes@,
                        "borrowed_value"@,
                        k as int,
                    ),
                decreases nodes.len() - k,
            {
                if str_eq(nodes[k].role.as_str(), "borrowed_value") {
                    return Some(k);
                }
                k += 1;
            }
            None
        },
        None => None,
    }
}

fn binding_named(bindings: &Vec<OwnershipBinding>, place: &str, root: &str) -> (r: Option<usize>)
    ensures
        match r {
            Some(k) => k < bindings.len() && first_binding_named(bindings@, place@, root@, 0)
                == Some(k as int),
            None => first_binding_named(bindings@, place@, root@, 0) is None,
        },
{
    let mut k: usize = 0;
    while k < bindings.len()
        invariant
            k <= bindings.len(),
            first_binding_named(bindings@, place@, root@, 0) == first_binding_named(
                bindings@,
                place@,
                root@,
                k as int,
            ),
        decreases bindings.len() - k,
    {
        if str_eq(bindings[k].name.as_str(), place) || str_eq(bindings[k].name.as_str(), root) {
            return Some(k);
        }
        k += 1;
    }
    None
}

/// The focused place, its type and its source range.
pub fn teaching_focus(problem: Option<&OwnershipProblem>, model: &OwnershipModel) -> (r: Option<
    (String, String, Option<Range>),
>)
    ensures
        match r {
            Some((place, type_text, range)) => spec_teaching_focus(opt_problem(problem), *model)
                == Some((place@, type_text@, range)),
            None => spec_teaching_focus(opt_problem(problem), *model) is None,
        },
{
    let op_index = selected_teaching_operation(problem, model);
    let referent = referent_index(model);
    let place: Option<String> = {
        let from_op = match op_index {
            Some(i) => match &model.operations[i].receiver_flow {
                Some(flow) => Some(flow.expression.clone()),
                None => None,
            },
            None => None,
        };
        if from_op.is_some() {
            from_op
        } else if let Some(k) = referent {
            match &model.conflict_graph {
                Some(graph) => Some(graph.nodes[k].label.clone()),
                None => None,
            }
        } else if let Some(req) = &model.mutation_requirement {
            Some(req.target_place.clone())
        } else if let Some(sel) = &model.selected_place {
            Some(sel.clone())
        } else if let Some(p) = problem {
            Some(p.binding_name.clone())
        } else {
            None
        }
    };
    let place = match place {
        Some(pl) => pl,
        None => {
            return None;
        },
    };
    let root = place_root(place.as_str());
    let from_op_type = match op_index {
        Some(i) => match &model.operations[i].receiver_type {
            Some(t) => Some(t.clone()),
            None => None,
        },
        None => None,
    };
    let from_referent_type = match referent {
        Some(k) => match &model.conflict_graph {
            Some(graph) => match &graph.nodes[k].type_text {
                Some(t) => Some(t.clone()),
                None => None,
            },
            None => None,
        },
        None => None,
    };
    let type_text = if let Some(t) = from_op_type {
        t
    } else if let Some(t) = from_referent_type {
        t
    } else if let Some(b) = binding_named(&model.bindings, place.as_str(), root) {
        model.bindings[b].type_text.clone()
    } else {
        match &model.source_context {
            Some(context) => if context.related_types.len() > 0 {
                context.related_types[0].clone()
            } else {
                owned("value of unresolved type")
            },
            None => owned("value of unresolved type"),
        }
    };
    let from_op_range = match op_index {
        Some(i) => match &model.operations[i].receiver_flow {
            Some(flow) => Some(flow.range),
            None => None,
        },
        None => None,
    };
    let from_referent_range = match referent {
        Some(k) => match &model.conflict_graph {
            Some(graph) => graph.nodes[k].range,
            None => None,
        },
        None => None,
    };
    let range = if from_op_range.is_some() {
        from_op_range
    } else if from_referent_range.is_some() {
        from_referent_range
    } else {
        match problem {
            Some(p) => Some(p.binding_range),
            None => None,
        }
    };
    Some((place, type_text, range))
}

/// A moment of the teaching story.
pub open spec fn moment(title: Seq<char>, explanation: Seq<char>, range: Range, marker: Seq<char>) -> MomentView {
    MomentView { title, explanation, range, path_marker: Some(marker) }
}

/// The range the teaching story falls back to.
pub open spec fn story_range(problem: Option<OwnershipProblem>, fallback: Option<Range>) -> Range {
    match fallback {
        Some(r) => r,
        None => match problem {
            Some(p) => p.primary_range,
            None => Range { start: Position { line: 0, character: 0 }, end: Position { line: 0, character: 0 } },
        },
    }
}

/// The teaching story: the conflict's first six snapshots; else the three
/// steps of a future or of a closure call; else before, during and after
/// the explained operation; else the current shape alone.
pub open spec fn spec_teaching_moments(
    problem: Option<OwnershipProblem>,
    model: OwnershipModel,
    family: TeachingDiagramFamily,
    focus: Seq<char>,
    fallback: Option<Range>,
) -> Seq<MomentView> {
    let range = story_range(problem, fallback);
    let op = teaching_op(problem, model);
    let op_range = match op {
        Some(o) => o.range,
        None => range,
    };
    if model.conflict_graph is Some && model.conflict_graph->0.snapshots@.len() > 0 {
        crate::scene_graph::first_n(model.conflict_graph->0.snapshots@, 6).map_values(
            |s: crate::protocol::OwnershipConflictSnapshot|
                moment(s.title@, s.explanation@, s.range, s.phase@),
        )
    } else if family == TeachingDiagramFamily::Async {
        seq![
            moment("Created"@, "Calling async code creates a future value without running its body to completion."@, op_range, "before"@),
            moment("Suspended at .await"@, "Polling reached .await. Locals needed later remain stored inside the future while it is pending."@, op_range, "operation"@),
            moment("Resumed"@, "After wake-up, polling resumes from the saved state until the future becomes ready."@, op_range, "after"@),
        ]
    } else if family == TeachingDiagramFamily::Closure {
        seq![
            moment("Environment created"@, "Rust creates a closure environment containing each captured value or reference."@, op_range, "before"@),
            moment("Closure called"@, "The capture mode determines whether the call reads, mutates, or consumes the environment."@, op_range, "operation"@),
            moment("After the call"@, "Fn and FnMut environments remain usable; an FnOnce call may consume captured values."@, op_range, "after"@),
        ]
    } else if op is Some {
        let o = op->0;
        let first_range = match fallback {
            Some(r) => r,
            None => o.range,
        };
        if family == TeachingDiagramFamily::TraitObject {
            seq![
                moment("Fat pointer available"@, "The trait-object handle carries a data pointer and vtable metadata."@, first_range, "before"@),
                moment("Dynamic call"@, "`"@ + o.name@ + "` follows the vtable entry while passing the data pointer as its receiver."@, o.range, "operation"@),
                moment("Result"@, "Ownership of the data is still determined by the outer reference or smart pointer."@, o.range, "result"@),
            ]
        } else {
            seq![
                moment("Before"@, "`"@ + focus + "` is available through the access path shown below."@, first_range, "before"@),
                moment("Operation"@, if o.summary@.len() == 0 {
                    "`"@ + o.name@ + "` uses "@ + spec_readable_access(o.required_access@) + "."@
                } else {
                    o.summary@
                }, o.range, "operation"@),
                moment("Result"@, match o.receiver_flow {
                    Some(flow) => flow.after@,
                    None => "The operation's ownership effects are now reflected in the diagram."@,
                }, o.range, "result"@),
            ]
        }
    } else {
        seq![moment("Current shape"@, "The selected type determines how `"@ + focus + "` reaches its value."@, range, "shape"@)]
    }
}

fn new_moment(title: String, explanation: String, range: Range, marker: &str) -> (r: TopologyMoment)
    ensures
        r@ == moment(title@, explanation@, range, marker@),
{
    TopologyMoment { title, explanation, range, path_marker: Some(owned(marker)) }
}

fn three_moments(a: TopologyMoment, b: TopologyMoment, c: TopologyMoment) -> (r: Vec<TopologyMoment>)
    ensures
        moment_views(r@) == seq![a@, b@, c@],
{
    let mut r: Vec<TopologyMoment> = Vec::new();
    r.push(a);
    r.push(b);
    r.push(c);
    assert(moment_views(r@) =~= seq![a@, b@, c@]);
    r
}

/// The moments of the teaching story.
pub fn teaching_moments(
    problem: Option<&OwnershipProblem>,
    model: &OwnershipModel,
    family: TeachingDiagramFamily,
    focus: &str,
    fallback_range: Option<Range>,
) -> (r: Vec<TopologyMoment>)
    ensures
        moment_views(r@) == spec_teaching_moments(opt_problem(problem), *model, family, focus@, fallback_range),
{
    if let Some(graph) = &model.conflict_graph {
        if graph.snapshots.len() > 0 {
            let gs = &graph.snapshots;
            let n: usize = if gs.len() < 6 {
                gs.len()
            } else {
                6
            };
            let ghost target = crate::scene_graph::first_n(gs@, 6).map_values(
                |s: crate::protocol::OwnershipConflictSnapshot|
                    moment(s.title@, s.explanation@, s.range, s.phase@),
            );
            let mut r: Vec<TopologyMoment> = Vec::new();
            let mut i: usize = 0;
            while i < n
                invariant
                    i <= n,
                    n <= gs.len(),
                    n == crate::scene_graph::first_n(gs@, 6).len(),
                    gs == &graph.snapshots,
                    target == crate::scene_graph::first_n(gs@, 6).map_values(
                        |s: crate::protocol::OwnershipConflictSnapshot|
                            moment(s.title@, s.explanation@, s.range, s.phase@),
                    ),
                    moment_views(r@) =~= target.take(i as int),
                decreases n - i,
            {
                let snap = &gs[i];
                let m = new_moment(snap.title.clone(), snap.explanation.clone(), snap.range, snap.phase.as_str());
                assert(crate::scene_graph::first_n(gs@, 6)[i as int] == gs@[i as int]);
                let ghost before = moment_views(r@);
                r.push(m);
                assert(moment_views(r@) =~= before.push(target[i as int]));
                assert(target.take(i + 1) =~= target.take(i as int).push(target[i as int]));
                i += 1;
            }
            assert(target.take(n as int) =~= target);
            return r;
        }
    }
    let range = match fallback_range {
        Some(r) => r,
        None => match problem {
            Some(p) => p.primary_range,
            None => Range { start: crate::protocol::Position { line: 0, character: 0 }, end: crate::protocol::Position { line: 0, character: 0 } },
        },
    };
    let op_index = selected_teaching_operation(problem, model);
    let op_range = match op_index {
        Some(i) => model.operations[i].range,
        None => range,
    };
    if family == TeachingDiagramFamily::Async {
        return three_moments(
            new_moment(owned("Created"), owned("Calling async code creates a future value without running its body to completion."), op_range, "before"),
            new_moment(owned("Suspended at .await"), owned("Polling reached .await. Locals needed later remain stored inside the future while it is pending."), op_range, "operation"),
            new_moment(owned("Resumed"), owned("After wake-up, polling resumes from the saved state until the future becomes ready."), op_range, "after"),
        );
    }
    if family == TeachingDiagramFamily::Closure {
        return three_moments(
            new_moment(owned("Environment created"), owned("Rust creates a closure environment containing each captured value or reference."), op_range, "before"),
            new_moment(owned("Closure called"), owned("The capture mode determines whether the call reads, mutates, or consumes the environment."), op_range, "operation"),
            new_moment(owned("After the call"), owned("Fn and FnMut environments remain usable; an FnOnce call may consume captured values."), op_range, "after"),
        );
    }
    if let Some(i) = op_index {
        let op = &model.operations[i];
        let first_range = match fallback_range {
            Some(r) => r,
            None => op.range,
        };
        if family == TeachingDiagramFamily::TraitObject {
            return three_moments(
                new_moment(owned("Fat pointer available"), owned("The trait-object handle carries a data pointer and vtable metadata."), first_range, "before"),
                new_moment(owned("Dynamic call"), concat3("`", op.name.as_str(), "` follows the vtable entry while passing the data pointer as its receiver."), op.range, "operation"),
                new_moment(owned("Result"), owned("Ownership of the data is still determined by the outer reference or smart pointer."), op.range, "result"),
            );
        }
        let during = if op.summary.as_str().unicode_len() == 0 {
            let mut t = concat3("`", op.name.as_str(), "` uses ");
            t.append(readable_access(op.required_access.as_str()));
            t.append(".");
            t
        } else {
            op.summary.clone()
        };
        let after = match &op.receiver_flow {
            Some(flow) => flow.after.clone(),
            None => owned("The operation's ownership effects are now reflected in the diagram."),
        };
        return three_moments(
            new_moment(owned("Before"), concat3("`", focus, "` is available through the access path shown below."), first_range, "before"),
            new_moment(owned("Operation"), during, op.range, "operation"),
            new_moment(owned("Result"), after, op.range, "result"),
        );
    }
    let mut r: Vec<TopologyMoment> = Vec::new();
    r.push(new_moment(owned("Current shape"), concat3("The selected type determines how `", focus, "` reaches its value."), range, "shape"));
    assert(moment_views(r@) =~= seq![moment("Current shape"@, "The selected type determines how `"@ + focus@ + "` reaches its value."@, range, "shape"@)]);
    r
}

/// Which phase of the story is shown at step `step`: a conflict, after the
/// operation, the operation itself, or before it; `current` when there is
/// no story.
pub open spec fn spec_phase_kind(moments: Seq<MomentView>, step: usize) -> Seq<char> {
    if moments.len() == 0 {
        "current"@
    } else {
        let shown = if step < moments.len() - 1 {
            step as int
        } else {
            moments.len() - 1
        };
        let text = ascii_lower(moments[shown].title + " "@ + moments[shown].explanation);
        if seq_contains(text, "reject"@) || seq_contains(text, "conflict"@) || seq_contains(
            text,
            "cannot borrow"@,
        ) {
            "conflict"@
        } else if seq_contains(text, "end"@) || seq_contains(text, "after"@) || seq_contains(
            text,
            "resume"@,
        ) || seq_contains(text, "result"@) {
            "after"@
        } else if seq_contains(text, "suspend"@) || seq_contains(text, "operation"@) || seq_contains(
            text,
            "call"@,
        ) {
            "operation"@
        } else {
            "before"@
        }
    }
}

pub fn selected_phase_kind(moments: &Vec<TopologyMoment>, selected_step: usize) -> (r: &'static str)
    ensures
        r@ == spec_phase_kind(moment_views(moments@), selected_step),
{
    if moments.len() == 0 {
        return "current";
    }
    let last = moments.len() - 1;
    let shown = if selected_step < last {
        selected_step
    } else {
        last
    };
    let moment = &moments[shown];
    let joined = concat3(moment.title.as_str(), " ", moment.explanation.as_str());
    let text = ascii_lowercased(joined.as_str());
    let text = text.as_str();
    if has_substring(text, "reject") || has_substring(text, "conflict") || has_substring(text, "cannot borrow") {
        "conflict"
    } else if has_substring(text, "end") || has_substring(text, "after") || has_substring(text, "resume")
        || has_substring(text, "result") {
        "after"
    } else if has_substring(text, "suspend") || has_substring(text, "operation") || has_substring(text, "call") {
        "operation"
    } else {
        "before"
    }
}

/// The one-paragraph summary of a teaching scene.
pub open spec fn spec_teaching_summary(
    family: TeachingDiagramFamily,
    problem: Option<OwnershipProblem>,
    op: Option<OwnershipOperationInsight>,
    type_text: Seq<char>,
) -> Seq<char> {
    if family == TeachingDiagramFamily::Sequence && op is Some && op->0.name@ == "push"@
        && problem is Some && opt_text(problem->0.diagnostic_code) == Some("E0502"@) {
        "A shared reference points into the Vec element buffer. `push` needs exclusive access and may replace that buffer, so Rust keeps the reference valid until its final use and rejects the mutation."@
    } else if op is Some {
        let o = op->0;
        let effect = if o.effect_facts@.len() > 0 {
            " "@ + o.effect_facts@[0].summary@
        } else {
            Seq::empty()
        };
        "`"@ + o.name@ + "` operates on `"@ + type_text + "` through "@ + spec_readable_access(
            o.required_access@,
        ) + "."@ + effect
    } else if family == TeachingDiagramFamily::Async {
        "An async body is stored as a future state machine; values needed after `.await` remain inside that future while it is suspended."@
    } else if family == TeachingDiagramFamily::Closure {
        "A closure is a compiler-generated value whose fields are the values or references it captures."@
    } else if family == TeachingDiagramFamily::TraitObject {
        "A trait-object handle combines a data pointer with vtable metadata; its outer wrapper still decides ownership."@
    } else {
        "The selected `"@ + type_text
            + "` is expanded from its local handle to the value or storage it reaches."@
    }
}

pub fn teaching_scene_summary(
    family: TeachingDiagramFamily,
    problem: Option<&OwnershipProblem>,
    operation: Option<&OwnershipOperationInsight>,
    type_text: &str,
) -> (r: String)
    ensures
        r@ == spec_teaching_summary(
            family,
            opt_problem(problem),
            match operation {
                Some(o) => Some(*o),
                None => None,
            },
            type_text@,
        ),
{
    let is_push = match operation {
        Some(op) => str_eq(op.name.as_str(), "push"),
        None => false,
    };
    let is_e0502 = match problem {
        Some(p) => match &p.diagnostic_code {
            Some(code) => str_eq(code.as_str(), "E0502"),
            None => false,
        },
        None => false,
    };
    if family == TeachingDiagramFamily::Sequence && is_push && is_e0502 {
        return owned(
            "A shared reference points into the Vec element buffer. `push` needs exclusive access and may replace that buffer, so Rust keeps the reference valid until its final use and rejects the mutation.",
        );
    }
    if let Some(op) = operation {
        let mut r = concat3("`", op.name.as_str(), "` operates on `");
        r.append(type_text);
        r.append("` through ");
        r.append(readable_access(op.required_access.as_str()));
        r.append(".");
        if op.effect_facts.len() > 0 {
            r.append(" ");
            r.append(op.effect_facts[0].summary.as_str());
        }
        assert(r@ =~= spec_teaching_summary(family, opt_problem(problem), Some(*op), type_text@));
        return r;
    }
    match family {
        TeachingDiagramFamily::Async => owned(
            "An async body is stored as a future state machine; values needed after `.await` remain inside that future while it is suspended.",
        ),
        TeachingDiagramFamily::Closure => owned(
            "A closure is a compiler-generated value whose fields are the values or references it captures.",
        ),
        TeachingDiagramFamily::TraitObject => owned(
            "A trait-object handle combines a data pointer with vtable metadata; its outer wrapper still decides ownership.",
        ),
        _ => concat3(
            "The selected `",
            type_text,
            "` is expanded from its local handle to the value or storage it reaches.",
        ),
    }
}

/// Without an async or closure problem, and with no future, async, closure,
/// `Fn` or `dyn` marker in the type, the teaching picture is chosen by the
/// type's outer constructor: growable collections and `String` are taught as
/// sequences, `Rc`/`Arc`/`Weak`/`Box`/`Pin` as a handle and its owned
/// allocation, cells as interior mutability, locks and their guards as
/// locks, `Option`/`Result`/`Cow` as conditional payloads, and references and
/// raw pointers as references.
#[verifier::rlimit(40)]
#[verifier::spinoff_prover]
pub proof fn teaching_family_follows_the_outer_name(category: Option<Seq<char>>, t: Seq<char>)
    requires
        category != Some("await_outside_async"@),
        category != Some("recursive_async_function"@),
        category != Some("closure_may_outlive_borrow"@),
        category != Some("borrowed_data_escapes"@),
        !seq_contains(t, "Future"@),
        !seq_contains(t, "async"@),
        !seq_contains(t, "closure"@),
        !seq_contains(t, "Fn("@),
        !seq_contains(t, "FnMut"@),
        !seq_contains(t, "FnOnce"@),
        !seq_contains(t, "dyn "@),
    ensures
        ({
            let outer = spec_parse_type(t).0;
            let result = spec_teaching_family(category, t);
            &&& (outer == "Vec"@ || outer == "String"@ || outer == "VecDeque"@ || outer == "BinaryHeap"@ || outer == "HashMap"@ || outer == "HashSet"@ || outer == "BTreeMap"@ || outer == "BTreeSet"@ || outer == "LinkedList"@) ==> result == TeachingDiagramFamily::Sequence
            &&& (outer == "Rc"@ || outer == "Arc"@ || outer == "Weak"@ || outer == "Box"@ || outer == "Pin"@) ==> result == TeachingDiagramFamily::SharedOwner
            &&& (outer == "Cell"@ || outer == "RefCell"@ || outer == "UnsafeCell"@ || outer == "OnceCell"@ || outer == "OnceLock"@) ==> result == TeachingDiagramFamily::InteriorMutable
            &&& (outer == "Mutex"@ || outer == "RwLock"@ || outer == "MutexGuard"@ || outer == "RwLockReadGuard"@ || outer == "RwLockWriteGuard"@) ==> result == TeachingDiagramFamily::Lock
            &&& (outer == "Option"@ || outer == "Result"@ || outer == "Cow"@) ==> result == TeachingDiagramFamily::Conditional
            &&& (outer == "&"@ || outer == "&mut"@ || outer == "*const"@ || outer == "*mut"@) ==> result == TeachingDiagramFamily::Reference
            &&& (outer != "Vec"@ && outer != "String"@ && outer != "VecDeque"@ && outer != "BinaryHeap"@
                && outer != "HashMap"@ && outer != "HashSet"@ && outer != "BTreeMap"@ && outer != "BTreeSet"@
                && outer != "LinkedList"@ && outer != "Rc"@ && outer != "Arc"@ && outer != "Weak"@
                && outer != "Box"@ && outer != "Pin"@ && outer != "Cell"@ && outer != "RefCell"@
                && outer != "UnsafeCell"@ && outer != "OnceCell"@ && outer != "OnceLock"@
                && outer != "Mutex"@ && outer != "RwLock"@ && outer != "MutexGuard"@
                && outer != "RwLockReadGuard"@ && outer != "RwLockWriteGuard"@ && outer != "Option"@
                && outer != "Result"@ && outer != "Cow"@ && outer != "&"@ && outer != "&mut"@
                && outer != "*const"@ && outer != "*mut"@) ==> result == TeachingDiagramFamily::Value
        }),
{
    let outer = spec_parse_type(t).0;
    assert(outer == "Vec"@ ==> spec_teaching_family(category, t) == TeachingDiagramFamily::Sequence) by {
        if outer == "Vec"@ {
            reveal_strlit("Vec");
            assert("Vec"@.len() == 3);
        }
    }
    assert(outer == "String"@ ==> spec_teaching_family(category, t) == TeachingDiagramFamily::Sequence) by {
        if outer == "String"@ {
            reveal_strlit("String");
            assert("String"@.len() == 6);
        }
    }
    assert(outer == "VecDeque"@ ==> spec_teaching_family(category, t) == TeachingDiagramFamily::Sequence) by {
        if outer == "VecDeque"@ {
            reveal_strlit("VecDeque");
            assert("VecDeque"@.len() == 8);
        }
    }
    assert(outer == "BinaryHeap"@ ==> spec_teaching_family(category, t) == TeachingDiagramFamily::Sequence) by {
        if outer == "BinaryHeap"@ {
            reveal_strlit("BinaryHeap");
            assert("BinaryHeap"@.len() == 10);
        }
    }
    assert(outer == "HashMap"@ ==> spec_teaching_family(category, t) == TeachingDiagramFamily::Sequence) by {
        if outer == "HashMap"@ {
            reveal_strlit("HashMap");
            assert("HashMap"@.len() == 7);
        }
    }
    assert(outer == "HashSet"@ ==> spec_teaching_family(category, t) == TeachingDiagramFamily::Sequence) by {
        if outer == "HashSet"@ {
            reveal_strlit("HashSet");
            assert("HashSet"@.len() == 7);
        }
    }
    assert(outer == "BTreeMap"@ ==> spec_teaching_family(category, t) == TeachingDiagramFamily::Sequence) by {
        if outer == "BTreeMap"@ {
            reveal_strlit("BTreeMap");
            assert("BTreeMap"@.len() == 8);
        }
    }
    assert(outer == "BTreeSet"@ ==> spec_teaching_family(category, t) == TeachingDiagramFamily::Sequence) by {
        if outer == "BTreeSet"@ {
            reveal_strlit("BTreeSet");
            assert("BTreeSet"@.len() == 8);
        }
    }
    assert(outer == "LinkedList"@ ==> spec_teaching_family(category, t) == TeachingDiagramFamily::Sequence) by {
        if outer == "LinkedList"@ {
            reveal_strlit("LinkedList");
            assert("LinkedList"@.len() == 10);
        }
    }
    assert(outer == "Rc"@ ==> spec_teaching_family(category, t) == TeachingDiagramFamily::SharedOwner) by {
        if outer == "Rc"@ {
            reveal_strlit("Rc");
            assert("Rc"@.len() == 2);
            reveal_strlit("Vec");
            assert("Vec"@.len() == 3);
            reveal_strlit("String");
            assert("String"@.len() == 6);
            reveal_strlit("VecDeque");
            assert("VecDeque"@.len() == 8);
            reveal_strlit("BinaryHeap");
            assert("BinaryHeap"@.len() == 10);
            reveal_strlit("HashMap");
            assert("HashMap"@.len() == 7);
            reveal_strlit("HashSet");
            assert("HashSet"@.len() == 7);
            reveal_strlit("BTreeMap");
            assert("BTreeMap"@.len() == 8);
            reveal_strlit("BTreeSet");
            assert("BTreeSet"@.len() == 8);
            reveal_strlit("LinkedList");
            assert("LinkedList"@.len() == 10);
            assert("Rc"@ != "Vec"@);
            assert("Rc"@ != "String"@);
            assert("Rc"@ != "VecDeque"@);
            assert("Rc"@ != "BinaryHeap"@);
            assert("Rc"@ != "HashMap"@);
            assert("Rc"@ != "HashSet"@);
            assert("Rc"@ != "BTreeMap"@);
            assert("Rc"@ != "BTreeSet"@);
            assert("Rc"@ != "LinkedList"@);
        }
    }
    assert(outer == "Arc"@ ==> spec_teaching_family(category, t) == TeachingDiagramFamily::SharedOwner) by {
        if outer == "Arc"@ {
            reveal_strlit("Arc");
            assert("Arc"@.len() == 3);
            reveal_strlit("Vec");
            assert("Vec"@.len() == 3);
            reveal_strlit("String");
            assert("String"@.len() == 6);
            reveal_strlit("VecDeque");
            assert("VecDeque"@.len() == 8);
            reveal_strlit("BinaryHeap");
            assert("BinaryHeap"@.len() == 10);
            reveal_strlit("HashMap");
            assert("HashMap"@.len() == 7);
            reveal_strlit("HashSet");
            assert("HashSet"@.len() == 7);
            reveal_strlit("BTreeMap");
            assert("BTreeMap"@.len() == 8);
            reveal_strlit("BTreeSet");
            assert("BTreeSet"@.len() == 8);
            reveal_strlit("LinkedList");
            assert("LinkedList"@.len() == 10);
            assert("Arc"@[0] != "Vec"@[0]);
            assert("Arc"@ != "Vec"@);
            assert("Arc"@ != "String"@);
            assert("Arc"@ != "VecDeque"@);
            assert("Arc"@ != "BinaryHeap"@);
            assert("Arc"@ != "HashMap"@);
            assert("Arc"@ != "HashSet"@);
            assert("Arc"@ != "BTreeMap"@);
            assert("Arc"@ != "BTreeSet"@);
            assert("Arc"@ != "LinkedList"@);
        }
    }
    assert(outer == "Weak"@ ==> spec_teaching_family(category, t) == TeachingDiagramFamily::SharedOwner) by {
        if outer == "Weak"@ {
            reveal_strlit("Weak");
            assert("Weak"@.len() == 4);
            reveal_strlit("Vec");
            assert("Vec"@.len() == 3);
            reveal_strlit("String");
            assert("String"@.len() == 6);
            reveal_strlit("VecDeque");
            assert("VecDeque"@.len() == 8);
            reveal_strlit("BinaryHeap");
            assert("BinaryHeap"@.len() == 10);
            reveal_strlit("HashMap");
            assert("HashMap"@.len() == 7);
            reveal_strlit("HashSet");
            assert("HashSet"@.len() == 7);
            reveal_strlit("BTreeMap");
            assert("BTreeMap"@.len() == 8);
            reveal_strlit("BTreeSet");
            assert("BTreeSet"@.len() == 8);
            reveal_strlit("LinkedList");
            assert("LinkedList"@.len() == 10);
            assert("Weak"@ != "Vec"@);
            assert("Weak"@ != "String"@);
            assert("Weak"@ != "VecDeque"@);
            assert("Weak"@ != "BinaryHeap"@);
            assert("Weak"@ != "HashMap"@);
            assert("Weak"@ != "HashSet"@);
            assert("Weak"@ != "BTreeMap"@);
            assert("Weak"@ != "BTreeSet"@);
            assert("Weak"@ != "LinkedList"@);
        }
    }
    assert(outer == "Box"@ ==> spec_teaching_family(category, t) == TeachingDiagramFamily::SharedOwner) by {
        if outer == "Box"@ {
            reveal_strlit("Box");
            assert("Box"@.len() == 3);
            reveal_strlit("Vec");
            assert("Vec"@.len() == 3);
            reveal_strlit("String");
            assert("String"@.len() == 6);
            reveal_strlit("VecDeque");
            assert("VecDeque"@.len() == 8);
            reveal_strlit("BinaryHeap");
            assert("BinaryHeap"@.len() == 10);
            reveal_strlit("HashMap");
            assert("HashMap"@.len() == 7);
            reveal_strlit("HashSet");
            assert("HashSet"@.len() == 7);
            reveal_strlit("BTreeMap");
            assert("BTreeMap"@.len() == 8);
            reveal_strlit("BTreeSet");
            assert("BTreeSet"@.len() == 8);
            reveal_strlit("LinkedList");
            assert("LinkedList"@.len() == 10);
            assert("Box"@[0] != "Vec"@[0]);
            assert("Box"@ != "Vec"@);
            assert("Box"@ != "String"@);
            assert("Box"@ != "VecDeque"@);
            assert("Box"@ != "BinaryHeap"@);
            assert("Box"@ != "HashMap"@);
            assert("Box"@ != "HashSet"@);
            assert("Box"@ != "BTreeMap"@);
            assert("Box"@ != "BTreeSet"@);
            assert("Box"@ != "LinkedList"@);
        }
    }
    assert(outer == "Pin"@ ==> spec_teaching_family(category, t) == TeachingDiagramFamily::SharedOwner) by {
        if outer == "Pin"@ {
            reveal_strlit("Pin");
            assert("Pin"@.len() == 3);
            reveal_strlit("Vec");
            assert("Vec"@.len() == 3);
            reveal_strlit("String");
            assert("String"@.len() == 6);
            reveal_strlit("VecDeque");
            assert("VecDeque"@.len() == 8);
            reveal_strlit("BinaryHeap");
            assert("BinaryHeap"@.len() == 10);
            reveal_strlit("HashMap");
            assert("HashMap"@.len() == 7);
            reveal_strlit("HashSet");
            assert("HashSet"@.len() == 7);
            reveal_strlit("BTreeMap");
            assert("BTreeMap"@.len() == 8);
            reveal_strlit("BTreeSet");
            assert("BTreeSet"@.len() == 8);
            reveal_strlit("LinkedList");
            assert("LinkedList"@.len() == 10);
            assert("Pin"@[0] != "Vec"@[0]);
            assert("Pin"@ != "Vec"@);
            assert("Pin"@ != "String"@);
            assert("Pin"@ != "VecDeque"@);
            assert("Pin"@ != "BinaryHeap"@);
            assert("Pin"@ != "HashMap"@);
            assert("Pin"@ != "HashSet"@);
            assert("Pin"@ != "BTreeMap"@);
            assert("Pin"@ != "BTreeSet"@);
            assert("Pin"@ != "LinkedList"@);
        }
    }
    assert(outer == "Cell"@ ==> spec_teaching_family(category, t) == TeachingDiagramFamily::InteriorMutable) by {
        if outer == "Cell"@ {
            reveal_strlit("Cell");
            assert("Cell"@.len() == 4);
            reveal_strlit("Vec");
            assert("Vec"@.len() == 3);
            reveal_strlit("String");
            assert("String"@.len() == 6);
            reveal_strlit("VecDeque");
            assert("VecDeque"@.len() == 8);
            reveal_strlit("BinaryHeap");
            assert("BinaryHeap"@.len() == 10);
            reveal_strlit("HashMap");
            assert("HashMap"@.len() == 7);
            reveal_strlit("HashSet");
            assert("HashSet"@.len() == 7);
            reveal_strlit("BTreeMap");
            assert("BTreeMap"@.len() == 8);
            reveal_strlit("BTreeSet");
            assert("BTreeSet"@.len() == 8);
            reveal_strlit("LinkedList");
            assert("LinkedList"@.len() == 10);
            reveal_strlit("Rc");
            assert("Rc"@.len() == 2);
            reveal_strlit("Arc");
            assert("Arc"@.len() == 3);
            reveal_strlit("Weak");
            assert("Weak"@.len() == 4);
            reveal_strlit("Box");
            assert("Box"@.len() == 3);
            reveal_strlit("Pin");
            assert("Pin"@.len() == 3);
            assert("Cell"@ != "Vec"@);
            assert("Cell"@ != "String"@);
            assert("Cell"@ != "VecDeque"@);
            assert("Cell"@ != "BinaryHeap"@);
            assert("Cell"@ != "HashMap"@);
            assert("Cell"@ != "HashSet"@);
            assert("Cell"@ != "BTreeMap"@);
            assert("Cell"@ != "BTreeSet"@);
            assert("Cell"@ != "LinkedList"@);
            assert("Cell"@ != "Rc"@);
            assert("Cell"@ != "Arc"@);
            assert("Cell"@[0] != "Weak"@[0]);
            assert("Cell"@ != "Weak"@);
            assert("Cell"@ != "Box"@);
            assert("Cell"@ != "Pin"@);
        }
    }
    assert(outer == "RefCell"@ ==> spec_teaching_family(category, t) == TeachingDiagramFamily::InteriorMutable) by {
        if outer == "RefCell"@ {
            reveal_strlit("RefCell");
            assert("RefCell"@.len() == 7);
            reveal_strlit("Vec");
            assert("Vec"@.len() == 3);
            reveal_strlit("String");
            assert("String"@.len() == 6);
            reveal_strlit("VecDeque");
            assert("VecDeque"@.len() == 8);
            reveal_strlit("BinaryHeap");
            assert("BinaryHeap"@.len() == 10);
            reveal_strlit("HashMap");
            assert("HashMap"@.len() == 7);
            reveal_strlit("HashSet");
            assert("HashSet"@.len() == 7);
            reveal_strlit("BTreeMap");
            assert("BTreeMap"@.len() == 8);
            reveal_strlit("BTreeSet");
            assert("BTreeSet"@.len() == 8);
            reveal_strlit("LinkedList");
            assert("LinkedList"@.len() == 10);
            reveal_strlit("Rc");
            assert("Rc"@.len() == 2);
            reveal_strlit("Arc");
            assert("Arc"@.len() == 3);
            reveal_strlit("Weak");
            assert("Weak"@.len() == 4);
            reveal_strlit("Box");
            assert("Box"@.len() == 3);
            reveal_strlit("Pin");
            assert("Pin"@.len() == 3);
            assert("RefCell"@ != "Vec"@);
            assert("RefCell"@ != "String"@);
            assert("RefCell"@ != "VecDeque"@);
            assert("RefCell"@ != "BinaryHeap"@);
            assert("RefCell"@[0] != "HashMap"@[0]);
            assert("RefCell"@ != "HashMap"@);
            assert("RefCell"@[0] != "HashSet"@[0]);
            assert("RefCell"@ != "HashSet"@);
            assert("RefCell"@ != "BTreeMap"@);
            assert("RefCell"@ != "BTreeSet"@);
            assert("RefCell"@ != "LinkedList"@);
            assert("RefCell"@ != "Rc"@);
            assert("RefCell"@ != "Arc"@);
            assert("RefCell"@ != "Weak"@);
            assert("RefCell"@ != "Box"@);
            assert("RefCell"@ != "Pin"@);
        }
    }
    assert(outer == "UnsafeCell"@ ==> spec_teaching_family(category, t) == TeachingDiagramFamily::InteriorMutable) by {
        if outer == "UnsafeCell"@ {
            reveal_strlit("UnsafeCell");
            assert("UnsafeCell"@.len() == 10);
            reveal_strlit("Vec");
            assert("Vec"@.len() == 3);
            reveal_strlit("String");
            assert("String"@.len() == 6);
            reveal_strlit("VecDeque");
            assert("VecDeque"@.len() == 8);
            reveal_strlit("BinaryHeap");
            assert("BinaryHeap"@.len() == 10);
            reveal_strlit("HashMap");
            assert("HashMap"@.len() == 7);
            reveal_strlit("HashSet");
            assert("HashSet"@.len() == 7);
            reveal_strlit("BTreeMap");
            assert("BTreeMap"@.len() == 8);
            reveal_strlit("BTreeSet");
            assert("BTreeSet"@.len() == 8);
            reveal_strlit("LinkedList");
            assert("LinkedList"@.len() == 10);
            reveal_strlit("Rc");
            assert("Rc"@.len() == 2);
            reveal_strlit("Arc");
            assert("Arc"@.len() == 3);
            reveal_strlit("Weak");
            assert("Weak"@.len() == 4);
            reveal_strlit("Box");
            assert("Box"@.len() == 3);
            reveal_strlit("Pin");
            assert("Pin"@.len() == 3);
            assert("UnsafeCell"@ != "Vec"@);
            assert("UnsafeCell"@ != "String"@);
            assert("UnsafeCell"@ != "VecDeque"@);
            assert("UnsafeCell"@[0] != "BinaryHeap"@[0]);
            assert("UnsafeCell"@ != "BinaryHeap"@);
            assert("UnsafeCell"@ != "HashMap"@);
            assert("UnsafeCell"@ != "HashSet"@);
            assert("UnsafeCell"@ != "BTreeMap"@);
            assert("UnsafeCell"@ != "BTreeSet"@);
            assert("UnsafeCell"@[0] != "LinkedList"@[0]);
            assert("UnsafeCell"@ != "LinkedList"@);
            assert("UnsafeCell"@ != "Rc"@);
            assert("UnsafeCell"@ != "Arc"@);
            assert("UnsafeCell"@ != "Weak"@);
            assert("UnsafeCell"@ != "Box"@);
            assert("UnsafeCell"@ != "Pin"@);
        }
    }
    assert(outer == "OnceCell"@ ==> spec_teaching_family(category, t) == TeachingDiagramFamily::InteriorMutable) by {
        if outer == "OnceCell"@ {
            reveal_strlit("OnceCell");
            assert("OnceCell"@.len() == 8);
            reveal_strlit("Vec");
            assert("Vec"@.len() == 3);
            reveal_strlit("String");
            assert("String"@.len() == 6);
            reveal_strlit("VecDeque");
            assert("VecDeque"@.len() == 8);
            reveal_strlit("BinaryHeap");
            assert("BinaryHeap"@.len() == 10);
            reveal_strlit("HashMap");
            assert("HashMap"@.len() == 7);
            reveal_strlit("HashSet");
            assert("HashSet"@.len() == 7);
            reveal_strlit("BTreeMap");
            assert("BTreeMap"@.len() == 8);
            reveal_strlit("BTreeSet");
            assert("BTreeSet"@.len() == 8);
            reveal_strlit("LinkedList");
            assert("LinkedList"@.len() == 10);
            reveal_strlit("Rc");
            assert("Rc"@.len() == 2);
            reveal_strlit("Arc");
            assert("Arc"@.len() == 3);
            reveal_strlit("Weak");
            assert("Weak"@.len() == 4);
            reveal_strlit("Box");
            assert("Box"@.len() == 3);
            reveal_strlit("Pin");
            assert("Pin"@.len() == 3);
            assert("OnceCell"@ != "Vec"@);
            assert("OnceCell"@ != "String"@);
            assert("OnceCell"@[0] != "VecDeque"@[0]);
            assert("OnceCell"@ != "VecDeque"@);
            assert("OnceCell"@ != "BinaryHeap"@);
            assert("OnceCell"@ != "HashMap"@);
            assert("OnceCell"@ != "HashSet"@);
            assert("OnceCell"@[0] != "BTreeMap"@[0]);
            assert("OnceCell"@ != "BTreeMap"@);
            assert("OnceCell"@[0] != "BTreeSet"@[0]);
            assert("OnceCell"@ != "BTreeSet"@);
            assert("OnceCell"@ != "LinkedList"@);
            assert("OnceCell"@ != "Rc"@);
            assert("OnceCell"@ != "Arc"@);
            assert("OnceCell"@ != "Weak"@);
            assert("OnceCell"@ != "Box"@);
            assert("OnceCell"@ != "Pin"@);
        }
    }
    assert(outer == "OnceLock"@ ==> spec_teaching_family(category, t) == TeachingDiagramFamily::InteriorMutable) by {
        if outer == "OnceLock"@ {
            reveal_strlit("OnceLock");
            assert("OnceLock"@.len() == 8);
            reveal_strlit("Vec");
            assert("Vec"@.len() == 3);
            reveal_strlit("String");
            assert("String"@.len() == 6);
            reveal_strlit("VecDeque");
            assert("VecDeque"@.len() == 8);
            reveal_strlit("BinaryHeap");
            assert("BinaryHeap"@.len() == 10);
            reveal_strlit("HashMap");
            assert("HashMap"@.len() == 7);
            reveal_strlit("HashSet");
            assert("HashSet"@.len() == 7);
            reveal_strlit("BTreeMap");
            assert("BTreeMap"@.len() == 8);
            reveal_strlit("BTreeSet");
            assert("BTreeSet"@.len() == 8);
            reveal_strlit("LinkedList");
            assert("LinkedList"@.len() == 10);
            reveal_strlit("Rc");
            assert("Rc"@.len() == 2);
            reveal_strlit("Arc");
            assert("Arc"@.len() == 3);
            reveal_strlit("Weak");
            assert("Weak"@.len() == 4);
            reveal_strlit("Box");
            assert("Box"@.len() == 3);
            reveal_strlit("Pin");
            assert("Pin"@.len() == 3);
            assert("OnceLock"@ != "Vec"@);
            assert("OnceLock"@ != "String"@);
            assert("OnceLock"@[0] != "VecDeque"@[0]);
            assert("OnceLock"@ != "VecDeque"@);
            assert("OnceLock"@ != "BinaryHeap"@);
            assert("OnceLock"@ != "HashMap"@);
            assert("OnceLock"@ != "HashSet"@);
            assert("OnceLock"@[0] != "BTreeMap"@[0]);
            assert("OnceLock"@ != "BTreeMap"@);
            assert("OnceLock"@[0] != "BTreeSet"@[0]);
            assert("OnceLock"@ != "BTreeSet"@);
            assert("OnceLock"@ != "LinkedList"@);
            assert("OnceLock"@ != "Rc"@);
            assert("OnceLock"@ != "Arc"@);
            assert("OnceLock"@ != "Weak"@);
            assert("OnceLock"@ != "Box"@);
            assert("OnceLock"@ != "Pin"@);
        }
    }
    assert(outer == "Mutex"@ ==> spec_teaching_family(category, t) == TeachingDiagramFamily::Lock) by {
        if outer == "Mutex"@ {
            reveal_strlit("Mutex");
            assert("Mutex"@.len() == 5);
            reveal_strlit("Vec");
            assert("Vec"@.len() == 3);
            reveal_strlit("String");
            assert("String"@.len() == 6);
            reveal_strlit("VecDeque");
            assert("VecDeque"@.len() == 8);
            reveal_strlit("BinaryHeap");
            assert("BinaryHeap"@.len() == 10);
            reveal_strlit("HashMap");
            assert("HashMap"@.len() == 7);
            reveal_strlit("HashSet");
            assert("HashSet"@.len() == 7);
            reveal_strlit("BTreeMap");
            assert("BTreeMap"@.len() == 8);
            reveal_strlit("BTreeSet");
            assert("BTreeSet"@.len() == 8);
            reveal_strlit("LinkedList");
            assert("LinkedList"@.len() == 10);
            reveal_strlit("Rc");
            assert("Rc"@.len() == 2);
            reveal_strlit("Arc");
            assert("Arc"@.len() == 3);
            reveal_strlit("Weak");
            assert("Weak"@.len() == 4);
            reveal_strlit("Box");
            assert("Box"@.len() == 3);
            reveal_strlit("Pin");
            assert("Pin"@.len() == 3);
            reveal_strlit("Cell");
            assert("Cell"@.len() == 4);
            reveal_strlit("RefCell");
            assert("RefCell"@.len() == 7);
            reveal_strlit("UnsafeCell");
            assert("UnsafeCell"@.len() == 10);
            reveal_strlit("OnceCell");
            assert("OnceCell"@.len() == 8);
            reveal_strlit("OnceLock");
            assert("OnceLock"@.len() == 8);
            assert("Mutex"@ != "Vec"@);
            assert("Mutex"@ != "String"@);
            assert("Mutex"@ != "VecDeque"@);
            assert("Mutex"@ != "BinaryHeap"@);
            assert("Mutex"@ != "HashMap"@);
            assert("Mutex"@ != "HashSet"@);
            assert("Mutex"@ != "BTreeMap"@);
            assert("Mutex"@ != "BTreeSet"@);
            assert("Mutex"@ != "LinkedList"@);
            assert("Mutex"@ != "Rc"@);
            assert("Mutex"@ != "Arc"@);
            assert("Mutex"@ != "Weak"@);
            assert("Mutex"@ != "Box"@);
            assert("Mutex"@ != "Pin"@);
            assert("Mutex"@ != "Cell"@);
            assert("Mutex"@ != "RefCell"@);
            assert("Mutex"@ != "UnsafeCell"@);
            assert("Mutex"@ != "OnceCell"@);
            assert("Mutex"@ != "OnceLock"@);
        }
    }
    assert(outer == "RwLock"@ ==> spec_teaching_family(category, t) == TeachingDiagramFamily::Lock) by {
        if outer == "RwLock"@ {
            reveal_strlit("RwLock");
            assert("RwLock"@.len() == 6);
            reveal_strlit("Vec");
            assert("Vec"@.len() == 3);
            reveal_strlit("String");
            assert("String"@.len() == 6);
            reveal_strlit("VecDeque");
            assert("VecDeque"@.len() == 8);
            reveal_strlit("BinaryHeap");
            assert("BinaryHeap"@.len() == 10);
            reveal_strlit("HashMap");
            assert("HashMap"@.len() == 7);
            reveal_strlit("HashSet");
            assert("HashSet"@.len() == 7);
            reveal_strlit("BTreeMap");
            assert("BTreeMap"@.len() == 8);
            reveal_strlit("BTreeSet");
            assert("BTreeSet"@.len() == 8);
            reveal_strlit("LinkedList");
            assert("LinkedList"@.len() == 10);
            reveal_strlit("Rc");
            assert("Rc"@.len() == 2);
            reveal_strlit("Arc");
            assert("Arc"@.len() == 3);
            reveal_strlit("Weak");
            assert("Weak"@.len() == 4);
            reveal_strlit("Box");
            assert("Box"@.len() == 3);
            reveal_strlit("Pin");
            assert("Pin"@.len() == 3);
            reveal_strlit("Cell");
            assert("Cell"@.len() == 4);
            reveal_strlit("RefCell");
            assert("RefCell"@.len() == 7);
            reveal_strlit("UnsafeCell");
            assert("UnsafeCell"@.len() == 10);
            reveal_strlit("OnceCell");
            assert("OnceCell"@.len() == 8);
            reveal_strlit("OnceLock");
            assert("OnceLock"@.len() == 8);
            assert("RwLock"@ != "Vec"@);
            assert("RwLock"@[0] != "String"@[0]);
            assert("RwLock"@ != "String"@);
            assert("RwLock"@ != "VecDeque"@);
            assert("RwLock"@ != "BinaryHeap"@);
            assert("RwLock"@ != "HashMap"@);
            assert("RwLock"@ != "HashSet"@);
            assert("RwLock"@ != "BTreeMap"@);
            assert("RwLock"@ != "BTreeSet"@);
            assert("RwLock"@ != "LinkedList"@);
            assert("RwLock"@ != "Rc"@);
            assert("RwLock"@ != "Arc"@);
            assert("RwLock"@ != "Weak"@);
            assert("RwLock"@ != "Box"@);
            assert("RwLock"@ != "Pin"@);
            assert("RwLock"@ != "Cell"@);
            assert("RwLock"@ != "RefCell"@);
            assert("RwLock"@ != "UnsafeCell"@);
            assert("RwLock"@ != "OnceCell"@);
            assert("RwLock"@ != "OnceLock"@);
        }
    }
    assert(outer == "MutexGuard"@ ==> spec_teaching_family(category, t) == TeachingDiagramFamily::Lock) by {
        if outer == "MutexGuard"@ {
            reveal_strlit("MutexGuard");
            assert("MutexGuard"@.len() == 10);
            reveal_strlit("Vec");
            assert("Vec"@.len() == 3);
            reveal_strlit("String");
            assert("String"@.len() == 6);
            reveal_strlit("VecDeque");
            assert("VecDeque"@.len() == 8);
            reveal_strlit("BinaryHeap");
            assert("BinaryHeap"@.len() == 10);
            reveal_strlit("HashMap");
            assert("HashMap"@.len() == 7);
            reveal_strlit("HashSet");
            assert("HashSet"@.len() == 7);
            reveal_strlit("BTreeMap");
            assert("BTreeMap"@.len() == 8);
            reveal_strlit("BTreeSet");
            assert("BTreeSet"@.len() == 8);
            reveal_strlit("LinkedList");
            assert("LinkedList"@.len() == 10);
            reveal_strlit("Rc");
            assert("Rc"@.len() == 2);
            reveal_strlit("Arc");
            assert("Arc"@.len() == 3);
            reveal_strlit("Weak");
            assert("Weak"@.len() == 4);
            reveal_strlit("Box");
            assert("Box"@.len() == 3);
            reveal_strlit("Pin");
            assert("Pin"@.len() == 3);
            reveal_strlit("Cell");
            assert("Cell"@.len() == 4);
            reveal_strlit("RefCell");
            assert("RefCell"@.len() == 7);
            reveal_strlit("UnsafeCell");
            assert("UnsafeCell"@.len() == 10);
            reveal_strlit("OnceCell");
            assert("OnceCell"@.len() == 8);
            reveal_strlit("OnceLock");
            assert("OnceLock"@.len() == 8);
            assert("MutexGuard"@ != "Vec"@);
            assert("MutexGuard"@ != "String"@);
            assert("MutexGuard"@ != "VecDeque"@);
            assert("MutexGuard"@[0] != "BinaryHeap"@[0]);
            assert("MutexGuard"@ != "BinaryHeap"@);
            assert("MutexGuard"@ != "HashMap"@);
            assert("MutexGuard"@ != "HashSet"@);
            assert("MutexGuard"@ != "BTreeMap"@);
            assert("MutexGuard"@ != "BTreeSet"@);
            assert("MutexGuard"@[0] != "LinkedList"@[0]);
            assert("MutexGuard"@ != "LinkedList"@);
            assert("MutexGuard"@ != "Rc"@);
            assert("MutexGuard"@ != "Arc"@);
            assert("MutexGuard"@ != "Weak"@);
            assert("MutexGuard"@ != "Box"@);
            assert("MutexGuard"@ != "Pin"@);
            assert("MutexGuard"@ != "Cell"@);
            assert("MutexGuard"@ != "RefCell"@);
            assert("MutexGuard"@[0] != "UnsafeCell"@[0]);
            assert("MutexGuard"@ != "UnsafeCell"@);
            assert("MutexGuard"@ != "OnceCell"@);
            assert("MutexGuard"@ != "OnceLock"@);
        }
    }
    assert(outer == "RwLockReadGuard"@ ==> spec_teaching_family(category, t) == TeachingDiagramFamily::Lock) by {
        if outer == "RwLockReadGuard"@ {
            reveal_strlit("RwLockReadGuard");
            assert("RwLockReadGuard"@.len() == 15);
            reveal_strlit("Vec");
            assert("Vec"@.len() == 3);
            reveal_strlit("String");
            assert("String"@.len() == 6);
            reveal_strlit("VecDeque");
            assert("VecDeque"@.len() == 8);
            reveal_strlit("BinaryHeap");
            assert("BinaryHeap"@.len() == 10);
            reveal_strlit("HashMap");
            assert("HashMap"@.len() == 7);
            reveal_strlit("HashSet");
            assert("HashSet"@.len() == 7);
            reveal_strlit("BTreeMap");
            assert("BTreeMap"@.len() == 8);
            reveal_strlit("BTreeSet");
            assert("BTreeSet"@.len() == 8);
            reveal_strlit("LinkedList");
            assert("LinkedList"@.len() == 10);
            reveal_strlit("Rc");
            assert("Rc"@.len() == 2);
            reveal_strlit("Arc");
            assert("Arc"@.len() == 3);
            reveal_strlit("Weak");
            assert("Weak"@.len() == 4);
            reveal_strlit("Box");
            assert("Box"@.len() == 3);
            reveal_strlit("Pin");
            assert("Pin"@.len() == 3);
            reveal_strlit("Cell");
            assert("Cell"@.len() == 4);
            reveal_strlit("RefCell");
            assert("RefCell"@.len() == 7);
            reveal_strlit("UnsafeCell");
            assert("UnsafeCell"@.len() == 10);
            reveal_strlit("OnceCell");
            assert("OnceCell"@.len() == 8);
            reveal_strlit("OnceLock");
            assert("OnceLock"@.len() == 8);
            assert("RwLockReadGuard"@ != "Vec"@);
            assert("RwLockReadGuard"@ != "String"@);
            assert("RwLockReadGuard"@ != "VecDeque"@);
            assert("RwLockReadGuard"@ != "BinaryHeap"@);
            assert("RwLockReadGuard"@ != "HashMap"@);
            assert("RwLockReadGuard"@ != "HashSet"@);
            assert("RwLockReadGuard"@ != "BTreeMap"@);
            assert("RwLockReadGuard"@ != "BTreeSet"@);
            assert("RwLockReadGuard"@ != "LinkedList"@);
            assert("RwLockReadGuard"@ != "Rc"@);
            assert("RwLockReadGuard"@ != "Arc"@);
            assert("RwLockReadGuard"@ != "Weak"@);
            assert("RwLockReadGuard"@ != "Box"@);
            assert("RwLockReadGuard"@ != "Pin"@);
            assert("RwLockReadGuard"@ != "Cell"@);
            assert("RwLockReadGuard"@ != "RefCell"@);
            assert("RwLockReadGuard"@ != "UnsafeCell"@);
            assert("RwLockReadGuard"@ != "OnceCell"@);
            assert("RwLockReadGuard"@ != "OnceLock"@);
        }
    }
    assert(outer == "RwLockWriteGuard"@ ==> spec_teaching_family(category, t) == TeachingDiagramFamily::Lock) by {
        if outer == "RwLockWriteGuard"@ {
            reveal_strlit("RwLockWriteGuard");
            assert("RwLockWriteGuard"@.len() == 16);
            reveal_strlit("Vec");
            assert("Vec"@.len() == 3);
            reveal_strlit("String");
            assert("String"@.len() == 6);
            reveal_strlit("VecDeque");
            assert("VecDeque"@.len() == 8);
            reveal_strlit("BinaryHeap");
            assert("BinaryHeap"@.len() == 10);
            reveal_strlit("HashMap");
            assert("HashMap"@.len() == 7);
            reveal_strlit("HashSet");
            assert("HashSet"@.len() == 7);
            reveal_strlit("BTreeMap");
            assert("BTreeMap"@.len() == 8);
            reveal_strlit("BTreeSet");
            assert("BTreeSet"@.len() == 8);
            reveal_strlit("LinkedList");
            assert("LinkedList"@.len() == 10);
            reveal_strlit("Rc");
            assert("Rc"@.len() == 2);
            reveal_strlit("Arc");
            assert("Arc"@.len() == 3);
            reveal_strlit("Weak");
            assert("Weak"@.len() == 4);
            reveal_strlit("Box");
            assert("Box"@.len() == 3);
            reveal_strlit("Pin");
            assert("Pin"@.len() == 3);
            reveal_strlit("Cell");
            assert("Cell"@.len() == 4);
            reveal_strlit("RefCell");
            assert("RefCell"@.len() == 7);
            reveal_strlit("UnsafeCell");
            assert("UnsafeCell"@.len() == 10);
            reveal_strlit("OnceCell");
            assert("OnceCell"@.len() == 8);
            reveal_strlit("OnceLock");
            assert("OnceLock"@.len() == 8);
            assert("RwLockWriteGuard"@ != "Vec"@);
            assert("RwLockWriteGuard"@ != "String"@);
            assert("RwLockWriteGuard"@ != "VecDeque"@);
            assert("RwLockWriteGuard"@ != "BinaryHeap"@);
            assert("RwLockWriteGuard"@ != "HashMap"@);
            assert("RwLockWriteGuard"@ != "HashSet"@);
            assert("RwLockWriteGuard"@ != "BTreeMap"@);
            assert("RwLockWriteGuard"@ != "BTreeSet"@);
            assert("RwLockWriteGuard"@ != "LinkedList"@);
            assert("RwLockWriteGuard"@ != "Rc"@);
            assert("RwLockWriteGuard"@ != "Arc"@);
            assert("RwLockWriteGuard"@ != "Weak"@);
            assert("RwLockWriteGuard"@ != "Box"@);
            assert("RwLockWriteGuard"@ != "Pin"@);
            assert("RwLockWriteGuard"@ != "Cell"@);
            assert("RwLockWriteGuard"@ != "RefCell"@);
            assert("RwLockWriteGuard"@ != "UnsafeCell"@);
            assert("RwLockWriteGuard"@ != "OnceCell"@);
            assert("RwLockWriteGuard"@ != "OnceLock"@);
        }
    }
    assert(outer == "Option"@ ==> spec_teaching_family(category, t) == TeachingDiagramFamily::Conditional) by {
        if outer == "Option"@ {
            reveal_strlit("Option");
            assert("Option"@.len() == 6);
            reveal_strlit("Vec");
            assert("Vec"@.len() == 3);
            reveal_strlit("String");
            assert("String"@.len() == 6);
            reveal_strlit("VecDeque");
            assert("VecDeque"@.len() == 8);
            reveal_strlit("BinaryHeap");
            assert("BinaryHeap"@.len() == 10);
            reveal_strlit("HashMap");
            assert("HashMap"@.len() == 7);
            reveal_strlit("HashSet");
            assert("HashSet"@.len() == 7);
            reveal_strlit("BTreeMap");
            assert("BTreeMap"@.len() == 8);
            reveal_strlit("BTreeSet");
            assert("BTreeSet"@.len() == 8);
            reveal_strlit("LinkedList");
            assert("LinkedList"@.len() == 10);
            reveal_strlit("Rc");
            assert("Rc"@.len() == 2);
            reveal_strlit("Arc");
            assert("Arc"@.len() == 3);
            reveal_strlit("Weak");
            assert("Weak"@.len() == 4);
            reveal_strlit("Box");
            assert("Box"@.len() == 3);
            reveal_strlit("Pin");
            assert("Pin"@.len() == 3);
            reveal_strlit("Cell");
            assert("Cell"@.len() == 4);
            reveal_strlit("RefCell");
            assert("RefCell"@.len() == 7);
            reveal_strlit("UnsafeCell");
            assert("UnsafeCell"@.len() == 10);
            reveal_strlit("OnceCell");
            assert("OnceCell"@.len() == 8);
            reveal_strlit("OnceLock");
            assert("OnceLock"@.len() == 8);
            reveal_strlit("Mutex");
            assert("Mutex"@.len() == 5);
            reveal_strlit("RwLock");
            assert("RwLock"@.len() == 6);
            reveal_strlit("MutexGuard");
            assert("MutexGuard"@.len() == 10);
            reveal_strlit("RwLockReadGuard");
            assert("RwLockReadGuard"@.len() == 15);
            reveal_strlit("RwLockWriteGuard");
            assert("RwLockWriteGuard"@.len() == 16);
            assert("Option"@ != "Vec"@);
            assert("Option"@[0] != "String"@[0]);
            assert("Option"@ != "String"@);
            assert("Option"@ != "VecDeque"@);
            assert("Option"@ != "BinaryHeap"@);
            assert("Option"@ != "HashMap"@);
            assert("Option"@ != "HashSet"@);
            assert("Option"@ != "BTreeMap"@);
            assert("Option"@ != "BTreeSet"@);
            assert("Option"@ != "LinkedList"@);
            assert("Option"@ != "Rc"@);
            assert("Option"@ != "Arc"@);
            assert("Option"@ != "Weak"@);
            assert("Option"@ != "Box"@);
            assert("Option"@ != "Pin"@);
            assert("Option"@ != "Cell"@);
            assert("Option"@ != "RefCell"@);
            assert("Option"@ != "UnsafeCell"@);
            assert("Option"@ != "OnceCell"@);
            assert("Option"@ != "OnceLock"@);
            assert("Option"@ != "Mutex"@);
            assert("Option"@[0] != "RwLock"@[0]);
            assert("Option"@ != "RwLock"@);
            assert("Option"@ != "MutexGuard"@);
            assert("Option"@ != "RwLockReadGuard"@);
            assert("Option"@ != "RwLockWriteGuard"@);
        }
    }
    assert(outer == "Result"@ ==> spec_teaching_family(category, t) == TeachingDiagramFamily::Conditional) by {
        if outer == "Result"@ {
            reveal_strlit("Result");
            assert("Result"@.len() == 6);
            reveal_strlit("Vec");
            assert("Vec"@.len() == 3);
            reveal_strlit("String");
            assert("String"@.len() == 6);
            reveal_strlit("VecDeque");
            assert("VecDeque"@.len() == 8);
            reveal_strlit("BinaryHeap");
            assert("BinaryHeap"@.len() == 10);
            reveal_strlit("HashMap");
            assert("HashMap"@.len() == 7);
            reveal_strlit("HashSet");
            assert("HashSet"@.len() == 7);
            reveal_strlit("BTreeMap");
            assert("BTreeMap"@.len() == 8);
            reveal_strlit("BTreeSet");
            assert("BTreeSet"@.len() == 8);
            reveal_strlit("LinkedList");
            assert("LinkedList"@.len() == 10);
            reveal_strlit("Rc");
            assert("Rc"@.len() == 2);
            reveal_strlit("Arc");
            assert("Arc"@.len() == 3);
            reveal_strlit("Weak");
            assert("Weak"@.len() == 4);
            reveal_strlit("Box");
            assert("Box"@.len() == 3);
            reveal_strlit("Pin");
            assert("Pin"@.len() == 3);
            reveal_strlit("Cell");
            assert("Cell"@.len() == 4);
            reveal_strlit("RefCell");
            assert("RefCell"@.len() == 7);
            reveal_strlit("UnsafeCell");
            assert("UnsafeCell"@.len() == 10);
            reveal_strlit("OnceCell");
            assert("OnceCell"@.len() == 8);
            reveal_strlit("OnceLock");
            assert("OnceLock"@.len() == 8);
            reveal_strlit("Mutex");
            assert("Mutex"@.len() == 5);
            reveal_strlit("RwLock");
            assert("RwLock"@.len() == 6);
            reveal_strlit("MutexGuard");
            assert("MutexGuard"@.len() == 10);
            reveal_strlit("RwLockReadGuard");
            assert("RwLockReadGuard"@.len() == 15);
            reveal_strlit("RwLockWriteGuard");
            assert("RwLockWriteGuard"@.len() == 16);
            assert("Result"@ != "Vec"@);
            assert("Result"@[0] != "String"@[0]);
            assert("Result"@ != "String"@);
            assert("Result"@ != "VecDeque"@);
            assert("Result"@ != "BinaryHeap"@);
            assert("Result"@ != "HashMap"@);
            assert("Result"@ != "HashSet"@);
            assert("Result"@ != "BTreeMap"@);
            assert("Result"@ != "BTreeSet"@);
            assert("Result"@ != "LinkedList"@);
            assert("Result"@ != "Rc"@);
            assert("Result"@ != "Arc"@);
            assert("Result"@ != "Weak"@);
            assert("Result"@ != "Box"@);
            assert("Result"@ != "Pin"@);
            assert("Result"@ != "Cell"@);
            assert("Result"@ != "RefCell"@);
            assert("Result"@ != "UnsafeCell"@);
            assert("Result"@ != "OnceCell"@);
            assert("Result"@ != "OnceLock"@);
            assert("Result"@ != "Mutex"@);
            assert("Result"@[1] != "RwLock"@[1]);
            assert("Result"@ != "RwLock"@);
            assert("Result"@ != "MutexGuard"@);
            assert("Result"@ != "RwLockReadGuard"@);
            assert("Result"@ != "RwLockWriteGuard"@);
        }
    }
    assert(outer == "Cow"@ ==> spec_teaching_family(category, t) == TeachingDiagramFamily::Conditional) by {
        if outer == "Cow"@ {
            reveal_strlit("Cow");
            assert("Cow"@.len() == 3);
            reveal_strlit("Vec");
            assert("Vec"@.len() == 3);
            reveal_strlit("String");
            assert("String"@.len() == 6);
            reveal_strlit("VecDeque");
            assert("VecDeque"@.len() == 8);
            reveal_strlit("BinaryHeap");
            assert("BinaryHeap"@.len() == 10);
            reveal_strlit("HashMap");
            assert("HashMap"@.len() == 7);
            reveal_strlit("HashSet");
            assert("HashSet"@.len() == 7);
            reveal_strlit("BTreeMap");
            assert("BTreeMap"@.len() == 8);
            reveal_strlit("BTreeSet");
            assert("BTreeSet"@.len() == 8);
            reveal_strlit("LinkedList");
            assert("LinkedList"@.len() == 10);
            reveal_strlit("Rc");
            assert("Rc"@.len() == 2);
            reveal_strlit("Arc");
            assert("Arc"@.len() == 3);
            reveal_strlit("Weak");
            assert("Weak"@.len() == 4);
            reveal_strlit("Box");
            assert("Box"@.len() == 3);
            reveal_strlit("Pin");
            assert("Pin"@.len() == 3);
            reveal_strlit("Cell");
            assert("Cell"@.len() == 4);
            reveal_strlit("RefCell");
            assert("RefCell"@.len() == 7);
            reveal_strlit("UnsafeCell");
            assert("UnsafeCell"@.len() == 10);
            reveal_strlit("OnceCell");
            assert("OnceCell"@.len() == 8);
            reveal_strlit("OnceLock");
            assert("OnceLock"@.len() == 8);
            reveal_strlit("Mutex");
            assert("Mutex"@.len() == 5);
            reveal_strlit("RwLock");
            assert("RwLock"@.len() == 6);
            reveal_strlit("MutexGuard");
            assert("MutexGuard"@.len() == 10);
            reveal_strlit("RwLockReadGuard");
            assert("RwLockReadGuard"@.len() == 15);
            reveal_strlit("RwLockWriteGuard");
            assert("RwLockWriteGuard"@.len() == 16);
            assert("Cow"@[0] != "Vec"@[0]);
            assert("Cow"@ != "Vec"@);
            assert("Cow"@ != "String"@);
            assert("Cow"@ != "VecDeque"@);
            assert("Cow"@ != "BinaryHeap"@);
            assert("Cow"@ != "HashMap"@);
            assert("Cow"@ != "HashSet"@);
            assert("Cow"@ != "BTreeMap"@);
            assert("Cow"@ != "BTreeSet"@);
            assert("Cow"@ != "LinkedList"@);
            assert("Cow"@ != "Rc"@);
            assert("Cow"@[0] != "Arc"@[0]);
            assert("Cow"@ != "Arc"@);
            assert("Cow"@ != "Weak"@);
            assert("Cow"@[0] != "Box"@[0]);
            assert("Cow"@ != "Box"@);
            assert("Cow"@[0] != "Pin"@[0]);
            assert("Cow"@ != "Pin"@);
            assert("Cow"@ != "Cell"@);
            assert("Cow"@ != "RefCell"@);
            assert("Cow"@ != "UnsafeCell"@);
            assert("Cow"@ != "OnceCell"@);
            assert("Cow"@ != "OnceLock"@);
            assert("Cow"@ != "Mutex"@);
            assert("Cow"@ != "RwLock"@);
            assert("Cow"@ != "MutexGuard"@);
            assert("Cow"@ != "RwLockReadGuard"@);
            assert("Cow"@ != "RwLockWriteGuard"@);
        }
    }
    assert(outer == "&"@ ==> spec_teaching_family(category, t) == TeachingDiagramFamily::Reference) by {
        if outer == "&"@ {
            reveal_strlit("&");
            assert("&"@.len() == 1);
            reveal_strlit("Vec");
            assert("Vec"@.len() == 3);
            reveal_strlit("String");
            assert("String"@.len() == 6);
            reveal_strlit("VecDeque");
            assert("VecDeque"@.len() == 8);
            reveal_strlit("BinaryHeap");
            assert("BinaryHeap"@.len() == 10);
            reveal_strlit("HashMap");
            assert("HashMap"@.len() == 7);
            reveal_strlit("HashSet");
            assert("HashSet"@.len() == 7);
            reveal_strlit("BTreeMap");
            assert("BTreeMap"@.len() == 8);
            reveal_strlit("BTreeSet");
            assert("BTreeSet"@.len() == 8);
            reveal_strlit("LinkedList");
            assert("LinkedList"@.len() == 10);
            reveal_strlit("Rc");
            assert("Rc"@.len() == 2);
            reveal_strlit("Arc");
            assert("Arc"@.len() == 3);
            reveal_strlit("Weak");
            assert("Weak"@.len() == 4);
            reveal_strlit("Box");
            assert("Box"@.len() == 3);
            reveal_strlit("Pin");
            assert("Pin"@.len() == 3);
            reveal_strlit("Cell");
            assert("Cell"@.len() == 4);
            reveal_strlit("RefCell");
            assert("RefCell"@.len() == 7);
            reveal_strlit("UnsafeCell");
            assert("UnsafeCell"@.len() == 10);
            reveal_strlit("OnceCell");
            assert("OnceCell"@.len() == 8);
            reveal_strlit("OnceLock");
            assert("OnceLock"@.len() == 8);
            reveal_strlit("Mutex");
            assert("Mutex"@.len() == 5);
            reveal_strlit("RwLock");
            assert("RwLock"@.len() == 6);
            reveal_strlit("MutexGuard");
            assert("MutexGuard"@.len() == 10);
            reveal_strlit("RwLockReadGuard");
            assert("RwLockReadGuard"@.len() == 15);
            reveal_strlit("RwLockWriteGuard");
            assert("RwLockWriteGuard"@.len() == 16);
            reveal_strlit("Option");
            assert("Option"@.len() == 6);
            reveal_strlit("Result");
            assert("Result"@.len() == 6);
            reveal_strlit("Cow");
            assert("Cow"@.len() == 3);
            assert("&"@ != "Vec"@);
            assert("&"@ != "String"@);
            assert("&"@ != "VecDeque"@);
            assert("&"@ != "BinaryHeap"@);
            assert("&"@ != "HashMap"@);
            assert("&"@ != "HashSet"@);
            assert("&"@ != "BTreeMap"@);
            assert("&"@ != "BTreeSet"@);
            assert("&"@ != "LinkedList"@);
            assert("&"@ != "Rc"@);
            assert("&"@ != "Arc"@);
            assert("&"@ != "Weak"@);
            assert("&"@ != "Box"@);
            assert("&"@ != "Pin"@);
            assert("&"@ != "Cell"@);
            assert("&"@ != "RefCell"@);
            assert("&"@ != "UnsafeCell"@);
            assert("&"@ != "OnceCell"@);
            assert("&"@ != "OnceLock"@);
            assert("&"@ != "Mutex"@);
            assert("&"@ != "RwLock"@);
            assert("&"@ != "MutexGuard"@);
            assert("&"@ != "RwLockReadGuard"@);
            assert("&"@ != "RwLockWriteGuard"@);
            assert("&"@ != "Option"@);
            assert("&"@ != "Result"@);
            assert("&"@ != "Cow"@);
        }
    }
    assert(outer == "&mut"@ ==> spec_teaching_family(category, t) == TeachingDiagramFamily::Reference) by {
        if outer == "&mut"@ {
            reveal_strlit("&mut");
            assert("&mut"@.len() == 4);
            reveal_strlit("Vec");
            assert("Vec"@.len() == 3);
            reveal_strlit("String");
            assert("String"@.len() == 6);
            reveal_strlit("VecDeque");
            assert("VecDeque"@.len() == 8);
            reveal_strlit("BinaryHeap");
            assert("BinaryHeap"@.len() == 10);
            reveal_strlit("HashMap");
            assert("HashMap"@.len() == 7);
            reveal_strlit("HashSet");
            assert("HashSet"@.len() == 7);
            reveal_strlit("BTreeMap");
            assert("BTreeMap"@.len() == 8);
            reveal_strlit("BTreeSet");
            assert("BTreeSet"@.len() == 8);
            reveal_strlit("LinkedList");
            assert("LinkedList"@.len() == 10);
            reveal_strlit("Rc");
            assert("Rc"@.len() == 2);
            reveal_strlit("Arc");
            assert("Arc"@.len() == 3);
            reveal_strlit("Weak");
            assert("Weak"@.len() == 4);
            reveal_strlit("Box");
            assert("Box"@.len() == 3);
            reveal_strlit("Pin");
            assert("Pin"@.len() == 3);
            reveal_strlit("Cell");
            assert("Cell"@.len() == 4);
            reveal_strlit("RefCell");
            assert("RefCell"@.len() == 7);
            reveal_strlit("UnsafeCell");
            assert("UnsafeCell"@.len() == 10);
            reveal_strlit("OnceCell");
            assert("OnceCell"@.len() == 8);
            reveal_strlit("OnceLock");
            assert("OnceLock"@.len() == 8);
            reveal_strlit("Mutex");
            assert("Mutex"@.len() == 5);
            reveal_strlit("RwLock");
            assert("RwLock"@.len() == 6);
            reveal_strlit("MutexGuard");
            assert("MutexGuard"@.len() == 10);
            reveal_strlit("RwLockReadGuard");
            assert("RwLockReadGuard"@.len() == 15);
            reveal_strlit("RwLockWriteGuard");
            assert("RwLockWriteGuard"@.len() == 16);
            reveal_strlit("Option");
            assert("Option"@.len() == 6);
            reveal_strlit("Result");
            assert("Result"@.len() == 6);
            reveal_strlit("Cow");
            assert("Cow"@.len() == 3);
            assert("&mut"@ != "Vec"@);
            assert("&mut"@ != "String"@);
            assert("&mut"@ != "VecDeque"@);
            assert("&mut"@ != "BinaryHeap"@);
            assert("&mut"@ != "HashMap"@);
            assert("&mut"@ != "HashSet"@);
            assert("&mut"@ != "BTreeMap"@);
            assert("&mut"@ != "BTreeSet"@);
            assert("&mut"@ != "LinkedList"@);
            assert("&mut"@ != "Rc"@);
            assert("&mut"@ != "Arc"@);
            assert("&mut"@[0] != "Weak"@[0]);
            assert("&mut"@ != "Weak"@);
            assert("&mut"@ != "Box"@);
            assert("&mut"@ != "Pin"@);
            assert("&mut"@[0] != "Cell"@[0]);
            assert("&mut"@ != "Cell"@);
            assert("&mut"@ != "RefCell"@);
            assert("&mut"@ != "UnsafeCell"@);
            assert("&mut"@ != "OnceCell"@);
            assert("&mut"@ != "OnceLock"@);
            assert("&mut"@ != "Mutex"@);
            assert("&mut"@ != "RwLock"@);
            assert("&mut"@ != "MutexGuard"@);
            assert("&mut"@ != "RwLockReadGuard"@);
            assert("&mut"@ != "RwLockWriteGuard"@);
            assert("&mut"@ != "Option"@);
            assert("&mut"@ != "Result"@);
            assert("&mut"@ != "Cow"@);
        }
    }
    assert(outer == "*const"@ ==> spec_teaching_family(category, t) == TeachingDiagramFamily::Reference) by {
        if outer == "*const"@ {
            reveal_strlit("*const");
            assert("*const"@.len() == 6);
            reveal_strlit("Vec");
            assert("Vec"@.len() == 3);
            reveal_strlit("String");
            assert("String"@.len() == 6);
            reveal_strlit("VecDeque");
            assert("VecDeque"@.len() == 8);
            reveal_strlit("BinaryHeap");
            assert("BinaryHeap"@.len() == 10);
            reveal_strlit("HashMap");
            assert("HashMap"@.len() == 7);
            reveal_strlit("HashSet");
            assert("HashSet"@.len() == 7);
            reveal_strlit("BTreeMap");
            assert("BTreeMap"@.len() == 8);
            reveal_strlit("BTreeSet");
            assert("BTreeSet"@.len() == 8);
            reveal_strlit("LinkedList");
            assert("LinkedList"@.len() == 10);
            reveal_strlit("Rc");
            assert("Rc"@.len() == 2);
            reveal_strlit("Arc");
            assert("Arc"@.len() == 3);
            reveal_strlit("Weak");
            assert("Weak"@.len() == 4);
            reveal_strlit("Box");
            assert("Box"@.len() == 3);
            reveal_strlit("Pin");
            assert("Pin"@.len() == 3);
            reveal_strlit("Cell");
            assert("Cell"@.len() == 4);
            reveal_strlit("RefCell");
            assert("RefCell"@.len() == 7);
            reveal_strlit("UnsafeCell");
            assert("UnsafeCell"@.len() == 10);
            reveal_strlit("OnceCell");
            assert("OnceCell"@.len() == 8);
            reveal_strlit("OnceLock");
            assert("OnceLock"@.len() == 8);
            reveal_strlit("Mutex");
            assert("Mutex"@.len() == 5);
            reveal_strlit("RwLock");
            assert("RwLock"@.len() == 6);
            reveal_strlit("MutexGuard");
            assert("MutexGuard"@.len() == 10);
            reveal_strlit("RwLockReadGuard");
            assert("RwLockReadGuard"@.len() == 15);
            reveal_strlit("RwLockWriteGuard");
            assert("RwLockWriteGuard"@.len() == 16);
            reveal_strlit("Option");
            assert("Option"@.len() == 6);
            reveal_strlit("Result");
            assert("Result"@.len() == 6);
            reveal_strlit("Cow");
            assert("Cow"@.len() == 3);
            assert("*const"@ != "Vec"@);
            assert("*const"@[0] != "String"@[0]);
            assert("*const"@ != "String"@);
            assert("*const"@ != "VecDeque"@);
            assert("*const"@ != "BinaryHeap"@);
            assert("*const"@ != "HashMap"@);
            assert("*const"@ != "HashSet"@);
            assert("*const"@ != "BTreeMap"@);
            assert("*const"@ != "BTreeSet"@);
            assert("*const"@ != "LinkedList"@);
            assert("*const"@ != "Rc"@);
            assert("*const"@ != "Arc"@);
            assert("*const"@ != "Weak"@);
            assert("*const"@ != "Box"@);
            assert("*const"@ != "Pin"@);
            assert("*const"@ != "Cell"@);
            assert("*const"@ != "RefCell"@);
            assert("*const"@ != "UnsafeCell"@);
            assert("*const"@ != "OnceCell"@);
            assert("*const"@ != "OnceLock"@);
            assert("*const"@ != "Mutex"@);
            assert("*const"@[0] != "RwLock"@[0]);
            assert("*const"@ != "RwLock"@);
            assert("*const"@ != "MutexGuard"@);
            assert("*const"@ != "RwLockReadGuard"@);
            assert("*const"@ != "RwLockWriteGuard"@);
            assert("*const"@[0] != "Option"@[0]);
            assert("*const"@ != "Option"@);
            assert("*const"@[0] != "Result"@[0]);
            assert("*const"@ != "Result"@);
            assert("*const"@ != "Cow"@);
        }
    }
    assert(outer == "*mut"@ ==> spec_teaching_family(category, t) == TeachingDiagramFamily::Reference) by {
        if outer == "*mut"@ {
            reveal_strlit("*mut");
            assert("*mut"@.len() == 4);
            reveal_strlit("Vec");
            assert("Vec"@.len() == 3);
            reveal_strlit("String");
            assert("String"@.len() == 6);
            reveal_strlit("VecDeque");
            assert("VecDeque"@.len() == 8);
            reveal_strlit("BinaryHeap");
            assert("BinaryHeap"@.len() == 10);
            reveal_strlit("HashMap");
            assert("HashMap"@.len() == 7);
            reveal_strlit("HashSet");
            assert("HashSet"@.len() == 7);
            reveal_strlit("BTreeMap");
            assert("BTreeMap"@.len() == 8);
            reveal_strlit("BTreeSet");
            assert("BTreeSet"@.len() == 8);
            reveal_strlit("LinkedList");
            assert("LinkedList"@.len() == 10);
            reveal_strlit("Rc");
            assert("Rc"@.len() == 2);
            reveal_strlit("Arc");
            assert("Arc"@.len() == 3);
            reveal_strlit("Weak");
            assert("Weak"@.len() == 4);
            reveal_strlit("Box");
            assert("Box"@.len() == 3);
            reveal_strlit("Pin");
            assert("Pin"@.len() == 3);
            reveal_strlit("Cell");
            assert("Cell"@.len() == 4);
            reveal_strlit("RefCell");
            assert("RefCell"@.len() == 7);
            reveal_strlit("UnsafeCell");
            assert("UnsafeCell"@.len() == 10);
            reveal_strlit("OnceCell");
            assert("OnceCell"@.len() == 8);
            reveal_strlit("OnceLock");
            assert("OnceLock"@.len() == 8);
            reveal_strlit("Mutex");
            assert("Mutex"@.len() == 5);
            reveal_strlit("RwLock");
            assert("RwLock"@.len() == 6);
            reveal_strlit("MutexGuard");
            assert("MutexGuard"@.len() == 10);
            reveal_strlit("RwLockReadGuard");
            assert("RwLockReadGuard"@.len() == 15);
            reveal_strlit("RwLockWriteGuard");
            assert("RwLockWriteGuard"@.len() == 16);
            reveal_strlit("Option");
            assert("Option"@.len() == 6);
            reveal_strlit("Result");
            assert("Result"@.len() == 6);
            reveal_strlit("Cow");
            assert("Cow"@.len() == 3);
            assert("*mut"@ != "Vec"@);
            assert("*mut"@ != "String"@);
            assert("*mut"@ != "VecDeque"@);
            assert("*mut"@ != "BinaryHeap"@);
            assert("*mut"@ != "HashMap"@);
            assert("*mut"@ != "HashSet"@);
            assert("*mut"@ != "BTreeMap"@);
            assert("*mut"@ != "BTreeSet"@);
            assert("*mut"@ != "LinkedList"@);
            assert("*mut"@ != "Rc"@);
            assert("*mut"@ != "Arc"@);
            assert("*mut"@[0] != "Weak"@[0]);
            assert("*mut"@ != "Weak"@);
            assert("*mut"@ != "Box"@);
            assert("*mut"@ != "Pin"@);
            assert("*mut"@[0] != "Cell"@[0]);
            assert("*mut"@ != "Cell"@);
            assert("*mut"@ != "RefCell"@);
            assert("*mut"@ != "UnsafeCell"@);
            assert("*mut"@ != "OnceCell"@);
            assert("*mut"@ != "OnceLock"@);
            assert("*mut"@ != "Mutex"@);
            assert("*mut"@ != "RwLock"@);
            assert("*mut"@ != "MutexGuard"@);
            assert("*mut"@ != "RwLockReadGuard"@);
            assert("*mut"@ != "RwLockWriteGuard"@);
            assert("*mut"@ != "Option"@);
            assert("*mut"@ != "Result"@);
            assert("*mut"@ != "Cow"@);
        }
    }
}

/// Async comes first in choosing a teaching picture: an async problem or a
/// future or `async` in the type is taught as an async state machine; then
/// a closure problem or a closure or `Fn` trait in the type as a closure
/// environment; then a `dyn` type as a trait object.
pub proof fn teaching_family_markers_come_first(category: Option<Seq<char>>, t: Seq<char>)
    ensures
        ({
            let is_async = category == Some("await_outside_async"@) || category == Some(
                "recursive_async_function"@,
            ) || seq_contains(t, "Future"@) || seq_contains(t, "async"@);
            let is_closure = category == Some("closure_may_outlive_borrow"@) || category == Some(
                "borrowed_data_escapes"@,
            ) || seq_contains(t, "closure"@) || seq_contains(t, "Fn("@) || seq_contains(t, "FnMut"@)
                || seq_contains(t, "FnOnce"@);
            &&& is_async ==> spec_teaching_family(category, t) == TeachingDiagramFamily::Async
            &&& (!is_async && is_closure) ==> spec_teaching_family(category, t)
                == TeachingDiagramFamily::Closure
            &&& (!is_async && !is_closure && seq_contains(t, "dyn "@)) ==> spec_teaching_family(
                category,
                t,
            ) == TeachingDiagramFamily::TraitObject
        }),
{
}

} // verus!
