//! The coach's words: the story of each problem family, what each event
//! and state is called, the smart-pointer layers a type has, the repair an
//! intent calls for, and the guided facts and moments shown for a problem.
use vstd::prelude::*;

use crate::panel::{readable_access, spec_readable_access};
use crate::protocol::{
    OwnershipConflictSnapshot, OwnershipContextItem, OwnershipEvent, OwnershipModel,
    OwnershipProblem, OwnershipSourceContext, OwnershipValueTraceStep, Range,
};
use crate::scene_graph::{selected_mutation_operation, spec_mutation_operation};
use crate::text::{
    char_string, chars_of, is_whitespace, slice_owned, spec_is_whitespace,
    concat2, concat3, decimal, decimal_string, has_prefix, has_substring, opt_text, owned,
    seq_contains, starts_with, str_eq,
};

verus! {

/// The title, what happened and why Rust refuses it, for a problem of
/// `category` about `name`.
pub open spec fn spec_problem_story(category: Seq<char>, name: Seq<char>) -> (Seq<char>, Seq<char>, Seq<char>) {
    if category == "use_after_move"@ {
        ("`"@ + name + "` was used after its value moved"@, "An earlier operation transferred ownership out of `"@ + name + "`. The old name no longer owns a value."@, "Allowing the old name to be used could make two places believe they uniquely own the same resource."@)
    } else if category == "partial_move"@ {
        ("Part of `"@ + name + "` moved"@, "One non-Copy field was taken out of `"@ + name + "`. Other fields may still be usable, but the whole value is incomplete."@, "Rust prevents using the complete struct until the moved field is put back."@)
    } else if category == "multiple_mutable_borrows"@ {
        ("`"@ + name + "` has two overlapping mutable borrows"@, "A mutable reference is still live when another mutable reference is requested."@, "Rust permits either many readers or one writer at a time, never two writers to the same value."@)
    } else if category == "mutable_while_shared"@ {
        ("`"@ + name + "` is borrowed for reading and writing at the same time"@, "A shared reference remains live when code tries to create a mutable reference."@, "Changing a value while another reference may read it would invalidate the reader's assumptions."@)
    } else if category == "move_while_borrowed"@ {
        ("`"@ + name + "` moved while a borrow was still live"@, "A reference still points at the value when ownership is transferred elsewhere."@, "The move could invalidate the existing reference, so Rust requires the borrow to end first."@)
    } else if category == "assign_while_borrowed"@ {
        ("`"@ + name + "` changed while it was borrowed"@, "Code assigns a new value while a reference to the old value remains live."@, "Rust keeps references stable for their complete live range."@)
    } else if category == "use_while_mutably_borrowed"@ {
        ("`"@ + name + "` was used through its owner while an exclusive borrow was live"@, "An `&mut` reference temporarily holds the only permitted access path to the overlapping value."@, "Using the owner at the same time would break the mutable reference's exclusivity promise."@)
    } else if category == "move_out_of_borrowed_content"@ {
        ("Code tried to move owned data out through `"@ + name + "`"@, "A borrowed container or reference does not own the value it points into, so it cannot transfer that value's drop responsibility."@, "Moving out would leave the real owner with an incomplete value it still expects to own."@)
    } else if category == "immutable_mutation"@ {
        ("`"@ + name + "` cannot be changed through this path"@, "The current binding or reference does not grant mutable access."@, "Mutation must be explicit, exclusive, or managed by a runtime-checked interior-mutability type."@)
    } else if category == "missing_lifetime"@ {
        ("Rust needs to know which input keeps this returned reference valid"@, "The reference involving `"@ + name + "` has no unambiguous lifetime relationship to an input."@, "A returned reference must never remain usable after the value it points into is gone."@)
    } else if category == "returning_local_reference"@ {
        ("A reference points into data that will be dropped before the caller can use it"@, "`"@ + name + "` refers to storage owned inside the current function."@, "Function-local owners are cleaned up on return, so references into them would dangle."@)
    } else if category == "borrowed_value_too_short"@ || category == "temporary_dropped_while_borrowed"@ {
        ("The owner of `"@ + name + "` does not live long enough"@, "The program keeps a reference beyond the point where its owner or temporary is dropped."@, "Every use of a reference must occur while its referent is still alive."@)
    } else if category == "trait_requirement"@ {
        ("The type involving `"@ + name + "` does not satisfy a required trait"@, "The selected API or generic context requires a capability the concrete type does not provide."@, "Rust must prove every declared trait capability before generating the call or crossing the boundary."@)
    } else if category == "type_mismatch"@ {
        ("The type produced for `"@ + name + "` differs from the type this context expects"@, "The producer and consumer currently describe different representations or ownership contracts."@, "Conversions and ownership changes stay explicit so allocation, failure, and lifetime behavior cannot be hidden."@)
    } else if category == "method_or_trait_unavailable"@ {
        ("The requested method is not available for `"@ + name + "` through this receiver path"@, "Method lookup could not find a compatible inherent method or in-scope trait method for the resolved receiver type."@, "The compiler must identify one function and prove that the receiver supplies its ownership and mutability contract."@)
    } else if category == "closure_may_outlive_borrow"@ || category == "borrowed_data_escapes"@ {
        ("A closure or stored reference may outlive `"@ + name + "`"@, "Borrowed data is captured or passed into a context that can keep it beyond the current stack region."@, "The captured environment must remain valid for every later closure or callback execution."@)
    } else if category == "await_outside_async"@ {
        ("`.await` appears outside an async context"@, "Suspending requires a future state machine and an async caller that can poll it."@, "Ordinary synchronous functions do not have a suspended state in which locals can be preserved."@)
    } else if category == "recursive_async_function"@ {
        ("Recursive async calls need an indirection boundary"@, "The future would otherwise contain another instance of itself with no finite compile-time size."@, "Boxing or restructuring introduces a finite handle to the recursive future state."@)
    } else {
        ("Rust rejected an operation involving `"@ + name + "`"@, "The compiler found a type, lifetime, trait, ownership, or borrowing contract that this operation would violate."@, "Use the visual timeline and compiler message to identify the two contracts that disagree before choosing a repair."@)
    }
}

pub fn problem_story(category: &str, name: &str) -> (r: (String, String, String))
    ensures
        (r.0@, r.1@, r.2@) == spec_problem_story(category@, name@),
{
    if str_eq(category, "use_after_move") {
        (concat3("`", name, "` was used after its value moved"), concat3("An earlier operation transferred ownership out of `", name, "`. The old name no longer owns a value."), owned("Allowing the old name to be used could make two places believe they uniquely own the same resource."))
    } else if str_eq(category, "partial_move") {
        (concat3("Part of `", name, "` moved"), concat3("One non-Copy field was taken out of `", name, "`. Other fields may still be usable, but the whole value is incomplete."), owned("Rust prevents using the complete struct until the moved field is put back."))
    } else if str_eq(category, "multiple_mutable_borrows") {
        (concat3("`", name, "` has two overlapping mutable borrows"), owned("A mutable reference is still live when another mutable reference is requested."), owned("Rust permits either many readers or one writer at a time, never two writers to the same value."))
    } else if str_eq(category, "mutable_while_shared") {
        (concat3("`", name, "` is borrowed for reading and writing at the same time"), owned("A shared reference remains live when code tries to create a mutable reference."), owned("Changing a value while another reference may read it would invalidate the reader's assumptions."))
    } else if str_eq(category, "move_while_borrowed") {
        (concat3("`", name, "` moved while a borrow was still live"), owned("A reference still points at the value when ownership is transferred elsewhere."), owned("The move could invalidate the existing reference, so Rust requires the borrow to end first."))
    } else if str_eq(category, "assign_while_borrowed") {
        (concat3("`", name, "` changed while it was borrowed"), owned("Code assigns a new value while a reference to the old value remains live."), owned("Rust keeps references stable for their complete live range."))
    } else if str_eq(category, "use_while_mutably_borrowed") {
        (concat3("`", name, "` was used through its owner while an exclusive borrow was live"), owned("An `&mut` reference temporarily holds the only permitted access path to the overlapping value."), owned("Using the owner at the same time would break the mutable reference's exclusivity promise."))
    } else if str_eq(category, "move_out_of_borrowed_content") {
        (concat3("Code tried to move owned data out through `", name, "`"), owned("A borrowed container or reference does not own the value it points into, so it cannot transfer that value's drop responsibility."), owned("Moving out would leave the real owner with an incomplete value it still expects to own."))
    } else if str_eq(category, "immutable_mutation") {
        (concat3("`", name, "` cannot be changed through this path"), owned("The current binding or reference does not grant mutable access."), owned("Mutation must be explicit, exclusive, or managed by a runtime-checked interior-mutability type."))
    } else if str_eq(category, "missing_lifetime") {
        (owned("Rust needs to know which input keeps this returned reference valid"), concat3("The reference involving `", name, "` has no unambiguous lifetime relationship to an input."), owned("A returned reference must never remain usable after the value it points into is gone."))
    } else if str_eq(category, "returning_local_reference") {
        (owned("A reference points into data that will be dropped before the caller can use it"), concat3("`", name, "` refers to storage owned inside the current function."), owned("Function-local owners are cleaned up on return, so references into them would dangle."))
    } else if str_eq(category, "borrowed_value_too_short") || str_eq(category, "temporary_dropped_while_borrowed") {
        (concat3("The owner of `", name, "` does not live long enough"), owned("The program keeps a reference beyond the point where its owner or temporary is dropped."), owned("Every use of a reference must occur while its referent is still alive."))
    } else if str_eq(category, "trait_requirement") {
        (concat3("The type involving `", name, "` does not satisfy a required trait"), owned("The selected API or generic context requires a capability the concrete type does not provide."), owned("Rust must prove every declared trait capability before generating the call or crossing the boundary."))
    } else if str_eq(category, "type_mismatch") {
        (concat3("The type produced for `", name, "` differs from the type this context expects"), owned("The producer and consumer currently describe different representations or ownership contracts."), owned("Conversions and ownership changes stay explicit so allocation, failure, and lifetime behavior cannot be hidden."))
    } else if str_eq(category, "method_or_trait_unavailable") {
        (concat3("The requested method is not available for `", name, "` through this receiver path"), owned("Method lookup could not find a compatible inherent method or in-scope trait method for the resolved receiver type."), owned("The compiler must identify one function and prove that the receiver supplies its ownership and mutability contract."))
    } else if str_eq(category, "closure_may_outlive_borrow") || str_eq(category, "borrowed_data_escapes") {
        (concat3("A closure or stored reference may outlive `", name, "`"), owned("Borrowed data is captured or passed into a context that can keep it beyond the current stack region."), owned("The captured environment must remain valid for every later closure or callback execution."))
    } else if str_eq(category, "await_outside_async") {
        (owned("`.await` appears outside an async context"), owned("Suspending requires a future state machine and an async caller that can poll it."), owned("Ordinary synchronous functions do not have a suspended state in which locals can be preserved."))
    } else if str_eq(category, "recursive_async_function") {
        (owned("Recursive async calls need an indirection boundary"), owned("The future would otherwise contain another instance of itself with no finite compile-time size."), owned("Boxing or restructuring introduces a finite handle to the recursive future state."))
    } else {
        (concat3("Rust rejected an operation involving `", name, "`"), owned("The compiler found a type, lifetime, trait, ownership, or borrowing contract that this operation would violate."), owned("Use the visual timeline and compiler message to identify the two contracts that disagree before choosing a repair."))
    }
}

/// What an event of `kind` is called in the visual timeline.
pub open spec fn spec_visual_event_title(kind: Seq<char>) -> Seq<char> {
    if kind == "move"@ {
        "Move"@
    } else if kind == "partial_move"@ {
        "Partial move"@
    } else if kind == "borrow_shared"@ {
        "Shared borrow"@
    } else if kind == "borrow_mutable"@ {
        "Mutable borrow"@
    } else if kind == "borrow_activate"@ {
        "Borrow activates"@
    } else if kind == "invalid_use"@ {
        "Rejected use"@
    } else if kind == "borrow_end"@ {
        "Borrow ends"@
    } else if kind == "reinitialize"@ {
        "Reinitialized"@
    } else if kind == "drop"@ {
        "Dropped"@
    } else {
        "State change"@
    }
}

pub fn visual_event_title(kind: &str) -> (r: &'static str)
    ensures
        r@ == spec_visual_event_title(kind@),
{
    if str_eq(kind, "move") {
        "Move"
    } else if str_eq(kind, "partial_move") {
        "Partial move"
    } else if str_eq(kind, "borrow_shared") {
        "Shared borrow"
    } else if str_eq(kind, "borrow_mutable") {
        "Mutable borrow"
    } else if str_eq(kind, "borrow_activate") {
        "Borrow activates"
    } else if str_eq(kind, "invalid_use") {
        "Rejected use"
    } else if str_eq(kind, "borrow_end") {
        "Borrow ends"
    } else if str_eq(kind, "reinitialize") {
        "Reinitialized"
    } else if str_eq(kind, "drop") {
        "Dropped"
    } else {
        "State change"
    }
}

/// The label on the arrow of a value-trace step of `kind`.
pub open spec fn spec_trace_arrow_label(kind: Seq<char>) -> Seq<char> {
    if kind == "move"@ || kind == "partial_move"@ {
        "ownership moves"@
    } else if kind == "copy"@ {
        "value copies"@
    } else if kind == "clone"@ {
        "clone returns"@
    } else if kind == "borrow_shared"@ {
        "shared reference"@
    } else if kind == "borrow_mutable"@ || kind == "borrow_activate"@ {
        "exclusive reference"@
    } else if kind == "invalid_use"@ {
        "rejected use"@
    } else if kind == "borrow_end"@ {
        "loan ends"@
    } else if kind == "reinitialize"@ {
        "new value"@
    } else if kind == "drop"@ {
        "drop"@
    } else {
        "state"@
    }
}

pub fn trace_arrow_label(kind: &str) -> (r: &'static str)
    ensures
        r@ == spec_trace_arrow_label(kind@),
{
    if str_eq(kind, "move") || str_eq(kind, "partial_move") {
        "ownership moves"
    } else if str_eq(kind, "copy") {
        "value copies"
    } else if str_eq(kind, "clone") {
        "clone returns"
    } else if str_eq(kind, "borrow_shared") {
        "shared reference"
    } else if str_eq(kind, "borrow_mutable") || str_eq(kind, "borrow_activate") {
        "exclusive reference"
    } else if str_eq(kind, "invalid_use") {
        "rejected use"
    } else if str_eq(kind, "borrow_end") {
        "loan ends"
    } else if str_eq(kind, "reinitialize") {
        "new value"
    } else if str_eq(kind, "drop") {
        "drop"
    } else {
        "state"
    }
}

/// The label of step `index` (counted from one) of a visual story in `phase`.
pub open spec fn spec_visual_phase_label(phase: Seq<char>, index: usize) -> Seq<char> {
    let label = if phase == "borrow_created"@ || phase == "contract"@ {
        "Before"@
    } else if phase == "operation_rejected"@ || phase == "invalid_use"@ {
        "Conflict"@
    } else if phase == "borrow_ended"@ || phase == "repair"@ {
        "After / repair"@
    } else if phase == "move"@ {
        "Move"@
    } else if phase == "partial_move"@ {
        "Partial move"@
    } else if phase == "borrow_shared"@ {
        "Shared borrow"@
    } else if phase == "borrow_mutable"@ || phase == "borrow_activate"@ {
        "Mutable borrow"@
    } else if phase == "borrow_end"@ {
        "Borrow ends"@
    } else if phase == "reinitialize"@ {
        "Reinitialize"@
    } else if phase == "drop"@ {
        "Drop"@
    } else {
        "Step"@
    };
    decimal(index as nat + 1) + " · "@ + label
}

pub fn visual_phase_label(phase: &str, index: usize) -> (r: String)
    requires
        index < u64::MAX,
    ensures
        r@ == spec_visual_phase_label(phase@, index),
{
    let label = if str_eq(phase, "borrow_created") || str_eq(phase, "contract") {
        "Before"
    } else if str_eq(phase, "operation_rejected") || str_eq(phase, "invalid_use") {
        "Conflict"
    } else if str_eq(phase, "borrow_ended") || str_eq(phase, "repair") {
        "After / repair"
    } else if str_eq(phase, "move") {
        "Move"
    } else if str_eq(phase, "partial_move") {
        "Partial move"
    } else if str_eq(phase, "borrow_shared") {
        "Shared borrow"
    } else if str_eq(phase, "borrow_mutable") || str_eq(phase, "borrow_activate") {
        "Mutable borrow"
    } else if str_eq(phase, "borrow_end") {
        "Borrow ends"
    } else if str_eq(phase, "reinitialize") {
        "Reinitialize"
    } else if str_eq(phase, "drop") {
        "Drop"
    } else {
        "Step"
    };
    let mut r = decimal_string(index as u64 + 1);
    r.append(" · ");
    r.append(label);
    r
}

/// The symbol of a visual state.
pub open spec fn spec_visual_state_symbol(state: Seq<char>) -> Seq<char> {
    if seq_contains(state, "reject"@) || seq_contains(state, "invalid"@) {
        "!"@
    } else if seq_contains(state, "drop"@) {
        "×"@
    } else if seq_contains(state, "move"@) {
        "○"@
    } else if seq_contains(state, "borrow"@) {
        "◇"@
    } else if seq_contains(state, "available"@) {
        "●"@
    } else {
        "◆"@
    }
}

pub fn visual_state_symbol(state: &str) -> (r: &'static str)
    ensures
        r@ == spec_visual_state_symbol(state@),
{
    if has_substring(state, "reject") || has_substring(state, "invalid") {
        "!"
    } else if has_substring(state, "drop") {
        "×"
    } else if has_substring(state, "move") {
        "○"
    } else if has_substring(state, "borrow") {
        "◇"
    } else if has_substring(state, "available") {
        "●"
    } else {
        "◆"
    }
}

/// The symbol of an ownership state.
pub open spec fn spec_state_symbol(state: Seq<char>) -> Seq<char> {
    if state == "available"@ {
        "●"@
    } else if state == "shared_borrowed"@ {
        "◇"@
    } else if state == "mutably_borrowed"@ {
        "◆"@
    } else if state == "moved"@ {
        "→"@
    } else if state == "partially_moved"@ {
        "◐"@
    } else if state == "dropped"@ {
        "×"@
    } else {
        "·"@
    }
}

pub fn state_symbol(state: &str) -> (r: &'static str)
    ensures
        r@ == spec_state_symbol(state@),
{
    if str_eq(state, "available") {
        "●"
    } else if str_eq(state, "shared_borrowed") {
        "◇"
    } else if str_eq(state, "mutably_borrowed") {
        "◆"
    } else if str_eq(state, "moved") {
        "→"
    } else if str_eq(state, "partially_moved") {
        "◐"
    } else if str_eq(state, "dropped") {
        "×"
    } else {
        "·"
    }
}

/// The symbol of a loan: filled for a mutable loan, hollow otherwise.
pub fn loan_symbol(kind: &str) -> (r: &'static str)
    ensures
        r@ == (if kind@ == "mutable"@ {
            "◆"@
        } else {
            "◇"@
        }),
{
    if str_eq(kind, "mutable") {
        "◆"
    } else {
        "◇"
    }
}

/// The symbol of a storage class.
pub open spec fn spec_memory_symbol(storage: Seq<char>) -> Seq<char> {
    if storage == "stack"@ {
        "▣"@
    } else if storage == "heap"@ {
        "⬡"@
    } else if storage == "inline"@ {
        "▤"@
    } else {
        "□"@
    }
}

pub fn memory_symbol(storage: &str) -> (r: &'static str)
    ensures
        r@ == spec_memory_symbol(storage@),
{
    if str_eq(storage, "stack") {
        "▣"
    } else if str_eq(storage, "heap") {
        "⬡"
    } else if str_eq(storage, "inline") {
        "▤"
    } else {
        "□"
    }
}

/// What an event of `kind` at `place` means, in the guided view.
pub open spec fn spec_guided_event_explanation(kind: Seq<char>, place: Seq<char>) -> Seq<char> {
    if kind == "move"@ {
        "Ownership of `"@ + place + "` transfers here; the old owner cannot be used."@
    } else if kind == "partial_move"@ {
        "Only `"@ + place + "` transfers; unaffected fields may still be usable."@
    } else if kind == "borrow_shared"@ {
        "A read-only view of `"@ + place + "` starts here."@
    } else if kind == "borrow_mutable"@ {
        "An exclusive mutable view of `"@ + place + "` starts here."@
    } else if kind == "borrow_activate"@ {
        "The reserved mutable view of `"@ + place + "` becomes active."@
    } else if kind == "borrow_end"@ {
        "The compiler no longer needs this view of `"@ + place + "` after here."@
    } else if kind == "reinitialize"@ {
        "A new value makes `"@ + place + "` available again."@
    } else if kind == "invalid_use"@ {
        "This use is rejected because `"@ + place + "` is no longer available."@
    } else if kind == "last_use"@ {
        "This is the final use of `"@ + place + "` on this control-flow path."@
    } else if kind == "drop"@ {
        "The value owned by `"@ + place + "` is destroyed here."@
    } else {
        "Ownership state changes for `"@ + place + "`."@
    }
}

pub fn guided_event_explanation(kind: &str, place: &str) -> (r: String)
    ensures
        r@ == spec_guided_event_explanation(kind@, place@),
{
    if str_eq(kind, "move") {
        concat3("Ownership of `", place, "` transfers here; the old owner cannot be used.")
    } else if str_eq(kind, "partial_move") {
        concat3("Only `", place, "` transfers; unaffected fields may still be usable.")
    } else if str_eq(kind, "borrow_shared") {
        concat3("A read-only view of `", place, "` starts here.")
    } else if str_eq(kind, "borrow_mutable") {
        concat3("An exclusive mutable view of `", place, "` starts here.")
    } else if str_eq(kind, "borrow_activate") {
        concat3("The reserved mutable view of `", place, "` becomes active.")
    } else if str_eq(kind, "borrow_end") {
        concat3("The compiler no longer needs this view of `", place, "` after here.")
    } else if str_eq(kind, "reinitialize") {
        concat3("A new value makes `", place, "` available again.")
    } else if str_eq(kind, "invalid_use") {
        concat3("This use is rejected because `", place, "` is no longer available.")
    } else if str_eq(kind, "last_use") {
        concat3("This is the final use of `", place, "` on this control-flow path.")
    } else if str_eq(kind, "drop") {
        concat3("The value owned by `", place, "` is destroyed here.")
    } else {
        concat3("Ownership state changes for `", place, "`.")
    }
}

/// What a memory layer of `kind` is, in a beginner's words.
pub open spec fn spec_beginner_memory_explanation(kind: Seq<char>) -> Seq<char> {
    if kind == "stack_binding"@ {
        "the local name and its directly stored handle"@
    } else if kind == "box_allocation"@ {
        "one owner points to one heap value"@
    } else if kind == "rc_allocation"@ {
        "several handles may share this allocation; counters choose when it is freed"@
    } else if kind == "arc_allocation"@ {
        "thread-safe shared ownership using atomic counters"@
    } else if kind == "ref_cell_state"@ {
        "a runtime flag enforces shared-versus-exclusive borrowing"@
    } else if kind == "mutex_state"@ {
        "a lock permits one accessor at a time"@
    } else if kind == "rw_lock_state"@ {
        "a lock permits many readers or one writer"@
    } else if kind == "vec_header"@ {
        "pointer, current length, and allocated capacity"@
    } else if kind == "vec_buffer"@ {
        "the elements live in a separate growable heap buffer"@
    } else if kind == "string_header"@ {
        "pointer, UTF-8 byte length, and capacity"@
    } else if kind == "string_buffer"@ {
        "the UTF-8 bytes live in a separate heap buffer"@
    } else {
        "inline value; custom allocation semantics are not assumed"@
    }
}

pub fn beginner_memory_explanation(kind: &str) -> (r: &'static str)
    ensures
        r@ == spec_beginner_memory_explanation(kind@),
{
    if str_eq(kind, "stack_binding") {
        "the local name and its directly stored handle"
    } else if str_eq(kind, "box_allocation") {
        "one owner points to one heap value"
    } else if str_eq(kind, "rc_allocation") {
        "several handles may share this allocation; counters choose when it is freed"
    } else if str_eq(kind, "arc_allocation") {
        "thread-safe shared ownership using atomic counters"
    } else if str_eq(kind, "ref_cell_state") {
        "a runtime flag enforces shared-versus-exclusive borrowing"
    } else if str_eq(kind, "mutex_state") {
        "a lock permits one accessor at a time"
    } else if str_eq(kind, "rw_lock_state") {
        "a lock permits many readers or one writer"
    } else if str_eq(kind, "vec_header") {
        "pointer, current length, and allocated capacity"
    } else if str_eq(kind, "vec_buffer") {
        "the elements live in a separate growable heap buffer"
    } else if str_eq(kind, "string_header") {
        "pointer, UTF-8 byte length, and capacity"
    } else if str_eq(kind, "string_buffer") {
        "the UTF-8 bytes live in a separate heap buffer"
    } else {
        "inline value; custom allocation semantics are not assumed"
    }
}

/// What the learner said about the value in the intent questions; `None`
/// where a question is still open.
#[derive(Clone, Copy, Debug, Default)]
pub struct IntentAnswers {
    pub multiple_owners: Option<bool>,
    pub mutation: Option<bool>,
    pub crosses_threads: Option<bool>,
    pub independent_clone: Option<bool>,
}

/// The ownership shape the answers call for.
pub open spec fn spec_intent_recommendation(answers: IntentAnswers) -> Seq<char> {
    if answers.independent_clone == Some(true) {
        "Clone the data when independent values are the intended behavior."@
    } else if answers.crosses_threads == Some(true) && answers.mutation == Some(true) {
        "Use Arc<Mutex<T>> for shared cross-thread mutation, or Arc<RwLock<T>> for read-heavy access."@
    } else if answers.crosses_threads == Some(true) {
        "Use Arc<T> for shared ownership across threads."@
    } else if answers.multiple_owners == Some(true) && answers.mutation == Some(true) {
        "Use Rc<RefCell<T>> for shared mutation confined to one thread; runtime borrow checks may panic."@
    } else if answers.multiple_owners == Some(true) {
        "Use Rc<T> for shared ownership confined to one thread."@
    } else if answers.mutation == Some(true) {
        "Prefer an ordinary mutable borrow. Use RefCell<T> only when static borrowing cannot express the design."@
    } else {
        "Borrow the value when another scope only needs temporary access; move it when ownership should transfer."@
    }
}

pub fn intent_recommendation(answers: IntentAnswers) -> (r: &'static str)
    ensures
        r@ == spec_intent_recommendation(answers),
{
    let clone = matches!(answers.independent_clone, Some(true));
    let threads = matches!(answers.crosses_threads, Some(true));
    let owners = matches!(answers.multiple_owners, Some(true));
    let mutation = matches!(answers.mutation, Some(true));
    if clone {
        "Clone the data when independent values are the intended behavior."
    } else if threads && mutation {
        "Use Arc<Mutex<T>> for shared cross-thread mutation, or Arc<RwLock<T>> for read-heavy access."
    } else if threads {
        "Use Arc<T> for shared ownership across threads."
    } else if owners && mutation {
        "Use Rc<RefCell<T>> for shared mutation confined to one thread; runtime borrow checks may panic."
    } else if owners {
        "Use Rc<T> for shared ownership confined to one thread."
    } else if mutation {
        "Prefer an ordinary mutable borrow. Use RefCell<T> only when static borrowing cannot express the design."
    } else {
        "Borrow the value when another scope only needs temporary access; move it when ownership should transfer."
    }
}

/// Characters that decorate a place without naming it: whitespace, back
/// ticks, `&`, `*` and parentheses.
pub open spec fn is_place_noise(c: char) -> bool {
    spec_is_whitespace(c) || c == '`' || c == '&' || c == '*' || c == '(' || c == ')'
}

pub open spec fn strip_noise_start(s: Seq<char>) -> Seq<char>
    decreases s.len(),
{
    if s.len() > 0 && is_place_noise(s[0]) {
        strip_noise_start(s.drop_first())
    } else {
        s
    }
}

pub open spec fn strip_noise_end(s: Seq<char>) -> Seq<char>
    decreases s.len(),
{
    if s.len() > 0 && is_place_noise(s.last()) {
        strip_noise_end(s.drop_last())
    } else {
        s
    }
}

/// A place with its decoration removed at both ends.
pub open spec fn normalized_place(s: Seq<char>) -> Seq<char> {
    strip_noise_end(strip_noise_start(s))
}

/// 0 for an empty or generic name (`self`, `value`, `current`), 2 for a
/// field or index path, 1 for any other local.
pub open spec fn place_detail(place: Seq<char>) -> u8 {
    let n = normalized_place(place);
    if n.len() == 0 || n == "self"@ || n == "value"@ || n == "current"@ {
        0
    } else if n.contains('.') || n.contains('[') {
        2
    } else {
        1
    }
}

/// How specific a place is: its detail, then the byte length of its
/// normalized text.
pub open spec fn place_specificity(place: Seq<char>) -> (u8, usize) {
    (place_detail(place), vstd::utf8::encode_utf8(normalized_place(place)).len() as usize)
}

/// `a` names a more specific place than `b`.
pub open spec fn more_specific(a: Seq<char>, b: Seq<char>) -> bool {
    let (da, la) = place_specificity(a);
    let (db, lb) = place_specificity(b);
    da > db || (da == db && la > lb)
}

fn is_noise_char(c: char) -> (r: bool)
    ensures
        r == is_place_noise(c),
{
    is_whitespace(c) || c == '`' || c == '&' || c == '*' || c == '(' || c == ')'
}

proof fn lemma_strip_start_skip(s: Seq<char>, i: int)
    requires
        0 <= i <= s.len(),
        forall|k: int| 0 <= k < i ==> is_place_noise(#[trigger] s[k]),
    ensures
        strip_noise_start(s) == strip_noise_start(s.subrange(i, s.len() as int)),
    decreases i,
{
    if i > 0 {
        assert(s.drop_first() =~= s.subrange(1, s.len() as int));
        assert forall|k: int| 0 <= k < i - 1 implies is_place_noise(#[trigger] s.drop_first()[k]) by {
            assert(s.drop_first()[k] == s[k + 1]);
        }
        lemma_strip_start_skip(s.drop_first(), i - 1);
        assert(s.drop_first().subrange(i - 1, s.drop_first().len() as int) =~= s.subrange(
            i,
            s.len() as int,
        ));
    } else {
        assert(s.subrange(0, s.len() as int) =~= s);
    }
}

proof fn lemma_strip_end_cut(s: Seq<char>, j: int)
    requires
        0 <= j <= s.len(),
        forall|k: int| j <= k < s.len() ==> is_place_noise(#[trigger] s[k]),
    ensures
        strip_noise_end(s) == strip_noise_end(s.subrange(0, j)),
    decreases s.len() - j,
{
    if j < s.len() {
        assert(s.drop_last() =~= s.subrange(0, s.len() - 1));
        lemma_strip_end_cut(s.drop_last(), j);
        assert(s.drop_last().subrange(0, j) =~= s.subrange(0, j));
    } else {
        assert(s.subrange(0, j) =~= s);
    }
}

/// `place` without its decoration.
fn normalized_place_text(place: &str) -> (r: &str)
    ensures
        r@ == normalized_place(place@),
{
    let x = chars_of(place);
    let mut start: usize = 0;
    while start < x.len() && is_noise_char(x[start])
        invariant
            x@ == place@,
            start <= x.len(),
            forall|k: int| 0 <= k < start ==> is_place_noise(#[trigger] x@[k]),
        decreases x.len() - start,
    {
        start += 1;
    }
    let mut end = x.len();
    while end > start && is_noise_char(x[end - 1])
        invariant
            x@ == place@,
            start <= end <= x.len(),
            forall|k: int| end <= k < x.len() ==> is_place_noise(#[trigger] x@[k]),
        decreases end,
    {
        end -= 1;
    }
    proof {
        lemma_strip_start_skip(place@, start as int);
        let rest = place@.subrange(start as int, place@.len() as int);
        if start < x.len() {
            assert(rest.len() > 0 && !is_place_noise(rest[0]));
        }
        assert(strip_noise_start(rest) == rest);
        assert forall|k: int| end - start <= k < rest.len() implies is_place_noise(
            #[trigger] rest[k],
        ) by {
            assert(rest[k] == x@[start + k]);
        }
        lemma_strip_end_cut(rest, end - start);
        let kept = rest.subrange(0, end - start);
        assert(kept =~= place@.subrange(start as int, end as int));
        if end > start {
            assert(!is_place_noise(kept.last()));
        }
        assert(strip_noise_end(kept) == kept);
    }
    place.substring_char(start, end)
}

/// Whether `s` holds the character `c`.
fn has_char(s: &str, c: char) -> (r: bool)
    ensures
        r == s@.contains(c),
{
    let x = chars_of(s);
    let mut i: usize = 0;
    while i < x.len()
        invariant
            x@ == s@,
            i <= x.len(),
            forall|k: int| 0 <= k < i ==> x@[k] != c,
        decreases x.len() - i,
    {
        if x[i] == c {
            assert(s@[i as int] == c);
            return true;
        }
        i += 1;
    }
    false
}

/// How specific `place` is, as `(detail, byte length)`.
pub fn mutation_target_specificity(place: &str) -> (r: (u8, usize))
    ensures
        r == place_specificity(place@),
{
    let normalized = normalized_place_text(place);
    let detail: u8 = if normalized.is_empty() || str_eq(normalized, "self") || str_eq(
        normalized,
        "value",
    ) || str_eq(normalized, "current") {
        0
    } else if has_char(normalized, '.') || has_char(normalized, '[') {
        2
    } else {
        1
    };
    (detail, normalized.len())
}

/// The place a problem is really about: for a blocked mutation, the field or
/// local rustc named rather than the receiver it was reached through.
pub open spec fn spec_resolved_problem_target(problem: OwnershipProblem, model: OwnershipModel) -> Seq<char> {
    if problem.category@ != "immutable_mutation"@ {
        problem.binding_name@
    } else if model.mutation_requirement is Some && model.mutation_requirement->0.target_place@.len() > 0 {
        model.mutation_requirement->0.target_place@
    } else {
        let model_target = match model.selected_place {
            Some(p) => p@,
            None => Seq::empty(),
        };
        if more_specific(model_target, problem.binding_name@) {
            model_target
        } else {
            problem.binding_name@
        }
    }
}

pub fn resolved_problem_target<'a>(problem: &'a OwnershipProblem, model: &'a OwnershipModel) -> (r: &'a str)
    ensures
        r@ == spec_resolved_problem_target(*problem, *model),
{
    if !str_eq(problem.category.as_str(), "immutable_mutation") {
        return problem.binding_name.as_str();
    }
    if let Some(requirement) = &model.mutation_requirement {
        if !requirement.target_place.as_str().is_empty() {
            return requirement.target_place.as_str();
        }
    }
    let problem_target = problem.binding_name.as_str();
    let model_target = match &model.selected_place {
        Some(p) => p.as_str(),
        None => "",
    };
    proof {
        reveal_strlit("");
    }
    let (dm, lm) = mutation_target_specificity(model_target);
    let (dp, lp) = mutation_target_specificity(problem_target);
    if dm > dp || (dm == dp && lm > lp) {
        model_target
    } else {
        problem_target
    }
}

/// The memory layers a beginner sees for a binding `name` of type `ty`,
/// from the handle on the stack to the value it reaches.
pub open spec fn spec_smart_pointer_nodes(name: Seq<char>, ty: Seq<char>) -> Seq<Seq<char>> {
    if seq_contains(ty, "Rc<RefCell<"@) {
        seq![
            "stack · Rc handle `"@ + name + "`"@,
            "shared heap allocation · strong count = symbolic N"@,
            "RefCell · runtime borrow flag"@,
            "inner value T"@,
        ]
    } else if seq_contains(ty, "Arc<Mutex<"@) {
        seq![
            "stack/thread · Arc handle `"@ + name + "`"@,
            "shared heap allocation · atomic strong count = symbolic N"@,
            "Mutex · one lock holder at a time"@,
            "inner value T"@,
        ]
    } else if seq_contains(ty, "Arc<RwLock<"@) {
        seq![
            "stack/thread · Arc handle `"@ + name + "`"@,
            "shared heap allocation · atomic strong count = symbolic N"@,
            "RwLock · many readers or one writer"@,
            "inner value T"@,
        ]
    } else if seq_contains(ty, "Rc<"@) {
        seq![
            "stack · Rc handle `"@ + name + "`"@,
            "shared heap allocation · strong count = symbolic N"@,
            "inner value T · Rc move: N unchanged; Rc::clone: N + 1"@,
        ]
    } else if seq_contains(ty, "Arc<"@) {
        seq![
            "stack/thread · Arc handle `"@ + name + "`"@,
            "shared heap allocation · atomic strong count = symbolic N"@,
            "inner value T · Arc move: N unchanged; Arc::clone: N + 1"@,
        ]
    } else if seq_contains(ty, "RefCell<"@) {
        seq![
            "stack/owner · RefCell `"@ + name + "`"@,
            "runtime borrow flag · 0, readers, or one writer"@,
            "inner value T · conflicting borrow can panic"@,
        ]
    } else if starts_with(ty, "&mut "@) {
        seq![
            "reference `"@ + name + "` · non-owning pointer"@,
            "exclusive access for this loan"@,
            "borrowed value remains alive at its owner"@,
        ]
    } else if starts_with(ty, "&"@) {
        seq![
            "reference `"@ + name + "` · non-owning pointer"@,
            "shared read access for this loan"@,
            "borrowed value remains alive at its owner"@,
        ]
    } else if seq_contains(ty, "Box<"@) {
        seq![
            "stack · unique Box handle `"@ + name + "`"@,
            "heap · one owned allocation"@,
            "inner value T · moving Box transfers the handle, not the allocation"@,
        ]
    } else if seq_contains(ty, "Vec<"@) || ty == "String"@ {
        seq![
            "stack · `"@ + name + "` handle (pointer, length, capacity)"@,
            "heap · element buffer"@,
            "moving the handle leaves the buffer in place"@,
        ]
    } else {
        seq!["binding `"@ + name + "` · "@ + ty, "value representation tracked by rustc"@]
    }
}

/// The text of each string, in order.
pub open spec fn texts(v: Seq<String>) -> Seq<Seq<char>> {
    v.map_values(|s: String| s@)
}

pub fn smart_pointer_nodes(name: &str, type_text: &str) -> (r: Vec<String>)
    ensures
        texts(r@) == spec_smart_pointer_nodes(name@, type_text@),
{
    let r = if has_substring(type_text, "Rc<RefCell<") {
        vec![
            concat3("stack · Rc handle `", name, "`"),
            owned("shared heap allocation · strong count = symbolic N"),
            owned("RefCell · runtime borrow flag"),
            owned("inner value T"),
        ]
    } else if has_substring(type_text, "Arc<Mutex<") {
        vec![
            concat3("stack/thread · Arc handle `", name, "`"),
            owned("shared heap allocation · atomic strong count = symbolic N"),
            owned("Mutex · one lock holder at a time"),
            owned("inner value T"),
        ]
    } else if has_substring(type_text, "Arc<RwLock<") {
        vec![
            concat3("stack/thread · Arc handle `", name, "`"),
            owned("shared heap allocation · atomic strong count = symbolic N"),
            owned("RwLock · many readers or one writer"),
            owned("inner value T"),
        ]
    } else if has_substring(type_text, "Rc<") {
        vec![
            concat3("stack · Rc handle `", name, "`"),
            owned("shared heap allocation · strong count = symbolic N"),
            owned("inner value T · Rc move: N unchanged; Rc::clone: N + 1"),
        ]
    } else if has_substring(type_text, "Arc<") {
        vec![
            concat3("stack/thread · Arc handle `", name, "`"),
            owned("shared heap allocation · atomic strong count = symbolic N"),
            owned("inner value T · Arc move: N unchanged; Arc::clone: N + 1"),
        ]
    } else if has_substring(type_text, "RefCell<") {
        vec![
            concat3("stack/owner · RefCell `", name, "`"),
            owned("runtime borrow flag · 0, readers, or one writer"),
            owned("inner value T · conflicting borrow can panic"),
        ]
    } else if has_prefix(type_text, "&mut ") {
        vec![
            concat3("reference `", name, "` · non-owning pointer"),
            owned("exclusive access for this loan"),
            owned("borrowed value remains alive at its owner"),
        ]
    } else if has_prefix(type_text, "&") {
        vec![
            concat3("reference `", name, "` · non-owning pointer"),
            owned("shared read access for this loan"),
            owned("borrowed value remains alive at its owner"),
        ]
    } else if has_substring(type_text, "Box<") {
        vec![
            concat3("stack · unique Box handle `", name, "`"),
            owned("heap · one owned allocation"),
            owned("inner value T · moving Box transfers the handle, not the allocation"),
        ]
    } else if has_substring(type_text, "Vec<") || str_eq(type_text, "String") {
        vec![
            concat3("stack · `", name, "` handle (pointer, length, capacity)"),
            owned("heap · element buffer"),
            owned("moving the handle leaves the buffer in place"),
        ]
    } else {
        vec![concat3("binding `", name, "` · ").concat(type_text), owned("value representation tracked by rustc")]
    };
    assert(texts(r@) =~= spec_smart_pointer_nodes(name@, type_text@));
    r
}

/// Byte length of the UTF-8 encoding of `s`.
pub open spec fn utf8_len(s: Seq<char>) -> int {
    vstd::utf8::encode_utf8(s).len() as int
}

/// The byte length that `str::len` reports for text `s`.
pub open spec fn byte_len(s: Seq<char>) -> usize {
    vstd::utf8::encode_utf8(s).len() as usize
}

/// The number of characters a preview keeps, scanning on from `k`: the
/// longest prefix whose encoding fits in `limit` bytes.
pub open spec fn preview_cut_from(code: Seq<char>, limit: int, k: int) -> int
    decreases code.len() - k,
{
    if 0 <= k < code.len() && utf8_len(code.take(k + 1)) <= limit {
        preview_cut_from(code, limit, k + 1)
    } else {
        k
    }
}

/// The text shown for generated C: all of it when it fits in `limit` bytes,
/// otherwise the longest whole-character prefix that fits and a note that
/// points to the full artifact at `path`.
pub open spec fn spec_generated_c_preview(code: Seq<char>, path: Seq<char>, limit: int) -> Seq<char> {
    if byte_len(code) <= limit {
        code
    } else {
        code.take(preview_cut_from(code, limit, 0))
            + "\n\n/* Rust Workbench truncated this preview. Open the full artifact at "@ + path
            + ". */"@
    }
}

proof fn lemma_utf8_len_concat(a: Seq<char>, b: Seq<char>)
    ensures
        vstd::utf8::encode_utf8(a + b) == vstd::utf8::encode_utf8(a) + vstd::utf8::encode_utf8(b),
    decreases a.len(),
{
    if a.len() == 0 {
        assert(a + b =~= b);
        assert(vstd::utf8::encode_utf8(a) =~= Seq::<u8>::empty());
        assert(vstd::utf8::encode_utf8(a) + vstd::utf8::encode_utf8(b) =~= vstd::utf8::encode_utf8(b));
    } else {
        assert((a + b).drop_first() =~= a.drop_first() + b);
        assert((a + b)[0] == a[0]);
        lemma_utf8_len_concat(a.drop_first(), b);
        assert(vstd::utf8::encode_utf8(a + b) =~= vstd::utf8::encode_scalar(a[0] as u32) + (
        vstd::utf8::encode_utf8(a.drop_first()) + vstd::utf8::encode_utf8(b)));
    }
}

/// `code` cut to at most `byte_limit` bytes on a character boundary, with a
/// note naming where the full artifact is.
pub fn generated_c_preview(code: String, c_path: &str, byte_limit: usize) -> (r: String)
    ensures
        r@ == spec_generated_c_preview(code@, c_path@, byte_limit as int),
{
    if code.as_str().len() <= byte_limit {
        return code;
    }
    let chars = chars_of(code.as_str());
    let mut k: usize = 0;
    let mut bytes: usize = 0;
    while k < chars.len()
        invariant
            chars@ == code@,
            k <= chars.len(),
            bytes as int == utf8_len(code@.take(k as int)),
            bytes <= byte_limit,
            preview_cut_from(code@, byte_limit as int, 0) == preview_cut_from(
                code@,
                byte_limit as int,
                k as int,
            ),
        ensures
            k <= chars.len(),
            preview_cut_from(code@, byte_limit as int, 0) == k as int,
        decreases chars.len() - k,
    {
        let single = char_string(chars[k]);
        let width = single.as_str().len();
        proof {
            assert(code@.take(k + 1) =~= code@.take(k as int) + seq![chars@[k as int]]);
            lemma_utf8_len_concat(code@.take(k as int), seq![chars@[k as int]]);
            let one = seq![chars@[k as int]];
            assert(vstd::utf8::encode_utf8(one).len() <= 4) by {
                assert(one.drop_first() =~= Seq::<char>::empty());
                assert(vstd::utf8::encode_utf8(one) == vstd::utf8::encode_scalar(one[0] as u32)
                    + vstd::utf8::encode_utf8(one.drop_first()));
                assert(vstd::utf8::encode_scalar(one[0] as u32).len() <= 4);
            }
        }
        if width > byte_limit - bytes {
            break;
        }
        bytes = bytes + width;
        k += 1;
    }
    let mut r = slice_owned(code.as_str(), 0, k);
    r.append("\n\n/* Rust Workbench truncated this preview. Open the full artifact at ");
    r.append(c_path);
    r.append(". */");
    r
}

/// One step of the picture timeline shown for a problem.
#[derive(Clone, Debug)]
pub struct VisualMoment {
    pub phase: String,
    pub title: String,
    pub explanation: String,
    pub range: Range,
    pub state: String,
}

/// `m` shows these words, at `range`, in state `state`.
pub open spec fn moment_is(
    m: VisualMoment,
    phase: Seq<char>,
    title: Seq<char>,
    explanation: Seq<char>,
    range: Range,
    state: Seq<char>,
) -> bool {
    &&& m.phase@ == phase
    &&& m.title@ == title
    &&& m.explanation@ == explanation
    &&& m.range == range
    &&& m.state@ == state
}

/// Event kinds that make a step of the timeline.
pub open spec fn is_visual_event_kind(kind: Seq<char>) -> bool {
    ||| kind == "move"@
    ||| kind == "partial_move"@
    ||| kind == "borrow_shared"@
    ||| kind == "borrow_mutable"@
    ||| kind == "borrow_activate"@
    ||| kind == "invalid_use"@
    ||| kind == "borrow_end"@
    ||| kind == "reinitialize"@
    ||| kind == "drop"@
}

/// The events, in order, whose kind makes a step of the timeline.
pub open spec fn visual_events(events: Seq<OwnershipEvent>) -> Seq<OwnershipEvent>
    decreases events.len(),
{
    if events.len() == 0 {
        Seq::empty()
    } else {
        let rest = visual_events(events.drop_last());
        if is_visual_event_kind(events.last().kind@) {
            rest.push(events.last())
        } else {
            rest
        }
    }
}

/// The state a conflict snapshot of `phase` is drawn in.
pub open spec fn snapshot_state(phase: Seq<char>) -> Seq<char> {
    if phase == "operation_rejected"@ {
        "rejected"@
    } else if phase == "borrow_ended"@ {
        "available_afterward"@
    } else {
        "borrow_live"@
    }
}

pub open spec fn snapshot_moment(m: VisualMoment, s: OwnershipConflictSnapshot) -> bool {
    moment_is(m, s.phase@, s.title@, s.explanation@, s.range, snapshot_state(s.phase@))
}

pub open spec fn event_moment(m: VisualMoment, e: OwnershipEvent) -> bool {
    moment_is(
        m,
        e.kind@,
        spec_visual_event_title(e.kind@) + " `"@ + e.place@ + "`"@,
        spec_guided_event_explanation(e.kind@, e.place@),
        e.range,
        e.state@,
    )
}

/// The compiler's message followed by the reason, or the reason alone.
pub open spec fn rejection_explanation(problem: OwnershipProblem) -> Seq<char> {
    let why = spec_problem_story(problem.category@, problem.binding_name@).2;
    if problem.message@.len() == 0 {
        why
    } else {
        problem.message@ + "\n\nWhy: "@ + why
    }
}

/// The timeline for a problem: the conflict graph's snapshots when it has
/// any; otherwise the first twelve timeline events; and when there are none
/// either, a three-step story of the contract, the rejection and the repair.
pub open spec fn visual_moments_are(
    problem: Option<OwnershipProblem>,
    model: OwnershipModel,
    r: Seq<VisualMoment>,
) -> bool {
    let ve = visual_events(model.events@);
    if model.conflict_graph is Some && model.conflict_graph->0.snapshots.len() > 0 {
        let snaps = model.conflict_graph->0.snapshots@;
        &&& r.len() == snaps.len()
        &&& forall|i: int| 0 <= i < r.len() ==> snapshot_moment(#[trigger] r[i], snaps[i])
    } else if ve.len() > 0 || problem is None {
        &&& r.len() == if ve.len() < 12 {
            ve.len()
        } else {
            12
        }
        &&& forall|i: int| 0 <= i < r.len() ==> event_moment(#[trigger] r[i], ve[i])
    } else {
        let p = problem->0;
        let story = spec_problem_story(p.category@, p.binding_name@);
        &&& r.len() == 3
        &&& moment_is(
            r[0],
            "contract"@,
            "1 · Establish the expected contract"@,
            story.1,
            p.binding_range,
            "available"@,
        )
        &&& moment_is(
            r[1],
            "operation_rejected"@,
            story.0,
            rejection_explanation(p),
            p.primary_range,
            "rejected"@,
        )
        &&& moment_is(
            r[2],
            "repair"@,
            "3 · Choose a repair that matches intent"@,
            "Compare the repair choices below. A source rewrite is only marked successful after the compiler confirms this diagnostic is gone."@,
            p.primary_range,
            "decision"@,
        )
    }
}

fn is_visual_kind(kind: &str) -> (r: bool)
    ensures
        r == is_visual_event_kind(kind@),
{
    str_eq(kind, "move") || str_eq(kind, "partial_move") || str_eq(kind, "borrow_shared")
        || str_eq(kind, "borrow_mutable") || str_eq(kind, "borrow_activate") || str_eq(
        kind,
        "invalid_use",
    ) || str_eq(kind, "borrow_end") || str_eq(kind, "reinitialize") || str_eq(kind, "drop")
}

fn snapshot_moment_of(s: &OwnershipConflictSnapshot) -> (m: VisualMoment)
    ensures
        snapshot_moment(m, *s),
{
    let state = if str_eq(s.phase.as_str(), "operation_rejected") {
        owned("rejected")
    } else if str_eq(s.phase.as_str(), "borrow_ended") {
        owned("available_afterward")
    } else {
        owned("borrow_live")
    };
    VisualMoment {
        phase: s.phase.clone(),
        title: s.title.clone(),
        explanation: s.explanation.clone(),
        range: s.range,
        state,
    }
}

fn event_moment_of(e: &OwnershipEvent) -> (m: VisualMoment)
    ensures
        event_moment(m, *e),
{
    let mut title = concat3(visual_event_title(e.kind.as_str()), " `", e.place.as_str());
    title.append("`");
    VisualMoment {
        phase: e.kind.clone(),
        title,
        explanation: guided_event_explanation(e.kind.as_str(), e.place.as_str()),
        range: e.range,
        state: e.state.clone(),
    }
}

pub fn visual_moments(problem: Option<&OwnershipProblem>, model: &OwnershipModel) -> (r: Vec<
    VisualMoment,
>)
    ensures
        visual_moments_are(
            match problem {
                Some(p) => Some(*p),
                None => None,
            },
            *model,
            r@,
        ),
{
    if let Some(graph) = &model.conflict_graph {
        if graph.snapshots.len() > 0 {
            let mut out: Vec<VisualMoment> = Vec::new();
            let mut i: usize = 0;
            while i < graph.snapshots.len()
                invariant
                    i <= graph.snapshots.len(),
                    out.len() == i,
                    forall|k: int| 0 <= k < i ==> snapshot_moment(#[trigger] out@[k], graph.snapshots@[k]),
                decreases graph.snapshots.len() - i,
            {
                out.push(snapshot_moment_of(&graph.snapshots[i]));
                i += 1;
            }
            return out;
        }
    }
    let events = &model.events;
    let mut out: Vec<VisualMoment> = Vec::new();
    let mut i: usize = 0;
    while i < events.len()
        invariant
            events == &model.events,
            i <= events.len(),
            out.len() == if visual_events(events@.take(i as int)).len() < 12 {
                visual_events(events@.take(i as int)).len()
            } else {
                12
            },
            forall|k: int|
                0 <= k < out.len() ==> event_moment(
                    #[trigger] out@[k],
                    visual_events(events@.take(i as int))[k],
                ),
        decreases events.len() - i,
    {
        proof {
            assert(events@.take(i + 1).drop_last() =~= events@.take(i as int));
            assert(events@.take(i + 1).last() == events@[i as int]);
        }
        if is_visual_kind(events[i].kind.as_str()) && out.len() < 12 {
            out.push(event_moment_of(&events[i]));
        }
        i += 1;
    }
    assert(events@.take(events.len() as int) =~= events@);
    if out.len() == 0 {
        if let Some(problem) = problem {
            let (title, what, why) = problem_story(
                problem.category.as_str(),
                problem.binding_name.as_str(),
            );
            let explanation = if problem.message.as_str().is_empty() {
                why
            } else {
                let mut e = concat2(problem.message.as_str(), "\n\nWhy: ");
                e.append(why.as_str());
                e
            };
            let mut r: Vec<VisualMoment> = Vec::new();
            r.push(
                VisualMoment {
                    phase: owned("contract"),
                    title: owned("1 · Establish the expected contract"),
                    explanation: what,
                    range: problem.binding_range,
                    state: owned("available"),
                },
            );
            r.push(
                VisualMoment {
                    phase: owned("operation_rejected"),
                    title,
                    explanation,
                    range: problem.primary_range,
                    state: owned("rejected"),
                },
            );
            r.push(
                VisualMoment {
                    phase: owned("repair"),
                    title: owned("3 · Choose a repair that matches intent"),
                    explanation: owned(
                        "Compare the repair choices below. A source rewrite is only marked successful after the compiler confirms this diagnostic is gone.",
                    ),
                    range: problem.primary_range,
                    state: owned("decision"),
                },
            );
            return r;
        }
    }
    out
}

/// What the coach says about the selected problem: the place it is about,
/// a headline, the access route and operation involved, the access the
/// operation needs, and the state the value is in.
#[derive(Clone, Debug)]
pub struct GuidedIssueFacts {
    pub target: String,
    pub headline: String,
    pub access_route: Option<String>,
    pub operation: Option<String>,
    pub required_access: Option<String>,
    pub state_summary: String,
}

/// The name of the operation a blocked mutation is about.
pub open spec fn guided_operation_name(model: OwnershipModel) -> Option<Seq<char>> {
    match model.mutation_requirement {
        Some(req) => Some(req.operation_name@),
        None => match spec_mutation_operation(model) {
            Some(i) => Some(model.operations@[i].name@),
            None => None,
        },
    }
}

/// The access a blocked mutation needs, in the reader's words.
pub open spec fn guided_required_access(model: OwnershipModel) -> Option<Seq<char>> {
    match model.mutation_requirement {
        Some(req) => Some(spec_readable_access(req.required_access@)),
        None => match spec_mutation_operation(model) {
            Some(i) => Some(spec_readable_access(model.operations@[i].required_access@)),
            None => None,
        },
    }
}

/// The first destination named by the value trace at or after `i`.
pub open spec fn first_destination(trace: Seq<OwnershipValueTraceStep>, i: int) -> Option<Seq<char>>
    decreases trace.len() - i,
{
    if i < 0 || i >= trace.len() {
        None
    } else if trace[i].to_label is Some {
        Some(trace[i].to_label->0@)
    } else {
        first_destination(trace, i + 1)
    }
}

pub open spec fn guided_headline(problem: OwnershipProblem, model: OwnershipModel) -> Seq<char> {
    let target = spec_resolved_problem_target(problem, model);
    if problem.category@ == "immutable_mutation"@ {
        match (guided_operation_name(model), model.mutation_requirement) {
            (Some(op), Some(req)) => "Cannot call "@ + op + "() on `"@ + target + "` through `"@
                + req.access_source@ + "`"@,
            (Some(op), None) => "Cannot call "@ + op + "() on `"@ + target + "`"@,
            _ => "`"@ + target + "` cannot be mutated through the current access path"@,
        }
    } else {
        spec_problem_story(problem.category@, target).0
    }
}

pub open spec fn is_borrow_conflict(category: Seq<char>) -> bool {
    ||| category == "multiple_mutable_borrows"@
    ||| category == "mutable_while_shared"@
    ||| category == "assign_while_borrowed"@
    ||| category == "use_while_mutably_borrowed"@
    ||| category == "move_while_borrowed"@
}

pub open spec fn is_move_problem(category: Seq<char>) -> bool {
    ||| category == "use_after_move"@
    ||| category == "partial_move"@
    ||| category == "move_out_of_borrowed_content"@
}

pub open spec fn guided_state_summary(problem: OwnershipProblem, model: OwnershipModel) -> Seq<char> {
    let target = spec_resolved_problem_target(problem, model);
    let category = problem.category@;
    if category == "immutable_mutation"@ {
        "`"@ + target
            + "` is alive and has not moved. The attempted write is blocked because no exclusive mutable access is available."@
    } else if is_borrow_conflict(category) {
        "`"@ + target
            + "` is alive. A live borrow restricts the conflicting operation; borrowed does not mean dead."@
    } else if is_move_problem(category) {
        let destination = match first_destination(model.value_trace@, 0) {
            Some(d) => " The value now belongs to `"@ + d + "`."@,
            None => Seq::empty(),
        };
        "The old place `"@ + target + "` is unavailable after ownership transferred."@
            + destination
    } else {
        "Rust rejected this operation on `"@ + target
            + "` while preserving the value and access rules described below."@
    }
}

fn first_destination_index(trace: &Vec<OwnershipValueTraceStep>) -> (r: Option<usize>)
    ensures
        match r {
            Some(i) => i < trace.len() && trace@[i as int].to_label is Some && first_destination(
                trace@,
                0,
            ) == Some(trace@[i as int].to_label->0@),
            None => first_destination(trace@, 0) is None,
        },
{
    let mut i: usize = 0;
    while i < trace.len()
        invariant
            i <= trace.len(),
            first_destination(trace@, 0) == first_destination(trace@, i as int),
        decreases trace.len() - i,
    {
        if trace[i].to_label.is_some() {
            return Some(i);
        }
        i += 1;
    }
    None
}

pub fn guided_issue_facts(problem: &OwnershipProblem, model: &OwnershipModel) -> (r: GuidedIssueFacts)
    ensures
        r.target@ == spec_resolved_problem_target(*problem, *model),
        r.headline@ == guided_headline(*problem, *model),
        opt_text(r.access_route) == match model.mutation_requirement {
            Some(req) => Some(req.access_source@),
            None => None,
        },
        opt_text(r.operation) == guided_operation_name(*model),
        opt_text(r.required_access) == guided_required_access(*model),
        r.state_summary@ == guided_state_summary(*problem, *model),
{
    let target = resolved_problem_target(problem, model);
    let selected = selected_mutation_operation(model);
    let (operation, access_route, required_access) = match &model.mutation_requirement {
        Some(req) => (
            Some(req.operation_name.clone()),
            Some(req.access_source.clone()),
            Some(owned(readable_access(req.required_access.as_str()))),
        ),
        None => match selected {
            Some(i) => (
                Some(model.operations[i].name.clone()),
                None,
                Some(owned(readable_access(model.operations[i].required_access.as_str()))),
            ),
            None => (None, None, None),
        },
    };
    let category = problem.category.as_str();
    let headline = if str_eq(category, "immutable_mutation") {
        match (&operation, &access_route) {
            (Some(op), Some(route)) => {
                let mut h = concat3("Cannot call ", op.as_str(), "() on `");
                h.append(target);
                h.append("` through `");
                h.append(route.as_str());
                h.append("`");
                h
            },
            (Some(op), None) => {
                let mut h = concat3("Cannot call ", op.as_str(), "() on `");
                h.append(target);
                h.append("`");
                h
            },
            _ => concat3("`", target, "` cannot be mutated through the current access path"),
        }
    } else {
        problem_story(category, target).0
    };
    let state_summary = if str_eq(category, "immutable_mutation") {
        concat3(
            "`",
            target,
            "` is alive and has not moved. The attempted write is blocked because no exclusive mutable access is available.",
        )
    } else if str_eq(category, "multiple_mutable_borrows") || str_eq(category, "mutable_while_shared")
        || str_eq(category, "assign_while_borrowed") || str_eq(
        category,
        "use_while_mutably_borrowed",
    ) || str_eq(category, "move_while_borrowed") {
        concat3(
            "`",
            target,
            "` is alive. A live borrow restricts the conflicting operation; borrowed does not mean dead.",
        )
    } else if str_eq(category, "use_after_move") || str_eq(category, "partial_move") || str_eq(
        category,
        "move_out_of_borrowed_content",
    ) {
        let mut s = concat3(
            "The old place `",
            target,
            "` is unavailable after ownership transferred.",
        );
        match first_destination_index(&model.value_trace) {
            Some(i) => {
                let destination = match &model.value_trace[i].to_label {
                    Some(d) => d.as_str(),
                    None => "",
                };
                s.append(" The value now belongs to `");
                s.append(destination);
                s.append("`.");
            },
            None => {},
        }
        s
    } else {
        concat3(
            "Rust rejected this operation on `",
            target,
            "` while preserving the value and access rules described below.",
        )
    };
    GuidedIssueFacts {
        target: owned(target),
        headline,
        access_route,
        operation,
        required_access,
        state_summary,
    }
}

/// The title, diff and impact of the repair preferred for a blocked
/// mutation.
#[derive(Clone, Debug)]
pub struct PreferredRepairSummary {
    pub title: String,
    pub diff: String,
    pub impact: String,
}

/// The first breadcrumb at or after `i` that is a function.
pub open spec fn first_function_crumb(items: Seq<OwnershipContextItem>, i: int) -> Option<int>
    decreases items.len() - i,
{
    if i < 0 || i >= items.len() {
        None
    } else if items[i].kind@ == "function"@ {
        Some(i)
    } else {
        first_function_crumb(items, i + 1)
    }
}

/// The name of the function the problem sits in, or `method`.
pub open spec fn enclosing_function(context: Option<OwnershipSourceContext>) -> Seq<char> {
    match context {
        Some(c) => match first_function_crumb(c.breadcrumbs@, 0) {
            Some(i) => c.breadcrumbs@[i].label@,
            None => "method"@,
        },
        None => "method"@,
    }
}

pub open spec fn immutable_binding_prefix() -> Seq<char> {
    "immutable binding "@
}

/// For a mutation blocked behind `&self`, make the method take `&mut self`;
/// behind an immutable local, declare it `mut`; otherwise nothing.
pub open spec fn spec_preferred_mutability_repair(problem: OwnershipProblem, model: OwnershipModel) -> Option<
    (Seq<char>, Seq<char>, Seq<char>),
> {
    if problem.category@ != "immutable_mutation"@ || model.mutation_requirement is None {
        None
    } else {
        let source = model.mutation_requirement->0.access_source@;
        if source == "&self"@ {
            let f = enclosing_function(model.source_context);
            Some(
                (
                    "give the method exclusive mutable access"@,
                    "- fn "@ + f + "(&self, …)\n+ fn "@ + f + "(&mut self, …)"@,
                    "Callers must temporarily hold mutable access to the owner. This adds no runtime borrow checks, reference counts, or locks."@,
                ),
            )
        } else if starts_with(source, immutable_binding_prefix()) {
            let b = source.skip(immutable_binding_prefix().len() as int);
            Some(
                (
                    "declare `"@ + b + "` mutable"@,
                    "- let "@ + b + " = …;\n+ let mut "@ + b + " = …;"@,
                    "The binding stays uniquely owned; this only permits mutation through that local name."@,
                ),
            )
        } else {
            None
        }
    }
}

fn enclosing_function_name(context: &Option<OwnershipSourceContext>) -> (r: &str)
    ensures
        r@ == enclosing_function(*context),
{
    match context {
        Some(c) => {
            let items = &c.breadcrumbs;
            let mut i: usize = 0;
            while i < items.len()
                invariant
                    i <= items.len(),
                    items == &c.breadcrumbs,
                    *context == Some(*c),
                    first_function_crumb(items@, 0) == first_function_crumb(items@, i as int),
                decreases items.len() - i,
            {
                if str_eq(items[i].kind.as_str(), "function") {
                    return items[i].label.as_str();
                }
                i += 1;
            }
            "method"
        },
        None => "method",
    }
}

pub fn preferred_mutability_repair(problem: &OwnershipProblem, model: &OwnershipModel) -> (r: Option<
    PreferredRepairSummary,
>)
    ensures
        match r {
            Some(s) => spec_preferred_mutability_repair(*problem, *model) == Some(
                (s.title@, s.diff@, s.impact@),
            ),
            None => spec_preferred_mutability_repair(*problem, *model) is None,
        },
{
    if !str_eq(problem.category.as_str(), "immutable_mutation") {
        return None;
    }
    let requirement = match &model.mutation_requirement {
        Some(req) => req,
        None => return None,
    };
    let source = requirement.access_source.as_str();
    if str_eq(source, "&self") {
        let f = enclosing_function_name(&model.source_context);
        let mut diff = concat3("- fn ", f, "(&self, …)\n+ fn ");
        diff.append(f);
        diff.append("(&mut self, …)");
        return Some(
            PreferredRepairSummary {
                title: owned("give the method exclusive mutable access"),
                diff,
                impact: owned(
                    "Callers must temporarily hold mutable access to the owner. This adds no runtime borrow checks, reference counts, or locks.",
                ),
            },
        );
    }
    if has_prefix(source, "immutable binding ") {
        proof {
            reveal_strlit("immutable binding ");
        }
        let n = source.unicode_len();
        let binding = source.substring_char(18, n);
        let mut diff = concat3("- let ", binding, " = …;\n+ let mut ");
        diff.append(binding);
        diff.append(" = …;");
        return Some(
            PreferredRepairSummary {
                title: concat3("declare `", binding, "` mutable"),
                diff,
                impact: owned(
                    "The binding stays uniquely owned; this only permits mutation through that local name.",
                ),
            },
        );
    }
    None
}

proof fn lemma_cut_from_fits(code: Seq<char>, limit: int, k: int)
    requires
        0 <= k <= code.len(),
        utf8_len(code.take(k)) <= limit,
    ensures
        k <= preview_cut_from(code, limit, k) <= code.len(),
        utf8_len(code.take(preview_cut_from(code, limit, k))) <= limit,
        preview_cut_from(code, limit, k) < code.len() ==> utf8_len(
            code.take(preview_cut_from(code, limit, k) + 1),
        ) > limit,
    decreases code.len() - k,
{
    if k < code.len() && utf8_len(code.take(k + 1)) <= limit {
        lemma_cut_from_fits(code, limit, k + 1);
    }
}

/// A truncated preview keeps whole characters only: the kept prefix fits in
/// the byte limit, and one more character would not.
pub proof fn preview_cuts_on_a_character_boundary(code: Seq<char>, limit: nat)
    requires
        byte_len(code) > limit,
    ensures
        ({
            let cut = preview_cut_from(code, limit as int, 0);
            &&& 0 <= cut <= code.len()
            &&& spec_generated_c_preview(code, Seq::empty(), limit as int).take(cut) == code.take(cut)
            &&& utf8_len(code.take(cut)) <= limit
            &&& cut < code.len() ==> utf8_len(code.take(cut + 1)) > limit
        }),
{
    assert(code.take(0) =~= Seq::<char>::empty());
    assert(vstd::utf8::encode_utf8(Seq::<char>::empty()).len() == 0);
    lemma_cut_from_fits(code, limit as int, 0);
    let cut = preview_cut_from(code, limit as int, 0);
    let full = spec_generated_c_preview(code, Seq::empty(), limit as int);
    assert(full.take(cut) =~= code.take(cut));
}

/// Where a blocked mutation names no place of its own, the coach never
/// trades the problem's place for a less specific one: `self.events` does
/// not collapse back to `self`.
pub proof fn resolved_target_is_never_less_specific(problem: OwnershipProblem, model: OwnershipModel)
    requires
        problem.category@ == "immutable_mutation"@,
        model.mutation_requirement is None,
    ensures
        !more_specific(problem.binding_name@, spec_resolved_problem_target(problem, model)),
{
}

} // verus!
