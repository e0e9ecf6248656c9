//! The beginner-facing teaching catalog: a story for every diagnostic family,
//! concept lessons, and repair ideas with their trade-offs.
use vstd::prelude::*;

use crate::text::{concat3, seq_contains, str_eq};

verus! {

/// A term and what it means, as shown next to a story.
#[derive(Clone, Debug, PartialEq, Eq)]
pub struct BeginnerVocabulary {
    pub term: &'static str,
    pub meaning: &'static str,
}

/// What happened, in the order a beginner should read it.
#[derive(Clone, Debug, PartialEq, Eq)]
pub struct BeginnerNarrative {
    pub title: String,
    pub before: String,
    pub operation: String,
    pub now: String,
    pub common_expectation: String,
    pub rust_model: String,
    pub intuition: String,
    pub misconception: String,
    pub vocabulary: Vec<BeginnerVocabulary>,
}

/// The text of a story.
pub struct NarrativeText {
    pub title: Seq<char>,
    pub before: Seq<char>,
    pub operation: Seq<char>,
    pub now: Seq<char>,
    pub common_expectation: Seq<char>,
    pub rust_model: Seq<char>,
    pub intuition: Seq<char>,
    pub misconception: Seq<char>,
    pub vocabulary: Seq<(Seq<char>, Seq<char>)>,
}

impl View for BeginnerNarrative {
    type V = NarrativeText;

    open spec fn view(&self) -> NarrativeText {
        NarrativeText {
            title: self.title@,
            before: self.before@,
            operation: self.operation@,
            now: self.now@,
            common_expectation: self.common_expectation@,
            rust_model: self.rust_model@,
            intuition: self.intuition@,
            misconception: self.misconception@,
            vocabulary: self.vocabulary@.map_values(
                |v: BeginnerVocabulary| (v.term@, v.meaning@),
            ),
        }
    }
}

/// All eight parts present, three vocabulary entries with text on both
/// sides, and a title that names `target`.
pub open spec fn narrative_complete(n: NarrativeText, target: Seq<char>) -> bool {
    &&& n.title.len() > 0
    &&& n.before.len() > 0
    &&& n.operation.len() > 0
    &&& n.now.len() > 0
    &&& n.common_expectation.len() > 0
    &&& n.rust_model.len() > 0
    &&& n.intuition.len() > 0
    &&& n.misconception.len() > 0
    &&& n.vocabulary.len() == 3
    &&& forall|k: int|
        0 <= k < 3 ==> (#[trigger] n.vocabulary[k]).0.len() > 0 && n.vocabulary[k].1.len() > 0
    &&& seq_contains(n.title, target)
    &&& seq_contains(n.title, seq!['`'] + target + seq!['`'])
}

/// Assembles a story from its parts and its three vocabulary entries.
pub fn narrative(
    title: String,
    before: String,
    operation: String,
    now: String,
    common_expectation: String,
    rust_model: String,
    intuition: String,
    misconception: String,
    vocabulary: [(&'static str, &'static str); 3],
) -> (r: BeginnerNarrative)
    ensures
        r@ == (NarrativeText {
            title: title@,
            before: before@,
            operation: operation@,
            now: now@,
            common_expectation: common_expectation@,
            rust_model: rust_model@,
            intuition: intuition@,
            misconception: misconception@,
            vocabulary: seq![
                (vocabulary[0].0@, vocabulary[0].1@),
                (vocabulary[1].0@, vocabulary[1].1@),
                (vocabulary[2].0@, vocabulary[2].1@),
            ],
        }),
{
    let mut entries: Vec<BeginnerVocabulary> = Vec::new();
    entries.push(BeginnerVocabulary { term: vocabulary[0].0, meaning: vocabulary[0].1 });
    entries.push(BeginnerVocabulary { term: vocabulary[1].0, meaning: vocabulary[1].1 });
    entries.push(BeginnerVocabulary { term: vocabulary[2].0, meaning: vocabulary[2].1 });
    let r = BeginnerNarrative {
        title,
        before,
        operation,
        now,
        common_expectation,
        rust_model,
        intuition,
        misconception,
        vocabulary: entries,
    };
    assert(r@.vocabulary =~= seq![
        (vocabulary[0].0@, vocabulary[0].1@),
        (vocabulary[1].0@, vocabulary[1].1@),
        (vocabulary[2].0@, vocabulary[2].1@),
    ]);
    r
}
/// Which beginner story a diagnostic category is told with.
#[derive(Clone, Copy, Debug, PartialEq, Eq, Structural)]
pub enum NarrativeFamily {
    UseAfterMove,
    PartialMove,
    MultipleMutableBorrows,
    MutableWhileShared,
    UseWhileMutablyBorrowed,
    MoveWhileBorrowed,
    MoveOutOfBorrowedContent,
    ImmutableMutation,
    MissingLifetime,
    ReturningLocalReference,
    TemporaryDroppedWhileBorrowed,
    TraitRequirement,
    TypeMismatch,
    MethodOrTraitUnavailable,
    ClosureMayOutliveBorrow,
    AwaitOutsideAsync,
    RecursiveAsyncFunction,
    Fallback,
}

pub open spec fn spec_narrative_family(category: Seq<char>) -> NarrativeFamily {
    if category == "use_after_move"@ {
        NarrativeFamily::UseAfterMove
    } else if category == "partial_move"@ {
        NarrativeFamily::PartialMove
    } else if category == "multiple_mutable_borrows"@ {
        NarrativeFamily::MultipleMutableBorrows
    } else if category == "mutable_while_shared"@ || category == "assign_while_borrowed"@ {
        NarrativeFamily::MutableWhileShared
    } else if category == "use_while_mutably_borrowed"@ {
        NarrativeFamily::UseWhileMutablyBorrowed
    } else if category == "move_while_borrowed"@ {
        NarrativeFamily::MoveWhileBorrowed
    } else if category == "move_out_of_borrowed_content"@ {
        NarrativeFamily::MoveOutOfBorrowedContent
    } else if category == "immutable_mutation"@ {
        NarrativeFamily::ImmutableMutation
    } else if category == "missing_lifetime"@ || category == "borrowed_value_too_short"@ {
        NarrativeFamily::MissingLifetime
    } else if category == "returning_local_reference"@ {
        NarrativeFamily::ReturningLocalReference
    } else if category == "temporary_dropped_while_borrowed"@ {
        NarrativeFamily::TemporaryDroppedWhileBorrowed
    } else if category == "trait_requirement"@ {
        NarrativeFamily::TraitRequirement
    } else if category == "type_mismatch"@ {
        NarrativeFamily::TypeMismatch
    } else if category == "method_or_trait_unavailable"@ {
        NarrativeFamily::MethodOrTraitUnavailable
    } else if category == "closure_may_outlive_borrow"@ || category == "borrowed_data_escapes"@ {
        NarrativeFamily::ClosureMayOutliveBorrow
    } else if category == "await_outside_async"@ {
        NarrativeFamily::AwaitOutsideAsync
    } else if category == "recursive_async_function"@ {
        NarrativeFamily::RecursiveAsyncFunction
    } else {
        NarrativeFamily::Fallback
    }
}

pub fn narrative_family(category: &str) -> (r: NarrativeFamily)
    ensures
        r == spec_narrative_family(category@),
{
    if str_eq(category, "use_after_move") {
        NarrativeFamily::UseAfterMove
    } else if str_eq(category, "partial_move") {
        NarrativeFamily::PartialMove
    } else if str_eq(category, "multiple_mutable_borrows") {
        NarrativeFamily::MultipleMutableBorrows
    } else if str_eq(category, "mutable_while_shared") || str_eq(category, "assign_while_borrowed") {
        NarrativeFamily::MutableWhileShared
    } else if str_eq(category, "use_while_mutably_borrowed") {
        NarrativeFamily::UseWhileMutablyBorrowed
    } else if str_eq(category, "move_while_borrowed") {
        NarrativeFamily::MoveWhileBorrowed
    } else if str_eq(category, "move_out_of_borrowed_content") {
        NarrativeFamily::MoveOutOfBorrowedContent
    } else if str_eq(category, "immutable_mutation") {
        NarrativeFamily::ImmutableMutation
    } else if str_eq(category, "missing_lifetime") || str_eq(category, "borrowed_value_too_short") {
        NarrativeFamily::MissingLifetime
    } else if str_eq(category, "returning_local_reference") {
        NarrativeFamily::ReturningLocalReference
    } else if str_eq(category, "temporary_dropped_while_borrowed") {
        NarrativeFamily::TemporaryDroppedWhileBorrowed
    } else if str_eq(category, "trait_requirement") {
        NarrativeFamily::TraitRequirement
    } else if str_eq(category, "type_mismatch") {
        NarrativeFamily::TypeMismatch
    } else if str_eq(category, "method_or_trait_unavailable") {
        NarrativeFamily::MethodOrTraitUnavailable
    } else if str_eq(category, "closure_may_outlive_borrow") || str_eq(category, "borrowed_data_escapes") {
        NarrativeFamily::ClosureMayOutliveBorrow
    } else if str_eq(category, "await_outside_async") {
        NarrativeFamily::AwaitOutsideAsync
    } else if str_eq(category, "recursive_async_function") {
        NarrativeFamily::RecursiveAsyncFunction
    } else {
        NarrativeFamily::Fallback
    }
}

/// The beginner story told for a family, about the value `target`.
pub open spec fn spec_narrative(family: NarrativeFamily, target: Seq<char>) -> NarrativeText {
    match family {
        NarrativeFamily::UseAfterMove => NarrativeText {
            title: "`"@ + target + "` was handed to a new owner"@,
            before: "`"@ + target + "` was the one place responsible for this value."@,
            operation: "An assignment or function call transferred that responsibility to another place."@,
            now: "The value still exists, but `"@ + target + "` is no longer a usable way to reach it."@,
            common_expectation: "In many managed languages, assigning an object variable leaves both names usable."@,
            rust_model: "For a non-Copy Rust value, assignment normally transfers the owning handle unless sharing or cloning is explicit."@,
            intuition: "Think of ownership as the responsibility to clean up, not as the physical location of the bytes."@,
            misconception: "A move usually does not move the heap allocation; it changes which place controls it."@,
            vocabulary: seq![("owner"@, "the place responsible for cleanup"@), ("move"@, "transfer that responsibility"@), ("Copy"@, "a type whose value may be duplicated implicitly"@)],
        },
        NarrativeFamily::PartialMove => NarrativeText {
            title: "Part of `"@ + target + "` was handed away"@,
            before: "`"@ + target + "` was a complete value with all of its fields available."@,
            operation: "Code moved one non-Copy field out of the value."@,
            now: "Unmoved fields may still be usable, but the whole value is incomplete until that field is replaced."@,
            common_expectation: "Many languages keep an object usable after reading one of its fields."@,
            rust_model: "Rust distinguishes reading a field from moving an owned field out of its parent."@,
            intuition: "Picture a form with one required page removed: the remaining pages exist, but the complete packet cannot be submitted."@,
            misconception: "A partial move does not necessarily invalidate every sibling field."@,
            vocabulary: seq![("place"@, "a variable, field, or other storage path"@), ("partial move"@, "moving one part of a larger value"@), ("reinitialize"@, "put a new value back into a moved place"@)],
        },
        NarrativeFamily::MultipleMutableBorrows => NarrativeText {
            title: "`"@ + target + "` already has an exclusive visitor"@,
            before: "The value was available for an exclusive mutable borrow."@,
            operation: "One mutable borrow began, then code tried to create another before the first one's final use."@,
            now: "The value remains alive, but only the existing mutable reference may access it during that overlap."@,
            common_expectation: "Other languages often allow several references to mutate the same object and coordinate at runtime."@,
            rust_model: "Rust requires one exclusive mutable access path at a time so aliases cannot observe an in-progress mutation."@,
            intuition: "An `&mut` is a temporary exclusive-access pass, not merely a pointer that permits writes."@,
            misconception: "The first borrow may end before the surrounding block ends; its final use is what matters."@,
            vocabulary: seq![("mutable borrow"@, "temporary exclusive access"@), ("alias"@, "another path to the same value"@), ("overlap"@, "two access permissions active at the same time"@)],
        },
        NarrativeFamily::MutableWhileShared => NarrativeText {
            title: "`"@ + target + "` is still being observed"@,
            before: "One or more shared references could read the current value."@,
            operation: "Code tried to mutate, replace, or exclusively borrow the value while those readers were still live."@,
            now: "Rust keeps the old view stable until the shared references have had their final use."@,
            common_expectation: "Managed languages commonly allow an object to change while other references still point at it."@,
            rust_model: "A Rust shared borrow promises that the borrowed value will not be mutated through ordinary access for that loan's duration."@,
            intuition: "Readers receive a stable-view promise; mutation waits until nobody can still rely on that view."@,
            misconception: "Shared means read-only access, not shared ownership. `Rc<T>` and `&T` answer different questions."@,
            vocabulary: seq![("shared borrow"@, "temporary read-only access"@), ("loan"@, "the compiler-tracked borrow period"@), ("final use"@, "the last point a reference is needed"@)],
        },
        NarrativeFamily::UseWhileMutablyBorrowed => NarrativeText {
            title: "`"@ + target + "` is temporarily behind an exclusive reference"@,
            before: "The owner could use the value normally."@,
            operation: "Code created a mutable reference and then tried to use the original path before that reference's final use."@,
            now: "The original path is paused while exclusive access is active; the value itself is still alive."@,
            common_expectation: "A reference in another language is often just another equally valid route to the object."@,
            rust_model: "An active `&mut T` temporarily becomes the only permitted route to that `T`."@,
            intuition: "Opening an exclusive editing session temporarily disables other views of the same document."@,
            misconception: "Borrowed does not mean moved or destroyed; it means access is temporarily constrained."@,
            vocabulary: seq![("exclusive access"@, "one active read/write route"@), ("borrow"@, "temporary access without taking ownership"@), ("owner"@, "the path that resumes access after the loan"@)],
        },
        NarrativeFamily::MoveWhileBorrowed => NarrativeText {
            title: "`"@ + target + "` cannot leave while a reference points into it"@,
            before: "A reference was created from the value and may still be used."@,
            operation: "Code tried to transfer ownership before that reference's final use."@,
            now: "The transfer is blocked because the old owner must stay responsible for valid borrowed access."@,
            common_expectation: "A garbage-collected object may remain alive automatically while any reference reaches it."@,
            rust_model: "A Rust borrow is tied to a proven owner lifetime; ownership cannot transfer in a way that breaks that proof."@,
            intuition: "Do not forward a package while someone is still using an item that must be returned to that package."@,
            misconception: "Moving an owning handle is about control and cleanup, even if the underlying heap address would stay unchanged."@,
            vocabulary: seq![("referent"@, "the value a reference points into"@), ("lifetime"@, "the region where that reference may be used"@), ("move"@, "transfer ownership"@)],
        },
        NarrativeFamily::MoveOutOfBorrowedContent => NarrativeText {
            title: "A borrow of `"@ + target + "` does not own its contents"@,
            before: "Code had temporary access to a value owned somewhere else."@,
            operation: "It tried to take an owned, non-Copy part through that borrowed path."@,
            now: "Rust blocks the move because the original owner would be left with a missing part it still must manage."@,
            common_expectation: "Reading a field through an object reference often leaves the containing object structurally unchanged."@,
            rust_model: "Moving a Rust field is different from reading it; only an owner may normally remove owned content."@,
            intuition: "A visitor may inspect or modify permitted contents, but cannot take away a required component of the host object."@,
            misconception: "Cloning a part and moving the original part have different identity and cost semantics."@,
            vocabulary: seq![("borrowed content"@, "data reached through a reference"@), ("move out"@, "remove ownership from its current place"@), ("clone"@, "create a separate owned value explicitly"@)],
        },
        NarrativeFamily::ImmutableMutation => NarrativeText {
            title: "The path to `"@ + target + "` does not grant write access"@,
            before: "The value exists and is reachable through the current binding, reference, or wrapper."@,
            operation: "Code called an operation that needs exclusive mutable access."@,
            now: "The write is blocked; the value is still alive and unchanged."@,
            common_expectation: "Object references in many languages permit mutation unless the object or field is specially marked immutable."@,
            rust_model: "Rust makes write permission part of the binding, reference, method receiver, and wrapper path."@,
            intuition: "Reaching a value and being allowed to change it are separate capabilities."@,
            misconception: "Making the outer variable `mut` cannot create mutable access through a wrapper whose API only provides shared access."@,
            vocabulary: seq![("mutable binding"@, "a variable that may be reassigned or mutably borrowed"@), ("`&mut self`"@, "a method requires exclusive access to its receiver"@), ("interior mutability"@, "a wrapper that checks mutation by another mechanism"@)],
        },
        NarrativeFamily::MissingLifetime => NarrativeText {
            title: "Rust cannot prove how long `"@ + target + "` remains valid"@,
            before: "A reference was created from storage owned elsewhere."@,
            operation: "The reference was stored, returned, or used across a boundary that needs a lifetime relationship."@,
            now: "Rust rejects the path until it can prove the referenced storage outlives every use."@,
            common_expectation: "Garbage collection often keeps an object alive as long as a reference can reach it."@,
            rust_model: "Rust references do not extend storage lifetime; the compiler must connect each reference to an owner that already lives long enough."@,
            intuition: "A lifetime is an expiry relationship printed on a permission slip, not extra runtime storage."@,
            misconception: "Writing a lifetime annotation describes a relationship; it cannot make a short-lived owner live longer."@,
            vocabulary: seq![("lifetime"@, "how reference validity relates to owner scope"@), ("outlive"@, "remain valid for at least as long"@), ("annotation"@, "a name for a lifetime relationship"@)],
        },
        NarrativeFamily::ReturningLocalReference => NarrativeText {
            title: "`"@ + target + "` is local to the function that is ending"@,
            before: "The function created and owned a local value."@,
            operation: "It tried to return a reference into that local value."@,
            now: "The local owner must be cleaned up at return, so the reference would point into storage that no longer belongs to a live value."@,
            common_expectation: "A managed runtime can keep an object alive after its creating function returns."@,
            rust_model: "Rust normally ends local ownership at the function boundary unless the owned value itself is returned or stored elsewhere."@,
            intuition: "Return the book, not a library card for a library that closes when the function exits."@,
            misconception: "Heap allocation alone does not make data independent of its local owner."@,
            vocabulary: seq![("local owner"@, "a value cleaned up when its scope ends"@), ("dangling reference"@, "a reference whose referent no longer exists"@), ("owned return"@, "transfer the value itself to the caller"@)],
        },
        NarrativeFamily::TemporaryDroppedWhileBorrowed => NarrativeText {
            title: "The temporary owner behind `"@ + target + "` ends too soon"@,
            before: "An expression created a short-lived temporary value."@,
            operation: "Code borrowed from that temporary and kept the reference past the temporary's drop point."@,
            now: "The borrow is rejected because its referent would be cleaned up before the reference's final use."@,
            common_expectation: "Managed runtimes often extend an anonymous object's life while a reference reaches it."@,
            rust_model: "Rust temporaries have defined drop points; borrowing one does not generally promote it to a longer owner scope."@,
            intuition: "Give the owner a name in the scope where its borrowed data must remain usable."@,
            misconception: "The reference is not the owner and therefore cannot keep the temporary alive by itself."@,
            vocabulary: seq![("temporary"@, "an unnamed intermediate value"@), ("drop point"@, "where cleanup runs"@), ("referent"@, "the value being borrowed"@)],
        },
        NarrativeFamily::TraitRequirement => NarrativeText {
            title: "`"@ + target + "` lacks a capability required here"@,
            before: "An API or generic function stated a trait requirement for every accepted type."@,
            operation: "Code supplied a type for which that capability has not been proven."@,
            now: "The operation is unavailable until the representation, bound, or implementation matches the contract."@,
            common_expectation: "Interfaces in other languages are sometimes checked mainly at object construction or dynamically at a call."@,
            rust_model: "Rust proves trait capabilities at compile time and propagates generic requirements through every call boundary."@,
            intuition: "A trait bound is a capability checklist the compiler must complete before admitting the call."@,
            misconception: "A missing trait does not always mean you should implement it; the chosen representation may be the real mismatch."@,
            vocabulary: seq![("trait"@, "a named set of supported behavior"@), ("bound"@, "a required trait on a generic type"@), ("implementation"@, "proof that a type supplies a trait"@)],
        },
        NarrativeFamily::TypeMismatch => NarrativeText {
            title: "The value produced for `"@ + target + "` has a different contract"@,
            before: "The surrounding expression expected one specific type."@,
            operation: "A producer supplied another type, wrapper, reference, or error shape."@,
            now: "Rust stops at the boundary so conversion, failure, allocation, and ownership changes remain explicit."@,
            common_expectation: "Dynamically typed languages may defer this mismatch until the value is used."@,
            rust_model: "Rust checks the producer and consumer contracts before running the program."@,
            intuition: "Types are not just printed shapes; they also state ownership, optionality, failure, and allowed operations."@,
            misconception: "Similar displayed values do not imply interchangeable types or a free conversion."@,
            vocabulary: seq![("expected type"@, "the consumer's required contract"@), ("found type"@, "the producer's actual contract"@), ("conversion"@, "an explicit transformation between representations"@)],
        },
        NarrativeFamily::MethodOrTraitUnavailable => NarrativeText {
            title: "The requested operation is not available through `"@ + target + "`"@,
            before: "Method lookup started from the receiver's current type and access path."@,
            operation: "Rust searched inherent methods and visible trait methods through allowed borrow and dereference steps."@,
            now: "No compatible method contract was proven for this receiver path."@,
            common_expectation: "Some languages dispatch a method name dynamically and fail only if the object cannot answer it at runtime."@,
            rust_model: "Rust resolves one method at compile time and proves its trait scope, receiver layer, and access requirements."@,
            intuition: "The inner value may know the operation while the wrapper you currently hold does not grant that route."@,
            misconception: "A method existing on `T` does not imply it is available mutably through `Rc<T>` or `&T`."@,
            vocabulary: seq![("receiver"@, "the value before the dot in a method call"@), ("trait in scope"@, "a visible source of extension methods"@), ("auto-deref"@, "compiler-assisted search through dereference layers"@)],
        },
        NarrativeFamily::ClosureMayOutliveBorrow => NarrativeText {
            title: "The callable may keep access to `"@ + target + "` too long"@,
            before: "A closure or task captured a value from its surrounding scope."@,
            operation: "The callable was returned, stored, spawned, or otherwise allowed to outlive that local borrow."@,
            now: "Rust requires the environment to own what it needs or to stay inside the proven borrow scope."@,
            common_expectation: "Managed closures often keep captured objects alive automatically."@,
            rust_model: "A Rust closure has a concrete hidden environment containing either references or owned captures, each with normal lifetime rules."@,
            intuition: "Treat a closure as a small struct: ask whether each stored field is a borrowed reference or an owned value."@,
            misconception: "The `move` keyword changes capture ownership; it does not necessarily allocate or copy every captured value."@,
            vocabulary: seq![("capture"@, "a surrounding value stored in a closure environment"@), ("`move` closure"@, "a closure that takes ownership of captures"@), ("escape"@, "remain usable beyond the current scope"@)],
        },
        NarrativeFamily::AwaitOutsideAsync => NarrativeText {
            title: "`"@ + target + "` tries to pause a non-async context"@,
            before: "The current function or block executes synchronously."@,
            operation: "Code used `.await`, which may suspend execution and later resume it."@,
            now: "Rust needs an async state-machine boundary to store the values required across that suspension."@,
            common_expectation: "Some runtimes let any function block until asynchronous work completes."@,
            rust_model: "Rust separates blocking from awaiting; `.await` is only valid where a future state machine is being built."@,
            intuition: "An async block is resumable work with saved locals, not just a function that happens to call networking code."@,
            misconception: "Calling an async function creates a future; it does not run that future to completion immediately."@,
            vocabulary: seq![("future"@, "a value representing work that can make progress"@), ("`.await`"@, "suspend this future until another is ready"@), ("async context"@, "a function or block compiled as a future"@)],
        },
        NarrativeFamily::RecursiveAsyncFunction => NarrativeText {
            title: "`"@ + target + "` would contain itself without a size boundary"@,
            before: "An async function produces a concrete future state machine."@,
            operation: "The function called itself recursively, so one future state would need to store another future of the same type."@,
            now: "Rust requires indirection so the recursive future has a finite known size."@,
            common_expectation: "Managed runtimes routinely place call frames behind runtime-managed references."@,
            rust_model: "Rust future types are concrete values; direct recursive containment needs a pointer-sized boundary such as boxing."@,
            intuition: "A box turns 'contains another complete copy of me' into 'contains a fixed-size handle to another copy.'"@,
            misconception: "The recursion problem is the future's representation, not recursion in ordinary synchronous functions."@,
            vocabulary: seq![("state machine"@, "the stored states of resumable async work"@), ("indirection"@, "reach a value through a fixed-size handle"@), ("boxed future"@, "a future stored behind heap indirection"@)],
        },
        NarrativeFamily::Fallback => NarrativeText {
            title: "Rust rejected an operation involving `"@ + target + "`"@,
            before: "The surrounding code established a type, ownership, or access contract."@,
            operation: "This operation required a capability that the current path could not prove."@,
            now: "The program remains unchanged; the compiler is asking you to make the intended contract explicit."@,
            common_expectation: "Other languages may defer some ownership, type, or capability checks until runtime."@,
            rust_model: "Rust tries to prove the relevant contract before the operation can run."@,
            intuition: "Start by asking who owns the value, who may access it now, and how long that access must last."@,
            misconception: "The compiler message describes the failed proof; it does not decide which program design you intended."@,
            vocabulary: seq![("owner"@, "the place responsible for a value"@), ("access"@, "permission to read, write, or consume"@), ("contract"@, "what an API requires and guarantees"@)],
        },
    }
}

pub fn beginner_narrative(category: &str, target: &str) -> (r: BeginnerNarrative)
    ensures
        r@ == spec_narrative(spec_narrative_family(category@), target@),
{
    match narrative_family(category) {
        NarrativeFamily::UseAfterMove => narrative(
            concat3("`", target, "` was handed to a new owner"),
            concat3("`", target, "` was the one place responsible for this value."),
            "An assignment or function call transferred that responsibility to another place.".to_owned(),
            concat3("The value still exists, but `", target, "` is no longer a usable way to reach it."),
            "In many managed languages, assigning an object variable leaves both names usable.".to_owned(),
            "For a non-Copy Rust value, assignment normally transfers the owning handle unless sharing or cloning is explicit.".to_owned(),
            "Think of ownership as the responsibility to clean up, not as the physical location of the bytes.".to_owned(),
            "A move usually does not move the heap allocation; it changes which place controls it.".to_owned(),
            [("owner", "the place responsible for cleanup"), ("move", "transfer that responsibility"), ("Copy", "a type whose value may be duplicated implicitly")],
        ),
        NarrativeFamily::PartialMove => narrative(
            concat3("Part of `", target, "` was handed away"),
            concat3("`", target, "` was a complete value with all of its fields available."),
            "Code moved one non-Copy field out of the value.".to_owned(),
            "Unmoved fields may still be usable, but the whole value is incomplete until that field is replaced.".to_owned(),
            "Many languages keep an object usable after reading one of its fields.".to_owned(),
            "Rust distinguishes reading a field from moving an owned field out of its parent.".to_owned(),
            "Picture a form with one required page removed: the remaining pages exist, but the complete packet cannot be submitted.".to_owned(),
            "A partial move does not necessarily invalidate every sibling field.".to_owned(),
            [("place", "a variable, field, or other storage path"), ("partial move", "moving one part of a larger value"), ("reinitialize", "put a new value back into a moved place")],
        ),
        NarrativeFamily::MultipleMutableBorrows => narrative(
            concat3("`", target, "` already has an exclusive visitor"),
            "The value was available for an exclusive mutable borrow.".to_owned(),
            "One mutable borrow began, then code tried to create another before the first one's final use.".to_owned(),
            "The value remains alive, but only the existing mutable reference may access it during that overlap.".to_owned(),
            "Other languages often allow several references to mutate the same object and coordinate at runtime.".to_owned(),
            "Rust requires one exclusive mutable access path at a time so aliases cannot observe an in-progress mutation.".to_owned(),
            "An `&mut` is a temporary exclusive-access pass, not merely a pointer that permits writes.".to_owned(),
            "The first borrow may end before the surrounding block ends; its final use is what matters.".to_owned(),
            [("mutable borrow", "temporary exclusive access"), ("alias", "another path to the same value"), ("overlap", "two access permissions active at the same time")],
        ),
        NarrativeFamily::MutableWhileShared => narrative(
            concat3("`", target, "` is still being observed"),
            "One or more shared references could read the current value.".to_owned(),
            "Code tried to mutate, replace, or exclusively borrow the value while those readers were still live.".to_owned(),
            "Rust keeps the old view stable until the shared references have had their final use.".to_owned(),
            "Managed languages commonly allow an object to change while other references still point at it.".to_owned(),
            "A Rust shared borrow promises that the borrowed value will not be mutated through ordinary access for that loan's duration.".to_owned(),
            "Readers receive a stable-view promise; mutation waits until nobody can still rely on that view.".to_owned(),
            "Shared means read-only access, not shared ownership. `Rc<T>` and `&T` answer different questions.".to_owned(),
            [("shared borrow", "temporary read-only access"), ("loan", "the compiler-tracked borrow period"), ("final use", "the last point a reference is needed")],
        ),
        NarrativeFamily::UseWhileMutablyBorrowed => narrative(
            concat3("`", target, "` is temporarily behind an exclusive reference"),
            "The owner could use the value normally.".to_owned(),
            "Code created a mutable reference and then tried to use the original path before that reference's final use.".to_owned(),
            "The original path is paused while exclusive access is active; the value itself is still alive.".to_owned(),
            "A reference in another language is often just another equally valid route to the object.".to_owned(),
            "An active `&mut T` temporarily becomes the only permitted route to that `T`.".to_owned(),
            "Opening an exclusive editing session temporarily disables other views of the same document.".to_owned(),
            "Borrowed does not mean moved or destroyed; it means access is temporarily constrained.".to_owned(),
            [("exclusive access", "one active read/write route"), ("borrow", "temporary access without taking ownership"), ("owner", "the path that resumes access after the loan")],
        ),
        NarrativeFamily::MoveWhileBorrowed => narrative(
            concat3("`", target, "` cannot leave while a reference points into it"),
            "A reference was created from the value and may still be used.".to_owned(),
            "Code tried to transfer ownership before that reference's final use.".to_owned(),
            "The transfer is blocked because the old owner must stay responsible for valid borrowed access.".to_owned(),
            "A garbage-collected object may remain alive automatically while any reference reaches it.".to_owned(),
            "A Rust borrow is tied to a proven owner lifetime; ownership cannot transfer in a way that breaks that proof.".to_owned(),
            "Do not forward a package while someone is still using an item that must be returned to that package.".to_owned(),
            "Moving an owning handle is about control and cleanup, even if the underlying heap address would stay unchanged.".to_owned(),
            [("referent", "the value a reference points into"), ("lifetime", "the region where that reference may be used"), ("move", "transfer ownership")],
        ),
        NarrativeFamily::MoveOutOfBorrowedContent => narrative(
            concat3("A borrow of `", target, "` does not own its contents"),
            "Code had temporary access to a value owned somewhere else.".to_owned(),
            "It tried to take an owned, non-Copy part through that borrowed path.".to_owned(),
            "Rust blocks the move because the original owner would be left with a missing part it still must manage.".to_owned(),
            "Reading a field through an object reference often leaves the containing object structurally unchanged.".to_owned(),
            "Moving a Rust field is different from reading it; only an owner may normally remove owned content.".to_owned(),
            "A visitor may inspect or modify permitted contents, but cannot take away a required component of the host object.".to_owned(),
            "Cloning a part and moving the original part have different identity and cost semantics.".to_owned(),
            [("borrowed content", "data reached through a reference"), ("move out", "remove ownership from its current place"), ("clone", "create a separate owned value explicitly")],
        ),
        NarrativeFamily::ImmutableMutation => narrative(
            concat3("The path to `", target, "` does not grant write access"),
            "The value exists and is reachable through the current binding, reference, or wrapper.".to_owned(),
            "Code called an operation that needs exclusive mutable access.".to_owned(),
            "The write is blocked; the value is still alive and unchanged.".to_owned(),
            "Object references in many languages permit mutation unless the object or field is specially marked immutable.".to_owned(),
            "Rust makes write permission part of the binding, reference, method receiver, and wrapper path.".to_owned(),
            "Reaching a value and being allowed to change it are separate capabilities.".to_owned(),
            "Making the outer variable `mut` cannot create mutable access through a wrapper whose API only provides shared access.".to_owned(),
            [("mutable binding", "a variable that may be reassigned or mutably borrowed"), ("`&mut self`", "a method requires exclusive access to its receiver"), ("interior mutability", "a wrapper that checks mutation by another mechanism")],
        ),
        NarrativeFamily::MissingLifetime => narrative(
            concat3("Rust cannot prove how long `", target, "` remains valid"),
            "A reference was created from storage owned elsewhere.".to_owned(),
            "The reference was stored, returned, or used across a boundary that needs a lifetime relationship.".to_owned(),
            "Rust rejects the path until it can prove the referenced storage outlives every use.".to_owned(),
            "Garbage collection often keeps an object alive as long as a reference can reach it.".to_owned(),
            "Rust references do not extend storage lifetime; the compiler must connect each reference to an owner that already lives long enough.".to_owned(),
            "A lifetime is an expiry relationship printed on a permission slip, not extra runtime storage.".to_owned(),
            "Writing a lifetime annotation describes a relationship; it cannot make a short-lived owner live longer.".to_owned(),
            [("lifetime", "how reference validity relates to owner scope"), ("outlive", "remain valid for at least as long"), ("annotation", "a name for a lifetime relationship")],
        ),
        NarrativeFamily::ReturningLocalReference => narrative(
            concat3("`", target, "` is local to the function that is ending"),
            "The function created and owned a local value.".to_owned(),
            "It tried to return a reference into that local value.".to_owned(),
            "The local owner must be cleaned up at return, so the reference would point into storage that no longer belongs to a live value.".to_owned(),
            "A managed runtime can keep an object alive after its creating function returns.".to_owned(),
            "Rust normally ends local ownership at the function boundary unless the owned value itself is returned or stored elsewhere.".to_owned(),
            "Return the book, not a library card for a library that closes when the function exits.".to_owned(),
            "Heap allocation alone does not make data independent of its local owner.".to_owned(),
            [("local owner", "a value cleaned up when its scope ends"), ("dangling reference", "a reference whose referent no longer exists"), ("owned return", "transfer the value itself to the caller")],
        ),
        NarrativeFamily::TemporaryDroppedWhileBorrowed => narrative(
            concat3("The temporary owner behind `", target, "` ends too soon"),
            "An expression created a short-lived temporary value.".to_owned(),
            "Code borrowed from that temporary and kept the reference past the temporary's drop point.".to_owned(),
            "The borrow is rejected because its referent would be cleaned up before the reference's final use.".to_owned(),
            "Managed runtimes often extend an anonymous object's life while a reference reaches it.".to_owned(),
            "Rust temporaries have defined drop points; borrowing one does not generally promote it to a longer owner scope.".to_owned(),
            "Give the owner a name in the scope where its borrowed data must remain usable.".to_owned(),
            "The reference is not the owner and therefore cannot keep the temporary alive by itself.".to_owned(),
            [("temporary", "an unnamed intermediate value"), ("drop point", "where cleanup runs"), ("referent", "the value being borrowed")],
        ),
        NarrativeFamily::TraitRequirement => narrative(
            concat3("`", target, "` lacks a capability required here"),
            "An API or generic function stated a trait requirement for every accepted type.".to_owned(),
            "Code supplied a type for which that capability has not been proven.".to_owned(),
            "The operation is unavailable until the representation, bound, or implementation matches the contract.".to_owned(),
            "Interfaces in other languages are sometimes checked mainly at object construction or dynamically at a call.".to_owned(),
            "Rust proves trait capabilities at compile time and propagates generic requirements through every call boundary.".to_owned(),
            "A trait bound is a capability checklist the compiler must complete before admitting the call.".to_owned(),
            "A missing trait does not always mean you should implement it; the chosen representation may be the real mismatch.".to_owned(),
            [("trait", "a named set of supported behavior"), ("bound", "a required trait on a generic type"), ("implementation", "proof that a type supplies a trait")],
        ),
        NarrativeFamily::TypeMismatch => narrative(
            concat3("The value produced for `", target, "` has a different contract"),
            "The surrounding expression expected one specific type.".to_owned(),
            "A producer supplied another type, wrapper, reference, or error shape.".to_owned(),
            "Rust stops at the boundary so conversion, failure, allocation, and ownership changes remain explicit.".to_owned(),
            "Dynamically typed languages may defer this mismatch until the value is used.".to_owned(),
            "Rust checks the producer and consumer contracts before running the program.".to_owned(),
            "Types are not just printed shapes; they also state ownership, optionality, failure, and allowed operations.".to_owned(),
            "Similar displayed values do not imply interchangeable types or a free conversion.".to_owned(),
            [("expected type", "the consumer's required contract"), ("found type", "the producer's actual contract"), ("conversion", "an explicit transformation between representations")],
        ),
        NarrativeFamily::MethodOrTraitUnavailable => narrative(
            concat3("The requested operation is not available through `", target, "`"),
            "Method lookup started from the receiver's current type and access path.".to_owned(),
            "Rust searched inherent methods and visible trait methods through allowed borrow and dereference steps.".to_owned(),
            "No compatible method contract was proven for this receiver path.".to_owned(),
            "Some languages dispatch a method name dynamically and fail only if the object cannot answer it at runtime.".to_owned(),
            "Rust resolves one method at compile time and proves its trait scope, receiver layer, and access requirements.".to_owned(),
            "The inner value may know the operation while the wrapper you currently hold does not grant that route.".to_owned(),
            "A method existing on `T` does not imply it is available mutably through `Rc<T>` or `&T`.".to_owned(),
            [("receiver", "the value before the dot in a method call"), ("trait in scope", "a visible source of extension methods"), ("auto-deref", "compiler-assisted search through dereference layers")],
        ),
        NarrativeFamily::ClosureMayOutliveBorrow => narrative(
            concat3("The callable may keep access to `", target, "` too long"),
            "A closure or task captured a value from its surrounding scope.".to_owned(),
            "The callable was returned, stored, spawned, or otherwise allowed to outlive that local borrow.".to_owned(),
            "Rust requires the environment to own what it needs or to stay inside the proven borrow scope.".to_owned(),
            "Managed closures often keep captured objects alive automatically.".to_owned(),
            "A Rust closure has a concrete hidden environment containing either references or owned captures, each with normal lifetime rules.".to_owned(),
            "Treat a closure as a small struct: ask whether each stored field is a borrowed reference or an owned value.".to_owned(),
            "The `move` keyword changes capture ownership; it does not necessarily allocate or copy every captured value.".to_owned(),
            [("capture", "a surrounding value stored in a closure environment"), ("`move` closure", "a closure that takes ownership of captures"), ("escape", "remain usable beyond the current scope")],
        ),
        NarrativeFamily::AwaitOutsideAsync => narrative(
            concat3("`", target, "` tries to pause a non-async context"),
            "The current function or block executes synchronously.".to_owned(),
            "Code used `.await`, which may suspend execution and later resume it.".to_owned(),
            "Rust needs an async state-machine boundary to store the values required across that suspension.".to_owned(),
            "Some runtimes let any function block until asynchronous work completes.".to_owned(),
            "Rust separates blocking from awaiting; `.await` is only valid where a future state machine is being built.".to_owned(),
            "An async block is resumable work with saved locals, not just a function that happens to call networking code.".to_owned(),
            "Calling an async function creates a future; it does not run that future to completion immediately.".to_owned(),
            [("future", "a value representing work that can make progress"), ("`.await`", "suspend this future until another is ready"), ("async context", "a function or block compiled as a future")],
        ),
        NarrativeFamily::RecursiveAsyncFunction => narrative(
            concat3("`", target, "` would contain itself without a size boundary"),
            "An async function produces a concrete future state machine.".to_owned(),
            "The function called itself recursively, so one future state would need to store another future of the same type.".to_owned(),
            "Rust requires indirection so the recursive future has a finite known size.".to_owned(),
            "Managed runtimes routinely place call frames behind runtime-managed references.".to_owned(),
            "Rust future types are concrete values; direct recursive containment needs a pointer-sized boundary such as boxing.".to_owned(),
            "A box turns 'contains another complete copy of me' into 'contains a fixed-size handle to another copy.'".to_owned(),
            "The recursion problem is the future's representation, not recursion in ordinary synchronous functions.".to_owned(),
            [("state machine", "the stored states of resumable async work"), ("indirection", "reach a value through a fixed-size handle"), ("boxed future", "a future stored behind heap indirection")],
        ),
        NarrativeFamily::Fallback => narrative(
            concat3("Rust rejected an operation involving `", target, "`"),
            "The surrounding code established a type, ownership, or access contract.".to_owned(),
            "This operation required a capability that the current path could not prove.".to_owned(),
            "The program remains unchanged; the compiler is asking you to make the intended contract explicit.".to_owned(),
            "Other languages may defer some ownership, type, or capability checks until runtime.".to_owned(),
            "Rust tries to prove the relevant contract before the operation can run.".to_owned(),
            "Start by asking who owns the value, who may access it now, and how long that access must last.".to_owned(),
            "The compiler message describes the failed proof; it does not decide which program design you intended.".to_owned(),
            [("owner", "the place responsible for a value"), ("access", "permission to read, write, or consume"), ("contract", "what an API requires and guarantees")],
        ),
    }
}

proof fn lemma_use_after_move_complete(target: Seq<char>)
    ensures
        narrative_complete(spec_narrative(NarrativeFamily::UseAfterMove, target), target),
{
    reveal_strlit("A move usually does not move the heap allocation; it changes which place controls it.");
    reveal_strlit("An assignment or function call transferred that responsibility to another place.");
    reveal_strlit("Copy");
    reveal_strlit("For a non-Copy Rust value, assignment normally transfers the owning handle unless sharing or cloning is explicit.");
    reveal_strlit("In many managed languages, assigning an object variable leaves both names usable.");
    reveal_strlit("The value still exists, but `");
    reveal_strlit("Think of ownership as the responsibility to clean up, not as the physical location of the bytes.");
    reveal_strlit("`");
    reveal_strlit("` is no longer a usable way to reach it.");
    reveal_strlit("` was handed to a new owner");
    reveal_strlit("` was the one place responsible for this value.");
    reveal_strlit("a type whose value may be duplicated implicitly");
    reveal_strlit("move");
    reveal_strlit("owner");
    reveal_strlit("the place responsible for cleanup");
    reveal_strlit("transfer that responsibility");
    let n = spec_narrative(NarrativeFamily::UseAfterMove, target);
    assert(n.title.subrange("`"@.len() as int, ("`"@.len() + target.len()) as int) =~= target);
    assert(n.title.subrange("`"@.len() - 1, ("`"@.len() + target.len() + 1) as int) =~= seq!['`'] + target + seq!['`']);
    lemma_contains_at(n.title, seq!['`'] + target + seq!['`'], "`"@.len() - 1);
}

proof fn lemma_partial_move_complete(target: Seq<char>)
    ensures
        narrative_complete(spec_narrative(NarrativeFamily::PartialMove, target), target),
{
    reveal_strlit("A partial move does not necessarily invalidate every sibling field.");
    reveal_strlit("Code moved one non-Copy field out of the value.");
    reveal_strlit("Many languages keep an object usable after reading one of its fields.");
    reveal_strlit("Part of `");
    reveal_strlit("Picture a form with one required page removed: the remaining pages exist, but the complete packet cannot be submitted.");
    reveal_strlit("Rust distinguishes reading a field from moving an owned field out of its parent.");
    reveal_strlit("Unmoved fields may still be usable, but the whole value is incomplete until that field is replaced.");
    reveal_strlit("`");
    reveal_strlit("` was a complete value with all of its fields available.");
    reveal_strlit("` was handed away");
    reveal_strlit("a variable, field, or other storage path");
    reveal_strlit("moving one part of a larger value");
    reveal_strlit("partial move");
    reveal_strlit("place");
    reveal_strlit("put a new value back into a moved place");
    reveal_strlit("reinitialize");
    let n = spec_narrative(NarrativeFamily::PartialMove, target);
    assert(n.title.subrange("Part of `"@.len() as int, ("Part of `"@.len() + target.len()) as int) =~= target);
    assert(n.title.subrange("Part of `"@.len() - 1, ("Part of `"@.len() + target.len() + 1) as int) =~= seq!['`'] + target + seq!['`']);
    lemma_contains_at(n.title, seq!['`'] + target + seq!['`'], "Part of `"@.len() - 1);
}

proof fn lemma_multiple_mutable_borrows_complete(target: Seq<char>)
    ensures
        narrative_complete(spec_narrative(NarrativeFamily::MultipleMutableBorrows, target), target),
{
    reveal_strlit("An `&mut` is a temporary exclusive-access pass, not merely a pointer that permits writes.");
    reveal_strlit("One mutable borrow began, then code tried to create another before the first one's final use.");
    reveal_strlit("Other languages often allow several references to mutate the same object and coordinate at runtime.");
    reveal_strlit("Rust requires one exclusive mutable access path at a time so aliases cannot observe an in-progress mutation.");
    reveal_strlit("The first borrow may end before the surrounding block ends; its final use is what matters.");
    reveal_strlit("The value remains alive, but only the existing mutable reference may access it during that overlap.");
    reveal_strlit("The value was available for an exclusive mutable borrow.");
    reveal_strlit("`");
    reveal_strlit("` already has an exclusive visitor");
    reveal_strlit("alias");
    reveal_strlit("another path to the same value");
    reveal_strlit("mutable borrow");
    reveal_strlit("overlap");
    reveal_strlit("temporary exclusive access");
    reveal_strlit("two access permissions active at the same time");
    let n = spec_narrative(NarrativeFamily::MultipleMutableBorrows, target);
    assert(n.title.subrange("`"@.len() as int, ("`"@.len() + target.len()) as int) =~= target);
    assert(n.title.subrange("`"@.len() - 1, ("`"@.len() + target.len() + 1) as int) =~= seq!['`'] + target + seq!['`']);
    lemma_contains_at(n.title, seq!['`'] + target + seq!['`'], "`"@.len() - 1);
}

proof fn lemma_mutable_while_shared_complete(target: Seq<char>)
    ensures
        narrative_complete(spec_narrative(NarrativeFamily::MutableWhileShared, target), target),
{
    reveal_strlit("A Rust shared borrow promises that the borrowed value will not be mutated through ordinary access for that loan's duration.");
    reveal_strlit("Code tried to mutate, replace, or exclusively borrow the value while those readers were still live.");
    reveal_strlit("Managed languages commonly allow an object to change while other references still point at it.");
    reveal_strlit("One or more shared references could read the current value.");
    reveal_strlit("Readers receive a stable-view promise; mutation waits until nobody can still rely on that view.");
    reveal_strlit("Rust keeps the old view stable until the shared references have had their final use.");
    reveal_strlit("Shared means read-only access, not shared ownership. `Rc<T>` and `&T` answer different questions.");
    reveal_strlit("`");
    reveal_strlit("` is still being observed");
    reveal_strlit("final use");
    reveal_strlit("loan");
    reveal_strlit("shared borrow");
    reveal_strlit("temporary read-only access");
    reveal_strlit("the compiler-tracked borrow period");
    reveal_strlit("the last point a reference is needed");
    let n = spec_narrative(NarrativeFamily::MutableWhileShared, target);
    assert(n.title.subrange("`"@.len() as int, ("`"@.len() + target.len()) as int) =~= target);
    assert(n.title.subrange("`"@.len() - 1, ("`"@.len() + target.len() + 1) as int) =~= seq!['`'] + target + seq!['`']);
    lemma_contains_at(n.title, seq!['`'] + target + seq!['`'], "`"@.len() - 1);
}

proof fn lemma_use_while_mutably_borrowed_complete(target: Seq<char>)
    ensures
        narrative_complete(spec_narrative(NarrativeFamily::UseWhileMutablyBorrowed, target), target),
{
    reveal_strlit("A reference in another language is often just another equally valid route to the object.");
    reveal_strlit("An active `&mut T` temporarily becomes the only permitted route to that `T`.");
    reveal_strlit("Borrowed does not mean moved or destroyed; it means access is temporarily constrained.");
    reveal_strlit("Code created a mutable reference and then tried to use the original path before that reference's final use.");
    reveal_strlit("Opening an exclusive editing session temporarily disables other views of the same document.");
    reveal_strlit("The original path is paused while exclusive access is active; the value itself is still alive.");
    reveal_strlit("The owner could use the value normally.");
    reveal_strlit("`");
    reveal_strlit("` is temporarily behind an exclusive reference");
    reveal_strlit("borrow");
    reveal_strlit("exclusive access");
    reveal_strlit("one active read/write route");
    reveal_strlit("owner");
    reveal_strlit("temporary access without taking ownership");
    reveal_strlit("the path that resumes access after the loan");
    let n = spec_narrative(NarrativeFamily::UseWhileMutablyBorrowed, target);
    assert(n.title.subrange("`"@.len() as int, ("`"@.len() + target.len()) as int) =~= target);
    assert(n.title.subrange("`"@.len() - 1, ("`"@.len() + target.len() + 1) as int) =~= seq!['`'] + target + seq!['`']);
    lemma_contains_at(n.title, seq!['`'] + target + seq!['`'], "`"@.len() - 1);
}

proof fn lemma_move_while_borrowed_complete(target: Seq<char>)
    ensures
        narrative_complete(spec_narrative(NarrativeFamily::MoveWhileBorrowed, target), target),
{
    reveal_strlit("A Rust borrow is tied to a proven owner lifetime; ownership cannot transfer in a way that breaks that proof.");
    reveal_strlit("A garbage-collected object may remain alive automatically while any reference reaches it.");
    reveal_strlit("A reference was created from the value and may still be used.");
    reveal_strlit("Code tried to transfer ownership before that reference's final use.");
    reveal_strlit("Do not forward a package while someone is still using an item that must be returned to that package.");
    reveal_strlit("Moving an owning handle is about control and cleanup, even if the underlying heap address would stay unchanged.");
    reveal_strlit("The transfer is blocked because the old owner must stay responsible for valid borrowed access.");
    reveal_strlit("`");
    reveal_strlit("` cannot leave while a reference points into it");
    reveal_strlit("lifetime");
    reveal_strlit("move");
    reveal_strlit("referent");
    reveal_strlit("the region where that reference may be used");
    reveal_strlit("the value a reference points into");
    reveal_strlit("transfer ownership");
    let n = spec_narrative(NarrativeFamily::MoveWhileBorrowed, target);
    assert(n.title.subrange("`"@.len() as int, ("`"@.len() + target.len()) as int) =~= target);
    assert(n.title.subrange("`"@.len() - 1, ("`"@.len() + target.len() + 1) as int) =~= seq!['`'] + target + seq!['`']);
    lemma_contains_at(n.title, seq!['`'] + target + seq!['`'], "`"@.len() - 1);
}

proof fn lemma_move_out_of_borrowed_content_complete(target: Seq<char>)
    ensures
        narrative_complete(spec_narrative(NarrativeFamily::MoveOutOfBorrowedContent, target), target),
{
    reveal_strlit("A borrow of `");
    reveal_strlit("A visitor may inspect or modify permitted contents, but cannot take away a required component of the host object.");
    reveal_strlit("Cloning a part and moving the original part have different identity and cost semantics.");
    reveal_strlit("Code had temporary access to a value owned somewhere else.");
    reveal_strlit("It tried to take an owned, non-Copy part through that borrowed path.");
    reveal_strlit("Moving a Rust field is different from reading it; only an owner may normally remove owned content.");
    reveal_strlit("Reading a field through an object reference often leaves the containing object structurally unchanged.");
    reveal_strlit("Rust blocks the move because the original owner would be left with a missing part it still must manage.");
    reveal_strlit("` does not own its contents");
    reveal_strlit("borrowed content");
    reveal_strlit("clone");
    reveal_strlit("create a separate owned value explicitly");
    reveal_strlit("data reached through a reference");
    reveal_strlit("move out");
    reveal_strlit("remove ownership from its current place");
    let n = spec_narrative(NarrativeFamily::MoveOutOfBorrowedContent, target);
    assert(n.title.subrange("A borrow of `"@.len() as int, ("A borrow of `"@.len() + target.len()) as int) =~= target);
    assert(n.title.subrange("A borrow of `"@.len() - 1, ("A borrow of `"@.len() + target.len() + 1) as int) =~= seq!['`'] + target + seq!['`']);
    lemma_contains_at(n.title, seq!['`'] + target + seq!['`'], "A borrow of `"@.len() - 1);
}

proof fn lemma_immutable_mutation_complete(target: Seq<char>)
    ensures
        narrative_complete(spec_narrative(NarrativeFamily::ImmutableMutation, target), target),
{
    reveal_strlit("Code called an operation that needs exclusive mutable access.");
    reveal_strlit("Making the outer variable `mut` cannot create mutable access through a wrapper whose API only provides shared access.");
    reveal_strlit("Object references in many languages permit mutation unless the object or field is specially marked immutable.");
    reveal_strlit("Reaching a value and being allowed to change it are separate capabilities.");
    reveal_strlit("Rust makes write permission part of the binding, reference, method receiver, and wrapper path.");
    reveal_strlit("The path to `");
    reveal_strlit("The value exists and is reachable through the current binding, reference, or wrapper.");
    reveal_strlit("The write is blocked; the value is still alive and unchanged.");
    reveal_strlit("` does not grant write access");
    reveal_strlit("`&mut self`");
    reveal_strlit("a method requires exclusive access to its receiver");
    reveal_strlit("a variable that may be reassigned or mutably borrowed");
    reveal_strlit("a wrapper that checks mutation by another mechanism");
    reveal_strlit("interior mutability");
    reveal_strlit("mutable binding");
    let n = spec_narrative(NarrativeFamily::ImmutableMutation, target);
    assert(n.title.subrange("The path to `"@.len() as int, ("The path to `"@.len() + target.len()) as int) =~= target);
    assert(n.title.subrange("The path to `"@.len() - 1, ("The path to `"@.len() + target.len() + 1) as int) =~= seq!['`'] + target + seq!['`']);
    lemma_contains_at(n.title, seq!['`'] + target + seq!['`'], "The path to `"@.len() - 1);
}

proof fn lemma_missing_lifetime_complete(target: Seq<char>)
    ensures
        narrative_complete(spec_narrative(NarrativeFamily::MissingLifetime, target), target),
{
    reveal_strlit("A lifetime is an expiry relationship printed on a permission slip, not extra runtime storage.");
    reveal_strlit("A reference was created from storage owned elsewhere.");
    reveal_strlit("Garbage collection often keeps an object alive as long as a reference can reach it.");
    reveal_strlit("Rust cannot prove how long `");
    reveal_strlit("Rust references do not extend storage lifetime; the compiler must connect each reference to an owner that already lives long enough.");
    reveal_strlit("Rust rejects the path until it can prove the referenced storage outlives every use.");
    reveal_strlit("The reference was stored, returned, or used across a boundary that needs a lifetime relationship.");
    reveal_strlit("Writing a lifetime annotation describes a relationship; it cannot make a short-lived owner live longer.");
    reveal_strlit("` remains valid");
    reveal_strlit("a name for a lifetime relationship");
    reveal_strlit("annotation");
    reveal_strlit("how reference validity relates to owner scope");
    reveal_strlit("lifetime");
    reveal_strlit("outlive");
    reveal_strlit("remain valid for at least as long");
    let n = spec_narrative(NarrativeFamily::MissingLifetime, target);
    assert(n.title.subrange("Rust cannot prove how long `"@.len() as int, ("Rust cannot prove how long `"@.len() + target.len()) as int) =~= target);
    assert(n.title.subrange("Rust cannot prove how long `"@.len() - 1, ("Rust cannot prove how long `"@.len() + target.len() + 1) as int) =~= seq!['`'] + target + seq!['`']);
    lemma_contains_at(n.title, seq!['`'] + target + seq!['`'], "Rust cannot prove how long `"@.len() - 1);
}

proof fn lemma_returning_local_reference_complete(target: Seq<char>)
    ensures
        narrative_complete(spec_narrative(NarrativeFamily::ReturningLocalReference, target), target),
{
    reveal_strlit("A managed runtime can keep an object alive after its creating function returns.");
    reveal_strlit("Heap allocation alone does not make data independent of its local owner.");
    reveal_strlit("It tried to return a reference into that local value.");
    reveal_strlit("Return the book, not a library card for a library that closes when the function exits.");
    reveal_strlit("Rust normally ends local ownership at the function boundary unless the owned value itself is returned or stored elsewhere.");
    reveal_strlit("The function created and owned a local value.");
    reveal_strlit("The local owner must be cleaned up at return, so the reference would point into storage that no longer belongs to a live value.");
    reveal_strlit("`");
    reveal_strlit("` is local to the function that is ending");
    reveal_strlit("a reference whose referent no longer exists");
    reveal_strlit("a value cleaned up when its scope ends");
    reveal_strlit("dangling reference");
    reveal_strlit("local owner");
    reveal_strlit("owned return");
    reveal_strlit("transfer the value itself to the caller");
    let n = spec_narrative(NarrativeFamily::ReturningLocalReference, target);
    assert(n.title.subrange("`"@.len() as int, ("`"@.len() + target.len()) as int) =~= target);
    assert(n.title.subrange("`"@.len() - 1, ("`"@.len() + target.len() + 1) as int) =~= seq!['`'] + target + seq!['`']);
    lemma_contains_at(n.title, seq!['`'] + target + seq!['`'], "`"@.len() - 1);
}

proof fn lemma_temporary_dropped_while_borrowed_complete(target: Seq<char>)
    ensures
        narrative_complete(spec_narrative(NarrativeFamily::TemporaryDroppedWhileBorrowed, target), target),
{
    reveal_strlit("An expression created a short-lived temporary value.");
    reveal_strlit("Code borrowed from that temporary and kept the reference past the temporary's drop point.");
    reveal_strlit("Give the owner a name in the scope where its borrowed data must remain usable.");
    reveal_strlit("Managed runtimes often extend an anonymous object's life while a reference reaches it.");
    reveal_strlit("Rust temporaries have defined drop points; borrowing one does not generally promote it to a longer owner scope.");
    reveal_strlit("The borrow is rejected because its referent would be cleaned up before the reference's final use.");
    reveal_strlit("The reference is not the owner and therefore cannot keep the temporary alive by itself.");
    reveal_strlit("The temporary owner behind `");
    reveal_strlit("` ends too soon");
    reveal_strlit("an unnamed intermediate value");
    reveal_strlit("drop point");
    reveal_strlit("referent");
    reveal_strlit("temporary");
    reveal_strlit("the value being borrowed");
    reveal_strlit("where cleanup runs");
    let n = spec_narrative(NarrativeFamily::TemporaryDroppedWhileBorrowed, target);
    assert(n.title.subrange("The temporary owner behind `"@.len() as int, ("The temporary owner behind `"@.len() + target.len()) as int) =~= target);
    assert(n.title.subrange("The temporary owner behind `"@.len() - 1, ("The temporary owner behind `"@.len() + target.len() + 1) as int) =~= seq!['`'] + target + seq!['`']);
    lemma_contains_at(n.title, seq!['`'] + target + seq!['`'], "The temporary owner behind `"@.len() - 1);
}

proof fn lemma_trait_requirement_complete(target: Seq<char>)
    ensures
        narrative_complete(spec_narrative(NarrativeFamily::TraitRequirement, target), target),
{
    reveal_strlit("A missing trait does not always mean you should implement it; the chosen representation may be the real mismatch.");
    reveal_strlit("A trait bound is a capability checklist the compiler must complete before admitting the call.");
    reveal_strlit("An API or generic function stated a trait requirement for every accepted type.");
    reveal_strlit("Code supplied a type for which that capability has not been proven.");
    reveal_strlit("Interfaces in other languages are sometimes checked mainly at object construction or dynamically at a call.");
    reveal_strlit("Rust proves trait capabilities at compile time and propagates generic requirements through every call boundary.");
    reveal_strlit("The operation is unavailable until the representation, bound, or implementation matches the contract.");
    reveal_strlit("`");
    reveal_strlit("` lacks a capability required here");
    reveal_strlit("a named set of supported behavior");
    reveal_strlit("a required trait on a generic type");
    reveal_strlit("bound");
    reveal_strlit("implementation");
    reveal_strlit("proof that a type supplies a trait");
    reveal_strlit("trait");
    let n = spec_narrative(NarrativeFamily::TraitRequirement, target);
    assert(n.title.subrange("`"@.len() as int, ("`"@.len() + target.len()) as int) =~= target);
    assert(n.title.subrange("`"@.len() - 1, ("`"@.len() + target.len() + 1) as int) =~= seq!['`'] + target + seq!['`']);
    lemma_contains_at(n.title, seq!['`'] + target + seq!['`'], "`"@.len() - 1);
}

proof fn lemma_type_mismatch_complete(target: Seq<char>)
    ensures
        narrative_complete(spec_narrative(NarrativeFamily::TypeMismatch, target), target),
{
    reveal_strlit("A producer supplied another type, wrapper, reference, or error shape.");
    reveal_strlit("Dynamically typed languages may defer this mismatch until the value is used.");
    reveal_strlit("Rust checks the producer and consumer contracts before running the program.");
    reveal_strlit("Rust stops at the boundary so conversion, failure, allocation, and ownership changes remain explicit.");
    reveal_strlit("Similar displayed values do not imply interchangeable types or a free conversion.");
    reveal_strlit("The surrounding expression expected one specific type.");
    reveal_strlit("The value produced for `");
    reveal_strlit("Types are not just printed shapes; they also state ownership, optionality, failure, and allowed operations.");
    reveal_strlit("` has a different contract");
    reveal_strlit("an explicit transformation between representations");
    reveal_strlit("conversion");
    reveal_strlit("expected type");
    reveal_strlit("found type");
    reveal_strlit("the consumer's required contract");
    reveal_strlit("the producer's actual contract");
    let n = spec_narrative(NarrativeFamily::TypeMismatch, target);
    assert(n.title.subrange("The value produced for `"@.len() as int, ("The value produced for `"@.len() + target.len()) as int) =~= target);
    assert(n.title.subrange("The value produced for `"@.len() - 1, ("The value produced for `"@.len() + target.len() + 1) as int) =~= seq!['`'] + target + seq!['`']);
    lemma_contains_at(n.title, seq!['`'] + target + seq!['`'], "The value produced for `"@.len() - 1);
}

proof fn lemma_method_or_trait_unavailable_complete(target: Seq<char>)
    ensures
        narrative_complete(spec_narrative(NarrativeFamily::MethodOrTraitUnavailable, target), target),
{
    reveal_strlit("A method existing on `T` does not imply it is available mutably through `Rc<T>` or `&T`.");
    reveal_strlit("Method lookup started from the receiver's current type and access path.");
    reveal_strlit("No compatible method contract was proven for this receiver path.");
    reveal_strlit("Rust resolves one method at compile time and proves its trait scope, receiver layer, and access requirements.");
    reveal_strlit("Rust searched inherent methods and visible trait methods through allowed borrow and dereference steps.");
    reveal_strlit("Some languages dispatch a method name dynamically and fail only if the object cannot answer it at runtime.");
    reveal_strlit("The inner value may know the operation while the wrapper you currently hold does not grant that route.");
    reveal_strlit("The requested operation is not available through `");
    reveal_strlit("`");
    reveal_strlit("a visible source of extension methods");
    reveal_strlit("auto-deref");
    reveal_strlit("compiler-assisted search through dereference layers");
    reveal_strlit("receiver");
    reveal_strlit("the value before the dot in a method call");
    reveal_strlit("trait in scope");
    let n = spec_narrative(NarrativeFamily::MethodOrTraitUnavailable, target);
    assert(n.title.subrange("The requested operation is not available through `"@.len() as int, ("The requested operation is not available through `"@.len() + target.len()) as int) =~= target);
    assert(n.title.subrange("The requested operation is not available through `"@.len() - 1, ("The requested operation is not available through `"@.len() + target.len() + 1) as int) =~= seq!['`'] + target + seq!['`']);
    lemma_contains_at(n.title, seq!['`'] + target + seq!['`'], "The requested operation is not available through `"@.len() - 1);
}

proof fn lemma_closure_may_outlive_borrow_complete(target: Seq<char>)
    ensures
        narrative_complete(spec_narrative(NarrativeFamily::ClosureMayOutliveBorrow, target), target),
{
    reveal_strlit("A Rust closure has a concrete hidden environment containing either references or owned captures, each with normal lifetime rules.");
    reveal_strlit("A closure or task captured a value from its surrounding scope.");
    reveal_strlit("Managed closures often keep captured objects alive automatically.");
    reveal_strlit("Rust requires the environment to own what it needs or to stay inside the proven borrow scope.");
    reveal_strlit("The `move` keyword changes capture ownership; it does not necessarily allocate or copy every captured value.");
    reveal_strlit("The callable may keep access to `");
    reveal_strlit("The callable was returned, stored, spawned, or otherwise allowed to outlive that local borrow.");
    reveal_strlit("Treat a closure as a small struct: ask whether each stored field is a borrowed reference or an owned value.");
    reveal_strlit("` too long");
    reveal_strlit("`move` closure");
    reveal_strlit("a closure that takes ownership of captures");
    reveal_strlit("a surrounding value stored in a closure environment");
    reveal_strlit("capture");
    reveal_strlit("escape");
    reveal_strlit("remain usable beyond the current scope");
    let n = spec_narrative(NarrativeFamily::ClosureMayOutliveBorrow, target);
    assert(n.title.subrange("The callable may keep access to `"@.len() as int, ("The callable may keep access to `"@.len() + target.len()) as int) =~= target);
    assert(n.title.subrange("The callable may keep access to `"@.len() - 1, ("The callable may keep access to `"@.len() + target.len() + 1) as int) =~= seq!['`'] + target + seq!['`']);
    lemma_contains_at(n.title, seq!['`'] + target + seq!['`'], "The callable may keep access to `"@.len() - 1);
}

proof fn lemma_await_outside_async_complete(target: Seq<char>)
    ensures
        narrative_complete(spec_narrative(NarrativeFamily::AwaitOutsideAsync, target), target),
{
    reveal_strlit("An async block is resumable work with saved locals, not just a function that happens to call networking code.");
    reveal_strlit("Calling an async function creates a future; it does not run that future to completion immediately.");
    reveal_strlit("Code used `.await`, which may suspend execution and later resume it.");
    reveal_strlit("Rust needs an async state-machine boundary to store the values required across that suspension.");
    reveal_strlit("Rust separates blocking from awaiting; `.await` is only valid where a future state machine is being built.");
    reveal_strlit("Some runtimes let any function block until asynchronous work completes.");
    reveal_strlit("The current function or block executes synchronously.");
    reveal_strlit("`");
    reveal_strlit("` tries to pause a non-async context");
    reveal_strlit("`.await`");
    reveal_strlit("a function or block compiled as a future");
    reveal_strlit("a value representing work that can make progress");
    reveal_strlit("async context");
    reveal_strlit("future");
    reveal_strlit("suspend this future until another is ready");
    let n = spec_narrative(NarrativeFamily::AwaitOutsideAsync, target);
    assert(n.title.subrange("`"@.len() as int, ("`"@.len() + target.len()) as int) =~= target);
    assert(n.title.subrange("`"@.len() - 1, ("`"@.len() + target.len() + 1) as int) =~= seq!['`'] + target + seq!['`']);
    lemma_contains_at(n.title, seq!['`'] + target + seq!['`'], "`"@.len() - 1);
}

proof fn lemma_recursive_async_function_complete(target: Seq<char>)
    ensures
        narrative_complete(spec_narrative(NarrativeFamily::RecursiveAsyncFunction, target), target),
{
    reveal_strlit("A box turns 'contains another complete copy of me' into 'contains a fixed-size handle to another copy.'");
    reveal_strlit("An async function produces a concrete future state machine.");
    reveal_strlit("Managed runtimes routinely place call frames behind runtime-managed references.");
    reveal_strlit("Rust future types are concrete values; direct recursive containment needs a pointer-sized boundary such as boxing.");
    reveal_strlit("Rust requires indirection so the recursive future has a finite known size.");
    reveal_strlit("The function called itself recursively, so one future state would need to store another future of the same type.");
    reveal_strlit("The recursion problem is the future's representation, not recursion in ordinary synchronous functions.");
    reveal_strlit("`");
    reveal_strlit("` would contain itself without a size boundary");
    reveal_strlit("a future stored behind heap indirection");
    reveal_strlit("boxed future");
    reveal_strlit("indirection");
    reveal_strlit("reach a value through a fixed-size handle");
    reveal_strlit("state machine");
    reveal_strlit("the stored states of resumable async work");
    let n = spec_narrative(NarrativeFamily::RecursiveAsyncFunction, target);
    assert(n.title.subrange("`"@.len() as int, ("`"@.len() + target.len()) as int) =~= target);
    assert(n.title.subrange("`"@.len() - 1, ("`"@.len() + target.len() + 1) as int) =~= seq!['`'] + target + seq!['`']);
    lemma_contains_at(n.title, seq!['`'] + target + seq!['`'], "`"@.len() - 1);
}

proof fn lemma_fallback_complete(target: Seq<char>)
    ensures
        narrative_complete(spec_narrative(NarrativeFamily::Fallback, target), target),
{
    reveal_strlit("Other languages may defer some ownership, type, or capability checks until runtime.");
    reveal_strlit("Rust rejected an operation involving `");
    reveal_strlit("Rust tries to prove the relevant contract before the operation can run.");
    reveal_strlit("Start by asking who owns the value, who may access it now, and how long that access must last.");
    reveal_strlit("The compiler message describes the failed proof; it does not decide which program design you intended.");
    reveal_strlit("The program remains unchanged; the compiler is asking you to make the intended contract explicit.");
    reveal_strlit("The surrounding code established a type, ownership, or access contract.");
    reveal_strlit("This operation required a capability that the current path could not prove.");
    reveal_strlit("`");
    reveal_strlit("access");
    reveal_strlit("contract");
    reveal_strlit("owner");
    reveal_strlit("permission to read, write, or consume");
    reveal_strlit("the place responsible for a value");
    reveal_strlit("what an API requires and guarantees");
    let n = spec_narrative(NarrativeFamily::Fallback, target);
    assert(n.title.subrange("Rust rejected an operation involving `"@.len() as int, ("Rust rejected an operation involving `"@.len() + target.len()) as int) =~= target);
    assert(n.title.subrange("Rust rejected an operation involving `"@.len() - 1, ("Rust rejected an operation involving `"@.len() + target.len() + 1) as int) =~= seq!['`'] + target + seq!['`']);
    lemma_contains_at(n.title, seq!['`'] + target + seq!['`'], "Rust rejected an operation involving `"@.len() - 1);
}

/// `needle` found at position `i` of `s`.
proof fn lemma_contains_at(s: Seq<char>, needle: Seq<char>, i: int)
    requires
        0 <= i <= s.len() - needle.len(),
        s.subrange(i, i + needle.len()) == needle,
    ensures
        seq_contains(s, needle),
{
}

/// Every family's story has all eight parts, three vocabulary entries with
/// text on both sides, and a title that names the value in backticks.
pub proof fn every_narrative_is_complete(family: NarrativeFamily, target: Seq<char>)
    ensures
        narrative_complete(spec_narrative(family, target), target),
{
    match family {
        NarrativeFamily::UseAfterMove => lemma_use_after_move_complete(target),
        NarrativeFamily::PartialMove => lemma_partial_move_complete(target),
        NarrativeFamily::MultipleMutableBorrows => lemma_multiple_mutable_borrows_complete(target),
        NarrativeFamily::MutableWhileShared => lemma_mutable_while_shared_complete(target),
        NarrativeFamily::UseWhileMutablyBorrowed => lemma_use_while_mutably_borrowed_complete(target),
        NarrativeFamily::MoveWhileBorrowed => lemma_move_while_borrowed_complete(target),
        NarrativeFamily::MoveOutOfBorrowedContent => lemma_move_out_of_borrowed_content_complete(target),
        NarrativeFamily::ImmutableMutation => lemma_immutable_mutation_complete(target),
        NarrativeFamily::MissingLifetime => lemma_missing_lifetime_complete(target),
        NarrativeFamily::ReturningLocalReference => lemma_returning_local_reference_complete(target),
        NarrativeFamily::TemporaryDroppedWhileBorrowed => lemma_temporary_dropped_while_borrowed_complete(target),
        NarrativeFamily::TraitRequirement => lemma_trait_requirement_complete(target),
        NarrativeFamily::TypeMismatch => lemma_type_mismatch_complete(target),
        NarrativeFamily::MethodOrTraitUnavailable => lemma_method_or_trait_unavailable_complete(target),
        NarrativeFamily::ClosureMayOutliveBorrow => lemma_closure_may_outlive_borrow_complete(target),
        NarrativeFamily::AwaitOutsideAsync => lemma_await_outside_async_complete(target),
        NarrativeFamily::RecursiveAsyncFunction => lemma_recursive_async_function_complete(target),
        NarrativeFamily::Fallback => lemma_fallback_complete(target),
    }
}

/// Categories that name the same problem tell the same story: writing
/// while shared and assigning while borrowed, a missing lifetime and a
/// borrowed value that lives too short, a closure that may outlive a borrow
/// and borrowed data that escapes.
pub proof fn alias_categories_tell_the_same_story(target: Seq<char>)
    ensures
        spec_narrative(spec_narrative_family("assign_while_borrowed"@), target) == spec_narrative(
            spec_narrative_family("mutable_while_shared"@),
            target,
        ),
        spec_narrative(spec_narrative_family("borrowed_value_too_short"@), target) == spec_narrative(
            spec_narrative_family("missing_lifetime"@),
            target,
        ),
        spec_narrative(spec_narrative_family("borrowed_data_escapes"@), target) == spec_narrative(
            spec_narrative_family("closure_may_outlive_borrow"@),
            target,
        ),
{
    reveal_strlit("use_after_move");
    reveal_strlit("partial_move");
    reveal_strlit("multiple_mutable_borrows");
    reveal_strlit("mutable_while_shared");
    reveal_strlit("assign_while_borrowed");
    reveal_strlit("use_while_mutably_borrowed");
    reveal_strlit("move_while_borrowed");
    reveal_strlit("move_out_of_borrowed_content");
    reveal_strlit("immutable_mutation");
    reveal_strlit("missing_lifetime");
    reveal_strlit("borrowed_value_too_short");
    reveal_strlit("returning_local_reference");
    reveal_strlit("temporary_dropped_while_borrowed");
    reveal_strlit("trait_requirement");
    reveal_strlit("type_mismatch");
    reveal_strlit("method_or_trait_unavailable");
    reveal_strlit("closure_may_outlive_borrow");
    reveal_strlit("borrowed_data_escapes");
    assert("assign_while_borrowed"@.len() != "use_after_move"@.len());
    assert("assign_while_borrowed"@.len() != "partial_move"@.len());
    assert("assign_while_borrowed"@.len() != "multiple_mutable_borrows"@.len());
    assert("mutable_while_shared"@.len() != "use_after_move"@.len());
    assert("mutable_while_shared"@.len() != "partial_move"@.len());
    assert("mutable_while_shared"@.len() != "multiple_mutable_borrows"@.len());
    assert("borrowed_value_too_short"@.len() != "use_after_move"@.len());
    assert("borrowed_value_too_short"@.len() != "partial_move"@.len());
    assert("borrowed_value_too_short"@[0] != "multiple_mutable_borrows"@[0]);
    assert("borrowed_value_too_short"@.len() != "mutable_while_shared"@.len());
    assert("borrowed_value_too_short"@.len() != "assign_while_borrowed"@.len());
    assert("borrowed_value_too_short"@.len() != "use_while_mutably_borrowed"@.len());
    assert("borrowed_value_too_short"@.len() != "move_while_borrowed"@.len());
    assert("borrowed_value_too_short"@.len() != "move_out_of_borrowed_content"@.len());
    assert("borrowed_value_too_short"@.len() != "immutable_mutation"@.len());
    assert("missing_lifetime"@.len() != "use_after_move"@.len());
    assert("missing_lifetime"@.len() != "partial_move"@.len());
    assert("missing_lifetime"@.len() != "multiple_mutable_borrows"@.len());
    assert("missing_lifetime"@.len() != "mutable_while_shared"@.len());
    assert("missing_lifetime"@.len() != "assign_while_borrowed"@.len());
    assert("missing_lifetime"@.len() != "use_while_mutably_borrowed"@.len());
    assert("missing_lifetime"@.len() != "move_while_borrowed"@.len());
    assert("missing_lifetime"@.len() != "move_out_of_borrowed_content"@.len());
    assert("missing_lifetime"@.len() != "immutable_mutation"@.len());
    assert("borrowed_data_escapes"@.len() != "use_after_move"@.len());
    assert("borrowed_data_escapes"@.len() != "partial_move"@.len());
    assert("borrowed_data_escapes"@.len() != "multiple_mutable_borrows"@.len());
    assert("borrowed_data_escapes"@.len() != "mutable_while_shared"@.len());
    assert("borrowed_data_escapes"@[0] != "assign_while_borrowed"@[0]);
    assert("borrowed_data_escapes"@.len() != "use_while_mutably_borrowed"@.len());
    assert("borrowed_data_escapes"@.len() != "move_while_borrowed"@.len());
    assert("borrowed_data_escapes"@.len() != "move_out_of_borrowed_content"@.len());
    assert("borrowed_data_escapes"@.len() != "immutable_mutation"@.len());
    assert("borrowed_data_escapes"@.len() != "missing_lifetime"@.len());
    assert("borrowed_data_escapes"@.len() != "borrowed_value_too_short"@.len());
    assert("borrowed_data_escapes"@.len() != "returning_local_reference"@.len());
    assert("borrowed_data_escapes"@.len() != "temporary_dropped_while_borrowed"@.len());
    assert("borrowed_data_escapes"@.len() != "trait_requirement"@.len());
    assert("borrowed_data_escapes"@.len() != "type_mismatch"@.len());
    assert("borrowed_data_escapes"@.len() != "method_or_trait_unavailable"@.len());
    assert("closure_may_outlive_borrow"@.len() != "use_after_move"@.len());
    assert("closure_may_outlive_borrow"@.len() != "partial_move"@.len());
    assert("closure_may_outlive_borrow"@.len() != "multiple_mutable_borrows"@.len());
    assert("closure_may_outlive_borrow"@.len() != "mutable_while_shared"@.len());
    assert("closure_may_outlive_borrow"@.len() != "assign_while_borrowed"@.len());
    assert("closure_may_outlive_borrow"@[0] != "use_while_mutably_borrowed"@[0]);
    assert("closure_may_outlive_borrow"@.len() != "move_while_borrowed"@.len());
    assert("closure_may_outlive_borrow"@.len() != "move_out_of_borrowed_content"@.len());
    assert("closure_may_outlive_borrow"@.len() != "immutable_mutation"@.len());
    assert("closure_may_outlive_borrow"@.len() != "missing_lifetime"@.len());
    assert("closure_may_outlive_borrow"@.len() != "borrowed_value_too_short"@.len());
    assert("closure_may_outlive_borrow"@.len() != "returning_local_reference"@.len());
    assert("closure_may_outlive_borrow"@.len() != "temporary_dropped_while_borrowed"@.len());
    assert("closure_may_outlive_borrow"@.len() != "trait_requirement"@.len());
    assert("closure_may_outlive_borrow"@.len() != "type_mismatch"@.len());
    assert("closure_may_outlive_borrow"@.len() != "method_or_trait_unavailable"@.len());
    assert(spec_narrative_family("assign_while_borrowed"@) == NarrativeFamily::MutableWhileShared);
    assert(spec_narrative_family("mutable_while_shared"@) == NarrativeFamily::MutableWhileShared);
    assert(spec_narrative_family("borrowed_value_too_short"@) == NarrativeFamily::MissingLifetime);
    assert(spec_narrative_family("missing_lifetime"@) == NarrativeFamily::MissingLifetime);
    assert(spec_narrative_family("borrowed_data_escapes"@) == NarrativeFamily::ClosureMayOutliveBorrow);
    assert(spec_narrative_family("closure_may_outlive_borrow"@) == NarrativeFamily::ClosureMayOutliveBorrow);
}

/// A short lesson on one ownership concept, with a checkpoint question.
#[derive(Debug)]
pub struct ConceptLesson {
    pub id: &'static str,
    pub title: &'static str,
    pub one_line: &'static str,
    pub rule: &'static str,
    pub memory_model: &'static str,
    pub why: &'static str,
    pub misconception: &'static str,
    pub checkpoint: &'static str,
    pub choices: [&'static str; 2],
    pub correct_choice: usize,
    pub related: &'static [&'static str],
}

/// The text of a lesson.
pub struct LessonText {
    pub id: Seq<char>,
    pub title: Seq<char>,
    pub one_line: Seq<char>,
    pub rule: Seq<char>,
    pub memory_model: Seq<char>,
    pub why: Seq<char>,
    pub misconception: Seq<char>,
    pub checkpoint: Seq<char>,
    pub choices: Seq<Seq<char>>,
    pub correct_choice: nat,
    pub related: Seq<Seq<char>>,
}

impl View for ConceptLesson {
    type V = LessonText;

    open spec fn view(&self) -> LessonText {
        LessonText {
            id: self.id@,
            title: self.title@,
            one_line: self.one_line@,
            rule: self.rule@,
            memory_model: self.memory_model@,
            why: self.why@,
            misconception: self.misconception@,
            checkpoint: self.checkpoint@,
            choices: self.choices@.map_values(|s: &str| s@),
            correct_choice: self.correct_choice as nat,
            related: self.related@.map_values(|s: &str| s@),
        }
    }
}

/// How many lessons the catalog holds.
pub open spec fn lesson_count() -> int {
    22
}

/// The lesson at position `i` of the catalog.
pub open spec fn lesson_entry(i: int) -> LessonText {
    if i == 0 {
        LessonText {
            id: "ownership"@,
            title: "Ownership"@,
            one_line: "Every non-Copy value has one place responsible for dropping it."@,
            rule: "A value may move to a new owner, be borrowed temporarily, or be cloned into a new value."@,
            memory_model: "The owner is a control responsibility, not necessarily the physical address of the bytes."@,
            why: "One drop responsibility prevents double free, use-after-free, and unclear cleanup."@,
            misconception: "Heap allocation does not imply shared ownership; `Box<T>` still has one owner."@,
            checkpoint: "Does assigning a `String` to another variable normally copy its heap buffer?"@,
            choices: seq!["No, ownership moves"@, "Yes, all assignments clone"@],
            correct_choice: 0,
            related: seq!["moves"@, "borrow_conflicts"@, "smart_pointers"@],
        }
    } else if i == 1 {
        LessonText {
            id: "moves"@,
            title: "Moves"@,
            one_line: "A move transfers drop responsibility and invalidates the old place."@,
            rule: "After moving a non-Copy value, use the new owner or reinitialize the old place."@,
            memory_model: "The payload often stays where it is; the owning handle and cleanup responsibility transfer."@,
            why: "Treating both names as owners could drop the same resource twice."@,
            misconception: "A move is not necessarily a byte-for-byte heap copy."@,
            checkpoint: "After `let b = a` for a `String`, which name owns the string?"@,
            choices: seq!["b"@, "a and b"@],
            correct_choice: 0,
            related: seq!["ownership"@, "moves_and_borrows"@, "smart_pointers"@],
        }
    } else if i == 2 {
        LessonText {
            id: "partial_moves"@,
            title: "Partial moves"@,
            one_line: "Moving one non-Copy field can leave unrelated fields usable while the whole struct is incomplete."@,
            rule: "Use unmoved fields directly, or reinitialize moved fields before using the complete value again."@,
            memory_model: "Availability is tracked per place, including fields and indexed projections when provable."@,
            why: "Field-sensitive tracking permits useful code without pretending the complete value is intact."@,
            misconception: "A partial move does not automatically destroy or move every field."@,
            checkpoint: "Can an unmoved field sometimes be used after another field moves?"@,
            choices: seq!["Yes"@, "No"@],
            correct_choice: 0,
            related: seq!["moves"@, "reinitialization"@],
        }
    } else if i == 3 {
        LessonText {
            id: "borrow_conflicts"@,
            title: "Borrow conflicts"@,
            one_line: "A live shared view blocks mutation; a live exclusive view blocks every competing access."@,
            rule: "At a given time, Rust permits either many shared borrows or one mutable borrow."@,
            memory_model: "The value remains alive. Only operations that could invalidate or race with the live view are restricted."@,
            why: "A reference must keep pointing to valid, consistently accessed data for its entire live region."@,
            misconception: "Borrowed does not mean dead or moved."@,
            checkpoint: "Is a value dead merely because an `&T` points to it?"@,
            choices: seq!["No, it is alive with restricted access"@, "Yes"@],
            correct_choice: 0,
            related: seq!["exclusive_borrow"@, "non_lexical_lifetimes"@, "lifetimes"@],
        }
    } else if i == 4 {
        LessonText {
            id: "exclusive_borrow"@,
            title: "Exclusive mutable borrowing"@,
            one_line: "An `&mut T` promises that its access path is exclusive while the borrow is live."@,
            rule: "Do not read, write, or create another overlapping borrow through competing paths until it ends."@,
            memory_model: "The owner is still alive, but access is temporarily delegated to the mutable reference."@,
            why: "Exclusivity makes mutation deterministic and prevents data races."@,
            misconception: "`&mut` does not own or automatically drop the referent."@,
            checkpoint: "Can two live `&mut` references overlap the same value?"@,
            choices: seq!["No"@, "Yes, on one thread"@],
            correct_choice: 0,
            related: seq!["borrow_conflicts"@, "non_lexical_lifetimes"@],
        }
    } else if i == 5 {
        LessonText {
            id: "moves_and_borrows"@,
            title: "Moving while borrowed"@,
            one_line: "Ownership cannot move while a reference still relies on the old owner's storage contract."@,
            rule: "Finish using the reference before moving, or return/store owned data instead."@,
            memory_model: "The borrow is tied to the referent and its valid owner-controlled lifetime."@,
            why: "Moving may invalidate location, cleanup, or aliasing assumptions represented by the reference."@,
            misconception: "A reference does not silently follow every ownership transformation."@,
            checkpoint: "May an owner be moved while one of its fields is still borrowed and later used?"@,
            choices: seq!["No"@, "Always"@],
            correct_choice: 0,
            related: seq!["moves"@, "borrow_conflicts"@, "lifetimes"@],
        }
    } else if i == 6 {
        LessonText {
            id: "non_lexical_lifetimes"@,
            title: "Non-lexical lifetimes"@,
            one_line: "A borrow normally ends after its last possible use, not automatically at the closing brace."@,
            rule: "Control flow determines the live region that the borrow checker must protect."@,
            memory_model: "The reference binding can remain in scope even after its borrow is no longer live."@,
            why: "Ending protection at the final use permits safe mutation sooner."@,
            misconception: "Scope and borrow lifetime are related but not identical."@,
            checkpoint: "Can a borrow end before its variable goes out of lexical scope?"@,
            choices: seq!["Yes"@, "No"@],
            correct_choice: 0,
            related: seq!["borrow_conflicts"@, "lifetimes"@],
        }
    } else if i == 7 {
        LessonText {
            id: "mutability_contracts"@,
            title: "Mutability contracts"@,
            one_line: "Mutation requires a mutable owner path, exclusive borrow, or an explicit interior-mutability API."@,
            rule: "Every layer from the binding to the changed value must provide the required access."@,
            memory_model: "`mut` changes what a binding may do; `&mut` delegates exclusive access; wrappers can enforce access at runtime."@,
            why: "The type signature communicates where observable state may change."@,
            misconception: "Making the outer variable `mut` cannot give `Rc<T>` a missing `DerefMut` implementation."@,
            checkpoint: "Does `Rc<T>` alone permit mutable access to `T`?"@,
            choices: seq!["No"@, "Yes, when the Rc binding is mut"@],
            correct_choice: 0,
            related: seq!["method_receivers"@, "interior_mutability"@, "smart_pointers"@],
        }
    } else if i == 8 {
        LessonText {
            id: "method_receivers"@,
            title: "Method receiver contracts"@,
            one_line: "`&self`, `&mut self`, and `self` mean shared access, exclusive access, and ownership transfer."@,
            rule: "The call site must supply the receiver access written in the resolved method signature."@,
            memory_model: "Method syntax may auto-borrow or auto-dereference, but it cannot invent access a wrapper does not provide."@,
            why: "Receiver types make state changes and consumption visible to callers."@,
            misconception: "A method name such as `clear` is not inherently mutable; its resolved signature proves the contract."@,
            checkpoint: "What receiver normally permits changing a Vec in place?"@,
            choices: seq!["&mut self"@, "&self"@],
            correct_choice: 0,
            related: seq!["mutability_contracts"@, "method_resolution"@],
        }
    } else if i == 9 {
        LessonText {
            id: "lifetimes"@,
            title: "Lifetimes"@,
            one_line: "A lifetime describes how long a reference may remain valid relative to its referent."@,
            rule: "No reference may outlive the value and storage it points into."@,
            memory_model: "Lifetime annotations connect existing regions; they do not extend runtime storage."@,
            why: "The relationship prevents dangling pointers without garbage collection."@,
            misconception: "Adding `'static` does not make a local value live forever."@,
            checkpoint: "Can a lifetime annotation extend the runtime life of a local String?"@,
            choices: seq!["No"@, "Yes"@],
            correct_choice: 0,
            related: seq!["returning_references"@, "temporary_lifetimes"@, "non_lexical_lifetimes"@],
        }
    } else if i == 10 {
        LessonText {
            id: "returning_references"@,
            title: "Returning references"@,
            one_line: "A returned reference must point into storage that remains alive in the caller."@,
            rule: "Tie the output to an input reference, or return an owned value."@,
            memory_model: "Local stack variables and their owned allocations are cleaned up when the function returns."@,
            why: "A reference into cleaned-up local state would dangle."@,
            misconception: "Heap bytes owned by a local `String` do not outlive the local owner automatically."@,
            checkpoint: "May a function safely return `&str` into a locally created String?"@,
            choices: seq!["No"@, "Yes, because String uses the heap"@],
            correct_choice: 0,
            related: seq!["lifetimes"@, "ownership"@],
        }
    } else if i == 11 {
        LessonText {
            id: "temporary_lifetimes"@,
            title: "Temporary lifetimes"@,
            one_line: "A reference cannot remain in use after the temporary owner is dropped."@,
            rule: "Bind the owner to a local variable when its borrowed result must live longer."@,
            memory_model: "Temporaries have compiler-defined drop points, often at the end of a statement."@,
            why: "The referent must still exist at every use of the reference."@,
            misconception: "Borrowing a temporary does not automatically promote every temporary to the enclosing scope."@,
            checkpoint: "Can naming the owner extend how long its borrowed data remains available?"@,
            choices: seq!["Yes"@, "No"@],
            correct_choice: 0,
            related: seq!["lifetimes"@, "drop"@],
        }
    } else if i == 12 {
        LessonText {
            id: "trait_bounds"@,
            title: "Trait requirements"@,
            one_line: "A generic operation is available only when the concrete type satisfies every required trait bound."@,
            rule: "Implement, import, or constrain traits deliberately; do not assume similarly shaped types are interchangeable."@,
            memory_model: "Traits describe compile-time capabilities and may select static or dynamic dispatch."@,
            why: "The compiler must prove the called behavior exists for every permitted type."@,
            misconception: "E0277 does not always mean writing an impl; changing ownership or threading representation may be correct."@,
            checkpoint: "Does a generic function compile if one allowed type lacks a required bound?"@,
            choices: seq!["No"@, "Yes, until that type is used"@],
            correct_choice: 0,
            related: seq!["method_resolution"@, "send_sync"@, "type_mismatches"@],
        }
    } else if i == 13 {
        LessonText {
            id: "send_sync"@,
            title: "Send and Sync"@,
            one_line: "`Send` permits moving a value between threads; `Sync` permits sharing `&T` between threads."@,
            rule: "Thread boundaries require every captured component to satisfy the executor or thread API's bounds."@,
            memory_model: "`Rc` and `RefCell` use non-thread-safe runtime state; `Arc` and locks provide thread-aware mechanisms."@,
            why: "These auto traits prevent data races hidden inside composed types."@,
            misconception: "Replacing `Rc` with `Arc` does not make the inner value mutable or automatically `Sync`."@,
            checkpoint: "Which shared-owner type uses atomic reference counts?"@,
            choices: seq!["Arc"@, "Rc"@],
            correct_choice: 0,
            related: seq!["smart_pointers"@, "interior_mutability"@, "async_futures"@],
        }
    } else if i == 14 {
        LessonText {
            id: "type_mismatches"@,
            title: "Type mismatches"@,
            one_line: "The produced type and the context's expected type describe different contracts."@,
            rule: "Change the producer, consumer, or use an explicit valid conversion that preserves intent."@,
            memory_model: "References, owners, options, results, and wrappers are distinct representations with distinct behavior."@,
            why: "Explicit conversions prevent accidental allocation, failure, truncation, or ownership changes."@,
            misconception: "Types with similar printed values are not automatically interchangeable."@,
            checkpoint: "Should a fallible conversion normally expose its failure path?"@,
            choices: seq!["Yes"@, "No"@],
            correct_choice: 0,
            related: seq!["trait_bounds"@, "ownership"@],
        }
    } else if i == 15 {
        LessonText {
            id: "method_resolution"@,
            title: "Method resolution"@,
            one_line: "A method comes from an inherent impl or an in-scope trait for a compatible receiver type."@,
            rule: "Check the resolved receiver layer, trait import, bounds, and auto-deref path."@,
            memory_model: "Method-call syntax searches candidate receiver forms but cannot bypass ownership or trait rules."@,
            why: "Resolution must identify one unambiguous function and prove its receiver contract."@,
            misconception: "A method existing on `T` does not guarantee it is mutable through `Rc<T>`."@,
            checkpoint: "Can importing a trait make its implemented methods available?"@,
            choices: seq!["Yes"@, "No"@],
            correct_choice: 0,
            related: seq!["trait_bounds"@, "method_receivers"@],
        }
    } else if i == 16 {
        LessonText {
            id: "closure_captures"@,
            title: "Closure captures"@,
            one_line: "A closure may borrow or own values from the surrounding scope."@,
            rule: "Use `move` when the closure must outlive the borrowed environment, then decide which captures need cloning."@,
            memory_model: "The compiler creates an anonymous environment struct containing references or owned fields."@,
            why: "The environment must remain valid for as long as the closure can run."@,
            misconception: "`move` changes capture ownership; it does not force Copy values to become heap allocated."@,
            checkpoint: "What does a `move` closure normally do with non-Copy captures?"@,
            choices: seq!["Takes ownership"@, "Creates hidden references"@],
            correct_choice: 0,
            related: seq!["lifetimes"@, "moves"@, "send_sync"@],
        }
    } else if i == 17 {
        LessonText {
            id: "async_futures"@,
            title: "Async futures"@,
            one_line: "Calling an async function creates a future whose state is advanced when polled."@,
            rule: "Values held across `.await` become part of the future and must satisfy its lifetime and thread bounds."@,
            memory_model: "The future is a state machine storing locals needed after suspension points."@,
            why: "Suspension lets other work run while preserving enough state to resume safely."@,
            misconception: "Calling an async function does not run its body to completion immediately."@,
            checkpoint: "Can a local held across `.await` become stored in the future state?"@,
            choices: seq!["Yes"@, "No"@],
            correct_choice: 0,
            related: seq!["send_sync"@, "closure_captures"@, "lifetimes"@],
        }
    } else if i == 18 {
        LessonText {
            id: "smart_pointers"@,
            title: "Box, Rc, and Arc"@,
            one_line: "`Box` owns once, `Rc` shares on one thread, and `Arc` shares with atomic counts."@,
            rule: "Choose a wrapper from the ownership topology, not merely to silence a move error."@,
            memory_model: "The stack handle points to heap storage; reference-counted allocations also store owner counters."@,
            why: "Different sharing models have different guarantees and runtime costs."@,
            misconception: "Shared ownership does not imply shared mutation."@,
            checkpoint: "Which type represents one owner of a heap allocation?"@,
            choices: seq!["Box"@, "Rc"@],
            correct_choice: 0,
            related: seq!["ownership"@, "interior_mutability"@, "send_sync"@],
        }
    } else if i == 19 {
        LessonText {
            id: "interior_mutability"@,
            title: "Interior mutability"@,
            one_line: "Interior-mutability types permit mutation through shared access by enforcing rules at runtime or through restricted operations."@,
            rule: "Use `Cell` for Copy-style replacement, `RefCell` for single-threaded dynamic borrows, and locks for synchronized access."@,
            memory_model: "The wrapper stores runtime state such as a borrow flag or lock next to the value."@,
            why: "Some ownership topologies cannot express mutation with ordinary exclusive references at the API boundary."@,
            misconception: "`RefCell` does not remove borrowing rules; violations panic at runtime."@,
            checkpoint: "When does `RefCell` check borrow compatibility?"@,
            choices: seq!["At runtime"@, "Never"@],
            correct_choice: 0,
            related: seq!["mutability_contracts"@, "smart_pointers"@, "send_sync"@],
        }
    } else if i == 20 {
        LessonText {
            id: "reinitialization"@,
            title: "Reinitialization"@,
            one_line: "Assigning a new value can make a previously moved place available again."@,
            rule: "The place must be assignable without reading or dropping an unavailable old value."@,
            memory_model: "The availability bit for that place changes from moved to initialized with a new owner value."@,
            why: "Rust tracks whether each place currently contains a value that must eventually be dropped."@,
            misconception: "A moved binding is not permanently unusable when it can legally receive a new value."@,
            checkpoint: "Can assigning a new String make a moved local usable again?"@,
            choices: seq!["Yes"@, "No"@],
            correct_choice: 0,
            related: seq!["moves"@, "partial_moves"@, "drop"@],
        }
    } else {
        LessonText {
            id: "drop"@,
            title: "Drop and cleanup"@,
            one_line: "Rust runs cleanup exactly once when the current owner leaves its initialized lifetime."@,
            rule: "Moved-out places are not dropped; reinitialized places drop their new value normally."@,
            memory_model: "Drop responsibility follows ownership and may recursively clean up fields and heap allocations."@,
            why: "Deterministic cleanup releases files, locks, allocations, and other resources without double free."@,
            misconception: "Drop always means heap deallocation; many values have no heap storage and custom Drop may release other resources."@,
            checkpoint: "Is a moved-out value dropped again through its old binding?"@,
            choices: seq!["No"@, "Yes"@],
            correct_choice: 0,
            related: seq!["ownership"@, "moves"@, "reinitialization"@],
        }
    }
}

/// The lesson at position `i` of the catalog.
fn lesson_at(i: usize) -> (r: ConceptLesson)
    requires
        i < lesson_count(),
    ensures
        r@ == lesson_entry(i as int),
{
    let r = match i {
        0 => ConceptLesson {
            id: "ownership",
            title: "Ownership",
            one_line: "Every non-Copy value has one place responsible for dropping it.",
            rule: "A value may move to a new owner, be borrowed temporarily, or be cloned into a new value.",
            memory_model: "The owner is a control responsibility, not necessarily the physical address of the bytes.",
            why: "One drop responsibility prevents double free, use-after-free, and unclear cleanup.",
            misconception: "Heap allocation does not imply shared ownership; `Box<T>` still has one owner.",
            checkpoint: "Does assigning a `String` to another variable normally copy its heap buffer?",
            choices: ["No, ownership moves", "Yes, all assignments clone"],
            correct_choice: 0,
            related: &["moves", "borrow_conflicts", "smart_pointers"],
        },
        1 => ConceptLesson {
            id: "moves",
            title: "Moves",
            one_line: "A move transfers drop responsibility and invalidates the old place.",
            rule: "After moving a non-Copy value, use the new owner or reinitialize the old place.",
            memory_model: "The payload often stays where it is; the owning handle and cleanup responsibility transfer.",
            why: "Treating both names as owners could drop the same resource twice.",
            misconception: "A move is not necessarily a byte-for-byte heap copy.",
            checkpoint: "After `let b = a` for a `String`, which name owns the string?",
            choices: ["b", "a and b"],
            correct_choice: 0,
            related: &["ownership", "moves_and_borrows", "smart_pointers"],
        },
        2 => ConceptLesson {
            id: "partial_moves",
            title: "Partial moves",
            one_line: "Moving one non-Copy field can leave unrelated fields usable while the whole struct is incomplete.",
            rule: "Use unmoved fields directly, or reinitialize moved fields before using the complete value again.",
            memory_model: "Availability is tracked per place, including fields and indexed projections when provable.",
            why: "Field-sensitive tracking permits useful code without pretending the complete value is intact.",
            misconception: "A partial move does not automatically destroy or move every field.",
            checkpoint: "Can an unmoved field sometimes be used after another field moves?",
            choices: ["Yes", "No"],
            correct_choice: 0,
            related: &["moves", "reinitialization"],
        },
        3 => ConceptLesson {
            id: "borrow_conflicts",
            title: "Borrow conflicts",
            one_line: "A live shared view blocks mutation; a live exclusive view blocks every competing access.",
            rule: "At a given time, Rust permits either many shared borrows or one mutable borrow.",
            memory_model: "The value remains alive. Only operations that could invalidate or race with the live view are restricted.",
            why: "A reference must keep pointing to valid, consistently accessed data for its entire live region.",
            misconception: "Borrowed does not mean dead or moved.",
            checkpoint: "Is a value dead merely because an `&T` points to it?",
            choices: ["No, it is alive with restricted access", "Yes"],
            correct_choice: 0,
            related: &["exclusive_borrow", "non_lexical_lifetimes", "lifetimes"],
        },
        4 => ConceptLesson {
            id: "exclusive_borrow",
            title: "Exclusive mutable borrowing",
            one_line: "An `&mut T` promises that its access path is exclusive while the borrow is live.",
            rule: "Do not read, write, or create another overlapping borrow through competing paths until it ends.",
            memory_model: "The owner is still alive, but access is temporarily delegated to the mutable reference.",
            why: "Exclusivity makes mutation deterministic and prevents data races.",
            misconception: "`&mut` does not own or automatically drop the referent.",
            checkpoint: "Can two live `&mut` references overlap the same value?",
            choices: ["No", "Yes, on one thread"],
            correct_choice: 0,
            related: &["borrow_conflicts", "non_lexical_lifetimes"],
        },
        5 => ConceptLesson {
            id: "moves_and_borrows",
            title: "Moving while borrowed",
            one_line: "Ownership cannot move while a reference still relies on the old owner's storage contract.",
            rule: "Finish using the reference before moving, or return/store owned data instead.",
            memory_model: "The borrow is tied to the referent and its valid owner-controlled lifetime.",
            why: "Moving may invalidate location, cleanup, or aliasing assumptions represented by the reference.",
            misconception: "A reference does not silently follow every ownership transformation.",
            checkpoint: "May an owner be moved while one of its fields is still borrowed and later used?",
            choices: ["No", "Always"],
            correct_choice: 0,
            related: &["moves", "borrow_conflicts", "lifetimes"],
        },
        6 => ConceptLesson {
            id: "non_lexical_lifetimes",
            title: "Non-lexical lifetimes",
            one_line: "A borrow normally ends after its last possible use, not automatically at the closing brace.",
            rule: "Control flow determines the live region that the borrow checker must protect.",
            memory_model: "The reference binding can remain in scope even after its borrow is no longer live.",
            why: "Ending protection at the final use permits safe mutation sooner.",
            misconception: "Scope and borrow lifetime are related but not identical.",
            checkpoint: "Can a borrow end before its variable goes out of lexical scope?",
            choices: ["Yes", "No"],
            correct_choice: 0,
            related: &["borrow_conflicts", "lifetimes"],
        },
        7 => ConceptLesson {
            id: "mutability_contracts",
            title: "Mutability contracts",
            one_line: "Mutation requires a mutable owner path, exclusive borrow, or an explicit interior-mutability API.",
            rule: "Every layer from the binding to the changed value must provide the required access.",
            memory_model: "`mut` changes what a binding may do; `&mut` delegates exclusive access; wrappers can enforce access at runtime.",
            why: "The type signature communicates where observable state may change.",
            misconception: "Making the outer variable `mut` cannot give `Rc<T>` a missing `DerefMut` implementation.",
            checkpoint: "Does `Rc<T>` alone permit mutable access to `T`?",
            choices: ["No", "Yes, when the Rc binding is mut"],
            correct_choice: 0,
            related: &["method_receivers", "interior_mutability", "smart_pointers"],
        },
        8 => ConceptLesson {
            id: "method_receivers",
            title: "Method receiver contracts",
            one_line: "`&self`, `&mut self`, and `self` mean shared access, exclusive access, and ownership transfer.",
            rule: "The call site must supply the receiver access written in the resolved method signature.",
            memory_model: "Method syntax may auto-borrow or auto-dereference, but it cannot invent access a wrapper does not provide.",
            why: "Receiver types make state changes and consumption visible to callers.",
            misconception: "A method name such as `clear` is not inherently mutable; its resolved signature proves the contract.",
            checkpoint: "What receiver normally permits changing a Vec in place?",
            choices: ["&mut self", "&self"],
            correct_choice: 0,
            related: &["mutability_contracts", "method_resolution"],
        },
        9 => ConceptLesson {
            id: "lifetimes",
            title: "Lifetimes",
            one_line: "A lifetime describes how long a reference may remain valid relative to its referent.",
            rule: "No reference may outlive the value and storage it points into.",
            memory_model: "Lifetime annotations connect existing regions; they do not extend runtime storage.",
            why: "The relationship prevents dangling pointers without garbage collection.",
            misconception: "Adding `'static` does not make a local value live forever.",
            checkpoint: "Can a lifetime annotation extend the runtime life of a local String?",
            choices: ["No", "Yes"],
            correct_choice: 0,
            related: &["returning_references", "temporary_lifetimes", "non_lexical_lifetimes"],
        },
        10 => ConceptLesson {
            id: "returning_references",
            title: "Returning references",
            one_line: "A returned reference must point into storage that remains alive in the caller.",
            rule: "Tie the output to an input reference, or return an owned value.",
            memory_model: "Local stack variables and their owned allocations are cleaned up when the function returns.",
            why: "A reference into cleaned-up local state would dangle.",
            misconception: "Heap bytes owned by a local `String` do not outlive the local owner automatically.",
            checkpoint: "May a function safely return `&str` into a locally created String?",
            choices: ["No", "Yes, because String uses the heap"],
            correct_choice: 0,
            related: &["lifetimes", "ownership"],
        },
        11 => ConceptLesson {
            id: "temporary_lifetimes",
            title: "Temporary lifetimes",
            one_line: "A reference cannot remain in use after the temporary owner is dropped.",
            rule: "Bind the owner to a local variable when its borrowed result must live longer.",
            memory_model: "Temporaries have compiler-defined drop points, often at the end of a statement.",
            why: "The referent must still exist at every use of the reference.",
            misconception: "Borrowing a temporary does not automatically promote every temporary to the enclosing scope.",
            checkpoint: "Can naming the owner extend how long its borrowed data remains available?",
            choices: ["Yes", "No"],
            correct_choice: 0,
            related: &["lifetimes", "drop"],
        },
        12 => ConceptLesson {
            id: "trait_bounds",
            title: "Trait requirements",
            one_line: "A generic operation is available only when the concrete type satisfies every required trait bound.",
            rule: "Implement, import, or constrain traits deliberately; do not assume similarly shaped types are interchangeable.",
            memory_model: "Traits describe compile-time capabilities and may select static or dynamic dispatch.",
            why: "The compiler must prove the called behavior exists for every permitted type.",
            misconception: "E0277 does not always mean writing an impl; changing ownership or threading representation may be correct.",
            checkpoint: "Does a generic function compile if one allowed type lacks a required bound?",
            choices: ["No", "Yes, until that type is used"],
            correct_choice: 0,
            related: &["method_resolution", "send_sync", "type_mismatches"],
        },
        13 => ConceptLesson {
            id: "send_sync",
            title: "Send and Sync",
            one_line: "`Send` permits moving a value between threads; `Sync` permits sharing `&T` between threads.",
            rule: "Thread boundaries require every captured component to satisfy the executor or thread API's bounds.",
            memory_model: "`Rc` and `RefCell` use non-thread-safe runtime state; `Arc` and locks provide thread-aware mechanisms.",
            why: "These auto traits prevent data races hidden inside composed types.",
            misconception: "Replacing `Rc` with `Arc` does not make the inner value mutable or automatically `Sync`.",
            checkpoint: "Which shared-owner type uses atomic reference counts?",
            choices: ["Arc", "Rc"],
            correct_choice: 0,
            related: &["smart_pointers", "interior_mutability", "async_futures"],
        },
        14 => ConceptLesson {
            id: "type_mismatches",
            title: "Type mismatches",
            one_line: "The produced type and the context's expected type describe different contracts.",
            rule: "Change the producer, consumer, or use an explicit valid conversion that preserves intent.",
            memory_model: "References, owners, options, results, and wrappers are distinct representations with distinct behavior.",
            why: "Explicit conversions prevent accidental allocation, failure, truncation, or ownership changes.",
            misconception: "Types with similar printed values are not automatically interchangeable.",
            checkpoint: "Should a fallible conversion normally expose its failure path?",
            choices: ["Yes", "No"],
            correct_choice: 0,
            related: &["trait_bounds", "ownership"],
        },
        15 => ConceptLesson {
            id: "method_resolution",
            title: "Method resolution",
            one_line: "A method comes from an inherent impl or an in-scope trait for a compatible receiver type.",
            rule: "Check the resolved receiver layer, trait import, bounds, and auto-deref path.",
            memory_model: "Method-call syntax searches candidate receiver forms but cannot bypass ownership or trait rules.",
            why: "Resolution must identify one unambiguous function and prove its receiver contract.",
            misconception: "A method existing on `T` does not guarantee it is mutable through `Rc<T>`.",
            checkpoint: "Can importing a trait make its implemented methods available?",
            choices: ["Yes", "No"],
            correct_choice: 0,
            related: &["trait_bounds", "method_receivers"],
        },
        16 => ConceptLesson {
            id: "closure_captures",
            title: "Closure captures",
            one_line: "A closure may borrow or own values from the surrounding scope.",
            rule: "Use `move` when the closure must outlive the borrowed environment, then decide which captures need cloning.",
            memory_model: "The compiler creates an anonymous environment struct containing references or owned fields.",
            why: "The environment must remain valid for as long as the closure can run.",
            misconception: "`move` changes capture ownership; it does not force Copy values to become heap allocated.",
            checkpoint: "What does a `move` closure normally do with non-Copy captures?",
            choices: ["Takes ownership", "Creates hidden references"],
            correct_choice: 0,
            related: &["lifetimes", "moves", "send_sync"],
        },
        17 => ConceptLesson {
            id: "async_futures",
            title: "Async futures",
            one_line: "Calling an async function creates a future whose state is advanced when polled.",
            rule: "Values held across `.await` become part of the future and must satisfy its lifetime and thread bounds.",
            memory_model: "The future is a state machine storing locals needed after suspension points.",
            why: "Suspension lets other work run while preserving enough state to resume safely.",
            misconception: "Calling an async function does not run its body to completion immediately.",
            checkpoint: "Can a local held across `.await` become stored in the future state?",
            choices: ["Yes", "No"],
            correct_choice: 0,
            related: &["send_sync", "closure_captures", "lifetimes"],
        },
        18 => ConceptLesson {
            id: "smart_pointers",
            title: "Box, Rc, and Arc",
            one_line: "`Box` owns once, `Rc` shares on one thread, and `Arc` shares with atomic counts.",
            rule: "Choose a wrapper from the ownership topology, not merely to silence a move error.",
            memory_model: "The stack handle points to heap storage; reference-counted allocations also store owner counters.",
            why: "Different sharing models have different guarantees and runtime costs.",
            misconception: "Shared ownership does not imply shared mutation.",
            checkpoint: "Which type represents one owner of a heap allocation?",
            choices: ["Box", "Rc"],
            correct_choice: 0,
            related: &["ownership", "interior_mutability", "send_sync"],
        },
        19 => ConceptLesson {
            id: "interior_mutability",
            title: "Interior mutability",
            one_line: "Interior-mutability types permit mutation through shared access by enforcing rules at runtime or through restricted operations.",
            rule: "Use `Cell` for Copy-style replacement, `RefCell` for single-threaded dynamic borrows, and locks for synchronized access.",
            memory_model: "The wrapper stores runtime state such as a borrow flag or lock next to the value.",
            why: "Some ownership topologies cannot express mutation with ordinary exclusive references at the API boundary.",
            misconception: "`RefCell` does not remove borrowing rules; violations panic at runtime.",
            checkpoint: "When does `RefCell` check borrow compatibility?",
            choices: ["At runtime", "Never"],
            correct_choice: 0,
            related: &["mutability_contracts", "smart_pointers", "send_sync"],
        },
        20 => ConceptLesson {
            id: "reinitialization",
            title: "Reinitialization",
            one_line: "Assigning a new value can make a previously moved place available again.",
            rule: "The place must be assignable without reading or dropping an unavailable old value.",
            memory_model: "The availability bit for that place changes from moved to initialized with a new owner value.",
            why: "Rust tracks whether each place currently contains a value that must eventually be dropped.",
            misconception: "A moved binding is not permanently unusable when it can legally receive a new value.",
            checkpoint: "Can assigning a new String make a moved local usable again?",
            choices: ["Yes", "No"],
            correct_choice: 0,
            related: &["moves", "partial_moves", "drop"],
        },
        _ => ConceptLesson {
            id: "drop",
            title: "Drop and cleanup",
            one_line: "Rust runs cleanup exactly once when the current owner leaves its initialized lifetime.",
            rule: "Moved-out places are not dropped; reinitialized places drop their new value normally.",
            memory_model: "Drop responsibility follows ownership and may recursively clean up fields and heap allocations.",
            why: "Deterministic cleanup releases files, locks, allocations, and other resources without double free.",
            misconception: "Drop always means heap deallocation; many values have no heap storage and custom Drop may release other resources.",
            checkpoint: "Is a moved-out value dropped again through its old binding?",
            choices: ["No", "Yes"],
            correct_choice: 0,
            related: &["ownership", "moves", "reinitialization"],
        },
    };
    assert(r.choices@.map_values(|s: &str| s@) =~= lesson_entry(i as int).choices);
    assert(r.related@.map_values(|s: &str| s@) =~= lesson_entry(i as int).related);
    r
}

/// Every lesson of the catalog, in catalog order.
pub fn all_lessons() -> (r: Vec<ConceptLesson>)
    ensures
        r@.map_values(|l: ConceptLesson| l@) == Seq::new(lesson_count() as nat, |i: int| lesson_entry(i)),
{
    let mut r: Vec<ConceptLesson> = Vec::new();
    let mut i: usize = 0;
    while i < 22
        invariant
            i <= lesson_count(),
            r@.map_values(|l: ConceptLesson| l@) =~= Seq::new(i as nat, |k: int| lesson_entry(k)),
        decreases 22 - i,
    {
        let ghost before = r@;
        r.push(lesson_at(i));
        assert(r@.map_values(|l: ConceptLesson| l@) =~= before.map_values(|l: ConceptLesson| l@).push(
            lesson_entry(i as int),
        ));
        i += 1;
    }
    r
}

/// Some lesson of the catalog has the id `id`.
pub open spec fn is_lesson_id(id: Seq<char>) -> bool {
    exists|i: int| 0 <= i < lesson_count() && #[trigger] lesson_entry(i).id == id
}

/// The lesson with the id `id`, if the catalog has one.
pub fn lesson(id: &str) -> (r: Option<ConceptLesson>)
    ensures
        r matches Some(l) ==> exists|i: int|
            0 <= i < lesson_count() && #[trigger] lesson_entry(i).id == id@ && l@ == lesson_entry(i),
        r is None ==> !is_lesson_id(id@),
{
    let mut i: usize = 0;
    while i < 22
        invariant
            i <= lesson_count(),
            forall|k: int| 0 <= k < i ==> #[trigger] lesson_entry(k).id != id@,
        decreases 22 - i,
    {
        let candidate = lesson_at(i);
        if str_eq(candidate.id, id) {
            assert(lesson_entry(i as int).id == id@);
            return Some(candidate);
        }
        i += 1;
    }
    None
}

proof fn lemma_lesson_id_0_is_unique(j: int)
    requires
        0 <= j < lesson_count(),
        j != 0,
    ensures
        lesson_entry(j).id != lesson_entry(0).id,
{
    reveal_strlit("ownership");
    if j == 1 {
        reveal_strlit("moves");
        assert(lesson_entry(1).id.len() != lesson_entry(0).id.len());
    } else if j == 2 {
        reveal_strlit("partial_moves");
        assert(lesson_entry(2).id.len() != lesson_entry(0).id.len());
    } else if j == 3 {
        reveal_strlit("borrow_conflicts");
        assert(lesson_entry(3).id.len() != lesson_entry(0).id.len());
    } else if j == 4 {
        reveal_strlit("exclusive_borrow");
        assert(lesson_entry(4).id.len() != lesson_entry(0).id.len());
    } else if j == 5 {
        reveal_strlit("moves_and_borrows");
        assert(lesson_entry(5).id.len() != lesson_entry(0).id.len());
    } else if j == 6 {
        reveal_strlit("non_lexical_lifetimes");
        assert(lesson_entry(6).id.len() != lesson_entry(0).id.len());
    } else if j == 7 {
        reveal_strlit("mutability_contracts");
        assert(lesson_entry(7).id.len() != lesson_entry(0).id.len());
    } else if j == 8 {
        reveal_strlit("method_receivers");
        assert(lesson_entry(8).id.len() != lesson_entry(0).id.len());
    } else if j == 9 {
        reveal_strlit("lifetimes");
        assert(lesson_entry(9).id[0] != lesson_entry(0).id[0]);
    } else if j == 10 {
        reveal_strlit("returning_references");
        assert(lesson_entry(10).id.len() != lesson_entry(0).id.len());
    } else if j == 11 {
        reveal_strlit("temporary_lifetimes");
        assert(lesson_entry(11).id.len() != lesson_entry(0).id.len());
    } else if j == 12 {
        reveal_strlit("trait_bounds");
        assert(lesson_entry(12).id.len() != lesson_entry(0).id.len());
    } else if j == 13 {
        reveal_strlit("send_sync");
        assert(lesson_entry(13).id[0] != lesson_entry(0).id[0]);
    } else if j == 14 {
        reveal_strlit("type_mismatches");
        assert(lesson_entry(14).id.len() != lesson_entry(0).id.len());
    } else if j == 15 {
        reveal_strlit("method_resolution");
        assert(lesson_entry(15).id.len() != lesson_entry(0).id.len());
    } else if j == 16 {
        reveal_strlit("closure_captures");
        assert(lesson_entry(16).id.len() != lesson_entry(0).id.len());
    } else if j == 17 {
        reveal_strlit("async_futures");
        assert(lesson_entry(17).id.len() != lesson_entry(0).id.len());
    } else if j == 18 {
        reveal_strlit("smart_pointers");
        assert(lesson_entry(18).id.len() != lesson_entry(0).id.len());
    } else if j == 19 {
        reveal_strlit("interior_mutability");
        assert(lesson_entry(19).id.len() != lesson_entry(0).id.len());
    } else if j == 20 {
        reveal_strlit("reinitialization");
        assert(lesson_entry(20).id.len() != lesson_entry(0).id.len());
    } else if j == 21 {
        reveal_strlit("drop");
        assert(lesson_entry(21).id.len() != lesson_entry(0).id.len());
    }
}

proof fn lemma_lesson_id_1_is_unique(j: int)
    requires
        0 <= j < lesson_count(),
        j != 1,
    ensures
        lesson_entry(j).id != lesson_entry(1).id,
{
    reveal_strlit("moves");
    if j == 0 {
        reveal_strlit("ownership");
        assert(lesson_entry(0).id.len() != lesson_entry(1).id.len());
    } else if j == 2 {
        reveal_strlit("partial_moves");
        assert(lesson_entry(2).id.len() != lesson_entry(1).id.len());
    } else if j == 3 {
        reveal_strlit("borrow_conflicts");
        assert(lesson_entry(3).id.len() != lesson_entry(1).id.len());
    } else if j == 4 {
        reveal_strlit("exclusive_borrow");
        assert(lesson_entry(4).id.len() != lesson_entry(1).id.len());
    } else if j == 5 {
        reveal_strlit("moves_and_borrows");
        assert(lesson_entry(5).id.len() != lesson_entry(1).id.len());
    } else if j == 6 {
        reveal_strlit("non_lexical_lifetimes");
        assert(lesson_entry(6).id.len() != lesson_entry(1).id.len());
    } else if j == 7 {
        reveal_strlit("mutability_contracts");
        assert(lesson_entry(7).id.len() != lesson_entry(1).id.len());
    } else if j == 8 {
        reveal_strlit("method_receivers");
        assert(lesson_entry(8).id.len() != lesson_entry(1).id.len());
    } else if j == 9 {
        reveal_strlit("lifetimes");
        assert(lesson_entry(9).id.len() != lesson_entry(1).id.len());
    } else if j == 10 {
        reveal_strlit("returning_references");
        assert(lesson_entry(10).id.len() != lesson_entry(1).id.len());
    } else if j == 11 {
        reveal_strlit("temporary_lifetimes");
        assert(lesson_entry(11).id.len() != lesson_entry(1).id.len());
    } else if j == 12 {
        reveal_strlit("trait_bounds");
        assert(lesson_entry(12).id.len() != lesson_entry(1).id.len());
    } else if j == 13 {
        reveal_strlit("send_sync");
        assert(lesson_entry(13).id.len() != lesson_entry(1).id.len());
    } else if j == 14 {
        reveal_strlit("type_mismatches");
        assert(lesson_entry(14).id.len() != lesson_entry(1).id.len());
    } else if j == 15 {
        reveal_strlit("method_resolution");
        assert(lesson_entry(15).id.len() != lesson_entry(1).id.len());
    } else if j == 16 {
        reveal_strlit("closure_captures");
        assert(lesson_entry(16).id.len() != lesson_entry(1).id.len());
    } else if j == 17 {
        reveal_strlit("async_futures");
        assert(lesson_entry(17).id.len() != lesson_entry(1).id.len());
    } else if j == 18 {
        reveal_strlit("smart_pointers");
        assert(lesson_entry(18).id.len() != lesson_entry(1).id.len());
    } else if j == 19 {
        reveal_strlit("interior_mutability");
        assert(lesson_entry(19).id.len() != lesson_entry(1).id.len());
    } else if j == 20 {
        reveal_strlit("reinitialization");
        assert(lesson_entry(20).id.len() != lesson_entry(1).id.len());
    } else if j == 21 {
        reveal_strlit("drop");
        assert(lesson_entry(21).id.len() != lesson_entry(1).id.len());
    }
}

proof fn lemma_lesson_id_2_is_unique(j: int)
    requires
        0 <= j < lesson_count(),
        j != 2,
    ensures
        lesson_entry(j).id != lesson_entry(2).id,
{
    reveal_strlit("partial_moves");
    if j == 0 {
        reveal_strlit("ownership");
        assert(lesson_entry(0).id.len() != lesson_entry(2).id.len());
    } else if j == 1 {
        reveal_strlit("moves");
        assert(lesson_entry(1).id.len() != lesson_entry(2).id.len());
    } else if j == 3 {
        reveal_strlit("borrow_conflicts");
        assert(lesson_entry(3).id.len() != lesson_entry(2).id.len());
    } else if j == 4 {
        reveal_strlit("exclusive_borrow");
        assert(lesson_entry(4).id.len() != lesson_entry(2).id.len());
    } else if j == 5 {
        reveal_strlit("moves_and_borrows");
        assert(lesson_entry(5).id.len() != lesson_entry(2).id.len());
    } else if j == 6 {
        reveal_strlit("non_lexical_lifetimes");
        assert(lesson_entry(6).id.len() != lesson_entry(2).id.len());
    } else if j == 7 {
        reveal_strlit("mutability_contracts");
        assert(lesson_entry(7).id.len() != lesson_entry(2).id.len());
    } else if j == 8 {
        reveal_strlit("method_receivers");
        assert(lesson_entry(8).id.len() != lesson_entry(2).id.len());
    } else if j == 9 {
        reveal_strlit("lifetimes");
        assert(lesson_entry(9).id.len() != lesson_entry(2).id.len());
    } else if j == 10 {
        reveal_strlit("returning_references");
        assert(lesson_entry(10).id.len() != lesson_entry(2).id.len());
    } else if j == 11 {
        reveal_strlit("temporary_lifetimes");
        assert(lesson_entry(11).id.len() != lesson_entry(2).id.len());
    } else if j == 12 {
        reveal_strlit("trait_bounds");
        assert(lesson_entry(12).id.len() != lesson_entry(2).id.len());
    } else if j == 13 {
        reveal_strlit("send_sync");
        assert(lesson_entry(13).id.len() != lesson_entry(2).id.len());
    } else if j == 14 {
        reveal_strlit("type_mismatches");
        assert(lesson_entry(14).id.len() != lesson_entry(2).id.len());
    } else if j == 15 {
        reveal_strlit("method_resolution");
        assert(lesson_entry(15).id.len() != lesson_entry(2).id.len());
    } else if j == 16 {
        reveal_strlit("closure_captures");
        assert(lesson_entry(16).id.len() != lesson_entry(2).id.len());
    } else if j == 17 {
        reveal_strlit("async_futures");
        assert(lesson_entry(17).id[0] != lesson_entry(2).id[0]);
    } else if j == 18 {
        reveal_strlit("smart_pointers");
        assert(lesson_entry(18).id.len() != lesson_entry(2).id.len());
    } else if j == 19 {
        reveal_strlit("interior_mutability");
        assert(lesson_entry(19).id.len() != lesson_entry(2).id.len());
    } else if j == 20 {
        reveal_strlit("reinitialization");
        assert(lesson_entry(20).id.len() != lesson_entry(2).id.len());
    } else if j == 21 {
        reveal_strlit("drop");
        assert(lesson_entry(21).id.len() != lesson_entry(2).id.len());
    }
}

proof fn lemma_lesson_id_3_is_unique(j: int)
    requires
        0 <= j < lesson_count(),
        j != 3,
    ensures
        lesson_entry(j).id != lesson_entry(3).id,
{
    reveal_strlit("borrow_conflicts");
    if j == 0 {
        reveal_strlit("ownership");
        assert(lesson_entry(0).id.len() != lesson_entry(3).id.len());
    } else if j == 1 {
        reveal_strlit("moves");
        assert(lesson_entry(1).id.len() != lesson_entry(3).id.len());
    } else if j == 2 {
        reveal_strlit("partial_moves");
        assert(lesson_entry(2).id.len() != lesson_entry(3).id.len());
    } else if j == 4 {
        reveal_strlit("exclusive_borrow");
        assert(lesson_entry(4).id[0] != lesson_entry(3).id[0]);
    } else if j == 5 {
        reveal_strlit("moves_and_borrows");
        assert(lesson_entry(5).id.len() != lesson_entry(3).id.len());
    } else if j == 6 {
        reveal_strlit("non_lexical_lifetimes");
        assert(lesson_entry(6).id.len() != lesson_entry(3).id.len());
    } else if j == 7 {
        reveal_strlit("mutability_contracts");
        assert(lesson_entry(7).id.len() != lesson_entry(3).id.len());
    } else if j == 8 {
        reveal_strlit("method_receivers");
        assert(lesson_entry(8).id[0] != lesson_entry(3).id[0]);
    } else if j == 9 {
        reveal_strlit("lifetimes");
        assert(lesson_entry(9).id.len() != lesson_entry(3).id.len());
    } else if j == 10 {
        reveal_strlit("returning_references");
        assert(lesson_entry(10).id.len() != lesson_entry(3).id.len());
    } else if j == 11 {
        reveal_strlit("temporary_lifetimes");
        assert(lesson_entry(11).id.len() != lesson_entry(3).id.len());
    } else if j == 12 {
        reveal_strlit("trait_bounds");
        assert(lesson_entry(12).id.len() != lesson_entry(3).id.len());
    } else if j == 13 {
        reveal_strlit("send_sync");
        assert(lesson_entry(13).id.len() != lesson_entry(3).id.len());
    } else if j == 14 {
        reveal_strlit("type_mismatches");
        assert(lesson_entry(14).id.len() != lesson_entry(3).id.len());
    } else if j == 15 {
        reveal_strlit("method_resolution");
        assert(lesson_entry(15).id.len() != lesson_entry(3).id.len());
    } else if j == 16 {
        reveal_strlit("closure_captures");
        assert(lesson_entry(16).id[0] != lesson_entry(3).id[0]);
    } else if j == 17 {
        reveal_strlit("async_futures");
        assert(lesson_entry(17).id.len() != lesson_entry(3).id.len());
    } else if j == 18 {
        reveal_strlit("smart_pointers");
        assert(lesson_entry(18).id.len() != lesson_entry(3).id.len());
    } else if j == 19 {
        reveal_strlit("interior_mutability");
        assert(lesson_entry(19).id.len() != lesson_entry(3).id.len());
    } else if j == 20 {
        reveal_strlit("reinitialization");
        assert(lesson_entry(20).id[0] != lesson_entry(3).id[0]);
    } else if j == 21 {
        reveal_strlit("drop");
        assert(lesson_entry(21).id.len() != lesson_entry(3).id.len());
    }
}

proof fn lemma_lesson_id_4_is_unique(j: int)
    requires
        0 <= j < lesson_count(),
        j != 4,
    ensures
        lesson_entry(j).id != lesson_entry(4).id,
{
    reveal_strlit("exclusive_borrow");
    if j == 0 {
        reveal_strlit("ownership");
        assert(lesson_entry(0).id.len() != lesson_entry(4).id.len());
    } else if j == 1 {
        reveal_strlit("moves");
        assert(lesson_entry(1).id.len() != lesson_entry(4).id.len());
    } else if j == 2 {
        reveal_strlit("partial_moves");
        assert(lesson_entry(2).id.len() != lesson_entry(4).id.len());
    } else if j == 3 {
        reveal_strlit("borrow_conflicts");
        assert(lesson_entry(3).id[0] != lesson_entry(4).id[0]);
    } else if j == 5 {
        reveal_strlit("moves_and_borrows");
        assert(lesson_entry(5).id.len() != lesson_entry(4).id.len());
    } else if j == 6 {
        reveal_strlit("non_lexical_lifetimes");
        assert(lesson_entry(6).id.len() != lesson_entry(4).id.len());
    } else if j == 7 {
        reveal_strlit("mutability_contracts");
        assert(lesson_entry(7).id.len() != lesson_entry(4).id.len());
    } else if j == 8 {
        reveal_strlit("method_receivers");
        assert(lesson_entry(8).id[0] != lesson_entry(4).id[0]);
    } else if j == 9 {
        reveal_strlit("lifetimes");
        assert(lesson_entry(9).id.len() != lesson_entry(4).id.len());
    } else if j == 10 {
        reveal_strlit("returning_references");
        assert(lesson_entry(10).id.len() != lesson_entry(4).id.len());
    } else if j == 11 {
        reveal_strlit("temporary_lifetimes");
        assert(lesson_entry(11).id.len() != lesson_entry(4).id.len());
    } else if j == 12 {
        reveal_strlit("trait_bounds");
        assert(lesson_entry(12).id.len() != lesson_entry(4).id.len());
    } else if j == 13 {
        reveal_strlit("send_sync");
        assert(lesson_entry(13).id.len() != lesson_entry(4).id.len());
    } else if j == 14 {
        reveal_strlit("type_mismatches");
        assert(lesson_entry(14).id.len() != lesson_entry(4).id.len());
    } else if j == 15 {
        reveal_strlit("method_resolution");
        assert(lesson_entry(15).id.len() != lesson_entry(4).id.len());
    } else if j == 16 {
        reveal_strlit("closure_captures");
        assert(lesson_entry(16).id[0] != lesson_entry(4).id[0]);
    } else if j == 17 {
        reveal_strlit("async_futures");
        assert(lesson_entry(17).id.len() != lesson_entry(4).id.len());
    } else if j == 18 {
        reveal_strlit("smart_pointers");
        assert(lesson_entry(18).id.len() != lesson_entry(4).id.len());
    } else if j == 19 {
        reveal_strlit("interior_mutability");
        assert(lesson_entry(19).id.len() != lesson_entry(4).id.len());
    } else if j == 20 {
        reveal_strlit("reinitialization");
        assert(lesson_entry(20).id[0] != lesson_entry(4).id[0]);
    } else if j == 21 {
        reveal_strlit("drop");
        assert(lesson_entry(21).id.len() != lesson_entry(4).id.len());
    }
}

proof fn lemma_lesson_id_5_is_unique(j: int)
    requires
        0 <= j < lesson_count(),
        j != 5,
    ensures
        lesson_entry(j).id != lesson_entry(5).id,
{
    reveal_strlit("moves_and_borrows");
    if j == 0 {
        reveal_strlit("ownership");
        assert(lesson_entry(0).id.len() != lesson_entry(5).id.len());
    } else if j == 1 {
        reveal_strlit("moves");
        assert(lesson_entry(1).id.len() != lesson_entry(5).id.len());
    } else if j == 2 {
        reveal_strlit("partial_moves");
        assert(lesson_entry(2).id.len() != lesson_entry(5).id.len());
    } else if j == 3 {
        reveal_strlit("borrow_conflicts");
        assert(lesson_entry(3).id.len() != lesson_entry(5).id.len());
    } else if j == 4 {
        reveal_strlit("exclusive_borrow");
        assert(lesson_entry(4).id.len() != lesson_entry(5).id.len());
    } else if j == 6 {
        reveal_strlit("non_lexical_lifetimes");
        assert(lesson_entry(6).id.len() != lesson_entry(5).id.len());
    } else if j == 7 {
        reveal_strlit("mutability_contracts");
        assert(lesson_entry(7).id.len() != lesson_entry(5).id.len());
    } else if j == 8 {
        reveal_strlit("method_receivers");
        assert(lesson_entry(8).id.len() != lesson_entry(5).id.len());
    } else if j == 9 {
        reveal_strlit("lifetimes");
        assert(lesson_entry(9).id.len() != lesson_entry(5).id.len());
    } else if j == 10 {
        reveal_strlit("returning_references");
        assert(lesson_entry(10).id.len() != lesson_entry(5).id.len());
    } else if j == 11 {
        reveal_strlit("temporary_lifetimes");
        assert(lesson_entry(11).id.len() != lesson_entry(5).id.len());
    } else if j == 12 {
        reveal_strlit("trait_bounds");
        assert(lesson_entry(12).id.len() != lesson_entry(5).id.len());
    } else if j == 13 {
        reveal_strlit("send_sync");
        assert(lesson_entry(13).id.len() != lesson_entry(5).id.len());
    } else if j == 14 {
        reveal_strlit("type_mismatches");
        assert(lesson_entry(14).id.len() != lesson_entry(5).id.len());
    } else if j == 15 {
        reveal_strlit("method_resolution");
        assert(lesson_entry(15).id[1] != lesson_entry(5).id[1]);
    } else if j == 16 {
        reveal_strlit("closure_captures");
        assert(lesson_entry(16).id.len() != lesson_entry(5).id.len());
    } else if j == 17 {
        reveal_strlit("async_futures");
        assert(lesson_entry(17).id.len() != lesson_entry(5).id.len());
    } else if j == 18 {
        reveal_strlit("smart_pointers");
        assert(lesson_entry(18).id.len() != lesson_entry(5).id.len());
    } else if j == 19 {
        reveal_strlit("interior_mutability");
        assert(lesson_entry(19).id.len() != lesson_entry(5).id.len());
    } else if j == 20 {
        reveal_strlit("reinitialization");
        assert(lesson_entry(20).id.len() != lesson_entry(5).id.len());
    } else if j == 21 {
        reveal_strlit("drop");
        assert(lesson_entry(21).id.len() != lesson_entry(5).id.len());
    }
}

proof fn lemma_lesson_id_6_is_unique(j: int)
    requires
        0 <= j < lesson_count(),
        j != 6,
    ensures
        lesson_entry(j).id != lesson_entry(6).id,
{
    reveal_strlit("non_lexical_lifetimes");
    if j == 0 {
        reveal_strlit("ownership");
        assert(lesson_entry(0).id.len() != lesson_entry(6).id.len());
    } else if j == 1 {
        reveal_strlit("moves");
        assert(lesson_entry(1).id.len() != lesson_entry(6).id.len());
    } else if j == 2 {
        reveal_strlit("partial_moves");
        assert(lesson_entry(2).id.len() != lesson_entry(6).id.len());
    } else if j == 3 {
        reveal_strlit("borrow_conflicts");
        assert(lesson_entry(3).id.len() != lesson_entry(6).id.len());
    } else if j == 4 {
        reveal_strlit("exclusive_borrow");
        assert(lesson_entry(4).id.len() != lesson_entry(6).id.len());
    } else if j == 5 {
        reveal_strlit("moves_and_borrows");
        assert(lesson_entry(5).id.len() != lesson_entry(6).id.len());
    } else if j == 7 {
        reveal_strlit("mutability_contracts");
        assert(lesson_entry(7).id.len() != lesson_entry(6).id.len());
    } else if j == 8 {
        reveal_strlit("method_receivers");
        assert(lesson_entry(8).id.len() != lesson_entry(6).id.len());
    } else if j == 9 {
        reveal_strlit("lifetimes");
        assert(lesson_entry(9).id.len() != lesson_entry(6).id.len());
    } else if j == 10 {
        reveal_strlit("returning_references");
        assert(lesson_entry(10).id.len() != lesson_entry(6).id.len());
    } else if j == 11 {
        reveal_strlit("temporary_lifetimes");
        assert(lesson_entry(11).id.len() != lesson_entry(6).id.len());
    } else if j == 12 {
        reveal_strlit("trait_bounds");
        assert(lesson_entry(12).id.len() != lesson_entry(6).id.len());
    } else if j == 13 {
        reveal_strlit("send_sync");
        assert(lesson_entry(13).id.len() != lesson_entry(6).id.len());
    } else if j == 14 {
        reveal_strlit("type_mismatches");
        assert(lesson_entry(14).id.len() != lesson_entry(6).id.len());
    } else if j == 15 {
        reveal_strlit("method_resolution");
        assert(lesson_entry(15).id.len() != lesson_entry(6).id.len());
    } else if j == 16 {
        reveal_strlit("closure_captures");
        assert(lesson_entry(16).id.len() != lesson_entry(6).id.len());
    } else if j == 17 {
        reveal_strlit("async_futures");
        assert(lesson_entry(17).id.len() != lesson_entry(6).id.len());
    } else if j == 18 {
        reveal_strlit("smart_pointers");
        assert(lesson_entry(18).id.len() != lesson_entry(6).id.len());
    } else if j == 19 {
        reveal_strlit("interior_mutability");
        assert(lesson_entry(19).id.len() != lesson_entry(6).id.len());
    } else if j == 20 {
        reveal_strlit("reinitialization");
        assert(lesson_entry(20).id.len() != lesson_entry(6).id.len());
    } else if j == 21 {
        reveal_strlit("drop");
        assert(lesson_entry(21).id.len() != lesson_entry(6).id.len());
    }
}

proof fn lemma_lesson_id_7_is_unique(j: int)
    requires
        0 <= j < lesson_count(),
        j != 7,
    ensures
        lesson_entry(j).id != lesson_entry(7).id,
{
    reveal_strlit("mutability_contracts");
    if j == 0 {
        reveal_strlit("ownership");
        assert(lesson_entry(0).id.len() != lesson_entry(7).id.len());
    } else if j == 1 {
        reveal_strlit("moves");
        assert(lesson_entry(1).id.len() != lesson_entry(7).id.len());
    } else if j == 2 {
        reveal_strlit("partial_moves");
        assert(lesson_entry(2).id.len() != lesson_entry(7).id.len());
    } else if j == 3 {
        reveal_strlit("borrow_conflicts");
        assert(lesson_entry(3).id.len() != lesson_entry(7).id.len());
    } else if j == 4 {
        reveal_strlit("exclusive_borrow");
        assert(lesson_entry(4).id.len() != lesson_entry(7).id.len());
    } else if j == 5 {
        reveal_strlit("moves_and_borrows");
        assert(lesson_entry(5).id.len() != lesson_entry(7).id.len());
    } else if j == 6 {
        reveal_strlit("non_lexical_lifetimes");
        assert(lesson_entry(6).id.len() != lesson_entry(7).id.len());
    } else if j == 8 {
        reveal_strlit("method_receivers");
        assert(lesson_entry(8).id.len() != lesson_entry(7).id.len());
    } else if j == 9 {
        reveal_strlit("lifetimes");
        assert(lesson_entry(9).id.len() != lesson_entry(7).id.len());
    } else if j == 10 {
        reveal_strlit("returning_references");
        assert(lesson_entry(10).id[0] != lesson_entry(7).id[0]);
    } else if j == 11 {
        reveal_strlit("temporary_lifetimes");
        assert(lesson_entry(11).id.len() != lesson_entry(7).id.len());
    } else if j == 12 {
        reveal_strlit("trait_bounds");
        assert(lesson_entry(12).id.len() != lesson_entry(7).id.len());
    } else if j == 13 {
        reveal_strlit("send_sync");
        assert(lesson_entry(13).id.len() != lesson_entry(7).id.len());
    } else if j == 14 {
        reveal_strlit("type_mismatches");
        assert(lesson_entry(14).id.len() != lesson_entry(7).id.len());
    } else if j == 15 {
        reveal_strlit("method_resolution");
        assert(lesson_entry(15).id.len() != lesson_entry(7).id.len());
    } else if j == 16 {
        reveal_strlit("closure_captures");
        assert(lesson_entry(16).id.len() != lesson_entry(7).id.len());
    } else if j == 17 {
        reveal_strlit("async_futures");
        assert(lesson_entry(17).id.len() != lesson_entry(7).id.len());
    } else if j == 18 {
        reveal_strlit("smart_pointers");
        assert(lesson_entry(18).id.len() != lesson_entry(7).id.len());
    } else if j == 19 {
        reveal_strlit("interior_mutability");
        assert(lesson_entry(19).id.len() != lesson_entry(7).id.len());
    } else if j == 20 {
        reveal_strlit("reinitialization");
        assert(lesson_entry(20).id.len() != lesson_entry(7).id.len());
    } else if j == 21 {
        reveal_strlit("drop");
        assert(lesson_entry(21).id.len() != lesson_entry(7).id.len());
    }
}

proof fn lemma_lesson_id_8_is_unique(j: int)
    requires
        0 <= j < lesson_count(),
        j != 8,
    ensures
        lesson_entry(j).id != lesson_entry(8).id,
{
    reveal_strlit("method_receivers");
    if j == 0 {
        reveal_strlit("ownership");
        assert(lesson_entry(0).id.len() != lesson_entry(8).id.len());
    } else if j == 1 {
        reveal_strlit("moves");
        assert(lesson_entry(1).id.len() != lesson_entry(8).id.len());
    } else if j == 2 {
        reveal_strlit("partial_moves");
        assert(lesson_entry(2).id.len() != lesson_entry(8).id.len());
    } else if j == 3 {
        reveal_strlit("borrow_conflicts");
        assert(lesson_entry(3).id[0] != lesson_entry(8).id[0]);
    } else if j == 4 {
        reveal_strlit("exclusive_borrow");
        assert(lesson_entry(4).id[0] != lesson_entry(8).id[0]);
    } else if j == 5 {
        reveal_strlit("moves_and_borrows");
        assert(lesson_entry(5).id.len() != lesson_entry(8).id.len());
    } else if j == 6 {
        reveal_strlit("non_lexical_lifetimes");
        assert(lesson_entry(6).id.len() != lesson_entry(8).id.len());
    } else if j == 7 {
        reveal_strlit("mutability_contracts");
        assert(lesson_entry(7).id.len() != lesson_entry(8).id.len());
    } else if j == 9 {
        reveal_strlit("lifetimes");
        assert(lesson_entry(9).id.len() != lesson_entry(8).id.len());
    } else if j == 10 {
        reveal_strlit("returning_references");
        assert(lesson_entry(10).id.len() != lesson_entry(8).id.len());
    } else if j == 11 {
        reveal_strlit("temporary_lifetimes");
        assert(lesson_entry(11).id.len() != lesson_entry(8).id.len());
    } else if j == 12 {
        reveal_strlit("trait_bounds");
        assert(lesson_entry(12).id.len() != lesson_entry(8).id.len());
    } else if j == 13 {
        reveal_strlit("send_sync");
        assert(lesson_entry(13).id.len() != lesson_entry(8).id.len());
    } else if j == 14 {
        reveal_strlit("type_mismatches");
        assert(lesson_entry(14).id.len() != lesson_entry(8).id.len());
    } else if j == 15 {
        reveal_strlit("method_resolution");
        assert(lesson_entry(15).id.len() != lesson_entry(8).id.len());
    } else if j == 16 {
        reveal_strlit("closure_captures");
        assert(lesson_entry(16).id[0] != lesson_entry(8).id[0]);
    } else if j == 17 {
        reveal_strlit("async_futures");
        assert(lesson_entry(17).id.len() != lesson_entry(8).id.len());
    } else if j == 18 {
        reveal_strlit("smart_pointers");
        assert(lesson_entry(18).id.len() != lesson_entry(8).id.len());
    } else if j == 19 {
        reveal_strlit("interior_mutability");
        assert(lesson_entry(19).id.len() != lesson_entry(8).id.len());
    } else if j == 20 {
        reveal_strlit("reinitialization");
        assert(lesson_entry(20).id[0] != lesson_entry(8).id[0]);
    } else if j == 21 {
        reveal_strlit("drop");
        assert(lesson_entry(21).id.len() != lesson_entry(8).id.len());
    }
}

proof fn lemma_lesson_id_9_is_unique(j: int)
    requires
        0 <= j < lesson_count(),
        j != 9,
    ensures
        lesson_entry(j).id != lesson_entry(9).id,
{
    reveal_strlit("lifetimes");
    if j == 0 {
        reveal_strlit("ownership");
        assert(lesson_entry(0).id[0] != lesson_entry(9).id[0]);
    } else if j == 1 {
        reveal_strlit("moves");
        assert(lesson_entry(1).id.len() != lesson_entry(9).id.len());
    } else if j == 2 {
        reveal_strlit("partial_moves");
        assert(lesson_entry(2).id.len() != lesson_entry(9).id.len());
    } else if j == 3 {
        reveal_strlit("borrow_conflicts");
        assert(lesson_entry(3).id.len() != lesson_entry(9).id.len());
    } else if j == 4 {
        reveal_strlit("exclusive_borrow");
        assert(lesson_entry(4).id.len() != lesson_entry(9).id.len());
    } else if j == 5 {
        reveal_strlit("moves_and_borrows");
        assert(lesson_entry(5).id.len() != lesson_entry(9).id.len());
    } else if j == 6 {
        reveal_strlit("non_lexical_lifetimes");
        assert(lesson_entry(6).id.len() != lesson_entry(9).id.len());
    } else if j == 7 {
        reveal_strlit("mutability_contracts");
        assert(lesson_entry(7).id.len() != lesson_entry(9).id.len());
    } else if j == 8 {
        reveal_strlit("method_receivers");
        assert(lesson_entry(8).id.len() != lesson_entry(9).id.len());
    } else if j == 10 {
        reveal_strlit("returning_references");
        assert(lesson_entry(10).id.len() != lesson_entry(9).id.len());
    } else if j == 11 {
        reveal_strlit("temporary_lifetimes");
        assert(lesson_entry(11).id.len() != lesson_entry(9).id.len());
    } else if j == 12 {
        reveal_strlit("trait_bounds");
        assert(lesson_entry(12).id.len() != lesson_entry(9).id.len());
    } else if j == 13 {
        reveal_strlit("send_sync");
        assert(lesson_entry(13).id[0] != lesson_entry(9).id[0]);
    } else if j == 14 {
        reveal_strlit("type_mismatches");
        assert(lesson_entry(14).id.len() != lesson_entry(9).id.len());
    } else if j == 15 {
        reveal_strlit("method_resolution");
        assert(lesson_entry(15).id.len() != lesson_entry(9).id.len());
    } else if j == 16 {
        reveal_strlit("closure_captures");
        assert(lesson_entry(16).id.len() != lesson_entry(9).id.len());
    } else if j == 17 {
        reveal_strlit("async_futures");
        assert(lesson_entry(17).id.len() != lesson_entry(9).id.len());
    } else if j == 18 {
        reveal_strlit("smart_pointers");
        assert(lesson_entry(18).id.len() != lesson_entry(9).id.len());
    } else if j == 19 {
        reveal_strlit("interior_mutability");
        assert(lesson_entry(19).id.len() != lesson_entry(9).id.len());
    } else if j == 20 {
        reveal_strlit("reinitialization");
        assert(lesson_entry(20).id.len() != lesson_entry(9).id.len());
    } else if j == 21 {
        reveal_strlit("drop");
        assert(lesson_entry(21).id.len() != lesson_entry(9).id.len());
    }
}

proof fn lemma_lesson_id_10_is_unique(j: int)
    requires
        0 <= j < lesson_count(),
        j != 10,
    ensures
        lesson_entry(j).id != lesson_entry(10).id,
{
    reveal_strlit("returning_references");
    if j == 0 {
        reveal_strlit("ownership");
        assert(lesson_entry(0).id.len() != lesson_entry(10).id.len());
    } else if j == 1 {
        reveal_strlit("moves");
        assert(lesson_entry(1).id.len() != lesson_entry(10).id.len());
    } else if j == 2 {
        reveal_strlit("partial_moves");
        assert(lesson_entry(2).id.len() != lesson_entry(10).id.len());
    } else if j == 3 {
        reveal_strlit("borrow_conflicts");
        assert(lesson_entry(3).id.len() != lesson_entry(10).id.len());
    } else if j == 4 {
        reveal_strlit("exclusive_borrow");
        assert(lesson_entry(4).id.len() != lesson_entry(10).id.len());
    } else if j == 5 {
        reveal_strlit("moves_and_borrows");
        assert(lesson_entry(5).id.len() != lesson_entry(10).id.len());
    } else if j == 6 {
        reveal_strlit("non_lexical_lifetimes");
        assert(lesson_entry(6).id.len() != lesson_entry(10).id.len());
    } else if j == 7 {
        reveal_strlit("mutability_contracts");
        assert(lesson_entry(7).id[0] != lesson_entry(10).id[0]);
    } else if j == 8 {
        reveal_strlit("method_receivers");
        assert(lesson_entry(8).id.len() != lesson_entry(10).id.len());
    } else if j == 9 {
        reveal_strlit("lifetimes");
        assert(lesson_entry(9).id.len() != lesson_entry(10).id.len());
    } else if j == 11 {
        reveal_strlit("temporary_lifetimes");
        assert(lesson_entry(11).id.len() != lesson_entry(10).id.len());
    } else if j == 12 {
        reveal_strlit("trait_bounds");
        assert(lesson_entry(12).id.len() != lesson_entry(10).id.len());
    } else if j == 13 {
        reveal_strlit("send_sync");
        assert(lesson_entry(13).id.len() != lesson_entry(10).id.len());
    } else if j == 14 {
        reveal_strlit("type_mismatches");
        assert(lesson_entry(14).id.len() != lesson_entry(10).id.len());
    } else if j == 15 {
        reveal_strlit("method_resolution");
        assert(lesson_entry(15).id.len() != lesson_entry(10).id.len());
    } else if j == 16 {
        reveal_strlit("closure_captures");
        assert(lesson_entry(16).id.len() != lesson_entry(10).id.len());
    } else if j == 17 {
        reveal_strlit("async_futures");
        assert(lesson_entry(17).id.len() != lesson_entry(10).id.len());
    } else if j == 18 {
        reveal_strlit("smart_pointers");
        assert(lesson_entry(18).id.len() != lesson_entry(10).id.len());
    } else if j == 19 {
        reveal_strlit("interior_mutability");
        assert(lesson_entry(19).id.len() != lesson_entry(10).id.len());
    } else if j == 20 {
        reveal_strlit("reinitialization");
        assert(lesson_entry(20).id.len() != lesson_entry(10).id.len());
    } else if j == 21 {
        reveal_strlit("drop");
        assert(lesson_entry(21).id.len() != lesson_entry(10).id.len());
    }
}

proof fn lemma_lesson_id_11_is_unique(j: int)
    requires
        0 <= j < lesson_count(),
        j != 11,
    ensures
        lesson_entry(j).id != lesson_entry(11).id,
{
    reveal_strlit("temporary_lifetimes");
    if j == 0 {
        reveal_strlit("ownership");
        assert(lesson_entry(0).id.len() != lesson_entry(11).id.len());
    } else if j == 1 {
        reveal_strlit("moves");
        assert(lesson_entry(1).id.len() != lesson_entry(11).id.len());
    } else if j == 2 {
        reveal_strlit("partial_moves");
        assert(lesson_entry(2).id.len() != lesson_entry(11).id.len());
    } else if j == 3 {
        reveal_strlit("borrow_conflicts");
        assert(lesson_entry(3).id.len() != lesson_entry(11).id.len());
    } else if j == 4 {
        reveal_strlit("exclusive_borrow");
        assert(lesson_entry(4).id.len() != lesson_entry(11).id.len());
    } else if j == 5 {
        reveal_strlit("moves_and_borrows");
        assert(lesson_entry(5).id.len() != lesson_entry(11).id.len());
    } else if j == 6 {
        reveal_strlit("non_lexical_lifetimes");
        assert(lesson_entry(6).id.len() != lesson_entry(11).id.len());
    } else if j == 7 {
        reveal_strlit("mutability_contracts");
        assert(lesson_entry(7).id.len() != lesson_entry(11).id.len());
    } else if j == 8 {
        reveal_strlit("method_receivers");
        assert(lesson_entry(8).id.len() != lesson_entry(11).id.len());
    } else if j == 9 {
        reveal_strlit("lifetimes");
        assert(lesson_entry(9).id.len() != lesson_entry(11).id.len());
    } else if j == 10 {
        reveal_strlit("returning_references");
        assert(lesson_entry(10).id.len() != lesson_entry(11).id.len());
    } else if j == 12 {
        reveal_strlit("trait_bounds");
        assert(lesson_entry(12).id.len() != lesson_entry(11).id.len());
    } else if j == 13 {
        reveal_strlit("send_sync");
        assert(lesson_entry(13).id.len() != lesson_entry(11).id.len());
    } else if j == 14 {
        reveal_strlit("type_mismatches");
        assert(lesson_entry(14).id.len() != lesson_entry(11).id.len());
    } else if j == 15 {
        reveal_strlit("method_resolution");
        assert(lesson_entry(15).id.len() != lesson_entry(11).id.len());
    } else if j == 16 {
        reveal_strlit("closure_captures");
        assert(lesson_entry(16).id.len() != lesson_entry(11).id.len());
    } else if j == 17 {
        reveal_strlit("async_futures");
        assert(lesson_entry(17).id.len() != lesson_entry(11).id.len());
    } else if j == 18 {
        reveal_strlit("smart_pointers");
        assert(lesson_entry(18).id.len() != lesson_entry(11).id.len());
    } else if j == 19 {
        reveal_strlit("interior_mutability");
        assert(lesson_entry(19).id[0] != lesson_entry(11).id[0]);
    } else if j == 20 {
        reveal_strlit("reinitialization");
        assert(lesson_entry(20).id.len() != lesson_entry(11).id.len());
    } else if j == 21 {
        reveal_strlit("drop");
        assert(lesson_entry(21).id.len() != lesson_entry(11).id.len());
    }
}

proof fn lemma_lesson_id_12_is_unique(j: int)
    requires
        0 <= j < lesson_count(),
        j != 12,
    ensures
        lesson_entry(j).id != lesson_entry(12).id,
{
    reveal_strlit("trait_bounds");
    if j == 0 {
        reveal_strlit("ownership");
        assert(lesson_entry(0).id.len() != lesson_entry(12).id.len());
    } else if j == 1 {
        reveal_strlit("moves");
        assert(lesson_entry(1).id.len() != lesson_entry(12).id.len());
    } else if j == 2 {
        reveal_strlit("partial_moves");
        assert(lesson_entry(2).id.len() != lesson_entry(12).id.len());
    } else if j == 3 {
        reveal_strlit("borrow_conflicts");
        assert(lesson_entry(3).id.len() != lesson_entry(12).id.len());
    } else if j == 4 {
        reveal_strlit("exclusive_borrow");
        assert(lesson_entry(4).id.len() != lesson_entry(12).id.len());
    } else if j == 5 {
        reveal_strlit("moves_and_borrows");
        assert(lesson_entry(5).id.len() != lesson_entry(12).id.len());
    } else if j == 6 {
        reveal_strlit("non_lexical_lifetimes");
        assert(lesson_entry(6).id.len() != lesson_entry(12).id.len());
    } else if j == 7 {
        reveal_strlit("mutability_contracts");
        assert(lesson_entry(7).id.len() != lesson_entry(12).id.len());
    } else if j == 8 {
        reveal_strlit("method_receivers");
        assert(lesson_entry(8).id.len() != lesson_entry(12).id.len());
    } else if j == 9 {
        reveal_strlit("lifetimes");
        assert(lesson_entry(9).id.len() != lesson_entry(12).id.len());
    } else if j == 10 {
        reveal_strlit("returning_references");
        assert(lesson_entry(10).id.len() != lesson_entry(12).id.len());
    } else if j == 11 {
        reveal_strlit("temporary_lifetimes");
        assert(lesson_entry(11).id.len() != lesson_entry(12).id.len());
    } else if j == 13 {
        reveal_strlit("send_sync");
        assert(lesson_entry(13).id.len() != lesson_entry(12).id.len());
    } else if j == 14 {
        reveal_strlit("type_mismatches");
        assert(lesson_entry(14).id.len() != lesson_entry(12).id.len());
    } else if j == 15 {
        reveal_strlit("method_resolution");
        assert(lesson_entry(15).id.len() != lesson_entry(12).id.len());
    } else if j == 16 {
        reveal_strlit("closure_captures");
        assert(lesson_entry(16).id.len() != lesson_entry(12).id.len());
    } else if j == 17 {
        reveal_strlit("async_futures");
        assert(lesson_entry(17).id.len() != lesson_entry(12).id.len());
    } else if j == 18 {
        reveal_strlit("smart_pointers");
        assert(lesson_entry(18).id.len() != lesson_entry(12).id.len());
    } else if j == 19 {
        reveal_strlit("interior_mutability");
        assert(lesson_entry(19).id.len() != lesson_entry(12).id.len());
    } else if j == 20 {
        reveal_strlit("reinitialization");
        assert(lesson_entry(20).id.len() != lesson_entry(12).id.len());
    } else if j == 21 {
        reveal_strlit("drop");
        assert(lesson_entry(21).id.len() != lesson_entry(12).id.len());
    }
}

proof fn lemma_lesson_id_13_is_unique(j: int)
    requires
        0 <= j < lesson_count(),
        j != 13,
    ensures
        lesson_entry(j).id != lesson_entry(13).id,
{
    reveal_strlit("send_sync");
    if j == 0 {
        reveal_strlit("ownership");
        assert(lesson_entry(0).id[0] != lesson_entry(13).id[0]);
    } else if j == 1 {
        reveal_strlit("moves");
        assert(lesson_entry(1).id.len() != lesson_entry(13).id.len());
    } else if j == 2 {
        reveal_strlit("partial_moves");
        assert(lesson_entry(2).id.len() != lesson_entry(13).id.len());
    } else if j == 3 {
        reveal_strlit("borrow_conflicts");
        assert(lesson_entry(3).id.len() != lesson_entry(13).id.len());
    } else if j == 4 {
        reveal_strlit("exclusive_borrow");
        assert(lesson_entry(4).id.len() != lesson_entry(13).id.len());
    } else if j == 5 {
        reveal_strlit("moves_and_borrows");
        assert(lesson_entry(5).id.len() != lesson_entry(13).id.len());
    } else if j == 6 {
        reveal_strlit("non_lexical_lifetimes");
        assert(lesson_entry(6).id.len() != lesson_entry(13).id.len());
    } else if j == 7 {
        reveal_strlit("mutability_contracts");
        assert(lesson_entry(7).id.len() != lesson_entry(13).id.len());
    } else if j == 8 {
        reveal_strlit("method_receivers");
        assert(lesson_entry(8).id.len() != lesson_entry(13).id.len());
    } else if j == 9 {
        reveal_strlit("lifetimes");
        assert(lesson_entry(9).id[0] != lesson_entry(13).id[0]);
    } else if j == 10 {
        reveal_strlit("returning_references");
        assert(lesson_entry(10).id.len() != lesson_entry(13).id.len());
    } else if j == 11 {
        reveal_strlit("temporary_lifetimes");
        assert(lesson_entry(11).id.len() != lesson_entry(13).id.len());
    } else if j == 12 {
        reveal_strlit("trait_bounds");
        assert(lesson_entry(12).id.len() != lesson_entry(13).id.len());
    } else if j == 14 {
        reveal_strlit("type_mismatches");
        assert(lesson_entry(14).id.len() != lesson_entry(13).id.len());
    } else if j == 15 {
        reveal_strlit("method_resolution");
        assert(lesson_entry(15).id.len() != lesson_entry(13).id.len());
    } else if j == 16 {
        reveal_strlit("closure_captures");
        assert(lesson_entry(16).id.len() != lesson_entry(13).id.len());
    } else if j == 17 {
        reveal_strlit("async_futures");
        assert(lesson_entry(17).id.len() != lesson_entry(13).id.len());
    } else if j == 18 {
        reveal_strlit("smart_pointers");
        assert(lesson_entry(18).id.len() != lesson_entry(13).id.len());
    } else if j == 19 {
        reveal_strlit("interior_mutability");
        assert(lesson_entry(19).id.len() != lesson_entry(13).id.len());
    } else if j == 20 {
        reveal_strlit("reinitialization");
        assert(lesson_entry(20).id.len() != lesson_entry(13).id.len());
    } else if j == 21 {
        reveal_strlit("drop");
        assert(lesson_entry(21).id.len() != lesson_entry(13).id.len());
    }
}

proof fn lemma_lesson_id_14_is_unique(j: int)
    requires
        0 <= j < lesson_count(),
        j != 14,
    ensures
        lesson_entry(j).id != lesson_entry(14).id,
{
    reveal_strlit("type_mismatches");
    if j == 0 {
        reveal_strlit("ownership");
        assert(lesson_entry(0).id.len() != lesson_entry(14).id.len());
    } else if j == 1 {
        reveal_strlit("moves");
        assert(lesson_entry(1).id.len() != lesson_entry(14).id.len());
    } else if j == 2 {
        reveal_strlit("partial_moves");
        assert(lesson_entry(2).id.len() != lesson_entry(14).id.len());
    } else if j == 3 {
        reveal_strlit("borrow_conflicts");
        assert(lesson_entry(3).id.len() != lesson_entry(14).id.len());
    } else if j == 4 {
        reveal_strlit("exclusive_borrow");
        assert(lesson_entry(4).id.len() != lesson_entry(14).id.len());
    } else if j == 5 {
        reveal_strlit("moves_and_borrows");
        assert(lesson_entry(5).id.len() != lesson_entry(14).id.len());
    } else if j == 6 {
        reveal_strlit("non_lexical_lifetimes");
        assert(lesson_entry(6).id.len() != lesson_entry(14).id.len());
    } else if j == 7 {
        reveal_strlit("mutability_contracts");
        assert(lesson_entry(7).id.len() != lesson_entry(14).id.len());
    } else if j == 8 {
        reveal_strlit("method_receivers");
        assert(lesson_entry(8).id.len() != lesson_entry(14).id.len());
    } else if j == 9 {
        reveal_strlit("lifetimes");
        assert(lesson_entry(9).id.len() != lesson_entry(14).id.len());
    } else if j == 10 {
        reveal_strlit("returning_references");
        assert(lesson_entry(10).id.len() != lesson_entry(14).id.len());
    } else if j == 11 {
        reveal_strlit("temporary_lifetimes");
        assert(lesson_entry(11).id.len() != lesson_entry(14).id.len());
    } else if j == 12 {
        reveal_strlit("trait_bounds");
        assert(lesson_entry(12).id.len() != lesson_entry(14).id.len());
    } else if j == 13 {
        reveal_strlit("send_sync");
        assert(lesson_entry(13).id.len() != lesson_entry(14).id.len());
    } else if j == 15 {
        reveal_strlit("method_resolution");
        assert(lesson_entry(15).id.len() != lesson_entry(14).id.len());
    } else if j == 16 {
        reveal_strlit("closure_captures");
        assert(lesson_entry(16).id.len() != lesson_entry(14).id.len());
    } else if j == 17 {
        reveal_strlit("async_futures");
        assert(lesson_entry(17).id.len() != lesson_entry(14).id.len());
    } else if j == 18 {
        reveal_strlit("smart_pointers");
        assert(lesson_entry(18).id.len() != lesson_entry(14).id.len());
    } else if j == 19 {
        reveal_strlit("interior_mutability");
        assert(lesson_entry(19).id.len() != lesson_entry(14).id.len());
    } else if j == 20 {
        reveal_strlit("reinitialization");
        assert(lesson_entry(20).id.len() != lesson_entry(14).id.len());
    } else if j == 21 {
        reveal_strlit("drop");
        assert(lesson_entry(21).id.len() != lesson_entry(14).id.len());
    }
}

proof fn lemma_lesson_id_15_is_unique(j: int)
    requires
        0 <= j < lesson_count(),
        j != 15,
    ensures
        lesson_entry(j).id != lesson_entry(15).id,
{
    reveal_strlit("method_resolution");
    if j == 0 {
        reveal_strlit("ownership");
        assert(lesson_entry(0).id.len() != lesson_entry(15).id.len());
    } else if j == 1 {
        reveal_strlit("moves");
        assert(lesson_entry(1).id.len() != lesson_entry(15).id.len());
    } else if j == 2 {
        reveal_strlit("partial_moves");
        assert(lesson_entry(2).id.len() != lesson_entry(15).id.len());
    } else if j == 3 {
        reveal_strlit("borrow_conflicts");
        assert(lesson_entry(3).id.len() != lesson_entry(15).id.len());
    } else if j == 4 {
        reveal_strlit("exclusive_borrow");
        assert(lesson_entry(4).id.len() != lesson_entry(15).id.len());
    } else if j == 5 {
        reveal_strlit("moves_and_borrows");
        assert(lesson_entry(5).id[1] != lesson_entry(15).id[1]);
    } else if j == 6 {
        reveal_strlit("non_lexical_lifetimes");
        assert(lesson_entry(6).id.len() != lesson_entry(15).id.len());
    } else if j == 7 {
        reveal_strlit("mutability_contracts");
        assert(lesson_entry(7).id.len() != lesson_entry(15).id.len());
    } else if j == 8 {
        reveal_strlit("method_receivers");
        assert(lesson_entry(8).id.len() != lesson_entry(15).id.len());
    } else if j == 9 {
        reveal_strlit("lifetimes");
        assert(lesson_entry(9).id.len() != lesson_entry(15).id.len());
    } else if j == 10 {
        reveal_strlit("returning_references");
        assert(lesson_entry(10).id.len() != lesson_entry(15).id.len());
    } else if j == 11 {
        reveal_strlit("temporary_lifetimes");
        assert(lesson_entry(11).id.len() != lesson_entry(15).id.len());
    } else if j == 12 {
        reveal_strlit("trait_bounds");
        assert(lesson_entry(12).id.len() != lesson_entry(15).id.len());
    } else if j == 13 {
        reveal_strlit("send_sync");
        assert(lesson_entry(13).id.len() != lesson_entry(15).id.len());
    } else if j == 14 {
        reveal_strlit("type_mismatches");
        assert(lesson_entry(14).id.len() != lesson_entry(15).id.len());
    } else if j == 16 {
        reveal_strlit("closure_captures");
        assert(lesson_entry(16).id.len() != lesson_entry(15).id.len());
    } else if j == 17 {
        reveal_strlit("async_futures");
        assert(lesson_entry(17).id.len() != lesson_entry(15).id.len());
    } else if j == 18 {
        reveal_strlit("smart_pointers");
        assert(lesson_entry(18).id.len() != lesson_entry(15).id.len());
    } else if j == 19 {
        reveal_strlit("interior_mutability");
        assert(lesson_entry(19).id.len() != lesson_entry(15).id.len());
    } else if j == 20 {
        reveal_strlit("reinitialization");
        assert(lesson_entry(20).id.len() != lesson_entry(15).id.len());
    } else if j == 21 {
        reveal_strlit("drop");
        assert(lesson_entry(21).id.len() != lesson_entry(15).id.len());
    }
}

proof fn lemma_lesson_id_16_is_unique(j: int)
    requires
        0 <= j < lesson_count(),
        j != 16,
    ensures
        lesson_entry(j).id != lesson_entry(16).id,
{
    reveal_strlit("closure_captures");
    if j == 0 {
        reveal_strlit("ownership");
        assert(lesson_entry(0).id.len() != lesson_entry(16).id.len());
    } else if j == 1 {
        reveal_strlit("moves");
        assert(lesson_entry(1).id.len() != lesson_entry(16).id.len());
    } else if j == 2 {
        reveal_strlit("partial_moves");
        assert(lesson_entry(2).id.len() != lesson_entry(16).id.len());
    } else if j == 3 {
        reveal_strlit("borrow_conflicts");
        assert(lesson_entry(3).id[0] != lesson_entry(16).id[0]);
    } else if j == 4 {
        reveal_strlit("exclusive_borrow");
        assert(lesson_entry(4).id[0] != lesson_entry(16).id[0]);
    } else if j == 5 {
        reveal_strlit("moves_and_borrows");
        assert(lesson_entry(5).id.len() != lesson_entry(16).id.len());
    } else if j == 6 {
        reveal_strlit("non_lexical_lifetimes");
        assert(lesson_entry(6).id.len() != lesson_entry(16).id.len());
    } else if j == 7 {
        reveal_strlit("mutability_contracts");
        assert(lesson_entry(7).id.len() != lesson_entry(16).id.len());
    } else if j == 8 {
        reveal_strlit("method_receivers");
        assert(lesson_entry(8).id[0] != lesson_entry(16).id[0]);
    } else if j == 9 {
        reveal_strlit("lifetimes");
        assert(lesson_entry(9).id.len() != lesson_entry(16).id.len());
    } else if j == 10 {
        reveal_strlit("returning_references");
        assert(lesson_entry(10).id.len() != lesson_entry(16).id.len());
    } else if j == 11 {
        reveal_strlit("temporary_lifetimes");
        assert(lesson_entry(11).id.len() != lesson_entry(16).id.len());
    } else if j == 12 {
        reveal_strlit("trait_bounds");
        assert(lesson_entry(12).id.len() != lesson_entry(16).id.len());
    } else if j == 13 {
        reveal_strlit("send_sync");
        assert(lesson_entry(13).id.len() != lesson_entry(16).id.len());
    } else if j == 14 {
        reveal_strlit("type_mismatches");
        assert(lesson_entry(14).id.len() != lesson_entry(16).id.len());
    } else if j == 15 {
        reveal_strlit("method_resolution");
        assert(lesson_entry(15).id.len() != lesson_entry(16).id.len());
    } else if j == 17 {
        reveal_strlit("async_futures");
        assert(lesson_entry(17).id.len() != lesson_entry(16).id.len());
    } else if j == 18 {
        reveal_strlit("smart_pointers");
        assert(lesson_entry(18).id.len() != lesson_entry(16).id.len());
    } else if j == 19 {
        reveal_strlit("interior_mutability");
        assert(lesson_entry(19).id.len() != lesson_entry(16).id.len());
    } else if j == 20 {
        reveal_strlit("reinitialization");
        assert(lesson_entry(20).id[0] != lesson_entry(16).id[0]);
    } else if j == 21 {
        reveal_strlit("drop");
        assert(lesson_entry(21).id.len() != lesson_entry(16).id.len());
    }
}

proof fn lemma_lesson_id_17_is_unique(j: int)
    requires
        0 <= j < lesson_count(),
        j != 17,
    ensures
        lesson_entry(j).id != lesson_entry(17).id,
{
    reveal_strlit("async_futures");
    if j == 0 {
        reveal_strlit("ownership");
        assert(lesson_entry(0).id.len() != lesson_entry(17).id.len());
    } else if j == 1 {
        reveal_strlit("moves");
        assert(lesson_entry(1).id.len() != lesson_entry(17).id.len());
    } else if j == 2 {
        reveal_strlit("partial_moves");
        assert(lesson_entry(2).id[0] != lesson_entry(17).id[0]);
    } else if j == 3 {
        reveal_strlit("borrow_conflicts");
        assert(lesson_entry(3).id.len() != lesson_entry(17).id.len());
    } else if j == 4 {
        reveal_strlit("exclusive_borrow");
        assert(lesson_entry(4).id.len() != lesson_entry(17).id.len());
    } else if j == 5 {
        reveal_strlit("moves_and_borrows");
        assert(lesson_entry(5).id.len() != lesson_entry(17).id.len());
    } else if j == 6 {
        reveal_strlit("non_lexical_lifetimes");
        assert(lesson_entry(6).id.len() != lesson_entry(17).id.len());
    } else if j == 7 {
        reveal_strlit("mutability_contracts");
        assert(lesson_entry(7).id.len() != lesson_entry(17).id.len());
    } else if j == 8 {
        reveal_strlit("method_receivers");
        assert(lesson_entry(8).id.len() != lesson_entry(17).id.len());
    } else if j == 9 {
        reveal_strlit("lifetimes");
        assert(lesson_entry(9).id.len() != lesson_entry(17).id.len());
    } else if j == 10 {
        reveal_strlit("returning_references");
        assert(lesson_entry(10).id.len() != lesson_entry(17).id.len());
    } else if j == 11 {
        reveal_strlit("temporary_lifetimes");
        assert(lesson_entry(11).id.len() != lesson_entry(17).id.len());
    } else if j == 12 {
        reveal_strlit("trait_bounds");
        assert(lesson_entry(12).id.len() != lesson_entry(17).id.len());
    } else if j == 13 {
        reveal_strlit("send_sync");
        assert(lesson_entry(13).id.len() != lesson_entry(17).id.len());
    } else if j == 14 {
        reveal_strlit("type_mismatches");
        assert(lesson_entry(14).id.len() != lesson_entry(17).id.len());
    } else if j == 15 {
        reveal_strlit("method_resolution");
        assert(lesson_entry(15).id.len() != lesson_entry(17).id.len());
    } else if j == 16 {
        reveal_strlit("closure_captures");
        assert(lesson_entry(16).id.len() != lesson_entry(17).id.len());
    } else if j == 18 {
        reveal_strlit("smart_pointers");
        assert(lesson_entry(18).id.len() != lesson_entry(17).id.len());
    } else if j == 19 {
        reveal_strlit("interior_mutability");
        assert(lesson_entry(19).id.len() != lesson_entry(17).id.len());
    } else if j == 20 {
        reveal_strlit("reinitialization");
        assert(lesson_entry(20).id.len() != lesson_entry(17).id.len());
    } else if j == 21 {
        reveal_strlit("drop");
        assert(lesson_entry(21).id.len() != lesson_entry(17).id.len());
    }
}

proof fn lemma_lesson_id_18_is_unique(j: int)
    requires
        0 <= j < lesson_count(),
        j != 18,
    ensures
        lesson_entry(j).id != lesson_entry(18).id,
{
    reveal_strlit("smart_pointers");
    if j == 0 {
        reveal_strlit("ownership");
        assert(lesson_entry(0).id.len() != lesson_entry(18).id.len());
    } else if j == 1 {
        reveal_strlit("moves");
        assert(lesson_entry(1).id.len() != lesson_entry(18).id.len());
    } else if j == 2 {
        reveal_strlit("partial_moves");
        assert(lesson_entry(2).id.len() != lesson_entry(18).id.len());
    } else if j == 3 {
        reveal_strlit("borrow_conflicts");
        assert(lesson_entry(3).id.len() != lesson_entry(18).id.len());
    } else if j == 4 {
        reveal_strlit("exclusive_borrow");
        assert(lesson_entry(4).id.len() != lesson_entry(18).id.len());
    } else if j == 5 {
        reveal_strlit("moves_and_borrows");
        assert(lesson_entry(5).id.len() != lesson_entry(18).id.len());
    } else if j == 6 {
        reveal_strlit("non_lexical_lifetimes");
        assert(lesson_entry(6).id.len() != lesson_entry(18).id.len());
    } else if j == 7 {
        reveal_strlit("mutability_contracts");
        assert(lesson_entry(7).id.len() != lesson_entry(18).id.len());
    } else if j == 8 {
        reveal_strlit("method_receivers");
        assert(lesson_entry(8).id.len() != lesson_entry(18).id.len());
    } else if j == 9 {
        reveal_strlit("lifetimes");
        assert(lesson_entry(9).id.len() != lesson_entry(18).id.len());
    } else if j == 10 {
        reveal_strlit("returning_references");
        assert(lesson_entry(10).id.len() != lesson_entry(18).id.len());
    } else if j == 11 {
        reveal_strlit("temporary_lifetimes");
        assert(lesson_entry(11).id.len() != lesson_entry(18).id.len());
    } else if j == 12 {
        reveal_strlit("trait_bounds");
        assert(lesson_entry(12).id.len() != lesson_entry(18).id.len());
    } else if j == 13 {
        reveal_strlit("send_sync");
        assert(lesson_entry(13).id.len() != lesson_entry(18).id.len());
    } else if j == 14 {
        reveal_strlit("type_mismatches");
        assert(lesson_entry(14).id.len() != lesson_entry(18).id.len());
    } else if j == 15 {
        reveal_strlit("method_resolution");
        assert(lesson_entry(15).id.len() != lesson_entry(18).id.len());
    } else if j == 16 {
        reveal_strlit("closure_captures");
        assert(lesson_entry(16).id.len() != lesson_entry(18).id.len());
    } else if j == 17 {
        reveal_strlit("async_futures");
        assert(lesson_entry(17).id.len() != lesson_entry(18).id.len());
    } else if j == 19 {
        reveal_strlit("interior_mutability");
        assert(lesson_entry(19).id.len() != lesson_entry(18).id.len());
    } else if j == 20 {
        reveal_strlit("reinitialization");
        assert(lesson_entry(20).id.len() != lesson_entry(18).id.len());
    } else if j == 21 {
        reveal_strlit("drop");
        assert(lesson_entry(21).id.len() != lesson_entry(18).id.len());
    }
}

proof fn lemma_lesson_id_19_is_unique(j: int)
    requires
        0 <= j < lesson_count(),
        j != 19,
    ensures
        lesson_entry(j).id != lesson_entry(19).id,
{
    reveal_strlit("interior_mutability");
    if j == 0 {
        reveal_strlit("ownership");
        assert(lesson_entry(0).id.len() != lesson_entry(19).id.len());
    } else if j == 1 {
        reveal_strlit("moves");
        assert(lesson_entry(1).id.len() != lesson_entry(19).id.len());
    } else if j == 2 {
        reveal_strlit("partial_moves");
        assert(lesson_entry(2).id.len() != lesson_entry(19).id.len());
    } else if j == 3 {
        reveal_strlit("borrow_conflicts");
        assert(lesson_entry(3).id.len() != lesson_entry(19).id.len());
    } else if j == 4 {
        reveal_strlit("exclusive_borrow");
        assert(lesson_entry(4).id.len() != lesson_entry(19).id.len());
    } else if j == 5 {
        reveal_strlit("moves_and_borrows");
        assert(lesson_entry(5).id.len() != lesson_entry(19).id.len());
    } else if j == 6 {
        reveal_strlit("non_lexical_lifetimes");
        assert(lesson_entry(6).id.len() != lesson_entry(19).id.len());
    } else if j == 7 {
        reveal_strlit("mutability_contracts");
        assert(lesson_entry(7).id.len() != lesson_entry(19).id.len());
    } else if j == 8 {
        reveal_strlit("method_receivers");
        assert(lesson_entry(8).id.len() != lesson_entry(19).id.len());
    } else if j == 9 {
        reveal_strlit("lifetimes");
        assert(lesson_entry(9).id.len() != lesson_entry(19).id.len());
    } else if j == 10 {
        reveal_strlit("returning_references");
        assert(lesson_entry(10).id.len() != lesson_entry(19).id.len());
    } else if j == 11 {
        reveal_strlit("temporary_lifetimes");
        assert(lesson_entry(11).id[0] != lesson_entry(19).id[0]);
    } else if j == 12 {
        reveal_strlit("trait_bounds");
        assert(lesson_entry(12).id.len() != lesson_entry(19).id.len());
    } else if j == 13 {
        reveal_strlit("send_sync");
        assert(lesson_entry(13).id.len() != lesson_entry(19).id.len());
    } else if j == 14 {
        reveal_strlit("type_mismatches");
        assert(lesson_entry(14).id.len() != lesson_entry(19).id.len());
    } else if j == 15 {
        reveal_strlit("method_resolution");
        assert(lesson_entry(15).id.len() != lesson_entry(19).id.len());
    } else if j == 16 {
        reveal_strlit("closure_captures");
        assert(lesson_entry(16).id.len() != lesson_entry(19).id.len());
    } else if j == 17 {
        reveal_strlit("async_futures");
        assert(lesson_entry(17).id.len() != lesson_entry(19).id.len());
    } else if j == 18 {
        reveal_strlit("smart_pointers");
        assert(lesson_entry(18).id.len() != lesson_entry(19).id.len());
    } else if j == 20 {
        reveal_strlit("reinitialization");
        assert(lesson_entry(20).id.len() != lesson_entry(19).id.len());
    } else if j == 21 {
        reveal_strlit("drop");
        assert(lesson_entry(21).id.len() != lesson_entry(19).id.len());
    }
}

proof fn lemma_lesson_id_20_is_unique(j: int)
    requires
        0 <= j < lesson_count(),
        j != 20,
    ensures
        lesson_entry(j).id != lesson_entry(20).id,
{
    reveal_strlit("reinitialization");
    if j == 0 {
        reveal_strlit("ownership");
        assert(lesson_entry(0).id.len() != lesson_entry(20).id.len());
    } else if j == 1 {
        reveal_strlit("moves");
        assert(lesson_entry(1).id.len() != lesson_entry(20).id.len());
    } else if j == 2 {
        reveal_strlit("partial_moves");
        assert(lesson_entry(2).id.len() != lesson_entry(20).id.len());
    } else if j == 3 {
        reveal_strlit("borrow_conflicts");
        assert(lesson_entry(3).id[0] != lesson_entry(20).id[0]);
    } else if j == 4 {
        reveal_strlit("exclusive_borrow");
        assert(lesson_entry(4).id[0] != lesson_entry(20).id[0]);
    } else if j == 5 {
        reveal_strlit("moves_and_borrows");
        assert(lesson_entry(5).id.len() != lesson_entry(20).id.len());
    } else if j == 6 {
        reveal_strlit("non_lexical_lifetimes");
        assert(lesson_entry(6).id.len() != lesson_entry(20).id.len());
    } else if j == 7 {
        reveal_strlit("mutability_contracts");
        assert(lesson_entry(7).id.len() != lesson_entry(20).id.len());
    } else if j == 8 {
        reveal_strlit("method_receivers");
        assert(lesson_entry(8).id[0] != lesson_entry(20).id[0]);
    } else if j == 9 {
        reveal_strlit("lifetimes");
        assert(lesson_entry(9).id.len() != lesson_entry(20).id.len());
    } else if j == 10 {
        reveal_strlit("returning_references");
        assert(lesson_entry(10).id.len() != lesson_entry(20).id.len());
    } else if j == 11 {
        reveal_strlit("temporary_lifetimes");
        assert(lesson_entry(11).id.len() != lesson_entry(20).id.len());
    } else if j == 12 {
        reveal_strlit("trait_bounds");
        assert(lesson_entry(12).id.len() != lesson_entry(20).id.len());
    } else if j == 13 {
        reveal_strlit("send_sync");
        assert(lesson_entry(13).id.len() != lesson_entry(20).id.len());
    } else if j == 14 {
        reveal_strlit("type_mismatches");
        assert(lesson_entry(14).id.len() != lesson_entry(20).id.len());
    } else if j == 15 {
        reveal_strlit("method_resolution");
        assert(lesson_entry(15).id.len() != lesson_entry(20).id.len());
    } else if j == 16 {
        reveal_strlit("closure_captures");
        assert(lesson_entry(16).id[0] != lesson_entry(20).id[0]);
    } else if j == 17 {
        reveal_strlit("async_futures");
        assert(lesson_entry(17).id.len() != lesson_entry(20).id.len());
    } else if j == 18 {
        reveal_strlit("smart_pointers");
        assert(lesson_entry(18).id.len() != lesson_entry(20).id.len());
    } else if j == 19 {
        reveal_strlit("interior_mutability");
        assert(lesson_entry(19).id.len() != lesson_entry(20).id.len());
    } else if j == 21 {
        reveal_strlit("drop");
        assert(lesson_entry(21).id.len() != lesson_entry(20).id.len());
    }
}

proof fn lemma_lesson_id_21_is_unique(j: int)
    requires
        0 <= j < lesson_count(),
        j != 21,
    ensures
        lesson_entry(j).id != lesson_entry(21).id,
{
    reveal_strlit("drop");
    if j == 0 {
        reveal_strlit("ownership");
        assert(lesson_entry(0).id.len() != lesson_entry(21).id.len());
    } else if j == 1 {
        reveal_strlit("moves");
        assert(lesson_entry(1).id.len() != lesson_entry(21).id.len());
    } else if j == 2 {
        reveal_strlit("partial_moves");
        assert(lesson_entry(2).id.len() != lesson_entry(21).id.len());
    } else if j == 3 {
        reveal_strlit("borrow_conflicts");
        assert(lesson_entry(3).id.len() != lesson_entry(21).id.len());
    } else if j == 4 {
        reveal_strlit("exclusive_borrow");
        assert(lesson_entry(4).id.len() != lesson_entry(21).id.len());
    } else if j == 5 {
        reveal_strlit("moves_and_borrows");
        assert(lesson_entry(5).id.len() != lesson_entry(21).id.len());
    } else if j == 6 {
        reveal_strlit("non_lexical_lifetimes");
        assert(lesson_entry(6).id.len() != lesson_entry(21).id.len());
    } else if j == 7 {
        reveal_strlit("mutability_contracts");
        assert(lesson_entry(7).id.len() != lesson_entry(21).id.len());
    } else if j == 8 {
        reveal_strlit("method_receivers");
        assert(lesson_entry(8).id.len() != lesson_entry(21).id.len());
    } else if j == 9 {
        reveal_strlit("lifetimes");
        assert(lesson_entry(9).id.len() != lesson_entry(21).id.len());
    } else if j == 10 {
        reveal_strlit("returning_references");
        assert(lesson_entry(10).id.len() != lesson_entry(21).id.len());
    } else if j == 11 {
        reveal_strlit("temporary_lifetimes");
        assert(lesson_entry(11).id.len() != lesson_entry(21).id.len());
    } else if j == 12 {
        reveal_strlit("trait_bounds");
        assert(lesson_entry(12).id.len() != lesson_entry(21).id.len());
    } else if j == 13 {
        reveal_strlit("send_sync");
        assert(lesson_entry(13).id.len() != lesson_entry(21).id.len());
    } else if j == 14 {
        reveal_strlit("type_mismatches");
        assert(lesson_entry(14).id.len() != lesson_entry(21).id.len());
    } else if j == 15 {
        reveal_strlit("method_resolution");
        assert(lesson_entry(15).id.len() != lesson_entry(21).id.len());
    } else if j == 16 {
        reveal_strlit("closure_captures");
        assert(lesson_entry(16).id.len() != lesson_entry(21).id.len());
    } else if j == 17 {
        reveal_strlit("async_futures");
        assert(lesson_entry(17).id.len() != lesson_entry(21).id.len());
    } else if j == 18 {
        reveal_strlit("smart_pointers");
        assert(lesson_entry(18).id.len() != lesson_entry(21).id.len());
    } else if j == 19 {
        reveal_strlit("interior_mutability");
        assert(lesson_entry(19).id.len() != lesson_entry(21).id.len());
    } else if j == 20 {
        reveal_strlit("reinitialization");
        assert(lesson_entry(20).id.len() != lesson_entry(21).id.len());
    }
}

/// No two lessons of the catalog share an id.
pub proof fn lesson_ids_are_distinct(i: int, j: int)
    requires
        0 <= i < lesson_count(),
        0 <= j < lesson_count(),
        i != j,
    ensures
        lesson_entry(i).id != lesson_entry(j).id,
{
    if i == 0 {
        lemma_lesson_id_0_is_unique(j);
    } else if i == 1 {
        lemma_lesson_id_1_is_unique(j);
    } else if i == 2 {
        lemma_lesson_id_2_is_unique(j);
    } else if i == 3 {
        lemma_lesson_id_3_is_unique(j);
    } else if i == 4 {
        lemma_lesson_id_4_is_unique(j);
    } else if i == 5 {
        lemma_lesson_id_5_is_unique(j);
    } else if i == 6 {
        lemma_lesson_id_6_is_unique(j);
    } else if i == 7 {
        lemma_lesson_id_7_is_unique(j);
    } else if i == 8 {
        lemma_lesson_id_8_is_unique(j);
    } else if i == 9 {
        lemma_lesson_id_9_is_unique(j);
    } else if i == 10 {
        lemma_lesson_id_10_is_unique(j);
    } else if i == 11 {
        lemma_lesson_id_11_is_unique(j);
    } else if i == 12 {
        lemma_lesson_id_12_is_unique(j);
    } else if i == 13 {
        lemma_lesson_id_13_is_unique(j);
    } else if i == 14 {
        lemma_lesson_id_14_is_unique(j);
    } else if i == 15 {
        lemma_lesson_id_15_is_unique(j);
    } else if i == 16 {
        lemma_lesson_id_16_is_unique(j);
    } else if i == 17 {
        lemma_lesson_id_17_is_unique(j);
    } else if i == 18 {
        lemma_lesson_id_18_is_unique(j);
    } else if i == 19 {
        lemma_lesson_id_19_is_unique(j);
    } else if i == 20 {
        lemma_lesson_id_20_is_unique(j);
    } else {
        lemma_lesson_id_21_is_unique(j);
    }
}

/// Every lesson a lesson points to is in the catalog, every checkpoint has
/// two choices and a correct one among them, and every lesson has a title,
/// a rule and a memory model.
pub proof fn lesson_catalog_is_closed_and_checkpointed(i: int)
    requires
        0 <= i < lesson_count(),
    ensures
        forall|k: int|
            0 <= k < lesson_entry(i).related.len() ==> is_lesson_id(
                #[trigger] lesson_entry(i).related[k],
            ),
        lesson_entry(i).choices.len() == 2,
        lesson_entry(i).correct_choice < lesson_entry(i).choices.len(),
        lesson_entry(i).title.len() > 0,
        lesson_entry(i).rule.len() > 0,
        lesson_entry(i).memory_model.len() > 0,
{
    if i == 0 {
        reveal_strlit("Ownership");
        reveal_strlit("A value may move to a new owner, be borrowed temporarily, or be cloned into a new value.");
        reveal_strlit("The owner is a control responsibility, not necessarily the physical address of the bytes.");
        assert(lesson_entry(1).id == "moves"@);
        assert(lesson_entry(3).id == "borrow_conflicts"@);
        assert(lesson_entry(18).id == "smart_pointers"@);
    } else if i == 1 {
        reveal_strlit("Moves");
        reveal_strlit("After moving a non-Copy value, use the new owner or reinitialize the old place.");
        reveal_strlit("The payload often stays where it is; the owning handle and cleanup responsibility transfer.");
        assert(lesson_entry(0).id == "ownership"@);
        assert(lesson_entry(5).id == "moves_and_borrows"@);
        assert(lesson_entry(18).id == "smart_pointers"@);
    } else if i == 2 {
        reveal_strlit("Partial moves");
        reveal_strlit("Use unmoved fields directly, or reinitialize moved fields before using the complete value again.");
        reveal_strlit("Availability is tracked per place, including fields and indexed projections when provable.");
        assert(lesson_entry(1).id == "moves"@);
        assert(lesson_entry(20).id == "reinitialization"@);
    } else if i == 3 {
        reveal_strlit("Borrow conflicts");
        reveal_strlit("At a given time, Rust permits either many shared borrows or one mutable borrow.");
        reveal_strlit("The value remains alive. Only operations that could invalidate or race with the live view are restricted.");
        assert(lesson_entry(4).id == "exclusive_borrow"@);
        assert(lesson_entry(6).id == "non_lexical_lifetimes"@);
        assert(lesson_entry(9).id == "lifetimes"@);
    } else if i == 4 {
        reveal_strlit("Exclusive mutable borrowing");
        reveal_strlit("Do not read, write, or create another overlapping borrow through competing paths until it ends.");
        reveal_strlit("The owner is still alive, but access is temporarily delegated to the mutable reference.");
        assert(lesson_entry(3).id == "borrow_conflicts"@);
        assert(lesson_entry(6).id == "non_lexical_lifetimes"@);
    } else if i == 5 {
        reveal_strlit("Moving while borrowed");
        reveal_strlit("Finish using the reference before moving, or return/store owned data instead.");
        reveal_strlit("The borrow is tied to the referent and its valid owner-controlled lifetime.");
        assert(lesson_entry(1).id == "moves"@);
        assert(lesson_entry(3).id == "borrow_conflicts"@);
        assert(lesson_entry(9).id == "lifetimes"@);
    } else if i == 6 {
        reveal_strlit("Non-lexical lifetimes");
        reveal_strlit("Control flow determines the live region that the borrow checker must protect.");
        reveal_strlit("The reference binding can remain in scope even after its borrow is no longer live.");
        assert(lesson_entry(3).id == "borrow_conflicts"@);
        assert(lesson_entry(9).id == "lifetimes"@);
    } else if i == 7 {
        reveal_strlit("Mutability contracts");
        reveal_strlit("Every layer from the binding to the changed value must provide the required access.");
        reveal_strlit("`mut` changes what a binding may do; `&mut` delegates exclusive access; wrappers can enforce access at runtime.");
        assert(lesson_entry(8).id == "method_receivers"@);
        assert(lesson_entry(19).id == "interior_mutability"@);
        assert(lesson_entry(18).id == "smart_pointers"@);
    } else if i == 8 {
        reveal_strlit("Method receiver contracts");
        reveal_strlit("The call site must supply the receiver access written in the resolved method signature.");
        reveal_strlit("Method syntax may auto-borrow or auto-dereference, but it cannot invent access a wrapper does not provide.");
        assert(lesson_entry(7).id == "mutability_contracts"@);
        assert(lesson_entry(15).id == "method_resolution"@);
    } else if i == 9 {
        reveal_strlit("Lifetimes");
        reveal_strlit("No reference may outlive the value and storage it points into.");
        reveal_strlit("Lifetime annotations connect existing regions; they do not extend runtime storage.");
        assert(lesson_entry(10).id == "returning_references"@);
        assert(lesson_entry(11).id == "temporary_lifetimes"@);
        assert(lesson_entry(6).id == "non_lexical_lifetimes"@);
    } else if i == 10 {
        reveal_strlit("Returning references");
        reveal_strlit("Tie the output to an input reference, or return an owned value.");
        reveal_strlit("Local stack variables and their owned allocations are cleaned up when the function returns.");
        assert(lesson_entry(9).id == "lifetimes"@);
        assert(lesson_entry(0).id == "ownership"@);
    } else if i == 11 {
        reveal_strlit("Temporary lifetimes");
        reveal_strlit("Bind the owner to a local variable when its borrowed result must live longer.");
        reveal_strlit("Temporaries have compiler-defined drop points, often at the end of a statement.");
        assert(lesson_entry(9).id == "lifetimes"@);
        assert(lesson_entry(21).id == "drop"@);
    } else if i == 12 {
        reveal_strlit("Trait requirements");
        reveal_strlit("Implement, import, or constrain traits deliberately; do not assume similarly shaped types are interchangeable.");
        reveal_strlit("Traits describe compile-time capabilities and may select static or dynamic dispatch.");
        assert(lesson_entry(15).id == "method_resolution"@);
        assert(lesson_entry(13).id == "send_sync"@);
        assert(lesson_entry(14).id == "type_mismatches"@);
    } else if i == 13 {
        reveal_strlit("Send and Sync");
        reveal_strlit("Thread boundaries require every captured component to satisfy the executor or thread API's bounds.");
        reveal_strlit("`Rc` and `RefCell` use non-thread-safe runtime state; `Arc` and locks provide thread-aware mechanisms.");
        assert(lesson_entry(18).id == "smart_pointers"@);
        assert(lesson_entry(19).id == "interior_mutability"@);
        assert(lesson_entry(17).id == "async_futures"@);
    } else if i == 14 {
        reveal_strlit("Type mismatches");
        reveal_strlit("Change the producer, consumer, or use an explicit valid conversion that preserves intent.");
        reveal_strlit("References, owners, options, results, and wrappers are distinct representations with distinct behavior.");
        assert(lesson_entry(12).id == "trait_bounds"@);
        assert(lesson_entry(0).id == "ownership"@);
    } else if i == 15 {
        reveal_strlit("Method resolution");
        reveal_strlit("Check the resolved receiver layer, trait import, bounds, and auto-deref path.");
        reveal_strlit("Method-call syntax searches candidate receiver forms but cannot bypass ownership or trait rules.");
        assert(lesson_entry(12).id == "trait_bounds"@);
        assert(lesson_entry(8).id == "method_receivers"@);
    } else if i == 16 {
        reveal_strlit("Closure captures");
        reveal_strlit("Use `move` when the closure must outlive the borrowed environment, then decide which captures need cloning.");
        reveal_strlit("The compiler creates an anonymous environment struct containing references or owned fields.");
        assert(lesson_entry(9).id == "lifetimes"@);
        assert(lesson_entry(1).id == "moves"@);
        assert(lesson_entry(13).id == "send_sync"@);
    } else if i == 17 {
        reveal_strlit("Async futures");
        reveal_strlit("Values held across `.await` become part of the future and must satisfy its lifetime and thread bounds.");
        reveal_strlit("The future is a state machine storing locals needed after suspension points.");
        assert(lesson_entry(13).id == "send_sync"@);
        assert(lesson_entry(16).id == "closure_captures"@);
        assert(lesson_entry(9).id == "lifetimes"@);
    } else if i == 18 {
        reveal_strlit("Box, Rc, and Arc");
        reveal_strlit("Choose a wrapper from the ownership topology, not merely to silence a move error.");
        reveal_strlit("The stack handle points to heap storage; reference-counted allocations also store owner counters.");
        assert(lesson_entry(0).id == "ownership"@);
        assert(lesson_entry(19).id == "interior_mutability"@);
        assert(lesson_entry(13).id == "send_sync"@);
    } else if i == 19 {
        reveal_strlit("Interior mutability");
        reveal_strlit("Use `Cell` for Copy-style replacement, `RefCell` for single-threaded dynamic borrows, and locks for synchronized access.");
        reveal_strlit("The wrapper stores runtime state such as a borrow flag or lock next to the value.");
        assert(lesson_entry(7).id == "mutability_contracts"@);
        assert(lesson_entry(18).id == "smart_pointers"@);
        assert(lesson_entry(13).id == "send_sync"@);
    } else if i == 20 {
        reveal_strlit("Reinitialization");
        reveal_strlit("The place must be assignable without reading or dropping an unavailable old value.");
        reveal_strlit("The availability bit for that place changes from moved to initialized with a new owner value.");
        assert(lesson_entry(1).id == "moves"@);
        assert(lesson_entry(2).id == "partial_moves"@);
        assert(lesson_entry(21).id == "drop"@);
    } else {
        reveal_strlit("Drop and cleanup");
        reveal_strlit("Moved-out places are not dropped; reinitialized places drop their new value normally.");
        reveal_strlit("Drop responsibility follows ownership and may recursively clean up fields and heap allocations.");
        assert(lesson_entry(0).id == "ownership"@);
        assert(lesson_entry(1).id == "moves"@);
        assert(lesson_entry(20).id == "reinitialization"@);
    }
}

/// The lesson that explains a problem first: chosen by its category, else by
/// its diagnostic code.
pub open spec fn primary_lesson(category: Seq<char>, code: Option<Seq<char>>) -> Seq<char> {
    if category == "use_after_move"@ {
        "moves"@
    } else if category == "partial_move"@ {
        "partial_moves"@
    } else if category == "multiple_mutable_borrows"@ {
        "exclusive_borrow"@
    } else if category == "mutable_while_shared"@ || category == "assign_while_borrowed"@ {
        "borrow_conflicts"@
    } else if category == "use_while_mutably_borrowed"@ {
        "exclusive_borrow"@
    } else if category == "move_while_borrowed"@ || category == "move_out_of_borrowed_content"@ {
        "moves_and_borrows"@
    } else if category == "immutable_mutation"@ {
        "mutability_contracts"@
    } else if category == "missing_lifetime"@ || category == "borrowed_value_too_short"@ {
        "lifetimes"@
    } else if category == "returning_local_reference"@ {
        "returning_references"@
    } else if category == "temporary_dropped_while_borrowed"@ {
        "temporary_lifetimes"@
    } else if category == "trait_requirement"@ {
        "trait_bounds"@
    } else if category == "type_mismatch"@ {
        "type_mismatches"@
    } else if category == "method_or_trait_unavailable"@ {
        "method_resolution"@
    } else if category == "closure_may_outlive_borrow"@ || category == "borrowed_data_escapes"@ {
        "closure_captures"@
    } else if category == "await_outside_async"@ || category == "recursive_async_function"@ {
        "async_futures"@
    } else if code == Some("E0277"@) {
        "trait_bounds"@
    } else if code == Some("E0308"@) {
        "type_mismatches"@
    } else {
        "borrow_conflicts"@
    }
}

/// The lesson that follows the first one for a category, if any.
pub open spec fn secondary_lesson(category: Seq<char>) -> Option<Seq<char>> {
    if category == "use_after_move"@ || category == "partial_move"@ {
        Some("ownership"@)
    } else if category == "multiple_mutable_borrows"@ || category == "mutable_while_shared"@ || category == "assign_while_borrowed"@ || category == "use_while_mutably_borrowed"@ {
        Some("non_lexical_lifetimes"@)
    } else if category == "immutable_mutation"@ {
        Some("method_receivers"@)
    } else if category == "trait_requirement"@ {
        Some("send_sync"@)
    } else if category == "closure_may_outlive_borrow"@ || category == "borrowed_data_escapes"@ {
        Some("lifetimes"@)
    } else {
        None
    }
}

/// The lessons for a problem, in reading order.
pub open spec fn problem_lesson_ids(category: Seq<char>, code: Option<Seq<char>>) -> Seq<Seq<char>> {
    match secondary_lesson(category) {
        Some(next) => seq![primary_lesson(category, code), next],
        None => seq![primary_lesson(category, code)],
    }
}

/// The text of an optional diagnostic code.
pub open spec fn code_text(code: Option<&str>) -> Option<Seq<char>> {
    match code {
        Some(c) => Some(c@),
        None => None,
    }
}

fn primary_lesson_id(category: &str, diagnostic_code: Option<&str>) -> (r: &'static str)
    ensures
        r@ == primary_lesson(category@, code_text(diagnostic_code)),
{
    if str_eq(category, "use_after_move") {
        "moves"
    } else if str_eq(category, "partial_move") {
        "partial_moves"
    } else if str_eq(category, "multiple_mutable_borrows") {
        "exclusive_borrow"
    } else if str_eq(category, "mutable_while_shared") || str_eq(category, "assign_while_borrowed") {
        "borrow_conflicts"
    } else if str_eq(category, "use_while_mutably_borrowed") {
        "exclusive_borrow"
    } else if str_eq(category, "move_while_borrowed") || str_eq(category, "move_out_of_borrowed_content") {
        "moves_and_borrows"
    } else if str_eq(category, "immutable_mutation") {
        "mutability_contracts"
    } else if str_eq(category, "missing_lifetime") || str_eq(category, "borrowed_value_too_short") {
        "lifetimes"
    } else if str_eq(category, "returning_local_reference") {
        "returning_references"
    } else if str_eq(category, "temporary_dropped_while_borrowed") {
        "temporary_lifetimes"
    } else if str_eq(category, "trait_requirement") {
        "trait_bounds"
    } else if str_eq(category, "type_mismatch") {
        "type_mismatches"
    } else if str_eq(category, "method_or_trait_unavailable") {
        "method_resolution"
    } else if str_eq(category, "closure_may_outlive_borrow") || str_eq(category, "borrowed_data_escapes") {
        "closure_captures"
    } else if str_eq(category, "await_outside_async") || str_eq(category, "recursive_async_function") {
        "async_futures"
    } else {
        match diagnostic_code {
            Some(code) => {
                if str_eq(code, "E0277") {
                    "trait_bounds"
                } else if str_eq(code, "E0308") {
                    "type_mismatches"
                } else {
                    "borrow_conflicts"
                }
            },
            None => "borrow_conflicts",
        }
    }
}

fn secondary_lesson_id(category: &str) -> (r: Option<&'static str>)
    ensures
        match r {
            Some(s) => secondary_lesson(category@) == Some(s@),
            None => secondary_lesson(category@) is None,
        },
{
    if str_eq(category, "use_after_move") || str_eq(category, "partial_move") {
        Some("ownership")
    } else if str_eq(category, "multiple_mutable_borrows") || str_eq(category, "mutable_while_shared") || str_eq(category, "assign_while_borrowed") || str_eq(category, "use_while_mutably_borrowed") {
        Some("non_lexical_lifetimes")
    } else if str_eq(category, "immutable_mutation") {
        Some("method_receivers")
    } else if str_eq(category, "trait_requirement") {
        Some("send_sync")
    } else if str_eq(category, "closure_may_outlive_borrow") || str_eq(category, "borrowed_data_escapes") {
        Some("lifetimes")
    } else {
        None
    }
}

/// The ids of the lessons for a problem of `category` with `diagnostic_code`.
pub fn lesson_ids_for_problem(category: &str, diagnostic_code: Option<&str>) -> (r: Vec<&'static str>)
    ensures
        r@.map_values(|s: &str| s@) == problem_lesson_ids(category@, code_text(diagnostic_code)),
{
    let mut ids: Vec<&'static str> = Vec::new();
    ids.push(primary_lesson_id(category, diagnostic_code));
    if let Some(next) = secondary_lesson_id(category) {
        ids.push(next);
    }
    assert(ids@.map_values(|s: &str| s@) =~= problem_lesson_ids(category@, code_text(diagnostic_code)));
    ids
}

/// Every lesson chosen for a problem, whatever its category and code, is in
/// the catalog.
pub proof fn problem_lessons_are_in_catalog(category: Seq<char>, code: Option<Seq<char>>)
    ensures
        problem_lesson_ids(category, code).len() >= 1,
        forall|k: int|
            0 <= k < problem_lesson_ids(category, code).len() ==> is_lesson_id(
                #[trigger] problem_lesson_ids(category, code)[k],
            ),
{
    assert(lesson_entry(17).id == "async_futures"@);
    assert(lesson_entry(3).id == "borrow_conflicts"@);
    assert(lesson_entry(16).id == "closure_captures"@);
    assert(lesson_entry(4).id == "exclusive_borrow"@);
    assert(lesson_entry(9).id == "lifetimes"@);
    assert(lesson_entry(8).id == "method_receivers"@);
    assert(lesson_entry(15).id == "method_resolution"@);
    assert(lesson_entry(1).id == "moves"@);
    assert(lesson_entry(5).id == "moves_and_borrows"@);
    assert(lesson_entry(7).id == "mutability_contracts"@);
    assert(lesson_entry(6).id == "non_lexical_lifetimes"@);
    assert(lesson_entry(0).id == "ownership"@);
    assert(lesson_entry(2).id == "partial_moves"@);
    assert(lesson_entry(10).id == "returning_references"@);
    assert(lesson_entry(13).id == "send_sync"@);
    assert(lesson_entry(11).id == "temporary_lifetimes"@);
    assert(lesson_entry(12).id == "trait_bounds"@);
    assert(lesson_entry(14).id == "type_mismatches"@);
}

/// One way out of a problem, with what it costs.
#[derive(Debug)]
pub struct RepairIdea {
    pub title: &'static str,
    pub intent: &'static str,
    pub tradeoff: &'static str,
}

impl View for RepairIdea {
    type V = (Seq<char>, Seq<char>, Seq<char>);

    open spec fn view(&self) -> (Seq<char>, Seq<char>, Seq<char>) {
        (self.title@, self.intent@, self.tradeoff@)
    }
}

/// Which list of repairs a category is offered.
#[derive(Clone, Copy, Debug, PartialEq, Eq, Structural)]
pub enum RepairGroup {
    Move,
    Borrow,
    MoveBorrow,
    Mutability,
    Lifetime,
    Trait,
    Type,
    Method,
    Closure,
    Async,
    NoRepairs,
}

pub open spec fn spec_repair_group(category: Seq<char>) -> RepairGroup {
    if category == "use_after_move"@ || category == "partial_move"@ {
        RepairGroup::Move
    } else if category == "multiple_mutable_borrows"@ || category == "mutable_while_shared"@ || category == "assign_while_borrowed"@ || category == "use_while_mutably_borrowed"@ {
        RepairGroup::Borrow
    } else if category == "move_while_borrowed"@ || category == "move_out_of_borrowed_content"@ {
        RepairGroup::MoveBorrow
    } else if category == "immutable_mutation"@ {
        RepairGroup::Mutability
    } else if category == "missing_lifetime"@ || category == "borrowed_value_too_short"@ || category == "returning_local_reference"@ || category == "temporary_dropped_while_borrowed"@ {
        RepairGroup::Lifetime
    } else if category == "trait_requirement"@ {
        RepairGroup::Trait
    } else if category == "type_mismatch"@ {
        RepairGroup::Type
    } else if category == "method_or_trait_unavailable"@ {
        RepairGroup::Method
    } else if category == "closure_may_outlive_borrow"@ || category == "borrowed_data_escapes"@ {
        RepairGroup::Closure
    } else if category == "await_outside_async"@ || category == "recursive_async_function"@ {
        RepairGroup::Async
    } else {
        RepairGroup::NoRepairs
    }
}

fn repair_group(category: &str) -> (r: RepairGroup)
    ensures
        r == spec_repair_group(category@),
{
    if str_eq(category, "use_after_move") || str_eq(category, "partial_move") {
        RepairGroup::Move
    } else if str_eq(category, "multiple_mutable_borrows") || str_eq(category, "mutable_while_shared") || str_eq(category, "assign_while_borrowed") || str_eq(category, "use_while_mutably_borrowed") {
        RepairGroup::Borrow
    } else if str_eq(category, "move_while_borrowed") || str_eq(category, "move_out_of_borrowed_content") {
        RepairGroup::MoveBorrow
    } else if str_eq(category, "immutable_mutation") {
        RepairGroup::Mutability
    } else if str_eq(category, "missing_lifetime") || str_eq(category, "borrowed_value_too_short") || str_eq(category, "returning_local_reference") || str_eq(category, "temporary_dropped_while_borrowed") {
        RepairGroup::Lifetime
    } else if str_eq(category, "trait_requirement") {
        RepairGroup::Trait
    } else if str_eq(category, "type_mismatch") {
        RepairGroup::Type
    } else if str_eq(category, "method_or_trait_unavailable") {
        RepairGroup::Method
    } else if str_eq(category, "closure_may_outlive_borrow") || str_eq(category, "borrowed_data_escapes") {
        RepairGroup::Closure
    } else if str_eq(category, "await_outside_async") || str_eq(category, "recursive_async_function") {
        RepairGroup::Async
    } else {
        RepairGroup::NoRepairs
    }
}

/// The repairs offered to a group, in order.
pub open spec fn repair_table(group: RepairGroup) -> Seq<(Seq<char>, Seq<char>, Seq<char>)> {
    match group {
        RepairGroup::Move => seq![("Borrow instead of transferring ownership"@, "Use `&T` or `&mut T` when the callee only needs temporary access."@, "The owner must remain alive and compatible borrows may not overlap."@), ("Clone an independent value"@, "Use `clone` when both locations should own separate logical values."@, "Cloning may allocate or copy; later mutations are independent."@), ("Share ownership explicitly"@, "Use `Rc<T>` on one thread or `Arc<T>` across threads when owners share one value."@, "Reference counts add runtime work and do not by themselves permit mutation."@)],
        RepairGroup::Borrow => seq![("End the earlier borrow sooner"@, "Move its final use before the mutation or place the borrow in a smaller scope."@, "Usually zero-cost, but requires reorganizing the data flow."@), ("Split disjoint fields or elements"@, "Borrow independent places with APIs such as `split_at_mut` or destructuring."@, "The separation must be statically provable."@), ("Use interior mutability deliberately"@, "Use `RefCell<T>` for single-threaded runtime-checked mutation or a lock across threads."@, "Borrow conflicts become runtime errors or blocking rather than compile errors."@)],
        RepairGroup::MoveBorrow => seq![("Use the reference before moving"@, "Make the last reference use occur before ownership is transferred."@, "Preserves ownership semantics without allocation."@), ("Return or store owned data"@, "Copy or clone only the part that must outlive the borrow."@, "Creates an independent value and may allocate."@)],
        RepairGroup::Mutability => seq![("Provide an exclusive mutable path"@, "Make the binding mutable and use `&mut self` or `&mut T` when mutation is the API contract."@, "Callers must temporarily grant exclusive access."@), ("Return a changed value"@, "Use a functional API that consumes or borrows the old value and returns a new one."@, "May move or allocate, but makes state changes explicit."@), ("Use the right interior-mutability wrapper"@, "Choose `Cell`, `RefCell`, `Mutex`, or `RwLock` only when shared access must mutate state."@, "Adds runtime checks, synchronization, or type restrictions."@)],
        RepairGroup::Lifetime => seq![("Return owned data"@, "Return `String`, `Vec<T>`, or another owner when the result must outlive local storage."@, "Ownership transfer may allocate but removes a lifetime dependency."@), ("Tie the output to an input lifetime"@, "Add a lifetime parameter only when the returned reference points into an input."@, "The caller cannot keep the result longer than that input."@), ("Extend the owner's scope"@, "Bind the temporary or owner outside the region where its reference is used."@, "Keeps the value alive longer and may retain resources longer."@)],
        RepairGroup::Trait => seq![("Satisfy the required bound"@, "Implement the trait or constrain the generic parameter to a type that does."@, "Narrows which types callers may supply."@), ("Change the representation"@, "Use a type whose `Send`, `Sync`, `Clone`, formatting, or conversion behavior matches the API."@, "May change sharing, allocation, or thread-safety semantics."@)],
        RepairGroup::Type => seq![("Make producer and consumer agree"@, "Change the expression, parameter, return type, or pattern to the intended type."@, "Changing a public signature affects every caller."@), ("Convert explicitly"@, "Use `From`/`Into`, `TryFrom`/`TryInto`, parsing, borrowing, or dereferencing when conversion is intentional."@, "Fallible conversions require an error path; allocating conversions have a cost."@)],
        RepairGroup::Method => seq![("Bring the defining trait into scope"@, "Import the trait when the receiver implements it but method lookup cannot see it."@, "May introduce method-name ambiguity that needs qualification."@), ("Use the method on the correct layer"@, "Borrow, dereference, unwrap, or access the inner value only when that matches the ownership design."@, "Unwrapping may fail; dereferencing shared wrappers may not permit mutation."@)],
        RepairGroup::Closure => seq![("Move captured values into the closure"@, "Use `move` when the closure or task must own its environment."@, "The outer scope loses non-Copy captures unless they are cloned first."@), ("Keep execution inside the borrow's scope"@, "Run or join the closure before borrowed inputs go out of scope."@, "Reduces concurrency or changes control flow."@)],
        RepairGroup::Async => seq![("Move the await into an async context"@, "Make the containing function or block async and await the resulting future from an executor."@, "Async propagates through call boundaries and changes the return type to a future."@), ("Box recursive futures"@, "Introduce indirection when recursive async calls would otherwise create an infinitely sized future."@, "Heap allocation and dynamic dispatch may be introduced."@)],
        RepairGroup::NoRepairs => Seq::empty(),
    }
}

/// The repair ideas offered for a problem of `category`.
pub fn repair_ideas(category: &str) -> (r: Vec<RepairIdea>)
    ensures
        r@.map_values(|i: RepairIdea| i@) == repair_table(spec_repair_group(category@)),
{
    let group = repair_group(category);
    let mut r: Vec<RepairIdea> = Vec::new();
    match group {
        RepairGroup::Move => {
            r.push(RepairIdea { title: "Borrow instead of transferring ownership", intent: "Use `&T` or `&mut T` when the callee only needs temporary access.", tradeoff: "The owner must remain alive and compatible borrows may not overlap." });
            r.push(RepairIdea { title: "Clone an independent value", intent: "Use `clone` when both locations should own separate logical values.", tradeoff: "Cloning may allocate or copy; later mutations are independent." });
            r.push(RepairIdea { title: "Share ownership explicitly", intent: "Use `Rc<T>` on one thread or `Arc<T>` across threads when owners share one value.", tradeoff: "Reference counts add runtime work and do not by themselves permit mutation." });
        },
        RepairGroup::Borrow => {
            r.push(RepairIdea { title: "End the earlier borrow sooner", intent: "Move its final use before the mutation or place the borrow in a smaller scope.", tradeoff: "Usually zero-cost, but requires reorganizing the data flow." });
            r.push(RepairIdea { title: "Split disjoint fields or elements", intent: "Borrow independent places with APIs such as `split_at_mut` or destructuring.", tradeoff: "The separation must be statically provable." });
            r.push(RepairIdea { title: "Use interior mutability deliberately", intent: "Use `RefCell<T>` for single-threaded runtime-checked mutation or a lock across threads.", tradeoff: "Borrow conflicts become runtime errors or blocking rather than compile errors." });
        },
        RepairGroup::MoveBorrow => {
            r.push(RepairIdea { title: "Use the reference before moving", intent: "Make the last reference use occur before ownership is transferred.", tradeoff: "Preserves ownership semantics without allocation." });
            r.push(RepairIdea { title: "Return or store owned data", intent: "Copy or clone only the part that must outlive the borrow.", tradeoff: "Creates an independent value and may allocate." });
        },
        RepairGroup::Mutability => {
            r.push(RepairIdea { title: "Provide an exclusive mutable path", intent: "Make the binding mutable and use `&mut self` or `&mut T` when mutation is the API contract.", tradeoff: "Callers must temporarily grant exclusive access." });
            r.push(RepairIdea { title: "Return a changed value", intent: "Use a functional API that consumes or borrows the old value and returns a new one.", tradeoff: "May move or allocate, but makes state changes explicit." });
            r.push(RepairIdea { title: "Use the right interior-mutability wrapper", intent: "Choose `Cell`, `RefCell`, `Mutex`, or `RwLock` only when shared access must mutate state.", tradeoff: "Adds runtime checks, synchronization, or type restrictions." });
        },
        RepairGroup::Lifetime => {
            r.push(RepairIdea { title: "Return owned data", intent: "Return `String`, `Vec<T>`, or another owner when the result must outlive local storage.", tradeoff: "Ownership transfer may allocate but removes a lifetime dependency." });
            r.push(RepairIdea { title: "Tie the output to an input lifetime", intent: "Add a lifetime parameter only when the returned reference points into an input.", tradeoff: "The caller cannot keep the result longer than that input." });
            r.push(RepairIdea { title: "Extend the owner's scope", intent: "Bind the temporary or owner outside the region where its reference is used.", tradeoff: "Keeps the value alive longer and may retain resources longer." });
        },
        RepairGroup::Trait => {
            r.push(RepairIdea { title: "Satisfy the required bound", intent: "Implement the trait or constrain the generic parameter to a type that does.", tradeoff: "Narrows which types callers may supply." });
            r.push(RepairIdea { title: "Change the representation", intent: "Use a type whose `Send`, `Sync`, `Clone`, formatting, or conversion behavior matches the API.", tradeoff: "May change sharing, allocation, or thread-safety semantics." });
        },
        RepairGroup::Type => {
            r.push(RepairIdea { title: "Make producer and consumer agree", intent: "Change the expression, parameter, return type, or pattern to the intended type.", tradeoff: "Changing a public signature affects every caller." });
            r.push(RepairIdea { title: "Convert explicitly", intent: "Use `From`/`Into`, `TryFrom`/`TryInto`, parsing, borrowing, or dereferencing when conversion is intentional.", tradeoff: "Fallible conversions require an error path; allocating conversions have a cost." });
        },
        RepairGroup::Method => {
            r.push(RepairIdea { title: "Bring the defining trait into scope", intent: "Import the trait when the receiver implements it but method lookup cannot see it.", tradeoff: "May introduce method-name ambiguity that needs qualification." });
            r.push(RepairIdea { title: "Use the method on the correct layer", intent: "Borrow, dereference, unwrap, or access the inner value only when that matches the ownership design.", tradeoff: "Unwrapping may fail; dereferencing shared wrappers may not permit mutation." });
        },
        RepairGroup::Closure => {
            r.push(RepairIdea { title: "Move captured values into the closure", intent: "Use `move` when the closure or task must own its environment.", tradeoff: "The outer scope loses non-Copy captures unless they are cloned first." });
            r.push(RepairIdea { title: "Keep execution inside the borrow's scope", intent: "Run or join the closure before borrowed inputs go out of scope.", tradeoff: "Reduces concurrency or changes control flow." });
        },
        RepairGroup::Async => {
            r.push(RepairIdea { title: "Move the await into an async context", intent: "Make the containing function or block async and await the resulting future from an executor.", tradeoff: "Async propagates through call boundaries and changes the return type to a future." });
            r.push(RepairIdea { title: "Box recursive futures", intent: "Introduce indirection when recursive async calls would otherwise create an infinitely sized future.", tradeoff: "Heap allocation and dynamic dispatch may be introduced." });
        },
        RepairGroup::NoRepairs => {},
    }
    assert(r@.map_values(|i: RepairIdea| i@) =~= repair_table(group));
    r
}

/// The problem categories the workbench explains.
pub open spec fn is_supported_category(category: Seq<char>) -> bool {
    category == "use_after_move"@
        || category == "partial_move"@
        || category == "multiple_mutable_borrows"@
        || category == "mutable_while_shared"@
        || category == "use_while_mutably_borrowed"@
        || category == "move_while_borrowed"@
        || category == "assign_while_borrowed"@
        || category == "move_out_of_borrowed_content"@
        || category == "immutable_mutation"@
        || category == "missing_lifetime"@
        || category == "returning_local_reference"@
        || category == "borrowed_value_too_short"@
        || category == "temporary_dropped_while_borrowed"@
        || category == "trait_requirement"@
        || category == "type_mismatch"@
        || category == "method_or_trait_unavailable"@
        || category == "closure_may_outlive_borrow"@
        || category == "borrowed_data_escapes"@
        || category == "await_outside_async"@
        || category == "recursive_async_function"@
}

/// Every supported category is offered at least one repair.
pub proof fn supported_categories_have_repairs(category: Seq<char>)
    requires
        is_supported_category(category),
    ensures
        repair_table(spec_repair_group(category)).len() > 0,
{
}

/// The lessons for a problem follow its category, and its diagnostic code
/// only where the category is not one the workbench explains:
/// - a supported category gets the same lessons whatever the code;
/// - a type mismatch is taught by the lesson a mismatch's code `E0308`
///   calls for, `type_mismatches`, and a trait requirement by the lesson for
///   `E0277`, `trait_bounds`;
/// - categories that tell the same story share their lessons;
/// - a problem of any other category with any other code is taught as a
///   borrow conflict.
#[verifier::rlimit(40)]
#[verifier::spinoff_prover]
pub proof fn lessons_follow_the_category(
    category: Seq<char>,
    code: Option<Seq<char>>,
    other_code: Option<Seq<char>>,
    unexplained: Seq<char>,
)
    requires
        !is_supported_category(unexplained),
    ensures
        is_supported_category(category) ==> problem_lesson_ids(category, code) == problem_lesson_ids(
            category,
            other_code,
        ),
        primary_lesson(unexplained, Some("E0308"@)) == "type_mismatches"@,
        primary_lesson(unexplained, Some("E0277"@)) == "trait_bounds"@,
        (code != Some("E0308"@) && code != Some("E0277"@)) ==> primary_lesson(unexplained, code)
            == "borrow_conflicts"@,
        primary_lesson("type_mismatch"@, code) == primary_lesson(unexplained, Some("E0308"@)),
        primary_lesson("trait_requirement"@, code) == primary_lesson(unexplained, Some("E0277"@)),
        problem_lesson_ids("mutable_while_shared"@, code) == problem_lesson_ids("assign_while_borrowed"@, other_code),
        problem_lesson_ids("missing_lifetime"@, code) == problem_lesson_ids("borrowed_value_too_short"@, other_code),
        problem_lesson_ids("closure_may_outlive_borrow"@, code) == problem_lesson_ids(
            "borrowed_data_escapes"@,
            other_code,
        ),
{
    reveal_strlit("E0308");
    reveal_strlit("E0277");
    assert("E0308"@[2] != "E0277"@[2]);
    assert("E0308"@ != "E0277"@);
    assert(Some("E0308"@) != Some("E0277"@));
    assert(primary_lesson("type_mismatch"@, code) == "type_mismatches"@) by {
        reveal_strlit("type_mismatch");
        assert("type_mismatch"@.len() == 13);
        reveal_strlit("use_after_move");
        assert("use_after_move"@.len() == 14);
        reveal_strlit("partial_move");
        assert("partial_move"@.len() == 12);
        reveal_strlit("multiple_mutable_borrows");
        assert("multiple_mutable_borrows"@.len() == 24);
        reveal_strlit("mutable_while_shared");
        assert("mutable_while_shared"@.len() == 20);
        reveal_strlit("assign_while_borrowed");
        assert("assign_while_borrowed"@.len() == 21);
        reveal_strlit("use_while_mutably_borrowed");
        assert("use_while_mutably_borrowed"@.len() == 26);
        reveal_strlit("move_while_borrowed");
        assert("move_while_borrowed"@.len() == 19);
        reveal_strlit("move_out_of_borrowed_content");
        assert("move_out_of_borrowed_content"@.len() == 28);
        reveal_strlit("immutable_mutation");
        assert("immutable_mutation"@.len() == 18);
        reveal_strlit("missing_lifetime");
        assert("missing_lifetime"@.len() == 16);
        reveal_strlit("borrowed_value_too_short");
        assert("borrowed_value_too_short"@.len() == 24);
        reveal_strlit("returning_local_reference");
        assert("returning_local_reference"@.len() == 25);
        reveal_strlit("temporary_dropped_while_borrowed");
        assert("temporary_dropped_while_borrowed"@.len() == 32);
        reveal_strlit("trait_requirement");
        assert("trait_requirement"@.len() == 17);
        assert("type_mismatch"@ != "use_after_move"@);
        assert("type_mismatch"@ != "partial_move"@);
        assert("type_mismatch"@ != "multiple_mutable_borrows"@);
        assert("type_mismatch"@ != "mutable_while_shared"@);
        assert("type_mismatch"@ != "assign_while_borrowed"@);
        assert("type_mismatch"@ != "use_while_mutably_borrowed"@);
        assert("type_mismatch"@ != "move_while_borrowed"@);
        assert("type_mismatch"@ != "move_out_of_borrowed_content"@);
        assert("type_mismatch"@ != "immutable_mutation"@);
        assert("type_mismatch"@ != "missing_lifetime"@);
        assert("type_mismatch"@ != "borrowed_value_too_short"@);
        assert("type_mismatch"@ != "returning_local_reference"@);
        assert("type_mismatch"@ != "temporary_dropped_while_borrowed"@);
        assert("type_mismatch"@ != "trait_requirement"@);
    }
    assert(primary_lesson("trait_requirement"@, code) == "trait_bounds"@) by {
        reveal_strlit("trait_requirement");
        assert("trait_requirement"@.len() == 17);
        reveal_strlit("use_after_move");
        assert("use_after_move"@.len() == 14);
        reveal_strlit("partial_move");
        assert("partial_move"@.len() == 12);
        reveal_strlit("multiple_mutable_borrows");
        assert("multiple_mutable_borrows"@.len() == 24);
        reveal_strlit("mutable_while_shared");
        assert("mutable_while_shared"@.len() == 20);
        reveal_strlit("assign_while_borrowed");
        assert("assign_while_borrowed"@.len() == 21);
        reveal_strlit("use_while_mutably_borrowed");
        assert("use_while_mutably_borrowed"@.len() == 26);
        reveal_strlit("move_while_borrowed");
        assert("move_while_borrowed"@.len() == 19);
        reveal_strlit("move_out_of_borrowed_content");
        assert("move_out_of_borrowed_content"@.len() == 28);
        reveal_strlit("immutable_mutation");
        assert("immutable_mutation"@.len() == 18);
        reveal_strlit("missing_lifetime");
        assert("missing_lifetime"@.len() == 16);
        reveal_strlit("borrowed_value_too_short");
        assert("borrowed_value_too_short"@.len() == 24);
        reveal_strlit("returning_local_reference");
        assert("returning_local_reference"@.len() == 25);
        reveal_strlit("temporary_dropped_while_borrowed");
        assert("temporary_dropped_while_borrowed"@.len() == 32);
        assert("trait_requirement"@ != "use_after_move"@);
        assert("trait_requirement"@ != "partial_move"@);
        assert("trait_requirement"@ != "multiple_mutable_borrows"@);
        assert("trait_requirement"@ != "mutable_while_shared"@);
        assert("trait_requirement"@ != "assign_while_borrowed"@);
        assert("trait_requirement"@ != "use_while_mutably_borrowed"@);
        assert("trait_requirement"@ != "move_while_borrowed"@);
        assert("trait_requirement"@ != "move_out_of_borrowed_content"@);
        assert("trait_requirement"@ != "immutable_mutation"@);
        assert("trait_requirement"@ != "missing_lifetime"@);
        assert("trait_requirement"@ != "borrowed_value_too_short"@);
        assert("trait_requirement"@ != "returning_local_reference"@);
        assert("trait_requirement"@ != "temporary_dropped_while_borrowed"@);
    }
    assert(primary_lesson("mutable_while_shared"@, code) == primary_lesson("assign_while_borrowed"@, other_code)) by {
        reveal_strlit("assign_while_borrowed");
        assert("assign_while_borrowed"@.len() == 21);
        reveal_strlit("use_after_move");
        assert("use_after_move"@.len() == 14);
        reveal_strlit("partial_move");
        assert("partial_move"@.len() == 12);
        reveal_strlit("multiple_mutable_borrows");
        assert("multiple_mutable_borrows"@.len() == 24);
        reveal_strlit("mutable_while_shared");
        assert("mutable_while_shared"@.len() == 20);
        assert("assign_while_borrowed"@ != "use_after_move"@);
        assert("assign_while_borrowed"@ != "partial_move"@);
        assert("assign_while_borrowed"@ != "multiple_mutable_borrows"@);
        assert("assign_while_borrowed"@ != "mutable_while_shared"@);
        reveal_strlit("mutable_while_shared");
        assert("mutable_while_shared"@.len() == 20);
        reveal_strlit("use_after_move");
        assert("use_after_move"@.len() == 14);
        reveal_strlit("partial_move");
        assert("partial_move"@.len() == 12);
        reveal_strlit("multiple_mutable_borrows");
        assert("multiple_mutable_borrows"@.len() == 24);
        assert("mutable_while_shared"@ != "use_after_move"@);
        assert("mutable_while_shared"@ != "partial_move"@);
        assert("mutable_while_shared"@ != "multiple_mutable_borrows"@);
    }
    assert(primary_lesson("missing_lifetime"@, code) == primary_lesson("borrowed_value_too_short"@, other_code)) by {
        reveal_strlit("missing_lifetime");
        assert("missing_lifetime"@.len() == 16);
        reveal_strlit("use_after_move");
        assert("use_after_move"@.len() == 14);
        reveal_strlit("partial_move");
        assert("partial_move"@.len() == 12);
        reveal_strlit("multiple_mutable_borrows");
        assert("multiple_mutable_borrows"@.len() == 24);
        reveal_strlit("mutable_while_shared");
        assert("mutable_while_shared"@.len() == 20);
        reveal_strlit("assign_while_borrowed");
        assert("assign_while_borrowed"@.len() == 21);
        reveal_strlit("use_while_mutably_borrowed");
        assert("use_while_mutably_borrowed"@.len() == 26);
        reveal_strlit("move_while_borrowed");
        assert("move_while_borrowed"@.len() == 19);
        reveal_strlit("move_out_of_borrowed_content");
        assert("move_out_of_borrowed_content"@.len() == 28);
        reveal_strlit("immutable_mutation");
        assert("immutable_mutation"@.len() == 18);
        assert("missing_lifetime"@ != "use_after_move"@);
        assert("missing_lifetime"@ != "partial_move"@);
        assert("missing_lifetime"@ != "multiple_mutable_borrows"@);
        assert("missing_lifetime"@ != "mutable_while_shared"@);
        assert("missing_lifetime"@ != "assign_while_borrowed"@);
        assert("missing_lifetime"@ != "use_while_mutably_borrowed"@);
        assert("missing_lifetime"@ != "move_while_borrowed"@);
        assert("missing_lifetime"@ != "move_out_of_borrowed_content"@);
        assert("missing_lifetime"@ != "immutable_mutation"@);
        reveal_strlit("borrowed_value_too_short");
        assert("borrowed_value_too_short"@.len() == 24);
        reveal_strlit("use_after_move");
        assert("use_after_move"@.len() == 14);
        reveal_strlit("partial_move");
        assert("partial_move"@.len() == 12);
        reveal_strlit("multiple_mutable_borrows");
        assert("multiple_mutable_borrows"@.len() == 24);
        reveal_strlit("mutable_while_shared");
        assert("mutable_while_shared"@.len() == 20);
        reveal_strlit("assign_while_borrowed");
        assert("assign_while_borrowed"@.len() == 21);
        reveal_strlit("use_while_mutably_borrowed");
        assert("use_while_mutably_borrowed"@.len() == 26);
        reveal_strlit("move_while_borrowed");
        assert("move_while_borrowed"@.len() == 19);
        reveal_strlit("move_out_of_borrowed_content");
        assert("move_out_of_borrowed_content"@.len() == 28);
        reveal_strlit("immutable_mutation");
        assert("immutable_mutation"@.len() == 18);
        reveal_strlit("missing_lifetime");
        assert("missing_lifetime"@.len() == 16);
        assert("borrowed_value_too_short"@ != "use_after_move"@);
        assert("borrowed_value_too_short"@ != "partial_move"@);
        assert("borrowed_value_too_short"@[0] != "multiple_mutable_borrows"@[0]);
        assert("borrowed_value_too_short"@ != "multiple_mutable_borrows"@);
        assert("borrowed_value_too_short"@ != "mutable_while_shared"@);
        assert("borrowed_value_too_short"@ != "assign_while_borrowed"@);
        assert("borrowed_value_too_short"@ != "use_while_mutably_borrowed"@);
        assert("borrowed_value_too_short"@ != "move_while_borrowed"@);
        assert("borrowed_value_too_short"@ != "move_out_of_borrowed_content"@);
        assert("borrowed_value_too_short"@ != "immutable_mutation"@);
        assert("borrowed_value_too_short"@ != "missing_lifetime"@);
    }
    assert(primary_lesson("closure_may_outlive_borrow"@, code) == primary_lesson("borrowed_data_escapes"@, other_code)) by {
        reveal_strlit("closure_may_outlive_borrow");
        assert("closure_may_outlive_borrow"@.len() == 26);
        reveal_strlit("use_after_move");
        assert("use_after_move"@.len() == 14);
        reveal_strlit("partial_move");
        assert("partial_move"@.len() == 12);
        reveal_strlit("multiple_mutable_borrows");
        assert("multiple_mutable_borrows"@.len() == 24);
        reveal_strlit("mutable_while_shared");
        assert("mutable_while_shared"@.len() == 20);
        reveal_strlit("assign_while_borrowed");
        assert("assign_while_borrowed"@.len() == 21);
        reveal_strlit("use_while_mutably_borrowed");
        assert("use_while_mutably_borrowed"@.len() == 26);
        reveal_strlit("move_while_borrowed");
        assert("move_while_borrowed"@.len() == 19);
        reveal_strlit("move_out_of_borrowed_content");
        assert("move_out_of_borrowed_content"@.len() == 28);
        reveal_strlit("immutable_mutation");
        assert("immutable_mutation"@.len() == 18);
        reveal_strlit("missing_lifetime");
        assert("missing_lifetime"@.len() == 16);
        reveal_strlit("borrowed_value_too_short");
        assert("borrowed_value_too_short"@.len() == 24);
        reveal_strlit("returning_local_reference");
        assert("returning_local_reference"@.len() == 25);
        reveal_strlit("temporary_dropped_while_borrowed");
        assert("temporary_dropped_while_borrowed"@.len() == 32);
        reveal_strlit("trait_requirement");
        assert("trait_requirement"@.len() == 17);
        reveal_strlit("type_mismatch");
        assert("type_mismatch"@.len() == 13);
        reveal_strlit("method_or_trait_unavailable");
        assert("method_or_trait_unavailable"@.len() == 27);
        assert("closure_may_outlive_borrow"@ != "use_after_move"@);
        assert("closure_may_outlive_borrow"@ != "partial_move"@);
        assert("closure_may_outlive_borrow"@ != "multiple_mutable_borrows"@);
        assert("closure_may_outlive_borrow"@ != "mutable_while_shared"@);
        assert("closure_may_outlive_borrow"@ != "assign_while_borrowed"@);
        assert("closure_may_outlive_borrow"@[0] != "use_while_mutably_borrowed"@[0]);
        assert("closure_may_outlive_borrow"@ != "use_while_mutably_borrowed"@);
        assert("closure_may_outlive_borrow"@ != "move_while_borrowed"@);
        assert("closure_may_outlive_borrow"@ != "move_out_of_borrowed_content"@);
        assert("closure_may_outlive_borrow"@ != "immutable_mutation"@);
        assert("closure_may_outlive_borrow"@ != "missing_lifetime"@);
        assert("closure_may_outlive_borrow"@ != "borrowed_value_too_short"@);
        assert("closure_may_outlive_borrow"@ != "returning_local_reference"@);
        assert("closure_may_outlive_borrow"@ != "temporary_dropped_while_borrowed"@);
        assert("closure_may_outlive_borrow"@ != "trait_requirement"@);
        assert("closure_may_outlive_borrow"@ != "type_mismatch"@);
        assert("closure_may_outlive_borrow"@ != "method_or_trait_unavailable"@);
        reveal_strlit("borrowed_data_escapes");
        assert("borrowed_data_escapes"@.len() == 21);
        reveal_strlit("use_after_move");
        assert("use_after_move"@.len() == 14);
        reveal_strlit("partial_move");
        assert("partial_move"@.len() == 12);
        reveal_strlit("multiple_mutable_borrows");
        assert("multiple_mutable_borrows"@.len() == 24);
        reveal_strlit("mutable_while_shared");
        assert("mutable_while_shared"@.len() == 20);
        reveal_strlit("assign_while_borrowed");
        assert("assign_while_borrowed"@.len() == 21);
        reveal_strlit("use_while_mutably_borrowed");
        assert("use_while_mutably_borrowed"@.len() == 26);
        reveal_strlit("move_while_borrowed");
        assert("move_while_borrowed"@.len() == 19);
        reveal_strlit("move_out_of_borrowed_content");
        assert("move_out_of_borrowed_content"@.len() == 28);
        reveal_strlit("immutable_mutation");
        assert("immutable_mutation"@.len() == 18);
        reveal_strlit("missing_lifetime");
        assert("missing_lifetime"@.len() == 16);
        reveal_strlit("borrowed_value_too_short");
        assert("borrowed_value_too_short"@.len() == 24);
        reveal_strlit("returning_local_reference");
        assert("returning_local_reference"@.len() == 25);
        reveal_strlit("temporary_dropped_while_borrowed");
        assert("temporary_dropped_while_borrowed"@.len() == 32);
        reveal_strlit("trait_requirement");
        assert("trait_requirement"@.len() == 17);
        reveal_strlit("type_mismatch");
        assert("type_mismatch"@.len() == 13);
        reveal_strlit("method_or_trait_unavailable");
        assert("method_or_trait_unavailable"@.len() == 27);
        reveal_strlit("closure_may_outlive_borrow");
        assert("closure_may_outlive_borrow"@.len() == 26);
        assert("borrowed_data_escapes"@ != "use_after_move"@);
        assert("borrowed_data_escapes"@ != "partial_move"@);
        assert("borrowed_data_escapes"@ != "multiple_mutable_borrows"@);
        assert("borrowed_data_escapes"@ != "mutable_while_shared"@);
        assert("borrowed_data_escapes"@[0] != "assign_while_borrowed"@[0]);
        assert("borrowed_data_escapes"@ != "assign_while_borrowed"@);
        assert("borrowed_data_escapes"@ != "use_while_mutably_borrowed"@);
        assert("borrowed_data_escapes"@ != "move_while_borrowed"@);
        assert("borrowed_data_escapes"@ != "move_out_of_borrowed_content"@);
        assert("borrowed_data_escapes"@ != "immutable_mutation"@);
        assert("borrowed_data_escapes"@ != "missing_lifetime"@);
        assert("borrowed_data_escapes"@ != "borrowed_value_too_short"@);
        assert("borrowed_data_escapes"@ != "returning_local_reference"@);
        assert("borrowed_data_escapes"@ != "temporary_dropped_while_borrowed"@);
        assert("borrowed_data_escapes"@ != "trait_requirement"@);
        assert("borrowed_data_escapes"@ != "type_mismatch"@);
        assert("borrowed_data_escapes"@ != "method_or_trait_unavailable"@);
        assert("borrowed_data_escapes"@ != "closure_may_outlive_borrow"@);
    }
    assert(secondary_lesson("mutable_while_shared"@) == secondary_lesson("assign_while_borrowed"@)) by {
        reveal_strlit("assign_while_borrowed");
        assert("assign_while_borrowed"@.len() == 21);
        reveal_strlit("use_after_move");
        assert("use_after_move"@.len() == 14);
        reveal_strlit("partial_move");
        assert("partial_move"@.len() == 12);
        reveal_strlit("multiple_mutable_borrows");
        assert("multiple_mutable_borrows"@.len() == 24);
        reveal_strlit("mutable_while_shared");
        assert("mutable_while_shared"@.len() == 20);
        assert("assign_while_borrowed"@ != "use_after_move"@);
        assert("assign_while_borrowed"@ != "partial_move"@);
        assert("assign_while_borrowed"@ != "multiple_mutable_borrows"@);
        assert("assign_while_borrowed"@ != "mutable_while_shared"@);
        reveal_strlit("mutable_while_shared");
        assert("mutable_while_shared"@.len() == 20);
        reveal_strlit("use_after_move");
        assert("use_after_move"@.len() == 14);
        reveal_strlit("partial_move");
        assert("partial_move"@.len() == 12);
        reveal_strlit("multiple_mutable_borrows");
        assert("multiple_mutable_borrows"@.len() == 24);
        assert("mutable_while_shared"@ != "use_after_move"@);
        assert("mutable_while_shared"@ != "partial_move"@);
        assert("mutable_while_shared"@ != "multiple_mutable_borrows"@);
    }
    assert(secondary_lesson("missing_lifetime"@) == secondary_lesson("borrowed_value_too_short"@)) by {
        reveal_strlit("missing_lifetime");
        assert("missing_lifetime"@.len() == 16);
        reveal_strlit("use_after_move");
        assert("use_after_move"@.len() == 14);
        reveal_strlit("partial_move");
        assert("partial_move"@.len() == 12);
        reveal_strlit("multiple_mutable_borrows");
        assert("multiple_mutable_borrows"@.len() == 24);
        reveal_strlit("mutable_while_shared");
        assert("mutable_while_shared"@.len() == 20);
        reveal_strlit("assign_while_borrowed");
        assert("assign_while_borrowed"@.len() == 21);
        reveal_strlit("use_while_mutably_borrowed");
        assert("use_while_mutably_borrowed"@.len() == 26);
        reveal_strlit("move_while_borrowed");
        assert("move_while_borrowed"@.len() == 19);
        reveal_strlit("move_out_of_borrowed_content");
        assert("move_out_of_borrowed_content"@.len() == 28);
        reveal_strlit("immutable_mutation");
        assert("immutable_mutation"@.len() == 18);
        reveal_strlit("borrowed_value_too_short");
        assert("borrowed_value_too_short"@.len() == 24);
        reveal_strlit("returning_local_reference");
        assert("returning_local_reference"@.len() == 25);
        reveal_strlit("temporary_dropped_while_borrowed");
        assert("temporary_dropped_while_borrowed"@.len() == 32);
        reveal_strlit("trait_requirement");
        assert("trait_requirement"@.len() == 17);
        reveal_strlit("type_mismatch");
        assert("type_mismatch"@.len() == 13);
        reveal_strlit("method_or_trait_unavailable");
        assert("method_or_trait_unavailable"@.len() == 27);
        reveal_strlit("closure_may_outlive_borrow");
        assert("closure_may_outlive_borrow"@.len() == 26);
        reveal_strlit("borrowed_data_escapes");
        assert("borrowed_data_escapes"@.len() == 21);
        reveal_strlit("await_outside_async");
        assert("await_outside_async"@.len() == 19);
        reveal_strlit("recursive_async_function");
        assert("recursive_async_function"@.len() == 24);
        assert("missing_lifetime"@ != "use_after_move"@);
        assert("missing_lifetime"@ != "partial_move"@);
        assert("missing_lifetime"@ != "multiple_mutable_borrows"@);
        assert("missing_lifetime"@ != "mutable_while_shared"@);
        assert("missing_lifetime"@ != "assign_while_borrowed"@);
        assert("missing_lifetime"@ != "use_while_mutably_borrowed"@);
        assert("missing_lifetime"@ != "move_while_borrowed"@);
        assert("missing_lifetime"@ != "move_out_of_borrowed_content"@);
        assert("missing_lifetime"@ != "immutable_mutation"@);
        assert("missing_lifetime"@ != "borrowed_value_too_short"@);
        assert("missing_lifetime"@ != "returning_local_reference"@);
        assert("missing_lifetime"@ != "temporary_dropped_while_borrowed"@);
        assert("missing_lifetime"@ != "trait_requirement"@);
        assert("missing_lifetime"@ != "type_mismatch"@);
        assert("missing_lifetime"@ != "method_or_trait_unavailable"@);
        assert("missing_lifetime"@ != "closure_may_outlive_borrow"@);
        assert("missing_lifetime"@ != "borrowed_data_escapes"@);
        assert("missing_lifetime"@ != "await_outside_async"@);
        assert("missing_lifetime"@ != "recursive_async_function"@);
        reveal_strlit("borrowed_value_too_short");
        assert("borrowed_value_too_short"@.len() == 24);
        reveal_strlit("use_after_move");
        assert("use_after_move"@.len() == 14);
        reveal_strlit("partial_move");
        assert("partial_move"@.len() == 12);
        reveal_strlit("multiple_mutable_borrows");
        assert("multiple_mutable_borrows"@.len() == 24);
        reveal_strlit("mutable_while_shared");
        assert("mutable_while_shared"@.len() == 20);
        reveal_strlit("assign_while_borrowed");
        assert("assign_while_borrowed"@.len() == 21);
        reveal_strlit("use_while_mutably_borrowed");
        assert("use_while_mutably_borrowed"@.len() == 26);
        reveal_strlit("move_while_borrowed");
        assert("move_while_borrowed"@.len() == 19);
        reveal_strlit("move_out_of_borrowed_content");
        assert("move_out_of_borrowed_content"@.len() == 28);
        reveal_strlit("immutable_mutation");
        assert("immutable_mutation"@.len() == 18);
        reveal_strlit("missing_lifetime");
        assert("missing_lifetime"@.len() == 16);
        reveal_strlit("returning_local_reference");
        assert("returning_local_reference"@.len() == 25);
        reveal_strlit("temporary_dropped_while_borrowed");
        assert("temporary_dropped_while_borrowed"@.len() == 32);
        reveal_strlit("trait_requirement");
        assert("trait_requirement"@.len() == 17);
        reveal_strlit("type_mismatch");
        assert("type_mismatch"@.len() == 13);
        reveal_strlit("method_or_trait_unavailable");
        assert("method_or_trait_unavailable"@.len() == 27);
        reveal_strlit("closure_may_outlive_borrow");
        assert("closure_may_outlive_borrow"@.len() == 26);
        reveal_strlit("borrowed_data_escapes");
        assert("borrowed_data_escapes"@.len() == 21);
        reveal_strlit("await_outside_async");
        assert("await_outside_async"@.len() == 19);
        reveal_strlit("recursive_async_function");
        assert("recursive_async_function"@.len() == 24);
        assert("borrowed_value_too_short"@ != "use_after_move"@);
        assert("borrowed_value_too_short"@ != "partial_move"@);
        assert("borrowed_value_too_short"@[0] != "multiple_mutable_borrows"@[0]);
        assert("borrowed_value_too_short"@ != "multiple_mutable_borrows"@);
        assert("borrowed_value_too_short"@ != "mutable_while_shared"@);
        assert("borrowed_value_too_short"@ != "assign_while_borrowed"@);
        assert("borrowed_value_too_short"@ != "use_while_mutably_borrowed"@);
        assert("borrowed_value_too_short"@ != "move_while_borrowed"@);
        assert("borrowed_value_too_short"@ != "move_out_of_borrowed_content"@);
        assert("borrowed_value_too_short"@ != "immutable_mutation"@);
        assert("borrowed_value_too_short"@ != "missing_lifetime"@);
        assert("borrowed_value_too_short"@ != "returning_local_reference"@);
        assert("borrowed_value_too_short"@ != "temporary_dropped_while_borrowed"@);
        assert("borrowed_value_too_short"@ != "trait_requirement"@);
        assert("borrowed_value_too_short"@ != "type_mismatch"@);
        assert("borrowed_value_too_short"@ != "method_or_trait_unavailable"@);
        assert("borrowed_value_too_short"@ != "closure_may_outlive_borrow"@);
        assert("borrowed_value_too_short"@ != "borrowed_data_escapes"@);
        assert("borrowed_value_too_short"@ != "await_outside_async"@);
        assert("borrowed_value_too_short"@[0] != "recursive_async_function"@[0]);
        assert("borrowed_value_too_short"@ != "recursive_async_function"@);
    }
    assert(secondary_lesson("closure_may_outlive_borrow"@) == secondary_lesson("borrowed_data_escapes"@)) by {
        reveal_strlit("closure_may_outlive_borrow");
        assert("closure_may_outlive_borrow"@.len() == 26);
        reveal_strlit("use_after_move");
        assert("use_after_move"@.len() == 14);
        reveal_strlit("partial_move");
        assert("partial_move"@.len() == 12);
        reveal_strlit("multiple_mutable_borrows");
        assert("multiple_mutable_borrows"@.len() == 24);
        reveal_strlit("mutable_while_shared");
        assert("mutable_while_shared"@.len() == 20);
        reveal_strlit("assign_while_borrowed");
        assert("assign_while_borrowed"@.len() == 21);
        reveal_strlit("use_while_mutably_borrowed");
        assert("use_while_mutably_borrowed"@.len() == 26);
        reveal_strlit("move_while_borrowed");
        assert("move_while_borrowed"@.len() == 19);
        reveal_strlit("move_out_of_borrowed_content");
        assert("move_out_of_borrowed_content"@.len() == 28);
        reveal_strlit("immutable_mutation");
        assert("immutable_mutation"@.len() == 18);
        reveal_strlit("missing_lifetime");
        assert("missing_lifetime"@.len() == 16);
        reveal_strlit("borrowed_value_too_short");
        assert("borrowed_value_too_short"@.len() == 24);
        reveal_strlit("returning_local_reference");
        assert("returning_local_reference"@.len() == 25);
        reveal_strlit("temporary_dropped_while_borrowed");
        assert("temporary_dropped_while_borrowed"@.len() == 32);
        reveal_strlit("trait_requirement");
        assert("trait_requirement"@.len() == 17);
        reveal_strlit("type_mismatch");
        assert("type_mismatch"@.len() == 13);
        reveal_strlit("method_or_trait_unavailable");
        assert("method_or_trait_unavailable"@.len() == 27);
        assert("closure_may_outlive_borrow"@ != "use_after_move"@);
        assert("closure_may_outlive_borrow"@ != "partial_move"@);
        assert("closure_may_outlive_borrow"@ != "multiple_mutable_borrows"@);
        assert("closure_may_outlive_borrow"@ != "mutable_while_shared"@);
        assert("closure_may_outlive_borrow"@ != "assign_while_borrowed"@);
        assert("closure_may_outlive_borrow"@[0] != "use_while_mutably_borrowed"@[0]);
        assert("closure_may_outlive_borrow"@ != "use_while_mutably_borrowed"@);
        assert("closure_may_outlive_borrow"@ != "move_while_borrowed"@);
        assert("closure_may_outlive_borrow"@ != "move_out_of_borrowed_content"@);
        assert("closure_may_outlive_borrow"@ != "immutable_mutation"@);
        assert("closure_may_outlive_borrow"@ != "missing_lifetime"@);
        assert("closure_may_outlive_borrow"@ != "borrowed_value_too_short"@);
        assert("closure_may_outlive_borrow"@ != "returning_local_reference"@);
        assert("closure_may_outlive_borrow"@ != "temporary_dropped_while_borrowed"@);
        assert("closure_may_outlive_borrow"@ != "trait_requirement"@);
        assert("closure_may_outlive_borrow"@ != "type_mismatch"@);
        assert("closure_may_outlive_borrow"@ != "method_or_trait_unavailable"@);
        reveal_strlit("borrowed_data_escapes");
        assert("borrowed_data_escapes"@.len() == 21);
        reveal_strlit("use_after_move");
        assert("use_after_move"@.len() == 14);
        reveal_strlit("partial_move");
        assert("partial_move"@.len() == 12);
        reveal_strlit("multiple_mutable_borrows");
        assert("multiple_mutable_borrows"@.len() == 24);
        reveal_strlit("mutable_while_shared");
        assert("mutable_while_shared"@.len() == 20);
        reveal_strlit("assign_while_borrowed");
        assert("assign_while_borrowed"@.len() == 21);
        reveal_strlit("use_while_mutably_borrowed");
        assert("use_while_mutably_borrowed"@.len() == 26);
        reveal_strlit("move_while_borrowed");
        assert("move_while_borrowed"@.len() == 19);
        reveal_strlit("move_out_of_borrowed_content");
        assert("move_out_of_borrowed_content"@.len() == 28);
        reveal_strlit("immutable_mutation");
        assert("immutable_mutation"@.len() == 18);
        reveal_strlit("missing_lifetime");
        assert("missing_lifetime"@.len() == 16);
        reveal_strlit("borrowed_value_too_short");
        assert("borrowed_value_too_short"@.len() == 24);
        reveal_strlit("returning_local_reference");
        assert("returning_local_reference"@.len() == 25);
        reveal_strlit("temporary_dropped_while_borrowed");
        assert("temporary_dropped_while_borrowed"@.len() == 32);
        reveal_strlit("trait_requirement");
        assert("trait_requirement"@.len() == 17);
        reveal_strlit("type_mismatch");
        assert("type_mismatch"@.len() == 13);
        reveal_strlit("method_or_trait_unavailable");
        assert("method_or_trait_unavailable"@.len() == 27);
        reveal_strlit("closure_may_outlive_borrow");
        assert("closure_may_outlive_borrow"@.len() == 26);
        assert("borrowed_data_escapes"@ != "use_after_move"@);
        assert("borrowed_data_escapes"@ != "partial_move"@);
        assert("borrowed_data_escapes"@ != "multiple_mutable_borrows"@);
        assert("borrowed_data_escapes"@ != "mutable_while_shared"@);
        assert("borrowed_data_escapes"@[0] != "assign_while_borrowed"@[0]);
        assert("borrowed_data_escapes"@ != "assign_while_borrowed"@);
        assert("borrowed_data_escapes"@ != "use_while_mutably_borrowed"@);
        assert("borrowed_data_escapes"@ != "move_while_borrowed"@);
        assert("borrowed_data_escapes"@ != "move_out_of_borrowed_content"@);
        assert("borrowed_data_escapes"@ != "immutable_mutation"@);
        assert("borrowed_data_escapes"@ != "missing_lifetime"@);
        assert("borrowed_data_escapes"@ != "borrowed_value_too_short"@);
        assert("borrowed_data_escapes"@ != "returning_local_reference"@);
        assert("borrowed_data_escapes"@ != "temporary_dropped_while_borrowed"@);
        assert("borrowed_data_escapes"@ != "trait_requirement"@);
        assert("borrowed_data_escapes"@ != "type_mismatch"@);
        assert("borrowed_data_escapes"@ != "method_or_trait_unavailable"@);
        assert("borrowed_data_escapes"@ != "closure_may_outlive_borrow"@);
    }
}

/// Each problem category the workbench explains is first taught by the
/// lesson on its own topic, whatever the diagnostic code: moves, partial
/// moves, exclusive borrowing, borrow conflicts, moving while borrowed,
/// mutability contracts, lifetimes, returning references, temporary
/// lifetimes, trait requirements, type mismatches, method resolution,
/// closure captures and async futures.
#[verifier::rlimit(40)]
#[verifier::spinoff_prover]
pub proof fn each_category_opens_with_its_own_lesson(code: Option<Seq<char>>)
    ensures
        primary_lesson("use_after_move"@, code) == "moves"@,
        primary_lesson("partial_move"@, code) == "partial_moves"@,
        primary_lesson("multiple_mutable_borrows"@, code) == "exclusive_borrow"@,
        primary_lesson("mutable_while_shared"@, code) == "borrow_conflicts"@,
        primary_lesson("assign_while_borrowed"@, code) == "borrow_conflicts"@,
        primary_lesson("use_while_mutably_borrowed"@, code) == "exclusive_borrow"@,
        primary_lesson("move_while_borrowed"@, code) == "moves_and_borrows"@,
        primary_lesson("move_out_of_borrowed_content"@, code) == "moves_and_borrows"@,
        primary_lesson("immutable_mutation"@, code) == "mutability_contracts"@,
        primary_lesson("missing_lifetime"@, code) == "lifetimes"@,
        primary_lesson("borrowed_value_too_short"@, code) == "lifetimes"@,
        primary_lesson("returning_local_reference"@, code) == "returning_references"@,
        primary_lesson("temporary_dropped_while_borrowed"@, code) == "temporary_lifetimes"@,
        primary_lesson("trait_requirement"@, code) == "trait_bounds"@,
        primary_lesson("type_mismatch"@, code) == "type_mismatches"@,
        primary_lesson("method_or_trait_unavailable"@, code) == "method_resolution"@,
        primary_lesson("closure_may_outlive_borrow"@, code) == "closure_captures"@,
        primary_lesson("borrowed_data_escapes"@, code) == "closure_captures"@,
        primary_lesson("await_outside_async"@, code) == "async_futures"@,
        primary_lesson("recursive_async_function"@, code) == "async_futures"@,
{
    assert(primary_lesson("use_after_move"@, code) == "moves"@) by {
        reveal_strlit("use_after_move");
        assert("use_after_move"@.len() == 14);
    }
    assert(primary_lesson("partial_move"@, code) == "partial_moves"@) by {
        reveal_strlit("partial_move");
        assert("partial_move"@.len() == 12);
        reveal_strlit("use_after_move");
        assert("use_after_move"@.len() == 14);
        assert("partial_move"@ != "use_after_move"@);
    }
    assert(primary_lesson("multiple_mutable_borrows"@, code) == "exclusive_borrow"@) by {
        reveal_strlit("multiple_mutable_borrows");
        assert("multiple_mutable_borrows"@.len() == 24);
        reveal_strlit("use_after_move");
        assert("use_after_move"@.len() == 14);
        reveal_strlit("partial_move");
        assert("partial_move"@.len() == 12);
        assert("multiple_mutable_borrows"@ != "use_after_move"@);
        assert("multiple_mutable_borrows"@ != "partial_move"@);
    }
    assert(primary_lesson("mutable_while_shared"@, code) == "borrow_conflicts"@) by {
        reveal_strlit("mutable_while_shared");
        assert("mutable_while_shared"@.len() == 20);
        reveal_strlit("use_after_move");
        assert("use_after_move"@.len() == 14);
        reveal_strlit("partial_move");
        assert("partial_move"@.len() == 12);
        reveal_strlit("multiple_mutable_borrows");
        assert("multiple_mutable_borrows"@.len() == 24);
        assert("mutable_while_shared"@ != "use_after_move"@);
        assert("mutable_while_shared"@ != "partial_move"@);
        assert("mutable_while_shared"@ != "multiple_mutable_borrows"@);
    }
    assert(primary_lesson("assign_while_borrowed"@, code) == "borrow_conflicts"@) by {
        reveal_strlit("assign_while_borrowed");
        assert("assign_while_borrowed"@.len() == 21);
        reveal_strlit("use_after_move");
        assert("use_after_move"@.len() == 14);
        reveal_strlit("partial_move");
        assert("partial_move"@.len() == 12);
        reveal_strlit("multiple_mutable_borrows");
        assert("multiple_mutable_borrows"@.len() == 24);
        reveal_strlit("mutable_while_shared");
        assert("mutable_while_shared"@.len() == 20);
        assert("assign_while_borrowed"@ != "use_after_move"@);
        assert("assign_while_borrowed"@ != "partial_move"@);
        assert("assign_while_borrowed"@ != "multiple_mutable_borrows"@);
        assert("assign_while_borrowed"@ != "mutable_while_shared"@);
    }
    assert(primary_lesson("use_while_mutably_borrowed"@, code) == "exclusive_borrow"@) by {
        reveal_strlit("use_while_mutably_borrowed");
        assert("use_while_mutably_borrowed"@.len() == 26);
        reveal_strlit("use_after_move");
        assert("use_after_move"@.len() == 14);
        reveal_strlit("partial_move");
        assert("partial_move"@.len() == 12);
        reveal_strlit("multiple_mutable_borrows");
        assert("multiple_mutable_borrows"@.len() == 24);
        reveal_strlit("mutable_while_shared");
        assert("mutable_while_shared"@.len() == 20);
        reveal_strlit("assign_while_borrowed");
        assert("assign_while_borrowed"@.len() == 21);
        assert("use_while_mutably_borrowed"@ != "use_after_move"@);
        assert("use_while_mutably_borrowed"@ != "partial_move"@);
        assert("use_while_mutably_borrowed"@ != "multiple_mutable_borrows"@);
        assert("use_while_mutably_borrowed"@ != "mutable_while_shared"@);
        assert("use_while_mutably_borrowed"@ != "assign_while_borrowed"@);
    }
    assert(primary_lesson("move_while_borrowed"@, code) == "moves_and_borrows"@) by {
        reveal_strlit("move_while_borrowed");
        assert("move_while_borrowed"@.len() == 19);
        reveal_strlit("use_after_move");
        assert("use_after_move"@.len() == 14);
        reveal_strlit("partial_move");
        assert("partial_move"@.len() == 12);
        reveal_strlit("multiple_mutable_borrows");
        assert("multiple_mutable_borrows"@.len() == 24);
        reveal_strlit("mutable_while_shared");
        assert("mutable_while_shared"@.len() == 20);
        reveal_strlit("assign_while_borrowed");
        assert("assign_while_borrowed"@.len() == 21);
        reveal_strlit("use_while_mutably_borrowed");
        assert("use_while_mutably_borrowed"@.len() == 26);
        assert("move_while_borrowed"@ != "use_after_move"@);
        assert("move_while_borrowed"@ != "partial_move"@);
        assert("move_while_borrowed"@ != "multiple_mutable_borrows"@);
        assert("move_while_borrowed"@ != "mutable_while_shared"@);
        assert("move_while_borrowed"@ != "assign_while_borrowed"@);
        assert("move_while_borrowed"@ != "use_while_mutably_borrowed"@);
    }
    assert(primary_lesson("move_out_of_borrowed_content"@, code) == "moves_and_borrows"@) by {
        reveal_strlit("move_out_of_borrowed_content");
        assert("move_out_of_borrowed_content"@.len() == 28);
        reveal_strlit("use_after_move");
        assert("use_after_move"@.len() == 14);
        reveal_strlit("partial_move");
        assert("partial_move"@.len() == 12);
        reveal_strlit("multiple_mutable_borrows");
        assert("multiple_mutable_borrows"@.len() == 24);
        reveal_strlit("mutable_while_shared");
        assert("mutable_while_shared"@.len() == 20);
        reveal_strlit("assign_while_borrowed");
        assert("assign_while_borrowed"@.len() == 21);
        reveal_strlit("use_while_mutably_borrowed");
        assert("use_while_mutably_borrowed"@.len() == 26);
        reveal_strlit("move_while_borrowed");
        assert("move_while_borrowed"@.len() == 19);
        assert("move_out_of_borrowed_content"@ != "use_after_move"@);
        assert("move_out_of_borrowed_content"@ != "partial_move"@);
        assert("move_out_of_borrowed_content"@ != "multiple_mutable_borrows"@);
        assert("move_out_of_borrowed_content"@ != "mutable_while_shared"@);
        assert("move_out_of_borrowed_content"@ != "assign_while_borrowed"@);
        assert("move_out_of_borrowed_content"@ != "use_while_mutably_borrowed"@);
        assert("move_out_of_borrowed_content"@ != "move_while_borrowed"@);
    }
    assert(primary_lesson("immutable_mutation"@, code) == "mutability_contracts"@) by {
        reveal_strlit("immutable_mutation");
        assert("immutable_mutation"@.len() == 18);
        reveal_strlit("use_after_move");
        assert("use_after_move"@.len() == 14);
        reveal_strlit("partial_move");
        assert("partial_move"@.len() == 12);
        reveal_strlit("multiple_mutable_borrows");
        assert("multiple_mutable_borrows"@.len() == 24);
        reveal_strlit("mutable_while_shared");
        assert("mutable_while_shared"@.len() == 20);
        reveal_strlit("assign_while_borrowed");
        assert("assign_while_borrowed"@.len() == 21);
        reveal_strlit("use_while_mutably_borrowed");
        assert("use_while_mutably_borrowed"@.len() == 26);
        reveal_strlit("move_while_borrowed");
        assert("move_while_borrowed"@.len() == 19);
        reveal_strlit("move_out_of_borrowed_content");
        assert("move_out_of_borrowed_content"@.len() == 28);
        assert("immutable_mutation"@ != "use_after_move"@);
        assert("immutable_mutation"@ != "partial_move"@);
        assert("immutable_mutation"@ != "multiple_mutable_borrows"@);
        assert("immutable_mutation"@ != "mutable_while_shared"@);
        assert("immutable_mutation"@ != "assign_while_borrowed"@);
        assert("immutable_mutation"@ != "use_while_mutably_borrowed"@);
        assert("immutable_mutation"@ != "move_while_borrowed"@);
        assert("immutable_mutation"@ != "move_out_of_borrowed_content"@);
    }
    assert(primary_lesson("missing_lifetime"@, code) == "lifetimes"@) by {
        reveal_strlit("missing_lifetime");
        assert("missing_lifetime"@.len() == 16);
        reveal_strlit("use_after_move");
        assert("use_after_move"@.len() == 14);
        reveal_strlit("partial_move");
        assert("partial_move"@.len() == 12);
        reveal_strlit("multiple_mutable_borrows");
        assert("multiple_mutable_borrows"@.len() == 24);
        reveal_strlit("mutable_while_shared");
        assert("mutable_while_shared"@.len() == 20);
        reveal_strlit("assign_while_borrowed");
        assert("assign_while_borrowed"@.len() == 21);
        reveal_strlit("use_while_mutably_borrowed");
        assert("use_while_mutably_borrowed"@.len() == 26);
        reveal_strlit("move_while_borrowed");
        assert("move_while_borrowed"@.len() == 19);
        reveal_strlit("move_out_of_borrowed_content");
        assert("move_out_of_borrowed_content"@.len() == 28);
        reveal_strlit("immutable_mutation");
        assert("immutable_mutation"@.len() == 18);
        assert("missing_lifetime"@ != "use_after_move"@);
        assert("missing_lifetime"@ != "partial_move"@);
        assert("missing_lifetime"@ != "multiple_mutable_borrows"@);
        assert("missing_lifetime"@ != "mutable_while_shared"@);
        assert("missing_lifetime"@ != "assign_while_borrowed"@);
        assert("missing_lifetime"@ != "use_while_mutably_borrowed"@);
        assert("missing_lifetime"@ != "move_while_borrowed"@);
        assert("missing_lifetime"@ != "move_out_of_borrowed_content"@);
        assert("missing_lifetime"@ != "immutable_mutation"@);
    }
    assert(primary_lesson("borrowed_value_too_short"@, code) == "lifetimes"@) by {
        reveal_strlit("borrowed_value_too_short");
        assert("borrowed_value_too_short"@.len() == 24);
        reveal_strlit("use_after_move");
        assert("use_after_move"@.len() == 14);
        reveal_strlit("partial_move");
        assert("partial_move"@.len() == 12);
        reveal_strlit("multiple_mutable_borrows");
        assert("multiple_mutable_borrows"@.len() == 24);
        reveal_strlit("mutable_while_shared");
        assert("mutable_while_shared"@.len() == 20);
        reveal_strlit("assign_while_borrowed");
        assert("assign_while_borrowed"@.len() == 21);
        reveal_strlit("use_while_mutably_borrowed");
        assert("use_while_mutably_borrowed"@.len() == 26);
        reveal_strlit("move_while_borrowed");
        assert("move_while_borrowed"@.len() == 19);
        reveal_strlit("move_out_of_borrowed_content");
        assert("move_out_of_borrowed_content"@.len() == 28);
        reveal_strlit("immutable_mutation");
        assert("immutable_mutation"@.len() == 18);
        reveal_strlit("missing_lifetime");
        assert("missing_lifetime"@.len() == 16);
        assert("borrowed_value_too_short"@ != "use_after_move"@);
        assert("borrowed_value_too_short"@ != "partial_move"@);
        assert("borrowed_value_too_short"@[0] != "multiple_mutable_borrows"@[0]);
        assert("borrowed_value_too_short"@ != "multiple_mutable_borrows"@);
        assert("borrowed_value_too_short"@ != "mutable_while_shared"@);
        assert("borrowed_value_too_short"@ != "assign_while_borrowed"@);
        assert("borrowed_value_too_short"@ != "use_while_mutably_borrowed"@);
        assert("borrowed_value_too_short"@ != "move_while_borrowed"@);
        assert("borrowed_value_too_short"@ != "move_out_of_borrowed_content"@);
        assert("borrowed_value_too_short"@ != "immutable_mutation"@);
        assert("borrowed_value_too_short"@ != "missing_lifetime"@);
    }
    assert(primary_lesson("returning_local_reference"@, code) == "returning_references"@) by {
        reveal_strlit("returning_local_reference");
        assert("returning_local_reference"@.len() == 25);
        reveal_strlit("use_after_move");
        assert("use_after_move"@.len() == 14);
        reveal_strlit("partial_move");
        assert("partial_move"@.len() == 12);
        reveal_strlit("multiple_mutable_borrows");
        assert("multiple_mutable_borrows"@.len() == 24);
        reveal_strlit("mutable_while_shared");
        assert("mutable_while_shared"@.len() == 20);
        reveal_strlit("assign_while_borrowed");
        assert("assign_while_borrowed"@.len() == 21);
        reveal_strlit("use_while_mutably_borrowed");
        assert("use_while_mutably_borrowed"@.len() == 26);
        reveal_strlit("move_while_borrowed");
        assert("move_while_borrowed"@.len() == 19);
        reveal_strlit("move_out_of_borrowed_content");
        assert("move_out_of_borrowed_content"@.len() == 28);
        reveal_strlit("immutable_mutation");
        assert("immutable_mutation"@.len() == 18);
        reveal_strlit("missing_lifetime");
        assert("missing_lifetime"@.len() == 16);
        reveal_strlit("borrowed_value_too_short");
        assert("borrowed_value_too_short"@.len() == 24);
        assert("returning_local_reference"@ != "use_after_move"@);
        assert("returning_local_reference"@ != "partial_move"@);
        assert("returning_local_reference"@ != "multiple_mutable_borrows"@);
        assert("returning_local_reference"@ != "mutable_while_shared"@);
        assert("returning_local_reference"@ != "assign_while_borrowed"@);
        assert("returning_local_reference"@ != "use_while_mutably_borrowed"@);
        assert("returning_local_reference"@ != "move_while_borrowed"@);
        assert("returning_local_reference"@ != "move_out_of_borrowed_content"@);
        assert("returning_local_reference"@ != "immutable_mutation"@);
        assert("returning_local_reference"@ != "missing_lifetime"@);
        assert("returning_local_reference"@ != "borrowed_value_too_short"@);
    }
    assert(primary_lesson("temporary_dropped_while_borrowed"@, code) == "temporary_lifetimes"@) by {
        reveal_strlit("temporary_dropped_while_borrowed");
        assert("temporary_dropped_while_borrowed"@.len() == 32);
        reveal_strlit("use_after_move");
        assert("use_after_move"@.len() == 14);
        reveal_strlit("partial_move");
        assert("partial_move"@.len() == 12);
        reveal_strlit("multiple_mutable_borrows");
        assert("multiple_mutable_borrows"@.len() == 24);
        reveal_strlit("mutable_while_shared");
        assert("mutable_while_shared"@.len() == 20);
        reveal_strlit("assign_while_borrowed");
        assert("assign_while_borrowed"@.len() == 21);
        reveal_strlit("use_while_mutably_borrowed");
        assert("use_while_mutably_borrowed"@.len() == 26);
        reveal_strlit("move_while_borrowed");
        assert("move_while_borrowed"@.len() == 19);
        reveal_strlit("move_out_of_borrowed_content");
        assert("move_out_of_borrowed_content"@.len() == 28);
        reveal_strlit("immutable_mutation");
        assert("immutable_mutation"@.len() == 18);
        reveal_strlit("missing_lifetime");
        assert("missing_lifetime"@.len() == 16);
        reveal_strlit("borrowed_value_too_short");
        assert("borrowed_value_too_short"@.len() == 24);
        reveal_strlit("returning_local_reference");
        assert("returning_local_reference"@.len() == 25);
        assert("temporary_dropped_while_borrowed"@ != "use_after_move"@);
        assert("temporary_dropped_while_borrowed"@ != "partial_move"@);
        assert("temporary_dropped_while_borrowed"@ != "multiple_mutable_borrows"@);
        assert("temporary_dropped_while_borrowed"@ != "mutable_while_shared"@);
        assert("temporary_dropped_while_borrowed"@ != "assign_while_borrowed"@);
        assert("temporary_dropped_while_borrowed"@ != "use_while_mutably_borrowed"@);
        assert("temporary_dropped_while_borrowed"@ != "move_while_borrowed"@);
        assert("temporary_dropped_while_borrowed"@ != "move_out_of_borrowed_content"@);
        assert("temporary_dropped_while_borrowed"@ != "immutable_mutation"@);
        assert("temporary_dropped_while_borrowed"@ != "missing_lifetime"@);
        assert("temporary_dropped_while_borrowed"@ != "borrowed_value_too_short"@);
        assert("temporary_dropped_while_borrowed"@ != "returning_local_reference"@);
    }
    assert(primary_lesson("trait_requirement"@, code) == "trait_bounds"@) by {
        reveal_strlit("trait_requirement");
        assert("trait_requirement"@.len() == 17);
        reveal_strlit("use_after_move");
        assert("use_after_move"@.len() == 14);
        reveal_strlit("partial_move");
        assert("partial_move"@.len() == 12);
        reveal_strlit("multiple_mutable_borrows");
        assert("multiple_mutable_borrows"@.len() == 24);
        reveal_strlit("mutable_while_shared");
        assert("mutable_while_shared"@.len() == 20);
        reveal_strlit("assign_while_borrowed");
        assert("assign_while_borrowed"@.len() == 21);
        reveal_strlit("use_while_mutably_borrowed");
        assert("use_while_mutably_borrowed"@.len() == 26);
        reveal_strlit("move_while_borrowed");
        assert("move_while_borrowed"@.len() == 19);
        reveal_strlit("move_out_of_borrowed_content");
        assert("move_out_of_borrowed_content"@.len() == 28);
        reveal_strlit("immutable_mutation");
        assert("immutable_mutation"@.len() == 18);
        reveal_strlit("missing_lifetime");
        assert("missing_lifetime"@.len() == 16);
        reveal_strlit("borrowed_value_too_short");
        assert("borrowed_value_too_short"@.len() == 24);
        reveal_strlit("returning_local_reference");
        assert("returning_local_reference"@.len() == 25);
        reveal_strlit("temporary_dropped_while_borrowed");
        assert("temporary_dropped_while_borrowed"@.len() == 32);
        assert("trait_requirement"@ != "use_after_move"@);
        assert("trait_requirement"@ != "partial_move"@);
        assert("trait_requirement"@ != "multiple_mutable_borrows"@);
        assert("trait_requirement"@ != "mutable_while_shared"@);
        assert("trait_requirement"@ != "assign_while_borrowed"@);
        assert("trait_requirement"@ != "use_while_mutably_borrowed"@);
        assert("trait_requirement"@ != "move_while_borrowed"@);
        assert("trait_requirement"@ != "move_out_of_borrowed_content"@);
        assert("trait_requirement"@ != "immutable_mutation"@);
        assert("trait_requirement"@ != "missing_lifetime"@);
        assert("trait_requirement"@ != "borrowed_value_too_short"@);
        assert("trait_requirement"@ != "returning_local_reference"@);
        assert("trait_requirement"@ != "temporary_dropped_while_borrowed"@);
    }
    assert(primary_lesson("type_mismatch"@, code) == "type_mismatches"@) by {
        reveal_strlit("type_mismatch");
        assert("type_mismatch"@.len() == 13);
        reveal_strlit("use_after_move");
        assert("use_after_move"@.len() == 14);
        reveal_strlit("partial_move");
        assert("partial_move"@.len() == 12);
        reveal_strlit("multiple_mutable_borrows");
        assert("multiple_mutable_borrows"@.len() == 24);
        reveal_strlit("mutable_while_shared");
        assert("mutable_while_shared"@.len() == 20);
        reveal_strlit("assign_while_borrowed");
        assert("assign_while_borrowed"@.len() == 21);
        reveal_strlit("use_while_mutably_borrowed");
        assert("use_while_mutably_borrowed"@.len() == 26);
        reveal_strlit("move_while_borrowed");
        assert("move_while_borrowed"@.len() == 19);
        reveal_strlit("move_out_of_borrowed_content");
        assert("move_out_of_borrowed_content"@.len() == 28);
        reveal_strlit("immutable_mutation");
        assert("immutable_mutation"@.len() == 18);
        reveal_strlit("missing_lifetime");
        assert("missing_lifetime"@.len() == 16);
        reveal_strlit("borrowed_value_too_short");
        assert("borrowed_value_too_short"@.len() == 24);
        reveal_strlit("returning_local_reference");
        assert("returning_local_reference"@.len() == 25);
        reveal_strlit("temporary_dropped_while_borrowed");
        assert("temporary_dropped_while_borrowed"@.len() == 32);
        reveal_strlit("trait_requirement");
        assert("trait_requirement"@.len() == 17);
        assert("type_mismatch"@ != "use_after_move"@);
        assert("type_mismatch"@ != "partial_move"@);
        assert("type_mismatch"@ != "multiple_mutable_borrows"@);
        assert("type_mismatch"@ != "mutable_while_shared"@);
        assert("type_mismatch"@ != "assign_while_borrowed"@);
        assert("type_mismatch"@ != "use_while_mutably_borrowed"@);
        assert("type_mismatch"@ != "move_while_borrowed"@);
        assert("type_mismatch"@ != "move_out_of_borrowed_content"@);
        assert("type_mismatch"@ != "immutable_mutation"@);
        assert("type_mismatch"@ != "missing_lifetime"@);
        assert("type_mismatch"@ != "borrowed_value_too_short"@);
        assert("type_mismatch"@ != "returning_local_reference"@);
        assert("type_mismatch"@ != "temporary_dropped_while_borrowed"@);
        assert("type_mismatch"@ != "trait_requirement"@);
    }
    assert(primary_lesson("method_or_trait_unavailable"@, code) == "method_resolution"@) by {
        reveal_strlit("method_or_trait_unavailable");
        assert("method_or_trait_unavailable"@.len() == 27);
        reveal_strlit("use_after_move");
        assert("use_after_move"@.len() == 14);
        reveal_strlit("partial_move");
        assert("partial_move"@.len() == 12);
        reveal_strlit("multiple_mutable_borrows");
        assert("multiple_mutable_borrows"@.len() == 24);
        reveal_strlit("mutable_while_shared");
        assert("mutable_while_shared"@.len() == 20);
        reveal_strlit("assign_while_borrowed");
        assert("assign_while_borrowed"@.len() == 21);
        reveal_strlit("use_while_mutably_borrowed");
        assert("use_while_mutably_borrowed"@.len() == 26);
        reveal_strlit("move_while_borrowed");
        assert("move_while_borrowed"@.len() == 19);
        reveal_strlit("move_out_of_borrowed_content");
        assert("move_out_of_borrowed_content"@.len() == 28);
        reveal_strlit("immutable_mutation");
        assert("immutable_mutation"@.len() == 18);
        reveal_strlit("missing_lifetime");
        assert("missing_lifetime"@.len() == 16);
        reveal_strlit("borrowed_value_too_short");
        assert("borrowed_value_too_short"@.len() == 24);
        reveal_strlit("returning_local_reference");
        assert("returning_local_reference"@.len() == 25);
        reveal_strlit("temporary_dropped_while_borrowed");
        assert("temporary_dropped_while_borrowed"@.len() == 32);
        reveal_strlit("trait_requirement");
        assert("trait_requirement"@.len() == 17);
        reveal_strlit("type_mismatch");
        assert("type_mismatch"@.len() == 13);
        assert("method_or_trait_unavailable"@ != "use_after_move"@);
        assert("method_or_trait_unavailable"@ != "partial_move"@);
        assert("method_or_trait_unavailable"@ != "multiple_mutable_borrows"@);
        assert("method_or_trait_unavailable"@ != "mutable_while_shared"@);
        assert("method_or_trait_unavailable"@ != "assign_while_borrowed"@);
        assert("method_or_trait_unavailable"@ != "use_while_mutably_borrowed"@);
        assert("method_or_trait_unavailable"@ != "move_while_borrowed"@);
        assert("method_or_trait_unavailable"@ != "move_out_of_borrowed_content"@);
        assert("method_or_trait_unavailable"@ != "immutable_mutation"@);
        assert("method_or_trait_unavailable"@ != "missing_lifetime"@);
        assert("method_or_trait_unavailable"@ != "borrowed_value_too_short"@);
        assert("method_or_trait_unavailable"@ != "returning_local_reference"@);
        assert("method_or_trait_unavailable"@ != "temporary_dropped_while_borrowed"@);
        assert("method_or_trait_unavailable"@ != "trait_requirement"@);
        assert("method_or_trait_unavailable"@ != "type_mismatch"@);
    }
    assert(primary_lesson("closure_may_outlive_borrow"@, code) == "closure_captures"@) by {
        reveal_strlit("closure_may_outlive_borrow");
        assert("closure_may_outlive_borrow"@.len() == 26);
        reveal_strlit("use_after_move");
        assert("use_after_move"@.len() == 14);
        reveal_strlit("partial_move");
        assert("partial_move"@.len() == 12);
        reveal_strlit("multiple_mutable_borrows");
        assert("multiple_mutable_borrows"@.len() == 24);
        reveal_strlit("mutable_while_shared");
        assert("mutable_while_shared"@.len() == 20);
        reveal_strlit("assign_while_borrowed");
        assert("assign_while_borrowed"@.len() == 21);
        reveal_strlit("use_while_mutably_borrowed");
        assert("use_while_mutably_borrowed"@.len() == 26);
        reveal_strlit("move_while_borrowed");
        assert("move_while_borrowed"@.len() == 19);
        reveal_strlit("move_out_of_borrowed_content");
        assert("move_out_of_borrowed_content"@.len() == 28);
        reveal_strlit("immutable_mutation");
        assert("immutable_mutation"@.len() == 18);
        reveal_strlit("missing_lifetime");
        assert("missing_lifetime"@.len() == 16);
        reveal_strlit("borrowed_value_too_short");
        assert("borrowed_value_too_short"@.len() == 24);
        reveal_strlit("returning_local_reference");
        assert("returning_local_reference"@.len() == 25);
        reveal_strlit("temporary_dropped_while_borrowed");
        assert("temporary_dropped_while_borrowed"@.len() == 32);
        reveal_strlit("trait_requirement");
        assert("trait_requirement"@.len() == 17);
        reveal_strlit("type_mismatch");
        assert("type_mismatch"@.len() == 13);
        reveal_strlit("method_or_trait_unavailable");
        assert("method_or_trait_unavailable"@.len() == 27);
        assert("closure_may_outlive_borrow"@ != "use_after_move"@);
        assert("closure_may_outlive_borrow"@ != "partial_move"@);
        assert("closure_may_outlive_borrow"@ != "multiple_mutable_borrows"@);
        assert("closure_may_outlive_borrow"@ != "mutable_while_shared"@);
        assert("closure_may_outlive_borrow"@ != "assign_while_borrowed"@);
        assert("closure_may_outlive_borrow"@[0] != "use_while_mutably_borrowed"@[0]);
        assert("closure_may_outlive_borrow"@ != "use_while_mutably_borrowed"@);
        assert("closure_may_outlive_borrow"@ != "move_while_borrowed"@);
        assert("closure_may_outlive_borrow"@ != "move_out_of_borrowed_content"@);
        assert("closure_may_outlive_borrow"@ != "immutable_mutation"@);
        assert("closure_may_outlive_borrow"@ != "missing_lifetime"@);
        assert("closure_may_outlive_borrow"@ != "borrowed_value_too_short"@);
        assert("closure_may_outlive_borrow"@ != "returning_local_reference"@);
        assert("closure_may_outlive_borrow"@ != "temporary_dropped_while_borrowed"@);
        assert("closure_may_outlive_borrow"@ != "trait_requirement"@);
        assert("closure_may_outlive_borrow"@ != "type_mismatch"@);
        assert("closure_may_outlive_borrow"@ != "method_or_trait_unavailable"@);
    }
    assert(primary_lesson("borrowed_data_escapes"@, code) == "closure_captures"@) by {
        reveal_strlit("borrowed_data_escapes");
        assert("borrowed_data_escapes"@.len() == 21);
        reveal_strlit("use_after_move");
        assert("use_after_move"@.len() == 14);
        reveal_strlit("partial_move");
        assert("partial_move"@.len() == 12);
        reveal_strlit("multiple_mutable_borrows");
        assert("multiple_mutable_borrows"@.len() == 24);
        reveal_strlit("mutable_while_shared");
        assert("mutable_while_shared"@.len() == 20);
        reveal_strlit("assign_while_borrowed");
        assert("assign_while_borrowed"@.len() == 21);
        reveal_strlit("use_while_mutably_borrowed");
        assert("use_while_mutably_borrowed"@.len() == 26);
        reveal_strlit("move_while_borrowed");
        assert("move_while_borrowed"@.len() == 19);
        reveal_strlit("move_out_of_borrowed_content");
        assert("move_out_of_borrowed_content"@.len() == 28);
        reveal_strlit("immutable_mutation");
        assert("immutable_mutation"@.len() == 18);
        reveal_strlit("missing_lifetime");
        assert("missing_lifetime"@.len() == 16);
        reveal_strlit("borrowed_value_too_short");
        assert("borrowed_value_too_short"@.len() == 24);
        reveal_strlit("returning_local_reference");
        assert("returning_local_reference"@.len() == 25);
        reveal_strlit("temporary_dropped_while_borrowed");
        assert("temporary_dropped_while_borrowed"@.len() == 32);
        reveal_strlit("trait_requirement");
        assert("trait_requirement"@.len() == 17);
        reveal_strlit("type_mismatch");
        assert("type_mismatch"@.len() == 13);
        reveal_strlit("method_or_trait_unavailable");
        assert("method_or_trait_unavailable"@.len() == 27);
        reveal_strlit("closure_may_outlive_borrow");
        assert("closure_may_outlive_borrow"@.len() == 26);
        assert("borrowed_data_escapes"@ != "use_after_move"@);
        assert("borrowed_data_escapes"@ != "partial_move"@);
        assert("borrowed_data_escapes"@ != "multiple_mutable_borrows"@);
        assert("borrowed_data_escapes"@ != "mutable_while_shared"@);
        assert("borrowed_data_escapes"@[0] != "assign_while_borrowed"@[0]);
        assert("borrowed_data_escapes"@ != "assign_while_borrowed"@);
        assert("borrowed_data_escapes"@ != "use_while_mutably_borrowed"@);
        assert("borrowed_data_escapes"@ != "move_while_borrowed"@);
        assert("borrowed_data_escapes"@ != "move_out_of_borrowed_content"@);
        assert("borrowed_data_escapes"@ != "immutable_mutation"@);
        assert("borrowed_data_escapes"@ != "missing_lifetime"@);
        assert("borrowed_data_escapes"@ != "borrowed_value_too_short"@);
        assert("borrowed_data_escapes"@ != "returning_local_reference"@);
        assert("borrowed_data_escapes"@ != "temporary_dropped_while_borrowed"@);
        assert("borrowed_data_escapes"@ != "trait_requirement"@);
        assert("borrowed_data_escapes"@ != "type_mismatch"@);
        assert("borrowed_data_escapes"@ != "method_or_trait_unavailable"@);
        assert("borrowed_data_escapes"@ != "closure_may_outlive_borrow"@);
    }
    assert(primary_lesson("await_outside_async"@, code) == "async_futures"@) by {
        reveal_strlit("await_outside_async");
        assert("await_outside_async"@.len() == 19);
        reveal_strlit("use_after_move");
        assert("use_after_move"@.len() == 14);
        reveal_strlit("partial_move");
        assert("partial_move"@.len() == 12);
        reveal_strlit("multiple_mutable_borrows");
        assert("multiple_mutable_borrows"@.len() == 24);
        reveal_strlit("mutable_while_shared");
        assert("mutable_while_shared"@.len() == 20);
        reveal_strlit("assign_while_borrowed");
        assert("assign_while_borrowed"@.len() == 21);
        reveal_strlit("use_while_mutably_borrowed");
        assert("use_while_mutably_borrowed"@.len() == 26);
        reveal_strlit("move_while_borrowed");
        assert("move_while_borrowed"@.len() == 19);
        reveal_strlit("move_out_of_borrowed_content");
        assert("move_out_of_borrowed_content"@.len() == 28);
        reveal_strlit("immutable_mutation");
        assert("immutable_mutation"@.len() == 18);
        reveal_strlit("missing_lifetime");
        assert("missing_lifetime"@.len() == 16);
        reveal_strlit("borrowed_value_too_short");
        assert("borrowed_value_too_short"@.len() == 24);
        reveal_strlit("returning_local_reference");
        assert("returning_local_reference"@.len() == 25);
        reveal_strlit("temporary_dropped_while_borrowed");
        assert("temporary_dropped_while_borrowed"@.len() == 32);
        reveal_strlit("trait_requirement");
        assert("trait_requirement"@.len() == 17);
        reveal_strlit("type_mismatch");
        assert("type_mismatch"@.len() == 13);
        reveal_strlit("method_or_trait_unavailable");
        assert("method_or_trait_unavailable"@.len() == 27);
        reveal_strlit("closure_may_outlive_borrow");
        assert("closure_may_outlive_borrow"@.len() == 26);
        reveal_strlit("borrowed_data_escapes");
        assert("borrowed_data_escapes"@.len() == 21);
        assert("await_outside_async"@ != "use_after_move"@);
        assert("await_outside_async"@ != "partial_move"@);
        assert("await_outside_async"@ != "multiple_mutable_borrows"@);
        assert("await_outside_async"@ != "mutable_while_shared"@);
        assert("await_outside_async"@ != "assign_while_borrowed"@);
        assert("await_outside_async"@ != "use_while_mutably_borrowed"@);
        assert("await_outside_async"@[0] != "move_while_borrowed"@[0]);
        assert("await_outside_async"@ != "move_while_borrowed"@);
        assert("await_outside_async"@ != "move_out_of_borrowed_content"@);
        assert("await_outside_async"@ != "immutable_mutation"@);
        assert("await_outside_async"@ != "missing_lifetime"@);
        assert("await_outside_async"@ != "borrowed_value_too_short"@);
        assert("await_outside_async"@ != "returning_local_reference"@);
        assert("await_outside_async"@ != "temporary_dropped_while_borrowed"@);
        assert("await_outside_async"@ != "trait_requirement"@);
        assert("await_outside_async"@ != "type_mismatch"@);
        assert("await_outside_async"@ != "method_or_trait_unavailable"@);
        assert("await_outside_async"@ != "closure_may_outlive_borrow"@);
        assert("await_outside_async"@ != "borrowed_data_escapes"@);
    }
    assert(primary_lesson("recursive_async_function"@, code) == "async_futures"@) by {
        reveal_strlit("recursive_async_function");
        assert("recursive_async_function"@.len() == 24);
        reveal_strlit("use_after_move");
        assert("use_after_move"@.len() == 14);
        reveal_strlit("partial_move");
        assert("partial_move"@.len() == 12);
        reveal_strlit("multiple_mutable_borrows");
        assert("multiple_mutable_borrows"@.len() == 24);
        reveal_strlit("mutable_while_shared");
        assert("mutable_while_shared"@.len() == 20);
        reveal_strlit("assign_while_borrowed");
        assert("assign_while_borrowed"@.len() == 21);
        reveal_strlit("use_while_mutably_borrowed");
        assert("use_while_mutably_borrowed"@.len() == 26);
        reveal_strlit("move_while_borrowed");
        assert("move_while_borrowed"@.len() == 19);
        reveal_strlit("move_out_of_borrowed_content");
        assert("move_out_of_borrowed_content"@.len() == 28);
        reveal_strlit("immutable_mutation");
        assert("immutable_mutation"@.len() == 18);
        reveal_strlit("missing_lifetime");
        assert("missing_lifetime"@.len() == 16);
        reveal_strlit("borrowed_value_too_short");
        assert("borrowed_value_too_short"@.len() == 24);
        reveal_strlit("returning_local_reference");
        assert("returning_local_reference"@.len() == 25);
        reveal_strlit("temporary_dropped_while_borrowed");
        assert("temporary_dropped_while_borrowed"@.len() == 32);
        reveal_strlit("trait_requirement");
        assert("trait_requirement"@.len() == 17);
        reveal_strlit("type_mismatch");
        assert("type_mismatch"@.len() == 13);
        reveal_strlit("method_or_trait_unavailable");
        assert("method_or_trait_unavailable"@.len() == 27);
        reveal_strlit("closure_may_outlive_borrow");
        assert("closure_may_outlive_borrow"@.len() == 26);
        reveal_strlit("borrowed_data_escapes");
        assert("borrowed_data_escapes"@.len() == 21);
        reveal_strlit("await_outside_async");
        assert("await_outside_async"@.len() == 19);
        assert("recursive_async_function"@ != "use_after_move"@);
        assert("recursive_async_function"@ != "partial_move"@);
        assert("recursive_async_function"@[0] != "multiple_mutable_borrows"@[0]);
        assert("recursive_async_function"@ != "multiple_mutable_borrows"@);
        assert("recursive_async_function"@ != "mutable_while_shared"@);
        assert("recursive_async_function"@ != "assign_while_borrowed"@);
        assert("recursive_async_function"@ != "use_while_mutably_borrowed"@);
        assert("recursive_async_function"@ != "move_while_borrowed"@);
        assert("recursive_async_function"@ != "move_out_of_borrowed_content"@);
        assert("recursive_async_function"@ != "immutable_mutation"@);
        assert("recursive_async_function"@ != "missing_lifetime"@);
        assert("recursive_async_function"@[0] != "borrowed_value_too_short"@[0]);
        assert("recursive_async_function"@ != "borrowed_value_too_short"@);
        assert("recursive_async_function"@ != "returning_local_reference"@);
        assert("recursive_async_function"@ != "temporary_dropped_while_borrowed"@);
        assert("recursive_async_function"@ != "trait_requirement"@);
        assert("recursive_async_function"@ != "type_mismatch"@);
        assert("recursive_async_function"@ != "method_or_trait_unavailable"@);
        assert("recursive_async_function"@ != "closure_may_outlive_borrow"@);
        assert("recursive_async_function"@ != "borrowed_data_escapes"@);
        assert("recursive_async_function"@ != "await_outside_async"@);
    }
}

/// The lesson read after the first one: ownership after a move, non-lexical
/// lifetimes after a borrow conflict, method receivers after mutating through
/// an immutable place, `Send` and `Sync` after a trait requirement, and
/// lifetimes after a closure that may outlive its borrow; the other
/// categories have one lesson only.
#[verifier::rlimit(40)]
#[verifier::spinoff_prover]
pub proof fn each_category_continues_with_its_follow_up_lesson()
    ensures
        secondary_lesson("use_after_move"@) == Some("ownership"@),
        secondary_lesson("partial_move"@) == Some("ownership"@),
        secondary_lesson("multiple_mutable_borrows"@) == Some("non_lexical_lifetimes"@),
        secondary_lesson("mutable_while_shared"@) == Some("non_lexical_lifetimes"@),
        secondary_lesson("assign_while_borrowed"@) == Some("non_lexical_lifetimes"@),
        secondary_lesson("use_while_mutably_borrowed"@) == Some("non_lexical_lifetimes"@),
        secondary_lesson("move_while_borrowed"@) is None,
        secondary_lesson("move_out_of_borrowed_content"@) is None,
        secondary_lesson("immutable_mutation"@) == Some("method_receivers"@),
        secondary_lesson("missing_lifetime"@) is None,
        secondary_lesson("borrowed_value_too_short"@) is None,
        secondary_lesson("returning_local_reference"@) is None,
        secondary_lesson("temporary_dropped_while_borrowed"@) is None,
        secondary_lesson("trait_requirement"@) == Some("send_sync"@),
        secondary_lesson("type_mismatch"@) is None,
        secondary_lesson("method_or_trait_unavailable"@) is None,
        secondary_lesson("closure_may_outlive_borrow"@) == Some("lifetimes"@),
        secondary_lesson("borrowed_data_escapes"@) == Some("lifetimes"@),
        secondary_lesson("await_outside_async"@) is None,
        secondary_lesson("recursive_async_function"@) is None,
{
    assert(secondary_lesson("use_after_move"@) == Some("ownership"@)) by {
        reveal_strlit("use_after_move");
        assert("use_after_move"@.len() == 14);
    }
    assert(secondary_lesson("partial_move"@) == Some("ownership"@)) by {
        reveal_strlit("partial_move");
        assert("partial_move"@.len() == 12);
        reveal_strlit("use_after_move");
        assert("use_after_move"@.len() == 14);
        assert("partial_move"@ != "use_after_move"@);
    }
    assert(secondary_lesson("multiple_mutable_borrows"@) == Some("non_lexical_lifetimes"@)) by {
        reveal_strlit("multiple_mutable_borrows");
        assert("multiple_mutable_borrows"@.len() == 24);
        reveal_strlit("use_after_move");
        assert("use_after_move"@.len() == 14);
        reveal_strlit("partial_move");
        assert("partial_move"@.len() == 12);
        assert("multiple_mutable_borrows"@ != "use_after_move"@);
        assert("multiple_mutable_borrows"@ != "partial_move"@);
    }
    assert(secondary_lesson("mutable_while_shared"@) == Some("non_lexical_lifetimes"@)) by {
        reveal_strlit("mutable_while_shared");
        assert("mutable_while_shared"@.len() == 20);
        reveal_strlit("use_after_move");
        assert("use_after_move"@.len() == 14);
        reveal_strlit("partial_move");
        assert("partial_move"@.len() == 12);
        reveal_strlit("multiple_mutable_borrows");
        assert("multiple_mutable_borrows"@.len() == 24);
        assert("mutable_while_shared"@ != "use_after_move"@);
        assert("mutable_while_shared"@ != "partial_move"@);
        assert("mutable_while_shared"@ != "multiple_mutable_borrows"@);
    }
    assert(secondary_lesson("assign_while_borrowed"@) == Some("non_lexical_lifetimes"@)) by {
        reveal_strlit("assign_while_borrowed");
        assert("assign_while_borrowed"@.len() == 21);
        reveal_strlit("use_after_move");
        assert("use_after_move"@.len() == 14);
        reveal_strlit("partial_move");
        assert("partial_move"@.len() == 12);
        reveal_strlit("multiple_mutable_borrows");
        assert("multiple_mutable_borrows"@.len() == 24);
        reveal_strlit("mutable_while_shared");
        assert("mutable_while_shared"@.len() == 20);
        assert("assign_while_borrowed"@ != "use_after_move"@);
        assert("assign_while_borrowed"@ != "partial_move"@);
        assert("assign_while_borrowed"@ != "multiple_mutable_borrows"@);
        assert("assign_while_borrowed"@ != "mutable_while_shared"@);
    }
    assert(secondary_lesson("use_while_mutably_borrowed"@) == Some("non_lexical_lifetimes"@)) by {
        reveal_strlit("use_while_mutably_borrowed");
        assert("use_while_mutably_borrowed"@.len() == 26);
        reveal_strlit("use_after_move");
        assert("use_after_move"@.len() == 14);
        reveal_strlit("partial_move");
        assert("partial_move"@.len() == 12);
        reveal_strlit("multiple_mutable_borrows");
        assert("multiple_mutable_borrows"@.len() == 24);
        reveal_strlit("mutable_while_shared");
        assert("mutable_while_shared"@.len() == 20);
        reveal_strlit("assign_while_borrowed");
        assert("assign_while_borrowed"@.len() == 21);
        assert("use_while_mutably_borrowed"@ != "use_after_move"@);
        assert("use_while_mutably_borrowed"@ != "partial_move"@);
        assert("use_while_mutably_borrowed"@ != "multiple_mutable_borrows"@);
        assert("use_while_mutably_borrowed"@ != "mutable_while_shared"@);
        assert("use_while_mutably_borrowed"@ != "assign_while_borrowed"@);
    }
    assert(secondary_lesson("move_while_borrowed"@) is None) by {
        reveal_strlit("move_while_borrowed");
        assert("move_while_borrowed"@.len() == 19);
        reveal_strlit("use_after_move");
        assert("use_after_move"@.len() == 14);
        reveal_strlit("partial_move");
        assert("partial_move"@.len() == 12);
        reveal_strlit("multiple_mutable_borrows");
        assert("multiple_mutable_borrows"@.len() == 24);
        reveal_strlit("mutable_while_shared");
        assert("mutable_while_shared"@.len() == 20);
        reveal_strlit("assign_while_borrowed");
        assert("assign_while_borrowed"@.len() == 21);
        reveal_strlit("use_while_mutably_borrowed");
        assert("use_while_mutably_borrowed"@.len() == 26);
        reveal_strlit("immutable_mutation");
        assert("immutable_mutation"@.len() == 18);
        reveal_strlit("trait_requirement");
        assert("trait_requirement"@.len() == 17);
        reveal_strlit("closure_may_outlive_borrow");
        assert("closure_may_outlive_borrow"@.len() == 26);
        reveal_strlit("borrowed_data_escapes");
        assert("borrowed_data_escapes"@.len() == 21);
        assert("move_while_borrowed"@ != "use_after_move"@);
        assert("move_while_borrowed"@ != "partial_move"@);
        assert("move_while_borrowed"@ != "multiple_mutable_borrows"@);
        assert("move_while_borrowed"@ != "mutable_while_shared"@);
        assert("move_while_borrowed"@ != "assign_while_borrowed"@);
        assert("move_while_borrowed"@ != "use_while_mutably_borrowed"@);
        assert("move_while_borrowed"@ != "immutable_mutation"@);
        assert("move_while_borrowed"@ != "trait_requirement"@);
        assert("move_while_borrowed"@ != "closure_may_outlive_borrow"@);
        assert("move_while_borrowed"@ != "borrowed_data_escapes"@);
    }
    assert(secondary_lesson("move_out_of_borrowed_content"@) is None) by {
        reveal_strlit("move_out_of_borrowed_content");
        assert("move_out_of_borrowed_content"@.len() == 28);
        reveal_strlit("use_after_move");
        assert("use_after_move"@.len() == 14);
        reveal_strlit("partial_move");
        assert("partial_move"@.len() == 12);
        reveal_strlit("multiple_mutable_borrows");
        assert("multiple_mutable_borrows"@.len() == 24);
        reveal_strlit("mutable_while_shared");
        assert("mutable_while_shared"@.len() == 20);
        reveal_strlit("assign_while_borrowed");
        assert("assign_while_borrowed"@.len() == 21);
        reveal_strlit("use_while_mutably_borrowed");
        assert("use_while_mutably_borrowed"@.len() == 26);
        reveal_strlit("immutable_mutation");
        assert("immutable_mutation"@.len() == 18);
        reveal_strlit("trait_requirement");
        assert("trait_requirement"@.len() == 17);
        reveal_strlit("closure_may_outlive_borrow");
        assert("closure_may_outlive_borrow"@.len() == 26);
        reveal_strlit("borrowed_data_escapes");
        assert("borrowed_data_escapes"@.len() == 21);
        assert("move_out_of_borrowed_content"@ != "use_after_move"@);
        assert("move_out_of_borrowed_content"@ != "partial_move"@);
        assert("move_out_of_borrowed_content"@ != "multiple_mutable_borrows"@);
        assert("move_out_of_borrowed_content"@ != "mutable_while_shared"@);
        assert("move_out_of_borrowed_content"@ != "assign_while_borrowed"@);
        assert("move_out_of_borrowed_content"@ != "use_while_mutably_borrowed"@);
        assert("move_out_of_borrowed_content"@ != "immutable_mutation"@);
        assert("move_out_of_borrowed_content"@ != "trait_requirement"@);
        assert("move_out_of_borrowed_content"@ != "closure_may_outlive_borrow"@);
        assert("move_out_of_borrowed_content"@ != "borrowed_data_escapes"@);
    }
    assert(secondary_lesson("immutable_mutation"@) == Some("method_receivers"@)) by {
        reveal_strlit("immutable_mutation");
        assert("immutable_mutation"@.len() == 18);
        reveal_strlit("use_after_move");
        assert("use_after_move"@.len() == 14);
        reveal_strlit("partial_move");
        assert("partial_move"@.len() == 12);
        reveal_strlit("multiple_mutable_borrows");
        assert("multiple_mutable_borrows"@.len() == 24);
        reveal_strlit("mutable_while_shared");
        assert("mutable_while_shared"@.len() == 20);
        reveal_strlit("assign_while_borrowed");
        assert("assign_while_borrowed"@.len() == 21);
        reveal_strlit("use_while_mutably_borrowed");
        assert("use_while_mutably_borrowed"@.len() == 26);
        assert("immutable_mutation"@ != "use_after_move"@);
        assert("immutable_mutation"@ != "partial_move"@);
        assert("immutable_mutation"@ != "multiple_mutable_borrows"@);
        assert("immutable_mutation"@ != "mutable_while_shared"@);
        assert("immutable_mutation"@ != "assign_while_borrowed"@);
        assert("immutable_mutation"@ != "use_while_mutably_borrowed"@);
    }
    assert(secondary_lesson("missing_lifetime"@) is None) by {
        reveal_strlit("missing_lifetime");
        assert("missing_lifetime"@.len() == 16);
        reveal_strlit("use_after_move");
        assert("use_after_move"@.len() == 14);
        reveal_strlit("partial_move");
        assert("partial_move"@.len() == 12);
        reveal_strlit("multiple_mutable_borrows");
        assert("multiple_mutable_borrows"@.len() == 24);
        reveal_strlit("mutable_while_shared");
        assert("mutable_while_shared"@.len() == 20);
        reveal_strlit("assign_while_borrowed");
        assert("assign_while_borrowed"@.len() == 21);
        reveal_strlit("use_while_mutably_borrowed");
        assert("use_while_mutably_borrowed"@.len() == 26);
        reveal_strlit("immutable_mutation");
        assert("immutable_mutation"@.len() == 18);
        reveal_strlit("trait_requirement");
        assert("trait_requirement"@.len() == 17);
        reveal_strlit("closure_may_outlive_borrow");
        assert("closure_may_outlive_borrow"@.len() == 26);
        reveal_strlit("borrowed_data_escapes");
        assert("borrowed_data_escapes"@.len() == 21);
        assert("missing_lifetime"@ != "use_after_move"@);
        assert("missing_lifetime"@ != "partial_move"@);
        assert("missing_lifetime"@ != "multiple_mutable_borrows"@);
        assert("missing_lifetime"@ != "mutable_while_shared"@);
        assert("missing_lifetime"@ != "assign_while_borrowed"@);
        assert("missing_lifetime"@ != "use_while_mutably_borrowed"@);
        assert("missing_lifetime"@ != "immutable_mutation"@);
        assert("missing_lifetime"@ != "trait_requirement"@);
        assert("missing_lifetime"@ != "closure_may_outlive_borrow"@);
        assert("missing_lifetime"@ != "borrowed_data_escapes"@);
    }
    assert(secondary_lesson("borrowed_value_too_short"@) is None) by {
        reveal_strlit("borrowed_value_too_short");
        assert("borrowed_value_too_short"@.len() == 24);
        reveal_strlit("use_after_move");
        assert("use_after_move"@.len() == 14);
        reveal_strlit("partial_move");
        assert("partial_move"@.len() == 12);
        reveal_strlit("multiple_mutable_borrows");
        assert("multiple_mutable_borrows"@.len() == 24);
        reveal_strlit("mutable_while_shared");
        assert("mutable_while_shared"@.len() == 20);
        reveal_strlit("assign_while_borrowed");
        assert("assign_while_borrowed"@.len() == 21);
        reveal_strlit("use_while_mutably_borrowed");
        assert("use_while_mutably_borrowed"@.len() == 26);
        reveal_strlit("immutable_mutation");
        assert("immutable_mutation"@.len() == 18);
        reveal_strlit("trait_requirement");
        assert("trait_requirement"@.len() == 17);
        reveal_strlit("closure_may_outlive_borrow");
        assert("closure_may_outlive_borrow"@.len() == 26);
        reveal_strlit("borrowed_data_escapes");
        assert("borrowed_data_escapes"@.len() == 21);
        assert("borrowed_value_too_short"@ != "use_after_move"@);
        assert("borrowed_value_too_short"@ != "partial_move"@);
        assert("borrowed_value_too_short"@[0] != "multiple_mutable_borrows"@[0]);
        assert("borrowed_value_too_short"@ != "multiple_mutable_borrows"@);
        assert("borrowed_value_too_short"@ != "mutable_while_shared"@);
        assert("borrowed_value_too_short"@ != "assign_while_borrowed"@);
        assert("borrowed_value_too_short"@ != "use_while_mutably_borrowed"@);
        assert("borrowed_value_too_short"@ != "immutable_mutation"@);
        assert("borrowed_value_too_short"@ != "trait_requirement"@);
        assert("borrowed_value_too_short"@ != "closure_may_outlive_borrow"@);
        assert("borrowed_value_too_short"@ != "borrowed_data_escapes"@);
    }
    assert(secondary_lesson("returning_local_reference"@) is None) by {
        reveal_strlit("returning_local_reference");
        assert("returning_local_reference"@.len() == 25);
        reveal_strlit("use_after_move");
        assert("use_after_move"@.len() == 14);
        reveal_strlit("partial_move");
        assert("partial_move"@.len() == 12);
        reveal_strlit("multiple_mutable_borrows");
        assert("multiple_mutable_borrows"@.len() == 24);
        reveal_strlit("mutable_while_shared");
        assert("mutable_while_shared"@.len() == 20);
        reveal_strlit("assign_while_borrowed");
        assert("assign_while_borrowed"@.len() == 21);
        reveal_strlit("use_while_mutably_borrowed");
        assert("use_while_mutably_borrowed"@.len() == 26);
        reveal_strlit("immutable_mutation");
        assert("immutable_mutation"@.len() == 18);
        reveal_strlit("trait_requirement");
        assert("trait_requirement"@.len() == 17);
        reveal_strlit("closure_may_outlive_borrow");
        assert("closure_may_outlive_borrow"@.len() == 26);
        reveal_strlit("borrowed_data_escapes");
        assert("borrowed_data_escapes"@.len() == 21);
        assert("returning_local_reference"@ != "use_after_move"@);
        assert("returning_local_reference"@ != "partial_move"@);
        assert("returning_local_reference"@ != "multiple_mutable_borrows"@);
        assert("returning_local_reference"@ != "mutable_while_shared"@);
        assert("returning_local_reference"@ != "assign_while_borrowed"@);
        assert("returning_local_reference"@ != "use_while_mutably_borrowed"@);
        assert("returning_local_reference"@ != "immutable_mutation"@);
        assert("returning_local_reference"@ != "trait_requirement"@);
        assert("returning_local_reference"@ != "closure_may_outlive_borrow"@);
        assert("returning_local_reference"@ != "borrowed_data_escapes"@);
    }
    assert(secondary_lesson("temporary_dropped_while_borrowed"@) is None) by {
        reveal_strlit("temporary_dropped_while_borrowed");
        assert("temporary_dropped_while_borrowed"@.len() == 32);
        reveal_strlit("use_after_move");
        assert("use_after_move"@.len() == 14);
        reveal_strlit("partial_move");
        assert("partial_move"@.len() == 12);
        reveal_strlit("multiple_mutable_borrows");
        assert("multiple_mutable_borrows"@.len() == 24);
        reveal_strlit("mutable_while_shared");
        assert("mutable_while_shared"@.len() == 20);
        reveal_strlit("assign_while_borrowed");
        assert("assign_while_borrowed"@.len() == 21);
        reveal_strlit("use_while_mutably_borrowed");
        assert("use_while_mutably_borrowed"@.len() == 26);
        reveal_strlit("immutable_mutation");
        assert("immutable_mutation"@.len() == 18);
        reveal_strlit("trait_requirement");
        assert("trait_requirement"@.len() == 17);
        reveal_strlit("closure_may_outlive_borrow");
        assert("closure_may_outlive_borrow"@.len() == 26);
        reveal_strlit("borrowed_data_escapes");
        assert("borrowed_data_escapes"@.len() == 21);
        assert("temporary_dropped_while_borrowed"@ != "use_after_move"@);
        assert("temporary_dropped_while_borrowed"@ != "partial_move"@);
        assert("temporary_dropped_while_borrowed"@ != "multiple_mutable_borrows"@);
        assert("temporary_dropped_while_borrowed"@ != "mutable_while_shared"@);
        assert("temporary_dropped_while_borrowed"@ != "assign_while_borrowed"@);
        assert("temporary_dropped_while_borrowed"@ != "use_while_mutably_borrowed"@);
        assert("temporary_dropped_while_borrowed"@ != "immutable_mutation"@);
        assert("temporary_dropped_while_borrowed"@ != "trait_requirement"@);
        assert("temporary_dropped_while_borrowed"@ != "closure_may_outlive_borrow"@);
        assert("temporary_dropped_while_borrowed"@ != "borrowed_data_escapes"@);
    }
    assert(secondary_lesson("trait_requirement"@) == Some("send_sync"@)) by {
        reveal_strlit("trait_requirement");
        assert("trait_requirement"@.len() == 17);
        reveal_strlit("use_after_move");
        assert("use_after_move"@.len() == 14);
        reveal_strlit("partial_move");
        assert("partial_move"@.len() == 12);
        reveal_strlit("multiple_mutable_borrows");
        assert("multiple_mutable_borrows"@.len() == 24);
        reveal_strlit("mutable_while_shared");
        assert("mutable_while_shared"@.len() == 20);
        reveal_strlit("assign_while_borrowed");
        assert("assign_while_borrowed"@.len() == 21);
        reveal_strlit("use_while_mutably_borrowed");
        assert("use_while_mutably_borrowed"@.len() == 26);
        reveal_strlit("immutable_mutation");
        assert("immutable_mutation"@.len() == 18);
        assert("trait_requirement"@ != "use_after_move"@);
        assert("trait_requirement"@ != "partial_move"@);
        assert("trait_requirement"@ != "multiple_mutable_borrows"@);
        assert("trait_requirement"@ != "mutable_while_shared"@);
        assert("trait_requirement"@ != "assign_while_borrowed"@);
        assert("trait_requirement"@ != "use_while_mutably_borrowed"@);
        assert("trait_requirement"@ != "immutable_mutation"@);
    }
    assert(secondary_lesson("type_mismatch"@) is None) by {
        reveal_strlit("type_mismatch");
        assert("type_mismatch"@.len() == 13);
        reveal_strlit("use_after_move");
        assert("use_after_move"@.len() == 14);
        reveal_strlit("partial_move");
        assert("partial_move"@.len() == 12);
        reveal_strlit("multiple_mutable_borrows");
        assert("multiple_mutable_borrows"@.len() == 24);
        reveal_strlit("mutable_while_shared");
        assert("mutable_while_shared"@.len() == 20);
        reveal_strlit("assign_while_borrowed");
        assert("assign_while_borrowed"@.len() == 21);
        reveal_strlit("use_while_mutably_borrowed");
        assert("use_while_mutably_borrowed"@.len() == 26);
        reveal_strlit("immutable_mutation");
        assert("immutable_mutation"@.len() == 18);
        reveal_strlit("trait_requirement");
        assert("trait_requirement"@.len() == 17);
        reveal_strlit("closure_may_outlive_borrow");
        assert("closure_may_outlive_borrow"@.len() == 26);
        reveal_strlit("borrowed_data_escapes");
        assert("borrowed_data_escapes"@.len() == 21);
        assert("type_mismatch"@ != "use_after_move"@);
        assert("type_mismatch"@ != "partial_move"@);
        assert("type_mismatch"@ != "multiple_mutable_borrows"@);
        assert("type_mismatch"@ != "mutable_while_shared"@);
        assert("type_mismatch"@ != "assign_while_borrowed"@);
        assert("type_mismatch"@ != "use_while_mutably_borrowed"@);
        assert("type_mismatch"@ != "immutable_mutation"@);
        assert("type_mismatch"@ != "trait_requirement"@);
        assert("type_mismatch"@ != "closure_may_outlive_borrow"@);
        assert("type_mismatch"@ != "borrowed_data_escapes"@);
    }
    assert(secondary_lesson("method_or_trait_unavailable"@) is None) by {
        reveal_strlit("method_or_trait_unavailable");
        assert("method_or_trait_unavailable"@.len() == 27);
        reveal_strlit("use_after_move");
        assert("use_after_move"@.len() == 14);
        reveal_strlit("partial_move");
        assert("partial_move"@.len() == 12);
        reveal_strlit("multiple_mutable_borrows");
        assert("multiple_mutable_borrows"@.len() == 24);
        reveal_strlit("mutable_while_shared");
        assert("mutable_while_shared"@.len() == 20);
        reveal_strlit("assign_while_borrowed");
        assert("assign_while_borrowed"@.len() == 21);
        reveal_strlit("use_while_mutably_borrowed");
        assert("use_while_mutably_borrowed"@.len() == 26);
        reveal_strlit("immutable_mutation");
        assert("immutable_mutation"@.len() == 18);
        reveal_strlit("trait_requirement");
        assert("trait_requirement"@.len() == 17);
        reveal_strlit("closure_may_outlive_borrow");
        assert("closure_may_outlive_borrow"@.len() == 26);
        reveal_strlit("borrowed_data_escapes");
        assert("borrowed_data_escapes"@.len() == 21);
        assert("method_or_trait_unavailable"@ != "use_after_move"@);
        assert("method_or_trait_unavailable"@ != "partial_move"@);
        assert("method_or_trait_unavailable"@ != "multiple_mutable_borrows"@);
        assert("method_or_trait_unavailable"@ != "mutable_while_shared"@);
        assert("method_or_trait_unavailable"@ != "assign_while_borrowed"@);
        assert("method_or_trait_unavailable"@ != "use_while_mutably_borrowed"@);
        assert("method_or_trait_unavailable"@ != "immutable_mutation"@);
        assert("method_or_trait_unavailable"@ != "trait_requirement"@);
        assert("method_or_trait_unavailable"@ != "closure_may_outlive_borrow"@);
        assert("method_or_trait_unavailable"@ != "borrowed_data_escapes"@);
    }
    assert(secondary_lesson("closure_may_outlive_borrow"@) == Some("lifetimes"@)) by {
        reveal_strlit("closure_may_outlive_borrow");
        assert("closure_may_outlive_borrow"@.len() == 26);
        reveal_strlit("use_after_move");
        assert("use_after_move"@.len() == 14);
        reveal_strlit("partial_move");
        assert("partial_move"@.len() == 12);
        reveal_strlit("multiple_mutable_borrows");
        assert("multiple_mutable_borrows"@.len() == 24);
        reveal_strlit("mutable_while_shared");
        assert("mutable_while_shared"@.len() == 20);
        reveal_strlit("assign_while_borrowed");
        assert("assign_while_borrowed"@.len() == 21);
        reveal_strlit("use_while_mutably_borrowed");
        assert("use_while_mutably_borrowed"@.len() == 26);
        reveal_strlit("immutable_mutation");
        assert("immutable_mutation"@.len() == 18);
        reveal_strlit("trait_requirement");
        assert("trait_requirement"@.len() == 17);
        assert("closure_may_outlive_borrow"@ != "use_after_move"@);
        assert("closure_may_outlive_borrow"@ != "partial_move"@);
        assert("closure_may_outlive_borrow"@ != "multiple_mutable_borrows"@);
        assert("closure_may_outlive_borrow"@ != "mutable_while_shared"@);
        assert("closure_may_outlive_borrow"@ != "assign_while_borrowed"@);
        assert("closure_may_outlive_borrow"@[0] != "use_while_mutably_borrowed"@[0]);
        assert("closure_may_outlive_borrow"@ != "use_while_mutably_borrowed"@);
        assert("closure_may_outlive_borrow"@ != "immutable_mutation"@);
        assert("closure_may_outlive_borrow"@ != "trait_requirement"@);
    }
    assert(secondary_lesson("borrowed_data_escapes"@) == Some("lifetimes"@)) by {
        reveal_strlit("borrowed_data_escapes");
        assert("borrowed_data_escapes"@.len() == 21);
        reveal_strlit("use_after_move");
        assert("use_after_move"@.len() == 14);
        reveal_strlit("partial_move");
        assert("partial_move"@.len() == 12);
        reveal_strlit("multiple_mutable_borrows");
        assert("multiple_mutable_borrows"@.len() == 24);
        reveal_strlit("mutable_while_shared");
        assert("mutable_while_shared"@.len() == 20);
        reveal_strlit("assign_while_borrowed");
        assert("assign_while_borrowed"@.len() == 21);
        reveal_strlit("use_while_mutably_borrowed");
        assert("use_while_mutably_borrowed"@.len() == 26);
        reveal_strlit("immutable_mutation");
        assert("immutable_mutation"@.len() == 18);
        reveal_strlit("trait_requirement");
        assert("trait_requirement"@.len() == 17);
        reveal_strlit("closure_may_outlive_borrow");
        assert("closure_may_outlive_borrow"@.len() == 26);
        assert("borrowed_data_escapes"@ != "use_after_move"@);
        assert("borrowed_data_escapes"@ != "partial_move"@);
        assert("borrowed_data_escapes"@ != "multiple_mutable_borrows"@);
        assert("borrowed_data_escapes"@ != "mutable_while_shared"@);
        assert("borrowed_data_escapes"@[0] != "assign_while_borrowed"@[0]);
        assert("borrowed_data_escapes"@ != "assign_while_borrowed"@);
        assert("borrowed_data_escapes"@ != "use_while_mutably_borrowed"@);
        assert("borrowed_data_escapes"@ != "immutable_mutation"@);
        assert("borrowed_data_escapes"@ != "trait_requirement"@);
        assert("borrowed_data_escapes"@ != "closure_may_outlive_borrow"@);
    }
    assert(secondary_lesson("await_outside_async"@) is None) by {
        reveal_strlit("await_outside_async");
        assert("await_outside_async"@.len() == 19);
        reveal_strlit("use_after_move");
        assert("use_after_move"@.len() == 14);
        reveal_strlit("partial_move");
        assert("partial_move"@.len() == 12);
        reveal_strlit("multiple_mutable_borrows");
        assert("multiple_mutable_borrows"@.len() == 24);
        reveal_strlit("mutable_while_shared");
        assert("mutable_while_shared"@.len() == 20);
        reveal_strlit("assign_while_borrowed");
        assert("assign_while_borrowed"@.len() == 21);
        reveal_strlit("use_while_mutably_borrowed");
        assert("use_while_mutably_borrowed"@.len() == 26);
        reveal_strlit("immutable_mutation");
        assert("immutable_mutation"@.len() == 18);
        reveal_strlit("trait_requirement");
        assert("trait_requirement"@.len() == 17);
        reveal_strlit("closure_may_outlive_borrow");
        assert("closure_may_outlive_borrow"@.len() == 26);
        reveal_strlit("borrowed_data_escapes");
        assert("borrowed_data_escapes"@.len() == 21);
        assert("await_outside_async"@ != "use_after_move"@);
        assert("await_outside_async"@ != "partial_move"@);
        assert("await_outside_async"@ != "multiple_mutable_borrows"@);
        assert("await_outside_async"@ != "mutable_while_shared"@);
        assert("await_outside_async"@ != "assign_while_borrowed"@);
        assert("await_outside_async"@ != "use_while_mutably_borrowed"@);
        assert("await_outside_async"@ != "immutable_mutation"@);
        assert("await_outside_async"@ != "trait_requirement"@);
        assert("await_outside_async"@ != "closure_may_outlive_borrow"@);
        assert("await_outside_async"@ != "borrowed_data_escapes"@);
    }
    assert(secondary_lesson("recursive_async_function"@) is None) by {
        reveal_strlit("recursive_async_function");
        assert("recursive_async_function"@.len() == 24);
        reveal_strlit("use_after_move");
        assert("use_after_move"@.len() == 14);
        reveal_strlit("partial_move");
        assert("partial_move"@.len() == 12);
        reveal_strlit("multiple_mutable_borrows");
        assert("multiple_mutable_borrows"@.len() == 24);
        reveal_strlit("mutable_while_shared");
        assert("mutable_while_shared"@.len() == 20);
        reveal_strlit("assign_while_borrowed");
        assert("assign_while_borrowed"@.len() == 21);
        reveal_strlit("use_while_mutably_borrowed");
        assert("use_while_mutably_borrowed"@.len() == 26);
        reveal_strlit("immutable_mutation");
        assert("immutable_mutation"@.len() == 18);
        reveal_strlit("trait_requirement");
        assert("trait_requirement"@.len() == 17);
        reveal_strlit("closure_may_outlive_borrow");
        assert("closure_may_outlive_borrow"@.len() == 26);
        reveal_strlit("borrowed_data_escapes");
        assert("borrowed_data_escapes"@.len() == 21);
        assert("recursive_async_function"@ != "use_after_move"@);
        assert("recursive_async_function"@ != "partial_move"@);
        assert("recursive_async_function"@[0] != "multiple_mutable_borrows"@[0]);
        assert("recursive_async_function"@ != "multiple_mutable_borrows"@);
        assert("recursive_async_function"@ != "mutable_while_shared"@);
        assert("recursive_async_function"@ != "assign_while_borrowed"@);
        assert("recursive_async_function"@ != "use_while_mutably_borrowed"@);
        assert("recursive_async_function"@ != "immutable_mutation"@);
        assert("recursive_async_function"@ != "trait_requirement"@);
        assert("recursive_async_function"@ != "closure_may_outlive_borrow"@);
        assert("recursive_async_function"@ != "borrowed_data_escapes"@);
    }
}

} // verus!
