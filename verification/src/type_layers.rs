//! Expands a Rust type into the storage layers a beginner should see: the
//! inline handle, wrappers and gates, heap allocations, and what they point to.
use vstd::prelude::*;

use crate::text::{
    chars_of, concat2, concat3, decimal, decimal_string, digit_char, has_substring, joined,
    low_digits, seq_contains, str_eq,
};
use crate::type_parser::{parse_type, spec_parse_type, strings_view};

verus! {

/// One drawable layer of a type, attached to its parent layer.
#[derive(Clone, Debug)]
pub struct TeachingLayer {
    pub id_suffix: String,
    pub parent_suffix: Option<String>,
    pub label: String,
    pub type_text: String,
    pub detail: String,
    pub kind: String,
    pub storage: String,
    pub relation: String,
    pub provenance: String,
}

/// The text of a layer.
pub struct LayerView {
    pub id_suffix: Seq<char>,
    pub parent_suffix: Option<Seq<char>>,
    pub label: Seq<char>,
    pub type_text: Seq<char>,
    pub detail: Seq<char>,
    pub kind: Seq<char>,
    pub storage: Seq<char>,
    pub relation: Seq<char>,
    pub provenance: Seq<char>,
}

impl View for TeachingLayer {
    type V = LayerView;

    open spec fn view(&self) -> LayerView {
        LayerView {
            id_suffix: self.id_suffix@,
            parent_suffix: crate::text::opt_text(self.parent_suffix),
            label: self.label@,
            type_text: self.type_text@,
            detail: self.detail@,
            kind: self.kind@,
            storage: self.storage@,
            relation: self.relation@,
            provenance: self.provenance@,
        }
    }
}

pub open spec fn views(layers: Seq<TeachingLayer>) -> Seq<LayerView> {
    layers.map_values(|l: TeachingLayer| l@)
}

/// Layer `k` of `cur` hangs from `root` or from a layer added after `base`
/// and before it.
pub open spec fn attached(base: Seq<LayerView>, cur: Seq<LayerView>, root: Seq<char>, k: int) -> bool {
    match cur[k].parent_suffix {
        Some(p) => p == root || exists|m: int|
            base.len() <= m < k && #[trigger] cur[m].id_suffix == p,
        None => false,
    }
}

/// `cur` keeps `base` and adds a tree of layers hanging from `root`.
pub open spec fn extends_tree(base: Seq<LayerView>, cur: Seq<LayerView>, root: Seq<char>) -> bool {
    &&& base.len() <= cur.len()
    &&& cur.take(base.len() as int) == base
    &&& forall|k: int| base.len() <= k < cur.len() ==> #[trigger] attached(base, cur, root, k)
}

proof fn lemma_extends_refl(base: Seq<LayerView>, root: Seq<char>)
    ensures
        extends_tree(base, base, root),
{
    assert(base.take(base.len() as int) =~= base);
}

proof fn lemma_extends_push(
    base: Seq<LayerView>,
    cur: Seq<LayerView>,
    root: Seq<char>,
    layer: LayerView,
    parent_index: int,
)
    requires
        extends_tree(base, cur, root),
        layer.parent_suffix is Some,
        (parent_index == -1 && layer.parent_suffix == Some(root)) || (base.len() <= parent_index
            < cur.len() && layer.parent_suffix == Some(cur[parent_index].id_suffix)),
    ensures
        extends_tree(base, cur.push(layer), root),
{
    let next = cur.push(layer);
    assert(next.take(base.len() as int) =~= cur.take(base.len() as int));
    assert forall|k: int| base.len() <= k < next.len() implies #[trigger] attached(
        base,
        next,
        root,
        k,
    ) by {
        if k < cur.len() {
            assert(attached(base, cur, root, k));
            assert(next[k] == cur[k]);
            let p = cur[k].parent_suffix.unwrap();
            if p != root {
                let m = choose|m: int| base.len() <= m < k && #[trigger] cur[m].id_suffix == p;
                assert(next[m] == cur[m]);
            }
        } else {
            if parent_index != -1 {
                assert(next[parent_index] == cur[parent_index]);
            }
        }
    }
}

proof fn lemma_extends_compose(
    a: Seq<LayerView>,
    b: Seq<LayerView>,
    c: Seq<LayerView>,
    root: Seq<char>,
    inner_root: Seq<char>,
    inner_index: int,
)
    requires
        extends_tree(a, b, root),
        extends_tree(b, c, inner_root),
        (inner_index == -1 && inner_root == root) || (a.len() <= inner_index < b.len()
            && b[inner_index].id_suffix == inner_root),
    ensures
        extends_tree(a, c, root),
{
    assert(c.take(a.len() as int) =~= c.take(b.len() as int).take(a.len() as int));
    assert forall|k: int| a.len() <= k < c.len() implies #[trigger] attached(a, c, root, k) by {
        if k < b.len() {
            assert(attached(a, b, root, k));
            assert(c[k] == c.take(b.len() as int)[k]);
            let p = b[k].parent_suffix.unwrap();
            if p != root {
                let m = choose|m: int| a.len() <= m < k && #[trigger] b[m].id_suffix == p;
                assert(c[m] == c.take(b.len() as int)[m]);
            }
        } else {
            assert(attached(b, c, inner_root, k));
            let p = c[k].parent_suffix.unwrap();
            if p == inner_root {
                if inner_index != -1 {
                    assert(c[inner_index] == c.take(b.len() as int)[inner_index]);
                }
            } else {
                let m = choose|m: int| b.len() <= m < k && #[trigger] c[m].id_suffix == p;
            }
        }
    }
}

/// The drawing family of a type: which layers its outer constructor has.
#[derive(Clone, Copy, Debug, PartialEq, Eq, Structural)]
pub enum LayerFamily {
    Reference,
    Vector,
    Collection,
    Text,
    Boxed,
    Shared,
    WeakHandle,
    Pinned,
    Cell,
    Lock,
    Guard,
    RawPointer,
    Conditional,
    CloneOnWrite,
    Future,
    Closure,
    TraitObject,
    Value,
}

pub open spec fn spec_layer_family(type_text: Seq<char>) -> LayerFamily {
    let outer = spec_parse_type(type_text).0;
    if outer == "&"@ || outer == "&mut"@ {
        LayerFamily::Reference
    } else if outer == "Vec"@ {
        LayerFamily::Vector
    } else if outer == "VecDeque"@ || outer == "BinaryHeap"@ || outer == "HashMap"@ || outer
        == "HashSet"@ || outer == "BTreeMap"@ || outer == "BTreeSet"@ || outer == "LinkedList"@ {
        LayerFamily::Collection
    } else if outer == "String"@ {
        LayerFamily::Text
    } else if outer == "Box"@ {
        LayerFamily::Boxed
    } else if outer == "Rc"@ || outer == "Arc"@ {
        LayerFamily::Shared
    } else if outer == "Weak"@ {
        LayerFamily::WeakHandle
    } else if outer == "Pin"@ {
        LayerFamily::Pinned
    } else if outer == "Cell"@ || outer == "RefCell"@ || outer == "UnsafeCell"@ || outer
        == "OnceCell"@ || outer == "OnceLock"@ {
        LayerFamily::Cell
    } else if outer == "Mutex"@ || outer == "RwLock"@ {
        LayerFamily::Lock
    } else if outer == "MutexGuard"@ || outer == "RwLockReadGuard"@ || outer
        == "RwLockWriteGuard"@ {
        LayerFamily::Guard
    } else if outer == "*const"@ || outer == "*mut"@ {
        LayerFamily::RawPointer
    } else if outer == "Option"@ || outer == "Result"@ {
        LayerFamily::Conditional
    } else if outer == "Cow"@ {
        LayerFamily::CloneOnWrite
    } else if seq_contains(outer, "Future"@) || seq_contains(type_text, "async"@) {
        LayerFamily::Future
    } else if seq_contains(outer, "closure"@) || seq_contains(type_text, "closure"@) {
        LayerFamily::Closure
    } else if seq_contains(type_text, "dyn "@) {
        LayerFamily::TraitObject
    } else {
        LayerFamily::Value
    }
}

/// The kind of the outermost layer drawn for each family.
pub open spec fn family_first_kind(family: LayerFamily) -> Seq<char> {
    match family {
        LayerFamily::Reference => "handle"@,
        LayerFamily::Vector => "wrapper"@,
        LayerFamily::Collection => "wrapper"@,
        LayerFamily::Text => "wrapper"@,
        LayerFamily::Boxed => "handle"@,
        LayerFamily::Shared => "handle"@,
        LayerFamily::WeakHandle => "handle"@,
        LayerFamily::Pinned => "gate"@,
        LayerFamily::Cell => "borrow_flag"@,
        LayerFamily::Lock => "lock_state"@,
        LayerFamily::Guard => "guard"@,
        LayerFamily::RawPointer => "handle"@,
        LayerFamily::Conditional => "wrapper"@,
        LayerFamily::CloneOnWrite => "wrapper"@,
        LayerFamily::Future => "future_state"@,
        LayerFamily::Closure => "closure_environment"@,
        LayerFamily::TraitObject => "handle"@,
        LayerFamily::Value => "inline_value"@,
    }
}

/// How the outermost layer drawn for each family relates to its parent.
pub open spec fn family_first_relation(family: LayerFamily) -> Seq<char> {
    match family {
        LayerFamily::Pinned => "wraps"@,
        LayerFamily::Cell => "guards_access"@,
        LayerFamily::Lock => "guards_access"@,
        LayerFamily::Guard => "points_to"@,
        LayerFamily::Conditional => "contains"@,
        LayerFamily::CloneOnWrite => "contains"@,
        LayerFamily::Future => "contains"@,
        LayerFamily::Closure => "contains"@,
        LayerFamily::Value => "contains"@,
        _ => "stores"@,
    }
}

fn is_any(s: &str, a: &str, b: &str) -> (r: bool)
    ensures
        r == (s@ == a@ || s@ == b@),
{
    str_eq(s, a) || str_eq(s, b)
}

pub fn layer_family(type_text: &str, outer: &str) -> (r: LayerFamily)
    requires
        outer@ == spec_parse_type(type_text@).0,
    ensures
        r == spec_layer_family(type_text@),
{
    if is_any(outer, "&", "&mut") {
        LayerFamily::Reference
    } else if str_eq(outer, "Vec") {
        LayerFamily::Vector
    } else if is_any(outer, "VecDeque", "BinaryHeap") || is_any(outer, "HashMap", "HashSet")
        || is_any(outer, "BTreeMap", "BTreeSet") || str_eq(outer, "LinkedList") {
        LayerFamily::Collection
    } else if str_eq(outer, "String") {
        LayerFamily::Text
    } else if str_eq(outer, "Box") {
        LayerFamily::Boxed
    } else if is_any(outer, "Rc", "Arc") {
        LayerFamily::Shared
    } else if str_eq(outer, "Weak") {
        LayerFamily::WeakHandle
    } else if str_eq(outer, "Pin") {
        LayerFamily::Pinned
    } else if is_any(outer, "Cell", "RefCell") || is_any(outer, "UnsafeCell", "OnceCell")
        || str_eq(outer, "OnceLock") {
        LayerFamily::Cell
    } else if is_any(outer, "Mutex", "RwLock") {
        LayerFamily::Lock
    } else if is_any(outer, "MutexGuard", "RwLockReadGuard") || str_eq(outer, "RwLockWriteGuard") {
        LayerFamily::Guard
    } else if is_any(outer, "*const", "*mut") {
        LayerFamily::RawPointer
    } else if is_any(outer, "Option", "Result") {
        LayerFamily::Conditional
    } else if str_eq(outer, "Cow") {
        LayerFamily::CloneOnWrite
    } else if has_substring(outer, "Future") || has_substring(type_text, "async") {
        LayerFamily::Future
    } else if has_substring(outer, "closure") || has_substring(type_text, "closure") {
        LayerFamily::Closure
    } else if has_substring(type_text, "dyn ") {
        LayerFamily::TraitObject
    } else {
        LayerFamily::Value
    }
}

/// Appends one layer and returns its id suffix.
pub fn push_teaching_layer(
    layers: &mut Vec<TeachingLayer>,
    parent: Option<&str>,
    suffix: String,
    label: String,
    type_text: String,
    detail: String,
    kind: &str,
    storage: &str,
    relation: &str,
    provenance: &str,
) -> (r: String)
    ensures
        r@ == suffix@,
        views(final(layers)@) == views(old(layers)@).push(
            LayerView {
                id_suffix: suffix@,
                parent_suffix: match parent {
                    Some(p) => Some(p@),
                    None => None,
                },
                label: label@,
                type_text: type_text@,
                detail: detail@,
                kind: kind@,
                storage: storage@,
                relation: relation@,
                provenance: provenance@,
            },
        ),
{
    let parent_suffix = match parent {
        Some(p) => Some(p.to_owned()),
        None => None,
    };
    let returned = suffix.clone();
    let layer = TeachingLayer {
        id_suffix: suffix,
        parent_suffix,
        label,
        type_text,
        detail,
        kind: kind.to_owned(),
        storage: storage.to_owned(),
        relation: relation.to_owned(),
        provenance: provenance.to_owned(),
    };
    let ghost before = layers@;
    layers.push(layer);
    assert(views(layers@) =~= views(before).push(layer@));
    returned
}

/// `push_teaching_layer`, keeping track of the tree the new layers form.
fn attach(
    layers: &mut Vec<TeachingLayer>,
    Ghost(base): Ghost<Seq<LayerView>>,
    Ghost(root): Ghost<Seq<char>>,
    parent: &str,
    parent_index: usize,
    suffix: String,
    label: String,
    type_text: String,
    detail: &str,
    kind: &str,
    storage: &str,
    relation: &str,
    provenance: &str,
) -> (r: String)
    requires
        extends_tree(base, views(old(layers)@), root),
        (parent_index == usize::MAX && parent@ == root) || (base.len() <= parent_index < old(
            layers,
        ).len() && views(old(layers)@)[parent_index as int].id_suffix == parent@),
    ensures
        r@ == suffix@,
        final(layers).len() == old(layers).len() + 1,
        extends_tree(base, views(final(layers)@), root),
        views(final(layers)@)[old(layers).len() as int].id_suffix == suffix@,
        views(final(layers)@)[old(layers).len() as int].parent_suffix == Some(parent@),
        views(final(layers)@)[old(layers).len() as int].type_text == type_text@,
        views(final(layers)@)[old(layers).len() as int].kind == kind@,
        views(final(layers)@)[old(layers).len() as int].relation == relation@,
        views(final(layers)@).take(old(layers).len() as int) == views(old(layers)@),
        views(final(layers)@) == views(old(layers)@).push(
            layer(
                suffix@,
                parent@,
                label@,
                type_text@,
                detail@,
                kind@,
                storage@,
                relation@,
                provenance@,
            ),
        ),
{
    let ghost before = views(layers@);
    let r = push_teaching_layer(
        layers,
        Some(parent),
        suffix,
        label,
        type_text,
        detail.to_owned(),
        kind,
        storage,
        relation,
        provenance,
    );
    proof {
        let pi: int = if parent_index == usize::MAX {
            -1
        } else {
            parent_index as int
        };
        lemma_extends_push(base, before, root, views(layers@).last(), pi);
        assert(views(layers@).take(before.len() as int) =~= before);
    }
    r
}

/// `prefix:name:depth`, the id suffix of a layer.
pub open spec fn layer_id(prefix: Seq<char>, name: Seq<char>, depth: nat) -> Seq<char> {
    prefix + ":"@ + name + ":"@ + decimal(depth)
}

/// A one-digit depth is written as its digit.
proof fn lemma_small_decimal(d: nat)
    requires
        d < 10,
    ensures
        decimal(d) == seq![digit_char(d)],
{
    assert(low_digits(d / 10, 10, 0) =~= Seq::<char>::empty());
    assert(low_digits(d, 10, 1) =~= seq![digit_char(d % 10)]);
    assert(seq![digit_char(d)].reverse() =~= seq![digit_char(d)]);
}

/// Ids made from different names, or at different one-digit depths, differ.
proof fn lemma_layer_ids_differ(prefix: Seq<char>, n1: Seq<char>, d1: nat, n2: Seq<char>, d2: nat)
    requires
        d1 < 10,
        d2 < 10,
        n1 != n2 || d1 != d2,
    ensures
        layer_id(prefix, n1, d1) != layer_id(prefix, n2, d2),
{
    reveal_strlit(":");
    lemma_small_decimal(d1);
    lemma_small_decimal(d2);
    let a = layer_id(prefix, n1, d1);
    let b = layer_id(prefix, n2, d2);
    if a == b {
        assert(a[a.len() - 1] == digit_char(d1));
        assert(b[b.len() - 1] == digit_char(d2));
        assert(d1 == d2);
        assert(n1.len() == n2.len());
        let s: int = prefix.len() as int + 1;
        assert(a.subrange(s, s + n1.len()) =~= n1);
        assert(b.subrange(s, s + n2.len()) =~= n2);
    }
}

/// The depth digit an id ends with.
pub open spec fn id_depth(id: Seq<char>) -> int {
    id.last() as int - '0' as int
}

/// `id` starts with `prefix` and a colon.
pub open spec fn prefixed(id: Seq<char>, prefix: Seq<char>) -> bool {
    id.len() > prefix.len() && id.subrange(0, prefix.len() as int + 1) == prefix + ":"@
}

proof fn lemma_layer_id_stamp(prefix: Seq<char>, name: Seq<char>, d: nat)
    requires
        d < 10,
    ensures
        prefixed(layer_id(prefix, name, d), prefix),
        id_depth(layer_id(prefix, name, d)) == d,
{
    reveal_strlit(":");
    lemma_small_decimal(d);
    let id = layer_id(prefix, name, d);
    assert(id.subrange(0, prefix.len() as int + 1) =~= prefix + ":"@);
    assert(id.last() == digit_char(d));
}

fn child_prefix(prefix: &str, name: &str, depth: usize) -> (r: String)
    ensures
        r@ == layer_id(prefix@, name@, depth as nat),
{
    let mut r = concat3(prefix, ":", name);
    r.append(":");
    let d = decimal_string(depth as u64);
    r.append(d.as_str());
    r
}

/// A layer hanging from `parent`.
pub open spec fn layer(
    id: Seq<char>,
    parent: Seq<char>,
    label: Seq<char>,
    type_text: Seq<char>,
    detail: Seq<char>,
    kind: Seq<char>,
    storage: Seq<char>,
    relation: Seq<char>,
    provenance: Seq<char>,
) -> LayerView {
    LayerView {
        id_suffix: id,
        parent_suffix: Some(parent),
        label,
        type_text,
        detail,
        kind,
        storage,
        relation,
        provenance,
    }
}

/// What a family draws for one type: the layers before the inner type's
/// layers, the inner type and the layer it hangs from when it is expanded,
/// and the layers after it.
pub type LayerPlan = (Seq<LayerView>, Option<(Seq<char>, Seq<char>)>, Seq<LayerView>);

/// The type argument a family looks inside, `T` when there is none.
pub open spec fn argument_or_t(type_text: Seq<char>) -> Seq<char> {
    let args = spec_parse_type(type_text).1;
    if args.len() > 0 {
        args[0]
    } else {
        "T"@
    }
}

#[verifier::opaque]
pub open spec fn reference_plan(type_text: Seq<char>, parent: Seq<char>, prefix: Seq<char>, depth: nat) -> LayerPlan {
    let first = argument_or_t(type_text);
    let mutable = spec_parse_type(type_text).0 == "&mut"@;
    let h = layer_id(prefix, "reference"@, depth);
    let handle = layer(
        h,
        parent,
        if mutable { "&mut reference handle"@ } else { "& shared reference handle"@ },
        type_text,
        if mutable {
            "temporary exclusive access; it does not own the target"@
        } else {
            "temporary read-only access; it does not own the target"@
        },
        "handle"@,
        "inline"@,
        "stores"@,
        "compiler_type"@,
    );
    if seq_contains(first, "dyn "@) {
        let d = layer_id(prefix, "dyn-data"@, depth);
        (
            seq![
                handle,
                layer(d, h, "trait-object data"@, first, "the concrete value behind the trait object"@, "trait_object_data"@, "conceptual"@, "points_to"@, "derived_from_type"@),
                layer(layer_id(prefix, "vtable"@, depth), h, "vtable metadata"@, "method table + layout metadata"@, "the second word of this fat pointer selects dynamic methods"@, "metadata"@, "inline"@, "dispatches_via"@, "derived_from_type"@),
            ],
            Some(("concrete T"@, d)),
            seq![],
        )
    } else if (first.len() > 0 && first[0] == '[') || first == "str"@ {
        (
            seq![
                handle,
                layer(layer_id(prefix, "slice-data"@, depth), h, "borrowed elements"@, first, "data pointer target; the reference also stores runtime length metadata"@, "buffer"@, "conceptual"@, "points_to"@, "derived_from_type"@),
                layer(layer_id(prefix, "slice-length"@, depth), h, "length metadata"@, "usize"@, "the second word of a slice or str reference"@, "metadata"@, "inline"@, "contains"@, "derived_from_type"@),
            ],
            None,
            seq![],
        )
    } else {
        (
            seq![
                handle,
                layer(layer_id(prefix, "referent"@, depth), h, "borrowed target"@, first, "the owner keeps this value alive"@, "borrowed_view"@, "conceptual"@, if mutable { "borrow_mutable"@ } else { "borrow_shared"@ }, "compiler_type"@),
            ],
            None,
            seq![],
        )
    }
}

#[verifier::opaque]
pub open spec fn container_plan(type_text: Seq<char>, parent: Seq<char>, prefix: Seq<char>, depth: nat) -> LayerPlan {
    let parsed = spec_parse_type(type_text);
    let outer = parsed.0;
    let args = parsed.1;
    let first = argument_or_t(type_text);
    match spec_layer_family(type_text) {
        LayerFamily::Vector => {
            let h = layer_id(prefix, "vec-header"@, depth);
            let b = layer_id(prefix, "vec-buffer"@, depth);
            (
                seq![
                    layer(h, parent, "Vec handle [ptr | len | cap]"@, type_text, "stored inline; owns a separately allocated element buffer"@, "wrapper"@, "inline"@, "stores"@, "compiler_type"@),
                    layer(b, h, "Heap A · ["@ + first + " 0] ["@ + first + " 1] […]"@, first, "element buffer; capacity is runtime data"@, "buffer"@, "heap"@, "owns_buffer"@, "derived_from_type"@),
                    layer(layer_id(prefix, "element-zero"@, depth), b, first + "[0]"@, first, "the element selected by index 0"@, "element"@, "heap"@, "contains"@, "derived_from_source"@),
                ],
                None,
                seq![],
            )
        },
        LayerFamily::Collection => {
            let h = layer_id(prefix, "container-header"@, depth);
            (
                seq![
                    layer(h, parent, outer + " collection state"@, type_text, "inline handle and collection bookkeeping"@, "wrapper"@, "inline"@, "stores"@, "compiler_type"@),
                    layer(layer_id(prefix, "container-storage"@, depth), h, "owned element storage"@, if args.len() == 0 { "elements"@ } else { joined(args, ", "@) }, "heap-backed storage whose exact organization depends on the collection"@, "buffer"@, "heap"@, "owns_buffer"@, "derived_from_type"@),
                ],
                None,
                seq![],
            )
        },
        _ => {
            let h = layer_id(prefix, "string-header"@, depth);
            (
                seq![
                    layer(h, parent, "String handle [ptr | len | cap]"@, type_text, "UTF-8 owner stored inline"@, "wrapper"@, "inline"@, "stores"@, "compiler_type"@),
                    layer(layer_id(prefix, "string-buffer"@, depth), h, "heap UTF-8 bytes"@, "[u8]"@, "owned byte buffer; capacity is runtime data"@, "buffer"@, "heap"@, "owns_buffer"@, "compiler_type"@),
                ],
                None,
                seq![],
            )
        },
    }
}

#[verifier::opaque]
pub open spec fn owner_plan(type_text: Seq<char>, parent: Seq<char>, prefix: Seq<char>, depth: nat) -> LayerPlan {
    let outer = spec_parse_type(type_text).0;
    let first = argument_or_t(type_text);
    let dynamic = seq_contains(first, "dyn "@);
    match spec_layer_family(type_text) {
        LayerFamily::Boxed => {
            let h = layer_id(prefix, "box-handle"@, depth);
            let a = layer_id(prefix, "box-allocation"@, depth);
            let handle = layer(h, parent, if dynamic { "Box<dyn Trait> fat owner [data | vtable]"@ } else { "Box handle (unique owner)"@ }, type_text, if dynamic { "unique owning data pointer plus dynamic-dispatch metadata"@ } else { "pointer-sized owning handle"@ }, "handle"@, "inline"@, "stores"@, "compiler_type"@);
            let allocation = layer(a, h, "Box allocation"@, if dynamic { "erased concrete T"@ } else { first }, if dynamic { "heap allocation containing the concrete value behind dyn Trait"@ } else { "heap allocation containing the owned value"@ }, "heap_allocation"@, "heap"@, "owns"@, "compiler_type"@);
            if dynamic {
                (seq![handle, allocation, layer(layer_id(prefix, "box-vtable"@, depth), h, "vtable metadata"@, "method pointers + layout + drop"@, "the metadata word is part of the Box fat pointer, not inside the allocation"@, "metadata"@, "inline"@, "dispatches_via"@, "derived_from_type"@)], None, seq![])
            } else {
                (seq![handle, allocation], Some((first, a)), seq![])
            }
        },
        LayerFamily::Shared => {
            let thread_safe = outer == "Arc"@;
            let h = layer_id(prefix, "shared-handle"@, depth);
            let a = layer_id(prefix, "shared-allocation"@, depth);
            let handle = layer(h, parent, if dynamic { outer + "<dyn Trait> fat shared owner [data | vtable]"@ } else { outer + " handle (shared owner)"@ }, type_text, if thread_safe { "atomic reference-counted handle"@ } else { "single-thread reference-counted handle"@ }, "handle"@, "inline"@, "stores"@, "compiler_type"@);
            let allocation = layer(a, h, outer + " allocation [strong | weak | value]"@, if dynamic { "erased concrete T"@ } else { first }, if thread_safe { "shared heap allocation with atomic counters"@ } else { "shared heap allocation with non-atomic counters"@ }, "control_block"@, "heap"@, "shares_allocation"@, "compiler_type"@);
            if dynamic {
                (seq![handle, allocation, layer(layer_id(prefix, "shared-vtable"@, depth), h, "vtable metadata"@, "method pointers + layout + drop"@, "the metadata travels with each fat shared-owner handle"@, "metadata"@, "inline"@, "dispatches_via"@, "derived_from_type"@)], None, seq![])
            } else {
                (seq![handle, allocation], Some((first, a)), seq![])
            }
        },
        _ => {
            let h = layer_id(prefix, "weak-handle"@, depth);
            (
                seq![
                    layer(h, parent, "Weak handle (non-owning)"@, type_text, "does not keep the value alive"@, "handle"@, "inline"@, "stores"@, "compiler_type"@),
                    layer(layer_id(prefix, "weak-control"@, depth), h, "shared control block"@, first, "the value may already have been dropped"@, "control_block"@, "heap"@, "weak_reference"@, "compiler_type"@),
                ],
                None,
                seq![],
            )
        },
    }
}

/// The label and detail of a cell's gate.
pub open spec fn cell_words(outer: Seq<char>) -> (Seq<char>, Seq<char>) {
    if outer == "RefCell"@ {
        ("RefCell runtime borrow flag"@, "tracks shared and mutable borrows at runtime"@)
    } else if outer == "Cell"@ {
        ("Cell copy-in/copy-out gate"@, "permits replacing Copy values through shared access"@)
    } else if outer == "UnsafeCell"@ {
        ("UnsafeCell mutation boundary"@, "marks the primitive interior-mutability boundary"@)
    } else {
        ("one-time initialization state"@, "tracks whether the inner value has been initialized"@)
    }
}

#[verifier::opaque]
pub open spec fn gate_plan(type_text: Seq<char>, parent: Seq<char>, prefix: Seq<char>, depth: nat) -> LayerPlan {
    let outer = spec_parse_type(type_text).0;
    let first = argument_or_t(type_text);
    match spec_layer_family(type_text) {
        LayerFamily::Pinned => {
            let p = layer_id(prefix, "pin"@, depth);
            (seq![layer(p, parent, "Pin movement constraint"@, type_text, "prevents moving the pointee through safe APIs; it is not another allocation"@, "gate"@, "conceptual"@, "wraps"@, "compiler_type"@)], Some((first, p)), seq![])
        },
        LayerFamily::Cell => {
            let c = layer_id(prefix, "cell"@, depth);
            (seq![layer(c, parent, cell_words(outer).0, type_text, cell_words(outer).1, "borrow_flag"@, "inline"@, "guards_access"@, "compiler_type"@)], Some((first, c)), seq![])
        },
        LayerFamily::Lock => {
            let l = layer_id(prefix, "lock"@, depth);
            (seq![layer(l, parent, outer + " runtime lock state"@, type_text, if outer == "Mutex"@ { "one writer or blocked waiters"@ } else { "many readers or one writer"@ }, "lock_state"@, "inline"@, "guards_access"@, "compiler_type"@)], Some((first, l)), seq![])
        },
        LayerFamily::Guard => {
            (seq![layer(layer_id(prefix, "guard"@, depth), parent, outer + " temporary guard"@, type_text, "unlocks or releases access when dropped"@, "guard"@, "inline"@, "points_to"@, "compiler_type"@)], None, seq![])
        },
        _ => {
            let h = layer_id(prefix, "raw-pointer"@, depth);
            (
                seq![
                    layer(h, parent, outer + " raw pointer"@, type_text, "non-owning address; dereference requires unsafe and a separate validity proof"@, "handle"@, "inline"@, "stores"@, "compiler_type"@),
                    layer(layer_id(prefix, "raw-target"@, depth), h, "possible pointee"@, first, "Rust does not infer that this address is live, aligned, or uniquely accessible"@, "borrowed_view"@, "conceptual"@, "points_to"@, "conceptual"@),
                ],
                None,
                seq![],
            )
        },
    }
}

#[verifier::opaque]
pub open spec fn variant_plan(type_text: Seq<char>, parent: Seq<char>, prefix: Seq<char>, depth: nat) -> LayerPlan {
    let parsed = spec_parse_type(type_text);
    let outer = parsed.0;
    let args = parsed.1;
    match spec_layer_family(type_text) {
        LayerFamily::Conditional => {
            let is_option = outer == "Option"@;
            let c = layer_id(prefix, "conditional"@, depth);
            let v0 = layer_id(prefix, "variant-0"@, depth);
            let head = layer(c, parent, outer + " discriminant + active payload"@, type_text, "only the active variant's payload is usable"@, "wrapper"@, "inline"@, "contains"@, "compiler_type"@);
            let before = if args.len() > 0 {
                seq![head, layer(v0, c, if is_option { "Some payload"@ } else { "Ok payload"@ }, args[0], "conditional storage; shown only for the active variant"@, "inline_value"@, "inline"@, "conditional"@, "compiler_type"@)]
            } else {
                seq![head]
            };
            (before, if args.len() > 0 { Some((args[0], v0)) } else { None }, Seq::empty())
        },
        _ => {
            let borrowed = if args.len() > 0 { args[args.len() - 1] } else { "T"@ };
            let c = layer_id(prefix, "cow"@, depth);
            (
                seq![
                    layer(c, parent, "Cow: Borrowed or Owned"@, type_text, "clone-on-write chooses a borrowed view or an owned value"@, "wrapper"@, "inline"@, "contains"@, "compiler_type"@),
                    layer(layer_id(prefix, "cow-borrowed"@, depth), c, "Borrowed(&T)"@, borrowed, "non-owning branch"@, "borrowed_view"@, "conceptual"@, "conditional"@, "derived_from_type"@),
                    layer(layer_id(prefix, "cow-owned"@, depth), c, "Owned(T::Owned)"@, borrowed, "owning branch, created when mutation requires it"@, "inline_value"@, "conceptual"@, "conditional"@, "derived_from_type"@),
                ],
                None,
                seq![],
            )
        },
    }
}

#[verifier::opaque]
pub open spec fn runtime_plan(type_text: Seq<char>, parent: Seq<char>, prefix: Seq<char>, depth: nat) -> LayerPlan {
    let outer = spec_parse_type(type_text).0;
    match spec_layer_family(type_text) {
        LayerFamily::Future => {
            let f = layer_id(prefix, "future"@, depth);
            let s = layer_id(prefix, "saved-locals"@, depth);
            (
                seq![
                    layer(f, parent, "generated Future state"@, type_text, "a state machine value; calling async code does not run it yet"@, "future_state"@, "inline"@, "contains"@, "derived_from_type"@),
                    layer(s, f, "locals kept across .await"@, "captured and live local values"@, "stored inside the future while it is suspended"@, "capture"@, "inline"@, "stores_across_await"@, "conceptual"@),
                    layer(layer_id(prefix, "suspension"@, depth), s, "suspension point"@, "Poll::Pending → wake → poll again"@, "execution returns to the executor while the future remains alive"@, "suspension_point"@, "conceptual"@, "suspends_at"@, "conceptual"@),
                ],
                None,
                seq![],
            )
        },
        LayerFamily::Closure => {
            let e = layer_id(prefix, "closure"@, depth);
            (
                seq![
                    layer(e, parent, "closure environment"@, type_text, "compiler-generated struct containing captured values or references"@, "closure_environment"@, "inline"@, "contains"@, "derived_from_type"@),
                    layer(layer_id(prefix, "captures"@, depth), e, "captured values"@, "by &, &mut, or move"@, "capture mode determines Fn, FnMut, or FnOnce behavior"@, "capture"@, "inline"@, "captures"@, "conceptual"@),
                ],
                None,
                seq![],
            )
        },
        LayerFamily::TraitObject => {
            let f = layer_id(prefix, "dyn-fat-pointer"@, depth);
            (
                seq![
                    layer(f, parent, "trait-object fat pointer [data | vtable]"@, type_text, "two logical pointer components"@, "handle"@, "inline"@, "stores"@, "derived_from_type"@),
                    layer(layer_id(prefix, "dyn-data"@, depth), f, "concrete data"@, "erased concrete type"@, "the runtime value implementing the trait"@, "trait_object_data"@, "conceptual"@, "points_to"@, "derived_from_type"@),
                    layer(layer_id(prefix, "dyn-vtable"@, depth), f, "vtable"@, "method pointers + size + alignment + drop"@, "used for dynamic dispatch and cleanup"@, "metadata"@, "conceptual"@, "dispatches_via"@, "derived_from_type"@),
                ],
                None,
                seq![],
            )
        },
        _ => (
            seq![layer(layer_id(prefix, "value"@, depth), parent, if outer.len() == 0 { "inline value"@ } else { outer + " value"@ }, type_text, "stored inline at this layer; fields are expanded only when relevant"@, "inline_value"@, "inline"@, "contains"@, "compiler_type"@)],
            None,
            seq![],
        ),
    }
}

/// The second variant of a `Result`-like type, drawn after the first
/// variant's inner layers.
pub open spec fn variant_tail(type_text: Seq<char>, parent: Seq<char>, prefix: Seq<char>, depth: nat) -> Seq<LayerView> {
    let parsed = spec_parse_type(type_text);
    let outer = parsed.0;
    let args = parsed.1;
    if spec_layer_family(type_text) is Conditional && args.len() > 1 {
        seq![
            layer(
                layer_id(prefix, "variant-1"@, depth),
                layer_id(prefix, "conditional"@, depth),
                if outer == "Option"@ { "Some payload"@ } else { "Err payload"@ },
                args[1],
                "conditional storage; shown only for the active variant"@,
                "inline_value"@,
                "inline"@,
                "conditional"@,
                "compiler_type"@,
            ),
        ]
    } else {
        Seq::empty()
    }
}

/// What the family of `type_text` draws below `parent`.
pub open spec fn family_plan(type_text: Seq<char>, parent: Seq<char>, prefix: Seq<char>, depth: nat) -> LayerPlan {
    let head = match spec_layer_family(type_text) {
        LayerFamily::Reference => reference_plan(type_text, parent, prefix, depth),
        LayerFamily::Vector | LayerFamily::Collection | LayerFamily::Text => container_plan(type_text, parent, prefix, depth),
        LayerFamily::Boxed | LayerFamily::Shared | LayerFamily::WeakHandle => owner_plan(type_text, parent, prefix, depth),
        LayerFamily::Pinned | LayerFamily::Cell | LayerFamily::Lock | LayerFamily::Guard | LayerFamily::RawPointer => gate_plan(type_text, parent, prefix, depth),
        LayerFamily::Conditional | LayerFamily::CloneOnWrite => variant_plan(type_text, parent, prefix, depth),
        _ => runtime_plan(type_text, parent, prefix, depth),
    };
    (head.0, head.1, variant_tail(type_text, parent, prefix, depth))
}

/// The layers `type_text` expands into below `parent` when `count` layers
/// already exist: nothing at depth eight or from twelve layers on;
/// otherwise its family's layers, with the inner type expanded one level
/// deeper where the family looks inside.
pub open spec fn type_layers(type_text: Seq<char>, parent: Seq<char>, prefix: Seq<char>, depth: nat, count: nat) -> Seq<LayerView>
    decreases 8 - depth,
{
    if depth >= 8 || count >= 12 {
        Seq::empty()
    } else {
        let (before, inner, after) = family_plan(type_text, parent, prefix, depth);
        let middle = match inner {
            Some((inner_type, inner_parent)) => type_layers(inner_type, inner_parent, prefix, depth + 1, count + before.len()),
            None => Seq::empty(),
        };
        before + middle + after
    }
}

/// The inner type's layers within a plan, when the plan expands one and
/// `count` layers existed before the plan's own.
pub open spec fn plan_middle(plan: LayerPlan, prefix: Seq<char>, depth: nat, count: nat) -> Seq<LayerView> {
    match plan.1 {
        Some((inner_type, inner_parent)) => type_layers(inner_type, inner_parent, prefix, depth + 1, count + plan.0.len()),
        None => Seq::empty(),
    }
}

proof fn lemma_type_layers_unfold(type_text: Seq<char>, parent: Seq<char>, prefix: Seq<char>, depth: nat, count: nat)
    requires
        depth < 8,
        count < 12,
    ensures
        ({
            let plan = family_plan(type_text, parent, prefix, depth);
            type_layers(type_text, parent, prefix, depth, count) == plan.0 + plan_middle(plan, prefix, depth, count) + plan.2
        }),
{
}

fn owned(s: &str) -> (r: String)
    ensures
        r@ == s@,
{
    s.to_owned()
}

/// `arguments` joined with `", "`.
fn join_arguments(arguments: &Vec<String>) -> (r: String)
    ensures
        r@ == joined(strings_view(arguments@), ", "@),
{
    let ghost parts = strings_view(arguments@);
    let mut out = String::new();
    let mut i: usize = 0;
    assert(parts.take(0) =~= Seq::<Seq<char>>::empty());
    while i < arguments.len()
        invariant
            i <= arguments.len(),
            parts == strings_view(arguments@),
            out@ == joined(parts.take(i as int), ", "@),
        decreases arguments.len() - i,
    {
        if i > 0 {
            out.append(", ");
        }
        out.append(arguments[i].as_str());
        proof {
            assert(parts.take(i + 1).drop_last() =~= parts.take(i as int));
            assert(parts.take(i + 1).last() == arguments@[i as int]@);
            if i == 0 {
                assert(parts.take(1) =~= seq![arguments@[0]@]);
            }
        }
        i += 1;
    }
    assert(parts.take(arguments.len() as int) =~= parts);
    out
}

/// The inner type to expand and the layer it hangs from, with that layer's
/// position.
pub type InnerLayer = Option<(String, String, usize)>;

pub open spec fn inner_matches(plan: LayerPlan, r: InnerLayer, old_len: int, cur: Seq<LayerView>) -> bool {
    match r {
        Some((t, p, i)) => plan.1 == Some((t@, p@)) && old_len <= i < cur.len() && cur[i as int].id_suffix == p@,
        None => plan.1 is None,
    }
}

fn push_reference_layers(
    type_text: &str,
    outer: &str,
    first: &str,
    parent: &str,
    prefix: &str,
    layers: &mut Vec<TeachingLayer>,
    depth: usize,
) -> (r: InnerLayer)
    requires
        outer@ == spec_parse_type(type_text@).0,
        first@ == argument_or_t(type_text@),
    ensures
        views(final(layers)@) == views(old(layers)@) + reference_plan(type_text@, parent@, prefix@, depth as nat).0,
        extends_tree(views(old(layers)@), views(final(layers)@), parent@),
        inner_matches(reference_plan(type_text@, parent@, prefix@, depth as nat), r, old(layers).len() as int, views(final(layers)@)),
{
    proof {
        reveal(reference_plan);
    }
    let ghost base = views(layers@);
    proof {
        lemma_extends_refl(base, parent@);
    }
    let start = layers.len();
    let top = usize::MAX;
    let mutable = str_eq(outer, "&mut");
    let handle = attach(
        layers,
        Ghost(base),
        Ghost(parent@),
        parent,
        top,
        child_prefix(prefix, "reference", depth),
        owned(if mutable { "&mut reference handle" } else { "& shared reference handle" }),
        owned(type_text),
        if mutable {
            "temporary exclusive access; it does not own the target"
        } else {
            "temporary read-only access; it does not own the target"
        },
        "handle",
        "inline",
        "stores",
        "compiler_type",
    );
    let first_chars = chars_of(first);
    if has_substring(first, "dyn ") {
        let data_index = layers.len();
        let data = attach(
            layers,
            Ghost(base),
            Ghost(parent@),
            handle.as_str(),
            start,
            child_prefix(prefix, "dyn-data", depth),
            owned("trait-object data"),
            owned(first),
            "the concrete value behind the trait object",
            "trait_object_data",
            "conceptual",
            "points_to",
            "derived_from_type",
        );
        attach(
            layers,
            Ghost(base),
            Ghost(parent@),
            handle.as_str(),
            start,
            child_prefix(prefix, "vtable", depth),
            owned("vtable metadata"),
            owned("method table + layout metadata"),
            "the second word of this fat pointer selects dynamic methods",
            "metadata",
            "inline",
            "dispatches_via",
            "derived_from_type",
        );
        assert(views(layers@) =~= base + reference_plan(type_text@, parent@, prefix@, depth as nat).0);
        Some((owned("concrete T"), data, data_index))
    } else if (first_chars.len() > 0 && first_chars[0] == '[') || str_eq(first, "str") {
        attach(
            layers,
            Ghost(base),
            Ghost(parent@),
            handle.as_str(),
            start,
            child_prefix(prefix, "slice-data", depth),
            owned("borrowed elements"),
            owned(first),
            "data pointer target; the reference also stores runtime length metadata",
            "buffer",
            "conceptual",
            "points_to",
            "derived_from_type",
        );
        attach(
            layers,
            Ghost(base),
            Ghost(parent@),
            handle.as_str(),
            start,
            child_prefix(prefix, "slice-length", depth),
            owned("length metadata"),
            owned("usize"),
            "the second word of a slice or str reference",
            "metadata",
            "inline",
            "contains",
            "derived_from_type",
        );
        assert(views(layers@) =~= base + reference_plan(type_text@, parent@, prefix@, depth as nat).0);
        None
    } else {
        attach(
            layers,
            Ghost(base),
            Ghost(parent@),
            handle.as_str(),
            start,
            child_prefix(prefix, "referent", depth),
            owned("borrowed target"),
            owned(first),
            "the owner keeps this value alive",
            "borrowed_view",
            "conceptual",
            if mutable { "borrow_mutable" } else { "borrow_shared" },
            "compiler_type",
        );
        assert(views(layers@) =~= base + reference_plan(type_text@, parent@, prefix@, depth as nat).0);
        None
    }
}

fn push_container_layers(
    type_text: &str,
    outer: &str,
    arguments: &Vec<String>,
    first: &str,
    family: LayerFamily,
    parent: &str,
    prefix: &str,
    layers: &mut Vec<TeachingLayer>,
    depth: usize,
)
    requires
        outer@ == spec_parse_type(type_text@).0,
        strings_view(arguments@) == spec_parse_type(type_text@).1,
        first@ == argument_or_t(type_text@),
        family == spec_layer_family(type_text@),
        family is Vector || family is Collection || family is Text,
    ensures
        views(final(layers)@) == views(old(layers)@) + container_plan(type_text@, parent@, prefix@, depth as nat).0,
        extends_tree(views(old(layers)@), views(final(layers)@), parent@),
{
    proof {
        reveal(container_plan);
    }
    let ghost base = views(layers@);
    proof {
        lemma_extends_refl(base, parent@);
    }
    let start = layers.len();
    let top = usize::MAX;
    match family {
        LayerFamily::Vector => {
            let header = attach(
                layers,
                Ghost(base),
                Ghost(parent@),
                parent,
                top,
                child_prefix(prefix, "vec-header", depth),
                owned("Vec handle [ptr | len | cap]"),
                owned(type_text),
                "stored inline; owns a separately allocated element buffer",
                "wrapper",
                "inline",
                "stores",
                "compiler_type",
            );
            let mut buffer_label = concat3("Heap A · [", first, " 0] [");
            buffer_label.append(first);
            buffer_label.append(" 1] […]");
            let buffer_index = layers.len();
            let buffer = attach(
                layers,
                Ghost(base),
                Ghost(parent@),
                header.as_str(),
                start,
                child_prefix(prefix, "vec-buffer", depth),
                buffer_label,
                owned(first),
                "element buffer; capacity is runtime data",
                "buffer",
                "heap",
                "owns_buffer",
                "derived_from_type",
            );
            attach(
                layers,
                Ghost(base),
                Ghost(parent@),
                buffer.as_str(),
                buffer_index,
                child_prefix(prefix, "element-zero", depth),
                concat2(first, "[0]"),
                owned(first),
                "the element selected by index 0",
                "element",
                "heap",
                "contains",
                "derived_from_source",
            );
        },
        LayerFamily::Collection => {
            let header = attach(
                layers,
                Ghost(base),
                Ghost(parent@),
                parent,
                top,
                child_prefix(prefix, "container-header", depth),
                concat2(outer, " collection state"),
                owned(type_text),
                "inline handle and collection bookkeeping",
                "wrapper",
                "inline",
                "stores",
                "compiler_type",
            );
            let storage_type = if arguments.len() == 0 {
                owned("elements")
            } else {
                join_arguments(arguments)
            };
            attach(
                layers,
                Ghost(base),
                Ghost(parent@),
                header.as_str(),
                start,
                child_prefix(prefix, "container-storage", depth),
                owned("owned element storage"),
                storage_type,
                "heap-backed storage whose exact organization depends on the collection",
                "buffer",
                "heap",
                "owns_buffer",
                "derived_from_type",
            );
        },
        _ => {
            let header = attach(
                layers,
                Ghost(base),
                Ghost(parent@),
                parent,
                top,
                child_prefix(prefix, "string-header", depth),
                owned("String handle [ptr | len | cap]"),
                owned(type_text),
                "UTF-8 owner stored inline",
                "wrapper",
                "inline",
                "stores",
                "compiler_type",
            );
            attach(
                layers,
                Ghost(base),
                Ghost(parent@),
                header.as_str(),
                start,
                child_prefix(prefix, "string-buffer", depth),
                owned("heap UTF-8 bytes"),
                owned("[u8]"),
                "owned byte buffer; capacity is runtime data",
                "buffer",
                "heap",
                "owns_buffer",
                "compiler_type",
            );
        },
    }
    assert(views(layers@) =~= base + container_plan(type_text@, parent@, prefix@, depth as nat).0);
}

fn push_owner_layers(
    type_text: &str,
    outer: &str,
    first: &str,
    family: LayerFamily,
    parent: &str,
    prefix: &str,
    layers: &mut Vec<TeachingLayer>,
    depth: usize,
) -> (r: InnerLayer)
    requires
        outer@ == spec_parse_type(type_text@).0,
        first@ == argument_or_t(type_text@),
        family == spec_layer_family(type_text@),
        family is Boxed || family is Shared || family is WeakHandle,
    ensures
        views(final(layers)@) == views(old(layers)@) + owner_plan(type_text@, parent@, prefix@, depth as nat).0,
        extends_tree(views(old(layers)@), views(final(layers)@), parent@),
        inner_matches(owner_plan(type_text@, parent@, prefix@, depth as nat), r, old(layers).len() as int, views(final(layers)@)),
{
    proof {
        reveal(owner_plan);
    }
    let ghost base = views(layers@);
    proof {
        lemma_extends_refl(base, parent@);
    }
    let start = layers.len();
    let top = usize::MAX;
    let dynamic = has_substring(first, "dyn ");
    match family {
        LayerFamily::Boxed => {
            let handle = attach(
                layers,
                Ghost(base),
                Ghost(parent@),
                parent,
                top,
                child_prefix(prefix, "box-handle", depth),
                owned(if dynamic { "Box<dyn Trait> fat owner [data | vtable]" } else { "Box handle (unique owner)" }),
                owned(type_text),
                if dynamic {
                    "unique owning data pointer plus dynamic-dispatch metadata"
                } else {
                    "pointer-sized owning handle"
                },
                "handle",
                "inline",
                "stores",
                "compiler_type",
            );
            let allocation_index = layers.len();
            let allocation = attach(
                layers,
                Ghost(base),
                Ghost(parent@),
                handle.as_str(),
                start,
                child_prefix(prefix, "box-allocation", depth),
                owned("Box allocation"),
                owned(if dynamic { "erased concrete T" } else { first }),
                if dynamic {
                    "heap allocation containing the concrete value behind dyn Trait"
                } else {
                    "heap allocation containing the owned value"
                },
                "heap_allocation",
                "heap",
                "owns",
                "compiler_type",
            );
            if dynamic {
                attach(
                    layers,
                    Ghost(base),
                    Ghost(parent@),
                    handle.as_str(),
                    start,
                    child_prefix(prefix, "box-vtable", depth),
                    owned("vtable metadata"),
                    owned("method pointers + layout + drop"),
                    "the metadata word is part of the Box fat pointer, not inside the allocation",
                    "metadata",
                    "inline",
                    "dispatches_via",
                    "derived_from_type",
                );
                assert(views(layers@) =~= base + owner_plan(type_text@, parent@, prefix@, depth as nat).0);
                None
            } else {
                assert(views(layers@) =~= base + owner_plan(type_text@, parent@, prefix@, depth as nat).0);
                Some((owned(first), allocation, allocation_index))
            }
        },
        LayerFamily::Shared => {
            let thread_safe = str_eq(outer, "Arc");
            let handle = attach(
                layers,
                Ghost(base),
                Ghost(parent@),
                parent,
                top,
                child_prefix(prefix, "shared-handle", depth),
                if dynamic {
                    concat2(outer, "<dyn Trait> fat shared owner [data | vtable]")
                } else {
                    concat2(outer, " handle (shared owner)")
                },
                owned(type_text),
                if thread_safe {
                    "atomic reference-counted handle"
                } else {
                    "single-thread reference-counted handle"
                },
                "handle",
                "inline",
                "stores",
                "compiler_type",
            );
            let allocation_index = layers.len();
            let allocation = attach(
                layers,
                Ghost(base),
                Ghost(parent@),
                handle.as_str(),
                start,
                child_prefix(prefix, "shared-allocation", depth),
                concat2(outer, " allocation [strong | weak | value]"),
                owned(if dynamic { "erased concrete T" } else { first }),
                if thread_safe {
                    "shared heap allocation with atomic counters"
                } else {
                    "shared heap allocation with non-atomic counters"
                },
                "control_block",
                "heap",
                "shares_allocation",
                "compiler_type",
            );
            if dynamic {
                attach(
                    layers,
                    Ghost(base),
                    Ghost(parent@),
                    handle.as_str(),
                    start,
                    child_prefix(prefix, "shared-vtable", depth),
                    owned("vtable metadata"),
                    owned("method pointers + layout + drop"),
                    "the metadata travels with each fat shared-owner handle",
                    "metadata",
                    "inline",
                    "dispatches_via",
                    "derived_from_type",
                );
                assert(views(layers@) =~= base + owner_plan(type_text@, parent@, prefix@, depth as nat).0);
                None
            } else {
                assert(views(layers@) =~= base + owner_plan(type_text@, parent@, prefix@, depth as nat).0);
                Some((owned(first), allocation, allocation_index))
            }
        },
        _ => {
            let handle = attach(
                layers,
                Ghost(base),
                Ghost(parent@),
                parent,
                top,
                child_prefix(prefix, "weak-handle", depth),
                owned("Weak handle (non-owning)"),
                owned(type_text),
                "does not keep the value alive",
                "handle",
                "inline",
                "stores",
                "compiler_type",
            );
            attach(
                layers,
                Ghost(base),
                Ghost(parent@),
                handle.as_str(),
                start,
                child_prefix(prefix, "weak-control", depth),
                owned("shared control block"),
                owned(first),
                "the value may already have been dropped",
                "control_block",
                "heap",
                "weak_reference",
                "compiler_type",
            );
            assert(views(layers@) =~= base + owner_plan(type_text@, parent@, prefix@, depth as nat).0);
            None
        },
    }
}

fn cell_words_text(outer: &str) -> (r: (&'static str, &'static str))
    ensures
        (r.0@, r.1@) == cell_words(outer@),
{
    if str_eq(outer, "RefCell") {
        ("RefCell runtime borrow flag", "tracks shared and mutable borrows at runtime")
    } else if str_eq(outer, "Cell") {
        ("Cell copy-in/copy-out gate", "permits replacing Copy values through shared access")
    } else if str_eq(outer, "UnsafeCell") {
        ("UnsafeCell mutation boundary", "marks the primitive interior-mutability boundary")
    } else {
        ("one-time initialization state", "tracks whether the inner value has been initialized")
    }
}

fn push_gate_layers(
    type_text: &str,
    outer: &str,
    first: &str,
    family: LayerFamily,
    parent: &str,
    prefix: &str,
    layers: &mut Vec<TeachingLayer>,
    depth: usize,
) -> (r: InnerLayer)
    requires
        outer@ == spec_parse_type(type_text@).0,
        first@ == argument_or_t(type_text@),
        family == spec_layer_family(type_text@),
        family is Pinned || family is Cell || family is Lock || family is Guard || family is RawPointer,
    ensures
        views(final(layers)@) == views(old(layers)@) + gate_plan(type_text@, parent@, prefix@, depth as nat).0,
        extends_tree(views(old(layers)@), views(final(layers)@), parent@),
        inner_matches(gate_plan(type_text@, parent@, prefix@, depth as nat), r, old(layers).len() as int, views(final(layers)@)),
{
    proof {
        reveal(gate_plan);
    }
    let ghost base = views(layers@);
    proof {
        lemma_extends_refl(base, parent@);
    }
    let start = layers.len();
    let top = usize::MAX;
    match family {
        LayerFamily::Pinned => {
            let constraint = attach(
                layers,
                Ghost(base),
                Ghost(parent@),
                parent,
                top,
                child_prefix(prefix, "pin", depth),
                owned("Pin movement constraint"),
                owned(type_text),
                "prevents moving the pointee through safe APIs; it is not another allocation",
                "gate",
                "conceptual",
                "wraps",
                "compiler_type",
            );
            assert(views(layers@) =~= base + gate_plan(type_text@, parent@, prefix@, depth as nat).0);
            Some((owned(first), constraint, start))
        },
        LayerFamily::Cell => {
            let (label, detail) = cell_words_text(outer);
            let wrapper = attach(
                layers,
                Ghost(base),
                Ghost(parent@),
                parent,
                top,
                child_prefix(prefix, "cell", depth),
                owned(label),
                owned(type_text),
                detail,
                "borrow_flag",
                "inline",
                "guards_access",
                "compiler_type",
            );
            assert(views(layers@) =~= base + gate_plan(type_text@, parent@, prefix@, depth as nat).0);
            Some((owned(first), wrapper, start))
        },
        LayerFamily::Lock => {
            let lock = attach(
                layers,
                Ghost(base),
                Ghost(parent@),
                parent,
                top,
                child_prefix(prefix, "lock", depth),
                concat2(outer, " runtime lock state"),
                owned(type_text),
                if str_eq(outer, "Mutex") {
                    "one writer or blocked waiters"
                } else {
                    "many readers or one writer"
                },
                "lock_state",
                "inline",
                "guards_access",
                "compiler_type",
            );
            assert(views(layers@) =~= base + gate_plan(type_text@, parent@, prefix@, depth as nat).0);
            Some((owned(first), lock, start))
        },
        LayerFamily::Guard => {
            attach(
                layers,
                Ghost(base),
                Ghost(parent@),
                parent,
                top,
                child_prefix(prefix, "guard", depth),
                concat2(outer, " temporary guard"),
                owned(type_text),
                "unlocks or releases access when dropped",
                "guard",
                "inline",
                "points_to",
                "compiler_type",
            );
            assert(views(layers@) =~= base + gate_plan(type_text@, parent@, prefix@, depth as nat).0);
            None
        },
        _ => {
            let handle = attach(
                layers,
                Ghost(base),
                Ghost(parent@),
                parent,
                top,
                child_prefix(prefix, "raw-pointer", depth),
                concat2(outer, " raw pointer"),
                owned(type_text),
                "non-owning address; dereference requires unsafe and a separate validity proof",
                "handle",
                "inline",
                "stores",
                "compiler_type",
            );
            attach(
                layers,
                Ghost(base),
                Ghost(parent@),
                handle.as_str(),
                start,
                child_prefix(prefix, "raw-target", depth),
                owned("possible pointee"),
                owned(first),
                "Rust does not infer that this address is live, aligned, or uniquely accessible",
                "borrowed_view",
                "conceptual",
                "points_to",
                "conceptual",
            );
            assert(views(layers@) =~= base + gate_plan(type_text@, parent@, prefix@, depth as nat).0);
            None
        },
    }
}

#[verifier::rlimit(60)]
fn push_variant_layers(
    type_text: &str,
    outer: &str,
    arguments: &Vec<String>,
    family: LayerFamily,
    parent: &str,
    prefix: &str,
    layers: &mut Vec<TeachingLayer>,
    depth: usize,
) -> (r: InnerLayer)
    requires
        outer@ == spec_parse_type(type_text@).0,
        strings_view(arguments@) == spec_parse_type(type_text@).1,
        family == spec_layer_family(type_text@),
        family is Conditional || family is CloneOnWrite,
    ensures
        views(final(layers)@) == views(old(layers)@) + variant_plan(type_text@, parent@, prefix@, depth as nat).0,
        extends_tree(views(old(layers)@), views(final(layers)@), parent@),
        family is Conditional ==> views(final(layers)@)[old(layers).len() as int].id_suffix == layer_id(prefix@, "conditional"@, depth as nat),
        inner_matches(variant_plan(type_text@, parent@, prefix@, depth as nat), r, old(layers).len() as int, views(final(layers)@)),
{
    proof {
        reveal(variant_plan);
    }
    let ghost base = views(layers@);
    proof {
        lemma_extends_refl(base, parent@);
    }
    let start = layers.len();
    let top = usize::MAX;
    match family {
        LayerFamily::Conditional => {
            let is_option = str_eq(outer, "Option");
            let conditional = attach(
                layers,
                Ghost(base),
                Ghost(parent@),
                parent,
                top,
                child_prefix(prefix, "conditional", depth),
                concat2(outer, " discriminant + active payload"),
                owned(type_text),
                "only the active variant's payload is usable",
                "wrapper",
                "inline",
                "contains",
                "compiler_type",
            );
            if arguments.len() > 0 {
                let argument = arguments[0].as_str();
                let variant_index = layers.len();
                let variant = attach(
                    layers,
                    Ghost(base),
                    Ghost(parent@),
                    conditional.as_str(),
                    start,
                    child_prefix(prefix, "variant-0", depth),
                    owned(if is_option { "Some payload" } else { "Ok payload" }),
                    owned(argument),
                    "conditional storage; shown only for the active variant",
                    "inline_value",
                    "inline",
                    "conditional",
                    "compiler_type",
                );
                assert(views(layers@) =~= base + variant_plan(type_text@, parent@, prefix@, depth as nat).0);
                Some((owned(argument), variant, variant_index))
            } else {
                assert(views(layers@) =~= base + variant_plan(type_text@, parent@, prefix@, depth as nat).0);
                None
            }
        },
        _ => {
            let borrowed_type: &str = if arguments.len() > 0 {
                arguments[arguments.len() - 1].as_str()
            } else {
                "T"
            };
            let cow = attach(
                layers,
                Ghost(base),
                Ghost(parent@),
                parent,
                top,
                child_prefix(prefix, "cow", depth),
                owned("Cow: Borrowed or Owned"),
                owned(type_text),
                "clone-on-write chooses a borrowed view or an owned value",
                "wrapper",
                "inline",
                "contains",
                "compiler_type",
            );
            attach(
                layers,
                Ghost(base),
                Ghost(parent@),
                cow.as_str(),
                start,
                child_prefix(prefix, "cow-borrowed", depth),
                owned("Borrowed(&T)"),
                owned(borrowed_type),
                "non-owning branch",
                "borrowed_view",
                "conceptual",
                "conditional",
                "derived_from_type",
            );
            attach(
                layers,
                Ghost(base),
                Ghost(parent@),
                cow.as_str(),
                start,
                child_prefix(prefix, "cow-owned", depth),
                owned("Owned(T::Owned)"),
                owned(borrowed_type),
                "owning branch, created when mutation requires it",
                "inline_value",
                "conceptual",
                "conditional",
                "derived_from_type",
            );
            assert(views(layers@) =~= base + variant_plan(type_text@, parent@, prefix@, depth as nat).0);
            None
        },
    }
}

/// The layers a family draws after its inner type's: the second variant of
/// a `Result`-like type.
fn push_variant_tail(
    type_text: &str,
    outer: &str,
    arguments: &Vec<String>,
    family: LayerFamily,
    parent: &str,
    prefix: &str,
    layers: &mut Vec<TeachingLayer>,
    depth: usize,
    Ghost(base): Ghost<Seq<LayerView>>,
    conditional_index: usize,
)
    requires
        outer@ == spec_parse_type(type_text@).0,
        strings_view(arguments@) == spec_parse_type(type_text@).1,
        family == spec_layer_family(type_text@),
        extends_tree(base, views(old(layers)@), parent@),
        family is Conditional ==> base.len() <= conditional_index < old(layers).len() && views(old(layers)@)[conditional_index as int].id_suffix == layer_id(prefix@, "conditional"@, depth as nat),
    ensures
        views(final(layers)@) == views(old(layers)@) + variant_tail(type_text@, parent@, prefix@, depth as nat),
        extends_tree(base, views(final(layers)@), parent@),
{
    if matches!(family, LayerFamily::Conditional) && arguments.len() > 1 {
        let ghost before = views(layers@);
        let is_option = str_eq(outer, "Option");
        let conditional = child_prefix(prefix, "conditional", depth);
        attach(
            layers,
            Ghost(base),
            Ghost(parent@),
            conditional.as_str(),
            conditional_index,
            child_prefix(prefix, "variant-1", depth),
            owned(if is_option { "Some payload" } else { "Err payload" }),
            owned(arguments[1].as_str()),
            "conditional storage; shown only for the active variant",
            "inline_value",
            "inline",
            "conditional",
            "compiler_type",
        );
        assert(views(layers@) =~= before + variant_tail(type_text@, parent@, prefix@, depth as nat));
    } else {
        assert(views(layers@) =~= views(layers@) + variant_tail(type_text@, parent@, prefix@, depth as nat));
    }
}

fn push_runtime_layers(
    type_text: &str,
    outer: &str,
    family: LayerFamily,
    parent: &str,
    prefix: &str,
    layers: &mut Vec<TeachingLayer>,
    depth: usize,
)
    requires
        outer@ == spec_parse_type(type_text@).0,
        family == spec_layer_family(type_text@),
        family is Future || family is Closure || family is TraitObject || family is Value,
    ensures
        views(final(layers)@) == views(old(layers)@) + runtime_plan(type_text@, parent@, prefix@, depth as nat).0,
        extends_tree(views(old(layers)@), views(final(layers)@), parent@),
{
    proof {
        reveal(runtime_plan);
    }
    let ghost base = views(layers@);
    proof {
        lemma_extends_refl(base, parent@);
    }
    let start = layers.len();
    let top = usize::MAX;
    match family {
        LayerFamily::Future => {
            let future = attach(
                layers,
                Ghost(base),
                Ghost(parent@),
                parent,
                top,
                child_prefix(prefix, "future", depth),
                owned("generated Future state"),
                owned(type_text),
                "a state machine value; calling async code does not run it yet",
                "future_state",
                "inline",
                "contains",
                "derived_from_type",
            );
            let locals_index = layers.len();
            let locals = attach(
                layers,
                Ghost(base),
                Ghost(parent@),
                future.as_str(),
                start,
                child_prefix(prefix, "saved-locals", depth),
                owned("locals kept across .await"),
                owned("captured and live local values"),
                "stored inside the future while it is suspended",
                "capture",
                "inline",
                "stores_across_await",
                "conceptual",
            );
            attach(
                layers,
                Ghost(base),
                Ghost(parent@),
                locals.as_str(),
                locals_index,
                child_prefix(prefix, "suspension", depth),
                owned("suspension point"),
                owned("Poll::Pending → wake → poll again"),
                "execution returns to the executor while the future remains alive",
                "suspension_point",
                "conceptual",
                "suspends_at",
                "conceptual",
            );
        },
        LayerFamily::Closure => {
            let environment = attach(
                layers,
                Ghost(base),
                Ghost(parent@),
                parent,
                top,
                child_prefix(prefix, "closure", depth),
                owned("closure environment"),
                owned(type_text),
                "compiler-generated struct containing captured values or references",
                "closure_environment",
                "inline",
                "contains",
                "derived_from_type",
            );
            attach(
                layers,
                Ghost(base),
                Ghost(parent@),
                environment.as_str(),
                start,
                child_prefix(prefix, "captures", depth),
                owned("captured values"),
                owned("by &, &mut, or move"),
                "capture mode determines Fn, FnMut, or FnOnce behavior",
                "capture",
                "inline",
                "captures",
                "conceptual",
            );
        },
        LayerFamily::TraitObject => {
            let fat = attach(
                layers,
                Ghost(base),
                Ghost(parent@),
                parent,
                top,
                child_prefix(prefix, "dyn-fat-pointer", depth),
                owned("trait-object fat pointer [data | vtable]"),
                owned(type_text),
                "two logical pointer components",
                "handle",
                "inline",
                "stores",
                "derived_from_type",
            );
            attach(
                layers,
                Ghost(base),
                Ghost(parent@),
                fat.as_str(),
                start,
                child_prefix(prefix, "dyn-data", depth),
                owned("concrete data"),
                owned("erased concrete type"),
                "the runtime value implementing the trait",
                "trait_object_data",
                "conceptual",
                "points_to",
                "derived_from_type",
            );
            attach(
                layers,
                Ghost(base),
                Ghost(parent@),
                fat.as_str(),
                start,
                child_prefix(prefix, "dyn-vtable", depth),
                owned("vtable"),
                owned("method pointers + size + alignment + drop"),
                "used for dynamic dispatch and cleanup",
                "metadata",
                "conceptual",
                "dispatches_via",
                "derived_from_type",
            );
        },
        _ => {
            attach(
                layers,
                Ghost(base),
                Ghost(parent@),
                parent,
                top,
                child_prefix(prefix, "value", depth),
                if outer.is_empty() {
                    owned("inline value")
                } else {
                    concat2(outer, " value")
                },
                owned(type_text),
                "stored inline at this layer; fields are expanded only when relevant",
                "inline_value",
                "inline",
                "contains",
                "compiler_type",
            );
        },
    }
    assert(views(layers@) =~= base + runtime_plan(type_text@, parent@, prefix@, depth as nat).0);
}

proof fn lemma_reference_plan_small(type_text: Seq<char>, parent: Seq<char>, prefix: Seq<char>, depth: nat)
    requires
        spec_layer_family(type_text) is Reference,
    ensures
        ({
            let plan = reference_plan(type_text, parent, prefix, depth);
            &&& plan.0.len() >= 1
            &&& plan.0.len() <= 2 || (plan.0.len() == 3 && !(spec_layer_family(type_text) is Conditional))
            &&& plan.0[0].parent_suffix == Some(parent)
            &&& plan.0[0].type_text == type_text
            &&& plan.0[0].kind == family_first_kind(spec_layer_family(type_text))
            &&& plan.0[0].relation == family_first_relation(spec_layer_family(type_text))
        }),
{
    reveal(reference_plan);
}

proof fn lemma_container_plan_small(type_text: Seq<char>, parent: Seq<char>, prefix: Seq<char>, depth: nat)
    requires
        spec_layer_family(type_text) is Vector || spec_layer_family(type_text) is Collection || spec_layer_family(type_text) is Text,
    ensures
        ({
            let plan = container_plan(type_text, parent, prefix, depth);
            &&& plan.0.len() >= 1
            &&& plan.0.len() <= 2 || (plan.0.len() == 3 && !(spec_layer_family(type_text) is Conditional))
            &&& plan.0[0].parent_suffix == Some(parent)
            &&& plan.0[0].type_text == type_text
            &&& plan.0[0].kind == family_first_kind(spec_layer_family(type_text))
            &&& plan.0[0].relation == family_first_relation(spec_layer_family(type_text))
        }),
{
    reveal(container_plan);
}

proof fn lemma_owner_plan_small(type_text: Seq<char>, parent: Seq<char>, prefix: Seq<char>, depth: nat)
    requires
        spec_layer_family(type_text) is Boxed || spec_layer_family(type_text) is Shared || spec_layer_family(type_text) is WeakHandle,
    ensures
        ({
            let plan = owner_plan(type_text, parent, prefix, depth);
            &&& plan.0.len() >= 1
            &&& plan.0.len() <= 2 || (plan.0.len() == 3 && !(spec_layer_family(type_text) is Conditional))
            &&& plan.0[0].parent_suffix == Some(parent)
            &&& plan.0[0].type_text == type_text
            &&& plan.0[0].kind == family_first_kind(spec_layer_family(type_text))
            &&& plan.0[0].relation == family_first_relation(spec_layer_family(type_text))
        }),
{
    reveal(owner_plan);
}

proof fn lemma_gate_plan_small(type_text: Seq<char>, parent: Seq<char>, prefix: Seq<char>, depth: nat)
    requires
        spec_layer_family(type_text) is Pinned || spec_layer_family(type_text) is Cell || spec_layer_family(type_text) is Lock || spec_layer_family(type_text) is Guard || spec_layer_family(type_text) is RawPointer,
    ensures
        ({
            let plan = gate_plan(type_text, parent, prefix, depth);
            &&& plan.0.len() >= 1
            &&& plan.0.len() <= 2 || (plan.0.len() == 3 && !(spec_layer_family(type_text) is Conditional))
            &&& plan.0[0].parent_suffix == Some(parent)
            &&& plan.0[0].type_text == type_text
            &&& plan.0[0].kind == family_first_kind(spec_layer_family(type_text))
            &&& plan.0[0].relation == family_first_relation(spec_layer_family(type_text))
        }),
{
    reveal(gate_plan);
}

proof fn lemma_variant_plan_small(type_text: Seq<char>, parent: Seq<char>, prefix: Seq<char>, depth: nat)
    requires
        spec_layer_family(type_text) is Conditional || spec_layer_family(type_text) is CloneOnWrite,
    ensures
        ({
            let plan = variant_plan(type_text, parent, prefix, depth);
            &&& plan.0.len() >= 1
            &&& plan.0.len() <= 2 || (plan.0.len() == 3 && !(spec_layer_family(type_text) is Conditional))
            &&& plan.0[0].parent_suffix == Some(parent)
            &&& plan.0[0].type_text == type_text
            &&& plan.0[0].kind == family_first_kind(spec_layer_family(type_text))
            &&& plan.0[0].relation == family_first_relation(spec_layer_family(type_text))
        }),
{
    reveal(variant_plan);
    let family = spec_layer_family(type_text);
    if family is Conditional {
        assert(family == LayerFamily::Conditional);
    } else if family is CloneOnWrite {
        assert(family == LayerFamily::CloneOnWrite);
    }
}

proof fn lemma_runtime_plan_small(type_text: Seq<char>, parent: Seq<char>, prefix: Seq<char>, depth: nat)
    requires
        spec_layer_family(type_text) is Future || spec_layer_family(type_text) is Closure || spec_layer_family(type_text) is TraitObject || spec_layer_family(type_text) is Value,
    ensures
        ({
            let plan = runtime_plan(type_text, parent, prefix, depth);
            &&& plan.0.len() >= 1
            &&& plan.0.len() <= 2 || (plan.0.len() == 3 && !(spec_layer_family(type_text) is Conditional))
            &&& plan.0[0].parent_suffix == Some(parent)
            &&& plan.0[0].type_text == type_text
            &&& plan.0[0].kind == family_first_kind(spec_layer_family(type_text))
            &&& plan.0[0].relation == family_first_relation(spec_layer_family(type_text))
        }),
{
    reveal(runtime_plan);
    let family = spec_layer_family(type_text);
    if family is Future {
        assert(family == LayerFamily::Future);
    } else if family is Closure {
        assert(family == LayerFamily::Closure);
    } else if family is TraitObject {
        assert(family == LayerFamily::TraitObject);
    } else if family is Value {
        assert(family == LayerFamily::Value);
    }
}

/// Each family draws at most three layers of its own, the first of them
/// hanging from the parent and showing the whole type.
proof fn lemma_plan_small(type_text: Seq<char>, parent: Seq<char>, prefix: Seq<char>, depth: nat)
    ensures
        ({
            let plan = family_plan(type_text, parent, prefix, depth);
            &&& plan.0.len() >= 1
            &&& plan.0.len() + plan.2.len() <= 3
            &&& plan.0[0].parent_suffix == Some(parent)
            &&& plan.0[0].type_text == type_text
            &&& plan.0[0].kind == family_first_kind(spec_layer_family(type_text))
            &&& plan.0[0].relation == family_first_relation(spec_layer_family(type_text))
        }),
{
    let family = spec_layer_family(type_text);
    if family is Reference {
        lemma_reference_plan_small(type_text, parent, prefix, depth);
    } else if family is Vector || family is Collection || family is Text {
        lemma_container_plan_small(type_text, parent, prefix, depth);
    } else if family is Boxed || family is Shared || family is WeakHandle {
        lemma_owner_plan_small(type_text, parent, prefix, depth);
    } else if family is Pinned || family is Cell || family is Lock || family is Guard || family is RawPointer {
        lemma_gate_plan_small(type_text, parent, prefix, depth);
    } else if family is Conditional || family is CloneOnWrite {
        lemma_variant_plan_small(type_text, parent, prefix, depth);
    } else {
        lemma_runtime_plan_small(type_text, parent, prefix, depth);
    }
}

proof fn lemma_type_layers_bounded(type_text: Seq<char>, parent: Seq<char>, prefix: Seq<char>, depth: nat, count: nat)
    requires
        depth < 8,
    ensures
        type_layers(type_text, parent, prefix, depth, count).len() <= 3 * (8 - depth),
    decreases 8 - depth,
{
    if count < 12 {
        lemma_plan_small(type_text, parent, prefix, depth);
        let plan = family_plan(type_text, parent, prefix, depth);
        if let Some((t, p)) = plan.1 {
            if depth + 1 < 8 {
                lemma_type_layers_bounded(t, p, prefix, depth + 1, count + plan.0.len());
            }
        }
    }
}

/// A family's own layers (those before and after the inner type): at most
/// three, all at `depth`, with distinct ids, the first hanging from `parent`
/// and every other one, and the inner type, hanging from a layer before it.
spec fn plan_shaped(plan: LayerPlan, parent: Seq<char>, prefix: Seq<char>, depth: nat) -> bool {
    let own = plan.0 + plan.2;
    &&& plan.0.len() >= 1
    &&& own.len() <= 3
    &&& plan.0[0].parent_suffix == Some(parent)
    &&& forall|j: int|
        #![trigger own[j].parent_suffix]
        0 < j < own.len() ==> exists|k: int|
            0 <= k < plan.0.len() && k < j && own[j].parent_suffix == Some(#[trigger] own[k].id_suffix)
    &&& (plan.1 is Some ==> exists|k: int| 0 <= k < plan.0.len() && #[trigger] plan.0[k].id_suffix == plan.1.unwrap().1)
    &&& forall|j: int| 0 <= j < own.len() ==> prefixed(#[trigger] own[j].id_suffix, prefix) && id_depth(own[j].id_suffix) == depth
    &&& forall|i: int, j: int| 0 <= i < j < own.len() ==> own[i].id_suffix != own[j].id_suffix
}

proof fn lemma_plan_from_names(
    plan: LayerPlan,
    parent: Seq<char>,
    prefix: Seq<char>,
    depth: nat,
    names: Seq<Seq<char>>,
    parents: Seq<int>,
)
    requires
        depth < 10,
        plan.0.len() >= 1,
        (plan.0 + plan.2).len() == names.len(),
        names.len() <= 3,
        parents.len() == names.len(),
        forall|j: int| 0 <= j < names.len() ==> (plan.0 + plan.2)[j].id_suffix == layer_id(prefix, #[trigger] names[j], depth),
        forall|i: int, j: int| 0 <= i < j < names.len() ==> names[i] != names[j],
        plan.0[0].parent_suffix == Some(parent),
        forall|j: int|
            0 < j < names.len() ==> 0 <= #[trigger] parents[j] < plan.0.len() && parents[j] < j
                && (plan.0 + plan.2)[j].parent_suffix == Some((plan.0 + plan.2)[parents[j]].id_suffix),
        plan.1 is Some ==> exists|k: int| 0 <= k < plan.0.len() && #[trigger] plan.0[k].id_suffix == plan.1.unwrap().1,
    ensures
        plan_shaped(plan, parent, prefix, depth),
{
    let own = plan.0 + plan.2;
    assert forall|j: int| 0 <= j < own.len() implies prefixed(#[trigger] own[j].id_suffix, prefix) && id_depth(own[j].id_suffix) == depth by {
        assert(own[j].id_suffix == layer_id(prefix, names[j], depth));
        lemma_layer_id_stamp(prefix, names[j], depth);
    }
    assert forall|i: int, j: int| 0 <= i < j < own.len() implies own[i].id_suffix != own[j].id_suffix by {
        assert(own[i].id_suffix == layer_id(prefix, names[i], depth));
        assert(own[j].id_suffix == layer_id(prefix, names[j], depth));
        lemma_layer_ids_differ(prefix, names[i], depth, names[j], depth);
    }
    assert forall|j: int| #![trigger own[j].parent_suffix] 0 < j < own.len() implies exists|k: int|
        0 <= k < plan.0.len() && k < j && own[j].parent_suffix == Some(#[trigger] own[k].id_suffix) by {
        let k = parents[j];
        assert(own[j].parent_suffix == Some(own[k].id_suffix));
    }
}

proof fn lemma_container_plan_shaped(type_text: Seq<char>, parent: Seq<char>, prefix: Seq<char>, depth: nat)
    requires
        depth < 10,
        spec_layer_family(type_text) is Vector || spec_layer_family(type_text) is Collection || spec_layer_family(type_text) is Text,
    ensures
        plan_shaped(family_plan(type_text, parent, prefix, depth), parent, prefix, depth),
{
    reveal(container_plan);
    reveal_strlit("vec-header");
    reveal_strlit("vec-buffer");
    reveal_strlit("element-zero");
    reveal_strlit("container-header");
    reveal_strlit("container-storage");
    reveal_strlit("string-header");
    reveal_strlit("string-buffer");
    let plan = family_plan(type_text, parent, prefix, depth);
    let family = spec_layer_family(type_text);
    if family is Vector {
        assert("vec-header"@[4] != "vec-buffer"@[4]);
        lemma_plan_from_names(plan, parent, prefix, depth, seq!["vec-header"@, "vec-buffer"@, "element-zero"@], seq![0int, 0, 1]);
    } else if family is Collection {
        lemma_plan_from_names(plan, parent, prefix, depth, seq!["container-header"@, "container-storage"@], seq![0int, 0]);
    } else {
        assert("string-header"@[7] != "string-buffer"@[7]);
        lemma_plan_from_names(plan, parent, prefix, depth, seq!["string-header"@, "string-buffer"@], seq![0int, 0]);
    }
}

proof fn lemma_reference_plan_shaped(type_text: Seq<char>, parent: Seq<char>, prefix: Seq<char>, depth: nat)
    requires
        depth < 10,
        spec_layer_family(type_text) is Reference,
    ensures
        plan_shaped(family_plan(type_text, parent, prefix, depth), parent, prefix, depth),
{
    reveal(reference_plan);
    reveal_strlit("reference");
    reveal_strlit("dyn-data");
    reveal_strlit("vtable");
    reveal_strlit("slice-data");
    reveal_strlit("slice-length");
    reveal_strlit("referent");
    let plan = family_plan(type_text, parent, prefix, depth);
    let first = argument_or_t(type_text);
    if seq_contains(first, "dyn "@) {
        assert(plan.0[1].id_suffix == plan.1.unwrap().1);
        lemma_plan_from_names(plan, parent, prefix, depth, seq!["reference"@, "dyn-data"@, "vtable"@], seq![0int, 0, 0]);
    } else if (first.len() > 0 && first[0] == '[') || first == "str"@ {
        lemma_plan_from_names(plan, parent, prefix, depth, seq!["reference"@, "slice-data"@, "slice-length"@], seq![0int, 0, 0]);
    } else {
        lemma_plan_from_names(plan, parent, prefix, depth, seq!["reference"@, "referent"@], seq![0int, 0]);
    }
}

proof fn lemma_owner_plan_shaped(type_text: Seq<char>, parent: Seq<char>, prefix: Seq<char>, depth: nat)
    requires
        depth < 10,
        spec_layer_family(type_text) is Boxed || spec_layer_family(type_text) is Shared || spec_layer_family(type_text) is WeakHandle,
    ensures
        plan_shaped(family_plan(type_text, parent, prefix, depth), parent, prefix, depth),
{
    reveal(owner_plan);
    reveal_strlit("box-handle");
    reveal_strlit("box-allocation");
    reveal_strlit("box-vtable");
    reveal_strlit("shared-handle");
    reveal_strlit("shared-allocation");
    reveal_strlit("shared-vtable");
    reveal_strlit("weak-handle");
    reveal_strlit("weak-control");
    let plan = family_plan(type_text, parent, prefix, depth);
    let family = spec_layer_family(type_text);
    let dynamic = seq_contains(argument_or_t(type_text), "dyn "@);
    if family is Boxed {
        if dynamic {
            assert("box-handle"@[4] != "box-vtable"@[4]);
            lemma_plan_from_names(plan, parent, prefix, depth, seq!["box-handle"@, "box-allocation"@, "box-vtable"@], seq![0int, 0, 0]);
        } else {
            assert(plan.0[1].id_suffix == plan.1.unwrap().1);
            lemma_plan_from_names(plan, parent, prefix, depth, seq!["box-handle"@, "box-allocation"@], seq![0int, 0]);
        }
    } else if family is Shared {
        if dynamic {
            assert("shared-handle"@[7] != "shared-vtable"@[7]);
            lemma_plan_from_names(plan, parent, prefix, depth, seq!["shared-handle"@, "shared-allocation"@, "shared-vtable"@], seq![0int, 0, 0]);
        } else {
            assert(plan.0[1].id_suffix == plan.1.unwrap().1);
            lemma_plan_from_names(plan, parent, prefix, depth, seq!["shared-handle"@, "shared-allocation"@], seq![0int, 0]);
        }
    } else {
        lemma_plan_from_names(plan, parent, prefix, depth, seq!["weak-handle"@, "weak-control"@], seq![0int, 0]);
    }
}

proof fn lemma_gate_plan_shaped(type_text: Seq<char>, parent: Seq<char>, prefix: Seq<char>, depth: nat)
    requires
        depth < 10,
        spec_layer_family(type_text) is Pinned || spec_layer_family(type_text) is Cell || spec_layer_family(type_text) is Lock || spec_layer_family(type_text) is Guard || spec_layer_family(type_text) is RawPointer,
    ensures
        plan_shaped(family_plan(type_text, parent, prefix, depth), parent, prefix, depth),
{
    reveal(gate_plan);
    reveal_strlit("raw-pointer");
    reveal_strlit("raw-target");
    let plan = family_plan(type_text, parent, prefix, depth);
    let family = spec_layer_family(type_text);
    if family is Pinned {
        assert(plan.0[0].id_suffix == plan.1.unwrap().1);
        lemma_plan_from_names(plan, parent, prefix, depth, seq!["pin"@], seq![0int]);
    } else if family is Cell {
        assert(plan.0[0].id_suffix == plan.1.unwrap().1);
        lemma_plan_from_names(plan, parent, prefix, depth, seq!["cell"@], seq![0int]);
    } else if family is Lock {
        assert(plan.0[0].id_suffix == plan.1.unwrap().1);
        lemma_plan_from_names(plan, parent, prefix, depth, seq!["lock"@], seq![0int]);
    } else if family is Guard {
        lemma_plan_from_names(plan, parent, prefix, depth, seq!["guard"@], seq![0int]);
    } else {
        lemma_plan_from_names(plan, parent, prefix, depth, seq!["raw-pointer"@, "raw-target"@], seq![0int, 0]);
    }
}

proof fn lemma_variant_plan_shaped(type_text: Seq<char>, parent: Seq<char>, prefix: Seq<char>, depth: nat)
    requires
        depth < 10,
        spec_layer_family(type_text) is Conditional || spec_layer_family(type_text) is CloneOnWrite,
    ensures
        plan_shaped(family_plan(type_text, parent, prefix, depth), parent, prefix, depth),
{
    reveal(variant_plan);
    reveal_strlit("conditional");
    reveal_strlit("variant-0");
    reveal_strlit("variant-1");
    reveal_strlit("cow");
    reveal_strlit("cow-borrowed");
    reveal_strlit("cow-owned");
    let plan = family_plan(type_text, parent, prefix, depth);
    let family = spec_layer_family(type_text);
    let args = spec_parse_type(type_text).1;
    if family is Conditional {
        assert(family == LayerFamily::Conditional);
        if args.len() > 1 {
            assert("variant-0"@[8] != "variant-1"@[8]);
            assert(plan.0[1].id_suffix == plan.1.unwrap().1);
            lemma_plan_from_names(plan, parent, prefix, depth, seq!["conditional"@, "variant-0"@, "variant-1"@], seq![0int, 0, 0]);
        } else if args.len() == 1 {
            assert(plan.0[1].id_suffix == plan.1.unwrap().1);
            lemma_plan_from_names(plan, parent, prefix, depth, seq!["conditional"@, "variant-0"@], seq![0int, 0]);
        } else {
            lemma_plan_from_names(plan, parent, prefix, depth, seq!["conditional"@], seq![0int]);
        }
    } else {
        assert(family == LayerFamily::CloneOnWrite);
        lemma_plan_from_names(plan, parent, prefix, depth, seq!["cow"@, "cow-borrowed"@, "cow-owned"@], seq![0int, 0, 0]);
    }
}

proof fn lemma_runtime_plan_shaped(type_text: Seq<char>, parent: Seq<char>, prefix: Seq<char>, depth: nat)
    requires
        depth < 10,
        spec_layer_family(type_text) is Future || spec_layer_family(type_text) is Closure || spec_layer_family(type_text) is TraitObject || spec_layer_family(type_text) is Value,
    ensures
        plan_shaped(family_plan(type_text, parent, prefix, depth), parent, prefix, depth),
{
    reveal(runtime_plan);
    reveal_strlit("future");
    reveal_strlit("saved-locals");
    reveal_strlit("suspension");
    reveal_strlit("closure");
    reveal_strlit("captures");
    reveal_strlit("dyn-fat-pointer");
    reveal_strlit("dyn-data");
    reveal_strlit("dyn-vtable");
    let plan = family_plan(type_text, parent, prefix, depth);
    let family = spec_layer_family(type_text);
    if family is Future {
        assert(family == LayerFamily::Future);
        lemma_plan_from_names(plan, parent, prefix, depth, seq!["future"@, "saved-locals"@, "suspension"@], seq![0int, 0, 1]);
    } else if family is Closure {
        assert(family == LayerFamily::Closure);
        lemma_plan_from_names(plan, parent, prefix, depth, seq!["closure"@, "captures"@], seq![0int, 0]);
    } else if family is TraitObject {
        assert(family == LayerFamily::TraitObject);
        lemma_plan_from_names(plan, parent, prefix, depth, seq!["dyn-fat-pointer"@, "dyn-data"@, "dyn-vtable"@], seq![0int, 0, 0]);
    } else {
        assert(family == LayerFamily::Value);
        lemma_plan_from_names(plan, parent, prefix, depth, seq!["value"@], seq![0int]);
    }
}

proof fn lemma_family_plan_shaped(type_text: Seq<char>, parent: Seq<char>, prefix: Seq<char>, depth: nat)
    requires
        depth < 10,
    ensures
        plan_shaped(family_plan(type_text, parent, prefix, depth), parent, prefix, depth),
{
    let family = spec_layer_family(type_text);
    if family is Reference {
        lemma_reference_plan_shaped(type_text, parent, prefix, depth);
    } else if family is Vector || family is Collection || family is Text {
        lemma_container_plan_shaped(type_text, parent, prefix, depth);
    } else if family is Boxed || family is Shared || family is WeakHandle {
        lemma_owner_plan_shaped(type_text, parent, prefix, depth);
    } else if family is Pinned || family is Cell || family is Lock || family is Guard || family is RawPointer {
        lemma_gate_plan_shaped(type_text, parent, prefix, depth);
    } else if family is Conditional || family is CloneOnWrite {
        lemma_variant_plan_shaped(type_text, parent, prefix, depth);
    } else {
        lemma_runtime_plan_shaped(type_text, parent, prefix, depth);
    }
}

/// The first layer hangs from `parent`, and every later one from a layer
/// before it.
pub open spec fn hangs_in_order(ls: Seq<LayerView>, parent: Seq<char>) -> bool {
    &&& ls.len() > 0 ==> ls[0].parent_suffix == Some(parent)
    &&& forall|j: int|
        #![trigger ls[j].parent_suffix]
        0 < j < ls.len() ==> exists|k: int| 0 <= k < j && ls[j].parent_suffix == Some(#[trigger] ls[k].id_suffix)
}

/// No two layers share an id.
pub open spec fn distinct_ids(ls: Seq<LayerView>) -> bool {
    forall|i: int, j: int| 0 <= i < j < ls.len() ==> ls[i].id_suffix != ls[j].id_suffix
}

#[verifier::spinoff_prover]
#[verifier::rlimit(60)]
proof fn lemma_type_layers_shaped(type_text: Seq<char>, parent: Seq<char>, prefix: Seq<char>, depth: nat, count: nat)
    requires
        depth < 8,
    ensures
        ({
            let ls = type_layers(type_text, parent, prefix, depth, count);
            &&& hangs_in_order(ls, parent)
            &&& distinct_ids(ls)
            &&& forall|j: int| 0 <= j < ls.len() ==> prefixed(#[trigger] ls[j].id_suffix, prefix) && depth <= id_depth(ls[j].id_suffix) < 8
            &&& count < 12 ==> ls.len() > 0
        }),
    decreases 8 - depth,
{
    let ls = type_layers(type_text, parent, prefix, depth, count);
    if count >= 12 {
        assert(ls.len() == 0);
        return;
    }
    let plan = family_plan(type_text, parent, prefix, depth);
    lemma_family_plan_shaped(type_text, parent, prefix, depth);
    lemma_type_layers_unfold(type_text, parent, prefix, depth, count);
    let mid = plan_middle(plan, prefix, depth, count);
    let own = plan.0 + plan.2;
    let a = plan.0.len() as int;
    let m = mid.len() as int;
    assert(ls =~= plan.0 + mid + plan.2);
    if plan.1 is Some {
        let (t, p) = plan.1.unwrap();
        if depth + 1 < 8 {
            lemma_type_layers_shaped(t, p, prefix, depth + 1, count + plan.0.len());
        } else {
            assert(mid.len() == 0);
        }
    }
    assert(forall|j: int| 0 <= j < a ==> ls[j] == own[j]);
    assert(forall|j: int| a <= j < a + m ==> ls[j] == mid[j - a]);
    assert(forall|j: int| a + m <= j < ls.len() ==> ls[j] == own[j - m]);
    assert forall|j: int| 0 <= j < ls.len() implies prefixed(#[trigger] ls[j].id_suffix, prefix) && depth <= id_depth(ls[j].id_suffix) < 8 by {
        if j < a {
            assert(ls[j] == own[j]);
            assert(prefixed(own[j].id_suffix, prefix));
        } else if j < a + m {
            assert(ls[j] == mid[j - a]);
            assert(prefixed(mid[j - a].id_suffix, prefix));
        } else {
            assert(ls[j] == own[j - m]);
            assert(prefixed(own[j - m].id_suffix, prefix));
        }
    }
    assert forall|i: int, j: int| 0 <= i < j < ls.len() implies ls[i].id_suffix != ls[j].id_suffix by {
        let ii = if i < a { i } else if i < a + m { -1 } else { i - m };
        let jj = if j < a { j } else if j < a + m { -1 } else { j - m };
        if ii >= 0 && jj >= 0 {
            assert(ls[i] == own[ii]);
            assert(ls[j] == own[jj]);
        } else if ii < 0 && jj < 0 {
            assert(ls[i] == mid[i - a]);
            assert(ls[j] == mid[j - a]);
        } else if ii < 0 {
            assert(ls[i] == mid[i - a]);
            assert(ls[j] == own[jj]);
            assert(id_depth(own[jj].id_suffix) == depth);
            assert(depth + 1 <= id_depth(mid[i - a].id_suffix));
        } else {
            assert(ls[i] == own[ii]);
            assert(ls[j] == mid[j - a]);
            assert(id_depth(own[ii].id_suffix) == depth);
            assert(depth + 1 <= id_depth(mid[j - a].id_suffix));
        }
    }
    assert(ls[0] == own[0]);
    assert forall|j: int| #![trigger ls[j].parent_suffix] 0 < j < ls.len() implies exists|k: int|
        0 <= k < j && ls[j].parent_suffix == Some(#[trigger] ls[k].id_suffix) by {
        if j < a {
            assert(ls[j] == own[j]);
            assert(own[j].parent_suffix == own[j].parent_suffix);
            let k = choose|k: int| 0 <= k < plan.0.len() && k < j && own[j].parent_suffix == Some(#[trigger] own[k].id_suffix);
            assert(ls[k] == own[k]);
        } else if j < a + m {
            assert(ls[j] == mid[j - a]);
            if j == a {
                let p = plan.1.unwrap().1;
                let k = choose|k: int| 0 <= k < plan.0.len() && #[trigger] plan.0[k].id_suffix == p;
                assert(ls[k] == own[k]);
                assert(own[k] == plan.0[k]);
            } else {
                assert(mid[j - a].parent_suffix == mid[j - a].parent_suffix);
                let k = choose|k: int| 0 <= k < j - a && mid[j - a].parent_suffix == Some(#[trigger] mid[k].id_suffix);
                assert(ls[a + k] == mid[k]);
            }
        } else {
            assert(ls[j] == own[j - m]);
            assert(own[j - m].parent_suffix == own[j - m].parent_suffix);
            let k = choose|k: int| 0 <= k < plan.0.len() && k < j - m && own[j - m].parent_suffix == Some(#[trigger] own[k].id_suffix);
            assert(ls[k] == own[k]);
        }
    }
    assert(hangs_in_order(ls, parent));
    assert(distinct_ids(ls));
    assert(ls.len() > 0);
}

/// The layers one type expands into form a tree below `parent`: the first
/// hangs from `parent`, every later one from a layer drawn before it; no two
/// share an id, every id starts with `prefix` and a colon, and there are at
/// most three per level of depth left. Below depth eight, a type whose
/// expansion starts with fewer than twelve layers drawn adds at least one.
pub proof fn type_layers_form_a_tree(type_text: Seq<char>, parent: Seq<char>, prefix: Seq<char>, depth: nat, count: nat)
    requires
        depth < 8,
    ensures
        ({
            let ls = type_layers(type_text, parent, prefix, depth, count);
            &&& hangs_in_order(ls, parent)
            &&& distinct_ids(ls)
            &&& forall|j: int| 0 <= j < ls.len() ==> prefixed(#[trigger] ls[j].id_suffix, prefix)
            &&& ls.len() <= 3 * (8 - depth)
            &&& count < 12 ==> ls.len() > 0
        }),
{
    lemma_type_layers_shaped(type_text, parent, prefix, depth, count);
    lemma_type_layers_bounded(type_text, parent, prefix, depth, count);
}

/// Expands `type_text` into layers below `parent`, recursing into the owned
/// or guarded inner type. Expansion stops at depth eight or once twelve
/// layers exist.
#[verifier::rlimit(100)]
#[verifier::spinoff_prover]
pub fn append_type_layers(
    type_text: &str,
    parent: &str,
    prefix: &str,
    layers: &mut Vec<TeachingLayer>,
    depth: usize,
)
    ensures
        views(final(layers)@) == views(old(layers)@) + type_layers(
            type_text@,
            parent@,
            prefix@,
            depth as nat,
            old(layers).len() as nat,
        ),
        extends_tree(views(old(layers)@), views(final(layers)@), parent@),
        (depth >= 8 || old(layers).len() >= 12) ==> views(final(layers)@) == views(old(layers)@),
        depth < 8 ==> final(layers).len() <= old(layers).len() + 3 * (8 - depth),
        ({
            let added = views(final(layers)@).subrange(old(layers).len() as int, final(layers).len() as int);
            &&& hangs_in_order(added, parent@)
            &&& distinct_ids(added)
            &&& forall|j: int| 0 <= j < added.len() ==> prefixed(#[trigger] added[j].id_suffix, prefix@)
        }),
        (depth < 8 && old(layers).len() < 12) ==> {
            let first = views(final(layers)@)[old(layers).len() as int];
            &&& final(layers).len() > old(layers).len()
            &&& first.parent_suffix == Some(parent@)
            &&& first.type_text == type_text@
            &&& first.kind == family_first_kind(spec_layer_family(type_text@))
            &&& first.relation == family_first_relation(spec_layer_family(type_text@))
        },
    decreases 8 - depth,
{
    let ghost base = views(layers@);
    proof {
        lemma_extends_refl(base, parent@);
    }
    if depth >= 8 || layers.len() >= 12 {
        assert(views(layers@) =~= base + type_layers(type_text@, parent@, prefix@, depth as nat, base.len() as nat));
        assert(views(layers@).subrange(base.len() as int, layers.len() as int).len() == 0);
        return;
    }
    let parsed = parse_type(type_text);
    let first: &str = if parsed.arguments.len() > 0 {
        parsed.arguments[0].as_str()
    } else {
        "T"
    };
    let outer = parsed.outer.as_str();
    let family = layer_family(type_text, outer);
    let start = layers.len();
    let ghost plan = family_plan(type_text@, parent@, prefix@, depth as nat);
    let inner: InnerLayer = match family {
        LayerFamily::Reference => {
            let r = push_reference_layers(type_text, outer, first, parent, prefix, layers, depth);
            assert(inner_matches(plan, r, base.len() as int, views(layers@)));
            r
        },
        LayerFamily::Vector | LayerFamily::Collection | LayerFamily::Text => {
            push_container_layers(type_text, outer, &parsed.arguments, first, family, parent, prefix, layers, depth);
            proof {
                reveal(container_plan);
            }
            None
        },
        LayerFamily::Boxed | LayerFamily::Shared | LayerFamily::WeakHandle => {
            let r = push_owner_layers(type_text, outer, first, family, parent, prefix, layers, depth);
            assert(inner_matches(plan, r, base.len() as int, views(layers@)));
            r
        },
        LayerFamily::Pinned | LayerFamily::Cell | LayerFamily::Lock | LayerFamily::Guard | LayerFamily::RawPointer => {
            let r = push_gate_layers(type_text, outer, first, family, parent, prefix, layers, depth);
            assert(inner_matches(plan, r, base.len() as int, views(layers@)));
            r
        },
        LayerFamily::Conditional | LayerFamily::CloneOnWrite => {
            let r = push_variant_layers(type_text, outer, &parsed.arguments, family, parent, prefix, layers, depth);
            assert(inner_matches(plan, r, base.len() as int, views(layers@)));
            r
        },
        _ => {
            push_runtime_layers(type_text, outer, family, parent, prefix, layers, depth);
            proof {
                reveal(runtime_plan);
            }
            None
        },
    };
    let ghost own = views(layers@);
    assert(own =~= base + plan.0);
    proof {
        lemma_plan_small(type_text@, parent@, prefix@, depth as nat);
    }
    assert(family is Conditional ==> own[start as int].id_suffix == layer_id(prefix@, "conditional"@, depth as nat));
    assert(inner_matches(plan, inner, base.len() as int, own));
    if let Some((inner_type, inner_parent, inner_index)) = inner {
        append_type_layers(inner_type.as_str(), inner_parent.as_str(), prefix, layers, depth + 1);
        proof {
            lemma_extends_compose(base, own, views(layers@), parent@, inner_parent@, inner_index as int);
            assert(views(layers@).take(own.len() as int)[start as int] == views(layers@)[start as int]);
        }
    }
    assert(views(layers@) =~= base + plan.0 + plan_middle(plan, prefix@, depth as nat, base.len() as nat));
    push_variant_tail(type_text, outer, &parsed.arguments, family, parent, prefix, layers, depth, Ghost(base), start);
    proof {
        lemma_type_layers_unfold(type_text@, parent@, prefix@, depth as nat, base.len() as nat);
        lemma_plan_small(type_text@, parent@, prefix@, depth as nat);
        lemma_type_layers_bounded(type_text@, parent@, prefix@, depth as nat, base.len() as nat);
        assert(views(layers@) =~= base + type_layers(type_text@, parent@, prefix@, depth as nat, base.len() as nat));
        assert(views(layers@)[base.len() as int] == plan.0[0]);
        type_layers_form_a_tree(type_text@, parent@, prefix@, depth as nat, base.len() as nat);
        assert(views(layers@).subrange(base.len() as int, layers.len() as int) =~= type_layers(
            type_text@,
            parent@,
            prefix@,
            depth as nat,
            base.len() as nat,
        ));
    }
}

/// A type's layer family is decided by its outer constructor: references,
/// `Vec`, the other std collections (`VecDeque`, `BinaryHeap`, `HashMap`,
/// `HashSet`, `BTreeMap`, `BTreeSet`, `LinkedList`), `String`, `Box`,
/// `Rc`/`Arc`, `Weak`, `Pin`, the cells, the locks, their guards, raw
/// pointers, `Option`/`Result` and `Cow` each draw their own family.
#[verifier::rlimit(40)]
#[verifier::spinoff_prover]
pub proof fn layer_family_follows_the_outer_name(t: Seq<char>)
    ensures
        ({
            let outer = spec_parse_type(t).0;
            let result = spec_layer_family(t);
            &&& (outer == "&"@ || outer == "&mut"@) ==> result == LayerFamily::Reference
            &&& (outer == "Vec"@) ==> result == LayerFamily::Vector
            &&& (outer == "VecDeque"@ || outer == "BinaryHeap"@ || outer == "HashMap"@ || outer == "HashSet"@ || outer == "BTreeMap"@ || outer == "BTreeSet"@ || outer == "LinkedList"@) ==> result == LayerFamily::Collection
            &&& (outer == "String"@) ==> result == LayerFamily::Text
            &&& (outer == "Box"@) ==> result == LayerFamily::Boxed
            &&& (outer == "Rc"@ || outer == "Arc"@) ==> result == LayerFamily::Shared
            &&& (outer == "Weak"@) ==> result == LayerFamily::WeakHandle
            &&& (outer == "Pin"@) ==> result == LayerFamily::Pinned
            &&& (outer == "Cell"@ || outer == "RefCell"@ || outer == "UnsafeCell"@ || outer == "OnceCell"@ || outer == "OnceLock"@) ==> result == LayerFamily::Cell
            &&& (outer == "Mutex"@ || outer == "RwLock"@) ==> result == LayerFamily::Lock
            &&& (outer == "MutexGuard"@ || outer == "RwLockReadGuard"@ || outer == "RwLockWriteGuard"@) ==> result == LayerFamily::Guard
            &&& (outer == "*const"@ || outer == "*mut"@) ==> result == LayerFamily::RawPointer
            &&& (outer == "Option"@ || outer == "Result"@) ==> result == LayerFamily::Conditional
            &&& (outer == "Cow"@) ==> result == LayerFamily::CloneOnWrite
            &&& (!(outer == "&"@ || outer == "&mut"@ || outer == "Vec"@ || outer == "VecDeque"@ || outer == "BinaryHeap"@ || outer == "HashMap"@ || outer == "HashSet"@ || outer == "BTreeMap"@ || outer == "BTreeSet"@ || outer == "LinkedList"@ || outer == "String"@ || outer == "Box"@ || outer == "Rc"@ || outer == "Arc"@ || outer == "Weak"@ || outer == "Pin"@ || outer == "Cell"@ || outer == "RefCell"@ || outer == "UnsafeCell"@ || outer == "OnceCell"@ || outer == "OnceLock"@ || outer == "Mutex"@ || outer == "RwLock"@ || outer == "MutexGuard"@ || outer == "RwLockReadGuard"@ || outer == "RwLockWriteGuard"@ || outer == "*const"@ || outer == "*mut"@ || outer == "Option"@ || outer == "Result"@ || outer == "Cow"@)) ==> {
                &&& (seq_contains(outer, "Future"@) || seq_contains(t, "async"@)) ==> result == LayerFamily::Future
                &&& (!(seq_contains(outer, "Future"@) || seq_contains(t, "async"@)) && (seq_contains(
                    outer,
                    "closure"@,
                ) || seq_contains(t, "closure"@))) ==> result == LayerFamily::Closure
                &&& (!seq_contains(outer, "Future"@) && !seq_contains(t, "async"@) && !seq_contains(
                    outer,
                    "closure"@,
                ) && !seq_contains(t, "closure"@) && seq_contains(t, "dyn "@)) ==> result
                    == LayerFamily::TraitObject
                &&& (!seq_contains(outer, "Future"@) && !seq_contains(t, "async"@) && !seq_contains(
                    outer,
                    "closure"@,
                ) && !seq_contains(t, "closure"@) && !seq_contains(t, "dyn "@)) ==> result
                    == LayerFamily::Value
            }
        }),
{
    let outer = spec_parse_type(t).0;
    assert(outer == "&"@ ==> spec_layer_family(t) == LayerFamily::Reference) by {
        if outer == "&"@ {
            reveal_strlit("&");
            assert("&"@.len() == 1);
        }
    }
    assert(outer == "&mut"@ ==> spec_layer_family(t) == LayerFamily::Reference) by {
        if outer == "&mut"@ {
            reveal_strlit("&mut");
            assert("&mut"@.len() == 4);
        }
    }
    assert(outer == "Vec"@ ==> spec_layer_family(t) == LayerFamily::Vector) by {
        if outer == "Vec"@ {
            reveal_strlit("Vec");
            assert("Vec"@.len() == 3);
            reveal_strlit("&");
            assert("&"@.len() == 1);
            reveal_strlit("&mut");
            assert("&mut"@.len() == 4);
            assert("Vec"@ != "&"@);
            assert("Vec"@ != "&mut"@);
        }
    }
    assert(outer == "VecDeque"@ ==> spec_layer_family(t) == LayerFamily::Collection) by {
        if outer == "VecDeque"@ {
            reveal_strlit("VecDeque");
            assert("VecDeque"@.len() == 8);
            reveal_strlit("&");
            assert("&"@.len() == 1);
            reveal_strlit("&mut");
            assert("&mut"@.len() == 4);
            reveal_strlit("Vec");
            assert("Vec"@.len() == 3);
            assert("VecDeque"@ != "&"@);
            assert("VecDeque"@ != "&mut"@);
            assert("VecDeque"@ != "Vec"@);
        }
    }
    assert(outer == "BinaryHeap"@ ==> spec_layer_family(t) == LayerFamily::Collection) by {
        if outer == "BinaryHeap"@ {
            reveal_strlit("BinaryHeap");
            assert("BinaryHeap"@.len() == 10);
            reveal_strlit("&");
            assert("&"@.len() == 1);
            reveal_strlit("&mut");
            assert("&mut"@.len() == 4);
            reveal_strlit("Vec");
            assert("Vec"@.len() == 3);
            assert("BinaryHeap"@ != "&"@);
            assert("BinaryHeap"@ != "&mut"@);
            assert("BinaryHeap"@ != "Vec"@);
        }
    }
    assert(outer == "HashMap"@ ==> spec_layer_family(t) == LayerFamily::Collection) by {
        if outer == "HashMap"@ {
            reveal_strlit("HashMap");
            assert("HashMap"@.len() == 7);
            reveal_strlit("&");
            assert("&"@.len() == 1);
            reveal_strlit("&mut");
            assert("&mut"@.len() == 4);
            reveal_strlit("Vec");
            assert("Vec"@.len() == 3);
            assert("HashMap"@ != "&"@);
            assert("HashMap"@ != "&mut"@);
            assert("HashMap"@ != "Vec"@);
        }
    }
    assert(outer == "HashSet"@ ==> spec_layer_family(t) == LayerFamily::Collection) by {
        if outer == "HashSet"@ {
            reveal_strlit("HashSet");
            assert("HashSet"@.len() == 7);
            reveal_strlit("&");
            assert("&"@.len() == 1);
            reveal_strlit("&mut");
            assert("&mut"@.len() == 4);
            reveal_strlit("Vec");
            assert("Vec"@.len() == 3);
            assert("HashSet"@ != "&"@);
            assert("HashSet"@ != "&mut"@);
            assert("HashSet"@ != "Vec"@);
        }
    }
    assert(outer == "BTreeMap"@ ==> spec_layer_family(t) == LayerFamily::Collection) by {
        if outer == "BTreeMap"@ {
            reveal_strlit("BTreeMap");
            assert("BTreeMap"@.len() == 8);
            reveal_strlit("&");
            assert("&"@.len() == 1);
            reveal_strlit("&mut");
            assert("&mut"@.len() == 4);
            reveal_strlit("Vec");
            assert("Vec"@.len() == 3);
            assert("BTreeMap"@ != "&"@);
            assert("BTreeMap"@ != "&mut"@);
            assert("BTreeMap"@ != "Vec"@);
        }
    }
    assert(outer == "BTreeSet"@ ==> spec_layer_family(t) == LayerFamily::Collection) by {
        if outer == "BTreeSet"@ {
            reveal_strlit("BTreeSet");
            assert("BTreeSet"@.len() == 8);
            reveal_strlit("&");
            assert("&"@.len() == 1);
            reveal_strlit("&mut");
            assert("&mut"@.len() == 4);
            reveal_strlit("Vec");
            assert("Vec"@.len() == 3);
            assert("BTreeSet"@ != "&"@);
            assert("BTreeSet"@ != "&mut"@);
            assert("BTreeSet"@ != "Vec"@);
        }
    }
    assert(outer == "LinkedList"@ ==> spec_layer_family(t) == LayerFamily::Collection) by {
        if outer == "LinkedList"@ {
            reveal_strlit("LinkedList");
            assert("LinkedList"@.len() == 10);
            reveal_strlit("&");
            assert("&"@.len() == 1);
            reveal_strlit("&mut");
            assert("&mut"@.len() == 4);
            reveal_strlit("Vec");
            assert("Vec"@.len() == 3);
            assert("LinkedList"@ != "&"@);
            assert("LinkedList"@ != "&mut"@);
            assert("LinkedList"@ != "Vec"@);
        }
    }
    assert(outer == "String"@ ==> spec_layer_family(t) == LayerFamily::Text) by {
        if outer == "String"@ {
            reveal_strlit("String");
            assert("String"@.len() == 6);
            reveal_strlit("&");
            assert("&"@.len() == 1);
            reveal_strlit("&mut");
            assert("&mut"@.len() == 4);
            reveal_strlit("Vec");
            assert("Vec"@.len() == 3);
            reveal_strlit("VecDeque");
            assert("VecDeque"@.len() == 8);
            reveal_strlit("BinaryHeap");
            assert("BinaryHeap"@.len() == 10);
            reveal_strlit("HashMap");
            assert("HashMap"@.len() == 7);
            reveal_strlit("HashSet");
            assert("HashSet"@.len() == 7);
            reveal_strlit("BTreeMap");
            assert("BTreeMap"@.len() == 8);
            reveal_strlit("BTreeSet");
            assert("BTreeSet"@.len() == 8);
            reveal_strlit("LinkedList");
            assert("LinkedList"@.len() == 10);
            assert("String"@ != "&"@);
            assert("String"@ != "&mut"@);
            assert("String"@ != "Vec"@);
            assert("String"@ != "VecDeque"@);
            assert("String"@ != "BinaryHeap"@);
            assert("String"@ != "HashMap"@);
            assert("String"@ != "HashSet"@);
            assert("String"@ != "BTreeMap"@);
            assert("String"@ != "BTreeSet"@);
            assert("String"@ != "LinkedList"@);
        }
    }
    assert(outer == "Box"@ ==> spec_layer_family(t) == LayerFamily::Boxed) by {
        if outer == "Box"@ {
            reveal_strlit("Box");
            assert("Box"@.len() == 3);
            reveal_strlit("&");
            assert("&"@.len() == 1);
            reveal_strlit("&mut");
            assert("&mut"@.len() == 4);
            reveal_strlit("Vec");
            assert("Vec"@.len() == 3);
            reveal_strlit("VecDeque");
            assert("VecDeque"@.len() == 8);
            reveal_strlit("BinaryHeap");
            assert("BinaryHeap"@.len() == 10);
            reveal_strlit("HashMap");
            assert("HashMap"@.len() == 7);
            reveal_strlit("HashSet");
            assert("HashSet"@.len() == 7);
            reveal_strlit("BTreeMap");
            assert("BTreeMap"@.len() == 8);
            reveal_strlit("BTreeSet");
            assert("BTreeSet"@.len() == 8);
            reveal_strlit("LinkedList");
            assert("LinkedList"@.len() == 10);
            reveal_strlit("String");
            assert("String"@.len() == 6);
            assert("Box"@ != "&"@);
            assert("Box"@ != "&mut"@);
            assert("Box"@[0] != "Vec"@[0]);
            assert("Box"@ != "Vec"@);
            assert("Box"@ != "VecDeque"@);
            assert("Box"@ != "BinaryHeap"@);
            assert("Box"@ != "HashMap"@);
            assert("Box"@ != "HashSet"@);
            assert("Box"@ != "BTreeMap"@);
            assert("Box"@ != "BTreeSet"@);
            assert("Box"@ != "LinkedList"@);
            assert("Box"@ != "String"@);
        }
    }
    assert(outer == "Rc"@ ==> spec_layer_family(t) == LayerFamily::Shared) by {
        if outer == "Rc"@ {
            reveal_strlit("Rc");
            assert("Rc"@.len() == 2);
            reveal_strlit("&");
            assert("&"@.len() == 1);
            reveal_strlit("&mut");
            assert("&mut"@.len() == 4);
            reveal_strlit("Vec");
            assert("Vec"@.len() == 3);
            reveal_strlit("VecDeque");
            assert("VecDeque"@.len() == 8);
            reveal_strlit("BinaryHeap");
            assert("BinaryHeap"@.len() == 10);
            reveal_strlit("HashMap");
            assert("HashMap"@.len() == 7);
            reveal_strlit("HashSet");
            assert("HashSet"@.len() == 7);
            reveal_strlit("BTreeMap");
            assert("BTreeMap"@.len() == 8);
            reveal_strlit("BTreeSet");
            assert("BTreeSet"@.len() == 8);
            reveal_strlit("LinkedList");
            assert("LinkedList"@.len() == 10);
            reveal_strlit("String");
            assert("String"@.len() == 6);
            reveal_strlit("Box");
            assert("Box"@.len() == 3);
            assert("Rc"@ != "&"@);
            assert("Rc"@ != "&mut"@);
            assert("Rc"@ != "Vec"@);
            assert("Rc"@ != "VecDeque"@);
            assert("Rc"@ != "BinaryHeap"@);
            assert("Rc"@ != "HashMap"@);
            assert("Rc"@ != "HashSet"@);
            assert("Rc"@ != "BTreeMap"@);
            assert("Rc"@ != "BTreeSet"@);
            assert("Rc"@ != "LinkedList"@);
            assert("Rc"@ != "String"@);
            assert("Rc"@ != "Box"@);
        }
    }
    assert(outer == "Arc"@ ==> spec_layer_family(t) == LayerFamily::Shared) by {
        if outer == "Arc"@ {
            reveal_strlit("Arc");
            assert("Arc"@.len() == 3);
            reveal_strlit("&");
            assert("&"@.len() == 1);
            reveal_strlit("&mut");
            assert("&mut"@.len() == 4);
            reveal_strlit("Vec");
            assert("Vec"@.len() == 3);
            reveal_strlit("VecDeque");
            assert("VecDeque"@.len() == 8);
            reveal_strlit("BinaryHeap");
            assert("BinaryHeap"@.len() == 10);
            reveal_strlit("HashMap");
            assert("HashMap"@.len() == 7);
            reveal_strlit("HashSet");
            assert("HashSet"@.len() == 7);
            reveal_strlit("BTreeMap");
            assert("BTreeMap"@.len() == 8);
            reveal_strlit("BTreeSet");
            assert("BTreeSet"@.len() == 8);
            reveal_strlit("LinkedList");
            assert("LinkedList"@.len() == 10);
            reveal_strlit("String");
            assert("String"@.len() == 6);
            reveal_strlit("Box");
            assert("Box"@.len() == 3);
            assert("Arc"@ != "&"@);
            assert("Arc"@ != "&mut"@);
            assert("Arc"@[0] != "Vec"@[0]);
            assert("Arc"@ != "Vec"@);
            assert("Arc"@ != "VecDeque"@);
            assert("Arc"@ != "BinaryHeap"@);
            assert("Arc"@ != "HashMap"@);
            assert("Arc"@ != "HashSet"@);
            assert("Arc"@ != "BTreeMap"@);
            assert("Arc"@ != "BTreeSet"@);
            assert("Arc"@ != "LinkedList"@);
            assert("Arc"@ != "String"@);
            assert("Arc"@[0] != "Box"@[0]);
            assert("Arc"@ != "Box"@);
        }
    }
    assert(outer == "Weak"@ ==> spec_layer_family(t) == LayerFamily::WeakHandle) by {
        if outer == "Weak"@ {
            reveal_strlit("Weak");
            assert("Weak"@.len() == 4);
            reveal_strlit("&");
            assert("&"@.len() == 1);
            reveal_strlit("&mut");
            assert("&mut"@.len() == 4);
            reveal_strlit("Vec");
            assert("Vec"@.len() == 3);
            reveal_strlit("VecDeque");
            assert("VecDeque"@.len() == 8);
            reveal_strlit("BinaryHeap");
            assert("BinaryHeap"@.len() == 10);
            reveal_strlit("HashMap");
            assert("HashMap"@.len() == 7);
            reveal_strlit("HashSet");
            assert("HashSet"@.len() == 7);
            reveal_strlit("BTreeMap");
            assert("BTreeMap"@.len() == 8);
            reveal_strlit("BTreeSet");
            assert("BTreeSet"@.len() == 8);
            reveal_strlit("LinkedList");
            assert("LinkedList"@.len() == 10);
            reveal_strlit("String");
            assert("String"@.len() == 6);
            reveal_strlit("Box");
            assert("Box"@.len() == 3);
            reveal_strlit("Rc");
            assert("Rc"@.len() == 2);
            reveal_strlit("Arc");
            assert("Arc"@.len() == 3);
            assert("Weak"@ != "&"@);
            assert("Weak"@[0] != "&mut"@[0]);
            assert("Weak"@ != "&mut"@);
            assert("Weak"@ != "Vec"@);
            assert("Weak"@ != "VecDeque"@);
            assert("Weak"@ != "BinaryHeap"@);
            assert("Weak"@ != "HashMap"@);
            assert("Weak"@ != "HashSet"@);
            assert("Weak"@ != "BTreeMap"@);
            assert("Weak"@ != "BTreeSet"@);
            assert("Weak"@ != "LinkedList"@);
            assert("Weak"@ != "String"@);
            assert("Weak"@ != "Box"@);
            assert("Weak"@ != "Rc"@);
            assert("Weak"@ != "Arc"@);
        }
    }
    assert(outer == "Pin"@ ==> spec_layer_family(t) == LayerFamily::Pinned) by {
        if outer == "Pin"@ {
            reveal_strlit("Pin");
            assert("Pin"@.len() == 3);
            reveal_strlit("&");
            assert("&"@.len() == 1);
            reveal_strlit("&mut");
            assert("&mut"@.len() == 4);
            reveal_strlit("Vec");
            assert("Vec"@.len() == 3);
            reveal_strlit("VecDeque");
            assert("VecDeque"@.len() == 8);
            reveal_strlit("BinaryHeap");
            assert("BinaryHeap"@.len() == 10);
            reveal_strlit("HashMap");
            assert("HashMap"@.len() == 7);
            reveal_strlit("HashSet");
            assert("HashSet"@.len() == 7);
            reveal_strlit("BTreeMap");
            assert("BTreeMap"@.len() == 8);
            reveal_strlit("BTreeSet");
            assert("BTreeSet"@.len() == 8);
            reveal_strlit("LinkedList");
            assert("LinkedList"@.len() == 10);
            reveal_strlit("String");
            assert("String"@.len() == 6);
            reveal_strlit("Box");
            assert("Box"@.len() == 3);
            reveal_strlit("Rc");
            assert("Rc"@.len() == 2);
            reveal_strlit("Arc");
            assert("Arc"@.len() == 3);
            reveal_strlit("Weak");
            assert("Weak"@.len() == 4);
            assert("Pin"@ != "&"@);
            assert("Pin"@ != "&mut"@);
            assert("Pin"@[0] != "Vec"@[0]);
            assert("Pin"@ != "Vec"@);
            assert("Pin"@ != "VecDeque"@);
            assert("Pin"@ != "BinaryHeap"@);
            assert("Pin"@ != "HashMap"@);
            assert("Pin"@ != "HashSet"@);
            assert("Pin"@ != "BTreeMap"@);
            assert("Pin"@ != "BTreeSet"@);
            assert("Pin"@ != "LinkedList"@);
            assert("Pin"@ != "String"@);
            assert("Pin"@[0] != "Box"@[0]);
            assert("Pin"@ != "Box"@);
            assert("Pin"@ != "Rc"@);
            assert("Pin"@[0] != "Arc"@[0]);
            assert("Pin"@ != "Arc"@);
            assert("Pin"@ != "Weak"@);
        }
    }
    assert(outer == "Cell"@ ==> spec_layer_family(t) == LayerFamily::Cell) by {
        if outer == "Cell"@ {
            reveal_strlit("Cell");
            assert("Cell"@.len() == 4);
            reveal_strlit("&");
            assert("&"@.len() == 1);
            reveal_strlit("&mut");
            assert("&mut"@.len() == 4);
            reveal_strlit("Vec");
            assert("Vec"@.len() == 3);
            reveal_strlit("VecDeque");
            assert("VecDeque"@.len() == 8);
            reveal_strlit("BinaryHeap");
            assert("BinaryHeap"@.len() == 10);
            reveal_strlit("HashMap");
            assert("HashMap"@.len() == 7);
            reveal_strlit("HashSet");
            assert("HashSet"@.len() == 7);
            reveal_strlit("BTreeMap");
            assert("BTreeMap"@.len() == 8);
            reveal_strlit("BTreeSet");
            assert("BTreeSet"@.len() == 8);
            reveal_strlit("LinkedList");
            assert("LinkedList"@.len() == 10);
            reveal_strlit("String");
            assert("String"@.len() == 6);
            reveal_strlit("Box");
            assert("Box"@.len() == 3);
            reveal_strlit("Rc");
            assert("Rc"@.len() == 2);
            reveal_strlit("Arc");
            assert("Arc"@.len() == 3);
            reveal_strlit("Weak");
            assert("Weak"@.len() == 4);
            reveal_strlit("Pin");
            assert("Pin"@.len() == 3);
            assert("Cell"@ != "&"@);
            assert("Cell"@[0] != "&mut"@[0]);
            assert("Cell"@ != "&mut"@);
            assert("Cell"@ != "Vec"@);
            assert("Cell"@ != "VecDeque"@);
            assert("Cell"@ != "BinaryHeap"@);
            assert("Cell"@ != "HashMap"@);
            assert("Cell"@ != "HashSet"@);
            assert("Cell"@ != "BTreeMap"@);
            assert("Cell"@ != "BTreeSet"@);
            assert("Cell"@ != "LinkedList"@);
            assert("Cell"@ != "String"@);
            assert("Cell"@ != "Box"@);
            assert("Cell"@ != "Rc"@);
            assert("Cell"@ != "Arc"@);
            assert("Cell"@[0] != "Weak"@[0]);
            assert("Cell"@ != "Weak"@);
            assert("Cell"@ != "Pin"@);
        }
    }
    assert(outer == "RefCell"@ ==> spec_layer_family(t) == LayerFamily::Cell) by {
        if outer == "RefCell"@ {
            reveal_strlit("RefCell");
            assert("RefCell"@.len() == 7);
            reveal_strlit("&");
            assert("&"@.len() == 1);
            reveal_strlit("&mut");
            assert("&mut"@.len() == 4);
            reveal_strlit("Vec");
            assert("Vec"@.len() == 3);
            reveal_strlit("VecDeque");
            assert("VecDeque"@.len() == 8);
            reveal_strlit("BinaryHeap");
            assert("BinaryHeap"@.len() == 10);
            reveal_strlit("HashMap");
            assert("HashMap"@.len() == 7);
            reveal_strlit("HashSet");
            assert("HashSet"@.len() == 7);
            reveal_strlit("BTreeMap");
            assert("BTreeMap"@.len() == 8);
            reveal_strlit("BTreeSet");
            assert("BTreeSet"@.len() == 8);
            reveal_strlit("LinkedList");
            assert("LinkedList"@.len() == 10);
            reveal_strlit("String");
            assert("String"@.len() == 6);
            reveal_strlit("Box");
            assert("Box"@.len() == 3);
            reveal_strlit("Rc");
            assert("Rc"@.len() == 2);
            reveal_strlit("Arc");
            assert("Arc"@.len() == 3);
            reveal_strlit("Weak");
            assert("Weak"@.len() == 4);
            reveal_strlit("Pin");
            assert("Pin"@.len() == 3);
            assert("RefCell"@ != "&"@);
            assert("RefCell"@ != "&mut"@);
            assert("RefCell"@ != "Vec"@);
            assert("RefCell"@ != "VecDeque"@);
            assert("RefCell"@ != "BinaryHeap"@);
            assert("RefCell"@[0] != "HashMap"@[0]);
            assert("RefCell"@ != "HashMap"@);
            assert("RefCell"@[0] != "HashSet"@[0]);
            assert("RefCell"@ != "HashSet"@);
            assert("RefCell"@ != "BTreeMap"@);
            assert("RefCell"@ != "BTreeSet"@);
            assert("RefCell"@ != "LinkedList"@);
            assert("RefCell"@ != "String"@);
            assert("RefCell"@ != "Box"@);
            assert("RefCell"@ != "Rc"@);
            assert("RefCell"@ != "Arc"@);
            assert("RefCell"@ != "Weak"@);
            assert("RefCell"@ != "Pin"@);
        }
    }
    assert(outer == "UnsafeCell"@ ==> spec_layer_family(t) == LayerFamily::Cell) by {
        if outer == "UnsafeCell"@ {
            reveal_strlit("UnsafeCell");
            assert("UnsafeCell"@.len() == 10);
            reveal_strlit("&");
            assert("&"@.len() == 1);
            reveal_strlit("&mut");
            assert("&mut"@.len() == 4);
            reveal_strlit("Vec");
            assert("Vec"@.len() == 3);
            reveal_strlit("VecDeque");
            assert("VecDeque"@.len() == 8);
            reveal_strlit("BinaryHeap");
            assert("BinaryHeap"@.len() == 10);
            reveal_strlit("HashMap");
            assert("HashMap"@.len() == 7);
            reveal_strlit("HashSet");
            assert("HashSet"@.len() == 7);
            reveal_strlit("BTreeMap");
            assert("BTreeMap"@.len() == 8);
            reveal_strlit("BTreeSet");
            assert("BTreeSet"@.len() == 8);
            reveal_strlit("LinkedList");
            assert("LinkedList"@.len() == 10);
            reveal_strlit("String");
            assert("String"@.len() == 6);
            reveal_strlit("Box");
            assert("Box"@.len() == 3);
            reveal_strlit("Rc");
            assert("Rc"@.len() == 2);
            reveal_strlit("Arc");
            assert("Arc"@.len() == 3);
            reveal_strlit("Weak");
            assert("Weak"@.len() == 4);
            reveal_strlit("Pin");
            assert("Pin"@.len() == 3);
            assert("UnsafeCell"@ != "&"@);
            assert("UnsafeCell"@ != "&mut"@);
            assert("UnsafeCell"@ != "Vec"@);
            assert("UnsafeCell"@ != "VecDeque"@);
            assert("UnsafeCell"@[0] != "BinaryHeap"@[0]);
            assert("UnsafeCell"@ != "BinaryHeap"@);
            assert("UnsafeCell"@ != "HashMap"@);
            assert("UnsafeCell"@ != "HashSet"@);
            assert("UnsafeCell"@ != "BTreeMap"@);
            assert("UnsafeCell"@ != "BTreeSet"@);
            assert("UnsafeCell"@[0] != "LinkedList"@[0]);
            assert("UnsafeCell"@ != "LinkedList"@);
            assert("UnsafeCell"@ != "String"@);
            assert("UnsafeCell"@ != "Box"@);
            assert("UnsafeCell"@ != "Rc"@);
            assert("UnsafeCell"@ != "Arc"@);
            assert("UnsafeCell"@ != "Weak"@);
            assert("UnsafeCell"@ != "Pin"@);
        }
    }
    assert(outer == "OnceCell"@ ==> spec_layer_family(t) == LayerFamily::Cell) by {
        if outer == "OnceCell"@ {
            reveal_strlit("OnceCell");
            assert("OnceCell"@.len() == 8);
            reveal_strlit("&");
            assert("&"@.len() == 1);
            reveal_strlit("&mut");
            assert("&mut"@.len() == 4);
            reveal_strlit("Vec");
            assert("Vec"@.len() == 3);
            reveal_strlit("VecDeque");
            assert("VecDeque"@.len() == 8);
            reveal_strlit("BinaryHeap");
            assert("BinaryHeap"@.len() == 10);
            reveal_strlit("HashMap");
            assert("HashMap"@.len() == 7);
            reveal_strlit("HashSet");
            assert("HashSet"@.len() == 7);
            reveal_strlit("BTreeMap");
            assert("BTreeMap"@.len() == 8);
            reveal_strlit("BTreeSet");
            assert("BTreeSet"@.len() == 8);
            reveal_strlit("LinkedList");
            assert("LinkedList"@.len() == 10);
            reveal_strlit("String");
            assert("String"@.len() == 6);
            reveal_strlit("Box");
            assert("Box"@.len() == 3);
            reveal_strlit("Rc");
            assert("Rc"@.len() == 2);
            reveal_strlit("Arc");
            assert("Arc"@.len() == 3);
            reveal_strlit("Weak");
            assert("Weak"@.len() == 4);
            reveal_strlit("Pin");
            assert("Pin"@.len() == 3);
            assert("OnceCell"@ != "&"@);
            assert("OnceCell"@ != "&mut"@);
            assert("OnceCell"@ != "Vec"@);
            assert("OnceCell"@[0] != "VecDeque"@[0]);
            assert("OnceCell"@ != "VecDeque"@);
            assert("OnceCell"@ != "BinaryHeap"@);
            assert("OnceCell"@ != "HashMap"@);
            assert("OnceCell"@ != "HashSet"@);
            assert("OnceCell"@[0] != "BTreeMap"@[0]);
            assert("OnceCell"@ != "BTreeMap"@);
            assert("OnceCell"@[0] != "BTreeSet"@[0]);
            assert("OnceCell"@ != "BTreeSet"@);
            assert("OnceCell"@ != "LinkedList"@);
            assert("OnceCell"@ != "String"@);
            assert("OnceCell"@ != "Box"@);
            assert("OnceCell"@ != "Rc"@);
            assert("OnceCell"@ != "Arc"@);
            assert("OnceCell"@ != "Weak"@);
            assert("OnceCell"@ != "Pin"@);
        }
    }
    assert(outer == "OnceLock"@ ==> spec_layer_family(t) == LayerFamily::Cell) by {
        if outer == "OnceLock"@ {
            reveal_strlit("OnceLock");
            assert("OnceLock"@.len() == 8);
            reveal_strlit("&");
            assert("&"@.len() == 1);
            reveal_strlit("&mut");
            assert("&mut"@.len() == 4);
            reveal_strlit("Vec");
            assert("Vec"@.len() == 3);
            reveal_strlit("VecDeque");
            assert("VecDeque"@.len() == 8);
            reveal_strlit("BinaryHeap");
            assert("BinaryHeap"@.len() == 10);
            reveal_strlit("HashMap");
            assert("HashMap"@.len() == 7);
            reveal_strlit("HashSet");
            assert("HashSet"@.len() == 7);
            reveal_strlit("BTreeMap");
            assert("BTreeMap"@.len() == 8);
            reveal_strlit("BTreeSet");
            assert("BTreeSet"@.len() == 8);
            reveal_strlit("LinkedList");
            assert("LinkedList"@.len() == 10);
            reveal_strlit("String");
            assert("String"@.len() == 6);
            reveal_strlit("Box");
            assert("Box"@.len() == 3);
            reveal_strlit("Rc");
            assert("Rc"@.len() == 2);
            reveal_strlit("Arc");
            assert("Arc"@.len() == 3);
            reveal_strlit("Weak");
            assert("Weak"@.len() == 4);
            reveal_strlit("Pin");
            assert("Pin"@.len() == 3);
            assert("OnceLock"@ != "&"@);
            assert("OnceLock"@ != "&mut"@);
            assert("OnceLock"@ != "Vec"@);
            assert("OnceLock"@[0] != "VecDeque"@[0]);
            assert("OnceLock"@ != "VecDeque"@);
            assert("OnceLock"@ != "BinaryHeap"@);
            assert("OnceLock"@ != "HashMap"@);
            assert("OnceLock"@ != "HashSet"@);
            assert("OnceLock"@[0] != "BTreeMap"@[0]);
            assert("OnceLock"@ != "BTreeMap"@);
            assert("OnceLock"@[0] != "BTreeSet"@[0]);
            assert("OnceLock"@ != "BTreeSet"@);
            assert("OnceLock"@ != "LinkedList"@);
            assert("OnceLock"@ != "String"@);
            assert("OnceLock"@ != "Box"@);
            assert("OnceLock"@ != "Rc"@);
            assert("OnceLock"@ != "Arc"@);
            assert("OnceLock"@ != "Weak"@);
            assert("OnceLock"@ != "Pin"@);
        }
    }
    assert(outer == "Mutex"@ ==> spec_layer_family(t) == LayerFamily::Lock) by {
        if outer == "Mutex"@ {
            reveal_strlit("Mutex");
            assert("Mutex"@.len() == 5);
            reveal_strlit("&");
            assert("&"@.len() == 1);
            reveal_strlit("&mut");
            assert("&mut"@.len() == 4);
            reveal_strlit("Vec");
            assert("Vec"@.len() == 3);
            reveal_strlit("VecDeque");
            assert("VecDeque"@.len() == 8);
            reveal_strlit("BinaryHeap");
            assert("BinaryHeap"@.len() == 10);
            reveal_strlit("HashMap");
            assert("HashMap"@.len() == 7);
            reveal_strlit("HashSet");
            assert("HashSet"@.len() == 7);
            reveal_strlit("BTreeMap");
            assert("BTreeMap"@.len() == 8);
            reveal_strlit("BTreeSet");
            assert("BTreeSet"@.len() == 8);
            reveal_strlit("LinkedList");
            assert("LinkedList"@.len() == 10);
            reveal_strlit("String");
            assert("String"@.len() == 6);
            reveal_strlit("Box");
            assert("Box"@.len() == 3);
            reveal_strlit("Rc");
            assert("Rc"@.len() == 2);
            reveal_strlit("Arc");
            assert("Arc"@.len() == 3);
            reveal_strlit("Weak");
            assert("Weak"@.len() == 4);
            reveal_strlit("Pin");
            assert("Pin"@.len() == 3);
            reveal_strlit("Cell");
            assert("Cell"@.len() == 4);
            reveal_strlit("RefCell");
            assert("RefCell"@.len() == 7);
            reveal_strlit("UnsafeCell");
            assert("UnsafeCell"@.len() == 10);
            reveal_strlit("OnceCell");
            assert("OnceCell"@.len() == 8);
            reveal_strlit("OnceLock");
            assert("OnceLock"@.len() == 8);
            assert("Mutex"@ != "&"@);
            assert("Mutex"@ != "&mut"@);
            assert("Mutex"@ != "Vec"@);
            assert("Mutex"@ != "VecDeque"@);
            assert("Mutex"@ != "BinaryHeap"@);
            assert("Mutex"@ != "HashMap"@);
            assert("Mutex"@ != "HashSet"@);
            assert("Mutex"@ != "BTreeMap"@);
            assert("Mutex"@ != "BTreeSet"@);
            assert("Mutex"@ != "LinkedList"@);
            assert("Mutex"@ != "String"@);
            assert("Mutex"@ != "Box"@);
            assert("Mutex"@ != "Rc"@);
            assert("Mutex"@ != "Arc"@);
            assert("Mutex"@ != "Weak"@);
            assert("Mutex"@ != "Pin"@);
            assert("Mutex"@ != "Cell"@);
            assert("Mutex"@ != "RefCell"@);
            assert("Mutex"@ != "UnsafeCell"@);
            assert("Mutex"@ != "OnceCell"@);
            assert("Mutex"@ != "OnceLock"@);
        }
    }
    assert(outer == "RwLock"@ ==> spec_layer_family(t) == LayerFamily::Lock) by {
        if outer == "RwLock"@ {
            reveal_strlit("RwLock");
            assert("RwLock"@.len() == 6);
            reveal_strlit("&");
            assert("&"@.len() == 1);
            reveal_strlit("&mut");
            assert("&mut"@.len() == 4);
            reveal_strlit("Vec");
            assert("Vec"@.len() == 3);
            reveal_strlit("VecDeque");
            assert("VecDeque"@.len() == 8);
            reveal_strlit("BinaryHeap");
            assert("BinaryHeap"@.len() == 10);
            reveal_strlit("HashMap");
            assert("HashMap"@.len() == 7);
            reveal_strlit("HashSet");
            assert("HashSet"@.len() == 7);
            reveal_strlit("BTreeMap");
            assert("BTreeMap"@.len() == 8);
            reveal_strlit("BTreeSet");
            assert("BTreeSet"@.len() == 8);
            reveal_strlit("LinkedList");
            assert("LinkedList"@.len() == 10);
            reveal_strlit("String");
            assert("String"@.len() == 6);
            reveal_strlit("Box");
            assert("Box"@.len() == 3);
            reveal_strlit("Rc");
            assert("Rc"@.len() == 2);
            reveal_strlit("Arc");
            assert("Arc"@.len() == 3);
            reveal_strlit("Weak");
            assert("Weak"@.len() == 4);
            reveal_strlit("Pin");
            assert("Pin"@.len() == 3);
            reveal_strlit("Cell");
            assert("Cell"@.len() == 4);
            reveal_strlit("RefCell");
            assert("RefCell"@.len() == 7);
            reveal_strlit("UnsafeCell");
            assert("UnsafeCell"@.len() == 10);
            reveal_strlit("OnceCell");
            assert("OnceCell"@.len() == 8);
            reveal_strlit("OnceLock");
            assert("OnceLock"@.len() == 8);
            assert("RwLock"@ != "&"@);
            assert("RwLock"@ != "&mut"@);
            assert("RwLock"@ != "Vec"@);
            assert("RwLock"@ != "VecDeque"@);
            assert("RwLock"@ != "BinaryHeap"@);
            assert("RwLock"@ != "HashMap"@);
            assert("RwLock"@ != "HashSet"@);
            assert("RwLock"@ != "BTreeMap"@);
            assert("RwLock"@ != "BTreeSet"@);
            assert("RwLock"@ != "LinkedList"@);
            assert("RwLock"@[0] != "String"@[0]);
            assert("RwLock"@ != "String"@);
            assert("RwLock"@ != "Box"@);
            assert("RwLock"@ != "Rc"@);
            assert("RwLock"@ != "Arc"@);
            assert("RwLock"@ != "Weak"@);
            assert("RwLock"@ != "Pin"@);
            assert("RwLock"@ != "Cell"@);
            assert("RwLock"@ != "RefCell"@);
            assert("RwLock"@ != "UnsafeCell"@);
            assert("RwLock"@ != "OnceCell"@);
            assert("RwLock"@ != "OnceLock"@);
        }
    }
    assert(outer == "MutexGuard"@ ==> spec_layer_family(t) == LayerFamily::Guard) by {
        if outer == "MutexGuard"@ {
            reveal_strlit("MutexGuard");
            assert("MutexGuard"@.len() == 10);
            reveal_strlit("&");
            assert("&"@.len() == 1);
            reveal_strlit("&mut");
            assert("&mut"@.len() == 4);
            reveal_strlit("Vec");
            assert("Vec"@.len() == 3);
            reveal_strlit("VecDeque");
            assert("VecDeque"@.len() == 8);
            reveal_strlit("BinaryHeap");
            assert("BinaryHeap"@.len() == 10);
            reveal_strlit("HashMap");
            assert("HashMap"@.len() == 7);
            reveal_strlit("HashSet");
            assert("HashSet"@.len() == 7);
            reveal_strlit("BTreeMap");
            assert("BTreeMap"@.len() == 8);
            reveal_strlit("BTreeSet");
            assert("BTreeSet"@.len() == 8);
            reveal_strlit("LinkedList");
            assert("LinkedList"@.len() == 10);
            reveal_strlit("String");
            assert("String"@.len() == 6);
            reveal_strlit("Box");
            assert("Box"@.len() == 3);
            reveal_strlit("Rc");
            assert("Rc"@.len() == 2);
            reveal_strlit("Arc");
            assert("Arc"@.len() == 3);
            reveal_strlit("Weak");
            assert("Weak"@.len() == 4);
            reveal_strlit("Pin");
            assert("Pin"@.len() == 3);
            reveal_strlit("Cell");
            assert("Cell"@.len() == 4);
            reveal_strlit("RefCell");
            assert("RefCell"@.len() == 7);
            reveal_strlit("UnsafeCell");
            assert("UnsafeCell"@.len() == 10);
            reveal_strlit("OnceCell");
            assert("OnceCell"@.len() == 8);
            reveal_strlit("OnceLock");
            assert("OnceLock"@.len() == 8);
            reveal_strlit("Mutex");
            assert("Mutex"@.len() == 5);
            reveal_strlit("RwLock");
            assert("RwLock"@.len() == 6);
            assert("MutexGuard"@ != "&"@);
            assert("MutexGuard"@ != "&mut"@);
            assert("MutexGuard"@ != "Vec"@);
            assert("MutexGuard"@ != "VecDeque"@);
            assert("MutexGuard"@[0] != "BinaryHeap"@[0]);
            assert("MutexGuard"@ != "BinaryHeap"@);
            assert("MutexGuard"@ != "HashMap"@);
            assert("MutexGuard"@ != "HashSet"@);
            assert("MutexGuard"@ != "BTreeMap"@);
            assert("MutexGuard"@ != "BTreeSet"@);
            assert("MutexGuard"@[0] != "LinkedList"@[0]);
            assert("MutexGuard"@ != "LinkedList"@);
            assert("MutexGuard"@ != "String"@);
            assert("MutexGuard"@ != "Box"@);
            assert("MutexGuard"@ != "Rc"@);
            assert("MutexGuard"@ != "Arc"@);
            assert("MutexGuard"@ != "Weak"@);
            assert("MutexGuard"@ != "Pin"@);
            assert("MutexGuard"@ != "Cell"@);
            assert("MutexGuard"@ != "RefCell"@);
            assert("MutexGuard"@[0] != "UnsafeCell"@[0]);
            assert("MutexGuard"@ != "UnsafeCell"@);
            assert("MutexGuard"@ != "OnceCell"@);
            assert("MutexGuard"@ != "OnceLock"@);
            assert("MutexGuard"@ != "Mutex"@);
            assert("MutexGuard"@ != "RwLock"@);
        }
    }
    assert(outer == "RwLockReadGuard"@ ==> spec_layer_family(t) == LayerFamily::Guard) by {
        if outer == "RwLockReadGuard"@ {
            reveal_strlit("RwLockReadGuard");
            assert("RwLockReadGuard"@.len() == 15);
            reveal_strlit("&");
            assert("&"@.len() == 1);
            reveal_strlit("&mut");
            assert("&mut"@.len() == 4);
            reveal_strlit("Vec");
            assert("Vec"@.len() == 3);
            reveal_strlit("VecDeque");
            assert("VecDeque"@.len() == 8);
            reveal_strlit("BinaryHeap");
            assert("BinaryHeap"@.len() == 10);
            reveal_strlit("HashMap");
            assert("HashMap"@.len() == 7);
            reveal_strlit("HashSet");
            assert("HashSet"@.len() == 7);
            reveal_strlit("BTreeMap");
            assert("BTreeMap"@.len() == 8);
            reveal_strlit("BTreeSet");
            assert("BTreeSet"@.len() == 8);
            reveal_strlit("LinkedList");
            assert("LinkedList"@.len() == 10);
            reveal_strlit("String");
            assert("String"@.len() == 6);
            reveal_strlit("Box");
            assert("Box"@.len() == 3);
            reveal_strlit("Rc");
            assert("Rc"@.len() == 2);
            reveal_strlit("Arc");
            assert("Arc"@.len() == 3);
            reveal_strlit("Weak");
            assert("Weak"@.len() == 4);
            reveal_strlit("Pin");
            assert("Pin"@.len() == 3);
            reveal_strlit("Cell");
            assert("Cell"@.len() == 4);
            reveal_strlit("RefCell");
            assert("RefCell"@.len() == 7);
            reveal_strlit("UnsafeCell");
            assert("UnsafeCell"@.len() == 10);
            reveal_strlit("OnceCell");
            assert("OnceCell"@.len() == 8);
            reveal_strlit("OnceLock");
            assert("OnceLock"@.len() == 8);
            reveal_strlit("Mutex");
            assert("Mutex"@.len() == 5);
            reveal_strlit("RwLock");
            assert("RwLock"@.len() == 6);
            assert("RwLockReadGuard"@ != "&"@);
            assert("RwLockReadGuard"@ != "&mut"@);
            assert("RwLockReadGuard"@ != "Vec"@);
            assert("RwLockReadGuard"@ != "VecDeque"@);
            assert("RwLockReadGuard"@ != "BinaryHeap"@);
            assert("RwLockReadGuard"@ != "HashMap"@);
            assert("RwLockReadGuard"@ != "HashSet"@);
            assert("RwLockReadGuard"@ != "BTreeMap"@);
            assert("RwLockReadGuard"@ != "BTreeSet"@);
            assert("RwLockReadGuard"@ != "LinkedList"@);
            assert("RwLockReadGuard"@ != "String"@);
            assert("RwLockReadGuard"@ != "Box"@);
            assert("RwLockReadGuard"@ != "Rc"@);
            assert("RwLockReadGuard"@ != "Arc"@);
            assert("RwLockReadGuard"@ != "Weak"@);
            assert("RwLockReadGuard"@ != "Pin"@);
            assert("RwLockReadGuard"@ != "Cell"@);
            assert("RwLockReadGuard"@ != "RefCell"@);
            assert("RwLockReadGuard"@ != "UnsafeCell"@);
            assert("RwLockReadGuard"@ != "OnceCell"@);
            assert("RwLockReadGuard"@ != "OnceLock"@);
            assert("RwLockReadGuard"@ != "Mutex"@);
            assert("RwLockReadGuard"@ != "RwLock"@);
        }
    }
    assert(outer == "RwLockWriteGuard"@ ==> spec_layer_family(t) == LayerFamily::Guard) by {
        if outer == "RwLockWriteGuard"@ {
            reveal_strlit("RwLockWriteGuard");
            assert("RwLockWriteGuard"@.len() == 16);
            reveal_strlit("&");
            assert("&"@.len() == 1);
            reveal_strlit("&mut");
            assert("&mut"@.len() == 4);
            reveal_strlit("Vec");
            assert("Vec"@.len() == 3);
            reveal_strlit("VecDeque");
            assert("VecDeque"@.len() == 8);
            reveal_strlit("BinaryHeap");
            assert("BinaryHeap"@.len() == 10);
            reveal_strlit("HashMap");
            assert("HashMap"@.len() == 7);
            reveal_strlit("HashSet");
            assert("HashSet"@.len() == 7);
            reveal_strlit("BTreeMap");
            assert("BTreeMap"@.len() == 8);
            reveal_strlit("BTreeSet");
            assert("BTreeSet"@.len() == 8);
            reveal_strlit("LinkedList");
            assert("LinkedList"@.len() == 10);
            reveal_strlit("String");
            assert("String"@.len() == 6);
            reveal_strlit("Box");
            assert("Box"@.len() == 3);
            reveal_strlit("Rc");
            assert("Rc"@.len() == 2);
            reveal_strlit("Arc");
            assert("Arc"@.len() == 3);
            reveal_strlit("Weak");
            assert("Weak"@.len() == 4);
            reveal_strlit("Pin");
            assert("Pin"@.len() == 3);
            reveal_strlit("Cell");
            assert("Cell"@.len() == 4);
            reveal_strlit("RefCell");
            assert("RefCell"@.len() == 7);
            reveal_strlit("UnsafeCell");
            assert("UnsafeCell"@.len() == 10);
            reveal_strlit("OnceCell");
            assert("OnceCell"@.len() == 8);
            reveal_strlit("OnceLock");
            assert("OnceLock"@.len() == 8);
            reveal_strlit("Mutex");
            assert("Mutex"@.len() == 5);
            reveal_strlit("RwLock");
            assert("RwLock"@.len() == 6);
            assert("RwLockWriteGuard"@ != "&"@);
            assert("RwLockWriteGuard"@ != "&mut"@);
            assert("RwLockWriteGuard"@ != "Vec"@);
            assert("RwLockWriteGuard"@ != "VecDeque"@);
            assert("RwLockWriteGuard"@ != "BinaryHeap"@);
            assert("RwLockWriteGuard"@ != "HashMap"@);
            assert("RwLockWriteGuard"@ != "HashSet"@);
            assert("RwLockWriteGuard"@ != "BTreeMap"@);
            assert("RwLockWriteGuard"@ != "BTreeSet"@);
            assert("RwLockWriteGuard"@ != "LinkedList"@);
            assert("RwLockWriteGuard"@ != "String"@);
            assert("RwLockWriteGuard"@ != "Box"@);
            assert("RwLockWriteGuard"@ != "Rc"@);
            assert("RwLockWriteGuard"@ != "Arc"@);
            assert("RwLockWriteGuard"@ != "Weak"@);
            assert("RwLockWriteGuard"@ != "Pin"@);
            assert("RwLockWriteGuard"@ != "Cell"@);
            assert("RwLockWriteGuard"@ != "RefCell"@);
            assert("RwLockWriteGuard"@ != "UnsafeCell"@);
            assert("RwLockWriteGuard"@ != "OnceCell"@);
            assert("RwLockWriteGuard"@ != "OnceLock"@);
            assert("RwLockWriteGuard"@ != "Mutex"@);
            assert("RwLockWriteGuard"@ != "RwLock"@);
        }
    }
    assert(outer == "*const"@ ==> spec_layer_family(t) == LayerFamily::RawPointer) by {
        if outer == "*const"@ {
            reveal_strlit("*const");
            assert("*const"@.len() == 6);
            reveal_strlit("&");
            assert("&"@.len() == 1);
            reveal_strlit("&mut");
            assert("&mut"@.len() == 4);
            reveal_strlit("Vec");
            assert("Vec"@.len() == 3);
            reveal_strlit("VecDeque");
            assert("VecDeque"@.len() == 8);
            reveal_strlit("BinaryHeap");
            assert("BinaryHeap"@.len() == 10);
            reveal_strlit("HashMap");
            assert("HashMap"@.len() == 7);
            reveal_strlit("HashSet");
            assert("HashSet"@.len() == 7);
            reveal_strlit("BTreeMap");
            assert("BTreeMap"@.len() == 8);
            reveal_strlit("BTreeSet");
            assert("BTreeSet"@.len() == 8);
            reveal_strlit("LinkedList");
            assert("LinkedList"@.len() == 10);
            reveal_strlit("String");
            assert("String"@.len() == 6);
            reveal_strlit("Box");
            assert("Box"@.len() == 3);
            reveal_strlit("Rc");
            assert("Rc"@.len() == 2);
            reveal_strlit("Arc");
            assert("Arc"@.len() == 3);
            reveal_strlit("Weak");
            assert("Weak"@.len() == 4);
            reveal_strlit("Pin");
            assert("Pin"@.len() == 3);
            reveal_strlit("Cell");
            assert("Cell"@.len() == 4);
            reveal_strlit("RefCell");
            assert("RefCell"@.len() == 7);
            reveal_strlit("UnsafeCell");
            assert("UnsafeCell"@.len() == 10);
            reveal_strlit("OnceCell");
            assert("OnceCell"@.len() == 8);
            reveal_strlit("OnceLock");
            assert("OnceLock"@.len() == 8);
            reveal_strlit("Mutex");
            assert("Mutex"@.len() == 5);
            reveal_strlit("RwLock");
            assert("RwLock"@.len() == 6);
            reveal_strlit("MutexGuard");
            assert("MutexGuard"@.len() == 10);
            reveal_strlit("RwLockReadGuard");
            assert("RwLockReadGuard"@.len() == 15);
            reveal_strlit("RwLockWriteGuard");
            assert("RwLockWriteGuard"@.len() == 16);
            assert("*const"@ != "&"@);
            assert("*const"@ != "&mut"@);
            assert("*const"@ != "Vec"@);
            assert("*const"@ != "VecDeque"@);
            assert("*const"@ != "BinaryHeap"@);
            assert("*const"@ != "HashMap"@);
            assert("*const"@ != "HashSet"@);
            assert("*const"@ != "BTreeMap"@);
            assert("*const"@ != "BTreeSet"@);
            assert("*const"@ != "LinkedList"@);
            assert("*const"@[0] != "String"@[0]);
            assert("*const"@ != "String"@);
            assert("*const"@ != "Box"@);
            assert("*const"@ != "Rc"@);
            assert("*const"@ != "Arc"@);
            assert("*const"@ != "Weak"@);
            assert("*const"@ != "Pin"@);
            assert("*const"@ != "Cell"@);
            assert("*const"@ != "RefCell"@);
            assert("*const"@ != "UnsafeCell"@);
            assert("*const"@ != "OnceCell"@);
            assert("*const"@ != "OnceLock"@);
            assert("*const"@ != "Mutex"@);
            assert("*const"@[0] != "RwLock"@[0]);
            assert("*const"@ != "RwLock"@);
            assert("*const"@ != "MutexGuard"@);
            assert("*const"@ != "RwLockReadGuard"@);
            assert("*const"@ != "RwLockWriteGuard"@);
        }
    }
    assert(outer == "*mut"@ ==> spec_layer_family(t) == LayerFamily::RawPointer) by {
        if outer == "*mut"@ {
            reveal_strlit("*mut");
            assert("*mut"@.len() == 4);
            reveal_strlit("&");
            assert("&"@.len() == 1);
            reveal_strlit("&mut");
            assert("&mut"@.len() == 4);
            reveal_strlit("Vec");
            assert("Vec"@.len() == 3);
            reveal_strlit("VecDeque");
            assert("VecDeque"@.len() == 8);
            reveal_strlit("BinaryHeap");
            assert("BinaryHeap"@.len() == 10);
            reveal_strlit("HashMap");
            assert("HashMap"@.len() == 7);
            reveal_strlit("HashSet");
            assert("HashSet"@.len() == 7);
            reveal_strlit("BTreeMap");
            assert("BTreeMap"@.len() == 8);
            reveal_strlit("BTreeSet");
            assert("BTreeSet"@.len() == 8);
            reveal_strlit("LinkedList");
            assert("LinkedList"@.len() == 10);
            reveal_strlit("String");
            assert("String"@.len() == 6);
            reveal_strlit("Box");
            assert("Box"@.len() == 3);
            reveal_strlit("Rc");
            assert("Rc"@.len() == 2);
            reveal_strlit("Arc");
            assert("Arc"@.len() == 3);
            reveal_strlit("Weak");
            assert("Weak"@.len() == 4);
            reveal_strlit("Pin");
            assert("Pin"@.len() == 3);
            reveal_strlit("Cell");
            assert("Cell"@.len() == 4);
            reveal_strlit("RefCell");
            assert("RefCell"@.len() == 7);
            reveal_strlit("UnsafeCell");
            assert("UnsafeCell"@.len() == 10);
            reveal_strlit("OnceCell");
            assert("OnceCell"@.len() == 8);
            reveal_strlit("OnceLock");
            assert("OnceLock"@.len() == 8);
            reveal_strlit("Mutex");
            assert("Mutex"@.len() == 5);
            reveal_strlit("RwLock");
            assert("RwLock"@.len() == 6);
            reveal_strlit("MutexGuard");
            assert("MutexGuard"@.len() == 10);
            reveal_strlit("RwLockReadGuard");
            assert("RwLockReadGuard"@.len() == 15);
            reveal_strlit("RwLockWriteGuard");
            assert("RwLockWriteGuard"@.len() == 16);
            assert("*mut"@ != "&"@);
            assert("*mut"@[0] != "&mut"@[0]);
            assert("*mut"@ != "&mut"@);
            assert("*mut"@ != "Vec"@);
            assert("*mut"@ != "VecDeque"@);
            assert("*mut"@ != "BinaryHeap"@);
            assert("*mut"@ != "HashMap"@);
            assert("*mut"@ != "HashSet"@);
            assert("*mut"@ != "BTreeMap"@);
            assert("*mut"@ != "BTreeSet"@);
            assert("*mut"@ != "LinkedList"@);
            assert("*mut"@ != "String"@);
            assert("*mut"@ != "Box"@);
            assert("*mut"@ != "Rc"@);
            assert("*mut"@ != "Arc"@);
            assert("*mut"@[0] != "Weak"@[0]);
            assert("*mut"@ != "Weak"@);
            assert("*mut"@ != "Pin"@);
            assert("*mut"@[0] != "Cell"@[0]);
            assert("*mut"@ != "Cell"@);
            assert("*mut"@ != "RefCell"@);
            assert("*mut"@ != "UnsafeCell"@);
            assert("*mut"@ != "OnceCell"@);
            assert("*mut"@ != "OnceLock"@);
            assert("*mut"@ != "Mutex"@);
            assert("*mut"@ != "RwLock"@);
            assert("*mut"@ != "MutexGuard"@);
            assert("*mut"@ != "RwLockReadGuard"@);
            assert("*mut"@ != "RwLockWriteGuard"@);
        }
    }
    assert(outer == "Option"@ ==> spec_layer_family(t) == LayerFamily::Conditional) by {
        if outer == "Option"@ {
            reveal_strlit("Option");
            assert("Option"@.len() == 6);
            reveal_strlit("&");
            assert("&"@.len() == 1);
            reveal_strlit("&mut");
            assert("&mut"@.len() == 4);
            reveal_strlit("Vec");
            assert("Vec"@.len() == 3);
            reveal_strlit("VecDeque");
            assert("VecDeque"@.len() == 8);
            reveal_strlit("BinaryHeap");
            assert("BinaryHeap"@.len() == 10);
            reveal_strlit("HashMap");
            assert("HashMap"@.len() == 7);
            reveal_strlit("HashSet");
            assert("HashSet"@.len() == 7);
            reveal_strlit("BTreeMap");
            assert("BTreeMap"@.len() == 8);
            reveal_strlit("BTreeSet");
            assert("BTreeSet"@.len() == 8);
            reveal_strlit("LinkedList");
            assert("LinkedList"@.len() == 10);
            reveal_strlit("String");
            assert("String"@.len() == 6);
            reveal_strlit("Box");
            assert("Box"@.len() == 3);
            reveal_strlit("Rc");
            assert("Rc"@.len() == 2);
            reveal_strlit("Arc");
            assert("Arc"@.len() == 3);
            reveal_strlit("Weak");
            assert("Weak"@.len() == 4);
            reveal_strlit("Pin");
            assert("Pin"@.len() == 3);
            reveal_strlit("Cell");
            assert("Cell"@.len() == 4);
            reveal_strlit("RefCell");
            assert("RefCell"@.len() == 7);
            reveal_strlit("UnsafeCell");
            assert("UnsafeCell"@.len() == 10);
            reveal_strlit("OnceCell");
            assert("OnceCell"@.len() == 8);
            reveal_strlit("OnceLock");
            assert("OnceLock"@.len() == 8);
            reveal_strlit("Mutex");
            assert("Mutex"@.len() == 5);
            reveal_strlit("RwLock");
            assert("RwLock"@.len() == 6);
            reveal_strlit("MutexGuard");
            assert("MutexGuard"@.len() == 10);
            reveal_strlit("RwLockReadGuard");
            assert("RwLockReadGuard"@.len() == 15);
            reveal_strlit("RwLockWriteGuard");
            assert("RwLockWriteGuard"@.len() == 16);
            reveal_strlit("*const");
            assert("*const"@.len() == 6);
            reveal_strlit("*mut");
            assert("*mut"@.len() == 4);
            assert("Option"@ != "&"@);
            assert("Option"@ != "&mut"@);
            assert("Option"@ != "Vec"@);
            assert("Option"@ != "VecDeque"@);
            assert("Option"@ != "BinaryHeap"@);
            assert("Option"@ != "HashMap"@);
            assert("Option"@ != "HashSet"@);
            assert("Option"@ != "BTreeMap"@);
            assert("Option"@ != "BTreeSet"@);
            assert("Option"@ != "LinkedList"@);
            assert("Option"@[0] != "String"@[0]);
            assert("Option"@ != "String"@);
            assert("Option"@ != "Box"@);
            assert("Option"@ != "Rc"@);
            assert("Option"@ != "Arc"@);
            assert("Option"@ != "Weak"@);
            assert("Option"@ != "Pin"@);
            assert("Option"@ != "Cell"@);
            assert("Option"@ != "RefCell"@);
            assert("Option"@ != "UnsafeCell"@);
            assert("Option"@ != "OnceCell"@);
            assert("Option"@ != "OnceLock"@);
            assert("Option"@ != "Mutex"@);
            assert("Option"@[0] != "RwLock"@[0]);
            assert("Option"@ != "RwLock"@);
            assert("Option"@ != "MutexGuard"@);
            assert("Option"@ != "RwLockReadGuard"@);
            assert("Option"@ != "RwLockWriteGuard"@);
            assert("Option"@[0] != "*const"@[0]);
            assert("Option"@ != "*const"@);
            assert("Option"@ != "*mut"@);
        }
    }
    assert(outer == "Result"@ ==> spec_layer_family(t) == LayerFamily::Conditional) by {
        if outer == "Result"@ {
            reveal_strlit("Result");
            assert("Result"@.len() == 6);
            reveal_strlit("&");
            assert("&"@.len() == 1);
            reveal_strlit("&mut");
            assert("&mut"@.len() == 4);
            reveal_strlit("Vec");
            assert("Vec"@.len() == 3);
            reveal_strlit("VecDeque");
            assert("VecDeque"@.len() == 8);
            reveal_strlit("BinaryHeap");
            assert("BinaryHeap"@.len() == 10);
            reveal_strlit("HashMap");
            assert("HashMap"@.len() == 7);
            reveal_strlit("HashSet");
            assert("HashSet"@.len() == 7);
            reveal_strlit("BTreeMap");
            assert("BTreeMap"@.len() == 8);
            reveal_strlit("BTreeSet");
            assert("BTreeSet"@.len() == 8);
            reveal_strlit("LinkedList");
            assert("LinkedList"@.len() == 10);
            reveal_strlit("String");
            assert("String"@.len() == 6);
            reveal_strlit("Box");
            assert("Box"@.len() == 3);
            reveal_strlit("Rc");
            assert("Rc"@.len() == 2);
            reveal_strlit("Arc");
            assert("Arc"@.len() == 3);
            reveal_strlit("Weak");
            assert("Weak"@.len() == 4);
            reveal_strlit("Pin");
            assert("Pin"@.len() == 3);
            reveal_strlit("Cell");
            assert("Cell"@.len() == 4);
            reveal_strlit("RefCell");
            assert("RefCell"@.len() == 7);
            reveal_strlit("UnsafeCell");
            assert("UnsafeCell"@.len() == 10);
            reveal_strlit("OnceCell");
            assert("OnceCell"@.len() == 8);
            reveal_strlit("OnceLock");
            assert("OnceLock"@.len() == 8);
            reveal_strlit("Mutex");
            assert("Mutex"@.len() == 5);
            reveal_strlit("RwLock");
            assert("RwLock"@.len() == 6);
            reveal_strlit("MutexGuard");
            assert("MutexGuard"@.len() == 10);
            reveal_strlit("RwLockReadGuard");
            assert("RwLockReadGuard"@.len() == 15);
            reveal_strlit("RwLockWriteGuard");
            assert("RwLockWriteGuard"@.len() == 16);
            reveal_strlit("*const");
            assert("*const"@.len() == 6);
            reveal_strlit("*mut");
            assert("*mut"@.len() == 4);
            assert("Result"@ != "&"@);
            assert("Result"@ != "&mut"@);
            assert("Result"@ != "Vec"@);
            assert("Result"@ != "VecDeque"@);
            assert("Result"@ != "BinaryHeap"@);
            assert("Result"@ != "HashMap"@);
            assert("Result"@ != "HashSet"@);
            assert("Result"@ != "BTreeMap"@);
            assert("Result"@ != "BTreeSet"@);
            assert("Result"@ != "LinkedList"@);
            assert("Result"@[0] != "String"@[0]);
            assert("Result"@ != "String"@);
            assert("Result"@ != "Box"@);
            assert("Result"@ != "Rc"@);
            assert("Result"@ != "Arc"@);
            assert("Result"@ != "Weak"@);
            assert("Result"@ != "Pin"@);
            assert("Result"@ != "Cell"@);
            assert("Result"@ != "RefCell"@);
            assert("Result"@ != "UnsafeCell"@);
            assert("Result"@ != "OnceCell"@);
            assert("Result"@ != "OnceLock"@);
            assert("Result"@ != "Mutex"@);
            assert("Result"@[1] != "RwLock"@[1]);
            assert("Result"@ != "RwLock"@);
            assert("Result"@ != "MutexGuard"@);
            assert("Result"@ != "RwLockReadGuard"@);
            assert("Result"@ != "RwLockWriteGuard"@);
            assert("Result"@[0] != "*const"@[0]);
            assert("Result"@ != "*const"@);
            assert("Result"@ != "*mut"@);
        }
    }
    assert(outer == "Cow"@ ==> spec_layer_family(t) == LayerFamily::CloneOnWrite) by {
        if outer == "Cow"@ {
            reveal_strlit("Cow");
            assert("Cow"@.len() == 3);
            reveal_strlit("&");
            assert("&"@.len() == 1);
            reveal_strlit("&mut");
            assert("&mut"@.len() == 4);
            reveal_strlit("Vec");
            assert("Vec"@.len() == 3);
            reveal_strlit("VecDeque");
            assert("VecDeque"@.len() == 8);
            reveal_strlit("BinaryHeap");
            assert("BinaryHeap"@.len() == 10);
            reveal_strlit("HashMap");
            assert("HashMap"@.len() == 7);
            reveal_strlit("HashSet");
            assert("HashSet"@.len() == 7);
            reveal_strlit("BTreeMap");
            assert("BTreeMap"@.len() == 8);
            reveal_strlit("BTreeSet");
            assert("BTreeSet"@.len() == 8);
            reveal_strlit("LinkedList");
            assert("LinkedList"@.len() == 10);
            reveal_strlit("String");
            assert("String"@.len() == 6);
            reveal_strlit("Box");
            assert("Box"@.len() == 3);
            reveal_strlit("Rc");
            assert("Rc"@.len() == 2);
            reveal_strlit("Arc");
            assert("Arc"@.len() == 3);
            reveal_strlit("Weak");
            assert("Weak"@.len() == 4);
            reveal_strlit("Pin");
            assert("Pin"@.len() == 3);
            reveal_strlit("Cell");
            assert("Cell"@.len() == 4);
            reveal_strlit("RefCell");
            assert("RefCell"@.len() == 7);
            reveal_strlit("UnsafeCell");
            assert("UnsafeCell"@.len() == 10);
            reveal_strlit("OnceCell");
            assert("OnceCell"@.len() == 8);
            reveal_strlit("OnceLock");
            assert("OnceLock"@.len() == 8);
            reveal_strlit("Mutex");
            assert("Mutex"@.len() == 5);
            reveal_strlit("RwLock");
            assert("RwLock"@.len() == 6);
            reveal_strlit("MutexGuard");
            assert("MutexGuard"@.len() == 10);
            reveal_strlit("RwLockReadGuard");
            assert("RwLockReadGuard"@.len() == 15);
            reveal_strlit("RwLockWriteGuard");
            assert("RwLockWriteGuard"@.len() == 16);
            reveal_strlit("*const");
            assert("*const"@.len() == 6);
            reveal_strlit("*mut");
            assert("*mut"@.len() == 4);
            reveal_strlit("Option");
            assert("Option"@.len() == 6);
            reveal_strlit("Result");
            assert("Result"@.len() == 6);
            assert("Cow"@ != "&"@);
            assert("Cow"@ != "&mut"@);
            assert("Cow"@[0] != "Vec"@[0]);
            assert("Cow"@ != "Vec"@);
            assert("Cow"@ != "VecDeque"@);
            assert("Cow"@ != "BinaryHeap"@);
            assert("Cow"@ != "HashMap"@);
            assert("Cow"@ != "HashSet"@);
            assert("Cow"@ != "BTreeMap"@);
            assert("Cow"@ != "BTreeSet"@);
            assert("Cow"@ != "LinkedList"@);
            assert("Cow"@ != "String"@);
            assert("Cow"@[0] != "Box"@[0]);
            assert("Cow"@ != "Box"@);
            assert("Cow"@ != "Rc"@);
            assert("Cow"@[0] != "Arc"@[0]);
            assert("Cow"@ != "Arc"@);
            assert("Cow"@ != "Weak"@);
            assert("Cow"@[0] != "Pin"@[0]);
            assert("Cow"@ != "Pin"@);
            assert("Cow"@ != "Cell"@);
            assert("Cow"@ != "RefCell"@);
            assert("Cow"@ != "UnsafeCell"@);
            assert("Cow"@ != "OnceCell"@);
            assert("Cow"@ != "OnceLock"@);
            assert("Cow"@ != "Mutex"@);
            assert("Cow"@ != "RwLock"@);
            assert("Cow"@ != "MutexGuard"@);
            assert("Cow"@ != "RwLockReadGuard"@);
            assert("Cow"@ != "RwLockWriteGuard"@);
            assert("Cow"@ != "*const"@);
            assert("Cow"@ != "*mut"@);
            assert("Cow"@ != "Option"@);
            assert("Cow"@ != "Result"@);
        }
    }
}

/// A std collection other than `Vec` draws two layers: its inline state,
/// stored under the parent, and below it the heap storage that owns its
/// elements, shown with the collection's type arguments.
pub proof fn collections_draw_state_and_heap_storage(
    t: Seq<char>,
    parent: Seq<char>,
    prefix: Seq<char>,
    depth: nat,
    count: nat,
)
    requires
        depth < 8,
        count < 12,
        spec_parse_type(t).0 == "VecDeque"@ || spec_parse_type(t).0 == "BinaryHeap"@
            || spec_parse_type(t).0 == "HashMap"@ || spec_parse_type(t).0 == "HashSet"@
            || spec_parse_type(t).0 == "BTreeMap"@ || spec_parse_type(t).0 == "BTreeSet"@
            || spec_parse_type(t).0 == "LinkedList"@,
    ensures
        ({
            let args = spec_parse_type(t).1;
            let ls = type_layers(t, parent, prefix, depth, count);
            &&& ls.len() == 2
            &&& ls[0].parent_suffix == Some(parent)
            &&& ls[0].type_text == t
            &&& ls[0].label == spec_parse_type(t).0 + " collection state"@
            &&& ls[0].kind == "wrapper"@
            &&& ls[0].storage == "inline"@
            &&& ls[0].relation == "stores"@
            &&& ls[1].parent_suffix == Some(ls[0].id_suffix)
            &&& ls[1].kind == "buffer"@
            &&& ls[1].storage == "heap"@
            &&& ls[1].relation == "owns_buffer"@
            &&& ls[1].type_text == (if args.len() == 0 { "elements"@ } else { joined(args, ", "@) })
        }),
{
    layer_family_follows_the_outer_name(t);
    reveal(container_plan);
    lemma_type_layers_unfold(t, parent, prefix, depth, count);
}

/// A type that owns or shares a heap allocation (`Vec`, the other std
/// collections, `String`, `Box`, `Rc`/`Arc`, `Weak`) is drawn as an inline
/// handle first, with the heap layer it points at directly below it.
pub proof fn owners_draw_their_heap_allocation(
    t: Seq<char>,
    parent: Seq<char>,
    prefix: Seq<char>,
    depth: nat,
    count: nat,
)
    requires
        depth < 8,
        count < 12,
        spec_layer_family(t) is Vector || spec_layer_family(t) is Collection || spec_layer_family(t) is Text
            || spec_layer_family(t) is Boxed || spec_layer_family(t) is Shared || spec_layer_family(t) is WeakHandle,
    ensures
        ({
            let ls = type_layers(t, parent, prefix, depth, count);
            &&& ls.len() >= 2
            &&& ls[0].parent_suffix == Some(parent)
            &&& ls[0].storage == "inline"@
            &&& ls[1].storage == "heap"@
            &&& ls[1].parent_suffix == Some(ls[0].id_suffix)
        }),
{
    reveal(container_plan);
    reveal(owner_plan);
    lemma_type_layers_unfold(t, parent, prefix, depth, count);
    let plan = family_plan(t, parent, prefix, depth);
    let family = spec_layer_family(t);
    if family is Boxed {
        assert(family == LayerFamily::Boxed);
    } else if family is Shared {
        assert(family == LayerFamily::Shared);
    } else if family is WeakHandle {
        assert(family == LayerFamily::WeakHandle);
    }
    assert(plan.0.len() >= 2);
    let ls = type_layers(t, parent, prefix, depth, count);
    assert(ls[0] == plan.0[0]);
    assert(ls[1] == plan.0[1]);
}

} // verus!
