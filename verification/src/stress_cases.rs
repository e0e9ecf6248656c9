//! Teaching programs that first fail to compile, each written here in the
//! repaired form that its diagnostic points to, with the value it computes.
use vstd::prelude::*;

use crate::text::owned;

verus! {

/// A user profile whose fields move out one at a time.
#[derive(Debug)]
pub struct Profile {
    pub display_name: String,
    pub biography: String,
    pub login_count: u64,
}

/// A ledger with a debit and a matching credit appended through one writer
/// at a time.
pub fn update_ledger() -> (r: Vec<i64>)
    ensures
        r@ == seq![100i64, 200, 300, -25i64, 25],
{
    let mut ledger: Vec<i64> = vec![100, 200, 300];
    ledger.push(-25);
    ledger.push(25);
    assert(ledger@ =~= seq![100i64, 200, 300, -25i64, 25]);
    ledger
}

fn append_default(values: &mut Vec<i32>)
    ensures
        final(values)@ == old(values)@.push(0),
{
    values.push(0);
}

/// Defaults appended through an exclusive borrow of the caller's vector.
pub fn configure_defaults() -> (r: Vec<i32>)
    ensures
        r@ == seq![1i32, 2, 3, 0],
{
    let mut values: Vec<i32> = vec![1, 2, 3];
    append_default(&mut values);
    assert(values@ =~= seq![1i32, 2, 3, 0]);
    values
}

/// The text that could not be assigned to a count, counted instead: its
/// number of characters.
pub fn type_mismatch() -> (r: usize)
    ensures
        r == 12,
{
    let text = "not a number";
    proof {
        reveal_strlit("not a number");
    }
    text.unicode_len()
}

/// A string that lives for the whole program, in place of a reference into
/// a temporary.
pub fn temporary_lifetime() -> (r: &'static str)
    ensures
        r@ == "temporary"@,
{
    "temporary"
}

/// The local value handed back as an owner, in place of a reference to it.
pub fn return_local_reference() -> (r: String)
    ensures
        r@ == "local"@,
{
    owned("local")
}

/// The count kept in a collection, which does have `push`.
pub fn method_not_available() -> (r: Vec<u32>)
    ensures
        r@ == seq![3u32, 4],
{
    let mut counts: Vec<u32> = vec![3];
    counts.push(4);
    assert(counts@ =~= seq![3u32, 4]);
    counts
}

} // verus!
