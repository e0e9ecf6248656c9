//! A table of products in which no two entries share a stock-keeping unit,
//! and the lookups and updates that keep it so.
use vstd::prelude::*;

use crate::commerce::domain::{Product, ProductView, Sku};

verus! {

/// The recorded view of each product, in table order.
pub open spec fn views(products: Seq<Product>) -> Seq<ProductView> {
    products.map_values(|p: Product| p@)
}

/// No two entries share a unit.
pub open spec fn unique_skus(table: Seq<ProductView>) -> bool {
    forall|i: int, j: int|
        0 <= i < table.len() && 0 <= j < table.len() && i != j ==> #[trigger] table[i].sku
            != #[trigger] table[j].sku
}

/// Some entry is filed under `sku`.
pub open spec fn has_sku(table: Seq<ProductView>, sku: Seq<char>) -> bool {
    exists|i: int| 0 <= i < table.len() && #[trigger] table[i].sku == sku
}

/// The position of the entry filed under `sku`, where there is one.
pub open spec fn sku_index(table: Seq<ProductView>, sku: Seq<char>) -> int {
    choose|i: int| 0 <= i < table.len() && #[trigger] table[i].sku == sku
}

/// The entry filed under `sku`.
pub open spec fn lookup(table: Seq<ProductView>, sku: Seq<char>) -> Option<ProductView> {
    if has_sku(table, sku) {
        Some(table[sku_index(table, sku)])
    } else {
        None
    }
}

/// `product` put in the table: in place of the entry with its unit, or at the end.
pub open spec fn upsert(table: Seq<ProductView>, product: ProductView) -> Seq<ProductView> {
    if has_sku(table, product.sku) {
        table.update(sku_index(table, product.sku), product)
    } else {
        table.push(product)
    }
}

/// The table built by putting each product in turn.
pub open spec fn table_of(products: Seq<ProductView>) -> Seq<ProductView>
    decreases products.len(),
{
    if products.len() == 0 {
        Seq::empty()
    } else {
        upsert(table_of(products.drop_last()), products.last())
    }
}

/// The entry filed under `sku` with its stock set to `stock`.
pub open spec fn with_stock(table: Seq<ProductView>, sku: Seq<char>, stock: u32) -> Seq<
    ProductView,
> {
    let i = sku_index(table, sku);
    table.update(i, ProductView { stock, ..table[i] })
}

/// The entry filed under `sku` with its name set to `name`.
pub open spec fn with_name(table: Seq<ProductView>, sku: Seq<char>, name: Seq<char>) -> Seq<
    ProductView,
> {
    let i = sku_index(table, sku);
    table.update(i, ProductView { name, ..table[i] })
}

/// In a table without repeated units, the entry at `i` is the one filed under its unit.
pub proof fn lemma_index_of_entry(table: Seq<ProductView>, i: int)
    requires
        unique_skus(table),
        0 <= i < table.len(),
    ensures
        has_sku(table, table[i].sku),
        sku_index(table, table[i].sku) == i,
{
    assert(table[i].sku == table[i].sku);
    let k = sku_index(table, table[i].sku);
    assert(table[k].sku == table[i].sku);
}

/// Putting a product keeps the units distinct.
pub proof fn lemma_upsert_unique(table: Seq<ProductView>, product: ProductView)
    requires
        unique_skus(table),
    ensures
        unique_skus(upsert(table, product)),
        has_sku(upsert(table, product), product.sku),
{
    let t = upsert(table, product);
    if has_sku(table, product.sku) {
        let k = sku_index(table, product.sku);
        assert(t[k].sku == product.sku);
    } else {
        assert(t[table.len() as int].sku == product.sku);
    }
}

/// Changing one entry's fields but not its unit: the units stay distinct,
/// and every other unit reads back as before.
proof fn lemma_one_entry_changed(table: Seq<ProductView>, i: int, entry: ProductView)
    requires
        unique_skus(table),
        0 <= i < table.len(),
        entry.sku == table[i].sku,
    ensures
        unique_skus(table.update(i, entry)),
        lookup(table.update(i, entry), entry.sku) == Some(entry),
        forall|s: Seq<char>|
            s != entry.sku ==> #[trigger] lookup(table.update(i, entry), s) == lookup(table, s),
{
    let t2 = table.update(i, entry);
    assert forall|a: int, b: int|
        0 <= a < t2.len() && 0 <= b < t2.len() && a != b implies #[trigger] t2[a].sku
            != #[trigger] t2[b].sku by {
        assert(t2[a].sku == table[a].sku && t2[b].sku == table[b].sku);
    }
    lemma_index_of_entry(t2, i);
    assert forall|s: Seq<char>| s != entry.sku implies #[trigger] lookup(t2, s) == lookup(table, s) by {
        if has_sku(table, s) {
            let k = sku_index(table, s);
            lemma_index_of_entry(table, k);
            assert(t2[k].sku == s);
            lemma_index_of_entry(t2, k);
        } else {
            if has_sku(t2, s) {
                let k = sku_index(t2, s);
                assert(table[k].sku == s);
            }
        }
    }
}

/// Read after a stock change: the unit has the new stock and nothing else
/// of it changed, every other unit reads as before, and units stay distinct.
pub proof fn stock_change_reads_back(table: Seq<ProductView>, sku: Seq<char>, stock: u32)
    requires
        unique_skus(table),
        has_sku(table, sku),
    ensures
        unique_skus(with_stock(table, sku, stock)),
        lookup(with_stock(table, sku, stock), sku) == Some(
            ProductView { stock, ..lookup(table, sku)->0 },
        ),
        forall|s: Seq<char>|
            s != sku ==> #[trigger] lookup(with_stock(table, sku, stock), s) == lookup(table, s),
{
    let i = sku_index(table, sku);
    lemma_one_entry_changed(table, i, ProductView { stock, ..table[i] });
}

/// Read after putting a product: its unit reads back as the product, every
/// other unit reads as before, and units stay distinct.
pub proof fn upsert_reads_back(table: Seq<ProductView>, product: ProductView)
    requires
        unique_skus(table),
    ensures
        unique_skus(upsert(table, product)),
        lookup(upsert(table, product), product.sku) == Some(product),
        forall|s: Seq<char>|
            s != product.sku ==> #[trigger] lookup(upsert(table, product), s) == lookup(table, s),
{
    if has_sku(table, product.sku) {
        lemma_one_entry_changed(table, sku_index(table, product.sku), product);
    } else {
        let t2 = table.push(product);
        lemma_upsert_unique(table, product);
        lemma_index_of_entry(t2, table.len() as int);
        assert forall|s: Seq<char>| s != product.sku implies #[trigger] lookup(t2, s) == lookup(table, s) by {
            if has_sku(table, s) {
                let k = sku_index(table, s);
                lemma_index_of_entry(table, k);
                assert(t2[k] == table[k]);
                lemma_index_of_entry(t2, k);
            } else if has_sku(t2, s) {
                let k = sku_index(t2, s);
                assert(k != table.len());
                assert(table[k].sku == s);
            }
        }
    }
}

/// The table without the entry filed under `sku`.
pub open spec fn without_sku(table: Seq<ProductView>, sku: Seq<char>) -> Seq<ProductView> {
    if has_sku(table, sku) {
        table.remove(sku_index(table, sku))
    } else {
        table
    }
}

/// Read after a removal: the unit is gone, every other unit reads as before,
/// and units stay distinct.
pub proof fn removal_reads_back(table: Seq<ProductView>, sku: Seq<char>)
    requires
        unique_skus(table),
    ensures
        unique_skus(without_sku(table, sku)),
        lookup(without_sku(table, sku), sku) is None,
        forall|s: Seq<char>|
            s != sku ==> #[trigger] lookup(without_sku(table, sku), s) == lookup(table, s),
{
    if has_sku(table, sku) {
        let i = sku_index(table, sku);
        let t2 = table.remove(i);
        assert forall|a: int, b: int|
            0 <= a < t2.len() && 0 <= b < t2.len() && a != b implies #[trigger] t2[a].sku
                != #[trigger] t2[b].sku by {
            let a0 = if a < i { a } else { a + 1 };
            let b0 = if b < i { b } else { b + 1 };
            assert(t2[a] == table[a0] && t2[b] == table[b0]);
        }
        if has_sku(t2, sku) {
            let k = sku_index(t2, sku);
            let k0 = if k < i { k } else { k + 1 };
            assert(t2[k] == table[k0]);
            assert(table[i].sku == sku);
        }
        assert forall|s: Seq<char>| s != sku implies #[trigger] lookup(t2, s) == lookup(table, s) by {
            if has_sku(table, s) {
                let k = sku_index(table, s);
                lemma_index_of_entry(table, k);
                assert(k != i);
                let k2 = if k < i { k } else { k - 1 };
                assert(t2[k2] == table[k]);
                lemma_index_of_entry(t2, k2);
            } else if has_sku(t2, s) {
                let k = sku_index(t2, s);
                let k0 = if k < i { k } else { k + 1 };
                assert(t2[k] == table[k0]);
            }
        }
    }
}

/// The position of the entry filed under `sku`.
pub fn find_sku(products: &Vec<Product>, sku: &Sku) -> (r: Option<usize>)
    requires
        unique_skus(views(products@)),
    ensures
        r matches Some(i) ==> i < products.len() && i == sku_index(views(products@), sku@)
            && has_sku(views(products@), sku@),
        r is None ==> !has_sku(views(products@), sku@),
{
    let ghost table = views(products@);
    let mut i: usize = 0;
    while i < products.len()
        invariant
            i <= products.len(),
            table == views(products@),
            unique_skus(table),
            forall|k: int| 0 <= k < i ==> #[trigger] table[k].sku != sku@,
        decreases products.len() - i,
    {
        if products[i].sku.same_as(sku) {
            proof {
                lemma_index_of_entry(table, i as int);
            }
            return Some(i);
        }
        i += 1;
    }
    None
}

/// Puts `product` in the table, in place of the entry with its unit or at the end.
pub fn upsert_product(products: &mut Vec<Product>, product: Product)
    requires
        unique_skus(views(old(products)@)),
    ensures
        views(final(products)@) == upsert(views(old(products)@), product@),
        unique_skus(views(final(products)@)),
{
    let ghost before = views(products@);
    let ghost entry = product@;
    proof {
        lemma_upsert_unique(before, entry);
    }
    match find_sku(products, &product.sku) {
        Some(i) => {
            products.set(i, product);
            assert(views(products@) =~= before.update(i as int, entry));
        },
        None => {
            products.push(product);
            assert(views(products@) =~= before.push(entry));
        },
    }
}

/// Takes the entry filed under `sku` out of the table and gives it back.
pub fn remove_sku(products: &mut Vec<Product>, sku: &Sku) -> (r: Option<Product>)
    requires
        unique_skus(views(old(products)@)),
    ensures
        views(final(products)@) == without_sku(views(old(products)@), sku@),
        r matches Some(p) ==> lookup(views(old(products)@), sku@) == Some(p@),
        r is None ==> lookup(views(old(products)@), sku@) is None,
        unique_skus(views(final(products)@)),
{
    let ghost before = views(products@);
    proof {
        removal_reads_back(before, sku@);
    }
    match find_sku(products, sku) {
        Some(i) => {
            let p = products.remove(i);
            assert(views(products@) =~= before.remove(i as int));
            Some(p)
        },
        None => None,
    }
}

/// Sets the stock of the entry at `i`.
pub fn set_stock_at(products: &mut Vec<Product>, i: usize, stock: u32)
    requires
        i < old(products).len(),
    ensures
        views(final(products)@) == views(old(products)@).update(
            i as int,
            ProductView { stock, ..views(old(products)@)[i as int] },
        ),
{
    let mut p = products[i].clone();
    p.stock = stock;
    products.set(i, p);
    assert(views(products@) =~= views(old(products)@).update(
        i as int,
        ProductView { stock, ..views(old(products)@)[i as int] },
    ));
}

} // verus!
