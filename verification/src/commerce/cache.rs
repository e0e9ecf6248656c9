//! A cache of products by stock-keeping unit, with the units in the order
//! they were cached.
use vstd::prelude::*;

use crate::commerce::catalog::lemma_same_units;
use crate::commerce::domain::{Product, ProductView, Sku};
use crate::commerce::inventory::{
    find_sku, has_sku, lookup, removal_reads_back, remove_sku, set_stock_at,
    stock_change_reads_back, unique_skus, upsert, upsert_product, upsert_reads_back, views,
    with_name, with_stock, without_sku,
};
use crate::text::owned;

verus! {

/// What a cache holds: one entry per unit, and the units in caching order.
pub struct ProductCacheView {
    pub entries: Seq<ProductView>,
    pub recent_keys: Seq<Seq<char>>,
}

pub struct ProductCache {
    entries: Vec<Product>,
    recent_keys: Vec<Sku>,
}

impl View for ProductCache {
    type V = ProductCacheView;

    closed spec fn view(&self) -> ProductCacheView {
        ProductCacheView {
            entries: views(self.entries@),
            recent_keys: self.recent_keys@.map_values(|s: Sku| s@),
        }
    }
}

impl ProductCache {
    #[verifier::type_invariant]
    spec fn entries_distinct(self) -> bool {
        unique_skus(views(self.entries@))
    }

    pub fn new() -> (r: Self)
        ensures
            r@.entries == Seq::<ProductView>::empty(),
            r@.recent_keys == Seq::<Seq<char>>::empty(),
            unique_skus(r@.entries),
    {
        let r = Self { entries: Vec::new(), recent_keys: Vec::new() };
        assert(r@.entries =~= Seq::<ProductView>::empty());
        assert(r@.recent_keys =~= Seq::<Seq<char>>::empty());
        r
    }

    /// Caches `product`, in place of any entry with its unit, and records its
    /// unit as the most recent.
    pub fn insert(&mut self, product: Product)
        ensures
            final(self)@.entries == upsert(old(self)@.entries, product@),
            final(self)@.recent_keys == old(self)@.recent_keys.push(product.sku@),
            unique_skus(final(self)@.entries),
            lookup(final(self)@.entries, product.sku@) == Some(product@),
            forall|s: Seq<char>|
                s != product.sku@ ==> #[trigger] lookup(final(self)@.entries, s) == lookup(
                    old(self)@.entries,
                    s,
                ),
    {
        proof {
            use_type_invariant(&*self);
            upsert_reads_back(old(self)@.entries, product@);
        }
        let mut keys: Vec<Sku> = Vec::new();
        std::mem::swap(&mut keys, &mut self.recent_keys);
        keys.push(product.sku.clone());
        self.recent_keys = keys;
        let mut entries: Vec<Product> = Vec::new();
        std::mem::swap(&mut entries, &mut self.entries);
        upsert_product(&mut entries, product);
        self.entries = entries;
        assert(self@.recent_keys =~= old(self)@.recent_keys.push(product.sku@));
    }

    /// Takes one unit of `sku` out of the cached stock.
    pub fn decrement_cached_stock(&mut self, sku: &Sku)
        requires
            lookup(old(self)@.entries, sku@) matches Some(p) && p.stock >= 1,
        ensures
            final(self)@.entries == with_stock(
                old(self)@.entries,
                sku@,
                (lookup(old(self)@.entries, sku@)->0.stock - 1) as u32,
            ),
            final(self)@.recent_keys == old(self)@.recent_keys,
            unique_skus(final(self)@.entries),
            lookup(final(self)@.entries, sku@) == Some(
                ProductView {
                    stock: (lookup(old(self)@.entries, sku@)->0.stock - 1) as u32,
                    ..lookup(old(self)@.entries, sku@)->0
                },
            ),
            forall|s: Seq<char>|
                s != sku@ ==> #[trigger] lookup(final(self)@.entries, s) == lookup(
                    old(self)@.entries,
                    s,
                ),
    {
        proof {
            use_type_invariant(&*self);
            stock_change_reads_back(
                old(self)@.entries,
                sku@,
                (lookup(old(self)@.entries, sku@)->0.stock - 1) as u32,
            );
        }
        let mut entries: Vec<Product> = Vec::new();
        std::mem::swap(&mut entries, &mut self.entries);
        let ghost before = views(entries@);
        let i = find_sku(&entries, sku).unwrap();
        let stock = entries[i].stock;
        set_stock_at(&mut entries, i, stock - 1);
        proof {
            lemma_same_units(before, views(entries@));
        }
        self.entries = entries;
    }

    /// Renames the cached entry of `sku` to "renamed".
    pub fn rename_shared_product(&mut self, sku: &Sku)
        requires
            lookup(old(self)@.entries, sku@) is Some,
        ensures
            final(self)@.entries == with_name(old(self)@.entries, sku@, "renamed"@),
            final(self)@.recent_keys == old(self)@.recent_keys,
            unique_skus(final(self)@.entries),
    {
        proof {
            use_type_invariant(&*self);
        }
        let mut entries: Vec<Product> = Vec::new();
        std::mem::swap(&mut entries, &mut self.entries);
        let ghost before = views(entries@);
        let i = find_sku(&entries, sku).unwrap();
        let mut renamed = entries[i].clone();
        renamed.name = owned("renamed");
        entries.set(i, renamed);
        assert(views(entries@) =~= with_name(before, sku@, "renamed"@));
        proof {
            lemma_same_units(before, views(entries@));
        }
        self.entries = entries;
    }

    /// Drops every recent unit that has no cached entry, keeping the others
    /// in order, and gives back the newest recent unit.
    pub fn compact_recent(&mut self) -> (r: Sku)
        requires
            old(self)@.recent_keys.len() > 0,
        ensures
            final(self)@.recent_keys == old(self)@.recent_keys.filter(
                |k: Seq<char>| has_sku(old(self)@.entries, k),
            ),
            final(self)@.entries == old(self)@.entries,
            unique_skus(final(self)@.entries),
            r@ == old(self)@.recent_keys.last(),
    {
        proof {
            use_type_invariant(&*self);
        }
        let ghost table = self@.entries;
        let ghost keys_view = self@.recent_keys;
        let ghost keep = |k: Seq<char>| has_sku(table, k);
        let newest = self.recent_keys[self.recent_keys.len() - 1].clone();
        let mut kept: Vec<Sku> = Vec::new();
        let mut i: usize = 0;
        assert(keys_view.take(0) =~= Seq::<Seq<char>>::empty());
        proof {
            reveal(Seq::filter);
        }
        while i < self.recent_keys.len()
            invariant
                i <= self.recent_keys.len(),
                table == views(self.entries@),
                unique_skus(table),
                keys_view == self.recent_keys@.map_values(|s: Sku| s@),
                keep == (|k: Seq<char>| has_sku(table, k)),
                kept@.map_values(|s: Sku| s@) == keys_view.take(i as int).filter(keep),
            decreases self.recent_keys.len() - i,
        {
            let listed = find_sku(&self.entries, &self.recent_keys[i]);
            proof {
                reveal(Seq::filter);
                assert(keys_view.take(i + 1).drop_last() =~= keys_view.take(i as int));
                assert(keys_view.take(i + 1).last() == self.recent_keys@[i as int]@);
            }
            if listed.is_some() {
                kept.push(self.recent_keys[i].clone());
                assert(kept@.map_values(|s: Sku| s@) =~= keys_view.take(i as int).filter(keep).push(
                    self.recent_keys@[i as int]@,
                ));
            }
            i += 1;
        }
        assert(keys_view.take(self.recent_keys.len() as int) =~= keys_view);
        self.recent_keys = kept;
        newest
    }

    /// Takes the cached entry of `sku` out and gives back the name it had;
    /// the recent units stay as they were.
    pub fn evict_while_viewed(&mut self, sku: &Sku) -> (r: String)
        requires
            lookup(old(self)@.entries, sku@) is Some,
        ensures
            final(self)@.entries == without_sku(old(self)@.entries, sku@),
            final(self)@.recent_keys == old(self)@.recent_keys,
            unique_skus(final(self)@.entries),
            lookup(final(self)@.entries, sku@) is None,
            forall|s: Seq<char>|
                s != sku@ ==> #[trigger] lookup(final(self)@.entries, s) == lookup(
                    old(self)@.entries,
                    s,
                ),
            r@ == lookup(old(self)@.entries, sku@)->0.name,
    {
        proof {
            use_type_invariant(&*self);
            removal_reads_back(old(self)@.entries, sku@);
        }
        let mut entries: Vec<Product> = Vec::new();
        std::mem::swap(&mut entries, &mut self.entries);
        let removed = remove_sku(&mut entries, sku);
        self.entries = entries;
        match removed {
            Some(p) => p.name,
            None => String::new(),
        }
    }

    /// Records the most recent unit in the first place as well.
    pub fn overwrite_recent_ends(&mut self)
        requires
            old(self)@.recent_keys.len() > 0,
        ensures
            final(self)@.recent_keys == old(self)@.recent_keys.update(
                0,
                old(self)@.recent_keys.last(),
            ),
            final(self)@.entries == old(self)@.entries,
            unique_skus(final(self)@.entries),
    {
        proof {
            use_type_invariant(&*self);
        }
        let mut keys: Vec<Sku> = Vec::new();
        std::mem::swap(&mut keys, &mut self.recent_keys);
        let last = keys[keys.len() - 1].clone();
        keys.set(0, last);
        self.recent_keys = keys;
        assert(self@.recent_keys =~= old(self)@.recent_keys.update(
            0,
            old(self)@.recent_keys.last(),
        ));
    }
}

} // verus!
