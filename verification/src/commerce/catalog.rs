//! The shop's catalog: one entry per stock-keeping unit, and the units to
//! feature, in the order the products were listed.
use vstd::prelude::*;

use crate::commerce::domain::{fits_cents, Money, Product, ProductView, Sku};
use crate::commerce::inventory::{
    find_sku, has_sku, lemma_index_of_entry, lookup, removal_reads_back, remove_sku,
    set_stock_at, sku_index, stock_change_reads_back, table_of, unique_skus, upsert_product,
    views, with_stock, without_sku,
};

verus! {

/// What a catalog holds: its entries and its featured units.
pub struct CatalogView {
    pub products: Seq<ProductView>,
    pub featured: Seq<Seq<char>>,
}

pub struct Catalog {
    products: Vec<Product>,
    featured: Vec<Sku>,
}

impl View for Catalog {
    type V = CatalogView;

    closed spec fn view(&self) -> CatalogView {
        CatalogView {
            products: views(self.products@),
            featured: self.featured@.map_values(|s: Sku| s@),
        }
    }
}

impl Catalog {
    #[verifier::type_invariant]
    spec fn entries_distinct(self) -> bool {
        unique_skus(views(self.products@))
    }

    /// A catalog of `products`: every listed unit is featured in order, and a
    /// later product with a unit already listed replaces the earlier entry.
    pub fn new(products: Vec<Product>) -> (r: Self)
        ensures
            r@.products == table_of(views(products@)),
            r@.featured == products@.map_values(|p: Product| p.sku@),
            unique_skus(r@.products),
    {
        let ghost input = views(products@);
        let mut table: Vec<Product> = Vec::new();
        let mut featured: Vec<Sku> = Vec::new();
        let mut i: usize = 0;
        assert(input.take(0) =~= Seq::<ProductView>::empty());
        while i < products.len()
            invariant
                i <= products.len(),
                input == views(products@),
                views(table@) == table_of(input.take(i as int)),
                unique_skus(views(table@)),
                featured@.map_values(|s: Sku| s@) =~= products@.take(i as int).map_values(
                    |p: Product| p.sku@,
                ),
            decreases products.len() - i,
        {
            assert(input.take(i + 1).drop_last() =~= input.take(i as int));
            assert(input.take(i + 1).last() == products@[i as int]@);
            featured.push(products[i].sku.clone());
            upsert_product(&mut table, products[i].clone());
            i += 1;
            assert(products@.take(i as int).map_values(|p: Product| p.sku@) =~= products@.take(
                i - 1,
            ).map_values(|p: Product| p.sku@).push(products@[i - 1].sku@));
        }
        assert(input.take(products.len() as int) =~= input);
        assert(products@.take(products.len() as int) =~= products@);
        Self { products: table, featured }
    }

    /// The entry filed under `sku`.
    pub fn get(&self, sku: &Sku) -> (r: Option<&Product>)
        ensures
            r matches Some(p) ==> lookup(self@.products, sku@) == Some(p@),
            r is None ==> lookup(self@.products, sku@) is None,
            unique_skus(self@.products),
    {
        proof {
            use_type_invariant(self);
        }
        match find_sku(&self.products, sku) {
            Some(i) => Some(&self.products[i]),
            None => None,
        }
    }

    /// Takes `quantity` units of `sku` out of stock, when the catalog lists it
    /// with at least that many; says whether it did.
    pub fn reserve(&mut self, sku: &Sku, quantity: u32) -> (r: bool)
        ensures
            r == (lookup(old(self)@.products, sku@) matches Some(p) && p.stock >= quantity),
            final(self)@.products == if r {
                with_stock(
                    old(self)@.products,
                    sku@,
                    (lookup(old(self)@.products, sku@)->0.stock - quantity) as u32,
                )
            } else {
                old(self)@.products
            },
            final(self)@.featured == old(self)@.featured,
            final(self)@.products == reserve_table(old(self)@.products, sku@, quantity),
            unique_skus(final(self)@.products),
            r ==> lookup(final(self)@.products, sku@) == Some(
                ProductView {
                    stock: (lookup(old(self)@.products, sku@)->0.stock - quantity) as u32,
                    ..lookup(old(self)@.products, sku@)->0
                },
            ),
            forall|s: Seq<char>|
                s != sku@ ==> #[trigger] lookup(final(self)@.products, s) == lookup(
                    old(self)@.products,
                    s,
                ),
    {
        proof {
            use_type_invariant(&*self);
        }
        let Some(i) = find_sku(&self.products, sku) else {
            return false;
        };
        let stock = self.products[i].stock;
        if stock < quantity {
            return false;
        }
        let mut table: Vec<Product> = Vec::new();
        std::mem::swap(&mut table, &mut self.products);
        let ghost before = views(table@);
        set_stock_at(&mut table, i, stock - quantity);
        proof {
            lemma_same_units(before, views(table@));
            stock_change_reads_back(before, sku@, (stock - quantity) as u32);
        }
        self.products = table;
        true
    }

    /// Quotes `quantity` units of `sku` at its listed price and reserves them
    /// when enough are in stock; `None` when the catalog does not list `sku`.
    pub fn quote_and_reserve(&mut self, sku: &Sku, quantity: u32) -> (r: Option<Money>)
        requires
            lookup(old(self)@.products, sku@) matches Some(p) ==> fits_cents(p.price * quantity),
        ensures
            match lookup(old(self)@.products, sku@) {
                None => r is None && final(self)@ == old(self)@,
                Some(p) => {
                    &&& r matches Some(m) && m@ == p.price * quantity
                    &&& final(self)@.products == if p.stock >= quantity {
                        with_stock(old(self)@.products, sku@, (p.stock - quantity) as u32)
                    } else {
                        old(self)@.products
                    }
                    &&& final(self)@.featured == old(self)@.featured
                },
            },
            unique_skus(final(self)@.products),
    {
        let price = match self.get(sku) {
            Some(product) => product.price,
            None => return None,
        };
        self.reserve(sku, quantity);
        Some(price.times(quantity))
    }

    /// Moves `quantity` units of stock from the entry `from` to the entry `to`.
    pub fn transfer_stock(&mut self, from: &Sku, to: &Sku, quantity: u32)
        requires
            lookup(old(self)@.products, from@) matches Some(p) && p.stock >= quantity,
            lookup(old(self)@.products, to@) is Some,
            from@ != to@ ==> lookup(old(self)@.products, to@)->0.stock + quantity <= u32::MAX,
        ensures
            ({
                let mid = with_stock(
                    old(self)@.products,
                    from@,
                    (lookup(old(self)@.products, from@)->0.stock - quantity) as u32,
                );
                final(self)@.products == with_stock(
                    mid,
                    to@,
                    (lookup(mid, to@)->0.stock + quantity) as u32,
                )
            }),
            final(self)@.featured == old(self)@.featured,
            unique_skus(final(self)@.products),
            from@ != to@ ==> lookup(final(self)@.products, from@) == Some(
                ProductView {
                    stock: (lookup(old(self)@.products, from@)->0.stock - quantity) as u32,
                    ..lookup(old(self)@.products, from@)->0
                },
            ),
            from@ != to@ ==> lookup(final(self)@.products, to@) == Some(
                ProductView {
                    stock: (lookup(old(self)@.products, to@)->0.stock + quantity) as u32,
                    ..lookup(old(self)@.products, to@)->0
                },
            ),
            from@ == to@ ==> final(self)@.products == old(self)@.products,
            forall|s: Seq<char>|
                s != from@ && s != to@ ==> #[trigger] lookup(final(self)@.products, s) == lookup(
                    old(self)@.products,
                    s,
                ),
    {
        proof {
            use_type_invariant(&*self);
        }
        let mut table: Vec<Product> = Vec::new();
        std::mem::swap(&mut table, &mut self.products);
        let ghost t0 = views(table@);
        let source = find_sku(&table, from).unwrap();
        let source_stock = table[source].stock;
        set_stock_at(&mut table, source, source_stock - quantity);
        let ghost t1 = views(table@);
        proof {
            lemma_same_units(t0, t1);
            lemma_index_of_entry(t1, source as int);
        }
        let destination = find_sku(&table, to).unwrap();
        let destination_stock = table[destination].stock;
        proof {
            if from@ == to@ {
                assert(destination == source);
            } else {
                assert(t1[destination as int] == t0[destination as int]);
                lemma_index_of_entry(t0, destination as int);
            }
        }
        set_stock_at(&mut table, destination, destination_stock + quantity);
        proof {
            lemma_same_units(t1, views(table@));
            stock_change_reads_back(t0, from@, (source_stock - quantity) as u32);
            stock_change_reads_back(t1, to@, (destination_stock + quantity) as u32);
            if from@ == to@ {
                assert(views(table@) =~= t0);
            }
        }
        self.products = table;
    }

    /// Features the first featured unit once more, at the end, and gives
    /// that unit back.
    pub fn duplicate_first_feature(&mut self) -> (r: Sku)
        requires
            old(self)@.featured.len() > 0,
        ensures
            final(self)@.featured == old(self)@.featured.push(old(self)@.featured[0]),
            final(self)@.products == old(self)@.products,
            unique_skus(final(self)@.products),
            r@ == old(self)@.featured[0],
    {
        proof {
            use_type_invariant(&*self);
        }
        let first = self.featured[0].clone();
        let mut featured: Vec<Sku> = Vec::new();
        std::mem::swap(&mut featured, &mut self.featured);
        featured.push(first.clone());
        self.featured = featured;
        assert(self.featured@.map_values(|s: Sku| s@) =~= old(self)@.featured.push(
            old(self)@.featured[0],
        ));
        first
    }

    /// Takes the entry of `sku` out of the catalog and gives back the name
    /// it had; the featured units stay as they were.
    pub fn evict_while_reporting(&mut self, sku: &Sku) -> (r: String)
        requires
            lookup(old(self)@.products, sku@) is Some,
        ensures
            final(self)@.products == without_sku(old(self)@.products, sku@),
            final(self)@.featured == old(self)@.featured,
            unique_skus(final(self)@.products),
            lookup(final(self)@.products, sku@) is None,
            forall|s: Seq<char>|
                s != sku@ ==> #[trigger] lookup(final(self)@.products, s) == lookup(
                    old(self)@.products,
                    s,
                ),
            r@ == lookup(old(self)@.products, sku@)->0.name,
    {
        proof {
            use_type_invariant(&*self);
            removal_reads_back(old(self)@.products, sku@);
        }
        let mut table: Vec<Product> = Vec::new();
        std::mem::swap(&mut table, &mut self.products);
        let removed = remove_sku(&mut table, sku);
        self.products = table;
        match removed {
            Some(p) => p.name,
            None => String::new(),
        }
    }

    /// Features the last unit in the first place as well.
    pub fn rename_feature_ends(&mut self)
        requires
            old(self)@.featured.len() > 0,
        ensures
            final(self)@.featured == old(self)@.featured.update(0, old(self)@.featured.last()),
            final(self)@.products == old(self)@.products,
            unique_skus(final(self)@.products),
    {
        proof {
            use_type_invariant(&*self);
        }
        let mut featured: Vec<Sku> = Vec::new();
        std::mem::swap(&mut featured, &mut self.featured);
        let last = featured[featured.len() - 1].clone();
        featured.set(0, last);
        self.featured = featured;
        assert(self.featured@.map_values(|s: Sku| s@) =~= old(self)@.featured.update(
            0,
            old(self)@.featured.last(),
        ));
    }
}

/// What a reservation of `quantity` units of `sku` leaves of a table: the
/// unit's stock lowered when it is listed with enough, else the table as it was.
pub open spec fn reserve_table(table: Seq<ProductView>, sku: Seq<char>, quantity: u32) -> Seq<
    ProductView,
> {
    match lookup(table, sku) {
        Some(p) => if p.stock >= quantity {
            with_stock(table, sku, (p.stock - quantity) as u32)
        } else {
            table
        },
        None => table,
    }
}

/// The table after each reservation of `steps` in turn.
pub open spec fn after_reservations(table: Seq<ProductView>, steps: Seq<(Seq<char>, u32)>) -> Seq<
    ProductView,
>
    decreases steps.len(),
{
    if steps.len() == 0 {
        table
    } else {
        let before = after_reservations(table, steps.drop_last());
        reserve_table(before, steps.last().0, steps.last().1)
    }
}

/// One more `reserve` call after a sequence of them is what the sequence
/// with that call appended gives.
pub proof fn one_more_reservation(table: Seq<ProductView>, steps: Seq<(Seq<char>, u32)>, sku: Seq<char>, quantity: u32)
    ensures
        after_reservations(table, steps.push((sku, quantity))) == reserve_table(
            after_reservations(table, steps),
            sku,
            quantity,
        ),
{
    assert(steps.push((sku, quantity)).drop_last() =~= steps);
}

/// Products with distinct units make a table of themselves.
pub proof fn lemma_table_of_distinct(products: Seq<ProductView>)
    requires
        unique_skus(products),
    ensures
        table_of(products) == products,
    decreases products.len(),
{
    if products.len() > 0 {
        let rest = products.drop_last();
        assert(unique_skus(rest)) by {
            assert forall|i: int, j: int|
                0 <= i < rest.len() && 0 <= j < rest.len() && i != j implies #[trigger] rest[i].sku
                    != #[trigger] rest[j].sku by {
                assert(rest[i] == products[i] && rest[j] == products[j]);
            }
        }
        lemma_table_of_distinct(rest);
        if has_sku(rest, products.last().sku) {
            let k = sku_index(rest, products.last().sku);
            assert(products[k].sku == products[products.len() - 1].sku);
        }
        assert(rest.push(products.last()) =~= products);
    }
}

/// The table after reservations keeps each listing: its units stay
/// distinct, it has an entry for a unit exactly when the unit was listed,
/// and the entry has the listed name and price and no more stock.
proof fn lemma_reservations_keep_listings(
    products: Seq<ProductView>,
    steps: Seq<(Seq<char>, u32)>,
    sku: Seq<char>,
)
    requires
        unique_skus(products),
    ensures
        unique_skus(after_reservations(table_of(products), steps)),
        has_sku(after_reservations(table_of(products), steps), sku) == has_sku(products, sku),
        lookup(after_reservations(table_of(products), steps), sku) matches Some(q) ==> {
            let p = lookup(products, sku)->0;
            &&& q.sku == sku
            &&& q.name == p.name
            &&& q.price == p.price
            &&& q.stock <= p.stock
        },
    decreases steps.len(),
{
    lemma_table_of_distinct(products);
    if steps.len() > 0 {
        let prefix = steps.drop_last();
        lemma_reservations_keep_listings(products, prefix, sku);
        let before = after_reservations(table_of(products), prefix);
        let (s, q) = steps.last();
        if lookup(before, s) is Some && lookup(before, s)->0.stock >= q {
            let p = lookup(before, s)->0;
            stock_change_reads_back(before, s, (p.stock - q) as u32);
            let after = with_stock(before, s, (p.stock - q) as u32);
            if sku == s {
                assert(has_sku(after, sku));
            } else {
                assert(lookup(after, sku) == lookup(before, sku));
                assert(has_sku(after, sku) == has_sku(before, sku));
            }
        }
        if lookup(before, sku) is Some {
            let k = sku_index(before, sku);
            assert(before[k].sku == sku);
        }
    } else {
        if has_sku(products, sku) {
            let k = sku_index(products, sku);
            assert(products[k].sku == sku);
        }
    }
}

/// A catalog made by `Catalog::new` from products with distinct units, then
/// put through any sequence of `reserve` calls (`steps`, each a unit and a
/// quantity), finds a unit exactly when one of the products was listed under
/// it; what it finds is filed under that unit, with that product's name and
/// price and no more stock than the product was listed with. The catalog
/// keeps no two entries under one unit throughout.
pub proof fn reservations_keep_each_listing(
    products: Seq<ProductView>,
    steps: Seq<(Seq<char>, u32)>,
    sku: Seq<char>,
)
    requires
        unique_skus(products),
    ensures
        ({
            let catalog = after_reservations(table_of(products), steps);
            &&& unique_skus(catalog)
            &&& (lookup(catalog, sku) is Some <==> exists|i: int|
                0 <= i < products.len() && #[trigger] products[i].sku == sku)
            &&& forall|i: int|
                0 <= i < products.len() && #[trigger] products[i].sku == sku ==> (lookup(catalog, sku) matches Some(q)
                    && q.sku == sku && q.name == products[i].name && q.price == products[i].price
                    && q.stock <= products[i].stock)
        }),
{
    lemma_reservations_keep_listings(products, steps, sku);
    let catalog = after_reservations(table_of(products), steps);
    assert forall|i: int|
        0 <= i < products.len() && #[trigger] products[i].sku == sku implies (lookup(catalog, sku) matches Some(q)
            && q.sku == sku && q.name == products[i].name && q.price == products[i].price
            && q.stock <= products[i].stock) by {
        lemma_index_of_entry(products, i);
    }
}

/// Two tables that file the same units at the same positions.
pub open spec fn same_units(a: Seq<ProductView>, b: Seq<ProductView>) -> bool {
    a.len() == b.len() && forall|i: int| 0 <= i < a.len() ==> #[trigger] a[i].sku == b[i].sku
}

/// Changing what entries hold, but not their units, keeps them distinct and
/// keeps every unit at its position.
pub proof fn lemma_same_units(a: Seq<ProductView>, b: Seq<ProductView>)
    requires
        unique_skus(a),
        same_units(a, b) || (a.len() == b.len() && forall|i: int|
            0 <= i < a.len() ==> #[trigger] a[i].sku == b[i].sku),
    ensures
        unique_skus(b),
        forall|s: Seq<char>| has_sku(a, s) == has_sku(b, s),
        forall|s: Seq<char>| has_sku(a, s) ==> sku_index(a, s) == sku_index(b, s),
{
    assert forall|i: int, j: int|
        0 <= i < b.len() && 0 <= j < b.len() && i != j implies #[trigger] b[i].sku
            != #[trigger] b[j].sku by {
        assert(a[i].sku == b[i].sku);
        assert(a[j].sku == b[j].sku);
    }
    assert forall|s: Seq<char>| has_sku(a, s) implies has_sku(b, s) && sku_index(a, s)
        == sku_index(b, s) by {
        let k = sku_index(a, s);
        assert(b[k].sku == s);
        lemma_index_of_entry(b, k);
    }
    assert forall|s: Seq<char>| has_sku(b, s) implies has_sku(a, s) by {
        let k = sku_index(b, s);
        assert(a[k].sku == s);
    }
}

} // verus!
