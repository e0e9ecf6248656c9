//! The shop's starting catalog and a first order to try it with.
use vstd::prelude::*;

use crate::commerce::catalog::Catalog;
use crate::commerce::domain::{
    line_total, lines_total, totals_fit, Address, Customer, Money, Order, OrderLine, Product, ProductView, Sku,
};
use crate::commerce::inventory::{has_sku, table_of, upsert, views};

verus! {

/// Two products: the Rust book, 25 in stock at $39.99, and the Ferris plush
/// toy, 10 in stock at $24.99.
pub fn seed_catalog() -> (r: Catalog)
    ensures
        r@.products == seq![
            ProductView {
                sku: "RUST-BOOK"@,
                name: "The Rust Programming Language"@,
                price: 3999,
                stock: 25,
            },
            ProductView { sku: "FERRIS-PLUSH"@, name: "Ferris plush toy"@, price: 2499, stock: 10 },
        ],
        r@.featured == seq!["RUST-BOOK"@, "FERRIS-PLUSH"@],
{
    let book = Product::new(
        Sku::new("RUST-BOOK"),
        "The Rust Programming Language",
        Money::usd(3999),
        25,
    );
    let plush = Product::new(Sku::new("FERRIS-PLUSH"), "Ferris plush toy", Money::usd(2499), 10);
    let ghost first = book@;
    let ghost second = plush@;
    let mut products: Vec<Product> = Vec::new();
    products.push(book);
    products.push(plush);
    let ghost input = views(products@);
    assert(input =~= seq![first, second]);
    let r = Catalog::new(products);
    proof {
        reveal_strlit("RUST-BOOK");
        reveal_strlit("FERRIS-PLUSH");
        assert(input.drop_last() =~= seq![first]);
        assert(seq![first].drop_last() =~= Seq::<ProductView>::empty());
        assert(table_of(Seq::<ProductView>::empty()) == Seq::<ProductView>::empty());
        assert(seq![first].last() == first);
        assert(input.last() == second);
        assert(table_of(seq![first]) == upsert(Seq::<ProductView>::empty(), first));
        assert(!has_sku(Seq::<ProductView>::empty(), first.sku));
        assert(upsert(Seq::<ProductView>::empty(), first) =~= seq![first]);
        assert(first.sku == "RUST-BOOK"@ && second.sku == "FERRIS-PLUSH"@);
        assert(first.sku.len() != second.sku.len());
        assert(!has_sku(seq![first], second.sku));
        assert(table_of(input) =~= seq![first, second]);
        assert(r@.featured =~= seq!["RUST-BOOK"@, "FERRIS-PLUSH"@]);
    }
    r
}

/// Ada Lovelace's order of one Rust book and two Ferris plush toys.
pub fn sample_order() -> (r: Order)
    ensures
        r.id@ == "ORDER-2026-0001"@,
        r.customer.id == 101,
        r.customer.name@ == "Ada Lovelace"@,
        r.customer.email@ == "ada@example.test"@,
        r.customer.shipping_address.street@ == "12 Analytical Engine Way"@,
        r.customer.shipping_address.city@ == "London"@,
        r.customer.shipping_address.postal_code@ == "SW1A 1AA"@,
        r.lines.len() == 2,
        r.lines[0].sku@ == "RUST-BOOK"@,
        r.lines[0].quantity == 1,
        r.lines[0].unit_price@ == 3999,
        r.lines[1].sku@ == "FERRIS-PLUSH"@,
        r.lines[1].quantity == 2,
        r.lines[1].unit_price@ == 2499,
        r.notes@ == Seq::<char>::empty(),
        totals_fit(r.lines@),
        lines_total(r.lines@) == 8997,
{
    let customer = Customer::new(
        101,
        "Ada Lovelace",
        "ada@example.test",
        Address::new("12 Analytical Engine Way", "London", "SW1A 1AA"),
    );
    let mut lines: Vec<OrderLine> = Vec::new();
    lines.push(OrderLine::new(Sku::new("RUST-BOOK"), 1, Money::usd(3999)));
    lines.push(OrderLine::new(Sku::new("FERRIS-PLUSH"), 2, Money::usd(2499)));
    let r = Order::new("ORDER-2026-0001", customer, lines);
    proof {
        let s = r.lines@;
        assert(s.take(0) =~= Seq::<OrderLine>::empty());
        assert(s.take(1).drop_last() =~= s.take(0));
        assert(s.take(2).drop_last() =~= s.take(1));
        assert(s.take(2) =~= s);
        assert(s.take(1).last() == s[0]);
        assert(s.take(2).last() == s[1]);
        assert(lines_total(s.take(0)) == 0);
        assert(line_total(s[0]) == 3999);
        assert(line_total(s[1]) == 4998);
        assert(lines_total(s.take(1)) == 3999);
        assert(lines_total(s) == 8997);
        assert forall|k: int| 0 <= k <= s.len() implies #[trigger] crate::commerce::domain::fits_cents(
            lines_total(s.take(k)),
        ) by {
            if k == 0 {
            } else if k == 1 {
            } else {
            }
        }
    }
    r
}

} // verus!
