//! The shop's value types: stock-keeping units, money in cents, customers,
//! products and orders.
use vstd::prelude::*;

use crate::text::{owned, str_eq};

verus! {

/// A stock-keeping unit: the text a product is filed under.
#[derive(Debug)]
pub struct Sku(pub String);

impl View for Sku {
    type V = Seq<char>;

    open spec fn view(&self) -> Seq<char> {
        self.0@
    }
}

impl Clone for Sku {
    fn clone(&self) -> (r: Self)
        ensures
            r@ == self@,
    {
        Sku(self.0.clone())
    }
}

impl Sku {
    pub fn new(value: &str) -> (r: Self)
        ensures
            r@ == value@,
    {
        Sku(owned(value))
    }

    /// Whether both name the same unit.
    pub fn same_as(&self, other: &Sku) -> (r: bool)
        ensures
            r == (self@ == other@),
    {
        str_eq(self.0.as_str(), other.0.as_str())
    }

    /// The unit's text.
    pub fn to_string(&self) -> (r: String)
        ensures
            r@ == self@,
    {
        self.0.clone()
    }
}

/// An amount of US dollars, counted in cents.
#[derive(Clone, Copy, Debug, PartialEq, Eq, Structural)]
pub struct Money {
    cents: i64,
}

impl View for Money {
    type V = int;

    closed spec fn view(&self) -> int {
        self.cents as int
    }
}

/// Whether an amount of cents can be held.
pub open spec fn fits_cents(c: int) -> bool {
    i64::MIN <= c <= i64::MAX
}

impl Money {
    pub fn usd(cents: i64) -> (r: Self)
        ensures
            r@ == cents as int,
    {
        Self { cents }
    }

    pub fn zero() -> (r: Self)
        ensures
            r@ == 0,
    {
        Self { cents: 0 }
    }

    pub fn cents(self) -> (r: i64)
        ensures
            r as int == self@,
    {
        self.cents
    }

    /// The amount `quantity` times over.
    pub fn times(self, quantity: u32) -> (r: Self)
        requires
            fits_cents(self@ * quantity),
        ensures
            r@ == self@ * quantity,
    {
        Self::usd(self.cents * (quantity as i64))
    }

    /// The sum of two amounts.
    pub fn plus(self, other: Self) -> (r: Self)
        requires
            fits_cents(self@ + other@),
        ensures
            r@ == self@ + other@,
    {
        Self::usd(self.cents + other.cents)
    }
}

/// Where an order is shipped.
#[derive(Clone, Debug)]
pub struct Address {
    pub street: String,
    pub city: String,
    pub postal_code: String,
}

impl Address {
    pub fn new(street: &str, city: &str, postal_code: &str) -> (r: Self)
        ensures
            r.street@ == street@,
            r.city@ == city@,
            r.postal_code@ == postal_code@,
    {
        Self { street: owned(street), city: owned(city), postal_code: owned(postal_code) }
    }
}

/// Someone who places orders.
#[derive(Clone, Debug)]
pub struct Customer {
    pub id: u64,
    pub name: String,
    pub email: String,
    pub shipping_address: Address,
}

impl Customer {
    pub fn new(id: u64, name: &str, email: &str, shipping_address: Address) -> (r: Self)
        ensures
            r.id == id,
            r.name@ == name@,
            r.email@ == email@,
            r.shipping_address == shipping_address,
    {
        Self { id, name: owned(name), email: owned(email), shipping_address }
    }
}

/// What the catalog records of a product.
pub struct ProductView {
    pub sku: Seq<char>,
    pub name: Seq<char>,
    pub price: int,
    pub stock: u32,
}

/// Something the shop sells, with the units left in stock.
#[derive(Debug)]
pub struct Product {
    pub sku: Sku,
    pub name: String,
    pub price: Money,
    pub stock: u32,
}

impl View for Product {
    type V = ProductView;

    open spec fn view(&self) -> ProductView {
        ProductView { sku: self.sku@, name: self.name@, price: self.price@, stock: self.stock }
    }
}

impl Clone for Product {
    fn clone(&self) -> (r: Self)
        ensures
            r@ == self@,
    {
        Product {
            sku: self.sku.clone(),
            name: self.name.clone(),
            price: self.price,
            stock: self.stock,
        }
    }
}

impl Product {
    pub fn new(sku: Sku, name: &str, price: Money, stock: u32) -> (r: Self)
        ensures
            r@ == (ProductView { sku: sku@, name: name@, price: price@, stock }),
    {
        Self { sku, name: owned(name), price, stock }
    }
}

/// One product on an order, with how many units and at what price.
#[derive(Debug)]
pub struct OrderLine {
    pub sku: Sku,
    pub quantity: u32,
    pub unit_price: Money,
}

impl Clone for OrderLine {
    fn clone(&self) -> (r: Self)
        ensures
            r.sku@ == self.sku@,
            r.quantity == self.quantity,
            r.unit_price == self.unit_price,
    {
        OrderLine { sku: self.sku.clone(), quantity: self.quantity, unit_price: self.unit_price }
    }
}

/// The price of a line: its unit price times its quantity.
pub open spec fn line_total(line: OrderLine) -> int {
    line.unit_price@ * line.quantity
}

/// The sum of the line prices.
pub open spec fn lines_total(lines: Seq<OrderLine>) -> int
    decreases lines.len(),
{
    if lines.len() == 0 {
        0
    } else {
        lines_total(lines.drop_last()) + line_total(lines.last())
    }
}

/// Every line price, and every running total over the lines, can be held.
pub open spec fn totals_fit(lines: Seq<OrderLine>) -> bool {
    &&& forall|i: int| 0 <= i < lines.len() ==> fits_cents(#[trigger] line_total(lines[i]))
    &&& forall|k: int| 0 <= k <= lines.len() ==> fits_cents(#[trigger] lines_total(lines.take(k)))
}

impl OrderLine {
    pub fn new(sku: Sku, quantity: u32, unit_price: Money) -> (r: Self)
        ensures
            r.sku@ == sku@,
            r.quantity == quantity,
            r.unit_price == unit_price,
    {
        Self { sku, quantity, unit_price }
    }

    pub fn total(&self) -> (r: Money)
        requires
            fits_cents(line_total(*self)),
        ensures
            r@ == line_total(*self),
    {
        self.unit_price.times(self.quantity)
    }
}

/// A customer's order and its lines.
#[derive(Debug)]
pub struct Order {
    pub id: String,
    pub customer: Customer,
    pub lines: Vec<OrderLine>,
    pub notes: String,
}

impl Order {
    /// A new order, with no notes yet.
    pub fn new(id: &str, customer: Customer, lines: Vec<OrderLine>) -> (r: Self)
        ensures
            r.id@ == id@,
            r.customer == customer,
            r.lines@ == lines@,
            r.notes@ == Seq::<char>::empty(),
    {
        Self { id: owned(id), customer, lines, notes: String::new() }
    }

    /// The sum of the line prices.
    pub fn total(&self) -> (r: Money)
        requires
            totals_fit(self.lines@),
        ensures
            r@ == lines_total(self.lines@),
    {
        let mut total = Money::zero();
        let mut i: usize = 0;
        assert(self.lines@.take(0) =~= Seq::<OrderLine>::empty());
        while i < self.lines.len()
            invariant
                i <= self.lines.len(),
                totals_fit(self.lines@),
                total@ == lines_total(self.lines@.take(i as int)),
            decreases self.lines.len() - i,
        {
            let line = &self.lines[i];
            assert(self.lines@.take(i + 1).drop_last() =~= self.lines@.take(i as int));
            assert(self.lines@.take(i + 1).last() == self.lines@[i as int]);
            assert(fits_cents(line_total(self.lines@[i as int])));
            assert(fits_cents(lines_total(self.lines@.take(i + 1))));
            total = total.plus(line.total());
            i += 1;
        }
        assert(self.lines@.take(self.lines.len() as int) =~= self.lines@);
        total
    }
}

} // verus!
