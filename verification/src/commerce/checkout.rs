//! Checkout: prices orders and records the ones that were completed.
use vstd::prelude::*;

use crate::commerce::catalog::Catalog;
use crate::commerce::domain::{lines_total, totals_fit, Money, Order};

verus! {

/// A checkout working against a catalog it borrows for as long as it runs.
pub struct CheckoutService<'catalog> {
    catalog: &'catalog mut Catalog,
    completed_orders: Vec<String>,
}

impl<'catalog> CheckoutService<'catalog> {
    /// A checkout with no completed orders yet.
    pub fn new(catalog: &'catalog mut Catalog) -> (r: Self)
        ensures
            r.completed() == Seq::<Seq<char>>::empty(),
    {
        let r = Self { catalog, completed_orders: Vec::new() };
        assert(r.completed() =~= Seq::<Seq<char>>::empty());
        r
    }

    /// The ids of the completed orders, oldest first.
    pub closed spec fn completed(&self) -> Seq<Seq<char>> {
        self.completed_orders@.map_values(|s: String| s@)
    }

    /// What `order` would cost.
    pub fn preview(&self, order: &Order) -> (r: Money)
        requires
            totals_fit(order.lines@),
        ensures
            r@ == lines_total(order.lines@),
    {
        order.total()
    }

    /// Completes `order`, recording its id.
    pub fn complete(&mut self, order: Order)
        ensures
            final(self).completed() == old(self).completed().push(order.id@),
    {
        let ghost before = self.completed();
        self.completed_orders.push(order.id);
        assert(self.completed() =~= before.push(order.id@));
    }

    /// Prices `order` before handing it over to review.
    pub fn archive_then_total(&self, order: Order) -> (r: Money)
        requires
            totals_fit(order.lines@),
        ensures
            r@ == lines_total(order.lines@),
    {
        order.total()
    }

    /// Prices `order` after its customer has been taken out of it.
    pub fn detach_customer_then_price(&self, order: Order) -> (r: Money)
        requires
            totals_fit(order.lines@),
        ensures
            r@ == lines_total(order.lines@),
    {
        let total = order.total();
        let _customer = order.customer;
        total
    }
}

} // verus!
