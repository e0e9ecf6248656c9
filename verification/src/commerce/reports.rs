//! Plain-text reports on customers and orders.
use vstd::prelude::*;

use crate::commerce::domain::{lines_total, totals_fit, Customer, Order};
use crate::text::{concat3, signed_decimal, signed_decimal_string};

verus! {

/// `name <email>`.
pub open spec fn summary_text(name: Seq<char>, email: Seq<char>) -> Seq<char> {
    name + " <"@ + email + ">"@
}

/// `id: name <email>; total=cents`.
pub open spec fn order_text(order: Order) -> Seq<char> {
    order.id@ + ": "@ + summary_text(order.customer.name@, order.customer.email@) + "; total="@
        + signed_decimal(lines_total(order.lines@))
}

pub fn customer_summary(customer: Customer) -> (r: String)
    ensures
        r@ == summary_text(customer.name@, customer.email@),
{
    let mut r = concat3(customer.name.as_str(), " <", customer.email.as_str());
    r.append(">");
    r
}

/// The one-line report of an order.
pub fn render_order(order: Order) -> (r: String)
    requires
        totals_fit(order.lines@),
    ensures
        r@ == order_text(order),
{
    render_order_ref(&order)
}

/// The report of an order in its text and its HTML rendering, which are the same line.
pub fn render_two_formats(order: Order) -> (r: (String, String))
    requires
        totals_fit(order.lines@),
    ensures
        r.0@ == order_text(order),
        r.1@ == order_text(order),
{
    let text = render_order_ref(&order);
    let html = render_order_ref(&order);
    (text, html)
}

fn render_order_ref(order: &Order) -> (r: String)
    requires
        totals_fit(order.lines@),
    ensures
        r@ == order_text(*order),
{
    let total = signed_decimal_string(order.total().cents());
    let mut r = concat3(order.id.as_str(), ": ", order.customer.name.as_str());
    r.append(" <");
    r.append(order.customer.email.as_str());
    r.append(">");
    r.append("; total=");
    r.append(total.as_str());
    assert(r@ =~= order_text(*order));
    r
}

} // verus!
