//! Shipments of orders.
use vstd::prelude::*;

use crate::commerce::domain::{Address, Order};

verus! {

/// An order on its way to an address, with the labels on its parcel.
#[derive(Debug)]
pub struct Shipment {
    pub order_id: String,
    pub destination: Address,
    pub labels: Vec<String>,
}

/// A shipment of `order` to its customer's shipping address, with the
/// standard label.
pub fn create_shipment(order: Order) -> (r: Shipment)
    ensures
        r.order_id@ == order.id@,
        r.destination == order.customer.shipping_address,
        r.labels@.len() == 1,
        r.labels@[0]@ == "standard"@,
{
    Shipment {
        order_id: order.id,
        destination: order.customer.shipping_address,
        labels: vec![String::from_str("standard")],
    }
}

} // verus!
