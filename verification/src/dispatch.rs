//! The coordinator: owns every order and courier, looks them up by id,
//! and runs the assignment protocol and the remaining lifecycle calls.
//! Orders live in an insertion-ordered sequence; couriers are keyed by
//! id, a second registration with the same id silently overwriting the
//! first. The central `assign_order_to_courier` validates fully before
//! it mutates either entity, so a rejection leaves everything as it
//! was, and on success both mutations happen within the one call.

use vstd::prelude::*;

use crate::courier::Courier;
use crate::error::{AssignmentError, DeliveryError};
use crate::order::{DeliveryOrder, OrderStatus};
use crate::text::{spec_decimal, u32_to_decimal};
use crate::traits::Identifiable;
use crate::utils::{find_index, lemma_first_idx, lemma_first_idx_at, spec_first_idx};

verus! {

/// One report line: the order's id and its current status rendering.
pub open spec fn spec_report_line(o: DeliveryOrder) -> Seq<char> {
    "Заказ "@ + spec_decimal(o.id as nat) + ": "@ + o.spec_status_description() + "\n"@
}

/// The full report: one line per order, in insertion order.
pub open spec fn spec_report(orders: Seq<DeliveryOrder>) -> Seq<char>
    decreases orders.len(),
{
    if orders.len() == 0 {
        Seq::empty()
    } else {
        spec_report(orders.drop_last()) + spec_report_line(orders.last())
    }
}

pub struct Dispatch {
    pub orders: Vec<DeliveryOrder>,
    pub couriers: Vec<Courier>,
}

impl Dispatch {
    /// Index of the order with this id, or -1 if there is none.
    pub open spec fn order_idx(self, order_id: u32) -> int {
        spec_first_idx(self.orders@, order_id)
    }

    /// Index of the courier with this id, or -1 if there is none.
    pub open spec fn courier_idx(self, courier_id: u32) -> int {
        spec_first_idx(self.couriers@, courier_id)
    }

    /// The decision `assign_order_to_courier` makes, checks in order:
    /// missing order, wrong status, missing courier, busy courier,
    /// altitude, fragile cargo. The first failing check names the error.
    pub open spec fn spec_assign_outcome(self, order_id: u32, courier_id: u32) -> Result<
        (),
        AssignmentError,
    > {
        let oi = self.order_idx(order_id);
        let ci = self.courier_idx(courier_id);
        if oi < 0 {
            Err(AssignmentError::OrderNotFound)
        } else if !(self.orders@[oi].status is Created) {
            Err(AssignmentError::OrderNotCreated)
        } else if ci < 0 {
            Err(AssignmentError::CourierNotFound)
        } else if !self.couriers@[ci].is_available {
            Err(AssignmentError::CourierUnavailable)
        } else if self.orders@[oi].destination_altitude > self.couriers@[ci].max_altitude {
            Err(AssignmentError::AltitudeTooHigh)
        } else if self.orders@[oi].spec_has_fragile_cargo() && !self.couriers@[ci].can_handle_fragile {
            Err(AssignmentError::FragileCargoNotSupported)
        } else {
            Ok(())
        }
    }

    /// The decision `start_transit` makes.
    pub open spec fn spec_start_transit_outcome(self, order_id: u32) -> Result<(), DeliveryError> {
        let oi = self.order_idx(order_id);
        if oi < 0 {
            Err(DeliveryError::OrderNotFound)
        } else if !(self.orders@[oi].status is Assigned) {
            Err(DeliveryError::OrderNotAssigned)
        } else {
            Ok(())
        }
    }

    /// The decision `complete_delivery` makes.
    pub open spec fn spec_complete_outcome(self, order_id: u32) -> Result<(), DeliveryError> {
        let oi = self.order_idx(order_id);
        if oi < 0 {
            Err(DeliveryError::OrderNotFound)
        } else if !(self.orders@[oi].status is InTransit) {
            Err(DeliveryError::OrderNotInTransit)
        } else {
            Ok(())
        }
    }

    /// An empty coordinator.
    pub fn new() -> (r: Self)
        ensures
            r.orders@ == Seq::<DeliveryOrder>::empty(),
            r.couriers@ == Seq::<Courier>::empty(),
    {
        Dispatch { orders: Vec::new(), couriers: Vec::new() }
    }

    /// Appends an order to the ordered collection.
    pub fn add_order(&mut self, order: DeliveryOrder)
        ensures
            final(self).orders@ == old(self).orders@.push(order),
            final(self).couriers@ == old(self).couriers@,
    {
        self.orders.push(order);
    }

    /// Registers a courier under its own id; a courier already
    /// registered under that id is silently overwritten.
    pub fn register_courier(&mut self, courier: Courier)
        ensures
            final(self).orders@ == old(self).orders@,
            ({
                let i = old(self).courier_idx(courier.id);
                if i >= 0 {
                    final(self).couriers@ == old(self).couriers@.update(i, courier)
                } else {
                    final(self).couriers@ == old(self).couriers@.push(courier)
                }
            }),
    {
        match find_index(&self.couriers, courier.id) {
            Some(i) => {
                *(&mut self.couriers[i]) = courier;
            },
            None => {
                self.couriers.push(courier);
            },
        }
    }

    /// Looks an order up by id; the first match is handed back for
    /// mutation, and the rest of the coordinator is untouched.
    pub fn find_order_mut(&mut self, order_id: u32) -> (r: Option<&mut DeliveryOrder>)
        ensures
            ({
                let i = old(self).order_idx(order_id);
                &&& r.is_some() <==> i >= 0
                &&& r.is_none() ==> *final(self) == *old(self)
                &&& r.is_some() ==> {
                    &&& *r.unwrap() == old(self).orders@[i]
                    &&& final(self).orders@ == old(self).orders@.update(i, *final(r.unwrap()))
                    &&& final(self).couriers@ == old(self).couriers@
                }
            }),
    {
        match find_index(&self.orders, order_id) {
            Some(i) => Some(&mut self.orders[i]),
            None => None,
        }
    }

    /// Looks a courier up by id, as `find_order_mut` does for orders.
    pub fn find_courier_mut(&mut self, courier_id: u32) -> (r: Option<&mut Courier>)
        ensures
            ({
                let i = old(self).courier_idx(courier_id);
                &&& r.is_some() <==> i >= 0
                &&& r.is_none() ==> *final(self) == *old(self)
                &&& r.is_some() ==> {
                    &&& *r.unwrap() == old(self).couriers@[i]
                    &&& final(self).couriers@ == old(self).couriers@.update(i, *final(r.unwrap()))
                    &&& final(self).orders@ == old(self).orders@
                }
            }),
    {
        match find_index(&self.couriers, courier_id) {
            Some(i) => Some(&mut self.couriers[i]),
            None => None,
        }
    }

    /// The central protocol step: validates both entities fully, then
    /// mutates both or neither. The result equals `spec_assign_outcome`,
    /// a rejection leaves the coordinator exactly as it was, and on
    /// success the order is bound to the courier and the courier is
    /// busy at the order's destination.
    pub fn assign_order_to_courier(&mut self, order_id: u32, courier_id: u32) -> (r: Result<
        (),
        AssignmentError,
    >)
        ensures
            r == old(self).spec_assign_outcome(order_id, courier_id),
            r is Err ==> *final(self) == *old(self),
            r is Ok ==> ({
                let oi = old(self).order_idx(order_id);
                let ci = old(self).courier_idx(courier_id);
                &&& final(self).orders@ == old(self).orders@.update(oi, (DeliveryOrder {
                    status: OrderStatus::Assigned { courier_id },
                    ..old(self).orders@[oi]
                }))
                &&& final(self).couriers@ == old(self).couriers@.update(ci, (Courier {
                    current_altitude: old(self).orders@[oi].destination_altitude,
                    is_available: false,
                    ..old(self).couriers@[ci]
                }))
                &&& final(self).orders@[oi].spec_courier_id() == Some(courier_id)
                &&& final(self).couriers@[ci].is_available == false
                &&& final(self).couriers@[ci].current_altitude == old(self).orders@[oi].destination_altitude
            }),
    {
        let oi = match find_index(&self.orders, order_id) {
            Some(i) => i,
            None => {
                return Err(AssignmentError::OrderNotFound);
            },
        };
        if !matches!(&self.orders[oi].status, OrderStatus::Created) {
            return Err(AssignmentError::OrderNotCreated);
        }
        let ci = match find_index(&self.couriers, courier_id) {
            Some(i) => i,
            None => {
                return Err(AssignmentError::CourierNotFound);
            },
        };
        let has_fragile = self.orders[oi].has_fragile_cargo();
        if !self.couriers[ci].get_is_available() {
            return Err(AssignmentError::CourierUnavailable);
        }
        if self.orders[oi].destination_altitude() > self.couriers[ci].get_max_altitude() {
            return Err(AssignmentError::AltitudeTooHigh);
        }
        if has_fragile && !self.couriers[ci].get_can_handle_fragile() {
            return Err(AssignmentError::FragileCargoNotSupported);
        }
        let dest = self.orders[oi].destination_altitude();
        let order = &mut self.orders[oi];
        order.assign(courier_id);
        let courier = &mut self.couriers[ci];
        courier.assign_to_order(dest);
        Ok(())
    }

    /// Moves an assigned order into transit; the result equals
    /// `spec_start_transit_outcome` and a rejection changes nothing.
    pub fn start_transit(&mut self, order_id: u32) -> (r: Result<(), DeliveryError>)
        ensures
            r == old(self).spec_start_transit_outcome(order_id),
            r is Err ==> *final(self) == *old(self),
            r is Ok ==> ({
                let oi = old(self).order_idx(order_id);
                &&& final(self).orders@ == old(self).orders@.update(oi, (DeliveryOrder {
                    status: OrderStatus::InTransit,
                    ..old(self).orders@[oi]
                }))
                &&& final(self).couriers@ == old(self).couriers@
            }),
    {
        let oi = match find_index(&self.orders, order_id) {
            Some(i) => i,
            None => {
                return Err(DeliveryError::OrderNotFound);
            },
        };
        if !matches!(&self.orders[oi].status, OrderStatus::Assigned { .. }) {
            return Err(DeliveryError::OrderNotAssigned);
        }
        let order = &mut self.orders[oi];
        order.start_transit();
        Ok(())
    }

    /// Completes a delivery that is in transit; the result equals
    /// `spec_complete_outcome` and a rejection changes nothing. Only
    /// the order is touched: the courier is not returned to the base
    /// camp by this call, so availability cycling needs an explicit
    /// `Courier::complete_delivery` from the caller.
    pub fn complete_delivery(&mut self, order_id: u32) -> (r: Result<(), DeliveryError>)
        ensures
            r == old(self).spec_complete_outcome(order_id),
            r is Err ==> *final(self) == *old(self),
            r is Ok ==> ({
                let oi = old(self).order_idx(order_id);
                &&& final(self).orders@ == old(self).orders@.update(oi, (DeliveryOrder {
                    status: OrderStatus::Delivered,
                    ..old(self).orders@[oi]
                }))
                &&& final(self).couriers@ == old(self).couriers@
            }),
    {
        let oi = match find_index(&self.orders, order_id) {
            Some(i) => i,
            None => {
                return Err(DeliveryError::OrderNotFound);
            },
        };
        if !matches!(&self.orders[oi].status, OrderStatus::InTransit) {
            return Err(DeliveryError::OrderNotInTransit);
        }
        let order = &mut self.orders[oi];
        order.complete();
        Ok(())
    }

    /// Renders one line per order, in insertion order.
    pub fn generate_report(&self) -> (r: String)
        ensures
            r@ == spec_report(self.orders@),
    {
        let mut result = String::new();
        let mut k: usize = 0;
        while k < self.orders.len()
            invariant
                k <= self.orders@.len(),
                result@ == spec_report(self.orders@.take(k as int)),
            decreases self.orders@.len() - k,
        {
            let o = &self.orders[k];
            result.append("Заказ ");
            result.append(u32_to_decimal(o.id).as_str());
            result.append(": ");
            result.append(o.status_description().as_str());
            result.append("\n");
            proof {
                let pre = self.orders@.take(k as int);
                let cur = self.orders@.take(k as int + 1);
                assert(cur.drop_last() =~= pre);
                assert(cur.last() == self.orders@[k as int]);
                assert(result@ =~= spec_report(cur));
            }
            k += 1;
        }
        proof {
            assert(self.orders@.take(self.orders@.len() as int) =~= self.orders@);
        }
        result
    }
}

/// A delivery cannot be completed twice: once `complete_delivery` has
/// succeeded, the order is `Delivered`, and a repeated call on the
/// resulting state returns `OrderNotInTransit`.
pub proof fn lemma_complete_delivery_twice(pre: Dispatch, post: Dispatch, order_id: u32)
    requires
        pre.spec_complete_outcome(order_id) is Ok,
        post.orders@ == pre.orders@.update(pre.order_idx(order_id), (DeliveryOrder {
            status: OrderStatus::Delivered,
            ..pre.orders@[pre.order_idx(order_id)]
        })),
    ensures
        post.spec_complete_outcome(order_id) == Err::<(), DeliveryError>(
            DeliveryError::OrderNotInTransit,
        ),
{
    let oi = pre.order_idx(order_id);
    lemma_first_idx(pre.orders@, order_id);
    assert(post.orders@[oi].spec_id() == order_id);
    assert(forall|j: int| 0 <= j < oi ==> post.orders@[j].spec_id() != order_id);
    lemma_first_idx_at(post.orders@, order_id, oi);
    assert(!(post.orders@[oi].status is InTransit));
}

} // verus!
