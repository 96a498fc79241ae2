//! One delivery order: destination and cargo facts, and the lifecycle
//! state machine `Created -> Assigned -> InTransit -> Delivered`, with
//! `Failed` reachable from any state. Each forward transition guards on
//! the exact predecessor state and leaves the order unchanged when it
//! rejects.

use vstd::prelude::*;

use crate::text::{spec_decimal, u32_to_decimal};
use crate::traits::{Identifiable, Loggable};

verus! {

/// The closed set of lifecycle states.
#[derive(Debug, PartialEq)]
pub enum OrderStatus {
    Created,
    Assigned { courier_id: u32 },
    InTransit,
    Delivered,
    Failed { reason: String },
}

/// Position of a status on the happy path; `Failed` sits outside it.
pub open spec fn status_rank(s: OrderStatus) -> int {
    match s {
        OrderStatus::Created => 0,
        OrderStatus::Assigned { .. } => 1,
        OrderStatus::InTransit => 2,
        OrderStatus::Delivered => 3,
        OrderStatus::Failed { .. } => 4,
    }
}

/// The three forward transitions of the happy path.
pub open spec fn forward_step(pre: OrderStatus, post: OrderStatus) -> bool {
    ||| (pre is Created && post is Assigned)
    ||| (pre is Assigned && post is InTransit)
    ||| (pre is InTransit && post is Delivered)
}

/// Happy-path statuses are strictly and totally ordered,
/// `Created < Assigned < InTransit < Delivered`: every forward step
/// raises the rank by exactly one, so no step can be skipped or undone.
pub proof fn lemma_forward_step_increases_rank(pre: OrderStatus, post: OrderStatus)
    requires
        forward_step(pre, post),
    ensures
        status_rank(post) == status_rank(pre) + 1,
        0 <= status_rank(pre) < 3,
{
}

/// What an order carries.
pub struct Cargo {
    pub item_type: String,
    pub weight_grams: u64,
    /// Requires a courier with the fragile-handling capability.
    pub is_fragile: bool,
}

/// An order for one delivery, created in `Created` with no cargo.
pub struct DeliveryOrder {
    pub id: u32,
    pub customer_name: String,
    /// Altitude of the delivery destination, in metres.
    pub destination_altitude: u16,
    pub status: OrderStatus,
    pub cargo: Option<Cargo>,
}

impl DeliveryOrder {
    /// Whether the attached cargo, if any, is fragile.
    pub open spec fn spec_has_fragile_cargo(self) -> bool {
        match self.cargo {
            Some(c) => c.is_fragile,
            None => false,
        }
    }

    /// The courier the order is assigned to, while it is `Assigned`.
    pub open spec fn spec_courier_id(self) -> Option<u32> {
        match self.status {
            OrderStatus::Assigned { courier_id } => Some(courier_id),
            _ => None,
        }
    }

    /// Creates an order in `Created`, without cargo.
    pub fn new(id: u32, customer_name: String, destination_altitude: u16) -> (r: Self)
        ensures
            r == (DeliveryOrder {
                id,
                customer_name,
                destination_altitude,
                status: OrderStatus::Created,
                cargo: None,
            }),
    {
        DeliveryOrder {
            id,
            customer_name,
            destination_altitude,
            status: OrderStatus::Created,
            cargo: None,
        }
    }

    /// `Created -> Assigned { courier_id }`; rejected, with no effect,
    /// from any other state.
    pub fn assign(&mut self, courier_id: u32) -> (r: bool)
        ensures
            r == (old(self).status is Created),
            r ==> *final(self) == (DeliveryOrder {
                status: OrderStatus::Assigned { courier_id },
                ..*old(self)
            }),
            r ==> forward_step(old(self).status, final(self).status),
            !r ==> *final(self) == *old(self),
    {
        if matches!(self.status, OrderStatus::Created) {
            self.status = OrderStatus::Assigned { courier_id };
            true
        } else {
            false
        }
    }

    /// `Assigned -> InTransit`; rejected, with no effect, otherwise.
    pub fn start_transit(&mut self) -> (r: bool)
        ensures
            r == (old(self).status is Assigned),
            r ==> *final(self) == (DeliveryOrder { status: OrderStatus::InTransit, ..*old(self) }),
            r ==> forward_step(old(self).status, final(self).status),
            !r ==> *final(self) == *old(self),
    {
        if matches!(self.status, OrderStatus::Assigned { .. }) {
            self.status = OrderStatus::InTransit;
            true
        } else {
            false
        }
    }

    /// `InTransit -> Delivered`; rejected, with no effect, otherwise.
    pub fn complete(&mut self) -> (r: bool)
        ensures
            r == (old(self).status is InTransit),
            r ==> *final(self) == (DeliveryOrder { status: OrderStatus::Delivered, ..*old(self) }),
            r ==> forward_step(old(self).status, final(self).status),
            !r ==> *final(self) == *old(self),
    {
        if matches!(self.status, OrderStatus::InTransit) {
            self.status = OrderStatus::Delivered;
            true
        } else {
            false
        }
    }

    /// Attaches (or replaces) cargo; permitted only while `Created`.
    pub fn add_cargo(&mut self, cargo: Cargo) -> (r: bool)
        ensures
            r == (old(self).status is Created),
            r ==> *final(self) == (DeliveryOrder { cargo: Some(cargo), ..*old(self) }),
            !r ==> *final(self) == *old(self),
    {
        if matches!(self.status, OrderStatus::Created) {
            self.cargo = Some(cargo);
            true
        } else {
            false
        }
    }

    pub fn has_fragile_cargo(&self) -> (r: bool)
        ensures
            r == self.spec_has_fragile_cargo(),
    {
        match &self.cargo {
            Some(cargo) => cargo.is_fragile,
            None => false,
        }
    }

    /// Marks the order failed, from any state, unconditionally.
    pub fn fail(&mut self, reason: String)
        ensures
            *final(self) == (DeliveryOrder {
                status: OrderStatus::Failed { reason },
                ..*old(self)
            }),
    {
        self.status = OrderStatus::Failed { reason };
    }

    pub fn get_courier_id(&self) -> (r: Option<u32>)
        ensures
            r == self.spec_courier_id(),
    {
        match &self.status {
            OrderStatus::Assigned { courier_id } => Some(*courier_id),
            _ => None,
        }
    }

    /// The exact characters of the human-readable status rendering.
    pub open spec fn spec_status_description(self) -> Seq<char> {
        match self.status {
            OrderStatus::Created => "Создан"@,
            OrderStatus::Assigned { courier_id } => "Назначен курьеру "@ + spec_decimal(
                courier_id as nat,
            ),
            OrderStatus::InTransit => "В пути"@,
            OrderStatus::Delivered => "Доставлен"@,
            OrderStatus::Failed { reason } => "Провален: "@ + reason@,
        }
    }

    /// Renders the current state for display.
    pub fn status_description(&self) -> (r: String)
        ensures
            r@ == self.spec_status_description(),
    {
        match &self.status {
            OrderStatus::Created => String::from_str("Создан"),
            OrderStatus::Assigned { courier_id } => {
                let mut s = String::from_str("Назначен курьеру ");
                s.append(u32_to_decimal(*courier_id).as_str());
                s
            },
            OrderStatus::InTransit => String::from_str("В пути"),
            OrderStatus::Delivered => String::from_str("Доставлен"),
            OrderStatus::Failed { reason } => {
                let mut s = String::from_str("Провален: ");
                s.append(reason.as_str());
                s
            },
        }
    }

    pub fn status(&self) -> (r: &OrderStatus)
        ensures
            r == &self.status,
    {
        &self.status
    }

    pub fn destination_altitude(&self) -> (r: u16)
        ensures
            r == self.destination_altitude,
    {
        self.destination_altitude
    }
}

impl Identifiable for DeliveryOrder {
    open spec fn spec_id(&self) -> u32 {
        self.id
    }

    fn id(&self) -> (r: u32)
        ensures
            r == self.spec_id(),
    {
        self.id
    }
}

impl Loggable for DeliveryOrder {
    open spec fn spec_log_line(&self) -> Seq<char> {
        "ORDER["@ + spec_decimal(self.id as nat) + "] "@ + self.spec_status_description()
    }

    fn log_info(&self) -> (r: String)
        ensures
            r@ == self.spec_log_line(),
    {
        let mut s = String::from_str("ORDER[");
        s.append(u32_to_decimal(self.id).as_str());
        s.append("] ");
        s.append(self.status_description().as_str());
        proof {
            assert(s@ =~= self.spec_log_line());
        }
        s
    }
}

} // verus!
