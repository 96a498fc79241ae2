//! One delivery agent: capability and availability state, plus the
//! eligibility predicate the coordinator checks before an assignment.

use vstd::prelude::*;

use crate::text::{bool_to_str, spec_bool_str, spec_decimal, u32_to_decimal};
use crate::traits::{Identifiable, Loggable};

verus! {

/// A courier starts at the base camp (altitude 0), available, and is
/// repositioned to an order's destination altitude when assigned.
pub struct Courier {
    pub id: u32,
    pub name: String,
    /// Where the courier currently is; 0 means the base camp.
    pub current_altitude: u16,
    /// The highest destination altitude the courier can reach.
    pub max_altitude: u16,
    pub is_available: bool,
    pub can_handle_fragile: bool,
}

impl Courier {
    /// An available courier sits at the base camp.
    pub open spec fn wf(self) -> bool {
        self.is_available ==> self.current_altitude == 0
    }

    /// Eligibility: available, high enough a ceiling, and able to take
    /// fragile cargo if the order carries any.
    pub open spec fn spec_can_deliver_to(self, altitude: u16, order_has_fragile: bool) -> bool {
        &&& self.is_available
        &&& altitude <= self.max_altitude
        &&& !order_has_fragile || self.can_handle_fragile
    }

    /// Creates a courier at the base camp, available.
    pub fn new(id: u32, name: String, max_altitude: u16, can_handle_fragile: bool) -> (r: Self)
        ensures
            r == (Courier {
                id,
                name,
                current_altitude: 0,
                max_altitude,
                is_available: true,
                can_handle_fragile,
            }),
            r.wf(),
    {
        Courier { id, name, current_altitude: 0, max_altitude, is_available: true, can_handle_fragile }
    }

    /// Pure eligibility query; no side effect.
    pub fn can_deliver_to(&self, altitude: u16, order_has_fragile: bool) -> (r: bool)
        ensures
            r == self.spec_can_deliver_to(altitude, order_has_fragile),
    {
        self.is_available && altitude <= self.max_altitude && (!order_has_fragile
            || self.can_handle_fragile)
    }

    /// Moves the courier to the order's destination and marks it busy.
    /// Trusts its caller to have checked eligibility first: it performs
    /// no validation and always succeeds.
    pub fn assign_to_order(&mut self, order_altitude: u16) -> (r: bool)
        ensures
            r,
            *final(self) == (Courier {
                current_altitude: order_altitude,
                is_available: false,
                ..*old(self)
            }),
            final(self).wf(),
    {
        self.current_altitude = order_altitude;
        self.is_available = false;
        true
    }

    /// Returns the courier to the base camp, available. Callable at any
    /// time; it does not check that the courier was mid-delivery.
    pub fn complete_delivery(&mut self)
        ensures
            *final(self) == (Courier { current_altitude: 0, is_available: true, ..*old(self) }),
            final(self).wf(),
    {
        self.current_altitude = 0;
        self.is_available = true;
    }

    pub fn get_is_available(&self) -> (r: bool)
        ensures
            r == self.is_available,
    {
        self.is_available
    }

    pub fn get_max_altitude(&self) -> (r: u16)
        ensures
            r == self.max_altitude,
    {
        self.max_altitude
    }

    pub fn get_can_handle_fragile(&self) -> (r: bool)
        ensures
            r == self.can_handle_fragile,
    {
        self.can_handle_fragile
    }

    pub fn get_name(&self) -> (r: &String)
        ensures
            r == &self.name,
    {
        &self.name
    }
}

impl Identifiable for Courier {
    open spec fn spec_id(&self) -> u32 {
        self.id
    }

    fn id(&self) -> (r: u32)
        ensures
            r == self.spec_id(),
    {
        self.id
    }
}

impl Loggable for Courier {
    open spec fn spec_log_line(&self) -> Seq<char> {
        "COURIER["@ + spec_decimal(self.id as nat) + "] "@ + self.name@ + " (max_alt: "@
            + spec_decimal(self.max_altitude as nat) + ", available: "@
            + spec_bool_str(self.is_available) + ")"@
    }

    fn log_info(&self) -> (r: String)
        ensures
            r@ == self.spec_log_line(),
    {
        let mut s = String::from_str("COURIER[");
        s.append(u32_to_decimal(self.id).as_str());
        s.append("] ");
        s.append(self.name.as_str());
        s.append(" (max_alt: ");
        s.append(u32_to_decimal(self.max_altitude as u32).as_str());
        s.append(", available: ");
        s.append(bool_to_str(self.is_available));
        s.append(")");
        proof {
            assert(s@ =~= self.spec_log_line());
        }
        s
    }
}

} // verus!
