//! The two closed error taxonomies of the dispatch protocol.

use vstd::prelude::*;

verus! {

/// Why a requested order-to-courier assignment was rejected.
#[derive(Clone, Copy, Debug, PartialEq, Eq, Structural)]
pub enum AssignmentError {
    OrderNotCreated,
    CourierNotFound,
    CourierUnavailable,
    AltitudeTooHigh,
    FragileCargoNotSupported,
    OrderNotFound,
}

/// Why a lifecycle step (start of transit, completion) was rejected.
#[derive(Clone, Copy, Debug, PartialEq, Eq, Structural)]
pub enum DeliveryError {
    OrderNotFound,
    OrderNotInTransit,
    OrderNotAssigned,
}

} // verus!
