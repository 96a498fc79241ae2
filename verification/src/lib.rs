//! Assignment of delivery orders to couriers in an altitude-constrained
//! setting: each courier has a maximum altitude and a fragile-cargo
//! capability, each order a destination altitude and a fixed lifecycle
//! (`Created` -> `Assigned` -> `InTransit` -> `Delivered`, with `Failed`
//! reachable from anywhere). The `Dispatch` coordinator owns both entity
//! collections and performs the validated, all-or-nothing assignment.

pub mod courier;
pub mod dispatch;
pub mod error;
pub mod order;
pub mod text;
pub mod traits;
pub mod utils;
