//! Durable outbox of inventory commits and the decisions of the loop that
//! drains it to a remote service.

pub mod commit;
pub mod error;
pub mod queue;
pub mod sync;
pub mod delivery;
