//! Orderflow: orders, their ids and types, modifications, and the
//! permissions and allocations around them.
pub mod account;
pub mod algo;
pub mod cancel;
pub mod fill;
pub mod modify;
pub mod order;
pub mod order_id;
pub mod order_id_authority;
pub mod order_types;
