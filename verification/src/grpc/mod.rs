//! gRPC services that every server offers.
pub mod health;
