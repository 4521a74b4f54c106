//! The second version of the symbology: products, tradable pairs, venues
//! and series, and the updates that keep a copy of them in step.

pub mod event_contract_series;
pub mod marketdata_info;
pub mod metadata;
pub mod product;
pub mod protocol;
pub mod tradable_product;
pub mod venue;
