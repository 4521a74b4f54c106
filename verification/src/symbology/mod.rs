//! Symbology: the names of products, tradable pairs, venues and series,
//! and the rules for prices on a venue.

pub mod execution_info;
pub mod tick_ladder;
pub mod tick_bands;
pub mod cficode;
pub mod product;
pub mod protocol;
pub mod tradable_product;
pub mod venue;
pub mod cpty;
pub mod route;
pub mod market;
pub mod event_contract_series;
pub mod options_series;
pub mod product_catalog;
