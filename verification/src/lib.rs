//! Wire types and trading rules of the Architect API: symbology, orderflow,
//! marketdata and the decimal tick arithmetic they rely on.

pub mod decimal;
pub mod error;
pub mod external;
pub mod folio;
pub mod grpc;
pub mod ids;
pub mod marketdata;
pub mod misc;
pub mod numfmt;
pub mod oms;
pub mod orderflow;
pub mod orderflow_v2;
pub mod qf;
pub mod dir;
pub mod strings;
pub mod symbology;
pub mod symbology_v2;
pub mod time;
pub mod typed_message;

pub use decimal::Decimal;
pub use dir::Dir;
