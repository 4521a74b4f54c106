//! External plugin wire protocol.  Designed with cross-language,
//! multi-encoding in mind.
pub mod marketdata;
pub mod symbology;
pub mod symbology_v2;

use vstd::prelude::*;

verus! {

/// The header every protocol message starts with: its type.
#[derive(Debug, Clone, Copy)]
pub struct ProtocolMessageHeader<'a> {
    pub message_type: &'a str,
}

/// A query: a method, an id to match the response to, and parameters.
#[derive(Debug, Clone)]
pub struct ProtocolQueryMessage<T> {
    pub method: String,
    pub id: u64,
    pub params: Option<T>,
}

/// A response to the query with the same id: a result or an error.
#[derive(Debug, Clone)]
pub struct ProtocolResponseMessage<T> {
    pub id: u64,
    pub result: Option<T>,
    pub error: Option<ProtocolError>,
}

#[derive(Debug, Clone)]
pub struct ProtocolError {
    pub code: i64,
    pub message: String,
}

} // verus!
