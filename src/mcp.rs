//! The protocol layer: message types and the request dispatcher.

pub mod error_codes;
pub mod methods;
pub mod protocol;
pub mod handlers;
