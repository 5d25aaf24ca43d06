//! Verified core of a receipt-scanning web service: image sniffing, session
//! and user bookkeeping over repository ports, configuration parsing,
//! cookie attributes and the HTTP error mapping.

pub mod adapters;
pub mod application;
pub mod codec;
pub mod config;
pub mod domain;
pub mod text;
