//! A typed client for the Zebedee Lightning payments API.
//!
//! The library builds the requests of each endpoint, hands them to an HTTP
//! executor supplied by the caller, and classifies what comes back: a decoded
//! success envelope, or an error that says where the exchange failed.

pub mod client;
pub mod envelope;



pub mod keysend;
pub mod payments;
