//! NTRIP client library: sentence encoding, request headers, the emission
//! schedule and the decisions of the duplex connection.

pub mod client;
pub mod codec;
pub mod duplex;
pub mod error;
pub mod request;
pub mod schedule;
pub mod sentence;

pub use error::Error;
