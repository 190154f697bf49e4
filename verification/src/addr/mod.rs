//! Requests on the addresses of an interface.

pub mod del;

pub use del::AddressDelRequest;
