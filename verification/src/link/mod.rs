//! Requests on links.

pub mod property_del;

pub use property_del::LinkDelPropRequest;
