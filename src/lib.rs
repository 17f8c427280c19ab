//! Geolocation of IP addresses through public web services.
//!
//! Each service answers with a JSON document of its own shape; this crate
//! reads the answer of any of them into one record, [`Locator`]. Sending the
//! request is left to a transport that the caller hands in.

pub mod address;
pub mod error;
pub mod json;
pub mod locator;
pub mod request;
pub mod service;

pub use address::{IpAddress, Ipv4Address, Ipv6Address};
pub use error::GeoError;
pub use json::{JsonDocument, JsonKind, Member};
pub use locator::{adapt, extract, read_field, Field, Locator, Members};
pub use request::{Reply, Request};
pub use service::{Backend, FieldKind, Service};
