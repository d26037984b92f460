//! The Linux control-plane protocol: request layout, address encoding,
//! kernel backend model, and the interface handle built on them.

pub mod address;
pub mod backend;
pub mod fake;
pub mod interface;
pub mod params;
pub mod request;
