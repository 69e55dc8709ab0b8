//! Everything this library takes from other crates and from `std` without a
//! proof: the declared types and the contracts of the calls made on them.

pub mod headers;
pub mod runtime;
pub mod time;
pub mod transport;
pub mod values;
