//! Value types with a plain, fixed set of fields that mirror std's IPv6
//! socket address and `String`, with lossless conversions in both
//! directions and scoped views of the string as a `String`.

pub mod ipv6;
pub mod order;
pub mod socket;
pub mod sstring;
