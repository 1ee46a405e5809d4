//! The calls this library makes into outside crates and into parts of std that
//! vstd does not specify. Each `external_body` function here is trusted:
//! Verus believes its contract and does not read its body. The decimal
//! numerals in `encoding` are written and read by verified code.
pub mod ids;
pub mod encoding;
pub mod web;
pub mod crypto;
