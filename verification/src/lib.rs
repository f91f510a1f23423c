//! Sealed attribute envelopes: a signed token of attributes inside an encrypted token, and the
//! keyed configuration that binds each cryptographic operation to an algorithm family.
pub mod claims;
pub mod config;
pub mod crypto;
pub mod der;
pub mod frame;
pub mod idcomm;
pub mod json;
pub mod jwe;
pub mod keys;
pub mod layers;
pub mod pem;
pub mod service;
