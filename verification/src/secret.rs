//! Per-machine confidentiality: the key pair's lifecycle and the sealing and
//! opening of content.

pub mod cipher;
pub mod keys;
