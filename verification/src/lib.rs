//! Verified validation rules of a decentralized public key infrastructure.
use vstd::prelude::*;

pub mod bytes;
pub mod copies;
pub mod outcome;
pub mod types;
pub mod host;
pub mod authority;
pub mod chain;
pub mod validation;
pub mod laws;
pub mod key_laws;
pub mod csr;
pub mod integrity;
pub mod link;
