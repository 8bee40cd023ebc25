//! The decisions of the coordinator zome: what it reads back from the
//! source chain and the DHT, and what it writes.
pub mod error;
pub mod key_state;
pub mod signal;
pub mod key_meta;
pub mod app_binding;
pub mod key_registration;
pub mod key_anchor;
pub mod change_rule;
pub mod keyset_root;
pub mod utils;
pub mod source_of_authority;
pub mod device_invite_acceptance;
pub mod device;
