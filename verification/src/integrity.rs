//! The integrity zome's validation rules, organised by
//! entry: change rules under a keyset root, key registrations made from a
//! generator, key anchors, and the joining proof, together with the
//! `ValidateData` package and the op dispatch.
pub mod entry;
pub mod error;
pub mod record;
pub mod change_rule;
pub mod key_registration;
pub mod key_anchor;
pub mod init;
pub mod validate;
