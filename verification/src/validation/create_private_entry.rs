//! The rule for a key meta, a private entry: key indexes count up by one
//! within an app binding.
use vstd::prelude::*;
use crate::outcome::{Reason, Verdict};
use crate::types::KeyMeta;

verus! {

/// The key index that a new key meta must have: one more than the previous
/// key meta's of the same app (wrapping in a `u32`), or 0 for the first.
pub open spec fn expected_key_index(prev_key_meta: Option<KeyMeta>) -> u32 {
    match prev_key_meta {
        Some(prev) => if prev.key_index == u32::MAX { 0 } else { (prev.key_index + 1) as u32 },
        None => 0,
    }
}

/// Validates the key index of a new key meta against the previous key meta
/// of the same app.
pub fn validation(key_meta: &KeyMeta, prev_key_meta: Option<&KeyMeta>) -> (r: Verdict)
    ensures
        ({
            let expected = expected_key_index(match prev_key_meta { Some(p) => Some(*p), None => None });
            if key_meta.key_index == expected {
                r == Verdict::Valid
            } else {
                r == Verdict::Invalid(Reason::KeyMetaWrongIndex { expected })
            }
        }),
{
    let expected = match prev_key_meta {
        Some(prev) => prev.key_index.wrapping_add(1),
        None => 0,
    };
    if key_meta.key_index != expected {
        Verdict::Invalid(Reason::KeyMetaWrongIndex { expected })
    } else {
        Verdict::Valid
    }
}

} // verus!
