//! The state of a key at a given time, decided from the create, update and
//! delete actions recorded for its anchor.
use vstd::prelude::*;
use crate::csr::error::CsrError;

verus! {

/// The actions recorded for a key anchor, by their timestamps (in the order
/// the host lists them).
pub enum AnchorDetails {
    /// The host answered with record details, which an anchor entry never has.
    Record,
    /// The creates, updates and deletes of the anchor entry.
    Entry { actions: Vec<i64>, updates: Vec<i64>, deletes: Vec<i64> },
}

/// Which recorded action made a key invalid.
pub enum Evidence {
    /// The delete at this position of the delete list.
    Delete(usize),
    /// The update at this position of the update list.
    Update(usize),
}

/// The state of a key at a given time.
pub enum KeyState {
    /// No action is recorded for the key's anchor.
    NotFound,
    /// The key was not valid then; the action that ended it, if any.
    Invalid(Option<Evidence>),
    /// The key was valid then, by the create at this position.
    Valid(usize),
}

/// Whether some action of a list (a delete or an update) happened strictly
/// before `t`.
pub open spec fn deleted_before(deletes: Seq<i64>, t: i64) -> bool {
    exists|i: int| 0 <= i < deletes.len() && deletes[i] < t
}

/// Whether some create happened at or before `t`.
pub open spec fn created_by(actions: Seq<i64>, t: i64) -> bool {
    exists|i: int| 0 <= i < actions.len() && actions[i] <= t
}

/// The first position of a list whose timestamp is below `t`.
pub open spec fn first_below(s: Seq<i64>, t: i64, i: int) -> bool {
    &&& 0 <= i < s.len()
    &&& s[i] < t
    &&& forall|j: int| 0 <= j < i ==> !(s[j] < t)
}

/// The first position of a list whose timestamp is at most `t`.
pub open spec fn first_at_most(s: Seq<i64>, t: i64, i: int) -> bool {
    &&& 0 <= i < s.len()
    &&& s[i] <= t
    &&& forall|j: int| 0 <= j < i ==> !(s[j] <= t)
}

fn find_first_below(s: &Vec<i64>, t: i64) -> (r: Option<usize>)
    ensures
        r matches Some(i) ==> first_below(s@, t, i as int),
        r is None ==> !deleted_before(s@, t),
{
    let mut i: usize = 0;
    while i < s.len()
        invariant
            i <= s@.len(),
            forall|j: int| 0 <= j < i ==> !(s@[j] < t),
        decreases s@.len() - i,
    {
        if s[i] < t {
            return Some(i);
        }
        i = i + 1;
    }
    None
}

fn find_first_at_most(s: &Vec<i64>, t: i64) -> (r: Option<usize>)
    ensures
        r matches Some(i) ==> first_at_most(s@, t, i as int),
        r is None ==> !created_by(s@, t),
{
    let mut i: usize = 0;
    while i < s.len()
        invariant
            i <= s@.len(),
            forall|j: int| 0 <= j < i ==> !(s@[j] <= t),
        decreases s@.len() - i,
    {
        if s[i] <= t {
            return Some(i);
        }
        i = i + 1;
    }
    None
}

/// Decides the state of a key at time `t` from its anchor's details (`None`
/// when the host knows no action for the anchor).  The key is invalid when
/// some delete of the anchor happened before `t`, or some update did (the
/// key was replaced); otherwise valid when some create happened at or
/// before `t`, and invalid when every create happened after `t`.
pub fn key_state(details: Option<AnchorDetails>, t: i64) -> (r: Result<KeyState, CsrError>)
    ensures
        details is None ==> r matches Ok(KeyState::NotFound),
        details matches Some(AnchorDetails::Record) ==> r matches Err(CsrError::UnexpectedDetails),
        details matches Some(AnchorDetails::Entry { actions, updates, deletes }) ==> {
            if deleted_before(deletes@, t) {
                r matches Ok(KeyState::Invalid(Some(Evidence::Delete(i)))) && first_below(deletes@, t, i as int)
            } else if deleted_before(updates@, t) {
                r matches Ok(KeyState::Invalid(Some(Evidence::Update(i)))) && first_below(updates@, t, i as int)
            } else if actions@.len() == 0 {
                r matches Err(CsrError::NoAnchorActions)
            } else if created_by(actions@, t) {
                r matches Ok(KeyState::Valid(i)) && first_at_most(actions@, t, i as int)
            } else {
                r matches Ok(KeyState::Invalid(None))
            }
        },
        details matches Some(AnchorDetails::Entry { actions, updates, deletes }) ==> (
            (r matches Ok(KeyState::Valid(_))) <==> (!deleted_before(deletes@, t)
                && !deleted_before(updates@, t) && created_by(actions@, t))),
{
    match details {
        None => Ok(KeyState::NotFound),
        Some(AnchorDetails::Record) => Err(CsrError::UnexpectedDetails),
        Some(AnchorDetails::Entry { actions, updates, deletes }) => {
            if let Some(i) = find_first_below(&deletes, t) {
                return Ok(KeyState::Invalid(Some(Evidence::Delete(i))));
            }
            if let Some(i) = find_first_below(&updates, t) {
                return Ok(KeyState::Invalid(Some(Evidence::Update(i))));
            }
            if actions.len() == 0 {
                return Err(CsrError::NoAnchorActions);
            }
            match find_first_at_most(&actions, t) {
                Some(i) => Ok(KeyState::Valid(i)),
                None => Ok(KeyState::Invalid(None)),
            }
        },
    }
}

} // verus!
