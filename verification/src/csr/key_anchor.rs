//! Key anchors and lineages: the anchor action of a key, and the keys that
//! replaced one another from the first registration of an app's key on.
use vstd::prelude::*;
use crate::bytes::bytes_eq;
use crate::csr::error::CsrError;
use crate::csr::key_meta::{first_for_anchor, metas_for_binding, query_key_meta_for_key, query_key_metas_for_app_binding};
use crate::types::{KeyAnchor, KeyMeta, RawHash};

verus! {

/// The position of the first key anchor record whose entry hash is `hash`.
pub open spec fn first_anchor_with_hash(anchors: Seq<(RawHash, Option<RawHash>)>, hash: Seq<u8>, i: int) -> bool {
    &&& 0 <= i < anchors.len()
    &&& anchors[i].1 matches Some(h) && h@ == hash
    &&& forall|j: int| 0 <= j < i ==> !((#[trigger] anchors[j]).1 matches Some(h) && h@ == hash)
}

/// The action address of the first key anchor record (action address,
/// entry hash) whose entry hash is the anchor hash of the key.
pub fn query_action_addr_for_key_anchor<'a>(anchors: &'a Vec<(RawHash, Option<RawHash>)>, key_anchor_hash: &RawHash) -> (r: Result<&'a RawHash, CsrError>)
    ensures
        match r {
            Ok(a) => exists|i: int| first_anchor_with_hash(anchors@, key_anchor_hash@, i) && *a == anchors@[i].0,
            Err(e) => e == CsrError::NoKeyAnchorForHash
                && forall|i: int| 0 <= i < anchors@.len() ==> !((#[trigger] anchors@[i]).1 matches Some(h) && h@ == key_anchor_hash@),
        },
{
    let mut i: usize = 0;
    while i < anchors.len()
        invariant
            i <= anchors@.len(),
            forall|j: int| 0 <= j < i ==> !((#[trigger] anchors@[j]).1 matches Some(h) && h@ == key_anchor_hash@),
        decreases anchors@.len() - i,
    {
        let found = match &anchors[i].1 {
            Some(h) => bytes_eq(h, key_anchor_hash),
            None => false,
        };
        if found {
            assert(first_anchor_with_hash(anchors@, key_anchor_hash@, i as int));
            return Ok(&anchors[i].0);
        }
        i = i + 1;
    }
    Err(CsrError::NoKeyAnchorForHash)
}

/// The key metas of a key's lineage, by the action that committed its
/// anchor: the metas of the app binding that the key's meta names, in
/// chain order.  Their anchors hold the lineage's keys.
pub fn query_key_lineage(metas: Vec<KeyMeta>, anchor_addr: &RawHash) -> (r: Result<Vec<KeyMeta>, CsrError>)
    ensures
        match r {
            Ok(lineage) => exists|i: int| first_for_anchor(metas@, anchor_addr@, i)
                && lineage@ == metas_for_binding(metas@, metas@[i].app_binding_addr@),
            Err(e) => e == CsrError::NoKeyMetaForAnchor
                && forall|i: int| 0 <= i < metas@.len() ==> (#[trigger] metas@[i]).key_anchor_addr@ != anchor_addr@,
        },
{
    let binding_addr = match query_key_meta_for_key(&metas, anchor_addr) {
        Ok(m) => crate::bytes::clone_bytes(&m.app_binding_addr),
        Err(e) => {
            return Err(e);
        },
    };
    Ok(query_key_metas_for_app_binding(metas, &binding_addr))
}

/// What the host reports of a key anchor entry for its lineage.
pub enum LineageDetails {
    /// Record details, which an anchor entry never has.
    Record,
    /// The creates and updates of the anchor entry, by action address.
    Entry { actions: Vec<RawHash>, updates: Vec<RawHash> },
}

/// Where the lineage of a key starts: the first create of its anchor,
/// which its history is traced back from, and the first update, which the
/// evolutions are followed forward from.
pub fn lineage_start(details: Option<LineageDetails>) -> (r: Result<(RawHash, Option<RawHash>), CsrError>)
    ensures
        details is None ==> r == Err::<(RawHash, Option<RawHash>), CsrError>(CsrError::RecordNotFound),
        details matches Some(LineageDetails::Record) ==> r == Err::<(RawHash, Option<RawHash>), CsrError>(CsrError::UnexpectedDetails),
        details matches Some(LineageDetails::Entry { actions, updates }) ==> {
            if actions@.len() == 0 {
                r == Err::<(RawHash, Option<RawHash>), CsrError>(CsrError::NoAnchorActions)
            } else {
                r matches Ok((creation, next)) && creation == actions@[0]
                    && next == (if updates@.len() > 0 { Some(updates@[0]) } else { None::<RawHash> })
            }
        },
{
    match details {
        None => Err(CsrError::RecordNotFound),
        Some(LineageDetails::Record) => Err(CsrError::UnexpectedDetails),
        Some(LineageDetails::Entry { actions, updates }) => {
            let mut actions = actions;
            let mut updates = updates;
            if actions.len() == 0 {
                return Err(CsrError::NoAnchorActions);
            }
            let creation = actions.swap_remove(0);
            let next = if updates.len() > 0 {
                Some(updates.swap_remove(0))
            } else {
                None
            };
            Ok((creation, next))
        },
    }
}

/// What the host gives for one record along a key's lineage: its entry as
/// a key anchor, when it holds one, and the address to read next (the
/// anchor it updates when tracing back, its first update when following
/// forward), if there is one.
pub struct LineageRecord {
    pub anchor: Option<KeyAnchor>,
    pub next: Option<RawHash>,
}

/// One step of tracing a key's lineage, between two reads of the host: the
/// record's anchor key is appended to the keys found so far, and the
/// address to read next is returned (none ends the trace).  A record that
/// holds no key anchor stops the trace with `NotAKeyAnchor`, and the keys
/// stay as they were.
pub fn lineage_step(keys: &mut Vec<Vec<u8>>, record: LineageRecord) -> (r: Result<Option<RawHash>, CsrError>)
    ensures
        match record.anchor {
            None => r == Err::<Option<RawHash>, CsrError>(CsrError::NotAKeyAnchor) && final(keys)@ == old(keys)@,
            Some(a) => r == Ok::<Option<RawHash>, CsrError>(record.next) && final(keys)@ == old(keys)@.push(a.bytes),
        },
{
    match record.anchor {
        None => Err(CsrError::NotAKeyAnchor),
        Some(a) => {
            keys.push(a.bytes);
            Ok(record.next)
        },
    }
}

/// The lineage of a key from the keys along its history (from the key
/// back to the first) and the keys of its evolutions (forward, in order):
/// the history reversed, then the evolutions.
pub fn assemble_lineage(history: Vec<Vec<u8>>, evolutions: Vec<Vec<u8>>) -> (r: Vec<Vec<u8>>)
    ensures
        r@ == history@.reverse() + evolutions@,
{
    let ghost h = history@;
    let mut rest = history;
    let mut lineage: Vec<Vec<u8>> = Vec::new();
    while rest.len() > 0
        invariant
            lineage@ == h.subrange(rest@.len() as int, h.len() as int).reverse(),
            rest@ == h.subrange(0, rest@.len() as int),
            rest@.len() <= h.len(),
        decreases rest@.len(),
    {
        let k = rest.pop().unwrap();
        lineage.push(k);
        assert(lineage@ =~= h.subrange(rest@.len() as int, h.len() as int).reverse());
        assert(rest@ =~= h.subrange(0, rest@.len() as int));
    }
    assert(h.subrange(0, h.len() as int) =~= h);
    let mut forward = evolutions;
    lineage.append(&mut forward);
    lineage
}

/// Whether a lineage holds a key.
pub open spec fn lineage_holds(lineage: Seq<Vec<u8>>, key: Seq<u8>) -> bool {
    exists|i: int| 0 <= i < lineage.len() && (#[trigger] lineage[i])@ == key
}

fn lineage_contains(lineage: &Vec<Vec<u8>>, key: &Vec<u8>) -> (r: bool)
    ensures
        r == lineage_holds(lineage@, key@),
{
    let mut i: usize = 0;
    while i < lineage.len()
        invariant
            i <= lineage@.len(),
            forall|j: int| 0 <= j < i ==> (#[trigger] lineage@[j])@ != key@,
        decreases lineage@.len() - i,
    {
        if bytes_eq(&lineage[i], key) {
            return true;
        }
        i = i + 1;
    }
    false
}

/// Whether a key belongs to the lineage traced from another key.
pub fn same_lineage(lineage: &Vec<Vec<u8>>, key: &Vec<u8>) -> (r: bool)
    ensures
        r == lineage_holds(lineage@, key@),
{
    lineage_contains(lineage, key)
}

/// Whether a key belongs to the lineage that the chain's key metas give
/// another key.
pub fn query_same_lineage(lineage: &Vec<Vec<u8>>, key: &Vec<u8>) -> (r: bool)
    ensures
        r == lineage_holds(lineage@, key@),
{
    lineage_contains(lineage, key)
}

} // verus!
