//! The key metas of the chain: which app binding, registration and anchor
//! each registered key belongs to.
use vstd::prelude::*;
use crate::bytes::bytes_eq;
use crate::csr::error::CsrError;
use crate::types::{AppBinding, KeyMeta, RawHash};

verus! {

/// The entries that decode, in chain order.
pub open spec fn decoded<T>(records: Seq<Option<T>>) -> Seq<T>
    decreases records.len(),
{
    if records.len() == 0 {
        Seq::empty()
    } else {
        match records.last() {
            Some(x) => decoded(records.drop_last()).push(x),
            None => decoded(records.drop_last()),
        }
    }
}

/// Keeps the entries that decode, in chain order.
pub fn query_key_metas(records: Vec<Option<KeyMeta>>) -> (r: Vec<KeyMeta>)
    ensures
        r@ == decoded(records@),
{
    let ghost items = records@;
    let mut rest = records;
    let mut out: Vec<KeyMeta> = Vec::new();
    let mut i: usize = 0;
    let n = rest.len();
    while rest.len() > 0
        invariant
            items.len() == n,
            i + rest@.len() == n,
            rest@ == items.subrange(i as int, n as int),
            out@ == decoded(items.subrange(0, i as int)),
        decreases rest@.len(),
    {
        assert(items.subrange(0, i as int + 1).drop_last() =~= items.subrange(0, i as int));
        let m = rest.remove(0);
        if let Some(meta) = m {
            out.push(meta);
        }
        i = i + 1;
        assert(rest@ =~= items.subrange(i as int, n as int));
    }
    assert(items.subrange(0, n as int) =~= items);
    out
}

/// The key metas that belong to an app binding, in chain order.
pub open spec fn metas_for_binding(metas: Seq<KeyMeta>, addr: Seq<u8>) -> Seq<KeyMeta>
    decreases metas.len(),
{
    if metas.len() == 0 {
        Seq::empty()
    } else if metas.last().app_binding_addr@ == addr {
        metas_for_binding(metas.drop_last(), addr).push(metas.last())
    } else {
        metas_for_binding(metas.drop_last(), addr)
    }
}

/// The key metas of the app binding committed at `addr`.
pub fn query_key_metas_for_app_binding(metas: Vec<KeyMeta>, addr: &RawHash) -> (r: Vec<KeyMeta>)
    ensures
        r@ == metas_for_binding(metas@, addr@),
{
    let ghost items = metas@;
    let mut rest = metas;
    let mut out: Vec<KeyMeta> = Vec::new();
    let mut i: usize = 0;
    let n = rest.len();
    while rest.len() > 0
        invariant
            items.len() == n,
            i + rest@.len() == n,
            rest@ == items.subrange(i as int, n as int),
            out@ == metas_for_binding(items.subrange(0, i as int), addr@),
        decreases rest@.len(),
    {
        assert(items.subrange(0, i as int + 1).drop_last() =~= items.subrange(0, i as int));
        let meta = rest.remove(0);
        if bytes_eq(&meta.app_binding_addr, addr) {
            out.push(meta);
        }
        i = i + 1;
        assert(rest@ =~= items.subrange(i as int, n as int));
    }
    assert(items.subrange(0, n as int) =~= items);
    out
}

/// The position of the first key meta whose anchor action is `addr`.
pub open spec fn first_for_anchor(metas: Seq<KeyMeta>, addr: Seq<u8>, i: int) -> bool {
    &&& 0 <= i < metas.len()
    &&& metas[i].key_anchor_addr@ == addr
    &&& forall|j: int| 0 <= j < i ==> metas[j].key_anchor_addr@ != addr
}

/// The first key meta whose key anchor was committed at `anchor_addr`.
pub fn query_key_meta_for_key<'a>(metas: &'a Vec<KeyMeta>, anchor_addr: &RawHash) -> (r: Result<&'a KeyMeta, CsrError>)
    ensures
        match r {
            Ok(m) => exists|i: int| first_for_anchor(metas@, anchor_addr@, i) && *m == metas@[i],
            Err(e) => e == CsrError::NoKeyMetaForAnchor
                && forall|i: int| 0 <= i < metas@.len() ==> (#[trigger] metas@[i]).key_anchor_addr@ != anchor_addr@,
        },
{
    let mut i: usize = 0;
    while i < metas.len()
        invariant
            i <= metas@.len(),
            forall|j: int| 0 <= j < i ==> (#[trigger] metas@[j]).key_anchor_addr@ != anchor_addr@,
        decreases metas@.len() - i,
    {
        if bytes_eq(&metas[i].key_anchor_addr, anchor_addr) {
            assert(first_for_anchor(metas@, anchor_addr@, i as int));
            return Ok(&metas[i]);
        }
        i = i + 1;
    }
    Err(CsrError::NoKeyMetaForAnchor)
}

/// The position of the first key meta whose registration action is `addr`.
pub open spec fn first_for_registration(metas: Seq<KeyMeta>, addr: Seq<u8>, i: int) -> bool {
    &&& 0 <= i < metas.len()
    &&& metas[i].key_registration_addr@ == addr
    &&& forall|j: int| 0 <= j < i ==> metas[j].key_registration_addr@ != addr
}

/// The first key meta whose key registration was committed at `key_reg_addr`.
pub fn query_key_meta_for_registration<'a>(metas: &'a Vec<KeyMeta>, key_reg_addr: &RawHash) -> (r: Result<&'a KeyMeta, CsrError>)
    ensures
        match r {
            Ok(m) => exists|i: int| first_for_registration(metas@, key_reg_addr@, i) && *m == metas@[i],
            Err(e) => e == CsrError::NoKeyMetaForRegistration
                && forall|i: int| 0 <= i < metas@.len() ==> (#[trigger] metas@[i]).key_registration_addr@ != key_reg_addr@,
        },
{
    let mut i: usize = 0;
    while i < metas.len()
        invariant
            i <= metas@.len(),
            forall|j: int| 0 <= j < i ==> (#[trigger] metas@[j]).key_registration_addr@ != key_reg_addr@,
        decreases metas@.len() - i,
    {
        if bytes_eq(&metas[i].key_registration_addr, key_reg_addr) {
            assert(first_for_registration(metas@, key_reg_addr@, i as int));
            return Ok(&metas[i]);
        }
        i = i + 1;
    }
    Err(CsrError::NoKeyMetaForRegistration)
}

/// Whether a key meta belongs to an app binding with this app index.
pub open spec fn meta_in_app(bindings: Seq<(RawHash, AppBinding)>, meta: KeyMeta, app_index: u32) -> bool {
    exists|k: int| 0 <= k < bindings.len() && bindings[k].0@ == meta.app_binding_addr@ && #[trigger] bindings[k].1.app_index == app_index
}

/// The largest key index among the key metas of an app, if it has any.
pub open spec fn max_key_index_in_app(bindings: Seq<(RawHash, AppBinding)>, metas: Seq<KeyMeta>, app_index: u32) -> Option<u32>
    decreases metas.len(),
{
    if metas.len() == 0 {
        None
    } else {
        let rest = max_key_index_in_app(bindings, metas.drop_last(), app_index);
        if meta_in_app(bindings, metas.last(), app_index) {
            match rest {
                Some(m) => Some(if m >= metas.last().key_index { m } else { metas.last().key_index }),
                None => Some(metas.last().key_index),
            }
        } else {
            rest
        }
    }
}

/// The key index that the next key of an app gets: one more than the
/// largest key index among the app's key metas (counted in a `u32`), or 0
/// for an app without keys.
pub open spec fn next_key_index(bindings: Seq<(RawHash, AppBinding)>, metas: Seq<KeyMeta>, app_index: u32) -> u32 {
    match max_key_index_in_app(bindings, metas, app_index) {
        Some(m) => if m == u32::MAX { 0 } else { (m + 1) as u32 },
        None => 0,
    }
}

/// Every key meta of an app has a key index at most the app's largest.
pub proof fn lemma_max_key_index_bounds(bindings: Seq<(RawHash, AppBinding)>, metas: Seq<KeyMeta>, app_index: u32)
    ensures
        forall|j: int| 0 <= j < metas.len() && meta_in_app(bindings, #[trigger] metas[j], app_index)
            ==> (max_key_index_in_app(bindings, metas, app_index) matches Some(m) && metas[j].key_index <= m),
    decreases metas.len(),
{
    if metas.len() > 0 {
        let rest = metas.drop_last();
        lemma_max_key_index_bounds(bindings, rest, app_index);
        assert forall|j: int| 0 <= j < metas.len() && meta_in_app(bindings, #[trigger] metas[j], app_index)
            implies (max_key_index_in_app(bindings, metas, app_index) matches Some(m) && metas[j].key_index <= m) by {
            if j < metas.len() - 1 {
                assert(rest[j] == metas[j]);
            }
        }
    }
}

fn is_meta_in_app(bindings: &Vec<(RawHash, AppBinding)>, meta: &KeyMeta, app_index: u32) -> (r: bool)
    ensures
        r == meta_in_app(bindings@, *meta, app_index),
{
    let mut k: usize = 0;
    while k < bindings.len()
        invariant
            k <= bindings@.len(),
            forall|j: int| 0 <= j < k ==> !(bindings@[j].0@ == meta.app_binding_addr@ && #[trigger] bindings@[j].1.app_index == app_index),
        decreases bindings@.len() - k,
    {
        if bytes_eq(&bindings[k].0, &meta.app_binding_addr) && bindings[k].1.app_index == app_index {
            return true;
        }
        k = k + 1;
    }
    false
}

/// The key index for the next key of the app with this app index: one
/// more than the largest key index of its key metas, or 0.
pub fn query_next_key_index_for_app_index(bindings: &Vec<(RawHash, AppBinding)>, metas: &Vec<KeyMeta>, app_index: u32) -> (r: u32)
    ensures
        r == next_key_index(bindings@, metas@, app_index),
{
    let mut max: Option<u32> = None;
    let mut i: usize = 0;
    while i < metas.len()
        invariant
            i <= metas@.len(),
            max == max_key_index_in_app(bindings@, metas@.subrange(0, i as int), app_index),
        decreases metas@.len() - i,
    {
        assert(metas@.subrange(0, i as int + 1).drop_last() =~= metas@.subrange(0, i as int));
        if is_meta_in_app(bindings, &metas[i], app_index) {
            let k = metas[i].key_index;
            max = match max {
                Some(m) => Some(if m >= k { m } else { k }),
                None => Some(k),
            };
        }
        i = i + 1;
    }
    assert(metas@.subrange(0, metas@.len() as int) =~= metas@);
    match max {
        Some(m) => m.wrapping_add(1),
        None => 0,
    }
}

} // verus!
