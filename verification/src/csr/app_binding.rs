//! The app bindings of the chain: the apps that keys are registered for,
//! numbered by their app index.
use vstd::prelude::*;
use crate::bytes::{bytes_eq, clone_bytes};
use crate::csr::error::CsrError;
use crate::csr::key_meta::{first_for_anchor, query_key_meta_for_key};
use crate::types::{AppBinding, KeyMeta, KeyRegistration, RawHash};
use crate::copies::{same_meta, same_registration};

verus! {

/// The app binding records that decode, with their action addresses, in
/// chain order.
pub open spec fn decoded_bindings(records: Seq<(RawHash, Option<AppBinding>)>) -> Seq<(RawHash, AppBinding)>
    decreases records.len(),
{
    if records.len() == 0 {
        Seq::empty()
    } else {
        match records.last().1 {
            Some(b) => decoded_bindings(records.drop_last()).push((records.last().0, b)),
            None => decoded_bindings(records.drop_last()),
        }
    }
}

/// Keeps the app binding records that decode, with their action addresses.
pub fn query_app_bindings(records: Vec<(RawHash, Option<AppBinding>)>) -> (r: Vec<(RawHash, AppBinding)>)
    ensures
        r@ == decoded_bindings(records@),
{
    let ghost items = records@;
    let mut rest = records;
    let mut out: Vec<(RawHash, AppBinding)> = Vec::new();
    let mut i: usize = 0;
    let n = rest.len();
    while rest.len() > 0
        invariant
            items.len() == n,
            i + rest@.len() == n,
            rest@ == items.subrange(i as int, n as int),
            out@ == decoded_bindings(items.subrange(0, i as int)),
        decreases rest@.len(),
    {
        assert(items.subrange(0, i as int + 1).drop_last() =~= items.subrange(0, i as int));
        let (addr, binding) = rest.remove(0);
        if let Some(b) = binding {
            out.push((addr, b));
        }
        i = i + 1;
        assert(rest@ =~= items.subrange(i as int, n as int));
    }
    assert(items.subrange(0, n as int) =~= items);
    out
}

/// The app index that the next app binding gets: the number of app
/// bindings, counted in a `u32`.
pub fn query_next_app_index(bindings: &Vec<(RawHash, AppBinding)>) -> (r: u32)
    ensures
        r == bindings@.len() as u32,
{
    bindings.len() as u32
}

/// The position of the first app binding with this app index.
pub open spec fn first_with_index(bindings: Seq<(RawHash, AppBinding)>, index: u32, i: int) -> bool {
    &&& 0 <= i < bindings.len()
    &&& bindings[i].1.app_index == index
    &&& forall|j: int| 0 <= j < i ==> bindings[j].1.app_index != index
}

/// The first app binding with this app index.
pub fn query_app_binding_by_index<'a>(bindings: &'a Vec<(RawHash, AppBinding)>, index: u32) -> (r: Result<&'a (RawHash, AppBinding), CsrError>)
    ensures
        match r {
            Ok(b) => exists|i: int| first_with_index(bindings@, index, i) && *b == bindings@[i],
            Err(e) => e == (CsrError::NoAppBindingWithIndex { index })
                && forall|i: int| 0 <= i < bindings@.len() ==> (#[trigger] bindings@[i]).1.app_index != index,
        },
{
    let mut i: usize = 0;
    while i < bindings.len()
        invariant
            i <= bindings@.len(),
            forall|j: int| 0 <= j < i ==> (#[trigger] bindings@[j]).1.app_index != index,
        decreases bindings@.len() - i,
    {
        if bindings[i].1.app_index == index {
            assert(first_with_index(bindings@, index, i as int));
            return Ok(&bindings[i]);
        }
        i = i + 1;
    }
    Err(CsrError::NoAppBindingWithIndex { index })
}

/// The position of the first app binding committed at `addr`.
pub open spec fn first_at_action(bindings: Seq<(RawHash, AppBinding)>, addr: Seq<u8>, i: int) -> bool {
    &&& 0 <= i < bindings.len()
    &&& bindings[i].0@ == addr
    &&& forall|j: int| 0 <= j < i ==> bindings[j].0@ != addr
}

/// The app binding committed at `addr`.
pub fn query_app_binding_by_action<'a>(bindings: &'a Vec<(RawHash, AppBinding)>, addr: &RawHash) -> (r: Result<&'a AppBinding, CsrError>)
    ensures
        match r {
            Ok(b) => exists|i: int| first_at_action(bindings@, addr@, i) && *b == bindings@[i].1,
            Err(e) => e == CsrError::NoAppBindingWithAction
                && forall|i: int| 0 <= i < bindings@.len() ==> (#[trigger] bindings@[i]).0@ != addr@,
        },
{
    let mut i: usize = 0;
    while i < bindings.len()
        invariant
            i <= bindings@.len(),
            forall|j: int| 0 <= j < i ==> (#[trigger] bindings@[j]).0@ != addr@,
        decreases bindings@.len() - i,
    {
        if bytes_eq(&bindings[i].0, addr) {
            assert(first_at_action(bindings@, addr@, i as int));
            return Ok(&bindings[i].1);
        }
        i = i + 1;
    }
    Err(CsrError::NoAppBindingWithAction)
}

/// The app bindings of an installed app, in chain order.
pub open spec fn bindings_of_app(bindings: Seq<(RawHash, AppBinding)>, id: Seq<char>) -> Seq<(RawHash, AppBinding)>
    decreases bindings.len(),
{
    if bindings.len() == 0 {
        Seq::empty()
    } else if bindings.last().1.installed_app_id@ == id {
        bindings_of_app(bindings.drop_last(), id).push(bindings.last())
    } else {
        bindings_of_app(bindings.drop_last(), id)
    }
}

/// The app bindings whose installed app id is `installed_app_id`.
pub fn query_app_bindings_by_installed_app_id(bindings: Vec<(RawHash, AppBinding)>, installed_app_id: &String) -> (r: Vec<(RawHash, AppBinding)>)
    ensures
        r@ == bindings_of_app(bindings@, installed_app_id@),
{
    let ghost items = bindings@;
    let mut rest = bindings;
    let mut out: Vec<(RawHash, AppBinding)> = Vec::new();
    let mut i: usize = 0;
    let n = rest.len();
    while rest.len() > 0
        invariant
            items.len() == n,
            i + rest@.len() == n,
            rest@ == items.subrange(i as int, n as int),
            out@ == bindings_of_app(items.subrange(0, i as int), installed_app_id@),
        decreases rest@.len(),
    {
        assert(items.subrange(0, i as int + 1).drop_last() =~= items.subrange(0, i as int));
        let b = rest.remove(0);
        if b.1.installed_app_id == *installed_app_id {
            out.push(b);
        }
        i = i + 1;
        assert(rest@ =~= items.subrange(i as int, n as int));
    }
    assert(items.subrange(0, n as int) =~= items);
    out
}

/// Whether `b`, committed at `addr`, is the app binding that the first key
/// meta of the key anchor committed at `anchor` names.
pub open spec fn binding_of_key(
    bindings: Seq<(RawHash, AppBinding)>,
    metas: Seq<KeyMeta>,
    anchor: Seq<u8>,
    addr: Seq<u8>,
    b: AppBinding,
) -> bool {
    exists|i: int, k: int|
        #![trigger first_for_anchor(metas, anchor, i), first_at_action(bindings, addr, k)]
        first_for_anchor(metas, anchor, i) && addr == metas[i].app_binding_addr@
            && first_at_action(bindings, addr, k) && b == bindings[k].1
}

/// The app binding of a key, by the action that committed its key anchor:
/// the binding that the key's meta names, with its action address.
pub fn query_app_binding_by_key<'a>(
    bindings: &'a Vec<(RawHash, AppBinding)>,
    metas: &Vec<KeyMeta>,
    anchor_addr: &RawHash,
) -> (r: Result<(RawHash, &'a AppBinding), CsrError>)
    ensures
        r matches Ok((addr, b)) ==> binding_of_key(bindings@, metas@, anchor_addr@, addr@, *b),
        r matches Err(e) ==> (e == CsrError::NoKeyMetaForAnchor
            && forall|i: int| 0 <= i < metas@.len() ==> (#[trigger] metas@[i]).key_anchor_addr@ != anchor_addr@)
            || (e == CsrError::NoAppBindingWithAction && exists|i: int| first_for_anchor(metas@, anchor_addr@, i)
            && forall|k: int| 0 <= k < bindings@.len() ==> (#[trigger] bindings@[k]).0@ != metas@[i].app_binding_addr@),
{
    let meta = match query_key_meta_for_key(metas, anchor_addr) {
        Ok(m) => m,
        Err(e) => {
            return Err(e);
        },
    };
    let ghost i = choose|i: int| first_for_anchor(metas@, anchor_addr@, i) && *meta == metas@[i];
    match query_app_binding_by_action(bindings, &meta.app_binding_addr) {
        Ok(b) => {
            let addr = clone_bytes(&meta.app_binding_addr);
            let ghost k = choose|k: int| first_at_action(bindings@, meta.app_binding_addr@, k) && *b == bindings@[k].1;
            assert(first_for_anchor(metas@, anchor_addr@, i) && addr@ == metas@[i].app_binding_addr@
                && first_at_action(bindings@, addr@, k) && *b == bindings@[k].1);
            assert(binding_of_key(bindings@, metas@, anchor_addr@, addr@, *b));
            Ok((addr, b))
        },
        Err(e) => {
            assert(first_for_anchor(metas@, anchor_addr@, i));
            Err(e)
        },
    }
}

/// The keys of an app binding that can be shown: each key meta of the
/// binding whose registration was fetched, with that registration, in
/// chain order.
pub open spec fn key_infos(metas: Seq<(KeyMeta, Option<KeyRegistration>)>, addr: Seq<u8>) -> Seq<(KeyMeta, KeyRegistration)>
    decreases metas.len(),
{
    if metas.len() == 0 {
        Seq::empty()
    } else {
        let rest = key_infos(metas.drop_last(), addr);
        if metas.last().0.app_binding_addr@ == addr && metas.last().1 is Some {
            rest.push((metas.last().0, metas.last().1->Some_0))
        } else {
            rest
        }
    }
}

/// Whether two lists of key infos hold the same values.
pub open spec fn same_infos(a: Seq<(KeyMeta, KeyRegistration)>, b: Seq<(KeyMeta, KeyRegistration)>) -> bool {
    &&& a.len() == b.len()
    &&& forall|i: int| 0 <= i < a.len() ==> same_meta((#[trigger] a[i]).0, b[i].0) && same_registration(a[i].1, b[i].1)
}

fn key_infos_for(metas: &Vec<(KeyMeta, Option<KeyRegistration>)>, addr: &RawHash) -> (r: Vec<(KeyMeta, KeyRegistration)>)
    ensures
        same_infos(r@, key_infos(metas@, addr@)),
{
    let mut r: Vec<(KeyMeta, KeyRegistration)> = Vec::new();
    let mut i: usize = 0;
    while i < metas.len()
        invariant
            i <= metas@.len(),
            same_infos(r@, key_infos(metas@.subrange(0, i as int), addr@)),
        decreases metas@.len() - i,
    {
        assert(metas@.subrange(0, i as int + 1).drop_last() =~= metas@.subrange(0, i as int));
        if bytes_eq(&metas[i].0.app_binding_addr, addr) {
            match &metas[i].1 {
                Some(reg) => {
                    r.push((metas[i].0.duplicate(), reg.duplicate()));
                },
                None => {},
            }
        }
        i = i + 1;
    }
    assert(metas@.subrange(0, metas@.len() as int) =~= metas@);
    r
}

/// Each app binding that decodes, with the keys registered for it: its key
/// metas whose registrations were fetched, each with its registration.
pub fn query_key_info(
    binding_records: Vec<(RawHash, Option<AppBinding>)>,
    metas: &Vec<(KeyMeta, Option<KeyRegistration>)>,
) -> (r: Vec<(AppBinding, Vec<(KeyMeta, KeyRegistration)>)>)
    ensures
        r@.len() == decoded_bindings(binding_records@).len(),
        forall|i: int| 0 <= i < r@.len() ==> (#[trigger] r@[i]).0 == decoded_bindings(binding_records@)[i].1
            && same_infos(r@[i].1@, key_infos(metas@, decoded_bindings(binding_records@)[i].0@)),
{
    let bindings = query_app_bindings(binding_records);
    let ghost all = bindings@;
    let n = bindings.len();
    let mut rest = bindings;
    let mut out: Vec<(AppBinding, Vec<(KeyMeta, KeyRegistration)>)> = Vec::new();
    let mut i: usize = 0;
    while rest.len() > 0
        invariant
            all.len() == n,
            i + rest@.len() == n,
            rest@ == all.subrange(i as int, n as int),
            out@.len() == i,
            forall|j: int| 0 <= j < i ==> (#[trigger] out@[j]).0 == all[j].1 && same_infos(out@[j].1@, key_infos(metas@, all[j].0@)),
        decreases rest@.len(),
    {
        let (addr, binding) = rest.remove(0);
        assert(addr == all[i as int].0 && binding == all[i as int].1);
        let infos = key_infos_for(metas, &addr);
        out.push((binding, infos));
        i = i + 1;
        assert(rest@ =~= all.subrange(i as int, n as int));
    }
    out
}

} // verus!
