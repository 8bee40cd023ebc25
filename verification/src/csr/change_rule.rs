//! Change rules from the coordinator's side: the bytes an authority spec is
//! signed as, the current rule of a keyset root, and what updating the rule
//! writes.
use vstd::prelude::*;
use crate::csr::error::CsrError;
use crate::host::{host_serialize_authority_spec, msgpack_authority_spec, views};
use crate::types::{Authorization, AuthoritySpec, AuthorizedSpecChange, ChangeRule, RawHash};
use crate::validation::update_entry::{check_key_lengths, keys_well_formed};

verus! {

/// An authority spec as a caller gives it.
pub struct AuthoritySpecInput {
    pub sigs_required: u8,
    /// Key cores of the authorities.
    pub authorized_signers: Vec<Vec<u8>>,
}

/// A new authority spec, with the signatures that authorize it (none: the
/// FDA signs it).
pub struct UpdateChangeRuleInput {
    pub authority_spec: AuthoritySpecInput,
    pub authorizations: Option<Vec<Authorization>>,
}

/// The bytes that an authority spec is signed as, or `MalformedKey` when a
/// signer is not a 32-byte key core.
pub open spec fn spec_bytes_of(spec: AuthoritySpec) -> Result<Seq<u8>, CsrError> {
    if keys_well_formed(spec.authorized_signers@) {
        Ok(msgpack_authority_spec(spec.sigs_required, views(spec.authorized_signers@)))
    } else {
        Err(CsrError::MalformedKey)
    }
}

/// Serializes an authority spec for signing.
pub fn authority_spec_bytes(spec: &AuthoritySpec) -> (r: Result<Vec<u8>, CsrError>)
    ensures
        match spec_bytes_of(*spec) {
            Ok(b) => r matches Ok(x) && x@ == b,
            Err(e) => r == Err::<Vec<u8>, CsrError>(e),
        },
{
    if !check_key_lengths(&spec.authorized_signers) {
        return Err(CsrError::MalformedKey);
    }
    match host_serialize_authority_spec(spec.sigs_required, &spec.authorized_signers) {
        Ok(bytes) => Ok(bytes),
        Err(e) => Err(CsrError::Host(e)),
    }
}

/// The authority spec of an input, and the bytes it is signed as.
pub fn construct_authority_spec(input: AuthoritySpecInput) -> (r: Result<(AuthoritySpec, Vec<u8>), CsrError>)
    ensures
        ({
            let spec = AuthoritySpec { sigs_required: input.sigs_required, authorized_signers: input.authorized_signers };
            match spec_bytes_of(spec) {
                Ok(b) => r matches Ok((s, x)) && s == spec && x@ == b,
                Err(e) => r == Err::<(AuthoritySpec, Vec<u8>), CsrError>(e),
            }
        }),
{
    let spec = AuthoritySpec { sigs_required: input.sigs_required, authorized_signers: input.authorized_signers };
    match authority_spec_bytes(&spec) {
        Ok(bytes) => Ok((spec, bytes)),
        Err(e) => Err(e),
    }
}

/// The links of a keyset root to its change rules, by timestamp, that
/// target an action, in the order the host lists them.
pub open spec fn targeted(links: Seq<(i64, Option<RawHash>)>) -> Seq<(i64, RawHash)>
    decreases links.len(),
{
    if links.len() == 0 {
        Seq::empty()
    } else {
        match links.last().1 {
            Some(t) => targeted(links.drop_last()).push((links.last().0, t)),
            None => targeted(links.drop_last()),
        }
    }
}

/// The position of the latest entry: no later timestamp anywhere, and none
/// as late after it.
pub open spec fn is_latest(s: Seq<(i64, RawHash)>, i: int) -> bool {
    &&& 0 <= i < s.len()
    &&& forall|j: int| 0 <= j < s.len() ==> (#[trigger] s[j]).0 <= s[i].0
    &&& forall|j: int| i < j < s.len() ==> (#[trigger] s[j]).0 < s[i].0
}

/// The position of the latest entry of a non-empty list.
pub(crate) fn latest_position(s: &Vec<(i64, RawHash)>) -> (r: usize)
    requires
        s@.len() > 0,
    ensures
        is_latest(s@, r as int),
{
    let mut best: usize = 0;
    let mut i: usize = 1;
    while i < s.len()
        invariant
            1 <= i <= s@.len(),
            best < i,
            forall|j: int| 0 <= j < i ==> (#[trigger] s@[j]).0 <= s@[best as int].0,
            forall|j: int| best < j < i ==> (#[trigger] s@[j]).0 < s@[best as int].0,
        decreases s@.len() - i,
    {
        if s[i].0 >= s[best].0 {
            best = i;
        }
        i = i + 1;
    }
    best
}

/// The change rule that a keyset root links to last: the target of its
/// latest link to an action (the last of the latest when several share a
/// timestamp).
pub fn get_current_change_rule_for_ksr(links: Vec<(i64, Option<RawHash>)>) -> (r: Result<RawHash, CsrError>)
    ensures
        targeted(links@).len() == 0 ==> r == Err::<RawHash, CsrError>(CsrError::NoChangeRulesForKsr),
        targeted(links@).len() > 0 ==> (r matches Ok(t) && exists|i: int| is_latest(targeted(links@), i) && t == targeted(links@)[i].1),
{
    let ghost items = links@;
    let n = links.len();
    let mut rest = links;
    let mut targets: Vec<(i64, RawHash)> = Vec::new();
    let mut i: usize = 0;
    while rest.len() > 0
        invariant
            items.len() == n,
            i + rest@.len() == n,
            rest@ == items.subrange(i as int, n as int),
            targets@ == targeted(items.subrange(0, i as int)),
        decreases rest@.len(),
    {
        assert(items.subrange(0, i as int + 1).drop_last() =~= items.subrange(0, i as int));
        let (timestamp, target) = rest.remove(0);
        if let Some(t) = target {
            targets.push((timestamp, t));
        }
        i = i + 1;
        assert(rest@ =~= items.subrange(i as int, n as int));
    }
    assert(items.subrange(0, n as int) =~= items);
    if targets.len() == 0 {
        return Err(CsrError::NoChangeRulesForKsr);
    }
    let best = latest_position(&targets);
    let (_, t) = targets.swap_remove(best);
    assert(is_latest(targeted(items), best as int) && t == targeted(items)[best as int].1);
    Ok(t)
}

/// The change rule that updating a keyset's rule writes: the new spec with
/// its authorizations, under the keyset root.
pub open spec fn new_change_rule(ksr: RawHash, spec: AuthoritySpecInput, authorizations: Vec<Authorization>) -> ChangeRule {
    ChangeRule {
        keyset_root: ksr,
        spec_change: AuthorizedSpecChange {
            new_spec: AuthoritySpec { sigs_required: spec.sigs_required, authorized_signers: spec.authorized_signers },
            authorization_of_new_spec: authorizations,
        },
    }
}

/// Plans the update of a keyset's change rule: the update targets the
/// chain's first change rule record, which must decode; the new rule holds
/// the new spec and its authorizations under the chain's keyset root.
/// Returns the action to update and the new rule.
pub fn update_change_rule(
    spec: AuthoritySpecInput,
    authorizations: Vec<Authorization>,
    change_rule_records: &Vec<(RawHash, bool)>,
    keyset_root_addr: Option<RawHash>,
) -> (r: Result<(RawHash, ChangeRule), CsrError>)
    ensures
        change_rule_records@.len() == 0 ==> r == Err::<(RawHash, ChangeRule), CsrError>(CsrError::NoChangeRuleToUpdate),
        change_rule_records@.len() > 0 && !change_rule_records@[0].1
            ==> r == Err::<(RawHash, ChangeRule), CsrError>(CsrError::NotAChangeRule),
        change_rule_records@.len() > 0 && change_rule_records@[0].1 && keyset_root_addr is None
            ==> r == Err::<(RawHash, ChangeRule), CsrError>(CsrError::NoKeysetRoot),
        change_rule_records@.len() > 0 && change_rule_records@[0].1 && keyset_root_addr is Some
            ==> (r matches Ok((target, rule)) && target@ == change_rule_records@[0].0@
                && rule == new_change_rule(keyset_root_addr->Some_0, spec, authorizations)),
{
    if change_rule_records.len() == 0 {
        return Err(CsrError::NoChangeRuleToUpdate);
    }
    if !change_rule_records[0].1 {
        return Err(CsrError::NotAChangeRule);
    }
    let ksr = match keyset_root_addr {
        Some(a) => a,
        None => {
            return Err(CsrError::NoKeysetRoot);
        },
    };
    let target = crate::bytes::clone_bytes(&change_rule_records[0].0);
    let rule = ChangeRule {
        keyset_root: ksr,
        spec_change: AuthorizedSpecChange {
            new_spec: AuthoritySpec { sigs_required: spec.sigs_required, authorized_signers: spec.authorized_signers },
            authorization_of_new_spec: authorizations,
        },
    };
    Ok((target, rule))
}

/// The authorization that the FDA gives a new spec when the caller gives
/// none: its signature at position 0.
pub fn fda_authorization(signature: Vec<u8>) -> (r: Vec<Authorization>)
    ensures
        r@ == seq![(0u8, signature)],
{
    let mut r: Vec<Authorization> = Vec::new();
    r.push((0, signature));
    r
}

} // verus!
