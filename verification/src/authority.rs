//! Keys and authorizations: the key core of an agent key, signature checks,
//! and the check of a list of authorizations against an authority list.
use vstd::prelude::*;
use crate::host::{agent_prefix, dht_location, host_verify_signature_raw, host_agent_key_from_core, signature_verifies};
use crate::bytes::clone_bytes;
use crate::outcome::{failed_in_host, from_host, Fetched, HostError, Reason};

verus! {

/// The 32-byte core of an agent key given by its raw 39 bytes.
pub open spec fn key_core(agent: Seq<u8>) -> Seq<u8> {
    agent.subrange(3, 35)
}

/// The agent key built from a 32-byte key core.
pub open spec fn agent_key_of_core(core: Seq<u8>) -> Seq<u8> {
    agent_prefix() + core + dht_location(core)
}

/// The key core of an agent key, or `MalformedBytes` when the bytes are not
/// the 39 bytes of a key.
pub fn keybytes_from_agentpubkey(agent: &Vec<u8>) -> (r: Result<Vec<u8>, HostError>)
    ensures
        agent@.len() == 39 ==> (r matches Ok(k) && k@ == key_core(agent@)),
        agent@.len() != 39 ==> (r matches Err(HostError::Guest(Reason::MalformedBytes))),
{
    if agent.len() != 39 {
        return Err(HostError::Guest(Reason::MalformedBytes));
    }
    let mut core: Vec<u8> = Vec::new();
    let mut i: usize = 3;
    while i < 35
        invariant
            agent@.len() == 39,
            3 <= i <= 35,
            core@ == agent@.subrange(3, i as int),
        decreases 35 - i,
    {
        core.push(agent[i]);
        i = i + 1;
        assert(core@ =~= agent@.subrange(3, i as int));
    }
    Ok(core)
}

/// Whether bytes are an agent key: 39 bytes that begin with the agent prefix.
pub open spec fn is_agent_key(k: Seq<u8>) -> bool {
    k.len() == 39 && k.subrange(0, 3) == agent_prefix()
}

/// Whether a key and a signature are fit to be handed to the host's
/// signature check: an agent key and 64 bytes.
pub open spec fn signature_input_ok(key: Seq<u8>, signature: Seq<u8>) -> bool {
    is_agent_key(key) && signature.len() == 64
}

/// Checks a signature by an agent key (raw 39 bytes).  Bytes that are not
/// an agent key or not a 64-byte signature give `MalformedBytes`, without a
/// host call; otherwise the host decides.
pub fn verify_key_signature(key: &Vec<u8>, signature: &Vec<u8>, data: Vec<u8>) -> (r: Result<bool, HostError>)
    ensures
        !signature_input_ok(key@, signature@) ==> r == Err::<bool, HostError>(HostError::Guest(Reason::MalformedBytes)),
        signature_input_ok(key@, signature@) ==> (r matches Ok(b) ==> b == signature_verifies(key@, signature@, data@)),
        signature_input_ok(key@, signature@) ==> (r is Err ==> failed_in_host(r)),
{
    if key.len() != 39 || signature.len() != 64 {
        return Err(HostError::Guest(Reason::MalformedBytes));
    }
    let prefixed = key[0] == 0x84u8 && key[1] == 0x20u8 && key[2] == 0x24u8;
    assert(key@.subrange(0, 3) =~= seq![key@[0], key@[1], key@[2]]);
    if !prefixed {
        return Err(HostError::Guest(Reason::MalformedBytes));
    }
    host_verify_signature_raw(key, signature, data)
}

/// Whether an authorization before position `i` names the same signer
/// position as the one at `i`.
pub open spec fn repeated_before(authorizations: Seq<(u8, Vec<u8>)>, i: int) -> bool {
    exists|j: int| 0 <= j < i && (#[trigger] authorizations[j]).0 == authorizations[i].0
}

/// Whether the check of the authorization at `i` passes the library's own
/// checks and so asks the host to verify its signature: its position names
/// an authority that no earlier authorization used, the authority is a
/// 32-byte key core and the signature has 64 bytes.
pub open spec fn authorization_reaches_host(authorities: Seq<Vec<u8>>, authorizations: Seq<(u8, Vec<u8>)>, i: int) -> bool {
    &&& (authorizations[i].0 as int) < authorities.len()
    &&& !repeated_before(authorizations, i)
    &&& authorities[authorizations[i].0 as int]@.len() == 32
    &&& authorizations[i].1@.len() == 64
}

/// The check of the authorization at `i`: its position must name an
/// authority that no earlier authorization used, the key and signature
/// must have their lengths, and the signature of `content` must verify with
/// that authority's key.
pub open spec fn authorization_outcome(authorities: Seq<Vec<u8>>, authorizations: Seq<(u8, Vec<u8>)>, content: Seq<u8>, i: int) -> Fetched<()> {
    let auth = authorizations[i];
    if (auth.0 as int) >= authorities.len() {
        Err(HostError::Guest(Reason::AuthIndexOutOfRange { index: auth.0 }))
    } else if repeated_before(authorizations, i) {
        Err(HostError::Guest(Reason::RepeatedSigner { index: auth.0 }))
    } else if authorities[auth.0 as int]@.len() != 32 || auth.1@.len() != 64 {
        Err(HostError::Guest(Reason::MalformedBytes))
    } else if !signature_verifies(agent_key_of_core(authorities[auth.0 as int]@), auth.1@, content) {
        Err(HostError::Guest(Reason::BadAuthorizationSignature))
    } else {
        Ok(())
    }
}

/// The check of the authorizations from position `i` on, in order: the
/// first failing check decides.
pub open spec fn authorizations_outcome(
    authorities: Seq<Vec<u8>>,
    authorizations: Seq<(u8, Vec<u8>)>,
    content: Seq<u8>,
    i: int,
) -> Fetched<()>
    decreases authorizations.len() - i,
{
    if i < 0 || i >= authorizations.len() {
        Ok(())
    } else {
        match authorization_outcome(authorities, authorizations, content, i) {
            Ok(_) => authorizations_outcome(authorities, authorizations, content, i + 1),
            Err(e) => Err(e),
        }
    }
}

/// Whether checking a list of authorizations asks the host at all: the
/// first authorization passes the library's own checks.
pub open spec fn authorizations_reach_host(authorities: Seq<Vec<u8>>, authorizations: Seq<(u8, Vec<u8>)>) -> bool {
    authorizations.len() > 0 && authorization_reaches_host(authorities, authorizations, 0)
}

/// Whether no two authorizations of a list name the same signer position.
pub open spec fn distinct_signers(authorizations: Seq<(u8, Vec<u8>)>) -> bool {
    forall|i: int, j: int| 0 <= i < j < authorizations.len()
        ==> (#[trigger] authorizations[i]).0 != (#[trigger] authorizations[j]).0
}

/// When the checks from position `i` on pass, each of them passes.
pub proof fn lemma_authorizations_ok_each(
    authorities: Seq<Vec<u8>>,
    authorizations: Seq<(u8, Vec<u8>)>,
    content: Seq<u8>,
    i: int,
)
    requires
        0 <= i,
        authorizations_outcome(authorities, authorizations, content, i) is Ok,
    ensures
        forall|k: int| i <= k < authorizations.len()
            ==> (#[trigger] authorization_outcome(authorities, authorizations, content, k)) is Ok,
    decreases authorizations.len() - i,
{
    if i < authorizations.len() {
        lemma_authorizations_ok_each(authorities, authorizations, content, i + 1);
    }
}

/// Authorizations that all pass name distinct signer positions.
pub proof fn lemma_authorizations_ok_distinct(
    authorities: Seq<Vec<u8>>,
    authorizations: Seq<(u8, Vec<u8>)>,
    content: Seq<u8>,
)
    requires
        authorizations_outcome(authorities, authorizations, content, 0) is Ok,
    ensures
        distinct_signers(authorizations),
{
    lemma_authorizations_ok_each(authorities, authorizations, content, 0);
    assert forall|i: int, j: int| 0 <= i < j < authorizations.len()
        implies (#[trigger] authorizations[i]).0 != (#[trigger] authorizations[j]).0 by {
        assert(authorization_outcome(authorities, authorizations, content, j) is Ok);
        if authorizations[i].0 == authorizations[j].0 {
            assert(repeated_before(authorizations, j));
        }
    }
}

/// What checking a list of authorizations gives: the number of
/// authorizations (counted in a `u8`) when every check passes, else the
/// first failure.
pub open spec fn authorities_result(
    authorities: Seq<Vec<u8>>,
    authorizations: Seq<(u8, Vec<u8>)>,
    content: Seq<u8>,
) -> Result<u8, HostError> {
    match authorizations_outcome(authorities, authorizations, content, 0) {
        Ok(_) => Ok((authorizations.len() % 256) as u8),
        Err(e) => Err(e),
    }
}

/// Whether an authorization before position `i` names the signer position
/// of the one at `i`.
fn repeated_position(authorizations: &Vec<(u8, Vec<u8>)>, i: usize) -> (r: bool)
    requires
        i < authorizations@.len(),
    ensures
        r == repeated_before(authorizations@, i as int),
{
    let position = authorizations[i].0;
    let mut j: usize = 0;
    while j < i
        invariant
            j <= i,
            i < authorizations@.len(),
            position == authorizations@[i as int].0,
            forall|k: int| 0 <= k < j ==> (#[trigger] authorizations@[k]).0 != position,
        decreases i - j,
    {
        if authorizations[j].0 == position {
            assert(authorizations@[j as int].0 == authorizations@[i as int].0);
            return true;
        }
        j = j + 1;
    }
    false
}

/// Checks every authorization, in order, against the authority list: its
/// position must name an authority that no earlier authorization used, and
/// its signature of `signed_content` must verify with that authority's key.
/// Stops at the first that fails.  Returns the number of authorizations
/// checked, counted in a `u8`; when it returns, they name that many distinct
/// signers.  A host failure can only come once the first authorization has
/// passed the library's own checks.
pub fn check_authorities(
    authorities: &Vec<Vec<u8>>,
    authorizations: &Vec<(u8, Vec<u8>)>,
    signed_content: &Vec<u8>,
) -> (r: Result<u8, HostError>)
    ensures
        r == authorities_result(authorities@, authorizations@, signed_content@)
            || (authorizations_reach_host(authorities@, authorizations@) && failed_in_host(r)),
        r is Ok ==> distinct_signers(authorizations@),
{
    let mut sig_count: u8 = 0;
    let mut i: usize = 0;
    while i < authorizations.len()
        invariant
            i <= authorizations@.len(),
            sig_count == i % 256,
            authorizations_outcome(authorities@, authorizations@, signed_content@, 0)
                == authorizations_outcome(authorities@, authorizations@, signed_content@, i as int),
            i > 0 ==> authorization_reaches_host(authorities@, authorizations@, 0),
        decreases authorizations@.len() - i,
    {
        let auth_index = authorizations[i].0;
        if auth_index as usize >= authorities.len() {
            return Err(HostError::Guest(Reason::AuthIndexOutOfRange { index: auth_index }));
        }
        if repeated_position(authorizations, i) {
            return Err(HostError::Guest(Reason::RepeatedSigner { index: auth_index }));
        }
        let pubkey_bytes = &authorities[auth_index as usize];
        let signature = &authorizations[i].1;
        if pubkey_bytes.len() != 32 || signature.len() != 64 {
            return Err(HostError::Guest(Reason::MalformedBytes));
        }
        let authority = host_agent_key_from_core(pubkey_bytes);
        assert(authority@.subrange(0, 3) =~= agent_prefix());
        let valid = verify_key_signature(&authority, signature, clone_bytes(signed_content));
        match valid {
            Ok(true) => {},
            Ok(false) => {
                return Err(HostError::Guest(Reason::BadAuthorizationSignature));
            },
            Err(e) => {
                return Err(e);
            },
        }
        sig_count = sig_count.wrapping_add(1);
        i = i + 1;
    }
    proof {
        lemma_authorizations_ok_distinct(authorities@, authorizations@, signed_content@);
    }
    Ok(sig_count)
}

} // verus!
