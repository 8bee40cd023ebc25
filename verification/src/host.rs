//! The calls into the host API (`hdi`, `holo_hash`) and into `rmp_serde`
//! that the rules make.  Each is a trusted item: its contract is believed,
//! not proved.
use vstd::prelude::*;
use serde::ser::{SerializeStruct, Serializer};
use crate::outcome::{HostError, Reason, from_host};

verus! {

/// Whether `signature` is a valid Ed25519 signature of `data` by the agent
/// key `key` (its raw 39 bytes), as the host's signature check decides it.
pub uninterp spec fn signature_verifies(key: Seq<u8>, signature: Seq<u8>, data: Seq<u8>) -> bool;

/// The 4 location bytes that `holo_hash` derives from a 32-byte key core.
pub uninterp spec fn dht_location(core: Seq<u8>) -> Seq<u8>;

/// The big-endian bytes of a length as `rmp` writes it: one byte, two or
/// four, the length taken as a `u32`.
pub open spec fn be_bytes(n: nat, width: nat) -> Seq<u8> {
    if width == 1 {
        seq![(n % 256) as u8]
    } else if width == 2 {
        seq![((n / 256) % 256) as u8, (n % 256) as u8]
    } else {
        seq![((n / 16777216) % 256) as u8, ((n / 65536) % 256) as u8, ((n / 256) % 256) as u8, (n % 256) as u8]
    }
}

/// The MessagePack encoding of a `u8` (`rmp::encode::write_uint`): a
/// positive fixint below 128, else the `uint 8` marker and the byte.
pub open spec fn msgpack_u8(v: u8) -> Seq<u8> {
    if v < 128 {
        seq![v]
    } else {
        seq![0xccu8, v]
    }
}

/// The header of a MessagePack array of `len` items
/// (`rmp::encode::write_array_len`, the length taken as a `u32`).
pub open spec fn msgpack_array_header(len: nat) -> Seq<u8> {
    let n = len % 4294967296;
    if n < 16 {
        seq![(0x90 + n) as u8]
    } else if n < 65536 {
        seq![0xdcu8] + be_bytes(n, 2)
    } else {
        seq![0xddu8] + be_bytes(n, 4)
    }
}

/// A MessagePack byte string (`rmp::encode::write_bin`, the length taken
/// as a `u32`): the header, then the bytes.
pub open spec fn msgpack_bin(data: Seq<u8>) -> Seq<u8> {
    let n = data.len() % 4294967296;
    let header = if n < 256 {
        seq![0xc4u8] + be_bytes(n, 1)
    } else if n < 65536 {
        seq![0xc5u8] + be_bytes(n, 2)
    } else {
        seq![0xc6u8] + be_bytes(n, 4)
    };
    header + data
}

/// The byte strings of a list, one after another.
pub open spec fn msgpack_bins(items: Seq<Seq<u8>>) -> Seq<u8>
    decreases items.len(),
{
    if items.len() == 0 {
        Seq::empty()
    } else {
        msgpack_bins(items.drop_last()) + msgpack_bin(items.last())
    }
}

/// The MessagePack bytes that `rmp_serde::encode::to_vec` gives for an
/// authority spec with these fields, serialized as the pair (count, key
/// cores as byte strings): a 2-element array, the count, then the array of
/// the key cores.
pub open spec fn msgpack_authority_spec(sigs_required: u8, signers: Seq<Seq<u8>>) -> Seq<u8> {
    seq![0x92u8] + msgpack_u8(sigs_required) + msgpack_array_header(signers.len()) + msgpack_bins(signers)
}

/// The 3 prefix bytes of an agent key.
pub open spec fn agent_prefix() -> Seq<u8> {
    seq![0x84u8, 0x20u8, 0x24u8]
}

/// The views of a list of byte strings.
pub open spec fn views(v: Seq<Vec<u8>>) -> Seq<Seq<u8>> {
    v.map_values(|b: Vec<u8>| b@)
}

/// Calls `hdi::prelude::verify_signature_raw` with the agent key whose raw
/// bytes are `key` (39 bytes with the agent prefix, which
/// `AgentPubKey::from_raw_39` accepts) and the 64-byte `signature`.
/// Trusted: a returned `Ok(b)` is the host's verdict
/// `signature_verifies(key, signature, data)`; an error is a failing host
/// call (a guest error keeps its message).
#[verifier::external_body]
pub(crate) fn host_verify_signature_raw(key: &Vec<u8>, signature: &Vec<u8>, data: Vec<u8>) -> (r: Result<bool, HostError>)
    requires
        key@.len() == 39,
        key@.subrange(0, 3) == agent_prefix(),
        signature@.len() == 64,
    ensures
        r matches Ok(b) ==> b == signature_verifies(key@, signature@, data@),
        r matches Err(e) ==> from_host(e),
{
    let agent = match hdi::prelude::AgentPubKey::from_raw_39(key.clone()) {
        Ok(agent) => agent,
        Err(_) => return Err(HostError::Host),
    };
    let sig: [u8; 64] = signature.as_slice().try_into().unwrap();
    match hdi::prelude::verify_signature_raw(agent, hdi::prelude::Signature(sig), data) {
        Ok(valid) => Ok(valid),
        Err(e) => match e.error {
            hdi::prelude::WasmErrorInner::Guest(msg) => Err(HostError::Guest(Reason::HostMessage(msg))),
            _ => Err(HostError::Host),
        },
    }
}

/// Calls `holo_hash::AgentPubKey::from_raw_32`, which builds an agent key
/// from its 32-byte core: the agent prefix, the core, then the 4 location
/// bytes computed from the core.  Trusted for that layout.
#[verifier::external_body]
pub(crate) fn host_agent_key_from_core(core: &Vec<u8>) -> (r: Vec<u8>)
    requires
        core@.len() == 32,
    ensures
        r@ == agent_prefix() + core@ + dht_location(core@),
        r@.len() == 39,
{
    holo_hash::AgentPubKey::from_raw_32(core.clone()).into_inner()
}

/// Calls `rmp_serde::encode::to_vec` on the pair (count, key cores as
/// `serde_bytes::ByteArray<32>`), which is how an authority spec is
/// serialized before it is signed.  Trusted: the result is `Ok` (a `u8`
/// and byte strings written into a `Vec` cannot fail) and holds the bytes
/// that `msgpack_authority_spec` writes out (as `rmp` 0.8 encodes them).
#[verifier::external_body]
pub(crate) fn host_serialize_authority_spec(sigs_required: u8, signers: &Vec<Vec<u8>>) -> (r: Result<Vec<u8>, HostError>)
    requires
        forall|i: int| 0 <= i < signers@.len() ==> (#[trigger] signers@[i])@.len() == 32,
    ensures
        r is Ok,
        r matches Ok(bytes) ==> bytes@ == msgpack_authority_spec(sigs_required, views(signers@)),
{
    let keys: Vec<serde_bytes::ByteArray<32>> = signers.iter()
        .map(|s| serde_bytes::ByteArray::new(<[u8; 32]>::try_from(s.as_slice()).unwrap())).collect();
    rmp_serde::encode::to_vec(&(sigs_required, keys)).map_err(|_| HostError::Guest(Reason::SerializeFailed))
}

/// The bytes of the field name `sigs_required`.
pub open spec fn sigs_required_name() -> Seq<u8> {
    seq![0x73u8, 0x69u8, 0x67u8, 0x73u8, 0x5fu8, 0x72u8, 0x65u8, 0x71u8, 0x75u8, 0x69u8, 0x72u8, 0x65u8, 0x64u8]
}

/// The bytes of the field name `authorized_signers`.
pub open spec fn authorized_signers_name() -> Seq<u8> {
    seq![0x61u8, 0x75u8, 0x74u8, 0x68u8, 0x6fu8, 0x72u8, 0x69u8, 0x7au8, 0x65u8, 0x64u8, 0x5fu8,
        0x73u8, 0x69u8, 0x67u8, 0x6eu8, 0x65u8, 0x72u8, 0x73u8]
}

/// The MessagePack bytes that `holochain_serialized_bytes::encode` gives for
/// an authority spec of the integrity rules: a map of 2 entries, the field
/// name `sigs_required` (a fixstr of 13 bytes) to the count, then the field
/// name `authorized_signers` (a fixstr of 18 bytes) to the array of agent
/// keys, each as a byte string.
pub open spec fn msgpack_named_authority_spec(sigs_required: u8, signers: Seq<Seq<u8>>) -> Seq<u8> {
    seq![0x82u8, 0xadu8] + sigs_required_name() + msgpack_u8(sigs_required)
        + seq![0xb2u8] + authorized_signers_name() + msgpack_array_header(signers.len()) + msgpack_bins(signers)
}

/// Serializes an authority spec of the integrity rules as
/// `holochain_serialized_bytes::encode` does: an `rmp_serde` serializer with
/// struct maps, over the struct `AuthoritySpec` with its two fields.
/// Trusted: the result is `Ok` (a `u8`, strings and byte strings written
/// into a `Vec` cannot fail) and holds the bytes that
/// `msgpack_named_authority_spec` writes out (as `rmp` 0.8 encodes them).
#[verifier::external_body]
pub(crate) fn host_encode_named_authority_spec(sigs_required: u8, signers: &Vec<Vec<u8>>) -> (r: Result<Vec<u8>, HostError>)
    ensures
        r is Ok,
        r matches Ok(bytes) ==> bytes@ == msgpack_named_authority_spec(sigs_required, views(signers@)),
{
    let keys: Vec<serde_bytes::ByteBuf> = signers.iter().map(|s| serde_bytes::ByteBuf::from(s.clone())).collect();
    let mut se = rmp_serde::encode::Serializer::new(Vec::new()).with_struct_map();
    let written = match (&mut se).serialize_struct("AuthoritySpec", 2) {
        Ok(mut st) => match st.serialize_field("sigs_required", &sigs_required) {
            Ok(()) => match st.serialize_field("authorized_signers", &keys) {
                Ok(()) => st.end(),
                Err(e) => Err(e),
            },
            Err(e) => Err(e),
        },
        Err(e) => Err(e),
    };
    written.map(|_| se.into_inner()).map_err(|_| HostError::Guest(Reason::SerializeFailed))
}

} // verus!
