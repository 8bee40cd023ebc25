//! Link tags that name an agent: one tag byte that marks a keyset root to
//! agent link, then the agent's 39-byte key.
use vstd::prelude::*;
use crate::types::RawHash;

verus! {

/// The length of the marker that begins an agent link tag.
pub const KEYSET_ROOT_TO_AGENT_TAG_LEN: usize = 1;

/// The length of an agent link tag: the marker and a 39-byte agent key.
pub const AGENT_TAG_FULL_LEN: usize = 40;

/// Why bytes do not make an agent link tag.
#[derive(Debug)]
pub enum Error {
    /// The link tag is not the marker followed by a 39-byte key.
    NotAgentTag,
    /// The agent key does not have 39 bytes.
    NotAgentKey,
}

/// The tag that links a keyset root to an agent: the marker byte, then the
/// agent's key.
pub struct AgentLinkTag {
    bytes: Vec<u8>,
}

impl View for AgentLinkTag {
    type V = Seq<u8>;

    closed spec fn view(&self) -> Seq<u8> {
        self.bytes@
    }
}

impl AgentLinkTag {
    #[verifier::type_invariant]
    spec fn full_length(self) -> bool {
        self.bytes@.len() == AGENT_TAG_FULL_LEN
    }

    /// The tag that names `agent` after the marker `tag`.
    pub fn from_agent(tag: u8, agent: &RawHash) -> (r: Result<AgentLinkTag, Error>)
        ensures
            agent@.len() == 39 ==> (r matches Ok(t) && t@ == seq![tag] + agent@),
            agent@.len() != 39 ==> (r matches Err(Error::NotAgentKey)),
    {
        if agent.len() != 39 {
            return Err(Error::NotAgentKey);
        }
        let mut bytes: Vec<u8> = Vec::new();
        bytes.push(tag);
        let mut i: usize = 0;
        while i < agent.len()
            invariant
                i <= agent@.len(),
                agent@.len() == 39,
                bytes@ == seq![tag] + agent@.subrange(0, i as int),
            decreases agent@.len() - i,
        {
            bytes.push(agent[i]);
            i = i + 1;
            assert(bytes@ =~= seq![tag] + agent@.subrange(0, i as int));
        }
        assert(agent@.subrange(0, 39) =~= agent@);
        Ok(AgentLinkTag { bytes })
    }

    /// Reads a link tag as an agent link tag: it must be the marker `tag`
    /// followed by 39 bytes.
    pub fn try_from_link_tag(tag: u8, link_tag: Vec<u8>) -> (r: Result<AgentLinkTag, Error>)
        ensures
            link_tag@.len() == AGENT_TAG_FULL_LEN && link_tag@[0] == tag ==> (r matches Ok(t) && t@ == link_tag@),
            !(link_tag@.len() == AGENT_TAG_FULL_LEN && link_tag@[0] == tag) ==> (r matches Err(Error::NotAgentTag)),
    {
        if link_tag.len() != AGENT_TAG_FULL_LEN || link_tag[0] != tag {
            return Err(Error::NotAgentTag);
        }
        Ok(AgentLinkTag { bytes: link_tag })
    }

    /// The agent key that the tag names: the bytes after the marker.
    pub fn agent(&self) -> (r: RawHash)
        ensures
            r@ == self@.subrange(KEYSET_ROOT_TO_AGENT_TAG_LEN as int, AGENT_TAG_FULL_LEN as int),
            r@.len() == 39,
    {
        proof {
            use_type_invariant(self);
        }
        let mut r: Vec<u8> = Vec::new();
        let mut i: usize = KEYSET_ROOT_TO_AGENT_TAG_LEN;
        while i < AGENT_TAG_FULL_LEN
            invariant
                self.bytes@.len() == AGENT_TAG_FULL_LEN,
                KEYSET_ROOT_TO_AGENT_TAG_LEN <= i <= AGENT_TAG_FULL_LEN,
                r@ == self.bytes@.subrange(KEYSET_ROOT_TO_AGENT_TAG_LEN as int, i as int),
            decreases AGENT_TAG_FULL_LEN - i,
        {
            r.push(self.bytes[i]);
            i = i + 1;
            assert(r@ =~= self.bytes@.subrange(KEYSET_ROOT_TO_AGENT_TAG_LEN as int, i as int));
        }
        r
    }

    /// The bytes of the tag.
    pub fn into_link_tag(self) -> (r: Vec<u8>)
        ensures
            r@ == self@,
            r@.len() == AGENT_TAG_FULL_LEN,
    {
        proof {
            use_type_invariant(&self);
        }
        self.bytes
    }
}

/// The agent key that a link tag names after the marker `tag`.
pub fn link_tag_to_agent(tag: u8, link_tag: Vec<u8>) -> (r: Result<RawHash, Error>)
    ensures
        link_tag@.len() == AGENT_TAG_FULL_LEN && link_tag@[0] == tag
            ==> (r matches Ok(a) && a@ == link_tag@.subrange(KEYSET_ROOT_TO_AGENT_TAG_LEN as int, AGENT_TAG_FULL_LEN as int)),
        !(link_tag@.len() == AGENT_TAG_FULL_LEN && link_tag@[0] == tag) ==> (r matches Err(Error::NotAgentTag)),
{
    match AgentLinkTag::try_from_link_tag(tag, link_tag) {
        Ok(t) => Ok(t.agent()),
        Err(e) => Err(e),
    }
}

/// The link tag that names `agent` after the marker `tag`.
pub fn agent_to_link_tag(tag: u8, agent: &RawHash) -> (r: Result<Vec<u8>, Error>)
    ensures
        agent@.len() == 39 ==> (r matches Ok(t) && t@ == seq![tag] + agent@),
        agent@.len() != 39 ==> (r matches Err(Error::NotAgentKey)),
{
    match AgentLinkTag::from_agent(tag, agent) {
        Ok(t) => Ok(t.into_link_tag()),
        Err(e) => Err(e),
    }
}

/// Reading back the link tag made for an agent gives that agent.
pub proof fn agent_link_tag_round_trip(tag: u8, agent: Seq<u8>)
    requires
        agent.len() == 39,
    ensures
        (seq![tag] + agent).len() == AGENT_TAG_FULL_LEN,
        (seq![tag] + agent)[0] == tag,
        (seq![tag] + agent).subrange(KEYSET_ROOT_TO_AGENT_TAG_LEN as int, AGENT_TAG_FULL_LEN as int) == agent,
{
    assert((seq![tag] + agent).subrange(1, 40) =~= agent);
}

} // verus!
