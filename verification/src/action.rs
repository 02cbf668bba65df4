//! Actions: the only way to ask for a change of state.

use crate::entry::{Entry, EntryWithMeta};
use crate::hash::Address;
use crate::nucleus::{PackageResult, RequestId};
use vstd::prelude::*;

verus! {

/// What a node needs to join its network.
#[derive(Debug, PartialEq, Eq)]
pub struct NetworkSettings {
    /// The transport's configuration, as the transport reads it.
    pub config: String,
    pub dna_address: Address,
    pub agent_id: String,
}

/// What the network answered with, as far as it could be read.
#[derive(Debug, PartialEq, Eq)]
pub enum DhtContent {
    /// The answer could not be read as an entry or as the lack of one.
    Undecodable,
    /// The entry, or the news that the DHT holds none at the address.
    Decoded(Option<EntryWithMeta>),
}

/// An answer of the network to a request for the entry at `address`.
#[derive(Debug, PartialEq, Eq)]
pub struct DhtData {
    pub msg_id: String,
    pub dna_address: String,
    pub agent_id: String,
    pub address: String,
    pub content: DhtContent,
}

/// A request for a change of state, with exactly what its reducer needs.
#[derive(Debug, PartialEq, Eq)]
pub enum Action {
    /// Join the network.
    InitNetwork(NetworkSettings),
    /// Commit an entry to the agent's chain.
    Commit(Entry),
    /// Ask the network for the entry at the address.
    GetEntry(Address),
    /// Give up waiting for the entry at the address.
    GetEntryTimeout(Address),
    /// The network answered a request for an entry.
    HandleGetResult(DhtData),
    /// A validation package was built, or could not be.
    ReturnValidationPackage((RequestId, PackageResult)),
}

/// An action with the id that tells it from every other action of the
/// process. It does not change once made.
#[derive(Debug, PartialEq, Eq)]
pub struct ActionWrapper {
    action: Action,
    id: RequestId,
}

impl ActionWrapper {
    /// Wraps the action under a fresh id.
    pub fn new(action: Action) -> (wrapper: ActionWrapper)
        ensures
            *wrapper.action_spec() == action,
    {
        ActionWrapper { action, id: RequestId::new() }
    }

    /// The action.
    pub closed spec fn action_spec(&self) -> &Action {
        &self.action
    }

    /// The action.
    #[verifier::when_used_as_spec(action_spec)]
    pub fn action(&self) -> (action: &Action)
        ensures
            action == self.action_spec(),
    {
        &self.action
    }

    /// The id.
    pub closed spec fn id_spec(&self) -> &RequestId {
        &self.id
    }

    /// The id.
    #[verifier::when_used_as_spec(id_spec)]
    pub fn id(&self) -> (id: &RequestId)
        ensures
            id == self.id_spec(),
    {
        &self.id
    }
}

} // verus!
