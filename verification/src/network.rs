//! The network's part of the state, and the reducers of the actions that ask
//! the DHT for an entry.
//!
//! A reducer sends nothing itself. Where an action calls for a message, the
//! reducer hands the message back, and sending it is the caller's part.

use crate::action::{Action, ActionWrapper, DhtContent};
use crate::entry::{EntryWithMeta, EntryWithMetaView};
use crate::error::{ErrorView, HolochainError};
use crate::hash::Address;
use crate::keyed::Keyed;
use crate::model::option_view;
use crate::nucleus::Async;
use vstd::prelude::*;

verus! {

/// What is known of a request for an entry: `None` while the answer is
/// awaited, and then the entry, the news that there is none, or the error.
pub type GetEntryResult = Option<Result<Option<EntryWithMeta>, HolochainError>>;

/// The mathematical value of a `GetEntryResult`.
pub type GetEntryResultView = Option<Result<Option<EntryWithMetaView>, ErrorView>>;

/// The mathematical value of a `GetEntryResult`.
pub open spec fn get_entry_result_view(result: GetEntryResult) -> GetEntryResultView {
    match result {
        None => None,
        Some(Err(error)) => Some(Err(error@)),
        Some(Ok(None)) => Some(Ok(None)),
        Some(Ok(Some(entry))) => Some(Ok(Some(entry@))),
    }
}

/// The network's part of the state.
#[derive(Debug)]
pub struct NetworkState {
    pub dna_address: Option<Address>,
    pub agent_id: Option<String>,
    pub get_entry_with_meta_results: Keyed<GetEntryResult>,
}

/// The mathematical value of a `NetworkState`.
pub struct NetworkStateView {
    pub dna_address: Option<Seq<char>>,
    pub agent_id: Option<Seq<char>>,
    /// What is known of each address that was asked for. An address that is
    /// not in the map was never asked for.
    pub get_entry_with_meta_results: Map<Seq<char>, GetEntryResultView>,
}

impl View for NetworkState {
    type V = NetworkStateView;

    open spec fn view(&self) -> NetworkStateView {
        NetworkStateView {
            dna_address: option_view(self.dna_address),
            agent_id: option_view(self.agent_id),
            get_entry_with_meta_results: self.get_entry_with_meta_results@.map_values(
                |result: GetEntryResult| get_entry_result_view(result),
            ),
        }
    }
}

/// The message that asks the network for the entry at an address.
#[derive(Debug, PartialEq, Eq)]
pub struct GetDhtData {
    pub msg_id: String,
    pub dna_address: String,
    pub from_agent_id: String,
    pub address: String,
}

/// The mathematical value of a `GetDhtData`.
pub struct GetDhtDataView {
    pub msg_id: Seq<char>,
    pub dna_address: Seq<char>,
    pub from_agent_id: Seq<char>,
    pub address: Seq<char>,
}

impl View for GetDhtData {
    type V = GetDhtDataView;

    open spec fn view(&self) -> GetDhtDataView {
        GetDhtDataView {
            msg_id: self.msg_id@,
            dna_address: self.dna_address@,
            from_agent_id: self.from_agent_id@,
            address: self.address@,
        }
    }
}

/// The error of every request that comes before the network is joined.
pub open spec fn not_initialized() -> ErrorView {
    ErrorView::Generic("Network not initialized"@)
}

/// The error for an answer of the network that could not be read.
pub open spec fn undecodable() -> ErrorView {
    ErrorView::Generic("Failed to deserialize EntryWithMeta from HandleGetResult action argument"@)
}

impl NetworkStateView {
    /// Whether the network is joined.
    pub open spec fn initialized(self) -> bool {
        self.dna_address is Some && self.agent_id is Some
    }

    /// The same state with something else known of `address`.
    pub open spec fn with_result(self, address: Seq<char>, result: GetEntryResultView)
        -> NetworkStateView {
        NetworkStateView {
            get_entry_with_meta_results: self.get_entry_with_meta_results.insert(address, result),
            ..self
        }
    }

    /// The state after joining the network under an address and an identity.
    pub open spec fn after_init(self, dna_address: Seq<char>, agent_id: Seq<char>)
        -> NetworkStateView {
        NetworkStateView { dna_address: Some(dna_address), agent_id: Some(agent_id), ..self }
    }

    /// The message that a request for `address` sends, where the network is
    /// joined.
    pub open spec fn request_for(self, address: Seq<char>) -> GetDhtDataView {
        GetDhtDataView {
            msg_id: "?"@,
            dna_address: self.dna_address->0,
            from_agent_id: self.agent_id->0,
            address,
        }
    }

    /// Whether the request for `address` has come to its end: an answer or an
    /// error is stored for it.
    pub open spec fn resolved(self, address: Seq<char>) -> bool {
        self.get_entry_with_meta_results.dom().contains(address)
            && self.get_entry_with_meta_results[address] is Some
    }

    /// Whether a request for `address` sends a message: the network is joined
    /// and the request has not come to its end already.
    pub open spec fn asks_network(self, address: Seq<char>) -> bool {
        self.initialized() && !self.resolved(address)
    }

    /// The state after a request for the entry at `address`. A request that
    /// has come to its end stays as it is: what is stored for it is not
    /// replaced. Any other request is pending where the network is joined,
    /// and has failed where it is not.
    pub open spec fn after_get_entry(self, address: Seq<char>) -> NetworkStateView {
        if self.resolved(address) {
            self
        } else if self.initialized() {
            self.with_result(address, None)
        } else {
            self.with_result(address, Some(Err(not_initialized())))
        }
    }

    /// The state after the wait for `address` is given up: a pending request
    /// has timed out, and nothing else has changed.
    pub open spec fn after_get_entry_timeout(self, address: Seq<char>) -> NetworkStateView {
        if self.get_entry_with_meta_results.dom().contains(address)
            && self.get_entry_with_meta_results[address] is None {
            self.with_result(address, Some(Err(ErrorView::Timeout)))
        } else {
            self
        }
    }

    /// What an answer of the network amounts to.
    pub open spec fn answer(self, content: Option<Option<EntryWithMetaView>>) -> Result<
        Option<EntryWithMetaView>,
        ErrorView,
    > {
        if !self.initialized() {
            Err(not_initialized())
        } else {
            match content {
                None => Err(undecodable()),
                Some(entry) => Ok(entry),
            }
        }
    }

    /// The state after the network answered for `address`. The answer takes
    /// the place of whatever was known of the address, also of an error: a
    /// request that has timed out is still answered when its answer arrives
    /// late. Only the network writes answers, so none is lost to a request
    /// or to a timeout that comes after it.
    pub open spec fn after_handle_get_result(
        self,
        address: Seq<char>,
        content: Option<Option<EntryWithMetaView>>,
    ) -> NetworkStateView {
        self.with_result(address, Some(self.answer(content)))
    }
}

/// The mathematical value of what the network answered with: `None` where
/// the answer could not be read.
pub open spec fn content_view(content: DhtContent) -> Option<Option<EntryWithMetaView>> {
    match content {
        DhtContent::Undecodable => None,
        DhtContent::Decoded(entry) => Some(option_view(entry)),
    }
}

impl Clone for NetworkState {
    fn clone(&self) -> (copy: Self)
        ensures
            copy@ == self@,
    {
        let results = self.get_entry_with_meta_results.clone_by(clone_get_entry_result);
        let copy = NetworkState {
            dna_address: self.dna_address.clone(),
            agent_id: self.agent_id.clone(),
            get_entry_with_meta_results: results,
        };
        assert(copy@.get_entry_with_meta_results =~= self@.get_entry_with_meta_results);
        copy
    }
}

impl NetworkState {
    /// The state of a node that has not joined its network and has asked for
    /// nothing.
    pub fn new() -> (state: NetworkState)
        ensures
            state@ == (NetworkStateView {
                dna_address: None,
                agent_id: None,
                get_entry_with_meta_results: Map::empty(),
            }),
    {
        let state = NetworkState {
            dna_address: None,
            agent_id: None,
            get_entry_with_meta_results: Keyed::new(),
        };
        assert(state@.get_entry_with_meta_results =~= Map::<
            Seq<char>,
            GetEntryResultView,
        >::empty());
        state
    }

    /// Whether the network is joined, as a result.
    pub fn initialized(&self) -> (joined: Result<(), HolochainError>)
        ensures
            self@.initialized() ==> joined is Ok,
            !self@.initialized() ==> (joined matches Err(error) && error@ == not_initialized()),
    {
        if self.dna_address.is_some() && self.agent_id.is_some() {
            Ok(())
        } else {
            Err(HolochainError::ErrorGeneric(String::from_str("Network not initialized")))
        }
    }

    /// What is known of the request for `address`, if it was ever asked for.
    pub fn get_entry_result(&self, address: &Address) -> (known: Option<GetEntryResult>)
        ensures
            match known {
                Some(result) => self@.get_entry_with_meta_results.dom().contains(address@)
                    && self@.get_entry_with_meta_results[address@] == get_entry_result_view(
                    result,
                ),
                None => !self@.get_entry_with_meta_results.dom().contains(address@),
            },
    {
        match self.get_entry_with_meta_results.get(address.hash.as_str()) {
            Some(result) => Some(clone_get_entry_result(result)),
            None => None,
        }
    }

    /// Writes down what is known of `address`.
    fn set_result(&mut self, address: &Address, result: GetEntryResult)
        ensures
            final(self)@ == old(self)@.with_result(address@, get_entry_result_view(result)),
    {
        self.get_entry_with_meta_results.insert(address.hash.clone(), result);
        assert(self@.get_entry_with_meta_results =~= old(
            self,
        )@.get_entry_with_meta_results.insert(address@, get_entry_result_view(result)));
    }
}

/// Copies what is known of a request.
pub fn clone_get_entry_result(result: &GetEntryResult) -> (copy: GetEntryResult)
    ensures
        get_entry_result_view(copy) == get_entry_result_view(*result),
{
    match result {
        None => None,
        Some(Err(error)) => Some(Err(error.clone())),
        Some(Ok(None)) => Some(Ok(None)),
        Some(Ok(Some(entry))) => Some(Ok(Some(entry.clone()))),
    }
}

/// Joins the network: from now on requests are sent under this address and
/// identity.
pub fn reduce_init(network_state: &mut NetworkState, action_wrapper: &ActionWrapper)
    requires
        action_wrapper.action() is InitNetwork,
    ensures
        final(network_state)@ == old(network_state)@.after_init(
            action_wrapper.action()->InitNetwork_0.dna_address@,
            action_wrapper.action()->InitNetwork_0.agent_id@,
        ),
{
    match action_wrapper.action() {
        Action::InitNetwork(settings) => {
            network_state.dna_address = Some(settings.dna_address.clone());
            network_state.agent_id = Some(settings.agent_id.clone());
        },
        _ => {},
    }
}

/// The message that asks for the entry at `address`, or the error where the
/// network is not joined.
pub fn get_entry_request(network_state: &NetworkState, address: &Address) -> (request: Result<
    GetDhtData,
    HolochainError,
>)
    ensures
        network_state@.initialized() ==> (request matches Ok(message) && message@
            == network_state@.request_for(address@)),
        !network_state@.initialized() ==> (request matches Err(error) && error@
            == not_initialized()),
{
    match network_state.initialized() {
        Err(error) => Err(error),
        Ok(()) => {
            let dna_address = match &network_state.dna_address {
                Some(dna_address) => dna_address.to_string(),
                None => unreached(),
            };
            let from_agent_id = match &network_state.agent_id {
                Some(agent_id) => agent_id.clone(),
                None => unreached(),
            };
            Ok(
                GetDhtData {
                    msg_id: String::from_str("?"),
                    dna_address,
                    from_agent_id,
                    address: address.to_string(),
                },
            )
        },
    }
}

/// Asks for the entry at the action's address. A request that has come to its
/// end already, with an answer or an error, is left as it is and nothing is
/// sent. Otherwise, where the network is joined the request is pending from
/// now on and the message to send is handed back; where it is not, the
/// request has failed and there is no message.
pub fn reduce_get_entry(network_state: &mut NetworkState, action_wrapper: &ActionWrapper) -> (message:
    Option<GetDhtData>)
    requires
        action_wrapper.action() is GetEntry,
    ensures
        final(network_state)@ == old(network_state)@.after_get_entry(
            action_wrapper.action()->GetEntry_0@,
        ),
        old(network_state)@.asks_network(action_wrapper.action()->GetEntry_0@) ==> (
        message matches Some(request) && request@ == old(network_state)@.request_for(
            action_wrapper.action()->GetEntry_0@,
        )),
        !old(network_state)@.asks_network(action_wrapper.action()->GetEntry_0@) ==> message
            is None,
{
    match action_wrapper.action() {
        Action::GetEntry(address) => {
            let resolved = match network_state.get_entry_with_meta_results.get(
                address.hash.as_str(),
            ) {
                Some(Some(_)) => true,
                _ => false,
            };
            if resolved {
                return None;
            }
            match get_entry_request(network_state, address) {
                Ok(request) => {
                    network_state.set_result(address, None);
                    Some(request)
                },
                Err(error) => {
                    network_state.set_result(address, Some(Err(error)));
                    None
                },
            }
        },
        _ => None,
    }
}

/// Records that the message of a pending request could not be sent: the
/// request has failed with the transport's error. A request that is not
/// pending is left as it is.
pub fn reduce_get_entry_send_failed(
    network_state: &mut NetworkState,
    address: &Address,
    error: &HolochainError,
)
    ensures
        final(network_state)@ == if old(network_state)@.get_entry_with_meta_results.dom().contains(
            address@,
        ) && old(network_state)@.get_entry_with_meta_results[address@] is None {
            old(network_state)@.with_result(address@, Some(Err(error@)))
        } else {
            old(network_state)@
        },
{
    let pending = match network_state.get_entry_with_meta_results.get(address.hash.as_str()) {
        Some(None) => true,
        _ => false,
    };
    if pending {
        network_state.set_result(address, Some(Err(error.clone())));
    }
}

/// Gives up the wait for the entry at the action's address. Only a pending
/// request times out: one that was never made, and one that has an answer or
/// an error already, stay as they are.
pub fn reduce_get_entry_timeout(network_state: &mut NetworkState, action_wrapper: &ActionWrapper)
    requires
        action_wrapper.action() is GetEntryTimeout,
    ensures
        final(network_state)@ == old(network_state)@.after_get_entry_timeout(
            action_wrapper.action()->GetEntryTimeout_0@,
        ),
{
    match action_wrapper.action() {
        Action::GetEntryTimeout(address) => {
            let pending = match network_state.get_entry_with_meta_results.get(
                address.hash.as_str(),
            ) {
                Some(None) => true,
                _ => false,
            };
            if pending {
                network_state.set_result(address, Some(Err(HolochainError::Timeout)));
            }
        },
        _ => {},
    }
}

/// Records what the network answered for an address: the entry or the lack
/// of one, or the error where the answer could not be read or the network
/// is not joined. The answer is written whatever is known of the address: a
/// request that has timed out is still answered when its answer arrives
/// late, and a later answer takes the place of an earlier one. Requests and
/// timeouts, which come from this node, never take the place of an answer.
pub fn reduce_handle_get_result(network_state: &mut NetworkState, action_wrapper: &ActionWrapper)
    requires
        action_wrapper.action() is HandleGetResult,
    ensures
        final(network_state)@ == old(network_state)@.after_handle_get_result(
            action_wrapper.action()->HandleGetResult_0.address@,
            content_view(action_wrapper.action()->HandleGetResult_0.content),
        ),
{
    match action_wrapper.action() {
        Action::HandleGetResult(dht_data) => {
            let result = match network_state.initialized() {
                Err(error) => Err(error),
                Ok(()) => match &dht_data.content {
                    DhtContent::Undecodable => Err(
                        HolochainError::ErrorGeneric(
                            String::from_str(
                                "Failed to deserialize EntryWithMeta from HandleGetResult action argument",
                            ),
                        ),
                    ),
                    DhtContent::Decoded(None) => Ok(None),
                    DhtContent::Decoded(Some(entry)) => Ok(Some(entry.clone())),
                },
            };
            let address = Address { hash: dht_data.address.clone() };
            network_state.set_result(&address, Some(result));
        },
        _ => {},
    }
}

/// What a poll for the entry at `address` finds in what is known of the
/// requests: the answer, the error, or nothing yet. A request that was never
/// made is pending like one that is awaited.
pub open spec fn poll_outcome(results: Map<Seq<char>, GetEntryResultView>, address: Seq<char>)
    -> Result<Option<Option<EntryWithMetaView>>, ErrorView> {
    if results.dom().contains(address) {
        match results[address] {
            Some(Ok(answer)) => Ok(Some(answer)),
            Some(Err(error)) => Err(error),
            None => Ok(None),
        }
    } else {
        Ok(None)
    }
}

/// The awaitable for the entry at one address: it is ready when the state
/// holds the network's answer for the address.
#[derive(Debug)]
pub struct GetEntryFuture {
    pub address: Address,
}

impl GetEntryFuture {
    /// Looks into the latest snapshot, if there is one, for the answer.
    pub fn poll(&self, state: Option<&NetworkState>) -> (polled: Result<
        Async<Option<EntryWithMeta>>,
        HolochainError,
    >)
        ensures
            match state {
                Some(network) => match poll_outcome(
                    network@.get_entry_with_meta_results,
                    self.address@,
                ) {
                    Ok(Some(answer)) => polled matches Ok(Async::Ready(found)) && option_view(
                        found,
                    ) == answer,
                    Ok(None) => polled matches Ok(Async::Pending),
                    Err(error) => polled matches Err(found) && found@ == error,
                },
                None => polled matches Ok(Async::Pending),
            },
    {
        match state {
            Some(network) => match network.get_entry_with_meta_results.get(
                self.address.hash.as_str(),
            ) {
                Some(Some(Ok(Some(entry)))) => Ok(Async::Ready(Some(entry.clone()))),
                Some(Some(Ok(None))) => Ok(Async::Ready(None)),
                Some(Some(Err(error))) => Err(error.clone()),
                Some(None) => Ok(Async::Pending),
                None => Ok(Async::Pending),
            },
            None => Ok(Async::Pending),
        }
    }
}

/// A request that is made before the network is joined, for an address of
/// which no answer or error is stored, has failed at once, with the error
/// that says so: it is never pending.
pub proof fn lemma_get_entry_uninitialized(state: NetworkStateView, address: Seq<char>)
    requires
        !state.initialized(),
        !state.resolved(address),
    ensures
        state.after_get_entry(address).get_entry_with_meta_results.dom().contains(address),
        state.after_get_entry(address).get_entry_with_meta_results[address] == Some(
            Err::<Option<EntryWithMetaView>, ErrorView>(not_initialized()),
        ),
{
}

/// Once the network is joined, a request for an address of which no answer
/// or error is stored is pending as soon as it is made.
pub proof fn lemma_get_entry_initialized(
    state: NetworkStateView,
    dna_address: Seq<char>,
    agent_id: Seq<char>,
    address: Seq<char>,
)
    ensures
        state.after_init(dna_address, agent_id).initialized(),
        state.initialized() && !state.resolved(address) ==> state.after_get_entry(
            address,
        ).get_entry_with_meta_results.dom().contains(address) && state.after_get_entry(
            address,
        ).get_entry_with_meta_results[address] is None,
{
}

/// A request or a timeout for an address of which an answer or an error is
/// stored changes nothing: neither replaces what a request has come to. Only
/// the network's answer is written whatever is stored.
pub proof fn lemma_terminal_results_stay(state: NetworkStateView, address: Seq<char>)
    requires
        state.resolved(address),
    ensures
        state.after_get_entry(address) == state,
        state.after_get_entry_timeout(address) == state,
        !state.asks_network(address),
{
}

/// A pending request times out, and a request that has its answer or its
/// error does not: a timeout after it leaves the whole state as it is. So a
/// second timeout changes nothing, and neither does a timeout that comes
/// after the network's answer.
pub proof fn lemma_timeout(
    state: NetworkStateView,
    address: Seq<char>,
    content: Option<Option<EntryWithMetaView>>,
)
    ensures
        state.get_entry_with_meta_results.dom().contains(address)
            && state.get_entry_with_meta_results[address] is None ==> state.after_get_entry_timeout(
            address,
        ).get_entry_with_meta_results[address] == Some(
            Err::<Option<EntryWithMetaView>, ErrorView>(ErrorView::Timeout),
        ),
        state.resolved(address) ==> state.after_get_entry_timeout(address) == state,
        !state.get_entry_with_meta_results.dom().contains(address)
            ==> state.after_get_entry_timeout(address) == state,
        state.after_get_entry_timeout(address).after_get_entry_timeout(address)
            == state.after_get_entry_timeout(address),
        state.after_handle_get_result(address, content).after_get_entry_timeout(address)
            == state.after_handle_get_result(address, content),
        state.initialized() && !state.resolved(address) ==> state.after_get_entry(
            address,
        ).after_get_entry_timeout(address).get_entry_with_meta_results[address] == Some(
            Err::<Option<EntryWithMetaView>, ErrorView>(ErrorView::Timeout),
        ),
{
}

} // verus!
