//! The state store: one value that holds the whole state, replaced by a new
//! one with every action. Readers keep the snapshot they were given; nothing
//! ever changes under them.

use crate::action::{Action, ActionWrapper};
use crate::agent::{next_header, AgentState, AgentStateView, ChainPairView};
use crate::hash::Address;
use crate::model::seq_view;
use crate::error::HolochainError;
use crate::network::{
    content_view, reduce_get_entry, reduce_get_entry_send_failed, reduce_get_entry_timeout,
    reduce_handle_get_result, reduce_init, GetDhtData, GetDhtDataView, NetworkState,
    NetworkStateView,
};
use crate::nucleus::{
    package_result_view, reduce_return_validation_package, NucleusState, NucleusStateView,
    RequestId,
};
use vstd::prelude::*;

verus! {

/// The whole state of a node at one moment.
#[derive(Debug)]
pub struct State {
    nucleus: NucleusState,
    agent: AgentState,
    network: NetworkState,
    history: Vec<RequestId>,
}

/// The mathematical value of a `State`.
pub struct StateView {
    pub nucleus: NucleusStateView,
    pub agent: AgentStateView,
    pub network: NetworkStateView,
    /// The ids of the actions that made the state, in the order in which they
    /// were applied.
    pub history: Seq<Seq<char>>,
}

impl StateView {
    /// The state that the action makes of this one. Each action changes the
    /// one part of the state that it is about, and the history.
    pub open spec fn after(self, id: Seq<char>, action: Action) -> StateView {
        let logged = self.history.push(id);
        match action {
            Action::InitNetwork(settings) => StateView {
                network: self.network.after_init(settings.dna_address@, settings.agent_id@),
                history: logged,
                ..self
            },
            Action::Commit(entry) => StateView {
                agent: AgentStateView {
                    agent: self.agent.agent,
                    chain: self.agent.chain.push(
                        ChainPairView {
                            header: next_header(self.agent.agent, self.agent.chain, entry@),
                            entry: entry@,
                        },
                    ),
                },
                history: logged,
                ..self
            },
            Action::GetEntry(address) => StateView {
                network: self.network.after_get_entry(address@),
                history: logged,
                ..self
            },
            Action::GetEntryTimeout(address) => StateView {
                network: self.network.after_get_entry_timeout(address@),
                history: logged,
                ..self
            },
            Action::HandleGetResult(dht_data) => StateView {
                network: self.network.after_handle_get_result(
                    dht_data.address@,
                    content_view(dht_data.content),
                ),
                history: logged,
                ..self
            },
            Action::ReturnValidationPackage((request, result)) => StateView {
                nucleus: NucleusStateView {
                    dna: self.nucleus.dna,
                    validation_packages: if self.nucleus.validation_packages.dom().contains(
                        request@,
                    ) {
                        self.nucleus.validation_packages
                    } else {
                        self.nucleus.validation_packages.insert(
                            request@,
                            package_result_view(result),
                        )
                    },
                },
                history: logged,
                ..self
            },
        }
    }
}

impl View for State {
    type V = StateView;

    closed spec fn view(&self) -> StateView {
        StateView {
            nucleus: self.nucleus@,
            agent: self.agent@,
            network: self.network@,
            history: seq_view(self.history@),
        }
    }
}

impl Clone for State {
    fn clone(&self) -> (copy: Self)
        ensures
            copy@ == self@,
    {
        let history = self.history.clone();
        assert(seq_view(history@) =~= seq_view(self.history@));
        State {
            nucleus: self.nucleus.clone(),
            agent: self.agent.clone(),
            network: self.network.clone(),
            history,
        }
    }
}

impl State {
    /// The state of a node before anything has happened to it.
    pub fn new(agent: &Address) -> (state: State)
        ensures
            state@ == (StateView {
                nucleus: NucleusStateView { dna: None, validation_packages: Map::empty() },
                agent: AgentStateView { agent: agent@, chain: Seq::empty() },
                network: NetworkStateView {
                    dna_address: None,
                    agent_id: None,
                    get_entry_with_meta_results: Map::empty(),
                },
                history: Seq::empty(),
            }),
    {
        let state = State {
            nucleus: NucleusState::new(),
            agent: AgentState::new(agent),
            network: NetworkState::new(),
            history: Vec::new(),
        };
        assert(state@.history =~= Seq::<Seq<char>>::empty());
        state
    }

    /// A state made of the given parts, with an empty history.
    pub fn from_parts(nucleus: NucleusState, agent: AgentState, network: NetworkState) -> (state:
        State)
        ensures
            state@ == (StateView {
                nucleus: nucleus@,
                agent: agent@,
                network: network@,
                history: Seq::empty(),
            }),
    {
        let state = State { nucleus, agent, network, history: Vec::new() };
        assert(state@.history =~= Seq::<Seq<char>>::empty());
        state
    }

    /// The nucleus' part.
    pub fn nucleus(&self) -> (nucleus: &NucleusState)
        ensures
            nucleus@ == self@.nucleus,
    {
        &self.nucleus
    }

    /// The agent's part.
    pub fn agent(&self) -> (agent: &AgentState)
        ensures
            agent@ == self@.agent,
    {
        &self.agent
    }

    /// The network's part.
    pub fn network(&self) -> (network: &NetworkState)
        ensures
            network@ == self@.network,
    {
        &self.network
    }

    /// How many actions have made this state.
    pub fn history_len(&self) -> (count: usize)
        ensures
            count == self@.history.len(),
    {
        self.history.len()
    }

    /// The state in which the message of a pending request for `address`
    /// could not be sent: the request has failed with the transport's error.
    /// Where the request is not pending, the state is the same.
    pub fn send_failed(&self, address: &Address, error: &HolochainError) -> (next: State)
        ensures
            next@.nucleus == self@.nucleus,
            next@.agent == self@.agent,
            next@.history == self@.history,
            next@.network == if self@.network.get_entry_with_meta_results.dom().contains(
                address@,
            ) && self@.network.get_entry_with_meta_results[address@] is None {
                self@.network.with_result(address@, Some(Err(error@)))
            } else {
                self@.network
            },
    {
        let mut next = self.clone();
        reduce_get_entry_send_failed(&mut next.network, address, error);
        next
    }

    /// The state that the action makes of this one. This state stays as it
    /// is. Where the action calls for a message to the network, the message
    /// comes back beside the new state, and that happens exactly for a
    /// request of an entry on a joined network that has not come to its end
    /// already.
    pub fn reduce(&self, action_wrapper: &ActionWrapper) -> (reduced: (State, Option<GetDhtData>))
        ensures
            reduced.0@ == self@.after(action_wrapper.id_spec()@, *action_wrapper.action()),
            crate::model::option_view(reduced.1) == request_of(self@, *action_wrapper.action()),
    {
        let mut next = self.clone();
        let ghost before = next.history@;
        next.history.push(action_wrapper.id().clone());
        assert(seq_view(next.history@) =~= seq_view(before).push(action_wrapper.id_spec()@));
        let message = match action_wrapper.action() {
            Action::InitNetwork(_) => {
                reduce_init(&mut next.network, action_wrapper);
                None
            },
            Action::Commit(entry) => {
                next.agent.commit(entry);
                None
            },
            Action::GetEntry(_) => reduce_get_entry(&mut next.network, action_wrapper),
            Action::GetEntryTimeout(_) => {
                reduce_get_entry_timeout(&mut next.network, action_wrapper);
                None
            },
            Action::HandleGetResult(_) => {
                reduce_handle_get_result(&mut next.network, action_wrapper);
                None
            },
            Action::ReturnValidationPackage((request, result)) => {
                reduce_return_validation_package(&mut next.nucleus, request, result);
                None
            },
        };
        (next, message)
    }
}

/// The state that a run of actions makes of a state, each applied to what
/// the ones before it made, in the order of the run.
pub open spec fn after_all(state: StateView, actions: Seq<ActionWrapper>) -> StateView
    decreases actions.len(),
{
    if actions.len() == 0 {
        state
    } else {
        after_all(state, actions.drop_last()).after(
            actions.last().id_spec()@,
            *actions.last().action_spec(),
        )
    }
}

/// The message that an action calls for in a state, if it calls for one: a
/// request of an entry does, on a joined network, unless the request has come
/// to its end already.
pub open spec fn request_of(state: StateView, action: Action) -> Option<GetDhtDataView> {
    match action {
        Action::GetEntry(address) => if state.network.asks_network(address@) {
            Some(state.network.request_for(address@))
        } else {
            None
        },
        _ => None,
    }
}

/// The messages that a run of actions calls for, in the order of the run.
pub open spec fn requests_of(state: StateView, actions: Seq<ActionWrapper>) -> Seq<GetDhtDataView>
    decreases actions.len(),
{
    if actions.len() == 0 {
        Seq::empty()
    } else {
        let earlier = requests_of(state, actions.drop_last());
        match request_of(after_all(state, actions.drop_last()), *actions.last().action_spec()) {
            Some(request) => earlier.push(request),
            None => earlier,
        }
    }
}

/// Applies the actions one at a time, in the order in which they were
/// received, and hands back the snapshot after the last one with the
/// messages that the actions called for, in their order.
pub fn reduce_all(state: &State, actions: &Vec<ActionWrapper>) -> (reduced: (
    State,
    Vec<GetDhtData>,
))
    ensures
        reduced.0@ == after_all(state@, actions@),
        seq_view(reduced.1@) == requests_of(state@, actions@),
{
    let mut current = state.clone();
    let mut messages: Vec<GetDhtData> = Vec::new();
    let mut index: usize = 0;
    assert(actions@.take(0) =~= Seq::<ActionWrapper>::empty());
    assert(seq_view(messages@) =~= requests_of(state@, actions@.take(0)));
    while index < actions.len()
        invariant
            index <= actions.len(),
            seq_view(messages@) == requests_of(state@, actions@.take(index as int)),
            current@ == after_all(state@, actions@.take(index as int)),
        decreases actions.len() - index,
    {
        let ghost done = actions@.take(index as int);
        let ghost more = actions@.take(index + 1);
        assert(more.drop_last() =~= done);
        assert(more.last() == actions@[index as int]);
        let (next, message) = current.reduce(&actions[index]);
        current = next;
        match message {
            Some(message) => {
                proof {
                    crate::model::seq_view_push(messages@, message);
                }
                messages.push(message);
            },
            None => {},
        }
        index += 1;
    }
    assert(actions@.take(index as int) =~= actions@);
    (current, messages)
}

/// A run of actions is logged as it was received: the history grows by the
/// ids of the actions, in the order of the run.
pub proof fn lemma_history_in_receipt_order(state: StateView, actions: Seq<ActionWrapper>)
    ensures
        after_all(state, actions).history == state.history + Seq::new(
            actions.len(),
            |i: int| actions[i].id_spec()@,
        ),
    decreases actions.len(),
{
    let ids = Seq::new(actions.len(), |i: int| actions[i].id_spec()@);
    if actions.len() == 0 {
        assert(state.history + ids =~= state.history);
    } else {
        let earlier = actions.drop_last();
        lemma_history_in_receipt_order(state, earlier);
        let earlier_ids = Seq::new(earlier.len(), |i: int| earlier[i].id_spec()@);
        assert(state.history + ids =~= (state.history + earlier_ids).push(
            actions.last().id_spec()@,
        ));
    }
}

/// Every action adds its id to the end of the history and leaves the earlier
/// history as it was: the order in which actions were applied is kept.
pub proof fn lemma_history_grows(state: StateView, id: Seq<char>, action: Action)
    ensures
        state.after(id, action).history == state.history.push(id),
        state.after(id, action).history.len() == state.history.len() + 1,
        forall|i: int|
            0 <= i < state.history.len() ==> state.after(id, action).history[i]
                == state.history[i],
{
}

/// An action that is not about a part of the state leaves that part as it
/// is.
pub proof fn lemma_parts_untouched(state: StateView, id: Seq<char>, action: Action)
    ensures
        !(action is ReturnValidationPackage) ==> state.after(id, action).nucleus == state.nucleus,
        !(action is Commit) ==> state.after(id, action).agent == state.agent,
        (action is Commit || action is ReturnValidationPackage) ==> state.after(
            id,
            action,
        ).network == state.network,
{
}

} // verus!
