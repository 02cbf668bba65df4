//! The agent's own state: who it is, and the chain of what it has committed.

use crate::chain_header::{ChainHeader, ChainHeaderView};
use crate::entry::{Entry, EntryType, EntryTypeView, EntryView};
use crate::hash::Address;
use vstd::prelude::*;

verus! {

/// One commit: the header and the entry that it stands for.
#[derive(Debug, PartialEq, Eq)]
pub struct ChainPair {
    pub header: ChainHeader,
    pub entry: Entry,
}

/// The mathematical value of a `ChainPair`.
pub struct ChainPairView {
    pub header: ChainHeaderView,
    pub entry: EntryView,
}

impl View for ChainPair {
    type V = ChainPairView;

    open spec fn view(&self) -> ChainPairView {
        ChainPairView { header: self.header@, entry: self.entry@ }
    }
}

impl Clone for ChainPair {
    fn clone(&self) -> (copy: Self)
        ensures
            copy@ == self@,
    {
        ChainPair { header: self.header.clone(), entry: self.entry.clone() }
    }
}

/// The chain as a sequence of mathematical pairs, oldest first.
pub open spec fn chain_view(chain: Seq<ChainPair>) -> Seq<ChainPairView> {
    Seq::new(chain.len(), |i: int| chain[i]@)
}

/// The header of the newest commit of the entry at `address`, if the chain
/// holds one.
pub open spec fn newest_header_of(chain: Seq<ChainPairView>, address: Seq<char>) -> Option<
    ChainHeaderView,
>
    decreases chain.len(),
{
    if chain.len() == 0 {
        None
    } else if chain.last().header.entry_address == address {
        Some(chain.last().header)
    } else {
        newest_header_of(chain.drop_last(), address)
    }
}

/// The address of the newest header of the given kind, if the chain holds one.
pub open spec fn newest_of_type(chain: Seq<ChainPairView>, entry_type: EntryTypeView) -> Option<
    Seq<char>,
>
    decreases chain.len(),
{
    if chain.len() == 0 {
        None
    } else if chain.last().header.entry_type == entry_type {
        Some(chain.last().header.address())
    } else {
        newest_of_type(chain.drop_last(), entry_type)
    }
}

/// The address of the chain's newest header, if it has any.
pub open spec fn top_address(chain: Seq<ChainPairView>) -> Option<Seq<char>> {
    if chain.len() == 0 {
        None
    } else {
        Some(chain.last().header.address())
    }
}

/// The header that a commit of `entry` by `agent` on top of `chain` gets.
pub open spec fn next_header(agent: Seq<char>, chain: Seq<ChainPairView>, entry: EntryView)
    -> ChainHeaderView {
    ChainHeaderView {
        entry_type: entry.entry_type(),
        entry_address: entry.address(),
        sources: seq![agent],
        link: top_address(chain),
        link_same_type: newest_of_type(chain, entry.entry_type()),
        timestamp: Seq::empty(),
    }
}

/// Whether each header stands for the entry beside it and names the header
/// before it, and the last one of its own kind before it, by address.
pub open spec fn chain_linked(chain: Seq<ChainPairView>) -> bool {
    forall|i: int|
        0 <= i < chain.len() ==> {
            &&& (#[trigger] chain[i]).header.entry_address == chain[i].entry.address()
            &&& chain[i].header.entry_type == chain[i].entry.entry_type()
            &&& chain[i].header.link == top_address(chain.take(i))
            &&& chain[i].header.link_same_type == newest_of_type(
                chain.take(i),
                chain[i].header.entry_type,
            )
        }
}

/// Whether a pair's kind is published.
pub open spec fn publishable() -> spec_fn(ChainPairView) -> bool {
    |pair: ChainPairView| pair.header.entry_type.can_publish()
}

/// The pairs of a walk whose kind is published, in the walk's order.
pub open spec fn keep_published(walk: Seq<ChainPairView>) -> Seq<ChainPairView> {
    walk.filter(publishable())
}

/// The headers of the pairs.
pub open spec fn headers_of(pairs: Seq<ChainPairView>) -> Seq<ChainHeaderView> {
    pairs.map_values(|pair: ChainPairView| pair.header)
}

/// The entries of the pairs.
pub open spec fn entries_of(pairs: Seq<ChainPairView>) -> Seq<EntryView> {
    pairs.map_values(|pair: ChainPairView| pair.entry)
}

/// The pairs whose kind is published, newest first: the order in which a walk
/// from the top of the chain meets them.
pub open spec fn published(chain: Seq<ChainPairView>) -> Seq<ChainPairView> {
    keep_published(chain.reverse())
}

/// The headers of the published pairs, newest first.
pub open spec fn published_headers(chain: Seq<ChainPairView>) -> Seq<ChainHeaderView> {
    headers_of(published(chain))
}

/// The entries of the published pairs, newest first.
pub open spec fn published_entries(chain: Seq<ChainPairView>) -> Seq<EntryView> {
    entries_of(published(chain))
}

/// One more step of a walk keeps the pair it meets exactly when its kind is
/// published.
pub proof fn lemma_keep_published_step(walk: Seq<ChainPairView>, pair: ChainPairView)
    ensures
        keep_published(walk.push(pair)) == if pair.header.entry_type.can_publish() {
            keep_published(walk).push(pair)
        } else {
            keep_published(walk)
        },
        headers_of(keep_published(walk).push(pair)) == headers_of(keep_published(walk)).push(
            pair.header,
        ),
        entries_of(keep_published(walk).push(pair)) == entries_of(keep_published(walk)).push(
            pair.entry,
        ),
{
    walk.lemma_filter_push(pair, publishable());
    assert(headers_of(keep_published(walk).push(pair)) =~= headers_of(keep_published(walk)).push(
        pair.header,
    ));
    assert(entries_of(keep_published(walk).push(pair)) =~= entries_of(keep_published(walk)).push(
        pair.entry,
    ));
}

/// Every pair that a walk from the top keeps is one of the chain's, and its
/// kind is published.
pub proof fn lemma_published_are_publishable(chain: Seq<ChainPairView>)
    ensures
        forall|i: int|
            0 <= i < published(chain).len() ==> {
                &&& (#[trigger] published(chain)[i]).header.entry_type.can_publish()
                &&& chain.contains(published(chain)[i])
            },
{
    let walk = chain.reverse();
    assert forall|i: int| 0 <= i < published(chain).len() implies {
        &&& (#[trigger] published(chain)[i]).header.entry_type.can_publish()
        &&& chain.contains(published(chain)[i])
    } by {
        let pair = published(chain)[i];
        walk.lemma_filter_pred(publishable(), i);
        assert(walk.filter(publishable()).contains(pair));
        walk.lemma_filter_contains_rev(publishable(), pair);
        let j = choose|j: int| 0 <= j < walk.len() && walk[j] == pair;
        assert(chain[chain.len() - 1 - j] == pair);
    }
}

/// Every pair of the chain whose kind is published is one that a walk from
/// the top keeps: nothing that is published is left out.
pub proof fn lemma_published_are_complete(chain: Seq<ChainPairView>)
    ensures
        forall|j: int|
            0 <= j < chain.len() && (#[trigger] chain[j]).header.entry_type.can_publish()
                ==> published(chain).contains(chain[j]),
{
    let walk = chain.reverse();
    assert forall|j: int|
        0 <= j < chain.len() && (#[trigger] chain[j]).header.entry_type.can_publish() implies published(
        chain,
    ).contains(chain[j]) by {
        let i = chain.len() - 1 - j;
        assert(walk[i] == chain[j]);
        walk.lemma_filter_contains(publishable(), i);
    }
}

/// An agent and its chain. The chain only grows, by `commit`, so it is
/// always linked.
#[derive(Debug)]
pub struct AgentState {
    agent: Address,
    chain: Vec<ChainPair>,
}

/// The mathematical value of an `AgentState`.
pub struct AgentStateView {
    /// The agent's address.
    pub agent: Seq<char>,
    /// The commits, oldest first.
    pub chain: Seq<ChainPairView>,
}

impl View for AgentState {
    type V = AgentStateView;

    closed spec fn view(&self) -> AgentStateView {
        AgentStateView { agent: self.agent@, chain: chain_view(self.chain@) }
    }
}

impl Clone for AgentState {
    fn clone(&self) -> (copy: Self)
        ensures
            copy@ == self@,
    {
        proof {
            use_type_invariant(self);
        }
        let chain = self.chain.clone();
        assert(chain_view(chain@) =~= chain_view(self.chain@));
        AgentState { agent: self.agent.clone(), chain }
    }
}

impl AgentState {
    #[verifier::type_invariant]
    spec fn linked(&self) -> bool {
        chain_linked(chain_view(self.chain@))
    }

    /// The state of an agent that has committed nothing yet.
    pub fn new(agent: &Address) -> (state: AgentState)
        ensures
            state@.agent == agent@,
            state@.chain == Seq::<ChainPairView>::empty(),
    {
        let state = AgentState { agent: agent.clone(), chain: Vec::new() };
        assert(state@.chain =~= Seq::<ChainPairView>::empty());
        state
    }

    /// The agent's address.
    pub fn agent(&self) -> (agent: Address)
        ensures
            agent@ == self@.agent,
    {
        self.agent.clone()
    }

    /// How many commits the chain holds. The chain of every agent is linked.
    pub fn len(&self) -> (count: usize)
        ensures
            count == self@.chain.len(),
            chain_linked(self@.chain),
    {
        proof {
            use_type_invariant(self);
        }
        self.chain.len()
    }

    /// The commit at `index`, counted from the oldest.
    pub fn pair(&self, index: usize) -> (pair: &ChainPair)
        requires
            index < self@.chain.len(),
        ensures
            pair@ == self@.chain[index as int],
    {
        &self.chain[index]
    }

    /// The newest header, if the chain has any.
    pub fn top_chain_header(&self) -> (top: Option<ChainHeader>)
        ensures
            match top {
                Some(header) => self@.chain.len() > 0 && header@ == self@.chain.last().header,
                None => self@.chain.len() == 0,
            },
    {
        if self.chain.len() == 0 {
            None
        } else {
            Some(self.chain[self.chain.len() - 1].header.clone())
        }
    }

    /// The address of the newest header of the given kind, if there is one.
    pub fn top_header_address_of_type(&self, entry_type: &EntryType) -> (found: Option<Address>)
        ensures
            crate::model::option_view(found) == newest_of_type(self@.chain, entry_type@),
    {
        let ghost chain = chain_view(self.chain@);
        let mut remaining: usize = self.chain.len();
        assert(chain.take(remaining as int) =~= chain);
        while remaining > 0
            invariant
                remaining <= self.chain.len(),
                chain == chain_view(self.chain@),
                newest_of_type(chain, entry_type@) == newest_of_type(
                    chain.take(remaining as int),
                    entry_type@,
                ),
            decreases remaining,
        {
            let ghost prefix = chain.take(remaining as int);
            assert(prefix.last() == chain[remaining - 1]);
            assert(prefix.drop_last() =~= chain.take(remaining - 1));
            remaining -= 1;
            if self.chain[remaining].header.entry_type.same(entry_type) {
                return Some(self.chain[remaining].header.address());
            }
        }
        None
    }

    /// The header of the newest commit of `entry`, if the chain holds one.
    pub fn get_header_for_entry(&self, entry: &Entry) -> (found: Option<ChainHeader>)
        ensures
            crate::model::option_view(found) == newest_header_of(self@.chain, entry@.address()),
    {
        let address = entry.address();
        let ghost chain = chain_view(self.chain@);
        let mut remaining: usize = self.chain.len();
        assert(chain.take(remaining as int) =~= chain);
        while remaining > 0
            invariant
                remaining <= self.chain.len(),
                chain == chain_view(self.chain@),
                address@ == entry@.address(),
                newest_header_of(chain, address@) == newest_header_of(
                    chain.take(remaining as int),
                    address@,
                ),
            decreases remaining,
        {
            let ghost prefix = chain.take(remaining as int);
            assert(prefix.last() == chain[remaining - 1]);
            assert(prefix.drop_last() =~= chain.take(remaining - 1));
            remaining -= 1;
            if self.chain[remaining].header.entry_address.same(&address) {
                return Some(self.chain[remaining].header.clone());
            }
        }
        None
    }

    /// Commits `entry` on top of the chain and hands back its header.
    pub fn commit(&mut self, entry: &Entry) -> (header: ChainHeader)
        ensures
            header@ == next_header(old(self)@.agent, old(self)@.chain, entry@),
            final(self)@.agent == old(self)@.agent,
            final(self)@.chain == old(self)@.chain.push(
                ChainPairView { header: header@, entry: entry@ },
            ),
    {
        proof {
            use_type_invariant(&*self);
        }
        let header = create_new_chain_header(entry, self);
        let mut taken = AgentState { agent: self.agent.clone(), chain: Vec::new() };
        assert(chain_view(taken.chain@) =~= Seq::<ChainPairView>::empty());
        core::mem::swap(self, &mut taken);
        let AgentState { agent, chain } = taken;
        let mut chain = chain;
        let ghost before = chain_view(chain@);
        chain.push(ChainPair { header: header.clone(), entry: entry.clone() });
        proof {
            let after = chain_view(chain@);
            assert(after =~= before.push(ChainPairView { header: header@, entry: entry@ }));
            assert forall|i: int| 0 <= i < after.len() implies {
                &&& (#[trigger] after[i]).header.entry_address == after[i].entry.address()
                &&& after[i].header.entry_type == after[i].entry.entry_type()
                &&& after[i].header.link == top_address(after.take(i))
                &&& after[i].header.link_same_type == newest_of_type(
                    after.take(i),
                    after[i].header.entry_type,
                )
            } by {
                if i < before.len() {
                    assert(after[i] == before[i]);
                    assert(after.take(i) =~= before.take(i));
                } else {
                    assert(after.take(i) =~= before);
                }
            }
        }
        *self = AgentState { agent, chain };
        header
    }
}

/// The header that `entry` would get if the agent committed it now. Nothing is
/// committed: the header names the chain's top as its predecessor.
pub fn create_new_chain_header(entry: &Entry, agent_state: &AgentState) -> (header: ChainHeader)
    ensures
        header@ == next_header(agent_state@.agent, agent_state@.chain, entry@),
{
    let entry_type = entry.entry_type();
    let link = match agent_state.top_chain_header() {
        Some(top) => Some(top.address()),
        None => None,
    };
    let link_same_type = agent_state.top_header_address_of_type(&entry_type);
    let mut sources: Vec<Address> = Vec::new();
    sources.push(agent_state.agent());
    let header = ChainHeader {
        entry_type,
        entry_address: entry.address(),
        sources,
        link,
        link_same_type,
        timestamp: String::new(),
    };
    assert(header@.sources =~= seq![agent_state@.agent]);
    header
}

} // verus!
