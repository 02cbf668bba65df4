//! Building the validation package of an entry: the evidence that its
//! validators are owed.
//!
//! The work has two halves, with the application's callback between them.
//! `build_validation_package` decides whether there is anything to build and
//! for which header; `assemble_validation_package` builds it from what the
//! callback answered. Running the callback, and carrying the answer back
//! into the state as an action, is the caller's part.

use crate::agent::{
    create_new_chain_header, entries_of, headers_of, keep_published, lemma_keep_published_step,
    lemma_published_are_complete, lemma_published_are_publishable, newest_header_of, next_header, published, published_entries,
    published_headers, AgentState, AgentStateView, ChainPairView,
};
use crate::chain_header::{ChainHeader, ChainHeaderView};
use crate::dna::zome_declaring;
use crate::entry::{Entry, EntryTypeView, EntryView};
use crate::error::{ErrorView, HolochainError};
use crate::model::{seq_view, seq_view_push};
use crate::nucleus::{
    package_result_view, NucleusState, PackageResult, RequestId, ValidationPackageFuture,
};
use crate::validation::{
    CallbackResult, CallbackResultView, DefinitionView, ValidationPackage,
    ValidationPackageDefinition, ValidationPackageView,
};
use vstd::prelude::*;

verus! {

/// A package that is being built: the key under which its answer will be
/// stored, the entry, and the header that the package will carry.
#[derive(Debug)]
pub struct PackageRequest {
    pub id: RequestId,
    pub entry: Entry,
    pub entry_header: ChainHeader,
}

impl PackageRequest {
    /// The awaitable that is ready once the answer is in the state.
    pub fn future(&self) -> (future: ValidationPackageFuture)
        ensures
            future.key@ == self.id@,
    {
        ValidationPackageFuture { key: self.id.clone() }
    }
}

/// The error for an entry whose kind no zome declares.
pub open spec fn unknown_entry_type(name: Seq<char>) -> ErrorView {
    ErrorView::ValidationFailed("Unknown entry type: '"@ + name + "'"@)
}

/// The error for a kind whose application has no callback for its package.
pub open spec fn callback_not_implemented(entry_type: EntryTypeView) -> ErrorView {
    ErrorView::Generic("ValidationPackage callback not implemented for "@ + entry_type.debug())
}

/// The header that the package of `entry` carries: that of its newest commit,
/// or, for an entry that is not committed yet, the header that a commit on
/// the chain as it stands would give it.
pub open spec fn header_for(entry: EntryView, agent: AgentStateView) -> ChainHeaderView {
    match newest_header_of(agent.chain, entry.address()) {
        Some(header) => header,
        None => next_header(agent.agent, agent.chain, entry),
    }
}

/// The mathematical value of what a callback came back with.
pub open spec fn callback_view(callback: Result<CallbackResult, HolochainError>) -> Result<
    CallbackResultView,
    ErrorView,
> {
    match callback {
        Ok(result) => Ok(result@),
        Err(error) => Err(error@),
    }
}

/// The package definition that the callback's answer amounts to for an entry
/// of the given kind, or the error that it amounts to.
pub open spec fn wanted_definition(
    entry_type: EntryTypeView,
    callback: Result<CallbackResultView, ErrorView>,
) -> Result<DefinitionView, ErrorView>
    recommends
        !(callback matches Ok(CallbackResultView::Pass)),
{
    match callback {
        Err(error) => Err(error),
        Ok(CallbackResultView::Fail(reason)) => Err(ErrorView::Generic(reason)),
        Ok(CallbackResultView::NotImplemented) => Err(callback_not_implemented(entry_type)),
        Ok(CallbackResultView::Definition(definition)) => Ok(definition),
        Ok(CallbackResultView::Pass) => arbitrary(),
    }
}

/// The package for a header under a definition, over the author's chain.
pub open spec fn package_of(
    header: ChainHeaderView,
    definition: DefinitionView,
    chain: Seq<ChainPairView>,
) -> ValidationPackageView {
    ValidationPackageView {
        chain_header: Some(header),
        source_chain_entries: match definition {
            DefinitionView::ChainEntries | DefinitionView::ChainFull => Some(
                published_entries(chain),
            ),
            _ => None,
        },
        source_chain_headers: match definition {
            DefinitionView::ChainHeaders | DefinitionView::ChainFull => Some(
                published_headers(chain),
            ),
            _ => None,
        },
        custom: match definition {
            DefinitionView::Custom(payload) => Some(payload),
            _ => None,
        },
    }
}

/// What the second half comes to: the package, or the error.
pub open spec fn assembled(
    entry_type: EntryTypeView,
    header: ChainHeaderView,
    callback: Result<CallbackResultView, ErrorView>,
    chain: Seq<ChainPairView>,
) -> Result<ValidationPackageView, ErrorView> {
    match wanted_definition(entry_type, callback) {
        Ok(definition) => Ok(package_of(header, definition, chain)),
        Err(error) => Err(error),
    }
}

/// Every package carries its header. It carries the chain's entries exactly
/// when the definition asks for entries or for the full chain, the chain's
/// headers exactly when it asks for headers or for the full chain, and a
/// custom payload exactly when the definition is custom, and then that
/// payload. Every header in it is a header of the chain whose kind is
/// published, and every entry in it stands in the chain beside such a header.
/// Nothing published is missing: where the package carries headers, it
/// carries the header of every pair of the chain whose kind is published, and
/// where it carries entries, the entry of every such pair.
pub proof fn lemma_package_shape(
    header: ChainHeaderView,
    definition: DefinitionView,
    chain: Seq<ChainPairView>,
)
    ensures
        package_of(header, definition, chain).chain_header == Some(header),
        package_of(header, definition, chain).source_chain_entries is Some <==> (definition
            is ChainEntries || definition is ChainFull),
        package_of(header, definition, chain).source_chain_headers is Some <==> (definition
            is ChainHeaders || definition is ChainFull),
        package_of(header, definition, chain).custom is Some <==> definition is Custom,
        definition matches DefinitionView::Custom(payload) ==> package_of(
            header,
            definition,
            chain,
        ).custom == Some(payload),
        package_of(header, definition, chain).source_chain_headers matches Some(headers)
            ==> forall|i: int|
            0 <= i < headers.len() ==> (#[trigger] headers[i]).entry_type.can_publish() && exists|
                j: int,
            |
                0 <= j < chain.len() && (#[trigger] chain[j]).header == headers[i],
        package_of(header, definition, chain).source_chain_entries matches Some(entries)
            ==> forall|i: int|
            0 <= i < entries.len() ==> exists|j: int|
                0 <= j < chain.len() && (#[trigger] chain[j]).entry == (#[trigger] entries[i])
                    && chain[j].header.entry_type.can_publish(),
        package_of(header, definition, chain).source_chain_headers matches Some(headers)
            ==> forall|j: int|
            0 <= j < chain.len() && (#[trigger] chain[j]).header.entry_type.can_publish()
                ==> headers.contains(chain[j].header),
        package_of(header, definition, chain).source_chain_entries matches Some(entries)
            ==> forall|j: int|
            0 <= j < chain.len() && (#[trigger] chain[j]).header.entry_type.can_publish()
                ==> entries.contains(chain[j].entry),
{
    lemma_published_are_publishable(chain);
    lemma_published_are_complete(chain);
    let kept = published(chain);
    assert forall|j: int|
        0 <= j < chain.len() && (#[trigger] chain[j]).header.entry_type.can_publish() implies published_headers(
        chain,
    ).contains(chain[j].header) && published_entries(chain).contains(chain[j].entry) by {
        assert(kept.contains(chain[j]));
        let i = choose|i: int| 0 <= i < kept.len() && kept[i] == chain[j];
        assert(published_headers(chain)[i] == chain[j].header);
        assert(published_entries(chain)[i] == chain[j].entry);
    }
    assert forall|i: int| 0 <= i < kept.len() implies exists|j: int|
        0 <= j < chain.len() && (#[trigger] chain[j]) == (#[trigger] kept[i]) by {
        assert(chain.contains(kept[i]));
    }
    assert forall|i: int| 0 <= i < published_headers(chain).len() implies (
    #[trigger] published_headers(chain)[i]).entry_type.can_publish() && exists|j: int|
        0 <= j < chain.len() && (#[trigger] chain[j]).header == published_headers(chain)[i] by {
        let j = choose|j: int| 0 <= j < chain.len() && (#[trigger] chain[j]) == kept[i];
        assert(chain[j].header == published_headers(chain)[i]);
    }
    assert forall|i: int| 0 <= i < published_entries(chain).len() implies exists|j: int|
        0 <= j < chain.len() && (#[trigger] chain[j]).entry == (#[trigger] published_entries(
            chain,
        )[i]) && chain[j].header.entry_type.can_publish() by {
        let j = choose|j: int| 0 <= j < chain.len() && (#[trigger] chain[j]) == kept[i];
        assert(chain[j].entry == published_entries(chain)[i]);
    }
}

/// The header of the newest commit of `entry` on the agent's chain.
pub fn chain_header(entry: &Entry, agent: &AgentState) -> (found: Option<ChainHeader>)
    ensures
        crate::model::option_view(found) == newest_header_of(agent@.chain, entry@.address()),
{
    agent.get_header_for_entry(entry)
}

/// The entries of the chain whose kind is published, newest first.
pub fn all_public_chain_entries(agent: &AgentState) -> (entries: Vec<Entry>)
    ensures
        seq_view(entries@) == published_entries(agent@.chain),
{
    let ghost chain = agent@.chain;
    let ghost walk = chain.reverse();
    let total = agent.len();
    let mut entries: Vec<Entry> = Vec::new();
    let mut step: usize = 0;
    assert(walk.take(0) =~= Seq::<ChainPairView>::empty());
    assert(keep_published(Seq::<ChainPairView>::empty()) =~= Seq::<ChainPairView>::empty()) by {
        reveal(Seq::filter);
    }
    assert(seq_view(entries@) =~= entries_of(keep_published(walk.take(0))));
    while step < total
        invariant
            step <= total,
            total == chain.len(),
            chain == agent@.chain,
            walk == chain.reverse(),
            seq_view(entries@) == entries_of(keep_published(walk.take(step as int))),
        decreases total - step,
    {
        let pair = agent.pair(total - 1 - step);
        proof {
            assert(walk[step as int] == pair@);
            assert(walk.take(step + 1) =~= walk.take(step as int).push(pair@));
            lemma_keep_published_step(walk.take(step as int), pair@);
        }
        if pair.header.entry_type.can_publish() {
            proof {
                seq_view_push(entries@, pair.entry);
            }
            entries.push(pair.entry.clone());
        }
        step += 1;
    }
    assert(walk.take(total as int) =~= walk);
    entries
}

/// The headers of the chain whose kind is published, newest first.
pub fn all_public_chain_headers(agent: &AgentState) -> (headers: Vec<ChainHeader>)
    ensures
        seq_view(headers@) == published_headers(agent@.chain),
{
    let ghost chain = agent@.chain;
    let ghost walk = chain.reverse();
    let total = agent.len();
    let mut headers: Vec<ChainHeader> = Vec::new();
    let mut step: usize = 0;
    assert(walk.take(0) =~= Seq::<ChainPairView>::empty());
    assert(keep_published(Seq::<ChainPairView>::empty()) =~= Seq::<ChainPairView>::empty()) by {
        reveal(Seq::filter);
    }
    assert(seq_view(headers@) =~= headers_of(keep_published(walk.take(0))));
    while step < total
        invariant
            step <= total,
            total == chain.len(),
            chain == agent@.chain,
            walk == chain.reverse(),
            seq_view(headers@) == headers_of(keep_published(walk.take(step as int))),
        decreases total - step,
    {
        let pair = agent.pair(total - 1 - step);
        proof {
            assert(walk[step as int] == pair@);
            assert(walk.take(step + 1) =~= walk.take(step as int).push(pair@));
            lemma_keep_published_step(walk.take(step as int), pair@);
        }
        if pair.header.entry_type.can_publish() {
            let copy = pair.header.clone();
            proof {
                seq_view_push(headers@, copy);
            }
            headers.push(copy);
        }
        step += 1;
    }
    assert(walk.take(total as int) =~= walk);
    headers
}

/// The first half: refuses an entry whose kind no zome of the DNA declares,
/// and otherwise opens a request for the entry's package, under a fresh key
/// and with the header that the package will carry.
pub fn build_validation_package(entry: &Entry, nucleus: &NucleusState, agent: &AgentState) -> (started:
    Result<PackageRequest, HolochainError>)
    requires
        nucleus@.dna is Some,
    ensures
        match zome_declaring(nucleus@.dna->0, entry@.entry_type().name()) {
            None => started matches Err(error) && error@ == unknown_entry_type(
                entry@.entry_type().name(),
            ),
            Some(_) => started matches Ok(request) && request.entry@ == entry@
                && request.entry_header@ == header_for(entry@, agent@),
        },
{
    let id = RequestId::new();
    let name = entry.entry_type().as_str();
    let zome = match &nucleus.dna {
        Some(dna) => dna.get_zome_name_for_entry_type(name.as_str()),
        None => unreached(),
    };
    match zome {
        None => {
            let mut reason = String::from_str("Unknown entry type: '");
            reason.append(name.as_str());
            reason.append("'");
            Err(HolochainError::ValidationFailed(reason))
        },
        Some(_) => {
            let entry_header = match chain_header(entry, agent) {
                Some(header) => header,
                None => create_new_chain_header(entry, agent),
            };
            Ok(PackageRequest { id, entry: entry.clone(), entry_header })
        },
    }
}

/// The package for a header under a definition, over the agent's chain.
pub fn package_for_definition(
    entry_header: &ChainHeader,
    definition: &ValidationPackageDefinition,
    agent: &AgentState,
) -> (package: ValidationPackage)
    ensures
        package@ == package_of(entry_header@, definition@, agent@.chain),
{
    let mut package = ValidationPackage::only_header(entry_header.clone());
    match definition {
        ValidationPackageDefinition::Entry => {},
        ValidationPackageDefinition::ChainEntries => {
            package.source_chain_entries = Some(all_public_chain_entries(agent));
        },
        ValidationPackageDefinition::ChainHeaders => {
            package.source_chain_headers = Some(all_public_chain_headers(agent));
        },
        ValidationPackageDefinition::ChainFull => {
            package.source_chain_entries = Some(all_public_chain_entries(agent));
            package.source_chain_headers = Some(all_public_chain_headers(agent));
        },
        ValidationPackageDefinition::Custom(payload) => {
            package.custom = Some(payload.clone());
        },
    }
    package
}

/// The second half: what the request comes to, given what the application's
/// callback for the entry's kind answered. A callback that failed, refused or
/// is missing gives the error; a definition gives the package over the
/// agent's chain. The callback for a package definition never answers `Pass`.
pub fn assemble_validation_package(
    request: &PackageRequest,
    callback: &Result<CallbackResult, HolochainError>,
    agent: &AgentState,
) -> (result: PackageResult)
    requires
        !(callback matches Ok(CallbackResult::Pass)),
    ensures
        package_result_view(result) == assembled(
            request.entry@.entry_type(),
            request.entry_header@,
            callback_view(*callback),
            agent@.chain,
        ),
{
    match callback {
        Err(error) => Err(error.clone()),
        Ok(CallbackResult::Fail(reason)) => Err(HolochainError::ErrorGeneric(reason.clone())),
        Ok(CallbackResult::NotImplemented) => {
            let mut reason = String::from_str("ValidationPackage callback not implemented for ");
            reason.append(request.entry.entry_type().debug().as_str());
            Err(HolochainError::ErrorGeneric(reason))
        },
        Ok(CallbackResult::ValidationPackageDefinition(definition)) => Ok(
            package_for_definition(&request.entry_header, definition, agent),
        ),
        Ok(CallbackResult::Pass) => unreached(),
    }
}

} // verus!
