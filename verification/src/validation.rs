//! What a validator is given to judge an entry by.

use crate::chain_header::{ChainHeader, ChainHeaderView};
use crate::entry::{Entry, EntryView};
use crate::hash::Address;
use crate::model::{option_view, seq_view};
use vstd::prelude::*;

verus! {

/// The evidence that travels with an entry to its validator: the entry's
/// header, and as much of the author's chain as the entry's kind asks for.
#[derive(Debug, PartialEq, Eq)]
pub struct ValidationPackage {
    pub chain_header: Option<ChainHeader>,
    pub source_chain_entries: Option<Vec<Entry>>,
    pub source_chain_headers: Option<Vec<ChainHeader>>,
    pub custom: Option<String>,
}

/// The mathematical value of a `ValidationPackage`.
pub struct ValidationPackageView {
    pub chain_header: Option<ChainHeaderView>,
    pub source_chain_entries: Option<Seq<EntryView>>,
    pub source_chain_headers: Option<Seq<ChainHeaderView>>,
    pub custom: Option<Seq<char>>,
}

impl View for ValidationPackage {
    type V = ValidationPackageView;

    open spec fn view(&self) -> ValidationPackageView {
        ValidationPackageView {
            chain_header: option_view(self.chain_header),
            source_chain_entries: match self.source_chain_entries {
                Some(entries) => Some(seq_view(entries@)),
                None => None,
            },
            source_chain_headers: match self.source_chain_headers {
                Some(headers) => Some(seq_view(headers@)),
                None => None,
            },
            custom: option_view(self.custom),
        }
    }
}

impl ValidationPackageView {
    /// The package that holds the header and nothing else.
    pub open spec fn only_header(header: ChainHeaderView) -> ValidationPackageView {
        ValidationPackageView {
            chain_header: Some(header),
            source_chain_entries: None,
            source_chain_headers: None,
            custom: None,
        }
    }
}

impl Clone for ValidationPackage {
    fn clone(&self) -> (copy: Self)
        ensures
            copy@ == self@,
    {
        let source_chain_entries = match &self.source_chain_entries {
            Some(entries) => {
                let copies = entries.clone();
                assert(seq_view(copies@) =~= seq_view(entries@));
                Some(copies)
            },
            None => None,
        };
        let source_chain_headers = match &self.source_chain_headers {
            Some(headers) => {
                let copies = headers.clone();
                assert(seq_view(copies@) =~= seq_view(headers@));
                Some(copies)
            },
            None => None,
        };
        ValidationPackage {
            chain_header: self.chain_header.clone(),
            source_chain_entries,
            source_chain_headers,
            custom: self.custom.clone(),
        }
    }
}

impl ValidationPackage {
    /// The package that holds the header and nothing else.
    pub fn only_header(header: ChainHeader) -> (package: ValidationPackage)
        ensures
            package@ == ValidationPackageView::only_header(header@),
    {
        ValidationPackage {
            chain_header: Some(header),
            source_chain_entries: None,
            source_chain_headers: None,
            custom: None,
        }
    }
}

/// How much of its author's chain an entry's kind wants its validators to see.
#[derive(Debug, PartialEq, Eq)]
pub enum ValidationPackageDefinition {
    /// The entry's header only.
    Entry,
    /// The header and the chain's published entries.
    ChainEntries,
    /// The header and the headers of the chain's published entries.
    ChainHeaders,
    /// The header, the published entries and their headers.
    ChainFull,
    /// The header and a payload that only the application understands.
    Custom(String),
}

/// The mathematical value of a `ValidationPackageDefinition`.
pub enum DefinitionView {
    Entry,
    ChainEntries,
    ChainHeaders,
    ChainFull,
    Custom(Seq<char>),
}

impl View for ValidationPackageDefinition {
    type V = DefinitionView;

    open spec fn view(&self) -> DefinitionView {
        match self {
            ValidationPackageDefinition::Entry => DefinitionView::Entry,
            ValidationPackageDefinition::ChainEntries => DefinitionView::ChainEntries,
            ValidationPackageDefinition::ChainHeaders => DefinitionView::ChainHeaders,
            ValidationPackageDefinition::ChainFull => DefinitionView::ChainFull,
            ValidationPackageDefinition::Custom(payload) => DefinitionView::Custom(payload@),
        }
    }
}

impl Clone for ValidationPackageDefinition {
    fn clone(&self) -> (copy: Self)
        ensures
            copy == *self,
    {
        match self {
            ValidationPackageDefinition::Entry => ValidationPackageDefinition::Entry,
            ValidationPackageDefinition::ChainEntries => ValidationPackageDefinition::ChainEntries,
            ValidationPackageDefinition::ChainHeaders => ValidationPackageDefinition::ChainHeaders,
            ValidationPackageDefinition::ChainFull => ValidationPackageDefinition::ChainFull,
            ValidationPackageDefinition::Custom(payload) => ValidationPackageDefinition::Custom(
                payload.clone(),
            ),
        }
    }
}

/// What an application callback answered.
#[derive(Debug, PartialEq, Eq)]
pub enum CallbackResult {
    /// The callback accepted.
    Pass,
    /// The callback refused, with its reason.
    Fail(String),
    /// The application has no such callback.
    NotImplemented,
    /// The callback named the validation package that it wants.
    ValidationPackageDefinition(ValidationPackageDefinition),
}

/// The mathematical value of a `CallbackResult`.
pub enum CallbackResultView {
    Pass,
    Fail(Seq<char>),
    NotImplemented,
    Definition(DefinitionView),
}

impl View for CallbackResult {
    type V = CallbackResultView;

    open spec fn view(&self) -> CallbackResultView {
        match self {
            CallbackResult::Pass => CallbackResultView::Pass,
            CallbackResult::Fail(reason) => CallbackResultView::Fail(reason@),
            CallbackResult::NotImplemented => CallbackResultView::NotImplemented,
            CallbackResult::ValidationPackageDefinition(definition) => {
                CallbackResultView::Definition(definition@)
            },
        }
    }
}

/// Where in its life an entry is when it is validated.
#[derive(Debug, Clone, Copy, PartialEq, Eq, Structural)]
pub enum EntryLifecycle {
    /// On its author's chain.
    Chain,
    /// Held by the DHT as an entry.
    Dht,
    /// Held by the DHT as metadata of another entry.
    Meta,
}

/// What is being done with an entry when it is validated.
#[derive(Debug, Clone, Copy, PartialEq, Eq, Structural)]
pub enum EntryAction {
    Create,
    Modify,
    Delete,
}

/// Everything a validation callback is handed besides the entry itself.
#[derive(Debug, PartialEq, Eq)]
pub struct ValidationData {
    pub package: ValidationPackage,
    pub sources: Vec<Address>,
    pub lifecycle: EntryLifecycle,
    pub action: EntryAction,
}

/// The mathematical value of a `ValidationData`.
pub struct ValidationDataView {
    pub package: ValidationPackageView,
    pub sources: Seq<Seq<char>>,
    pub lifecycle: EntryLifecycle,
    pub action: EntryAction,
}

impl View for ValidationData {
    type V = ValidationDataView;

    open spec fn view(&self) -> ValidationDataView {
        ValidationDataView {
            package: self.package@,
            sources: seq_view(self.sources@),
            lifecycle: self.lifecycle,
            action: self.action,
        }
    }
}

} // verus!
