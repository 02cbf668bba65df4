//! Holding a link for the DHT: get the validation package from the link's
//! author, validate the link against it, and only then keep it.
//!
//! The workflow waits three times for work that is not its own. It is written
//! as a machine that is told what came of each wait and answers with what to
//! do next; running it is the caller's part.

use crate::chain_header::{ChainHeader, ChainHeaderView};
use crate::entry::{Entry, EntryView, Link, LinkView};
use crate::error::{ErrorView, HolochainError};
use crate::model::seq_view;
use crate::validation::{
    EntryAction, EntryLifecycle, ValidationData, ValidationDataView, ValidationPackage,
    ValidationPackageView,
};
use vstd::prelude::*;

verus! {

/// An entry as it arrives from its author: with its header.
#[derive(Debug, PartialEq, Eq)]
pub struct EntryWithHeader {
    pub entry: Entry,
    pub header: ChainHeader,
}

/// Where a workflow stands.
#[derive(Debug, PartialEq, Eq)]
pub enum HoldLinkState {
    /// Nothing has been done yet.
    Started,
    /// The author has been asked for the validation package.
    AwaitingPackage,
    /// The application is judging the link.
    Validating,
    /// The link is being written into the store.
    Committing,
    /// The link is held.
    Succeeded,
    /// The workflow has ended without holding the link, for this reason.
    Failed(HolochainError),
}

/// The mathematical value of a `HoldLinkState`.
pub enum HoldLinkStateView {
    Started,
    AwaitingPackage,
    Validating,
    Committing,
    Succeeded,
    Failed(ErrorView),
}

impl View for HoldLinkState {
    type V = HoldLinkStateView;

    open spec fn view(&self) -> HoldLinkStateView {
        match self {
            HoldLinkState::Started => HoldLinkStateView::Started,
            HoldLinkState::AwaitingPackage => HoldLinkStateView::AwaitingPackage,
            HoldLinkState::Validating => HoldLinkStateView::Validating,
            HoldLinkState::Committing => HoldLinkStateView::Committing,
            HoldLinkState::Succeeded => HoldLinkStateView::Succeeded,
            HoldLinkState::Failed(error) => HoldLinkStateView::Failed(error@),
        }
    }
}

impl HoldLinkStateView {
    /// Whether the workflow has ended.
    pub open spec fn terminal(self) -> bool {
        self is Succeeded || self is Failed
    }

    /// How far the workflow has come.
    pub open spec fn rank(self) -> nat {
        match self {
            HoldLinkStateView::Started => 0,
            HoldLinkStateView::AwaitingPackage => 1,
            HoldLinkStateView::Validating => 2,
            HoldLinkStateView::Committing => 3,
            HoldLinkStateView::Succeeded => 4,
            HoldLinkStateView::Failed(_) => 4,
        }
    }
}

/// What the workflow is told.
#[derive(Debug, PartialEq, Eq)]
pub enum HoldLinkEvent {
    /// Go.
    Begin,
    /// The wait for the validation package is over: the package, the news
    /// that the author has none, or the error.
    Package(Result<Option<ValidationPackage>, HolochainError>),
    /// The application has judged the link.
    Validated(Result<(), HolochainError>),
    /// The store has answered.
    Committed(Result<(), HolochainError>),
}

/// The mathematical value of a `HoldLinkEvent`.
pub enum HoldLinkEventView {
    Begin,
    Package(Result<Option<ValidationPackageView>, ErrorView>),
    Validated(Result<(), ErrorView>),
    Committed(Result<(), ErrorView>),
}

impl View for HoldLinkEvent {
    type V = HoldLinkEventView;

    open spec fn view(&self) -> HoldLinkEventView {
        match self {
            HoldLinkEvent::Begin => HoldLinkEventView::Begin,
            HoldLinkEvent::Package(Ok(Some(package))) => HoldLinkEventView::Package(
                Ok(Some(package@)),
            ),
            HoldLinkEvent::Package(Ok(None)) => HoldLinkEventView::Package(Ok(None)),
            HoldLinkEvent::Package(Err(error)) => HoldLinkEventView::Package(Err(error@)),
            HoldLinkEvent::Validated(Ok(())) => HoldLinkEventView::Validated(Ok(())),
            HoldLinkEvent::Validated(Err(error)) => HoldLinkEventView::Validated(Err(error@)),
            HoldLinkEvent::Committed(Ok(())) => HoldLinkEventView::Committed(Ok(())),
            HoldLinkEvent::Committed(Err(error)) => HoldLinkEventView::Committed(Err(error@)),
        }
    }
}

/// What the workflow asks its caller to do next.
#[derive(Debug, PartialEq, Eq)]
pub enum HoldLinkAction {
    /// Ask the author of the header for the entry's validation package, and
    /// come back with `Package`.
    GetValidationPackage(ChainHeader),
    /// Let the application validate the entry against the data, and come
    /// back with `Validated`.
    ValidateEntry(Entry, ValidationData),
    /// Write the link into the store, and come back with `Committed`.
    AddLink(Link),
    /// The workflow has ended, with this result.
    Done(Result<(), HolochainError>),
}

/// The mathematical value of a `HoldLinkAction`.
pub enum HoldLinkActionView {
    GetValidationPackage(ChainHeaderView),
    ValidateEntry(EntryView, ValidationDataView),
    AddLink(LinkView),
    Done(Result<(), ErrorView>),
}

impl View for HoldLinkAction {
    type V = HoldLinkActionView;

    open spec fn view(&self) -> HoldLinkActionView {
        match self {
            HoldLinkAction::GetValidationPackage(header) => {
                HoldLinkActionView::GetValidationPackage(header@)
            },
            HoldLinkAction::ValidateEntry(entry, data) => HoldLinkActionView::ValidateEntry(
                entry@,
                data@,
            ),
            HoldLinkAction::AddLink(link) => HoldLinkActionView::AddLink(link@),
            HoldLinkAction::Done(Ok(())) => HoldLinkActionView::Done(Ok(())),
            HoldLinkAction::Done(Err(error)) => HoldLinkActionView::Done(Err(error@)),
        }
    }
}

/// The error for an entry that is no link.
pub open spec fn not_a_link() -> ErrorView {
    ErrorView::Generic("hold_link_workflow expects entry to be an Entry::LinkAdd"@)
}

/// The error for an author who has no validation package for its entry.
pub open spec fn no_package() -> ErrorView {
    ErrorView::Generic("Could not get validation package from source"@)
}

/// What the application is given to validate a link that is to be held as
/// metadata: the package, the header's sources, and that the link is being
/// created.
pub open spec fn validation_data_for(package: ValidationPackageView, header: ChainHeaderView)
    -> ValidationDataView {
    ValidationDataView {
        package,
        sources: header.sources,
        lifecycle: EntryLifecycle::Meta,
        action: EntryAction::Create,
    }
}

/// One step of the workflow for `entry` with `header`: the state after the
/// event, and what to do next. An event that the state is not waiting for,
/// and every event after the end, changes nothing and asks for nothing.
pub open spec fn transition(
    entry: EntryView,
    header: ChainHeaderView,
    state: HoldLinkStateView,
    event: HoldLinkEventView,
) -> (HoldLinkStateView, Option<HoldLinkActionView>) {
    match (state, event) {
        (HoldLinkStateView::Started, HoldLinkEventView::Begin) => match entry {
            EntryView::LinkAdd(_) => (
                HoldLinkStateView::AwaitingPackage,
                Some(HoldLinkActionView::GetValidationPackage(header)),
            ),
            _ => (
                HoldLinkStateView::Failed(not_a_link()),
                Some(HoldLinkActionView::Done(Err(not_a_link()))),
            ),
        },
        (HoldLinkStateView::AwaitingPackage, HoldLinkEventView::Package(arrived)) => match arrived {
            Err(error) => (
                HoldLinkStateView::Failed(error),
                Some(HoldLinkActionView::Done(Err(error))),
            ),
            Ok(None) => (
                HoldLinkStateView::Failed(no_package()),
                Some(HoldLinkActionView::Done(Err(no_package()))),
            ),
            Ok(Some(package)) => (
                HoldLinkStateView::Validating,
                Some(
                    HoldLinkActionView::ValidateEntry(entry, validation_data_for(package, header)),
                ),
            ),
        },
        (HoldLinkStateView::Validating, HoldLinkEventView::Validated(judged)) => match judged {
            Err(error) => (
                HoldLinkStateView::Failed(error),
                Some(HoldLinkActionView::Done(Err(error))),
            ),
            Ok(()) => match entry {
                EntryView::LinkAdd(link) => (
                    HoldLinkStateView::Committing,
                    Some(HoldLinkActionView::AddLink(link)),
                ),
                _ => (state, None),
            },
        },
        (HoldLinkStateView::Committing, HoldLinkEventView::Committed(written)) => match written {
            Err(error) => (
                HoldLinkStateView::Failed(error),
                Some(HoldLinkActionView::Done(Err(error))),
            ),
            Ok(()) => (HoldLinkStateView::Succeeded, Some(HoldLinkActionView::Done(Ok(())))),
        },
        _ => (state, None),
    }
}

/// The mathematical value of what a step asks for.
pub open spec fn asked_view(asked: Option<HoldLinkAction>) -> Option<HoldLinkActionView> {
    match asked {
        Some(action) => Some(action@),
        None => None,
    }
}

/// One run of the workflow for one entry.
#[derive(Debug)]
pub struct HoldLink {
    entry: Entry,
    header: ChainHeader,
    state: HoldLinkState,
}

/// The mathematical value of a `HoldLink`.
pub struct HoldLinkView {
    pub entry: EntryView,
    pub header: ChainHeaderView,
    pub state: HoldLinkStateView,
}

impl View for HoldLink {
    type V = HoldLinkView;

    closed spec fn view(&self) -> HoldLinkView {
        HoldLinkView { entry: self.entry@, header: self.header@, state: self.state@ }
    }
}

impl HoldLink {
    /// A workflow for the entry that has not begun.
    pub fn new(entry_with_header: &EntryWithHeader) -> (workflow: HoldLink)
        ensures
            workflow@ == (HoldLinkView {
                entry: entry_with_header.entry@,
                header: entry_with_header.header@,
                state: HoldLinkStateView::Started,
            }),
    {
        HoldLink {
            entry: entry_with_header.entry.clone(),
            header: entry_with_header.header.clone(),
            state: HoldLinkState::Started,
        }
    }

    /// Where the workflow stands.
    pub fn state(&self) -> (state: &HoldLinkState)
        ensures
            state@ == self@.state,
    {
        &self.state
    }

    /// Whether the workflow has ended.
    pub fn is_done(&self) -> (done: bool)
        ensures
            done == self@.state.terminal(),
    {
        match self.state {
            HoldLinkState::Succeeded => true,
            HoldLinkState::Failed(_) => true,
            _ => false,
        }
    }

    /// Tells the workflow what came of its last request and learns what to do
    /// next, if anything.
    pub fn step(&mut self, event: HoldLinkEvent) -> (asked: Option<HoldLinkAction>)
        ensures
            final(self)@.entry == old(self)@.entry,
            final(self)@.header == old(self)@.header,
            (final(self)@.state, asked_view(asked)) == transition(
                old(self)@.entry,
                old(self)@.header,
                old(self)@.state,
                event@,
            ),
    {
        match (&self.state, event) {
            (HoldLinkState::Started, HoldLinkEvent::Begin) => match &self.entry {
                Entry::LinkAdd(_) => {
                    self.state = HoldLinkState::AwaitingPackage;
                    Some(HoldLinkAction::GetValidationPackage(self.header.clone()))
                },
                _ => {
                    self.state = HoldLinkState::Failed(
                        HolochainError::ErrorGeneric(
                            String::from_str(
                                "hold_link_workflow expects entry to be an Entry::LinkAdd",
                            ),
                        ),
                    );
                    Some(
                        HoldLinkAction::Done(
                            Err(
                                HolochainError::ErrorGeneric(
                                    String::from_str(
                                        "hold_link_workflow expects entry to be an Entry::LinkAdd",
                                    ),
                                ),
                            ),
                        ),
                    )
                },
            },
            (HoldLinkState::AwaitingPackage, HoldLinkEvent::Package(arrived)) => match arrived {
                Err(error) => {
                    self.state = HoldLinkState::Failed(error.clone());
                    Some(HoldLinkAction::Done(Err(error)))
                },
                Ok(None) => {
                    self.state = HoldLinkState::Failed(
                        HolochainError::ErrorGeneric(
                            String::from_str("Could not get validation package from source"),
                        ),
                    );
                    Some(
                        HoldLinkAction::Done(
                            Err(
                                HolochainError::ErrorGeneric(
                                    String::from_str(
                                        "Could not get validation package from source",
                                    ),
                                ),
                            ),
                        ),
                    )
                },
                Ok(Some(package)) => {
                    let sources = self.header.sources.clone();
                    assert(seq_view(sources@) =~= seq_view(self.header.sources@));
                    let data = ValidationData {
                        package,
                        sources,
                        lifecycle: EntryLifecycle::Meta,
                        action: EntryAction::Create,
                    };
                    self.state = HoldLinkState::Validating;
                    Some(HoldLinkAction::ValidateEntry(self.entry.clone(), data))
                },
            },
            (HoldLinkState::Validating, HoldLinkEvent::Validated(judged)) => match judged {
                Err(error) => {
                    self.state = HoldLinkState::Failed(error.clone());
                    Some(HoldLinkAction::Done(Err(error)))
                },
                Ok(()) => match &self.entry {
                    Entry::LinkAdd(link_add) => {
                        let link = link_add.link.clone();
                        self.state = HoldLinkState::Committing;
                        Some(HoldLinkAction::AddLink(link))
                    },
                    _ => None,
                },
            },
            (HoldLinkState::Committing, HoldLinkEvent::Committed(written)) => match written {
                Err(error) => {
                    self.state = HoldLinkState::Failed(error.clone());
                    Some(HoldLinkAction::Done(Err(error)))
                },
                Ok(()) => {
                    self.state = HoldLinkState::Succeeded;
                    Some(HoldLinkAction::Done(Ok(())))
                },
            },
            _ => None,
        }
    }
}

/// Begins the workflow that holds the link of `entry_with_header`. An entry
/// that is no link ends it at once, before anything is asked of the network
/// or of the application; for a link, the first thing to do is to get the
/// validation package from the header's author.
pub fn hold_link_workflow(entry_with_header: &EntryWithHeader) -> (begun: (
    HoldLink,
    HoldLinkAction,
))
    ensures
        begun.0@.entry == entry_with_header.entry@,
        begun.0@.header == entry_with_header.header@,
        (begun.0@.state, Some(begun.1@)) == transition(
            entry_with_header.entry@,
            entry_with_header.header@,
            HoldLinkStateView::Started,
            HoldLinkEventView::Begin,
        ),
{
    let mut workflow = HoldLink::new(entry_with_header);
    match workflow.step(HoldLinkEvent::Begin) {
        Some(action) => (workflow, action),
        None => unreached(),
    }
}

/// A workflow only moves forward, and one that has ended stays where it is:
/// after the end no event changes the state or asks for anything.
pub proof fn lemma_no_way_back(
    entry: EntryView,
    header: ChainHeaderView,
    state: HoldLinkStateView,
    event: HoldLinkEventView,
)
    ensures
        transition(entry, header, state, event).0.rank() >= state.rank(),
        state.terminal() ==> transition(entry, header, state, event) == (
            state,
            None::<HoldLinkActionView>,
        ),
        transition(entry, header, state, event).0 != state ==> transition(
            entry,
            header,
            state,
            event,
        ).0.rank() > state.rank(),
{
}

/// A stage that fails ends the workflow with the stage's own error, and the
/// workflow says that it is done exactly when it has reached its end.
pub proof fn lemma_failure_is_final(
    entry: EntryView,
    header: ChainHeaderView,
    state: HoldLinkStateView,
    error: ErrorView,
)
    ensures
        transition(
            entry,
            header,
            HoldLinkStateView::AwaitingPackage,
            HoldLinkEventView::Package(Err(error)),
        ) == (HoldLinkStateView::Failed(error), Some(HoldLinkActionView::Done(Err(error)))),
        transition(
            entry,
            header,
            HoldLinkStateView::Validating,
            HoldLinkEventView::Validated(Err(error)),
        ) == (HoldLinkStateView::Failed(error), Some(HoldLinkActionView::Done(Err(error)))),
        transition(
            entry,
            header,
            HoldLinkStateView::Committing,
            HoldLinkEventView::Committed(Err(error)),
        ) == (HoldLinkStateView::Failed(error), Some(HoldLinkActionView::Done(Err(error)))),
        forall|event: HoldLinkEventView|
            (#[trigger] transition(entry, header, state, event)).1 matches Some(
                HoldLinkActionView::Done(_),
            ) <==> (!state.terminal() && transition(entry, header, state, event).0.terminal()),
{
}

} // verus!
