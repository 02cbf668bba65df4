//! The nucleus: the application's DNA, and the validation packages that have
//! been asked for.

use crate::dna::{Dna, ZomeView};
use crate::error::{ErrorView, HolochainError};
use crate::keyed::Keyed;
use crate::model::option_view;
use crate::validation::{ValidationPackage, ValidationPackageView};
use vstd::prelude::*;

verus! {

/// Calls `ProcessUniqueId::new` of the snowflake crate and writes the id
/// down with its `Display`. Nothing is promised of the text: which id comes
/// depends on what the process has handed out before. The crate panics
/// where a process has used up its ids, which takes more threads than a
/// machine has addresses.
#[verifier::external_body]
fn process_unique_id() -> (text: String) {
    snowflake::ProcessUniqueId::new().to_string()
}

/// The key by which an answer finds its request again.
#[derive(Debug, PartialEq, Eq, Hash)]
pub struct RequestId {
    pub text: String,
}

impl View for RequestId {
    type V = Seq<char>;

    open spec fn view(&self) -> Seq<char> {
        self.text@
    }
}

impl Clone for RequestId {
    fn clone(&self) -> (copy: Self)
        ensures
            copy == *self,
    {
        RequestId { text: self.text.clone() }
    }
}

impl RequestId {
    /// An id that this process has not handed out before.
    pub fn new() -> RequestId {
        RequestId { text: process_unique_id() }
    }

    /// Whether both are the same id.
    pub fn same(&self, other: &RequestId) -> (equal: bool)
        ensures
            equal == (self@ == other@),
    {
        self.text == other.text
    }
}

/// A validation package, or the reason why there is none.
pub type PackageResult = Result<ValidationPackage, HolochainError>;

/// The mathematical value of a `PackageResult`.
pub open spec fn package_result_view(result: PackageResult) -> Result<
    ValidationPackageView,
    ErrorView,
> {
    match result {
        Ok(package) => Ok(package@),
        Err(error) => Err(error@),
    }
}

/// Copies a package result.
pub fn clone_package_result(result: &PackageResult) -> (copy: PackageResult)
    ensures
        package_result_view(copy) == package_result_view(*result),
{
    match result {
        Ok(package) => Ok(package.clone()),
        Err(error) => Err(error.clone()),
    }
}

/// The nucleus' part of the state.
#[derive(Debug)]
pub struct NucleusState {
    pub dna: Option<Dna>,
    pub validation_packages: Keyed<PackageResult>,
}

/// The mathematical value of a `NucleusState`.
pub struct NucleusStateView {
    /// The zomes of the DNA, where one is loaded.
    pub dna: Option<Seq<ZomeView>>,
    /// The answer to each request that has been answered. A request that is
    /// not in the map is pending.
    pub validation_packages: Map<Seq<char>, Result<ValidationPackageView, ErrorView>>,
}

impl View for NucleusState {
    type V = NucleusStateView;

    open spec fn view(&self) -> NucleusStateView {
        NucleusStateView {
            dna: option_view(self.dna),
            validation_packages: self.validation_packages@.map_values(
                |result: PackageResult| package_result_view(result),
            ),
        }
    }
}

/// What an awaited operation has come to.
#[derive(Debug, PartialEq, Eq)]
pub enum Async<T> {
    /// The value is there.
    Ready(T),
    /// Nothing yet: ask again when the state has changed.
    Pending,
}

/// What a poll for the answer to `key` finds in the packages that have been
/// answered: the package, the error, or nothing yet.
pub open spec fn poll_outcome(
    packages: Map<Seq<char>, Result<ValidationPackageView, ErrorView>>,
    key: Seq<char>,
) -> Result<Option<ValidationPackageView>, ErrorView> {
    if packages.dom().contains(key) {
        match packages[key] {
            Ok(package) => Ok(Some(package)),
            Err(error) => Err(error),
        }
    } else {
        Ok(None)
    }
}

impl Clone for NucleusState {
    fn clone(&self) -> (copy: Self)
        ensures
            copy@ == self@,
    {
        let validation_packages = self.validation_packages.clone_by(clone_package_result);
        let copy = NucleusState { dna: self.dna.clone(), validation_packages };
        assert(copy@.validation_packages =~= self@.validation_packages);
        copy
    }
}

impl NucleusState {
    /// The state before a DNA is loaded, with no request answered.
    pub fn new() -> (state: NucleusState)
        ensures
            state@.dna is None,
            state@.validation_packages == Map::<
                Seq<char>,
                Result<ValidationPackageView, ErrorView>,
            >::empty(),
    {
        let state = NucleusState { dna: None, validation_packages: Keyed::new() };
        assert(state@.validation_packages =~= Map::<
            Seq<char>,
            Result<ValidationPackageView, ErrorView>,
        >::empty());
        state
    }

    /// The same state with this DNA loaded.
    pub fn with_dna(self, dna: Dna) -> (state: NucleusState)
        ensures
            state@.dna == Some(dna@),
            state@.validation_packages == self@.validation_packages,
    {
        NucleusState { dna: Some(dna), validation_packages: self.validation_packages }
    }

    /// The loaded DNA.
    pub fn dna(&self) -> (dna: &Option<Dna>)
        ensures
            dna == self.dna,
    {
        &self.dna
    }
}

/// Records the answer to the request `id`. The first answer stands: one that
/// comes later for the same id changes nothing.
pub fn reduce_return_validation_package(
    state: &mut NucleusState,
    id: &RequestId,
    result: &PackageResult,
)
    ensures
        final(state)@.dna == old(state)@.dna,
        final(state)@.validation_packages == if old(state)@.validation_packages.dom().contains(
            id@,
        ) {
            old(state)@.validation_packages
        } else {
            old(state)@.validation_packages.insert(id@, package_result_view(*result))
        },
{
    if !state.validation_packages.contains_key(id.text.as_str()) {
        let copy = clone_package_result(result);
        state.validation_packages.insert(id.text.clone(), copy);
        assert(state@.validation_packages =~= old(state)@.validation_packages.insert(
            id@,
            package_result_view(*result),
        ));
    }
}

/// The awaitable for one validation package: it is ready when the state
/// holds an answer under its key.
#[derive(Debug)]
pub struct ValidationPackageFuture {
    pub key: RequestId,
}

impl ValidationPackageFuture {
    /// Looks into the latest snapshot, if there is one, for the answer.
    /// Without a snapshot, and without an answer in it, the poll is pending.
    pub fn poll(&self, state: Option<&NucleusState>) -> (polled: Result<
        Async<ValidationPackage>,
        HolochainError,
    >)
        ensures
            match state {
                Some(nucleus) => match poll_outcome(nucleus@.validation_packages, self.key@) {
                    Ok(Some(package)) => polled matches Ok(Async::Ready(found)) && found@
                        == package,
                    Ok(None) => polled matches Ok(Async::Pending),
                    Err(error) => polled matches Err(found) && found@ == error,
                },
                None => polled matches Ok(Async::Pending),
            },
    {
        match state {
            Some(nucleus) => match nucleus.validation_packages.get(self.key.text.as_str()) {
                Some(Ok(package)) => Ok(Async::Ready(package.clone())),
                Some(Err(error)) => Err(error.clone()),
                None => Ok(Async::Pending),
            },
            None => Ok(Async::Pending),
        }
    }
}

} // verus!
