//! Content that is stored under the hash of itself, and a store for it.

use crate::error::HolochainError;
use crate::hash::{content_address, Address};
use crate::json::Content;
use crate::keyed::Keyed;
use vstd::prelude::*;

verus! {

/// Something with a serialized form, by which it is addressed.
pub trait AddressableContent: Sized + View {
    /// The serialized form.
    spec fn content_text(&self) -> Seq<char>;

    /// The value that a serialized form stands for, where it stands for one.
    spec fn decoding(content: Seq<char>) -> Option<Self::V>;

    /// The serialized form.
    fn content(&self) -> (content: Content)
        ensures
            content@ == self.content_text(),
    ;

    /// Reads a value back from its serialized form: the value that the
    /// content stands for, and an error for content that stands for none.
    fn try_from_content(content: &Content) -> (decoded: Result<Self, HolochainError>)
        ensures
            match Self::decoding(content@) {
                Some(value) => decoded matches Ok(read) && read@ == value,
                None => decoded is Err,
            },
    ;

    /// The address of the value: the hash of its serialized form.
    fn address(&self) -> (address: Address)
        ensures
            address@ == content_address(self.content_text()),
    ;
}

/// The plainest addressable content: the content itself.
#[derive(Debug, PartialEq, Eq, Hash)]
pub struct ExampleAddressableContent {
    pub content: Content,
}

impl View for ExampleAddressableContent {
    type V = Seq<char>;

    open spec fn view(&self) -> Seq<char> {
        self.content@
    }
}

impl Clone for ExampleAddressableContent {
    fn clone(&self) -> (copy: Self)
        ensures
            copy == *self,
    {
        ExampleAddressableContent { content: self.content.clone() }
    }
}

impl AddressableContent for ExampleAddressableContent {
    open spec fn content_text(&self) -> Seq<char> {
        self.content@
    }

    fn content(&self) -> (content: Content) {
        self.content.clone()
    }

    open spec fn decoding(content: Seq<char>) -> Option<Seq<char>> {
        Some(content)
    }

    fn try_from_content(content: &Content) -> (decoded: Result<Self, HolochainError>) {
        Ok(ExampleAddressableContent { content: content.clone() })
    }

    fn address(&self) -> (address: Address) {
        Address::encode_from_str(self.content.as_str())
    }
}

/// A store that keeps content in memory, each piece under its address.
#[derive(Debug)]
pub struct ExampleContentAddressableStorage {
    storage: Keyed<Content>,
}

impl View for ExampleContentAddressableStorage {
    type V = Map<Seq<char>, Seq<char>>;

    closed spec fn view(&self) -> Map<Seq<char>, Seq<char>> {
        self.storage@.map_values(|content: Content| content@)
    }
}

impl ExampleContentAddressableStorage {
    /// An empty store.
    pub fn new() -> (store: ExampleContentAddressableStorage)
        ensures
            store@ == Map::<Seq<char>, Seq<char>>::empty(),
    {
        let store = ExampleContentAddressableStorage { storage: Keyed::new() };
        assert(store@ =~= Map::<Seq<char>, Seq<char>>::empty());
        store
    }

    /// Stores the content under its address.
    pub fn add<C: AddressableContent>(&mut self, content: &C) -> (added: Result<
        (),
        HolochainError,
    >)
        ensures
            added is Ok,
            final(self)@ == old(self)@.insert(
                content_address(content.content_text()),
                content.content_text(),
            ),
    {
        let address = content.address();
        self.storage.insert(address.hash, content.content());
        assert(self@ =~= old(self)@.insert(
            content_address(content.content_text()),
            content.content_text(),
        ));
        Ok(())
    }

    /// Whether anything is stored under the address.
    pub fn contains(&self, address: &Address) -> (found: Result<bool, HolochainError>)
        ensures
            found matches Ok(held) && held == self@.dom().contains(address@),
    {
        Ok(self.storage.contains_key(address.hash.as_str()))
    }

    /// The serialized content under the address, if there is any.
    pub fn fetch_content(&self, address: &Address) -> (found: Option<Content>)
        ensures
            match found {
                Some(content) => self@.dom().contains(address@) && self@[address@] == content@,
                None => !self@.dom().contains(address@),
            },
    {
        match self.storage.get(address.hash.as_str()) {
            Some(content) => Some(content.clone()),
            None => None,
        }
    }

    /// The value stored under the address, read back from its content: `None`
    /// where nothing is stored there, and the decoder's error where the
    /// content does not decode.
    pub fn fetch<C: AddressableContent>(&self, address: &Address) -> (found: Result<
        Option<C>,
        HolochainError,
    >)
        ensures
            !self@.dom().contains(address@) ==> found matches Ok(None),
            self@.dom().contains(address@) ==> match C::decoding(self@[address@]) {
                Some(value) => found matches Ok(Some(read)) && read@ == value,
                None => found is Err,
            },
    {
        match self.fetch_content(address) {
            Some(content) => match C::try_from_content(&content) {
                Ok(value) => Ok(Some(value)),
                Err(error) => Err(error),
            },
            None => Ok(None),
        }
    }
}

} // verus!
