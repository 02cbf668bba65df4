//! The metadata store behind a lock, for many threads: any number of readers
//! at a time, one writer, and a writer keeps the lock for one insert.

use crate::dht::link_eav;
use crate::eav::{
    triples_distinct, Attribute, Entity, EntityAttributeValue,
    ExampleEntityAttributeValueStorageNonSync, Value,
};
use crate::entry::Link;
use crate::error::HolochainError;
use crate::model::option_view;
use std::sync::Arc;
use vstd::prelude::*;
use vstd::rwlock::{RwLock, RwLockPredicate};

verus! {

/// What the lock asks of the store it guards: nothing beyond what every
/// store is.
pub struct AnyStore;

impl RwLockPredicate<ExampleEntityAttributeValueStorageNonSync> for AnyStore {
    open spec fn inv(self, store: ExampleEntityAttributeValueStorageNonSync) -> bool {
        true
    }
}

/// Clones an `Arc`, which is std's way to share what it points to. Trusted:
/// the clone points to the same value.
#[verifier::external_body]
fn share<T>(handle: &Arc<T>) -> (other: Arc<T>)
    ensures
        other == *handle,
{
    handle.clone()
}

/// A handle to a store that its clones share. What one handle adds, every
/// handle finds; so nothing can be said of what a handle will find but that
/// it meets the query.
pub struct SharedEntityAttributeValueStorage {
    content: Arc<RwLock<ExampleEntityAttributeValueStorageNonSync, AnyStore>>,
}

impl Clone for SharedEntityAttributeValueStorage {
    /// Another handle to the same store: the clone is this handle over again,
    /// lock and all, and no store is copied.
    fn clone(&self) -> (copy: Self)
        ensures
            copy == *self,
    {
        SharedEntityAttributeValueStorage { content: share(&self.content) }
    }
}

impl SharedEntityAttributeValueStorage {
    /// A handle to a new, empty store.
    pub fn new() -> (made: Result<SharedEntityAttributeValueStorage, HolochainError>)
        ensures
            made is Ok,
    {
        let store = ExampleEntityAttributeValueStorageNonSync::new();
        Ok(
            SharedEntityAttributeValueStorage {
                content: Arc::new(RwLock::new(store, Ghost(AnyStore))),
            },
        )
    }

    /// Adds the triple to the store, unless it holds it already.
    pub fn add_eav(&self, eav: &EntityAttributeValue) -> (added: Result<(), HolochainError>)
        ensures
            added is Ok,
    {
        let (mut store, handle) = self.content.acquire_write();
        let added = store.unthreadable_add_eav(eav);
        handle.release_write(store);
        added
    }

    /// The triples of the store that meet every constraint given, as the
    /// store stands while it is read. None comes twice.
    pub fn fetch_eav(
        &self,
        entity: Option<Entity>,
        attribute: Option<Attribute>,
        value: Option<Value>,
    ) -> (fetched: Result<Vec<EntityAttributeValue>, HolochainError>)
        ensures
            fetched matches Ok(found) && triples_distinct(found@) && forall|i: int|
                0 <= i < found.len() ==> (#[trigger] found@[i])@.fits(
                    option_view(entity),
                    option_view(attribute),
                    option_view(value),
                ),
    {
        let handle = self.content.acquire_read();
        let fetched = handle.borrow().unthreadable_fetch_eav(entity, attribute, value);
        handle.release_read();
        proof {
            if fetched is Ok {
                let found = fetched->Ok_0;
                assert forall|i: int| 0 <= i < found.len() implies (#[trigger] found@[i])@.fits(
                    option_view(entity),
                    option_view(attribute),
                    option_view(value),
                ) by {
                    assert(crate::eav::triples_of(found@).contains(found@[i]@));
                }
            }
        }
        fetched
    }

    /// Writes the link into the store, as the triple that stands for it. A
    /// link whose tag cannot be part of an attribute is refused.
    pub fn add_link(&self, link: &Link) -> (added: Result<(), HolochainError>)
        ensures
            crate::eav::valid_attribute(crate::dht::link_attribute(link@.tag)) <==> added is Ok,
    {
        match link_eav(link) {
            Err(error) => Err(error),
            Ok(eav) => self.add_eav(&eav),
        }
    }
}

} // verus!
