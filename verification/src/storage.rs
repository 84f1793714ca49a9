//! Content addressable storage (CAS): content is added under its address and
//! fetched back by that address. The single-threaded store is proved append only.

use vstd::prelude::*;
use vstd::hash_map::StringHashMap;
use vstd::rwlock::{RwLock, RwLockPredicate};
use std::sync::Arc;

use crate::error::HolochainError;

verus! {

/// A hash of some content, in its printable form.
pub type HashString = String;

/// The address of a piece of content: the hash of that content.
pub type Address = HashString;

/// Content in its serialised form.
pub type Content = String;

/// What a store holds: each address it knows, with the content stored there.
pub type StoreModel = Map<Seq<char>, Seq<char>>;

/// The store after `content` was added under `address`.
pub open spec fn spec_add(store: StoreModel, address: Seq<char>, content: Seq<char>) -> StoreModel {
    store.insert(address, content)
}

/// Whether the store holds something under `address`.
pub open spec fn spec_contains(store: StoreModel, address: Seq<char>) -> bool {
    store.contains_key(address)
}

/// What the store holds under `address`, if anything.
pub open spec fn spec_fetch(store: StoreModel, address: Seq<char>) -> Option<Seq<char>> {
    if store.contains_key(address) {
        Some(store[address])
    } else {
        None
    }
}

/// A store that was just made holds nothing: no address is contained and
/// fetching any address gives nothing.
pub proof fn law_empty_store_holds_nothing(address: Seq<char>)
    ensures
        !spec_contains(StoreModel::empty(), address),
        spec_fetch(StoreModel::empty(), address) is None,
{
}

/// Round trip: once content is added, its address is contained and fetching
/// the address gives back exactly that content.
pub proof fn law_fetch_after_add(store: StoreModel, address: Seq<char>, content: Seq<char>)
    ensures
        spec_contains(spec_add(store, address, content), address),
        spec_fetch(spec_add(store, address, content), address) == Some(content),
{
}

/// Adding content under one address leaves what any other address holds as
/// it was: several pieces of content sit side by side in one store.
pub proof fn law_add_leaves_other_addresses(
    store: StoreModel,
    address: Seq<char>,
    content: Seq<char>,
    other: Seq<char>,
)
    requires
        other != address,
    ensures
        spec_contains(spec_add(store, address, content), other) == spec_contains(store, other),
        spec_fetch(spec_add(store, address, content), other) == spec_fetch(store, other),
{
}

/// The store is append only: whatever address it held before an add, it
/// still holds after.
pub proof fn law_add_is_append_only(store: StoreModel, address: Seq<char>, content: Seq<char>, held: Seq<char>)
    requires
        spec_contains(store, held),
    ensures
        spec_contains(spec_add(store, address, content), held),
{
}

/// `contains` answers yes exactly when `fetch` finds something.
pub proof fn law_contains_iff_fetch_finds(store: StoreModel, address: Seq<char>)
    ensures
        spec_contains(store, address) <==> spec_fetch(store, address) is Some,
{
}

/// Adding the same content under the same address a second time changes
/// nothing.
pub proof fn law_add_is_idempotent(store: StoreModel, address: Seq<char>, content: Seq<char>)
    ensures
        spec_add(spec_add(store, address, content), address, content) == spec_add(store, address, content),
{
    assert(spec_add(spec_add(store, address, content), address, content) =~= spec_add(store, address, content));
}

/// Not thread-safe store, keyed by address.
pub struct ExampleContentAddressableStorageContent {
    storage: StringHashMap<Content>,
}

impl View for ExampleContentAddressableStorageContent {
    type V = StoreModel;

    closed spec fn view(&self) -> StoreModel {
        self.storage@.map_values(|c: Content| c@)
    }
}

impl ExampleContentAddressableStorageContent {
    /// An empty store.
    pub fn new() -> (store: ExampleContentAddressableStorageContent)
        ensures
            store@ == StoreModel::empty(),
    {
        let store = ExampleContentAddressableStorageContent { storage: StringHashMap::new() };
        assert(store@ =~= StoreModel::empty());
        store
    }

    /// Stores `content` under `address`.
    pub fn unthreadable_add(&mut self, address: &Address, content: &Content) -> (r: Result<(), HolochainError>)
        ensures
            r is Ok,
            final(self)@ == spec_add(old(self)@, address@, content@),
    {
        self.storage.insert(address.clone(), content.clone());
        assert(self@ =~= spec_add(old(self)@, address@, content@));
        Ok(())
    }

    /// Whether anything is stored under `address`.
    pub fn unthreadable_contains(&self, address: &Address) -> (r: Result<bool, HolochainError>)
        ensures
            r == Ok::<bool, HolochainError>(spec_contains(self@, address@)),
    {
        Ok(self.storage.contains_key(address.as_str()))
    }

    /// A copy of what is stored under `address`, if anything.
    pub fn unthreadable_fetch(&self, address: &Address) -> (r: Result<Option<Content>, HolochainError>)
        ensures
            r is Ok,
            r matches Ok(found) && (match found {
                Some(c) => spec_fetch(self@, address@) == Some(c@),
                None => spec_fetch(self@, address@) is None,
            }),
    {
        match self.storage.get(address.as_str()) {
            Some(c) => Ok(Some(c.clone())),
            None => Ok(None),
        }
    }
}


/// Content addressable storage: anything that can be added, looked up and
/// fetched back by its address. Implementations are meant never to remove
/// content; the model laws above state what that means for a single store.
pub trait ContentAddressableStorage: Clone + Send + Sync {
    /// Adds `content` to the store under its `address`.
    fn add(&mut self, address: &Address, content: &Content) -> Result<(), HolochainError>;

    /// Whether the store holds anything under `address`.
    fn contains(&self, address: &Address) -> Result<bool, HolochainError>;

    /// What the store holds under `address`, if anything.
    fn fetch(&self, address: &Address) -> Result<Option<Content>, HolochainError>;
}

/// The lock of a shared store admits every store.
pub struct AnyStoreContent;

impl RwLockPredicate<ExampleContentAddressableStorageContent> for AnyStoreContent {
    open spec fn inv(self, v: ExampleContentAddressableStorageContent) -> bool {
        true
    }
}

/// Thread-safe store: one `ExampleContentAddressableStorageContent` behind a
/// reader-writer lock, reached through a reference-counted pointer that every
/// clone copies.
///
/// The contracts of its operations prove only that each call succeeds: the
/// lock's predicate admits any store, and nothing else about the content
/// behind the lock, which clones and other threads change, is visible to the
/// proof. What the operations do to that content is proved on
/// `ExampleContentAddressableStorageContent`, whose methods they call.
#[derive(Clone)]
pub struct ExampleContentAddressableStorage {
    content: Arc<RwLock<ExampleContentAddressableStorageContent, AnyStoreContent>>,
}

impl ExampleContentAddressableStorage {
    fn with_empty_content() -> (cas: ExampleContentAddressableStorage) {
        let lock = RwLock::new(ExampleContentAddressableStorageContent::new(), Ghost(AnyStoreContent));
        ExampleContentAddressableStorage { content: Arc::new(lock) }
    }

    /// A new store behind a new lock, holding an empty
    /// `ExampleContentAddressableStorageContent`.
    /// Its contract proves only that it succeeds: the lock's predicate admits
    /// any store, and nothing else about the content behind the lock is
    /// visible to the proof.
    pub fn new() -> (r: Result<ExampleContentAddressableStorage, HolochainError>)
        ensures
            r is Ok,
    {
        Ok(Self::with_empty_content())
    }
}

/// A fresh shared store for test suites, built as `new` builds one. Nothing
/// about the content behind its lock is visible to the proof.
pub fn test_content_addressable_storage() -> (cas: ExampleContentAddressableStorage) {
    ExampleContentAddressableStorage::with_empty_content()
}

impl ContentAddressableStorage for ExampleContentAddressableStorage {
    /// Takes the write lock and adds `content` under `address` with
    /// `unthreadable_add`.
    /// Its contract proves only that it succeeds: the lock's predicate admits
    /// any store, and nothing else about the content behind the lock is
    /// visible to the proof.
    fn add(&mut self, address: &Address, content: &Content) -> (r: Result<(), HolochainError>)
        ensures
            r is Ok,
    {
        let (mut store, handle) = self.content.acquire_write();
        let r = store.unthreadable_add(address, content);
        handle.release_write(store);
        r
    }

    /// Takes a read lock and asks `unthreadable_contains`.
    /// Its contract proves only that it succeeds: the lock's predicate admits
    /// any store, and nothing else about the content behind the lock is
    /// visible to the proof.
    fn contains(&self, address: &Address) -> (r: Result<bool, HolochainError>)
        ensures
            r is Ok,
    {
        let handle = self.content.acquire_read();
        let r = handle.borrow().unthreadable_contains(address);
        handle.release_read();
        r
    }

    /// Takes a read lock and asks `unthreadable_fetch`.
    /// Its contract proves only that it succeeds: the lock's predicate admits
    /// any store, and nothing else about the content behind the lock is
    /// visible to the proof.
    fn fetch(&self, address: &Address) -> (r: Result<Option<Content>, HolochainError>)
        ensures
            r is Ok,
    {
        let handle = self.content.acquire_read();
        let r = handle.borrow().unthreadable_fetch(address);
        handle.release_read();
        r
    }
}


} // verus!
