# holochain_core_types

A verified content addressable store and the validation tags of Holochain.

- `src/storage.rs`: the store model (`spec_add`, `spec_contains`, `spec_fetch`),
  the laws the store keeps, the single-threaded store
  `ExampleContentAddressableStorageContent` proved against the model, and the
  shared store `ExampleContentAddressableStorage`, whose clones share one
  store behind a reader-writer lock.
- `src/validation.rs`: entry lifecycle, entry action and link action tags.
- `src/error.rs`: the error type of storage operations.
- `app/`: serialisable copies of the tags, and the storage test suites, which
  drive a storage from several threads and panic on a wrong answer.
