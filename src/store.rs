//! A model of the storage backend, and what Put and Get guarantee against it.
//! The backend keeps, for each storage key, the chunks of the last write that
//! it completed; a read of a key yields those chunks in order.

use vstd::prelude::*;

use crate::gateway::{chunk_views, BlobRead, BlobWrite, PutBlobResponse, Scope};
use crate::key::{
    has_no_separator, lemma_plain_identifier_is_composed, lemma_storage_key_injective,
    lemma_storage_key_reads_as_is, read_key,
};

verus! {

/// The backend's contents: the chunks last written under each storage key.
pub type BlobStore = Map<Seq<char>, Seq<Seq<u8>>>;

/// The backend's contents once it has carried out `write`.
pub open spec fn apply_write(store: BlobStore, write: BlobWrite) -> BlobStore {
    store.insert(write.key@, chunk_views(write.chunks@))
}

/// What a fully drained Get of `key` assembles from `store`; `None` where the
/// backend holds no entry, which the Get reports as not found.
pub open spec fn read_back(store: BlobStore, key: Seq<char>) -> Option<Seq<u8>> {
    if store.contains_key(key) {
        Some(store[key].flatten())
    } else {
        None
    }
}

/// A Put and then a Get, under the same scope, of the key that the Put
/// returned: the Get reads the very key that the Put wrote and assembles the
/// payload unchanged.
pub proof fn lemma_put_then_get(
    store: BlobStore,
    scope: Scope,
    key: Option<String>,
    contents: Seq<u8>,
    write: BlobWrite,
    reply: PutBlobResponse,
    read: BlobRead,
)
    requires
        write.answers(scope, key, contents),
        reply.key == write.key,
        read.key@ == read_key(scope.usecase@, scope.scope@, reply.key@),
    ensures
        read.key@ == write.key@,
        read_back(apply_write(store, write), read.key@) == Some(contents),
{
    lemma_storage_key_reads_as_is(scope.usecase@, scope.scope@, write.identifier@);
    let chunks = chunk_views(write.chunks@);
    assert(chunks.len() == 1);
    chunks.lemma_flatten_singleton();
}

/// A Put under one scope with an identifier free of separators, and a Get of
/// that identifier under another scope, with no scope part holding a
/// separator: the Get reads another key, so where the backend held nothing
/// there, it is not found.
pub proof fn lemma_get_under_other_scope_not_found(
    store: BlobStore,
    scope: Scope,
    key: Option<String>,
    contents: Seq<u8>,
    write: BlobWrite,
    other: Scope,
    read: BlobRead,
)
    requires
        write.answers(scope, key, contents),
        read.key@ == read_key(other.usecase@, other.scope@, write.identifier@),
        other.usecase@ != scope.usecase@ || other.scope@ != scope.scope@,
        has_no_separator(scope.usecase@),
        has_no_separator(scope.scope@),
        has_no_separator(other.usecase@),
        has_no_separator(other.scope@),
        has_no_separator(write.identifier@),
        !store.contains_key(read.key@),
    ensures
        read.key@ != write.key@,
        read_back(apply_write(store, write), read.key@) is None,
{
    lemma_plain_identifier_is_composed(other.usecase@, other.scope@, write.identifier@);
    if read.key@ == write.key@ {
        lemma_storage_key_injective(
            other.usecase@,
            other.scope@,
            write.identifier@,
            scope.usecase@,
            scope.scope@,
            write.identifier@,
        );
    }
}

/// Two Puts with the same scope and the same supplied identifier, carried out
/// by the backend in either order, and a Get of that identifier free of
/// separators: the Get reads the key both wrote and assembles exactly one of
/// the two payloads, never a mix of both.
pub proof fn lemma_same_key_puts_keep_one_payload(
    store: BlobStore,
    scope: Scope,
    identifier: String,
    contents1: Seq<u8>,
    write1: BlobWrite,
    contents2: Seq<u8>,
    write2: BlobWrite,
    read: BlobRead,
)
    requires
        identifier@.len() > 0,
        has_no_separator(identifier@),
        write1.answers(scope, Some(identifier), contents1),
        write2.answers(scope, Some(identifier), contents2),
        read.key@ == read_key(scope.usecase@, scope.scope@, identifier@),
    ensures
        read.key@ == write1.key@,
        read.key@ == write2.key@,
        read_back(apply_write(apply_write(store, write1), write2), read.key@) == Some(contents2),
        read_back(apply_write(apply_write(store, write2), write1), read.key@) == Some(contents1),
{
    lemma_plain_identifier_is_composed(scope.usecase@, scope.scope@, identifier@);
    chunk_views(write1.chunks@).lemma_flatten_singleton();
    chunk_views(write2.chunks@).lemma_flatten_singleton();
}

} // verus!
