//! The blob gateway. Each request runs as a short sequence of decisions:
//! validate the scope and compose the key, hand the backend one write or one
//! read, then turn what the backend reported into the reply. The backend itself
//! is driven by the caller, which feeds its outcomes back into these steps.

use vstd::prelude::*;

use crate::identifier::{is_hyphenated_uuid, resolve_identifier, supplied_identifier};
use crate::key::{compose_key, compose_read_key, read_key, storage_key};

verus! {

/// The logical tenant of a blob: a use case and a scope within it.
#[derive(Debug, Clone, PartialEq, Eq)]
pub struct Scope {
    pub usecase: String,
    pub scope: String,
}

/// A request to store `contents`, under `key` when one is supplied.
#[derive(Debug, Clone, PartialEq, Eq)]
pub struct PutBlobRequest {
    pub scope: Option<Scope>,
    pub key: Option<String>,
    pub contents: Vec<u8>,
}

/// The reply to a Put: the storage key that was written.
#[derive(Debug, Clone, PartialEq, Eq)]
pub struct PutBlobResponse {
    pub key: String,
}

/// A request to fetch the blob stored under `key` in `scope`.
#[derive(Debug, Clone, PartialEq, Eq)]
pub struct GetBlobRequest {
    pub scope: Option<Scope>,
    pub key: String,
}

/// The reply to a Get: the whole blob.
#[derive(Debug, Clone, PartialEq, Eq)]
pub struct GetBlobResponse {
    pub contents: Vec<u8>,
}

/// Why a request failed. Backend failures carry the backend's own description.
#[derive(Debug, Clone, PartialEq, Eq)]
pub enum GatewayError {
    MissingScope,
    NotFound,
    BackendWriteFailed(String),
    BackendReadFailed(String),
}

impl GatewayError {
    /// The human-readable description carried to the caller.
    pub open spec fn spec_message(&self) -> Seq<char> {
        match self {
            GatewayError::MissingScope => "scope is required"@,
            GatewayError::NotFound => "not found"@,
            GatewayError::BackendWriteFailed(cause) => cause@,
            GatewayError::BackendReadFailed(cause) => cause@,
        }
    }

    pub fn message(&self) -> (r: String)
        ensures
            r@ == self.spec_message(),
    {
        match self {
            GatewayError::MissingScope => String::from_str("scope is required"),
            GatewayError::NotFound => String::from_str("not found"),
            GatewayError::BackendWriteFailed(cause) => cause.clone(),
            GatewayError::BackendReadFailed(cause) => cause.clone(),
        }
    }
}

/// The views of a sequence of chunks.
pub open spec fn chunk_views(chunks: Seq<Vec<u8>>) -> Seq<Seq<u8>> {
    chunks.map_values(|c: Vec<u8>| c@)
}

/// The one backend write that a Put asks for: the whole payload as a single chunk
/// under the storage key.
#[derive(Debug, Clone, PartialEq, Eq)]
pub struct BlobWrite {
    pub key: String,
    pub identifier: String,
    pub chunks: Vec<Vec<u8>>,
}

impl BlobWrite {
    /// The write stores `contents` as one chunk under the key for `scope` and
    /// `identifier`.
    pub open spec fn stores(&self, scope: Scope, identifier: Seq<char>, contents: Seq<u8>) -> bool {
        &&& self.identifier@ == identifier
        &&& self.key@ == storage_key(scope.usecase@, scope.scope@, identifier)
        &&& chunk_views(self.chunks@) == seq![contents]
    }

    /// The write is the one a Put of `contents` under `scope` asks for, given the
    /// key that the request supplied: the caller's identifier when present and
    /// not empty, otherwise a generated one.
    pub open spec fn answers(&self, scope: Scope, key: Option<String>, contents: Seq<u8>) -> bool {
        match supplied_identifier(key) {
            Some(id) => self.stores(scope, id, contents),
            None => self.stores(scope, self.identifier@, contents) && is_hyphenated_uuid(self.identifier@),
        }
    }

    pub fn new(scope: &Scope, identifier: String, contents: Vec<u8>) -> (r: BlobWrite)
        ensures
            r.stores(*scope, identifier@, contents@),
    {
        let key = compose_key(scope.usecase.as_str(), scope.scope.as_str(), identifier.as_str());
        let ghost payload = contents@;
        let mut chunks: Vec<Vec<u8>> = Vec::new();
        chunks.push(contents);
        assert(chunk_views(chunks@) =~= seq![payload]);
        BlobWrite { key, identifier, chunks }
    }

    /// Hands over the chunks to send to the backend, keeping the key and the
    /// identifier.
    pub fn take_chunks(&mut self) -> (r: Vec<Vec<u8>>)
        ensures
            r@ == old(self).chunks@,
            final(self).key == old(self).key,
            final(self).identifier == old(self).identifier,
            final(self).chunks@ == Seq::<Vec<u8>>::empty(),
    {
        let mut chunks: Vec<Vec<u8>> = Vec::new();
        std::mem::swap(&mut self.chunks, &mut chunks);
        chunks
    }
}

/// The one backend read that a Get asks for.
#[derive(Debug, Clone, PartialEq, Eq)]
pub struct BlobRead {
    pub key: String,
}

/// A Get's payload as it is drained from the backend, chunk by chunk, in the
/// order received.
pub struct BlobAssembly {
    contents: Vec<u8>,
    received: Ghost<Seq<Seq<u8>>>,
}

impl BlobAssembly {
    /// The chunks received so far, in order.
    pub closed spec fn chunks(&self) -> Seq<Seq<u8>> {
        self.received@
    }

    /// The bytes held are the received chunks concatenated.
    pub closed spec fn wf(&self) -> bool {
        self.contents@ == self.received@.flatten()
    }

    /// Adds the next item of the backend's stream. A failed item aborts the
    /// whole read: no partial payload survives it.
    pub fn push_chunk(self, chunk: Result<Vec<u8>, String>) -> (r: Result<BlobAssembly, GatewayError>)
        requires
            self.wf(),
        ensures
            match chunk {
                Ok(bytes) => r is Ok && r->Ok_0.wf() && r->Ok_0.chunks() == self.chunks().push(bytes@),
                Err(cause) => r == Err::<BlobAssembly, GatewayError>(GatewayError::BackendReadFailed(cause)),
            },
    {
        match chunk {
            Ok(bytes) => {
                let ghost piece = bytes@;
                let mut bytes = bytes;
                let mut contents = self.contents;
                contents.append(&mut bytes);
                proof {
                    self.received@.lemma_flatten_push(piece);
                }
                Ok(BlobAssembly { contents, received: Ghost(self.received@.push(piece)) })
            },
            Err(cause) => Err(GatewayError::BackendReadFailed(cause)),
        }
    }

    /// The assembled blob once the stream has ended.
    pub fn finish(self) -> (r: GetBlobResponse)
        requires
            self.wf(),
        ensures
            r.contents@ == self.chunks().flatten(),
    {
        GetBlobResponse { contents: self.contents }
    }
}

/// The gateway. It holds no state of its own: every request is decided from
/// its own data and from what the backend reports.
pub struct StorageServiceImpl {}

impl StorageServiceImpl {
    pub fn new() -> (r: StorageServiceImpl) {
        StorageServiceImpl {  }
    }

    /// Validates a Put and decides its backend write. Without a scope it fails
    /// before any backend work is asked for.
    pub fn put_blob(&self, request: PutBlobRequest) -> (r: Result<BlobWrite, GatewayError>)
        ensures
            request.scope is None ==> r == Err::<BlobWrite, GatewayError>(GatewayError::MissingScope),
            request.scope is Some ==> r is Ok && r->Ok_0.answers(
                request.scope->Some_0,
                request.key,
                request.contents@,
            ),
    {
        match request.scope {
            None => Err(GatewayError::MissingScope),
            Some(scope) => {
                let identifier = resolve_identifier(request.key);
                Ok(BlobWrite::new(&scope, identifier, request.contents))
            },
        }
    }

    /// The reply to a Put once the backend has reported on `write`: on success,
    /// the storage key that was written, which a later Get takes as it stands.
    pub fn finish_put(&self, write: BlobWrite, outcome: Result<(), String>) -> (r: Result<PutBlobResponse, GatewayError>)
        ensures
            match outcome {
                Ok(_) => r == Ok::<PutBlobResponse, GatewayError>((PutBlobResponse { key: write.key })),
                Err(cause) => r == Err::<PutBlobResponse, GatewayError>(GatewayError::BackendWriteFailed(cause)),
            },
    {
        match outcome {
            Ok(_) => Ok(PutBlobResponse { key: write.key }),
            Err(cause) => Err(GatewayError::BackendWriteFailed(cause)),
        }
    }

    /// Validates a Get and decides its backend read: the key that Put returned,
    /// or the storage key for an identifier within the scope. Without a scope it
    /// fails before any backend work is asked for.
    pub fn get_blob(&self, request: GetBlobRequest) -> (r: Result<BlobRead, GatewayError>)
        ensures
            request.scope is None ==> r == Err::<BlobRead, GatewayError>(GatewayError::MissingScope),
            request.scope is Some ==> r is Ok && r->Ok_0.key@ == read_key(
                request.scope->Some_0.usecase@,
                request.scope->Some_0.scope@,
                request.key@,
            ),
    {
        match request.scope {
            None => Err(GatewayError::MissingScope),
            Some(scope) => {
                let key = compose_read_key(scope.usecase.as_str(), scope.scope.as_str(), request.key.as_str());
                Ok(BlobRead { key })
            },
        }
    }

    /// Starts draining a Get from the backend's answer to the read: whether an
    /// entry was found, or why the read failed.
    pub fn open_read(&self, lookup: Result<bool, String>) -> (r: Result<BlobAssembly, GatewayError>)
        ensures
            match lookup {
                Ok(true) => r is Ok && r->Ok_0.wf() && r->Ok_0.chunks() == Seq::<Seq<u8>>::empty(),
                Ok(false) => r == Err::<BlobAssembly, GatewayError>(GatewayError::NotFound),
                Err(cause) => r == Err::<BlobAssembly, GatewayError>(GatewayError::BackendReadFailed(cause)),
            },
    {
        match lookup {
            Ok(found) => {
                if found {
                    let contents: Vec<u8> = Vec::new();
                    proof {
                        assert(Seq::<Seq<u8>>::empty().flatten() =~= Seq::<u8>::empty());
                    }
                    Ok(BlobAssembly { contents, received: Ghost(Seq::empty()) })
                } else {
                    Err(GatewayError::NotFound)
                }
            },
            Err(cause) => Err(GatewayError::BackendReadFailed(cause)),
        }
    }
}

} // verus!
