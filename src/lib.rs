//! A blob storage gateway: it turns Put and Get requests into storage keys,
//! bridges whole payloads to and from a chunked backend, and classifies failures.

pub mod key;
pub mod identifier;
pub mod gateway;
pub mod store;

pub use gateway::{
    BlobAssembly, BlobRead, BlobWrite, GatewayError, GetBlobRequest, GetBlobResponse,
    PutBlobRequest, PutBlobResponse, Scope, StorageServiceImpl,
};
pub use identifier::resolve_identifier;
pub use key::{compose_key, compose_read_key};
