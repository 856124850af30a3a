//! An ephemeral query execution service core: throwaway per-request
//! namespaces inside a pool of document-database backends, a router that
//! picks the backend for a requested version tag, and a content-addressed
//! store that saves schema/query pairs under a digest of their text.

pub mod engine;
pub mod error;
pub mod model;
pub mod query;
pub mod router;
pub mod store;
pub mod value;
