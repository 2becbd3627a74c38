//! Download accounting and delivery for a package registry.
//!
//! A download request is answered in four steps: the requester is
//! authenticated, the download is counted against the package's row in the
//! metadata store inside one short transaction, the archive is looked up in
//! the blob store, and its bytes are streamed to the client. The decisions of
//! that pipeline are a state machine ([`pipeline`]); the counter itself is
//! modelled by [`metadata`].

pub mod version;
pub mod error;
pub mod auth;
pub mod names;
pub mod pipeline;
pub mod metadata;
pub mod blob;
pub mod registry;
pub mod info;
pub mod categories;
