//! A value held in memory and mirrored to a file, for data that is read often
//! and written rarely.
//!
//! The crate decides; it performs no file access of its own. Its functions
//! take what was read from the backing file and hand back the text that has
//! to be written to it. The caller does the reading and the writing, and the
//! rules of the store stand here as contracts, with their proofs:
//!
//! * [`helpers`] encodes and decodes values, fingerprints an encoding, and
//!   says after a mutation whether the file has to be rewritten;
//! * [`Mvdb`] is the shared handle: it guards the value with a lock and
//!   hands every mutation back as a [`WriteBack`], which keeps the lock
//!   until the file has been written; a new handle comes as a
//!   [`FirstWrite`], which keeps the handle until the file has been written;
//! * [`errors`] names the four ways in which an operation fails;
//! * [`json`] holds what is assumed of `serde_json`, which is nothing but
//!   that it returns.
//!
//! A file is rewritten exactly when a mutation has changed the value's
//! encoding: the encodings before and after are compared, by digest first
//! and by text where the digests agree.

pub mod errors;
pub mod helpers;
pub mod json;
mod store;
mod sync;

pub use errors::IoFailure;
pub use errors::StoreError;
pub use store::FirstWrite;
pub use store::Mvdb;
pub use store::Settings;
pub use store::WriteBack;
