//! Bookkeeping for a stack of local commits that are each published as a
//! branch of their own: commit identifiers, the metadata note carried by a
//! published commit, the decisions of the publish engine and the resumable
//! reconciliation state machine, with the laws that hold of its runs.
pub mod course;
pub mod error;
pub mod metadata;
pub mod oid;
pub mod publish;
pub mod refs;
pub mod session;
pub mod stack;
pub mod sync;
mod text;
