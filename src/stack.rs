use vstd::prelude::*;

use crate::metadata::{reads_as_metadata, CommitMetadata};
use crate::oid::Oid;

verus! {

/// A local commit that has been published, with what it was published as.
#[derive(Debug)]
pub struct TrackedCommit {
    pub id: Oid,
    pub meta: CommitMetadata,
}

/// A commit of the local stack, seen through its metadata note.
#[derive(Debug)]
pub enum MainCommit {
    /// Never published: the commit carries no note.
    UnTracked(Oid),
    /// Published: the commit carries a metadata note.
    Published(TrackedCommit),
}

/// The remote commit that a published commit is merged with: the pinned
/// remote commit when the metadata records one, else the tip of its remote
/// branch, if the branch exists.
pub open spec fn remote_source_of(t: TrackedCommit, tip: Option<Oid>) -> Option<Oid> {
    match t.meta.remote_commit {
        Some(pinned) => Some(pinned),
        None => tip,
    }
}

impl TrackedCommit {
    /// The remote commit that stands for this one, given the tip of its
    /// remote branch: a pinned remote commit wins over the tip.
    pub fn remote_source(&self, tip: Option<Oid>) -> (r: Option<Oid>)
        ensures
            r == remote_source_of(*self, tip),
    {
        match self.meta.remote_commit {
            Some(pinned) => Some(pinned),
            None => tip,
        }
    }
}

impl MainCommit {
    pub open spec fn spec_id(&self) -> Oid {
        match self {
            MainCommit::UnTracked(id) => *id,
            MainCommit::Published(t) => t.id,
        }
    }

    pub fn id(&self) -> (r: Oid)
        ensures
            r == self.spec_id(),
    {
        match self {
            MainCommit::UnTracked(id) => *id,
            MainCommit::Published(t) => t.id,
        }
    }

    pub fn is_published(&self) -> (r: bool)
        ensures
            r == self is Published,
    {
        match self {
            MainCommit::UnTracked(_) => false,
            MainCommit::Published(_) => true,
        }
    }

    /// Sees the commit `id` through the note attached to it, if any: it is
    /// published when the note reads as metadata, and untracked otherwise,
    /// with no note or with a note that is something else.
    pub fn classify(id: Oid, note: Option<&str>) -> (r: MainCommit)
        ensures
            note is None ==> r == MainCommit::UnTracked(id),
            note is Some && !reads_as_metadata(note->0@) ==> r == MainCommit::UnTracked(id),
            note is Some && reads_as_metadata(note->0@) ==> (r matches MainCommit::Published(t)
                && t.id == id && t.meta.wf() && t.meta.text() == note->0@),
    {
        match note {
            None => MainCommit::UnTracked(id),
            Some(text) => match CommitMetadata::parse(text) {
                Ok(meta) => MainCommit::Published(TrackedCommit { id, meta }),
                Err(_) => MainCommit::UnTracked(id),
            },
        }
    }
}

} // verus!
