//! Identity of a request: project, organization, public key and data
//! category. Rate limits and quotas are keyed by this scoping.

use vstd::prelude::*;

verus! {

/// The numeric identifier of a project.
#[derive(Clone, Copy, Debug, PartialEq, Eq, Hash, Structural)]
pub struct ProjectId(pub u64);

impl ProjectId {
    /// The raw numeric value.
    pub fn value(&self) -> (r: u64)
        ensures
            r == self.0,
    {
        self.0
    }
}

/// The category of data an item of a request batch carries.
#[derive(Clone, Copy, Debug, PartialEq, Eq, Hash, Structural)]
pub enum DataCategory {
    /// Anything without a more specific category.
    Default,
    /// Error events.
    Error,
    /// Transaction events.
    Transaction,
    /// Attachments.
    Attachment,
    /// Session updates.
    Session,
}

/// The resolved identity context of a request.
///
/// A request itself only carries the public key; the organization id and the
/// numeric key id are filled in from a project snapshot once one exists.
#[derive(Debug)]
pub struct Scoping {
    /// The organization id, or `0` while none is known.
    pub organization_id: u64,
    /// The project the request addresses.
    pub project_id: ProjectId,
    /// The public key the request authenticates with.
    pub public_key: String,
    /// The numeric id of that key, if known from a snapshot.
    pub key_id: Option<u64>,
}

/// The mathematical content of a `Scoping`.
pub struct ScopingView {
    /// The organization id, or `0` while none is known.
    pub organization_id: u64,
    /// The project the request addresses.
    pub project_id: ProjectId,
    /// The public key the request authenticates with.
    pub public_key: Seq<char>,
    /// The numeric id of that key, if known from a snapshot.
    pub key_id: Option<u64>,
}

impl View for Scoping {
    type V = ScopingView;

    open spec fn view(&self) -> ScopingView {
        ScopingView {
            organization_id: self.organization_id,
            project_id: self.project_id,
            public_key: self.public_key@,
            key_id: self.key_id,
        }
    }
}

impl Clone for Scoping {
    /// Clones the scoping; the copy carries the same identity.
    fn clone(&self) -> (r: Self)
        ensures
            r@ == self@,
    {
        Scoping {
            organization_id: self.organization_id,
            project_id: self.project_id,
            public_key: self.public_key.clone(),
            key_id: self.key_id,
        }
    }
}

} // verus!
