//! Classifying the canonicalization result and enforcing the containment
//! boundary: the one security decision of the server.

use vstd::prelude::*;
use crate::paths::{CanonPath, is_path_prefix};

verus! {

/// Why canonicalization failed, as the caller reports it: the target
/// does not exist, or the filesystem refused for some other reason
/// (permission, loop, I/O fault).
pub enum FsErrorKind {
    NotFound,
    Other,
}

/// The outcome of resolving one request. `Resolved` carries the
/// canonical target and is only ever produced for a target under the
/// served root; the other three map directly to HTTP statuses.
pub enum Resolution {
    Resolved(CanonPath),
    Forbidden,
    NotFound,
    InternalError,
}

/// What the resolver decides, as a function of the served root and of
/// what canonicalization returned for the candidate path.
pub open spec fn resolution_spec(root: CanonPath, canon: Result<CanonPath, FsErrorKind>) -> Resolution {
    match canon {
        Ok(p) => if is_path_prefix(root@, p@) {
            Resolution::Resolved(p)
        } else {
            Resolution::Forbidden
        },
        Err(FsErrorKind::NotFound) => Resolution::NotFound,
        Err(FsErrorKind::Other) => Resolution::InternalError,
    }
}

/// Decides the resolution of a request once the filesystem has answered
/// for the candidate path: a missing target is not found, any other
/// canonicalization failure is an internal error, and a canonical target
/// is served only when the served root is a component-wise prefix of it.
pub fn decide_resolution(root: &CanonPath, canon: Result<CanonPath, FsErrorKind>) -> (r: Resolution)
    ensures
        r == resolution_spec(*root, canon),
{
    match canon {
        Ok(p) => {
            if p.is_contained_in(root) {
                Resolution::Resolved(p)
            } else {
                Resolution::Forbidden
            }
        },
        Err(FsErrorKind::NotFound) => Resolution::NotFound,
        Err(FsErrorKind::Other) => Resolution::InternalError,
    }
}

/// Law: whatever the filesystem answered, a resolved path lies under the
/// served root — the sole security invariant of the server.
pub proof fn lemma_resolved_is_contained(root: CanonPath, canon: Result<CanonPath, FsErrorKind>)
    ensures
        resolution_spec(root, canon) matches Resolution::Resolved(p) ==> is_path_prefix(root@, p@),
{
}

/// Law: a request whose real target escapes the served root — by `..`
/// segments or by a symlink pointing outside — is never resolved: it is
/// forbidden when the target exists and not found when it does not.
pub proof fn lemma_escape_never_resolved(root: CanonPath, canon: Result<CanonPath, FsErrorKind>)
    requires
        canon matches Ok(p) ==> !is_path_prefix(root@, p@),
    ensures
        !(resolution_spec(root, canon) matches Resolution::Resolved(_)),
        canon matches Ok(p) ==> resolution_spec(root, canon) == Resolution::Forbidden,
        canon matches Err(e) ==> (resolution_spec(root, canon) == Resolution::NotFound
            <==> e == FsErrorKind::NotFound),
{
}

} // verus!
