//! The watcher's view of a resource: what its metadata says is due, and what
//! follows a failure.

use vstd::prelude::*;

use crate::crd::AtlasUser;
use crate::k8s::{Action, Interval};
use crate::operator::atlasuser::{validate_change, AtlasUserAction};
use crate::operator::error::Error;

pub use crate::operator::atlasuser::AtlasUserReconciler;

verus! {

impl AtlasUserReconciler {
    /// When a resource whose reconcile failed is looked at again: five
    /// seconds later, whatever the failure was.
    pub fn on_error(atlas_user: &AtlasUser, error: &Error) -> (action: Action)
        ensures
            action == Action::Requeue(Interval { secs: 5, nanos: 0 }),
    {
        Action::requeue(Interval::from_secs(5))
    }
}

/// What the metadata of a resource says is due: a resource whose deletion
/// was requested is to be deleted; one that bears no finalizer at all is to
/// be taken on; for any other nothing of the kind is due.
pub fn determine_action(atlas_user: &AtlasUser) -> (action: AtlasUserAction)
    ensures
        action == atlas_user@.change(),
{
    validate_change(atlas_user)
}

} // verus!
