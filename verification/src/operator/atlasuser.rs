//! The dispatcher of user-account resources. It decides from the metadata of
//! a resource whether the resource is to be applied or cleaned up after, and
//! keeps the finalizer: on the resource before anything is applied, and off
//! it only once the remote account has been deleted.

use vstd::prelude::*;
use vstd::string::StringExecFns;

use crate::atlas::context::{
    ApplyPlan, ApplyPlanView, AtlasUserContext, Cleanup, CleanupView, FINALIZER, NO_USER_ID,
};
use crate::atlas::error::{FinalizerFailure, FinalizerFailureView};
use crate::atlas::reconcile::Answers;
use crate::atlas::repository::RemoteCallView;
use crate::config::AtlasUserConfig;
use crate::crd::{AtlasUser, AtlasUserStatus, AtlasUserStatusView, AtlasUserView};
use crate::k8s::{Action, Interval};
use crate::operator::error::{outcome, Error, ErrorView};

verus! {

/// What is reported of a resource that lies in no namespace.
pub const NOT_NAMESPACED: &'static str =
    "Expected AtlasUser resource to be namespaced. Can't deploy to an unknown namespace.";

/// What the metadata of a resource says is due.
#[derive(Clone, Copy, Debug, PartialEq, Eq, Structural)]
pub enum AtlasUserAction {
    /// The resource bears no finalizer yet: it has not been taken on.
    Create,
    /// The deletion of the resource was requested.
    Delete,
    /// The resource has been taken on and is not being deleted.
    NoOp,
}

/// What a reconcile is to do with a resource.
#[derive(Clone, Copy, Debug, PartialEq, Eq)]
pub enum Dispatch<'a> {
    /// Nothing: hand this action back.
    Wait(Action),
    /// Put the finalizer on the resource. Nothing is applied before that.
    AddFinalizer,
    /// Apply the resource, starting with this plan.
    Apply(ApplyPlan<'a>),
    /// Delete the remote account and then take the finalizer, which stands at
    /// `index`, off the resource.
    Cleanup { index: usize, org_id: &'a str, user_id: &'a str },
}

/// A dispatch as contracts see it.
pub enum DispatchView {
    Wait(Action),
    AddFinalizer,
    Apply(ApplyPlanView),
    Cleanup { index: int, org_id: Seq<char>, user_id: Seq<char> },
}

impl<'a> View for Dispatch<'a> {
    type V = DispatchView;

    open spec fn view(&self) -> DispatchView {
        match *self {
            Dispatch::Wait(action) => DispatchView::Wait(action),
            Dispatch::AddFinalizer => DispatchView::AddFinalizer,
            Dispatch::Apply(plan) => DispatchView::Apply(plan@),
            Dispatch::Cleanup { index, org_id, user_id } => DispatchView::Cleanup {
                index: index as int,
                org_id: org_id@,
                user_id: user_id@,
            },
        }
    }
}

impl<'a> DeepView for Dispatch<'a> {
    type V = DispatchView;

    open spec fn deep_view(&self) -> DispatchView {
        self@
    }
}

/// The finalizer to take off a resource, and what to hand back once it is
/// off.
#[derive(Clone, Copy, Debug, PartialEq, Eq, Structural)]
pub struct FinalizerRemoval {
    pub index: usize,
    pub action: Action,
}

impl View for FinalizerRemoval {
    type V = FinalizerRemoval;

    open spec fn view(&self) -> FinalizerRemoval {
        *self
    }
}

impl DeepView for FinalizerRemoval {
    type V = FinalizerRemoval;

    open spec fn deep_view(&self) -> FinalizerRemoval {
        *self
    }
}

/// The failure of a reconcile in which the finalizer protocol failed as
/// `failure` says.
pub open spec fn failed(failure: FinalizerFailureView) -> ErrorView {
    ErrorView::Atlas { source: failure.error() }
}

/// What follows applying a resource: the action that it ended with, or its
/// failure, reported as a failure to apply.
pub open spec fn applied(end: Result<Action, crate::atlas::error::ErrorView>) -> Result<
    Action,
    ErrorView,
> {
    match end {
        Ok(action) => Ok(action),
        Err(error) => Err(failed(FinalizerFailureView::ApplyFailed(error.message()))),
    }
}

/// What follows deleting the remote account of a resource whose finalizer
/// stands at `index`: the finalizer is to come off, unless the deletion
/// failed; then the finalizer stays and the failure is reported as a failure
/// to clean up.
pub open spec fn cleaned_up(
    index: usize,
    end: Result<Action, crate::atlas::error::ErrorView>,
) -> Result<FinalizerRemoval, ErrorView> {
    match end {
        Ok(action) => Ok(FinalizerRemoval { index, action }),
        Err(error) => Err(failed(FinalizerFailureView::CleanupFailed(error.message()))),
    }
}

/// What follows the attempt to put the finalizer on a resource.
pub open spec fn finalizer_added(patch: Result<(), Seq<char>>) -> Result<Action, ErrorView> {
    match patch {
        Ok(_) => Ok(Action::AwaitChange),
        Err(cause) => Err(failed(FinalizerFailureView::AddFinalizer(cause))),
    }
}

/// What follows the attempt to take the finalizer off a resource.
pub open spec fn finalizer_removed(removal: FinalizerRemoval, patch: Result<(), Seq<char>>) -> Result<
    Action,
    ErrorView,
> {
    match patch {
        Ok(_) => Ok(removal.action),
        Err(cause) => Err(failed(FinalizerFailureView::RemoveFinalizer(cause))),
    }
}

/// When a resource is looked at again after a reconcile that ended as `end`
/// says: as the reconcile asked, or, after any failure, five seconds later.
pub open spec fn scheduled(end: Result<Action, ErrorView>) -> Action {
    match end {
        Ok(action) => action,
        Err(_) => Action::Requeue(Interval { secs: 5, nanos: 0 }),
    }
}

/// The result of a patch as contracts see it.
pub open spec fn patched(patch: Result<(), String>) -> Result<(), Seq<char>> {
    match patch {
        Ok(_) => Ok(()),
        Err(cause) => Err(cause@),
    }
}

impl AtlasUserView {
    /// The status of the resource once a reconcile of it has failed with
    /// `error`.
    pub open spec fn status_after_failure(self, error: ErrorView) -> AtlasUserStatusView {
        AtlasUserStatusView { error: Some(error.message()), ..self.status_or_empty() }
    }

    /// What the metadata of the resource says is due.
    pub open spec fn change(self) -> AtlasUserAction {
        if self.metadata.marked_for_deletion() {
            AtlasUserAction::Delete
        } else if self.metadata.finalizers.len() == 0 {
            AtlasUserAction::Create
        } else {
            AtlasUserAction::NoOp
        }
    }

    /// What a reconcile under `config` is to do with the resource.
    pub open spec fn dispatch(self, config: AtlasUserConfig) -> Result<DispatchView, ErrorView> {
        if self.metadata.namespace is None {
            Err(ErrorView::UserInputError(NOT_NAMESPACED@))
        } else {
            match self.metadata.finalizer_index(FINALIZER@) {
                Some(index) => if !self.metadata.marked_for_deletion() {
                    match self.apply_plan() {
                        Ok(plan) => Ok(DispatchView::Apply(plan)),
                        Err(error) => Err(
                            failed(FinalizerFailureView::ApplyFailed(error.message())),
                        ),
                    }
                } else if self.metadata.name is None {
                    Err(failed(FinalizerFailureView::UnnamedObject))
                } else {
                    match self.cleanup_plan(config.safe_to_delete) {
                        Ok(CleanupView::Skip(action)) => Ok(DispatchView::Wait(action)),
                        Ok(CleanupView::Delete { org_id, user_id }) => Ok(
                            DispatchView::Cleanup { index, org_id, user_id },
                        ),
                        Err(error) => Err(
                            failed(FinalizerFailureView::CleanupFailed(error.message())),
                        ),
                    }
                },
                None => if self.metadata.marked_for_deletion() {
                    Ok(DispatchView::Wait(Action::AwaitChange))
                } else if self.metadata.name is None {
                    Err(failed(FinalizerFailureView::UnnamedObject))
                } else {
                    Ok(DispatchView::AddFinalizer)
                },
            }
        }
    }
}

/// What the metadata of a resource says is due: a resource whose deletion
/// was requested is to be deleted; one that bears no finalizer at all is to
/// be taken on; for any other nothing of the kind is due.
pub fn validate_change(atlas_user: &AtlasUser) -> (action: AtlasUserAction)
    ensures
        action == atlas_user@.change(),
{
    if atlas_user.metadata.is_marked_for_deletion() {
        return AtlasUserAction::Delete;
    }
    if atlas_user.metadata.finalizers.len() == 0 {
        return AtlasUserAction::Create;
    }
    AtlasUserAction::NoOp
}

/// The failure of a reconcile in which the finalizer protocol failed as
/// `failure` says.
fn failure(cause: FinalizerFailure) -> (error: Error)
    ensures
        error@ == failed(cause@),
{
    Error::Atlas { source: crate::atlas::error::Error::from(cause) }
}

/// The dispatcher of user-account resources.
#[derive(Clone, Copy, Debug, PartialEq, Eq)]
pub struct AtlasUserReconciler {
    pub atlas_context: AtlasUserContext,
}

impl AtlasUserReconciler {
    /// A dispatcher that hands resources to `atlas_context`.
    pub fn new(atlas_context: AtlasUserContext) -> (reconciler: Self)
        ensures
            reconciler.atlas_context == atlas_context,
    {
        AtlasUserReconciler { atlas_context }
    }

    /// Says what a reconcile is to do with a resource. A resource that lies
    /// in no namespace is refused. For the rest the finalizer and the request
    /// for deletion decide. A resource that bears the finalizer and is not
    /// being deleted is applied. One that bears it and is being deleted is
    /// cleaned up after: the remote account is deleted and the finalizer then
    /// comes off; while remote accounts are not to be deleted nothing happens
    /// and the finalizer stays, which holds the deletion back. One that does
    /// not bear the finalizer gets it, unless it is being deleted: then there
    /// is nothing left to do. Where the resource cannot be applied or cleaned
    /// up after, the reconcile fails and the finalizer stays as it is.
    pub fn reconcile<'a>(&self, atlas_user: &'a AtlasUser) -> (dispatch: Result<
        Dispatch<'a>,
        Error,
    >)
        ensures
            outcome(dispatch) == atlas_user@.dispatch(self.atlas_context.config),
    {
        if atlas_user.metadata.namespace.is_none() {
            return Err(Error::UserInputError(String::from_str(NOT_NAMESPACED)));
        }
        let deleting = atlas_user.metadata.is_marked_for_deletion();
        match atlas_user.metadata.finalizer_index(FINALIZER) {
            Some(index) => if !deleting {
                match self.atlas_context.handle_apply(atlas_user) {
                    Ok(plan) => Ok(Dispatch::Apply(plan)),
                    Err(error) => Err(failure(FinalizerFailure::ApplyFailed(error.message()))),
                }
            } else if atlas_user.metadata.name.is_none() {
                Err(failure(FinalizerFailure::UnnamedObject))
            } else {
                match self.atlas_context.handle_cleanup(atlas_user) {
                    Ok(Cleanup::Skip(action)) => Ok(Dispatch::Wait(action)),
                    Ok(Cleanup::Delete { org_id, user_id }) => Ok(
                        Dispatch::Cleanup { index, org_id, user_id },
                    ),
                    Err(error) => Err(failure(FinalizerFailure::CleanupFailed(error.message()))),
                }
            },
            None => if deleting {
                Ok(Dispatch::Wait(Action::await_change()))
            } else if atlas_user.metadata.name.is_none() {
                Err(failure(FinalizerFailure::UnnamedObject))
            } else {
                Ok(Dispatch::AddFinalizer)
            },
        }
    }

    /// Takes the end of applying a resource. Its action is handed on; its
    /// failure is reported as a failure to apply.
    pub fn applied(&self, end: Result<Action, crate::atlas::error::Error>) -> (result: Result<
        Action,
        Error,
    >)
        ensures
            outcome(result) == applied(crate::atlas::error::outcome(end)),
    {
        match end {
            Ok(action) => Ok(action),
            Err(error) => Err(failure(FinalizerFailure::ApplyFailed(error.message()))),
        }
    }

    /// Takes the end of deleting the remote account of a resource whose
    /// finalizer stands at `index`. After a deletion that went through the
    /// finalizer is to come off. After one that failed it stays, and the
    /// failure is reported as a failure to clean up.
    pub fn cleaned_up(&self, index: usize, end: Result<Action, crate::atlas::error::Error>) -> (result:
        Result<FinalizerRemoval, Error>)
        ensures
            outcome(result) == cleaned_up(index, crate::atlas::error::outcome(end)),
    {
        match end {
            Ok(action) => Ok(FinalizerRemoval { index, action }),
            Err(error) => Err(failure(FinalizerFailure::CleanupFailed(error.message()))),
        }
    }

    /// Takes the result of putting the finalizer on a resource: `patch` holds
    /// the cluster's failure where it refused. With the finalizer on, the
    /// resource is left until it changes, which putting the finalizer on has
    /// just made it do.
    pub fn finalizer_added(&self, patch: Result<(), String>) -> (result: Result<Action, Error>)
        ensures
            outcome(result) == finalizer_added(patched(patch)),
    {
        match patch {
            Ok(_) => Ok(Action::await_change()),
            Err(cause) => Err(failure(FinalizerFailure::AddFinalizer(cause))),
        }
    }

    /// Takes the result of taking the finalizer off a resource: `patch` holds
    /// the cluster's failure where it refused. With the finalizer off, the
    /// action that the clean-up ended with is handed back.
    pub fn finalizer_removed(&self, removal: FinalizerRemoval, patch: Result<(), String>) -> (result:
        Result<Action, Error>)
        ensures
            outcome(result) == finalizer_removed(removal, patched(patch)),
    {
        match patch {
            Ok(_) => Ok(removal.action),
            Err(cause) => Err(failure(FinalizerFailure::RemoveFinalizer(cause))),
        }
    }

    /// The status that makes the failure of a reconcile visible on the
    /// resource: the status as it was, with the text of the failure in place
    /// of the last one. The account, its standing and the revision carried
    /// out stay as they were, so that what failed is tried again.
    pub fn failure_status(&self, atlas_user: &AtlasUser, error: &Error) -> (status: AtlasUserStatus)
        ensures
            status@ == atlas_user@.status_after_failure(error@),
    {
        let mut status = atlas_user.status_or_default();
        status.error = Some(error.message());
        status
    }

    /// When a resource whose reconcile failed is looked at again: five
    /// seconds later, whatever the failure was. No failure is final, and none
    /// stops the reconciling of other resources.
    pub fn error_policy(&self, atlas_user: &AtlasUser, error: &Error) -> (action: Action)
        ensures
            action == scheduled(Err(error@)),
    {
        Action::requeue(Interval::from_secs(5))
    }
}

/// What the cluster answers to a change of the finalizers of a resource.
pub struct Cluster {
    pub add_finalizer: Result<(), Seq<char>>,
    pub remove_finalizer: Result<(), Seq<char>>,
}

/// What a reconcile asked the cluster to do with the finalizer of the
/// resource.
pub enum FinalizerChange {
    Untouched,
    Add,
    Remove { index: int },
}

/// What one reconcile did, from the dispatch to its end.
pub struct Reconciliation {
    /// The calls to the remote service, in the order in which they were made.
    pub calls: Seq<RemoteCallView>,
    /// The status that was handed to the cluster, if one was.
    pub status: Option<AtlasUserStatusView>,
    /// What the cluster was asked to do with the finalizer.
    pub finalizer: FinalizerChange,
    /// What the reconcile handed back.
    pub end: Result<Action, ErrorView>,
}

impl AtlasUserView {
    /// The reconcile of the resource under `config`, where the remote service
    /// answers as `answers` says and the cluster as `cluster` says.
    pub open spec fn reconciliation(self, config: AtlasUserConfig, answers: Answers, cluster: Cluster)
        -> Reconciliation {
        match self.dispatch(config) {
            Err(error) => Reconciliation {
                calls: Seq::empty(),
                status: None,
                finalizer: FinalizerChange::Untouched,
                end: Err(error),
            },
            Ok(DispatchView::Wait(action)) => Reconciliation {
                calls: Seq::empty(),
                status: None,
                finalizer: FinalizerChange::Untouched,
                end: Ok(action),
            },
            Ok(DispatchView::AddFinalizer) => Reconciliation {
                calls: Seq::empty(),
                status: None,
                finalizer: FinalizerChange::Add,
                end: finalizer_added(cluster.add_finalizer),
            },
            Ok(DispatchView::Apply(_)) => {
                let run = self.apply(config, answers);
                Reconciliation {
                    calls: run.calls,
                    status: run.status,
                    finalizer: FinalizerChange::Untouched,
                    end: applied(run.end),
                }
            },
            Ok(DispatchView::Cleanup { index, .. }) => {
                let run = self.cleanup(config, answers);
                match cleaned_up(index as usize, run.end) {
                    Err(error) => Reconciliation {
                        calls: run.calls,
                        status: run.status,
                        finalizer: FinalizerChange::Untouched,
                        end: Err(error),
                    },
                    Ok(removal) => Reconciliation {
                        calls: run.calls,
                        status: run.status,
                        finalizer: FinalizerChange::Remove { index },
                        end: finalizer_removed(removal, cluster.remove_finalizer),
                    },
                }
            },
        }
    }
}

/// The dispatch goes by what the metadata says is due. A resource that is to
/// be taken on gets the finalizer and is not applied yet. A resource that is
/// to be deleted is never applied and never gets the finalizer. Only a
/// resource for which neither is due can be applied.
pub proof fn dispatch_follows_the_metadata(atlas_user: AtlasUserView, config: AtlasUserConfig)
    ensures
        atlas_user.change() == AtlasUserAction::Create ==> (atlas_user.dispatch(config) matches Ok(
            dispatch,
        ) ==> dispatch is AddFinalizer),
        atlas_user.change() == AtlasUserAction::Delete ==> (atlas_user.dispatch(config) matches Ok(
            dispatch,
        ) ==> dispatch is Wait || dispatch is Cleanup),
        (atlas_user.dispatch(config) matches Ok(dispatch) && dispatch is Apply)
            ==> atlas_user.change() == AtlasUserAction::NoOp,
{
    atlas_user.metadata.finalizers.index_of_first_ensures(FINALIZER@);
}

/// Nothing is asked of the remote service for a resource that does not bear
/// the finalizer: a reconcile that makes a call finds the finalizer on the
/// resource. And no resource that is being deleted is applied: a reconcile
/// that invites or updates an account finds no request for deletion.
pub proof fn calls_need_the_finalizer(
    atlas_user: AtlasUserView,
    config: AtlasUserConfig,
    answers: Answers,
    cluster: Cluster,
)
    ensures
        atlas_user.reconciliation(config, answers, cluster).calls.len() > 0
            ==> atlas_user.metadata.finalizers.contains(FINALIZER@),
        forall|at: int|
            0 <= at < atlas_user.reconciliation(config, answers, cluster).calls.len() && ({
                let call = #[trigger] atlas_user.reconciliation(config, answers, cluster).calls[at];
                call is Invite || call is Update
            }) ==> !atlas_user.metadata.marked_for_deletion(),
        forall|at: int|
            0 <= at < atlas_user.reconciliation(config, answers, cluster).calls.len()
                && #[trigger] atlas_user.reconciliation(config, answers, cluster).calls[at] is Delete
                ==> atlas_user.metadata.marked_for_deletion(),
{
    atlas_user.metadata.finalizers.index_of_first_ensures(FINALIZER@);
}

/// The finalizer comes off only after the remote account was deleted: a
/// reconcile that asks the cluster to take the finalizer off has found the
/// deletion of the resource requested and remote accounts free to delete, has
/// deleted the account that the status names with its one call, which went
/// through, and has written that the account is deleted. What it takes off is
/// the first finalizer of that name.
pub proof fn finalizer_comes_off_after_the_account(
    atlas_user: AtlasUserView,
    config: AtlasUserConfig,
    answers: Answers,
    cluster: Cluster,
)
    requires
        atlas_user.reconciliation(config, answers, cluster).finalizer is Remove,
    ensures
        atlas_user.metadata.marked_for_deletion(),
        config.safe_to_delete,
        atlas_user.user_id() is Some,
        atlas_user.reconciliation(config, answers, cluster).calls == seq![
            RemoteCallView::Delete {
                org_id: atlas_user.spec.org_id,
                user_id: atlas_user.user_id()->0,
            },
        ],
        answers.delete is Ok,
        answers.write is Ok,
        atlas_user.reconciliation(config, answers, cluster).status matches Some(status)
            && status.membership_status == Some(crate::crd::MembershipView::Deleted),
        atlas_user.reconciliation(config, answers, cluster).finalizer matches FinalizerChange::Remove {
            index,
        } && 0 <= index < atlas_user.metadata.finalizers.len()
            && atlas_user.metadata.finalizers[index] == FINALIZER@,
{
    atlas_user.metadata.finalizers.index_of_first_ensures(FINALIZER@);
}

/// While remote accounts are not to be deleted, the deletion of a resource
/// that bears the finalizer is held back: the reconcile asks nothing of the
/// remote service, leaves the finalizer where it is, and leaves the resource
/// until it changes.
pub proof fn disabled_cleanup_holds_the_deletion_back(
    atlas_user: AtlasUserView,
    config: AtlasUserConfig,
    answers: Answers,
    cluster: Cluster,
)
    requires
        !config.safe_to_delete,
        atlas_user.identity_error() is None,
        atlas_user.metadata.marked_for_deletion(),
        atlas_user.metadata.finalizers.contains(FINALIZER@),
    ensures
        atlas_user.reconciliation(config, answers, cluster).calls == Seq::<RemoteCallView>::empty(),
        atlas_user.reconciliation(config, answers, cluster).finalizer is Untouched,
        atlas_user.reconciliation(config, answers, cluster).end == Ok::<Action, ErrorView>(
            Action::AwaitChange,
        ),
{
    atlas_user.metadata.finalizers.index_of_first_ensures(FINALIZER@);
}

/// Where remote accounts are to be deleted and the status of a resource that
/// is being deleted names none, the reconcile asks nothing of the remote
/// service, fails with the user-input error of the clean-up, and leaves the
/// finalizer in place; the resource is looked at again five seconds later.
pub proof fn cleanup_without_account_keeps_the_finalizer(
    atlas_user: AtlasUserView,
    config: AtlasUserConfig,
    answers: Answers,
    cluster: Cluster,
)
    requires
        config.safe_to_delete,
        atlas_user.identity_error() is None,
        atlas_user.metadata.marked_for_deletion(),
        atlas_user.metadata.finalizers.contains(FINALIZER@),
        atlas_user.user_id() is None,
    ensures
        atlas_user.cleanup(config, answers).end == Err::<Action, crate::atlas::error::ErrorView>(
            crate::atlas::error::ErrorView::UserInput(NO_USER_ID@),
        ),
        atlas_user.reconciliation(config, answers, cluster).calls == Seq::<RemoteCallView>::empty(),
        atlas_user.reconciliation(config, answers, cluster).finalizer is Untouched,
        atlas_user.reconciliation(config, answers, cluster).end == Err::<Action, ErrorView>(
            failed(FinalizerFailureView::CleanupFailed(NO_USER_ID@)),
        ),
        scheduled(atlas_user.reconciliation(config, answers, cluster).end) == Action::Requeue(
            Interval { secs: 5, nanos: 0 },
        ),
{
    atlas_user.metadata.finalizers.index_of_first_ensures(FINALIZER@);
}

/// A resource that does not bear the finalizer and is not being deleted gets
/// the finalizer and nothing else: the reconcile asks nothing of the remote
/// service and writes no status.
pub proof fn finalizer_goes_on_first(
    atlas_user: AtlasUserView,
    config: AtlasUserConfig,
    answers: Answers,
    cluster: Cluster,
)
    requires
        atlas_user.identity_error() is None,
        !atlas_user.metadata.marked_for_deletion(),
        !atlas_user.metadata.finalizers.contains(FINALIZER@),
    ensures
        atlas_user.change() != AtlasUserAction::Delete,
        atlas_user.reconciliation(config, answers, cluster).finalizer is Add,
        atlas_user.reconciliation(config, answers, cluster).calls == Seq::<RemoteCallView>::empty(),
        atlas_user.reconciliation(config, answers, cluster).status is None,
        cluster.add_finalizer is Ok ==> atlas_user.reconciliation(config, answers, cluster).end == Ok::<
            Action,
            ErrorView,
        >(Action::AwaitChange),
{
    atlas_user.metadata.finalizers.index_of_first_ensures(FINALIZER@);
}

} // verus!
