//! One reconcile from its start to its end, as the decisions of the
//! reconciler chain it together, and what holds of every such reconcile.
//!
//! A reconcile asks the remote service at most one thing of each kind. What
//! the outside would answer to each is therefore all that is needed to say
//! how the reconcile runs: which calls it makes, which status it writes, and
//! how it ends.

use vstd::prelude::*;

use crate::atlas::context::{
    ApplyPlanView, CleanupView, ReconcileState, RecoveryView, StatusUpdateView,
    DELETED_EXTERNALLY, NO_USER_ID,
};
use crate::atlas::error::ErrorView;
use crate::atlas::repository::{first_match, first_match_is_a_match, RemoteCallView};
use crate::atlas::user_request::UserRequestView;
use crate::atlas::user_response::UserResponseView;
use crate::config::AtlasUserConfig;
use crate::crd::{AtlasUserStatusView, AtlasUserView};
use crate::k8s::{Action, Interval};

verus! {

/// What the outside answers in the course of one reconcile: the remote
/// service to each kind of call, and the cluster to the writing of the
/// status.
pub struct Answers {
    pub invite: Result<UserResponseView, ErrorView>,
    pub update: Result<UserResponseView, ErrorView>,
    pub get: Result<UserResponseView, ErrorView>,
    pub find: Result<Option<UserResponseView>, ErrorView>,
    pub delete: Result<(), ErrorView>,
    pub write: Result<(), ErrorView>,
}

/// What one reconcile did.
pub struct Run {
    /// The calls to the remote service, in the order in which they were made.
    pub calls: Seq<RemoteCallView>,
    /// The status that was handed to the cluster, if one was.
    pub status: Option<AtlasUserStatusView>,
    /// What the reconcile handed back.
    pub end: Result<Action, ErrorView>,
}

impl Run {
    /// The reconcile that stops after `calls` without a status to write.
    pub open spec fn stopped(calls: Seq<RemoteCallView>, end: Result<Action, ErrorView>) -> Run {
        Run { calls, status: None, end }
    }

    /// The reconcile that made `calls` and goes on as `next` says: it writes
    /// the status that `next` holds, or stops with the failure.
    pub open spec fn concluded(
        calls: Seq<RemoteCallView>,
        next: Result<StatusUpdateView, ErrorView>,
        write: Result<(), ErrorView>,
    ) -> Run {
        match next {
            Err(error) => Run::stopped(calls, Err(error)),
            Ok(update) => Run { calls, status: Some(update.status), end: update.written(write) },
        }
    }

    /// Whether the reconcile invited an account.
    pub open spec fn invites(self) -> bool {
        exists|at: int| 0 <= at < self.calls.len() && self.calls[at] is Invite
    }

    /// Whether the reconcile asked the remote service to change anything.
    pub open spec fn mutates(self) -> bool {
        exists|at: int|
            0 <= at < self.calls.len() && (self.calls[at] is Invite || self.calls[at] is Update
                || self.calls[at] is Delete)
    }
}

impl AtlasUserView {
    /// The call that invites the account of the resource.
    pub open spec fn invite_call(self) -> RemoteCallView {
        RemoteCallView::Invite {
            org_id: self.spec.org_id,
            request: UserRequestView::for_invite(self.spec),
        }
    }

    /// Applying the resource under `config`, where the outside answers as
    /// `answers` says.
    pub open spec fn apply(self, config: AtlasUserConfig, answers: Answers) -> Run {
        let requeue = config.requeue_duration;
        match self.apply_plan() {
            Err(error) => Run::stopped(Seq::empty(), Err(error)),
            Ok(plan) => match plan {
                ApplyPlanView::Invite { .. } => Run::concluded(
                    seq![plan.call()],
                    self.invited(answers.invite, requeue),
                    answers.write,
                ),
                ApplyPlanView::Update { .. } => Run::concluded(
                    seq![plan.call()],
                    self.updated(answers.update, requeue),
                    answers.write,
                ),
                ApplyPlanView::Sync { .. } => Run::concluded(
                    seq![plan.call()],
                    self.synced(answers.get, requeue),
                    answers.write,
                ),
                ApplyPlanView::Recover { .. } => match self.recovered(answers.find) {
                    Err(error) => Run::stopped(seq![plan.call()], Err(error)),
                    Ok(RecoveryView::Adopt(update)) => Run::concluded(
                        seq![plan.call()],
                        Ok(update),
                        answers.write,
                    ),
                    Ok(RecoveryView::Invite { org_id, request }) => Run::concluded(
                        seq![plan.call(), RemoteCallView::Invite { org_id, request }],
                        self.invited(answers.invite, requeue),
                        answers.write,
                    ),
                },
            },
        }
    }

    /// Cleaning up after the resource under `config`, where the outside
    /// answers as `answers` says.
    pub open spec fn cleanup(self, config: AtlasUserConfig, answers: Answers) -> Run {
        match self.cleanup_plan(config.safe_to_delete) {
            Err(error) => Run::stopped(Seq::empty(), Err(error)),
            Ok(CleanupView::Skip(action)) => Run::stopped(Seq::empty(), Ok(action)),
            Ok(CleanupView::Delete { org_id, user_id }) => Run::concluded(
                seq![RemoteCallView::Delete { org_id, user_id }],
                self.deleted(answers.delete),
                answers.write,
            ),
        }
    }

    /// Whether the revisions of the resource are as the cluster keeps them:
    /// the resource has a revision, the first is revision one, and none was
    /// carried out that the resource has not reached.
    pub open spec fn revisions_in_order(self) -> bool {
        &&& self.metadata.generation is Some
        &&& self.current_generation() >= 1
        &&& 0 <= self.observed_generation() <= self.current_generation()
    }
}

/// Every resource is in one of the four situations, and for a resource whose
/// revisions are in order they are told apart by whether an account is known
/// and by how the revision stands to the one carried out: new without an
/// account in revision one, orphan without an account in a later revision,
/// stale with an account and a revision past the one carried out, synced with
/// an account and the revision carried out.
pub proof fn situations_by_account_and_revision(atlas_user: AtlasUserView)
    requires
        atlas_user.revisions_in_order(),
    ensures
        atlas_user.state() == ReconcileState::New <==> atlas_user.user_id() is None
            && atlas_user.current_generation() == 1,
        atlas_user.state() == ReconcileState::Orphan <==> atlas_user.user_id() is None
            && atlas_user.current_generation() > 1,
        atlas_user.state() == ReconcileState::Stale <==> atlas_user.user_id() is Some
            && atlas_user.current_generation() > atlas_user.observed_generation(),
        atlas_user.state() == ReconcileState::Synced <==> atlas_user.user_id() is Some
            && atlas_user.current_generation() == atlas_user.observed_generation(),
{
}

/// A resource in its first revision for which no account is known is invited
/// with exactly one call, and with no other. Once the invitation is answered
/// with an account, the status to write holds that account's identifier and
/// standing, revision one as carried out, and no failure; once that status is
/// written the resource is to be looked at again after the configured
/// interval. An invitation that fails writes nothing and fails the reconcile
/// as the invitation failed.
pub proof fn new_resource_is_invited_once(
    atlas_user: AtlasUserView,
    config: AtlasUserConfig,
    answers: Answers,
)
    requires
        atlas_user.identity_error() is None,
        atlas_user.metadata.generation == Some(1i64),
        atlas_user.user_id() is None,
    ensures
        atlas_user.apply(config, answers).calls == seq![atlas_user.invite_call()],
        match answers.invite {
            Ok(account) => {
                &&& atlas_user.apply(config, answers).status == Some(
                    AtlasUserStatusView {
                        user_id: Some(account.id),
                        membership_status: Some(account.org_membership_status),
                        observed_generation: Some(1i64),
                        error: None,
                    },
                )
                &&& answers.write is Ok ==> atlas_user.apply(config, answers).end == Ok::<
                    Action,
                    ErrorView,
                >(Action::Requeue(config.requeue_duration))
            },
            Err(error) => {
                &&& atlas_user.apply(config, answers).status is None
                &&& atlas_user.apply(config, answers).end == Err::<Action, ErrorView>(error)
            },
        },
{
}

/// A resource with an account whose revision is not past the one carried out
/// is never invited and never updated: applying it reads the account, once,
/// and makes no other call.
pub proof fn synced_resource_is_only_read(
    atlas_user: AtlasUserView,
    config: AtlasUserConfig,
    answers: Answers,
)
    requires
        atlas_user.user_id() is Some,
        !atlas_user.needs_update(),
    ensures
        atlas_user.apply(config, answers).calls.len() <= 1,
        forall|at: int|
            0 <= at < atlas_user.apply(config, answers).calls.len() ==> #[trigger] atlas_user.apply(
                config,
                answers,
            ).calls[at] == (RemoteCallView::Get {
                org_id: atlas_user.spec.org_id,
                user_id: atlas_user.user_id()->0,
            }),
        !atlas_user.apply(config, answers).mutates(),
        atlas_user.identity_error() is None ==> atlas_user.apply(config, answers).calls.len() == 1,
{
}

/// A resource with an account whose revision is past the one carried out is
/// updated with exactly one call, and with no other. The call carries the
/// roles and the teams of the resource and no name. Once the update is
/// answered, the status to write records the revision of the resource as
/// carried out; the account stays the one that was known.
pub proof fn stale_resource_is_updated_once(
    atlas_user: AtlasUserView,
    config: AtlasUserConfig,
    answers: Answers,
)
    requires
        atlas_user.identity_error() is None,
        atlas_user.metadata.generation is Some,
        atlas_user.user_id() is Some,
        atlas_user.needs_update(),
    ensures
        atlas_user.apply(config, answers).calls == seq![
            RemoteCallView::Update {
                org_id: atlas_user.spec.org_id,
                user_id: atlas_user.user_id()->0,
                request: UserRequestView {
                    username: None,
                    roles: atlas_user.spec.roles,
                    team_ids: atlas_user.spec.team_ids,
                },
            },
        ],
        match answers.update {
            Ok(account) => {
                &&& atlas_user.apply(config, answers).status matches Some(status)
                &&& status.observed_generation == atlas_user.metadata.generation
                &&& status.user_id == atlas_user.user_id()
                &&& status.membership_status == Some(account.org_membership_status)
                &&& status.error is None
                &&& answers.write is Ok ==> atlas_user.apply(config, answers).end == Ok::<
                    Action,
                    ErrorView,
                >(Action::Requeue(config.requeue_duration))
            },
            Err(error) => {
                &&& atlas_user.apply(config, answers).status is None
                &&& atlas_user.apply(config, answers).end == Err::<Action, ErrorView>(error)
            },
        },
{
}

/// Reading an account that has not changed changes nothing the second time:
/// where a resource in step with its account is applied, the status that was
/// written is recorded on it, and the resource is applied again with the same
/// answers, the second reconcile makes the same call, writes the very same
/// status and ends as the first did.
pub proof fn sync_is_idempotent(
    atlas_user: AtlasUserView,
    config: AtlasUserConfig,
    answers: Answers,
)
    requires
        atlas_user.user_id() is Some,
        !atlas_user.needs_update(),
        atlas_user.identity_error() is None,
        answers.get is Ok,
    ensures
        atlas_user.apply(config, answers).status is Some,
        atlas_user.with_status(atlas_user.apply(config, answers).status->0).apply(config, answers)
            == atlas_user.apply(config, answers),
{
}

/// An account that is gone from the remote service is forgotten and not
/// invited anew: where reading the account of a resource in step with it is
/// answered with "no such account", the one call of the reconcile is that
/// reading, and the status to write names no account and no standing and
/// holds a failure that is not empty.
pub proof fn drift_forgets_the_account(
    atlas_user: AtlasUserView,
    config: AtlasUserConfig,
    answers: Answers,
)
    requires
        atlas_user.user_id() is Some,
        !atlas_user.needs_update(),
        atlas_user.identity_error() is None,
        answers.get matches Err(error) && error.is_not_found(),
    ensures
        atlas_user.apply(config, answers).calls == seq![
            RemoteCallView::Get {
                org_id: atlas_user.spec.org_id,
                user_id: atlas_user.user_id()->0,
            },
        ],
        !atlas_user.apply(config, answers).invites(),
        atlas_user.apply(config, answers).status matches Some(status) && status.user_id is None
            && status.membership_status is None && status.error == Some(DELETED_EXTERNALLY@)
            && DELETED_EXTERNALLY@.len() > 0,
        answers.write is Ok ==> atlas_user.apply(config, answers).end == Ok::<Action, ErrorView>(
            Action::Requeue(config.requeue_duration),
        ),
{
    reveal_strlit("User was deleted externally from Atlas");
}

/// While remote accounts are not to be deleted, cleaning up asks nothing of
/// the remote service and writes nothing, whatever the status holds, and a
/// resource that has a name and a namespace is left until it changes.
pub proof fn cleanup_disabled_never_deletes(
    atlas_user: AtlasUserView,
    config: AtlasUserConfig,
    answers: Answers,
)
    requires
        !config.safe_to_delete,
    ensures
        atlas_user.cleanup(config, answers).calls == Seq::<RemoteCallView>::empty(),
        atlas_user.cleanup(config, answers).status is None,
        atlas_user.identity_error() is None ==> atlas_user.cleanup(config, answers).end == Ok::<
            Action,
            ErrorView,
        >(Action::AwaitChange),
{
}

/// Where remote accounts are to be deleted and the status names none,
/// cleaning up asks nothing of the remote service, writes nothing, and fails
/// with a user-input error.
pub proof fn cleanup_without_account_is_refused(
    atlas_user: AtlasUserView,
    config: AtlasUserConfig,
    answers: Answers,
)
    requires
        config.safe_to_delete,
        atlas_user.identity_error() is None,
        atlas_user.user_id() is None,
    ensures
        atlas_user.cleanup(config, answers) == Run::stopped(
            Seq::empty(),
            Err(ErrorView::UserInput(NO_USER_ID@)),
        ),
{
}

/// Where remote accounts are to be deleted and the status names one, cleaning
/// up deletes that account with one call. Once the deletion went through, the
/// status to write says that the account is deleted and holds no failure, and
/// the resource is left until it changes. A deletion that fails writes
/// nothing.
pub proof fn cleanup_deletes_the_account(
    atlas_user: AtlasUserView,
    config: AtlasUserConfig,
    answers: Answers,
)
    requires
        config.safe_to_delete,
        atlas_user.identity_error() is None,
        atlas_user.user_id() is Some,
    ensures
        atlas_user.cleanup(config, answers).calls == seq![
            RemoteCallView::Delete {
                org_id: atlas_user.spec.org_id,
                user_id: atlas_user.user_id()->0,
            },
        ],
        match answers.delete {
            Ok(_) => {
                &&& atlas_user.cleanup(config, answers).status matches Some(status)
                &&& status.membership_status == Some(crate::crd::MembershipView::Deleted)
                &&& status.error is None
                &&& status.user_id == atlas_user.user_id()
                &&& answers.write is Ok ==> atlas_user.cleanup(config, answers).end == Ok::<
                    Action,
                    ErrorView,
                >(Action::AwaitChange)
            },
            Err(error) => atlas_user.cleanup(config, answers) == Run::stopped(
                atlas_user.cleanup(config, answers).calls,
                Err(error),
            ),
        },
{
}

/// A resource past its first revision for which no account is known is
/// looked for among the accounts of its organization. Where `accounts` are
/// those accounts and the search is answered with the first of them that
/// bears the name of the resource: if there is one, it is taken over without
/// an invitation, its identifier and standing go into the status, and the
/// resource is looked at again after one second; if there is none, the
/// account is invited, with one call after the search.
pub proof fn orphan_is_adopted_or_invited(
    atlas_user: AtlasUserView,
    config: AtlasUserConfig,
    answers: Answers,
    accounts: Seq<UserResponseView>,
)
    requires
        atlas_user.identity_error() is None,
        atlas_user.user_id() is None,
        atlas_user.current_generation() != 1,
        answers.find == Ok::<Option<UserResponseView>, ErrorView>(
            first_match(accounts, atlas_user.spec.username),
        ),
    ensures
        atlas_user.state() == ReconcileState::Orphan,
        match first_match(accounts, atlas_user.spec.username) {
            Some(account) => {
                &&& account.username == atlas_user.spec.username
                &&& atlas_user.apply(config, answers).calls == seq![
                    RemoteCallView::FindByUsername {
                        org_id: atlas_user.spec.org_id,
                        username: atlas_user.spec.username,
                    },
                ]
                &&& !atlas_user.apply(config, answers).invites()
                &&& atlas_user.apply(config, answers).status matches Some(status)
                &&& status.user_id == Some(account.id)
                &&& status.membership_status == Some(account.org_membership_status)
                &&& status.error is None
                &&& answers.write is Ok ==> atlas_user.apply(config, answers).end == Ok::<
                    Action,
                    ErrorView,
                >(Action::Requeue(Interval { secs: 1, nanos: 0 }))
            },
            None => {
                &&& forall|at: int|
                    0 <= at < accounts.len() ==> (#[trigger] accounts[at]).username
                        != atlas_user.spec.username
                &&& atlas_user.apply(config, answers).calls == seq![
                    RemoteCallView::FindByUsername {
                        org_id: atlas_user.spec.org_id,
                        username: atlas_user.spec.username,
                    },
                    atlas_user.invite_call(),
                ]
            },
        },
{
    first_match_is_a_match(accounts, atlas_user.spec.username);
}

/// What was carried out is not carried out again. Where applying a resource
/// with a revision has written a status that names an account, the resource
/// with that status on it is in step with its account: applied once more, by
/// whatever brings it up again, it is read and neither invited nor updated,
/// until its revision moves on.
pub proof fn success_leaves_the_resource_in_step(
    atlas_user: AtlasUserView,
    config: AtlasUserConfig,
    answers: Answers,
    later: Answers,
)
    requires
        atlas_user.metadata.generation is Some,
        atlas_user.apply(config, answers).status matches Some(status) && status.user_id is Some,
    ensures
        atlas_user.with_status(atlas_user.apply(config, answers).status->0).state()
            == ReconcileState::Synced,
        !atlas_user.with_status(atlas_user.apply(config, answers).status->0).apply(
            config,
            later,
        ).mutates(),
{
}

/// A status is written exactly where the remote side was dealt with. Where
/// the cluster takes what is written: applying a resource ends well if and
/// only if it has handed a status to the cluster, and a failure has written
/// nothing; cleaning up likewise, except that a clean-up that leaves the
/// remote account alone ends well without writing. No reconcile makes more
/// than two calls, and only the search that finds nothing is followed by a
/// second one.
pub proof fn status_is_written_exactly_on_success(
    atlas_user: AtlasUserView,
    config: AtlasUserConfig,
    answers: Answers,
)
    requires
        answers.write is Ok,
    ensures
        atlas_user.apply(config, answers).end is Ok <==> atlas_user.apply(config, answers).status
            is Some,
        atlas_user.cleanup(config, answers).status is Some ==> atlas_user.cleanup(
            config,
            answers,
        ).end is Ok,
        atlas_user.cleanup(config, answers).end is Ok ==> atlas_user.cleanup(
            config,
            answers,
        ).status is Some || !config.safe_to_delete,
        atlas_user.apply(config, answers).calls.len() <= 2,
        atlas_user.apply(config, answers).calls.len() == 2 ==> atlas_user.state()
            == ReconcileState::Orphan && answers.find == Ok::<Option<UserResponseView>, ErrorView>(
            None,
        ),
        atlas_user.cleanup(config, answers).calls.len() <= 1,
{
}

/// Whatever is handed to the cluster and cannot be written fails the
/// reconcile with the failure of the writing.
pub proof fn unwritten_status_fails_the_reconcile(
    atlas_user: AtlasUserView,
    config: AtlasUserConfig,
    answers: Answers,
)
    requires
        answers.write is Err,
    ensures
        atlas_user.apply(config, answers).status is Some ==> atlas_user.apply(config, answers).end
            == Err::<Action, ErrorView>(answers.write->Err_0),
        atlas_user.cleanup(config, answers).status is Some ==> atlas_user.cleanup(
            config,
            answers,
        ).end == Err::<Action, ErrorView>(answers.write->Err_0),
{
}

/// A resource that was applied is looked at again: after the configured
/// interval, or, where an orphan was taken over, after one second. A resource
/// that was cleaned up after is left until it changes.
pub proof fn reconciled_resource_is_visited_again(
    atlas_user: AtlasUserView,
    config: AtlasUserConfig,
    answers: Answers,
)
    ensures
        atlas_user.apply(config, answers).end matches Ok(action) ==> action == Action::Requeue(
            config.requeue_duration,
        ) || (atlas_user.state() == ReconcileState::Orphan && answers.find is Ok
            && answers.find->Ok_0 is Some && action == Action::Requeue(
            Interval { secs: 1, nanos: 0 },
        )),
        atlas_user.cleanup(config, answers).end matches Ok(action) ==> action
            == Action::AwaitChange,
{
}

/// The status names an account exactly when one was created or found and has
/// not been seen to be gone. Every status that applying a resource writes
/// names the account that the invitation or the search has answered with; or,
/// where an account was known, that account, unless the remote service no
/// longer knows it: then it names none. Every success clears the last
/// failure; only the loss of the account records one.
pub proof fn status_names_the_account(
    atlas_user: AtlasUserView,
    config: AtlasUserConfig,
    answers: Answers,
)
    requires
        atlas_user.apply(config, answers).status is Some,
    ensures
        ({
            let status = atlas_user.apply(config, answers).status->0;
            match atlas_user.state() {
                ReconcileState::New => answers.invite matches Ok(account) && status.user_id == Some(
                    account.id,
                ) && status.error is None,
                ReconcileState::Orphan => match answers.find {
                    Ok(Some(account)) => status.user_id == Some(account.id) && status.error is None,
                    _ => answers.invite matches Ok(account) && status.user_id == Some(account.id)
                        && status.error is None,
                },
                ReconcileState::Stale => answers.update is Ok && status.user_id
                    == atlas_user.user_id() && status.error is None,
                ReconcileState::Synced => match answers.get {
                    Ok(_) => status.user_id == atlas_user.user_id() && status.error is None,
                    Err(error) => error.is_not_found() && status.user_id is None && status.error
                        is Some,
                },
            }
        }),
{
}

/// The revision carried out never runs ahead of the resource: every status
/// that a reconcile writes for a resource with a revision records exactly
/// that revision as carried out.
pub proof fn written_status_observes_the_revision(
    atlas_user: AtlasUserView,
    config: AtlasUserConfig,
    answers: Answers,
)
    requires
        atlas_user.metadata.generation is Some,
    ensures
        atlas_user.apply(config, answers).status matches Some(status)
            ==> status.observed_generation == atlas_user.metadata.generation,
        atlas_user.cleanup(config, answers).status matches Some(status)
            ==> status.observed_generation == atlas_user.metadata.generation,
{
}

} // verus!
