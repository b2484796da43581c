//! Laws that relate several operations, stated over the same spec
//! functions the operations' contracts use.

use vstd::prelude::*;

use crate::consts;
use crate::crypto::secret_matches;
use crate::errors::Error;
use crate::repository::pending_user_id_in;
use crate::repository::Repository;
use crate::service::register::complete_registration_post;
use crate::service::register::register_error;
use crate::service::session::session_lives;
use crate::service::validators::email_ok;
use crate::service::validators::namespace_error;
use crate::service::Service;

verus! {

/// A username and a group path can never collide: both live in the one
/// namespace table, under different kind tags, and paths are globally
/// unique.
pub proof fn lemma_username_group_path_disjoint(repo: Repository)
    requires
        repo.wf(),
    ensures
        forall|i: int, j: int|
            0 <= i < repo.users@.len() && 0 <= j < repo.groups@.len() ==> (
            #[trigger] repo.users@[i])@.username != (#[trigger] repo.groups@[j])@.path,
{
    assert forall|i: int, j: int|
        0 <= i < repo.users@.len() && 0 <= j < repo.groups@.len() implies (
    #[trigger] repo.users@[i])@.username != (#[trigger] repo.groups@[j])@.path by {
        if repo.users@[i]@.username == repo.groups@[j]@.path {
            let a = choose|a: int|
                0 <= a < repo.namespaces@.len() && (#[trigger] repo.namespaces@[a])@.path
                    == repo.users@[i]@.username && repo.namespaces@[a]@.kind
                    == crate::entities::NamespaceType::User;
            let b = choose|b: int|
                0 <= b < repo.namespaces@.len() && (#[trigger] repo.namespaces@[b])@.path
                    == repo.groups@[j]@.path && repo.namespaces@[b]@.kind
                    == crate::entities::NamespaceType::Group;
            assert(a != b);
            assert(repo.namespaces@[a]@.path == repo.namespaces@[b]@.path);
        }
    }
}

/// Registering twice with the same email: once a registration for a legal
/// email stands as a pending user, a second registration with that email
/// (and any legal username) is rejected with `EmailAlreadyExists`.
pub proof fn lemma_second_register_rejected(
    svc: Service,
    repo: Repository,
    email: Seq<u8>,
    username: Seq<u8>,
)
    requires
        repo.pending_users@.len() > 0,
        repo.pending_users@.last()@.email == email,
        email_ok(svc, email, true),
        namespace_error(svc, username) is None,
    ensures
        register_error(svc, repo, false, email, username) == Some(Error::EmailAlreadyExists),
{
    let t = repo.pending_users@.len() - 1;
    assert((repo.pending_users@[t])@.email == email);
    assert(crate::repository::pending_user_email_in(repo.pending_users@, email));
}

/// Registering again after an earlier registration was completed: once a
/// user row holds a legal email, a registration with that email (and any
/// legal username) is rejected with `EmailAlreadyExists`.
pub proof fn lemma_register_after_completion_rejected(
    svc: Service,
    repo: Repository,
    w: int,
    username: Seq<u8>,
)
    requires
        0 <= w < repo.users@.len(),
        email_ok(svc, repo.users@[w]@.email, true),
        namespace_error(svc, username) is None,
    ensures
        register_error(svc, repo, false, repo.users@[w]@.email, username) == Some(
            Error::EmailAlreadyExists,
        ),
{
    assert(crate::repository::user_email_in(repo.users@, repo.users@[w]@.email));
}

/// Exhausting the confirmation-code budget deletes the pending user: the
/// attempt that reaches the budget with a wrong code leaves no row with
/// that id behind, so a later attempt — even with the correct code — can
/// only be answered `PendingUserNotFound`.
pub proof fn lemma_attempts_budget_deletes(
    old_repo: Repository,
    new_repo: Repository,
    t: int,
    code: Seq<u8>,
    now: u64,
    r: Result<crate::entities::User, Error>,
)
    requires
        old_repo.wf(),
        0 <= t < old_repo.pending_users@.len(),
        !secret_matches(code, old_repo.pending_users@[t]@.code_hash),
        old_repo.pending_users@[t]@.failed_attempts + 1 >= consts::MAX_CODE_ATTEMPTS,
        complete_registration_post(old_repo, new_repo, t, code, now, r),
    ensures
        r matches Err(Error::AttemptsExceeded),
        !pending_user_id_in(new_repo.pending_users@, old_repo.pending_users@[t]@.id),
{
    let id = old_repo.pending_users@[t]@.id;
    assert(new_repo.pending_users@ == old_repo.pending_users@.remove(t));
    assert forall|q: int|
        0 <= q < new_repo.pending_users@.len() implies (#[trigger] new_repo.pending_users@[q])@.id
        != id by {
        if q < t {
            assert(new_repo.pending_users@[q] == old_repo.pending_users@[q]);
        } else {
            assert(new_repo.pending_users@[q] == old_repo.pending_users@[q + 1]);
        }
    }
}

/// A revoked (or never issued) session grants nothing: without a row of
/// that id, no token naming it can pass `verify`, whatever its secret.
pub proof fn lemma_revoked_session_grants_nothing(
    repo: Repository,
    sid: u128,
    sec: Seq<u8>,
    now: u64,
)
    requires
        !crate::repository::has_session_with_id(repo, sid),
    ensures
        !session_lives(repo, sid, sec, now),
{
    if session_lives(repo, sid, sec, now) {
        let t = choose|t: int|
            0 <= t < repo.sessions@.len() && (#[trigger] repo.sessions@[t])@.id == sid && now
                <= repo.sessions@[t]@.expires_at && secret_matches(
                sec,
                repo.sessions@[t]@.secret_hash,
            );
        assert(crate::repository::session_id_in(repo.sessions@, sid));
    }
}

} // verus!
