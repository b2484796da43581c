//! Registration: a request becomes a provisional account pending its email
//! code; the correct code turns it into a user and claims its username, in
//! one step. No two registrations (activated or pending) may hold the same
//! email or username.

use vstd::prelude::*;

use crate::consts;
use crate::crypto::hash_secret;
use crate::crypto::random_code;
use crate::crypto::secret_matches;
use crate::crypto::verify_secret;
use crate::entities::PendingUser;
use crate::entities::PendingUserV;
use crate::entities::User;
use crate::errors::Error;
use crate::repository::has_pending_user_with_id;
use crate::repository::namespace_path_in;
use crate::repository::pending_user_email_in;
use crate::repository::pending_user_username_in;
use crate::repository::user_email_in;
use crate::repository::user_username_in;
use crate::repository::Repository;
use crate::service::validators::email_ok;
use crate::service::validators::namespace_error;
use crate::service::CompleteRegistrationInput;
use crate::service::Message;
use crate::service::RegisterInput;
use crate::service::Service;
use crate::text::normalize_bytes;
use crate::text::normalize_spec;
use crate::text::clone_bytes;
use vstd::utf8::encode_utf8;

verus! {

/// The canonical form of a submitted identity field: its UTF-8 bytes,
/// trimmed and lowercased.
pub open spec fn normal_of(s: Seq<char>) -> Seq<u8> {
    normalize_spec(encode_utf8(s))
}

/// The first rule a registration request breaks, in order: the caller must
/// be anonymous, the email and username must be legal, and neither the
/// email nor the username may be taken by a user or by a pending
/// registration; `None` if the request is accepted.
pub open spec fn register_error(
    svc: Service,
    repo: Repository,
    authenticated: bool,
    email: Seq<u8>,
    username: Seq<u8>,
) -> Option<Error> {
    if authenticated {
        Some(Error::MustNotBeAuthenticated)
    } else if !email_ok(svc, email, true) {
        Some(Error::EmailIsInvalid)
    } else if namespace_error(svc, username) is Some {
        namespace_error(svc, username)
    } else if user_email_in(repo.users@, email) || pending_user_email_in(
        repo.pending_users@,
        email,
    ) {
        Some(Error::EmailAlreadyExists)
    } else if crate::repository::has_namespace_with_path(repo, username)
        || pending_user_username_in(repo.pending_users@, username) {
        Some(Error::UsernameAlreadyExists)
    } else {
        None
    }
}

impl Service {
    /// Starts a registration: normalizes and validates the submitted email
    /// and username, rejects ones already taken, and persists a pending
    /// user carrying only the hash of a fresh confirmation code. The raw
    /// code leaves only inside the returned notification job. The caller is
    /// expected to have applied the anti-enumeration delay before any of
    /// this runs.
    pub fn register(
        &self,
        repo: &mut Repository,
        actor: Option<User>,
        input: RegisterInput,
        now: u64,
    ) -> (r: Result<(PendingUser, Message), Error>)
        requires
            old(repo).wf(),
            old(repo).next_id < u128::MAX,
        ensures
            final(repo).wf(),
            old(repo).next_id <= final(repo).next_id <= old(repo).next_id + 1,
            r is Err ==> *final(repo) == *old(repo),
            r is Ok <==> register_error(
                *self,
                *old(repo),
                actor is Some,
                normal_of(input.email@),
                normal_of(input.username@),
            ) is None,
            r matches Err(e) ==> Some(e) == register_error(
                *self,
                *old(repo),
                actor is Some,
                normal_of(input.email@),
                normal_of(input.username@),
            ),
            r matches Ok((pu, msg)) ==> {
                &&& final(repo).pending_users@.len() == old(repo).pending_users@.len() + 1
                &&& forall|t: int|
                    0 <= t < old(repo).pending_users@.len() ==> final(repo).pending_users@[t]
                        == old(repo).pending_users@[t]
                &&& final(repo).pending_users@.last()@ == pu@
                &&& pu@.email == normal_of(input.email@)
                &&& pu@.username == normal_of(input.username@)
                &&& pu@.failed_attempts == 0
                &&& pu@.created_at == now
                &&& msg matches Message::SendRegisterEmail { email, username, code } && email@
                    == pu@.email && username@ == pu@.username && code@.len()
                    == consts::CODE_LENGTH && secret_matches(code@, pu@.code_hash)
                &&& final(repo).users@ == old(repo).users@
                &&& final(repo).sessions@ == old(repo).sessions@
                &&& final(repo).pending_sessions@ == old(repo).pending_sessions@
                &&& final(repo).namespaces@ == old(repo).namespaces@
                &&& final(repo).groups@ == old(repo).groups@
                &&& final(repo).invitations@ == old(repo).invitations@
                &&& final(repo).memberships@ == old(repo).memberships@
            },
    {
        if actor.is_some() {
            return Err(Error::MustNotBeAuthenticated);
        }
        let email = normalize_bytes(input.email.as_str().as_bytes());
        match self.validate_email_bytes(email.as_slice(), true) {
            Ok(()) => (),
            Err(e) => {
                return Err(e);
            },
        }
        let username = normalize_bytes(input.username.as_str().as_bytes());
        match self.validate_namespace_bytes(username.as_slice()) {
            Ok(()) => (),
            Err(e) => {
                return Err(e);
            },
        }
        if repo.find_user_index_by_email(email.as_slice()).is_some() {
            return Err(Error::EmailAlreadyExists);
        }
        if repo.find_pending_user_index_by_email(email.as_slice()).is_some() {
            return Err(Error::EmailAlreadyExists);
        }
        if self.check_namespace_exists(repo, username.as_slice()) {
            return Err(Error::UsernameAlreadyExists);
        }
        if repo.find_pending_user_index_by_username(username.as_slice()).is_some() {
            return Err(Error::UsernameAlreadyExists);
        }
        let code = random_code();
        let code_hash = hash_secret(code.as_slice());
        let msg_email = clone_bytes(&email);
        let msg_username = clone_bytes(&username);
        let pu = repo.create_pending_user(username, email, code_hash, now);
        let msg = Message::SendRegisterEmail { email: msg_email, username: msg_username, code };
        Ok((pu, msg))
    }

    /// Completes a registration with the emailed code. A wrong code costs
    /// one attempt and, once the budget is gone, the pending row itself; the
    /// right code atomically creates the user, claims its username as a
    /// namespace, and deletes the pending row.
    pub fn complete_registration(
        &self,
        repo: &mut Repository,
        input: CompleteRegistrationInput,
        now: u64,
    ) -> (r: Result<User, Error>)
        requires
            old(repo).wf(),
            old(repo).next_id < u128::MAX - 1,
        ensures
            final(repo).wf(),
            old(repo).next_id <= final(repo).next_id <= old(repo).next_id + 2,
            !has_pending_user_with_id(*old(repo), input.pending_user_id) ==> (r matches Err(
                Error::PendingUserNotFound,
            )) && *final(repo) == *old(repo),
            has_pending_user_with_id(*old(repo), input.pending_user_id) ==> exists|t: int|
                0 <= t < old(repo).pending_users@.len() && (#[trigger] old(
                    repo,
                ).pending_users@[t])@.id == input.pending_user_id && complete_registration_post(
                    *old(repo),
                    *final(repo),
                    t,
                    encode_utf8(input.code@),
                    now,
                    r,
                ),
    {
        let code = input.code.as_str().as_bytes();
        let i = match repo.find_pending_user_index_by_id(input.pending_user_id) {
            Some(i) => i,
            None => {
                return Err(Error::PendingUserNotFound);
            },
        };
        let ghost t = i as int;
        if !verify_secret(code, repo.pending_users[i].code_hash.as_str()) {
            if repo.pending_users[i].failed_attempts >= consts::MAX_CODE_ATTEMPTS - 1 {
                repo.remove_pending_user_at(i);
                return Err(Error::AttemptsExceeded);
            }
            let mut row = repo.pending_users[i].duplicate();
            row.failed_attempts = row.failed_attempts + 1;
            row.updated_at = now;
            repo.set_pending_user(i, row);
            return Err(Error::InvalidCode);
        }
        if repo.find_user_index_by_email(repo.pending_users[i].email.as_slice()).is_some() {
            return Err(Error::EmailAlreadyExists);
        }
        if self.check_namespace_exists(repo, repo.pending_users[i].username.as_slice()) {
            return Err(Error::UsernameAlreadyExists);
        }
        proof {
            if user_username_in(repo.users@, repo.pending_users@[t]@.username) {
                let w = choose|w: int|
                    0 <= w < repo.users@.len() && (#[trigger] repo.users@[w])@.username
                        == repo.pending_users@[t]@.username;
                let n = choose|n: int|
                    0 <= n < repo.namespaces@.len() && (#[trigger] repo.namespaces@[n])@.path
                        == repo.users@[w]@.username && repo.namespaces@[n]@.kind
                        == crate::entities::NamespaceType::User;
                assert(crate::repository::namespace_path_in(
                    repo.namespaces@,
                    repo.pending_users@[t]@.username,
                ));
            }
        }
        let email = clone_bytes(&repo.pending_users[i].email);
        let username = clone_bytes(&repo.pending_users[i].username);
        let user = repo.create_user(email, username, now);
        repo.remove_pending_user_at(i);
        Ok(user)
    }
}

/// What completing a registration did, relative to the pending row at
/// index `t` of the old state: a wrong code costs an attempt or, at the
/// budget, the row; stale conflicts leave the store untouched; the right
/// code creates the user and its namespace and consumes the row.
pub open spec fn complete_registration_post(
    old_repo: Repository,
    new_repo: Repository,
    t: int,
    code: Seq<u8>,
    now: u64,
    r: Result<User, Error>,
) -> bool {
    let pu = old_repo.pending_users@[t]@;
    if !secret_matches(code, pu.code_hash) {
        if pu.failed_attempts + 1 >= consts::MAX_CODE_ATTEMPTS {
            &&& r matches Err(Error::AttemptsExceeded)
            &&& new_repo.pending_users@ == old_repo.pending_users@.remove(t)
            &&& new_repo.users@ == old_repo.users@
            &&& new_repo.namespaces@ == old_repo.namespaces@
            &&& new_repo.sessions@ == old_repo.sessions@
            &&& new_repo.pending_sessions@ == old_repo.pending_sessions@
            &&& new_repo.groups@ == old_repo.groups@
            &&& new_repo.invitations@ == old_repo.invitations@
            &&& new_repo.memberships@ == old_repo.memberships@
        } else {
            &&& r matches Err(Error::InvalidCode)
            &&& new_repo.pending_users@.len() == old_repo.pending_users@.len()
            &&& new_repo.pending_users@[t]@ == (PendingUserV {
                failed_attempts: (pu.failed_attempts + 1) as u64,
                updated_at: now,
                ..pu
            })
            &&& forall|q: int|
                0 <= q < old_repo.pending_users@.len() && q != t ==> new_repo.pending_users@[q]
                    == old_repo.pending_users@[q]
            &&& new_repo.users@ == old_repo.users@
            &&& new_repo.namespaces@ == old_repo.namespaces@
            &&& new_repo.sessions@ == old_repo.sessions@
            &&& new_repo.pending_sessions@ == old_repo.pending_sessions@
            &&& new_repo.groups@ == old_repo.groups@
            &&& new_repo.invitations@ == old_repo.invitations@
            &&& new_repo.memberships@ == old_repo.memberships@
        }
    } else if user_email_in(old_repo.users@, pu.email) {
        &&& r matches Err(Error::EmailAlreadyExists)
        &&& new_repo == old_repo
    } else if namespace_path_in(old_repo.namespaces@, pu.username) {
        &&& r matches Err(Error::UsernameAlreadyExists)
        &&& new_repo == old_repo
    } else {
        &&& r matches Ok(u) && u@.id == old_repo.next_id && u@.email == pu.email && u@.username
            == pu.username && u@.two_fa_enabled == false && u@.created_at == now
        &&& new_repo.users@.len() == old_repo.users@.len() + 1
        &&& forall|q: int|
            0 <= q < old_repo.users@.len() ==> new_repo.users@[q] == old_repo.users@[q]
        &&& r matches Ok(u) && new_repo.users@.last()@ == u@
        &&& new_repo.namespaces@.len() == old_repo.namespaces@.len() + 1
        &&& forall|q: int|
            0 <= q < old_repo.namespaces@.len() ==> new_repo.namespaces@[q]
                == old_repo.namespaces@[q]
        &&& new_repo.namespaces@.last()@.path == pu.username
        &&& new_repo.namespaces@.last()@.kind == crate::entities::NamespaceType::User
        &&& new_repo.pending_users@ == old_repo.pending_users@.remove(t)
        &&& new_repo.sessions@ == old_repo.sessions@
        &&& new_repo.pending_sessions@ == old_repo.pending_sessions@
        &&& new_repo.groups@ == old_repo.groups@
        &&& new_repo.invitations@ == old_repo.invitations@
        &&& new_repo.memberships@ == old_repo.memberships@
    }
}

} // verus!
