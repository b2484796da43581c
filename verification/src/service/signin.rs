//! Passwordless sign-in: an identity lookup opens a pending sign-in whose
//! emailed code must be confirmed; users with the second factor enabled get
//! a session only after the TOTP challenge as well.

use vstd::prelude::*;

use crate::consts;
use crate::crypto::aead_seal;
use crate::crypto::hash_secret;
use crate::crypto::random_code;
use crate::crypto::secret_matches;
use crate::crypto::verify_secret;
use crate::entities::PendingSession;
use crate::entities::PendingSessionV;
use crate::entities::User;
use crate::errors::Error;
use crate::repository::has_pending_session_with_id;
use crate::repository::user_email_in;
use crate::repository::user_username_in;
use crate::repository::Repository;
use crate::service::session::id_bytes_spec;
use crate::service::session::token_grants;
use crate::service::session::token_spec;
use crate::service::twofa::code_normal_of;
use crate::service::twofa::totp_accepts;
use crate::service::twofa::totp_code_accepted;
use crate::service::twofa::totp_material_authentic;
use crate::service::twofa::totp_validate;
use crate::service::CompleteSignInInput;
use crate::service::CompleteTwoFaChallengeInput;
use crate::service::Message;
use crate::service::Service;
use crate::service::SignInInput;
use crate::service::SignedIn;
use crate::text::clone_bytes;
use crate::text::normalize_bytes;
use crate::text::strip_dashes;
use vstd::utf8::encode_utf8;

verus! {

/// The first rule a sign-in request breaks: the caller must be anonymous
/// and the normalized identity must name a user by email or username.
pub open spec fn sign_in_error(
    repo: Repository,
    authenticated: bool,
    identity: Seq<u8>,
) -> Option<Error> {
    if authenticated {
        Some(Error::MustNotBeAuthenticated)
    } else if !user_email_in(repo.users@, identity) && !user_username_in(repo.users@, identity) {
        Some(Error::UserNotFound)
    } else {
        None
    }
}

impl Service {
    /// Starts a sign-in: resolves the normalized email or username to a
    /// user, opens a pending sign-in bound to that user carrying only the
    /// hash of a fresh code, and returns the pending row together with the
    /// notification job; the raw code leaves only inside the job. An email
    /// match takes precedence over a username match.
    pub fn sign_in(
        &self,
        repo: &mut Repository,
        actor: Option<User>,
        input: SignInInput,
        now: u64,
    ) -> (r: Result<(PendingSession, Message), Error>)
        requires
            old(repo).wf(),
            old(repo).next_id < u128::MAX,
        ensures
            final(repo).wf(),
            old(repo).next_id <= final(repo).next_id <= old(repo).next_id + 1,
            r is Err ==> *final(repo) == *old(repo),
            r is Ok <==> sign_in_error(
                *old(repo),
                actor is Some,
                crate::service::register::normal_of(input.email_or_username@),
            ) is None,
            r matches Err(e) ==> Some(e) == sign_in_error(
                *old(repo),
                actor is Some,
                crate::service::register::normal_of(input.email_or_username@),
            ),
            r matches Ok((ps, msg)) ==> exists|w: int|
                0 <= w < old(repo).users@.len() && {
                    let identity = crate::service::register::normal_of(input.email_or_username@);
                    let u = (#[trigger] old(repo).users@[w])@;
                    &&& if user_email_in(old(repo).users@, identity) {
                        u.email == identity
                    } else {
                        u.username == identity
                    }
                    &&& ps@.user_id == u.id
                    &&& ps@.failed_attempts == 0
                    &&& ps@.code_verified == false
                    &&& ps@.created_at == now
                    &&& final(repo).pending_sessions@.len()
                        == old(repo).pending_sessions@.len() + 1
                    &&& forall|q: int|
                        0 <= q < old(repo).pending_sessions@.len()
                            ==> final(repo).pending_sessions@[q] == old(repo).pending_sessions@[q]
                    &&& final(repo).pending_sessions@.last()@ == ps@
                    &&& msg matches Message::SendSignInEmail { email, code } && email@ == u.email
                        && code@.len() == consts::CODE_LENGTH && secret_matches(
                        code@,
                        ps@.code_hash,
                    )
                    &&& final(repo).users@ == old(repo).users@
                    &&& final(repo).pending_users@ == old(repo).pending_users@
                    &&& final(repo).sessions@ == old(repo).sessions@
                    &&& final(repo).namespaces@ == old(repo).namespaces@
                    &&& final(repo).groups@ == old(repo).groups@
                    &&& final(repo).invitations@ == old(repo).invitations@
                    &&& final(repo).memberships@ == old(repo).memberships@
                },
    {
        if actor.is_some() {
            return Err(Error::MustNotBeAuthenticated);
        }
        let identity = normalize_bytes(input.email_or_username.as_str().as_bytes());
        let w = match repo.find_user_index_by_email(identity.as_slice()) {
            Some(w) => w,
            None => {
                match repo.find_user_index_by_username(identity.as_slice()) {
                    Some(w) => w,
                    None => {
                        return Err(Error::UserNotFound);
                    },
                }
            },
        };
        let code = random_code();
        let code_hash = hash_secret(code.as_slice());
        let email = clone_bytes(&repo.users[w].email);
        let user_id = repo.users[w].id;
        let ps = repo.create_pending_session(user_id, code_hash, now);
        let msg = Message::SendSignInEmail { email, code };
        Ok((ps, msg))
    }

    /// Confirms the emailed sign-in code. A wrong code costs one attempt
    /// and, at the budget, the pending row; the right code either issues a
    /// session at once or, for a user with the second factor enabled, marks
    /// the pending row code-verified and demands the challenge — in that
    /// case no session is created.
    pub fn complete_sign_in(
        &self,
        repo: &mut Repository,
        input: CompleteSignInInput,
        now: u64,
    ) -> (r: Result<SignedIn, Error>)
        requires
            old(repo).wf(),
            old(repo).next_id < u128::MAX,
        ensures
            final(repo).wf(),
            old(repo).next_id <= final(repo).next_id <= old(repo).next_id + 1,
            !has_pending_session_with_id(*old(repo), input.pending_session_id) ==> (r matches Err(
                Error::PendingSessionNotFound,
            )) && *final(repo) == *old(repo),
            has_pending_session_with_id(*old(repo), input.pending_session_id) ==> exists|t: int|
                0 <= t < old(repo).pending_sessions@.len() && (#[trigger] old(
                    repo,
                ).pending_sessions@[t])@.id == input.pending_session_id && complete_sign_in_post(
                    *old(repo),
                    *final(repo),
                    t,
                    encode_utf8(input.code@),
                    now,
                    r,
                ),
    {
        let code = input.code.as_str().as_bytes();
        let i = match repo.find_pending_session_index_by_id(input.pending_session_id) {
            Some(i) => i,
            None => {
                return Err(Error::PendingSessionNotFound);
            },
        };
        let ghost t = i as int;
        if !verify_secret(code, repo.pending_sessions[i].code_hash.as_str()) {
            if repo.pending_sessions[i].failed_attempts >= consts::MAX_CODE_ATTEMPTS - 1 {
                repo.remove_pending_session_at(i);
                return Err(Error::AttemptsExceeded);
            }
            let mut row = repo.pending_sessions[i].duplicate();
            row.failed_attempts = row.failed_attempts + 1;
            repo.set_pending_session(i, row);
            return Err(Error::InvalidCode);
        }
        let w = match repo.find_user_index_by_id(repo.pending_sessions[i].user_id) {
            Some(w) => w,
            None => {
                proof {
                    assert(crate::repository::user_id_in(
                        repo.users@,
                        repo.pending_sessions@[t]@.user_id,
                    ));
                }
                return Err(Error::Internal);
            },
        };
        if repo.users[w].two_fa_enabled {
            let method = match repo.users[w].two_fa_method {
                Some(m) => m,
                None => {
                    proof {
                        assert(repo.users@[w as int]@.wf());
                        assert(false);
                    }
                    crate::entities::TwoFaMethod::Totp
                },
            };
            let mut row = repo.pending_sessions[i].duplicate();
            row.code_verified = true;
            repo.set_pending_session(i, row);
            return Ok(SignedIn::TwoFa(method));
        }
        let user = repo.users[w].duplicate();
        let user_id = user.id;
        repo.remove_pending_session_at(i);
        let (session, token) = self.issue(repo, user_id, now);
        Ok(SignedIn::Success { session, user, token })
    }

    /// Answers the TOTP challenge of a code-verified pending sign-in; on
    /// success records the consumed time step (replay protection), deletes
    /// the pending row and issues the session.
    pub fn complete_two_fa_challenge(
        &self,
        repo: &mut Repository,
        input: CompleteTwoFaChallengeInput,
        now: u64,
    ) -> (r: Result<SignedIn, Error>)
        requires
            self.wf(),
            old(repo).wf(),
            old(repo).next_id < u128::MAX,
        ensures
            final(repo).wf(),
            old(repo).next_id <= final(repo).next_id <= old(repo).next_id + 1,
            !has_pending_session_with_id(*old(repo), input.pending_session_id) ==> (r matches Err(
                Error::PendingSessionNotFound,
            )) && *final(repo) == *old(repo),
            has_pending_session_with_id(*old(repo), input.pending_session_id) ==> exists|t: int|
                0 <= t < old(repo).pending_sessions@.len() && (#[trigger] old(
                    repo,
                ).pending_sessions@[t])@.id == input.pending_session_id
                    && complete_two_fa_challenge_post(
                    *self,
                    *old(repo),
                    *final(repo),
                    t,
                    code_normal_of(input.code@),
                    now,
                    r,
                ),
    {
        let i = match repo.find_pending_session_index_by_id(input.pending_session_id) {
            Some(i) => i,
            None => {
                return Err(Error::PendingSessionNotFound);
            },
        };
        let ghost t = i as int;
        if !repo.pending_sessions[i].code_verified {
            return Err(Error::Unauthenticated);
        }
        let w = match repo.find_user_index_by_id(repo.pending_sessions[i].user_id) {
            Some(w) => w,
            None => {
                proof {
                    assert(crate::repository::user_id_in(
                        repo.users@,
                        repo.pending_sessions@[t]@.user_id,
                    ));
                }
                return Err(Error::Internal);
            },
        };
        if !repo.users[w].two_fa_enabled {
            return Err(Error::TwoFaIsNotEnabled);
        }
        let code = normalize_bytes(input.code.as_str().as_bytes());
        let code = strip_dashes(&code);
        let aad = crate::service::session::id_to_bytes(repo.users[w].id);
        let ct = match &repo.users[w].encrypted_totp_secret {
            Some(ct) => ct,
            None => {
                proof {
                    assert(repo.users@[w as int]@.wf());
                    assert(false);
                }
                return Err(Error::Internal);
            },
        };
        let nonce = match &repo.users[w].totp_secret_nonce {
            Some(n) => n,
            None => {
                proof {
                    assert(repo.users@[w as int]@.wf());
                    assert(false);
                }
                return Err(Error::Internal);
            },
        };
        let secret = match crate::crypto::aead_open(
            self.config.master_key.as_slice(),
            nonce.as_slice(),
            aad.as_slice(),
            ct.as_slice(),
        ) {
            Some(s) => s,
            None => {
                proof {
                    let u = repo.users@[w as int]@;
                    assert forall|pt: Seq<u8>|
                        u.encrypted_totp_secret->0 != #[trigger] aead_seal(
                            self.config.master_key@,
                            u.totp_secret_nonce->0,
                            id_bytes_spec(u.id),
                            pt,
                        ) by {
                        if u.encrypted_totp_secret->0 == aead_seal(
                            self.config.master_key@,
                            u.totp_secret_nonce->0,
                            id_bytes_spec(u.id),
                            pt,
                        ) {
                            assert(false);
                        }
                    }
                    assert(!totp_material_authentic(*self, u));
                }
                return Err(Error::Internal);
            },
        };
        proof {
            let u = repo.users@[w as int]@;
            assert(u.encrypted_totp_secret->0 == aead_seal(
                self.config.master_key@,
                u.totp_secret_nonce->0,
                id_bytes_spec(u.id),
                secret@,
            ));
            assert(totp_material_authentic(*self, u));
        }
        let c = match totp_validate(
            secret.as_slice(),
            code.as_slice(),
            now,
            repo.users[w].last_totp_counter,
        ) {
            Some(c) => c,
            None => {
                proof {
                    let u = repo.users@[w as int]@;
                    assert forall|pt: Seq<u8>, cc: u64|
                        u.encrypted_totp_secret->0 == aead_seal(
                            self.config.master_key@,
                            u.totp_secret_nonce->0,
                            id_bytes_spec(u.id),
                            pt,
                        ) implies !#[trigger] totp_accepts(
                        pt,
                        code_normal_of(input.code@),
                        now,
                        u.last_totp_counter,
                        cc,
                    ) by {
                        assert(secret@ == pt);
                        assert(!totp_accepts(secret@, code@, now, u.last_totp_counter, cc));
                    }
                    assert(!totp_code_accepted(*self, u, code_normal_of(input.code@), now));
                }
                if repo.pending_sessions[i].failed_attempts >= consts::MAX_CODE_ATTEMPTS - 1 {
                    repo.remove_pending_session_at(i);
                    return Err(Error::AttemptsExceeded);
                }
                let mut row = repo.pending_sessions[i].duplicate();
                row.failed_attempts = row.failed_attempts + 1;
                repo.set_pending_session(i, row);
                return Err(Error::TwoFACodeIsNotValid);
            },
        };
        proof {
            let u = repo.users@[w as int]@;
            assert(totp_accepts(secret@, code_normal_of(input.code@), now, u.last_totp_counter, c));
            assert(totp_code_accepted(*self, u, code_normal_of(input.code@), now));
        }
        let mut row = repo.users[w].duplicate();
        row.last_totp_counter = Some(c);
        row.updated_at = now;
        proof {
            let u = old(repo).users@[w as int]@;
            assert(row@ == (crate::entities::UserV { last_totp_counter: Some(c), updated_at: now, ..u }));
        }
        repo.set_user(w, row);
        let user = repo.users[w].duplicate();
        let user_id = user.id;
        repo.remove_pending_session_at(i);
        let (session, token) = self.issue(repo, user_id, now);
        Ok(SignedIn::Success { session, user, token })
    }
}

/// What confirming the sign-in code did, relative to the pending row at
/// index `t` of the old state. In the second-factor branch no session row
/// is created.
pub open spec fn complete_sign_in_post(
    old_repo: Repository,
    new_repo: Repository,
    t: int,
    code: Seq<u8>,
    now: u64,
    r: Result<SignedIn, Error>,
) -> bool {
    let ps = old_repo.pending_sessions@[t]@;
    if !secret_matches(code, ps.code_hash) {
        if ps.failed_attempts + 1 >= consts::MAX_CODE_ATTEMPTS {
            &&& r matches Err(Error::AttemptsExceeded)
            &&& new_repo.pending_sessions@ == old_repo.pending_sessions@.remove(t)
            &&& new_repo.sessions@ == old_repo.sessions@
            &&& new_repo.users@ == old_repo.users@
        } else {
            &&& r matches Err(Error::InvalidCode)
            &&& new_repo.pending_sessions@.len() == old_repo.pending_sessions@.len()
            &&& new_repo.pending_sessions@[t]@ == (PendingSessionV {
                failed_attempts: (ps.failed_attempts + 1) as u64,
                ..ps
            })
            &&& forall|q: int|
                0 <= q < old_repo.pending_sessions@.len() && q != t
                    ==> new_repo.pending_sessions@[q] == old_repo.pending_sessions@[q]
            &&& new_repo.sessions@ == old_repo.sessions@
            &&& new_repo.users@ == old_repo.users@
        }
    } else {
        exists|w: int|
            0 <= w < old_repo.users@.len() && (#[trigger] old_repo.users@[w])@.id == ps.user_id
                && {
                let u = old_repo.users@[w]@;
                if u.two_fa_enabled {
                    &&& r matches Ok(s) && s matches SignedIn::TwoFa(m) && Some(m)
                        == u.two_fa_method
                    &&& new_repo.sessions@ == old_repo.sessions@
                    &&& new_repo.users@ == old_repo.users@
                    &&& new_repo.pending_sessions@.len() == old_repo.pending_sessions@.len()
                    &&& new_repo.pending_sessions@[t]@ == (PendingSessionV {
                        code_verified: true,
                        ..ps
                    })
                    &&& forall|q: int|
                        0 <= q < old_repo.pending_sessions@.len() && q != t
                            ==> new_repo.pending_sessions@[q] == old_repo.pending_sessions@[q]
                } else {
                    &&& r matches Ok(s) && s matches SignedIn::Success { session, user, token }
                        && session@.user_id == ps.user_id && session@.id == old_repo.next_id
                        && user@ == u && (exists|sec: Seq<u8>|
                        token@ == #[trigger] token_spec(session@.id, sec) && secret_matches(
                            sec,
                            session@.secret_hash,
                        )) && (forall|at: u64|
                        at <= session@.expires_at ==> token_grants(new_repo, token@, at))
                        && new_repo.sessions@.len() == old_repo.sessions@.len() + 1
                        && new_repo.sessions@.last()@ == session@
                    &&& forall|q: int|
                        0 <= q < old_repo.sessions@.len() ==> new_repo.sessions@[q]
                            == old_repo.sessions@[q]
                    &&& new_repo.pending_sessions@ == old_repo.pending_sessions@.remove(t)
                    &&& new_repo.users@ == old_repo.users@
                }
            }
    }
}

/// What answering the TOTP challenge did, relative to the pending row at
/// index `t` of the old state. Only a code-verified row may pass;
/// `Internal` is owed exactly to inauthentic stored material; a wrong code
/// is attempt-limited exactly like code confirmation; a code within the
/// drift window and beyond the replay mark must issue the session.
pub open spec fn complete_two_fa_challenge_post(
    svc: Service,
    old_repo: Repository,
    new_repo: Repository,
    t: int,
    code: Seq<u8>,
    now: u64,
    r: Result<SignedIn, Error>,
) -> bool {
    let ps = old_repo.pending_sessions@[t]@;
    if !ps.code_verified {
        (r matches Err(Error::Unauthenticated)) && new_repo == old_repo
    } else {
        exists|w: int|
            0 <= w < old_repo.users@.len() && (#[trigger] old_repo.users@[w])@.id == ps.user_id
                && {
                let u = old_repo.users@[w]@;
                if !u.two_fa_enabled {
                    (r matches Err(Error::TwoFaIsNotEnabled)) && new_repo == old_repo
                } else if !totp_material_authentic(svc, u) {
                    (r matches Err(Error::Internal)) && new_repo == old_repo
                } else if !totp_code_accepted(svc, u, code, now) {
                    if ps.failed_attempts + 1 >= consts::MAX_CODE_ATTEMPTS {
                        &&& r matches Err(Error::AttemptsExceeded)
                        &&& new_repo.pending_sessions@ == old_repo.pending_sessions@.remove(t)
                        &&& new_repo.users@ == old_repo.users@
                        &&& new_repo.sessions@ == old_repo.sessions@
                        &&& new_repo.pending_users@ == old_repo.pending_users@
                        &&& new_repo.namespaces@ == old_repo.namespaces@
                        &&& new_repo.groups@ == old_repo.groups@
                        &&& new_repo.invitations@ == old_repo.invitations@
                        &&& new_repo.memberships@ == old_repo.memberships@
                    } else {
                        &&& r matches Err(Error::TwoFACodeIsNotValid)
                        &&& new_repo.pending_sessions@.len() == old_repo.pending_sessions@.len()
                        &&& new_repo.pending_sessions@[t]@ == (PendingSessionV {
                            failed_attempts: (ps.failed_attempts + 1) as u64,
                            ..ps
                        })
                        &&& forall|q: int|
                            0 <= q < old_repo.pending_sessions@.len() && q != t
                                ==> new_repo.pending_sessions@[q] == old_repo.pending_sessions@[q]
                        &&& new_repo.users@ == old_repo.users@
                        &&& new_repo.sessions@ == old_repo.sessions@
                        &&& new_repo.pending_users@ == old_repo.pending_users@
                        &&& new_repo.namespaces@ == old_repo.namespaces@
                        &&& new_repo.groups@ == old_repo.groups@
                        &&& new_repo.invitations@ == old_repo.invitations@
                        &&& new_repo.memberships@ == old_repo.memberships@
                    }
                } else {
                    &&& r matches Ok(s) && s matches SignedIn::Success { session, user, token }
                        && session@.user_id == ps.user_id && session@.id == old_repo.next_id
                        && user@ == new_repo.users@[w]@ && (exists|sec: Seq<u8>|
                        token@ == #[trigger] token_spec(session@.id, sec) && secret_matches(
                            sec,
                            session@.secret_hash,
                        )) && (forall|at: u64|
                        at <= session@.expires_at ==> token_grants(new_repo, token@, at))
                        && new_repo.sessions@.len() == old_repo.sessions@.len() + 1
                        && new_repo.sessions@.last()@ == session@
                    &&& exists|pt: Seq<u8>, c: u64|
                        u.encrypted_totp_secret->0 == aead_seal(
                            svc.config.master_key@,
                            u.totp_secret_nonce->0,
                            id_bytes_spec(u.id),
                            pt,
                        ) && #[trigger] totp_accepts(pt, code, now, u.last_totp_counter, c)
                            && new_repo.users@[w]@ == (crate::entities::UserV {
                            last_totp_counter: Some(c),
                            updated_at: now,
                            ..u
                        })
                    &&& new_repo.users@.len() == old_repo.users@.len()
                    &&& forall|q: int|
                        0 <= q < old_repo.users@.len() && q != w ==> new_repo.users@[q]
                            == old_repo.users@[q]
                    &&& forall|q: int|
                        0 <= q < old_repo.sessions@.len() ==> new_repo.sessions@[q]
                            == old_repo.sessions@[q]
                    &&& new_repo.pending_sessions@ == old_repo.pending_sessions@.remove(t)
                    &&& new_repo.pending_users@ == old_repo.pending_users@
                    &&& new_repo.namespaces@ == old_repo.namespaces@
                    &&& new_repo.groups@ == old_repo.groups@
                    &&& new_repo.invitations@ == old_repo.invitations@
                    &&& new_repo.memberships@ == old_repo.memberships@
                }
            }
    }
}

} // verus!
