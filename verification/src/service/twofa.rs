//! The two-factor subsystem: beginning a setup, confirming it, validating
//! challenge codes, and disabling. TOTP validation accepts exactly one step
//! of clock drift in each direction and refuses any code from a time step
//! already consumed (replay protection via the per-user high-water mark).

use vstd::prelude::*;

use crate::consts;
use crate::crypto::aead_encrypt;
use crate::crypto::aead_open;
use crate::crypto::aead_seal;
use crate::crypto::random_bytes;
use crate::crypto::totp_code;
use crate::crypto::totp_of;
use crate::entities::TwoFaMethod;
use crate::entities::User;
use crate::errors::Error;
use crate::repository::has_user_with_id;
use crate::repository::Repository;
use crate::service::session::id_bytes_spec;
use crate::service::session::id_to_bytes;
use crate::service::DisableTwoFaInput;
use crate::service::EnableTwoFaInput;
use crate::service::Service;
use crate::text::bytes_eq;
use crate::text::normalize_bytes;
use crate::text::normalize_spec;
use crate::text::strip_dashes;
use crate::text::strip_dashes_spec;
use vstd::utf8::encode_utf8;

verus! {

/// The time-step counter a clock reading falls in.
pub open spec fn totp_counter(now: u64) -> u64 {
    now / consts::TOTP_STEP_SECONDS as u64
}

/// The canonical form of a typed-in TOTP code: trimmed, lowercased, and
/// with the grouping dashes removed.
pub open spec fn code_normal_of(s: Seq<char>) -> Seq<u8> {
    strip_dashes_spec(normalize_spec(encode_utf8(s)))
}

/// `c` is a counter whose code is accepted at `now`: within one step of
/// drift, producing exactly `code`, and strictly beyond the last counter
/// already consumed.
pub open spec fn totp_accepts(
    secret: Seq<u8>,
    code: Seq<u8>,
    now: u64,
    last: Option<u64>,
    c: u64,
) -> bool {
    &&& {
        ||| c == totp_counter(now)
        ||| totp_counter(now) > 0 && c == totp_counter(now) - 1
        ||| totp_counter(now) < u64::MAX && c == totp_counter(now) + 1
    }
    &&& code == totp_of(secret, c)
    &&& last matches Some(l) ==> c > l
}

/// Checks a TOTP code against the window around `now`, skipping counters
/// at or below the replay mark; returns the accepted counter.
pub fn totp_validate(secret: &[u8], code: &[u8], now: u64, last: Option<u64>) -> (r: Option<u64>)
    ensures
        r matches Some(c) ==> totp_accepts(secret@, code@, now, last, c),
        r is None ==> forall|c: u64| !totp_accepts(secret@, code@, now, last, c),
{
    let t = now / consts::TOTP_STEP_SECONDS;
    if t > 0 && counter_fresh(last, t - 1) && bytes_eq(code, totp_code(secret, t - 1).as_slice()) {
        return Some(t - 1);
    }
    if counter_fresh(last, t) && bytes_eq(code, totp_code(secret, t).as_slice()) {
        return Some(t);
    }
    if t < u64::MAX && counter_fresh(last, t + 1) && bytes_eq(
        code,
        totp_code(secret, t + 1).as_slice(),
    ) {
        return Some(t + 1);
    }
    proof {
        assert forall|c: u64| !totp_accepts(secret@, code@, now, last, c) by {
            if c == t || (t > 0 && c == t - 1) || (t < u64::MAX && c == t + 1) {
            }
        }
    }
    None
}

/// Exec form of the replay guard: the counter is strictly beyond the mark.
fn counter_fresh(last: Option<u64>, c: u64) -> (r: bool)
    ensures
        r == (last matches Some(l) ==> c > l),
{
    match last {
        Some(l) => c > l,
        None => true,
    }
}

/// The stored ciphertext really is a sealing of some secret under the
/// master key, bound to this user's id. Decryption succeeds exactly here;
/// `Internal` is owed exactly to its negation.
pub open spec fn totp_material_authentic(svc: Service, u: crate::entities::UserV) -> bool {
    exists|pt: Seq<u8>|
        u.encrypted_totp_secret->0 == #[trigger] aead_seal(
            svc.config.master_key@,
            u.totp_secret_nonce->0,
            id_bytes_spec(u.id),
            pt,
        )
}

/// The submitted code is owed acceptance: the stored ciphertext is
/// authentic and the code matches some counter in the drift window beyond
/// the replay mark.
pub open spec fn totp_code_accepted(
    svc: Service,
    u: crate::entities::UserV,
    code: Seq<u8>,
    now: u64,
) -> bool {
    exists|pt: Seq<u8>, c: u64|
        u.encrypted_totp_secret->0 == aead_seal(
            svc.config.master_key@,
            u.totp_secret_nonce->0,
            id_bytes_spec(u.id),
            pt,
        ) && #[trigger] totp_accepts(pt, code, now, u.last_totp_counter, c)
}

/// What the two-factor operations did to the user row at index `w`:
/// everything but the named fields is kept.
pub open spec fn user_kept_except_two_fa(a: crate::entities::UserV, b: crate::entities::UserV) -> bool {
    &&& b.id == a.id
    &&& b.created_at == a.created_at
    &&& b.email == a.email
    &&& b.username == a.username
    &&& b.name == a.name
    &&& b.description == a.description
}

impl Service {
    /// Begins a two-factor setup for the actor: draws a fresh secret,
    /// encrypts it under the master key with a fresh nonce, bound to the
    /// user's id as associated data, and stores the ciphertext; the flag
    /// stays off until `setup_two_fa` confirms a code. Returns the raw
    /// secret exactly once, for the caller's authenticator.
    pub fn begin_two_fa_setup(&self, repo: &mut Repository, actor: Option<User>, now: u64) -> (r:
        Result<Vec<u8>, Error>)
        requires
            self.wf(),
            old(repo).wf(),
        ensures
            final(repo).wf(),
            final(repo).next_id == old(repo).next_id,
            r is Err ==> *final(repo) == *old(repo),
            actor is None ==> r matches Err(Error::Unauthenticated),
            actor matches Some(a) && !has_user_with_id(*old(repo), a@.id) ==> r matches Err(
                Error::UserNotFound,
            ),
            actor matches Some(a) ==> has_user_with_id(*old(repo), a@.id) ==> exists|w: int|
                0 <= w < old(repo).users@.len() && (#[trigger] old(repo).users@[w])@.id == a@.id
                    && {
                    let u = old(repo).users@[w]@;
                    if u.two_fa_enabled {
                        (r matches Err(Error::TwoFaAlreadyEnabled)) && *final(repo) == *old(repo)
                    } else {
                        &&& r matches Ok(secret) && secret@.len() == consts::TOTP_SECRET_LENGTH
                        &&& final(repo).users@.len() == old(repo).users@.len()
                        &&& forall|q: int|
                            0 <= q < old(repo).users@.len() && q != w ==> final(repo).users@[q]
                                == old(repo).users@[q]
                        &&& {
                            let v = final(repo).users@[w]@;
                            &&& user_kept_except_two_fa(u, v)
                            &&& v.two_fa_enabled == false
                            &&& v.two_fa_method == Some(TwoFaMethod::Totp)
                            &&& v.updated_at == now
                            &&& v.encrypted_totp_secret is Some
                            &&& v.totp_secret_nonce is Some
                            &&& (r matches Ok(secret) ==> v.encrypted_totp_secret->0 == aead_seal(
                                self.config.master_key@,
                                v.totp_secret_nonce->0,
                                id_bytes_spec(u.id),
                                secret@,
                            ))
                        }
                        &&& final(repo).pending_users@ == old(repo).pending_users@
                        &&& final(repo).sessions@ == old(repo).sessions@
                        &&& final(repo).pending_sessions@ == old(repo).pending_sessions@
                        &&& final(repo).namespaces@ == old(repo).namespaces@
                        &&& final(repo).groups@ == old(repo).groups@
                        &&& final(repo).invitations@ == old(repo).invitations@
                        &&& final(repo).memberships@ == old(repo).memberships@
                    }
                },
    {
        let a = match self.current_user(actor) {
            Ok(a) => a,
            Err(e) => {
                return Err(e);
            },
        };
        let w = match repo.find_user_index_by_id(a.id) {
            Some(w) => w,
            None => {
                return Err(Error::UserNotFound);
            },
        };
        if repo.users[w].two_fa_enabled {
            return Err(Error::TwoFaAlreadyEnabled);
        }
        let secret = random_bytes(consts::TOTP_SECRET_LENGTH);
        let nonce = random_bytes(consts::AEAD_NONCE_LENGTH);
        let aad = id_to_bytes(repo.users[w].id);
        let ct = aead_encrypt(
            self.config.master_key.as_slice(),
            nonce.as_slice(),
            aad.as_slice(),
            secret.as_slice(),
        );
        let mut row = repo.users[w].duplicate();
        row.encrypted_totp_secret = Some(ct);
        row.totp_secret_nonce = Some(nonce);
        row.two_fa_method = Some(TwoFaMethod::Totp);
        row.updated_at = now;
        repo.set_user(w, row);
        Ok(secret)
    }

    /// Finalizes an initiated setup: requires the pending secret material
    /// and the flag still off, validates the supplied code against the
    /// decrypted secret, and only then turns the flag on.
    pub fn setup_two_fa(
        &self,
        repo: &mut Repository,
        actor: Option<User>,
        input: EnableTwoFaInput,
        now: u64,
    ) -> (r: Result<(), Error>)
        requires
            self.wf(),
            old(repo).wf(),
        ensures
            final(repo).wf(),
            final(repo).next_id == old(repo).next_id,
            r is Err ==> *final(repo) == *old(repo),
            actor is None ==> r matches Err(Error::Unauthenticated),
            actor matches Some(a) && !has_user_with_id(*old(repo), a@.id) ==> r matches Err(
                Error::UserNotFound,
            ),
            actor matches Some(a) ==> has_user_with_id(*old(repo), a@.id) ==> exists|w: int|
                0 <= w < old(repo).users@.len() && (#[trigger] old(repo).users@[w])@.id == a@.id
                    && {
                    let u = old(repo).users@[w]@;
                    if u.encrypted_totp_secret is None || u.totp_secret_nonce is None
                        || u.two_fa_method is None {
                        r matches Err(Error::TwoFaIsNotEnabled)
                    } else if u.two_fa_enabled {
                        r matches Err(Error::TwoFaAlreadyEnabled)
                    } else {
                        &&& r is Ok ==> exists|pt: Seq<u8>, c: u64|
                            u.encrypted_totp_secret->0 == aead_seal(
                                self.config.master_key@,
                                u.totp_secret_nonce->0,
                                id_bytes_spec(u.id),
                                pt,
                            ) && #[trigger] totp_accepts(
                                pt,
                                code_normal_of(input.code@),
                                now,
                                u.last_totp_counter,
                                c,
                            ) && {
                                let v = final(repo).users@[w]@;
                                &&& user_kept_except_two_fa(u, v)
                                &&& v.two_fa_enabled == true
                                &&& v.updated_at == now
                                &&& v.last_totp_counter == Some(c)
                                &&& v.encrypted_totp_secret == u.encrypted_totp_secret
                                &&& v.totp_secret_nonce == u.totp_secret_nonce
                                &&& v.two_fa_method == u.two_fa_method
                            }
                        &&& r matches Err(Error::TwoFACodeIsNotValid) ==> forall|
                            pt: Seq<u8>,
                            c: u64,
                        |
                            u.encrypted_totp_secret->0 == aead_seal(
                                self.config.master_key@,
                                u.totp_secret_nonce->0,
                                id_bytes_spec(u.id),
                                pt,
                            ) ==> !#[trigger] totp_accepts(
                                pt,
                                code_normal_of(input.code@),
                                now,
                                u.last_totp_counter,
                                c,
                            )
                        &&& r is Err ==> (r matches Err(Error::TwoFACodeIsNotValid) || r matches
                            Err(Error::Internal))
                        &&& (r matches Err(Error::Internal)) <==> !totp_material_authentic(
                            *self,
                            u,
                        )
                        &&& totp_code_accepted(*self, u, code_normal_of(input.code@), now)
                            ==> r is Ok
                        &&& r is Ok ==> {
                            &&& final(repo).users@.len() == old(repo).users@.len()
                            &&& forall|q: int|
                                0 <= q < old(repo).users@.len() && q != w
                                    ==> final(repo).users@[q] == old(repo).users@[q]
                            &&& final(repo).pending_users@ == old(repo).pending_users@
                            &&& final(repo).sessions@ == old(repo).sessions@
                            &&& final(repo).pending_sessions@ == old(repo).pending_sessions@
                            &&& final(repo).namespaces@ == old(repo).namespaces@
                            &&& final(repo).groups@ == old(repo).groups@
                            &&& final(repo).invitations@ == old(repo).invitations@
                            &&& final(repo).memberships@ == old(repo).memberships@
                        }
                    }
                },
    {
        let a = match self.current_user(actor) {
            Ok(a) => a,
            Err(e) => {
                return Err(e);
            },
        };
        let w = match repo.find_user_index_by_id(a.id) {
            Some(w) => w,
            None => {
                return Err(Error::UserNotFound);
            },
        };
        if repo.users[w].encrypted_totp_secret.is_none() || repo.users[w].totp_secret_nonce.is_none()
            || repo.users[w].two_fa_method.is_none() {
            return Err(Error::TwoFaIsNotEnabled);
        }
        if repo.users[w].two_fa_enabled {
            return Err(Error::TwoFaAlreadyEnabled);
        }
        let code = normalize_bytes(input.code.as_str().as_bytes());
        let code = strip_dashes(&code);
        let aad = id_to_bytes(repo.users[w].id);
        let ct = match &repo.users[w].encrypted_totp_secret {
            Some(ct) => ct,
            None => {
                proof {
                    assert(false);
                }
                return Err(Error::Internal);
            },
        };
        let nonce = match &repo.users[w].totp_secret_nonce {
            Some(n) => n,
            None => {
                proof {
                    assert(false);
                }
                return Err(Error::Internal);
            },
        };
        let secret = match aead_open(
            self.config.master_key.as_slice(),
            nonce.as_slice(),
            aad.as_slice(),
            ct.as_slice(),
        ) {
            Some(s) => s,
            None => {
                proof {
                    let u = repo.users@[w as int]@;
                    assert forall|pt: Seq<u8>|
                        u.encrypted_totp_secret->0 != #[trigger] aead_seal(
                            self.config.master_key@,
                            u.totp_secret_nonce->0,
                            id_bytes_spec(u.id),
                            pt,
                        ) by {
                        if u.encrypted_totp_secret->0 == aead_seal(
                            self.config.master_key@,
                            u.totp_secret_nonce->0,
                            id_bytes_spec(u.id),
                            pt,
                        ) {
                            assert(false);
                        }
                    }
                    assert(!totp_material_authentic(*self, u));
                    if totp_code_accepted(*self, u, code_normal_of(input.code@), now) {
                        let (pt, c) = choose|pt: Seq<u8>, c: u64|
                            u.encrypted_totp_secret->0 == aead_seal(
                                self.config.master_key@,
                                u.totp_secret_nonce->0,
                                id_bytes_spec(u.id),
                                pt,
                            ) && #[trigger] totp_accepts(
                                pt,
                                code_normal_of(input.code@),
                                now,
                                u.last_totp_counter,
                                c,
                            );
                        assert(false);
                    }
                }
                return Err(Error::Internal);
            },
        };
        proof {
            let u = repo.users@[w as int]@;
            assert(u.encrypted_totp_secret->0 == aead_seal(
                self.config.master_key@,
                u.totp_secret_nonce->0,
                id_bytes_spec(u.id),
                secret@,
            ));
            assert(totp_material_authentic(*self, u));
        }
        let c = match totp_validate(
            secret.as_slice(),
            code.as_slice(),
            now,
            repo.users[w].last_totp_counter,
        ) {
            Some(c) => c,
            None => {
                proof {
                    let u = repo.users@[w as int]@;
                    assert forall|pt: Seq<u8>, c: u64|
                        u.encrypted_totp_secret->0 == aead_seal(
                            self.config.master_key@,
                            u.totp_secret_nonce->0,
                            id_bytes_spec(u.id),
                            pt,
                        ) implies !#[trigger] totp_accepts(
                        pt,
                        code_normal_of(input.code@),
                        now,
                        u.last_totp_counter,
                        c,
                    ) by {
                        assert(secret@ == pt);
                        assert(!totp_accepts(secret@, code@, now, u.last_totp_counter, c));
                    }
                    assert(!totp_code_accepted(*self, u, code_normal_of(input.code@), now));
                }
                return Err(Error::TwoFACodeIsNotValid);
            },
        };
        proof {
            let u = repo.users@[w as int]@;
            assert(totp_accepts(secret@, code_normal_of(input.code@), now, u.last_totp_counter, c));
        }
        let mut row = repo.users[w].duplicate();
        row.two_fa_enabled = true;
        row.updated_at = now;
        row.last_totp_counter = Some(c);
        repo.set_user(w, row);
        Ok(())
    }

    /// Disables the second factor, guarded by a fresh code check; on
    /// success the stored secret material is discarded.
    pub fn disable_two_fa(
        &self,
        repo: &mut Repository,
        actor: Option<User>,
        input: DisableTwoFaInput,
        now: u64,
    ) -> (r: Result<(), Error>)
        requires
            self.wf(),
            old(repo).wf(),
        ensures
            final(repo).wf(),
            final(repo).next_id == old(repo).next_id,
            r is Err ==> *final(repo) == *old(repo),
            actor is None ==> r matches Err(Error::Unauthenticated),
            actor matches Some(a) && !has_user_with_id(*old(repo), a@.id) ==> r matches Err(
                Error::UserNotFound,
            ),
            actor matches Some(a) ==> has_user_with_id(*old(repo), a@.id) ==> exists|w: int|
                0 <= w < old(repo).users@.len() && (#[trigger] old(repo).users@[w])@.id == a@.id
                    && {
                    let u = old(repo).users@[w]@;
                    if !u.two_fa_enabled {
                        r matches Err(Error::TwoFaIsNotEnabled)
                    } else {
                        &&& r is Ok ==> exists|pt: Seq<u8>, c: u64|
                            u.encrypted_totp_secret->0 == aead_seal(
                                self.config.master_key@,
                                u.totp_secret_nonce->0,
                                id_bytes_spec(u.id),
                                pt,
                            ) && #[trigger] totp_accepts(
                                pt,
                                code_normal_of(input.code@),
                                now,
                                u.last_totp_counter,
                                c,
                            )
                        &&& r is Ok ==> {
                            let v = final(repo).users@[w]@;
                            &&& user_kept_except_two_fa(u, v)
                            &&& v.two_fa_enabled == false
                            &&& v.encrypted_totp_secret is None
                            &&& v.totp_secret_nonce is None
                            &&& v.two_fa_method is None
                            &&& v.updated_at == now
                            &&& final(repo).users@.len() == old(repo).users@.len()
                            &&& forall|q: int|
                                0 <= q < old(repo).users@.len() && q != w
                                    ==> final(repo).users@[q] == old(repo).users@[q]
                            &&& final(repo).pending_users@ == old(repo).pending_users@
                            &&& final(repo).sessions@ == old(repo).sessions@
                            &&& final(repo).pending_sessions@ == old(repo).pending_sessions@
                            &&& final(repo).namespaces@ == old(repo).namespaces@
                            &&& final(repo).groups@ == old(repo).groups@
                            &&& final(repo).invitations@ == old(repo).invitations@
                            &&& final(repo).memberships@ == old(repo).memberships@
                        }
                        &&& r is Err ==> (r matches Err(Error::TwoFACodeIsNotValid) || r matches
                            Err(Error::Internal))
                        &&& (r matches Err(Error::Internal)) <==> !totp_material_authentic(
                            *self,
                            u,
                        )
                        &&& totp_code_accepted(*self, u, code_normal_of(input.code@), now)
                            ==> r is Ok
                        &&& r matches Err(Error::TwoFACodeIsNotValid) ==> forall|
                            pt: Seq<u8>,
                            c: u64,
                        |
                            u.encrypted_totp_secret->0 == aead_seal(
                                self.config.master_key@,
                                u.totp_secret_nonce->0,
                                id_bytes_spec(u.id),
                                pt,
                            ) ==> !#[trigger] totp_accepts(
                                pt,
                                code_normal_of(input.code@),
                                now,
                                u.last_totp_counter,
                                c,
                            )
                    }
                },
    {
        let a = match self.current_user(actor) {
            Ok(a) => a,
            Err(e) => {
                return Err(e);
            },
        };
        let w = match repo.find_user_index_by_id(a.id) {
            Some(w) => w,
            None => {
                return Err(Error::UserNotFound);
            },
        };
        if !repo.users[w].two_fa_enabled {
            return Err(Error::TwoFaIsNotEnabled);
        }
        let code = normalize_bytes(input.code.as_str().as_bytes());
        let code = strip_dashes(&code);
        let aad = id_to_bytes(repo.users[w].id);
        let ct = match &repo.users[w].encrypted_totp_secret {
            Some(ct) => ct,
            None => {
                proof {
                    assert(repo.users@[w as int]@.wf());
                    assert(false);
                }
                return Err(Error::Internal);
            },
        };
        let nonce = match &repo.users[w].totp_secret_nonce {
            Some(n) => n,
            None => {
                proof {
                    assert(repo.users@[w as int]@.wf());
                    assert(false);
                }
                return Err(Error::Internal);
            },
        };
        let secret = match aead_open(
            self.config.master_key.as_slice(),
            nonce.as_slice(),
            aad.as_slice(),
            ct.as_slice(),
        ) {
            Some(s) => s,
            None => {
                proof {
                    let u = repo.users@[w as int]@;
                    assert forall|pt: Seq<u8>|
                        u.encrypted_totp_secret->0 != #[trigger] aead_seal(
                            self.config.master_key@,
                            u.totp_secret_nonce->0,
                            id_bytes_spec(u.id),
                            pt,
                        ) by {
                        if u.encrypted_totp_secret->0 == aead_seal(
                            self.config.master_key@,
                            u.totp_secret_nonce->0,
                            id_bytes_spec(u.id),
                            pt,
                        ) {
                            assert(false);
                        }
                    }
                    assert(!totp_material_authentic(*self, u));
                    if totp_code_accepted(*self, u, code_normal_of(input.code@), now) {
                        let (pt, c) = choose|pt: Seq<u8>, c: u64|
                            u.encrypted_totp_secret->0 == aead_seal(
                                self.config.master_key@,
                                u.totp_secret_nonce->0,
                                id_bytes_spec(u.id),
                                pt,
                            ) && #[trigger] totp_accepts(
                                pt,
                                code_normal_of(input.code@),
                                now,
                                u.last_totp_counter,
                                c,
                            );
                        assert(false);
                    }
                }
                return Err(Error::Internal);
            },
        };
        proof {
            let u = repo.users@[w as int]@;
            assert(u.encrypted_totp_secret->0 == aead_seal(
                self.config.master_key@,
                u.totp_secret_nonce->0,
                id_bytes_spec(u.id),
                secret@,
            ));
            assert(totp_material_authentic(*self, u));
        }
        let c = match totp_validate(
            secret.as_slice(),
            code.as_slice(),
            now,
            repo.users[w].last_totp_counter,
        ) {
            Some(c) => c,
            None => {
                proof {
                    let u = repo.users@[w as int]@;
                    assert forall|pt: Seq<u8>, c: u64|
                        u.encrypted_totp_secret->0 == aead_seal(
                            self.config.master_key@,
                            u.totp_secret_nonce->0,
                            id_bytes_spec(u.id),
                            pt,
                        ) implies !#[trigger] totp_accepts(
                        pt,
                        code_normal_of(input.code@),
                        now,
                        u.last_totp_counter,
                        c,
                    ) by {
                        assert(secret@ == pt);
                        assert(!totp_accepts(secret@, code@, now, u.last_totp_counter, c));
                    }
                    assert(!totp_code_accepted(*self, u, code_normal_of(input.code@), now));
                }
                return Err(Error::TwoFACodeIsNotValid);
            },
        };
        proof {
            let u = repo.users@[w as int]@;
            assert(totp_accepts(secret@, code_normal_of(input.code@), now, u.last_totp_counter, c));
        }
        let mut row = repo.users[w].duplicate();
        row.two_fa_enabled = false;
        row.encrypted_totp_secret = None;
        row.totp_secret_nonce = None;
        row.two_fa_method = None;
        row.updated_at = now;
        row.last_totp_counter = Some(c);
        repo.set_user(w, row);
        Ok(())
    }
}

} // verus!
