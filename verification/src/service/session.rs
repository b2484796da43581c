//! Session issuance, bearer-token verification and revocation. A bearer
//! token is the base64 armor of the session id (16 little-endian bytes)
//! followed by the raw session secret; only the hash of the secret is
//! persisted.

use vstd::prelude::*;

use crate::consts;
use crate::crypto::b64_decode;
use crate::crypto::b64_encode;
use crate::crypto::b64_of;
use crate::crypto::hash_secret;
use crate::crypto::random_bytes;
use crate::crypto::secret_matches;
use crate::crypto::verify_secret;
use crate::entities::Session;
use crate::entities::User;
use crate::errors::Error;
use crate::repository::has_session_with_id;
use crate::repository::Repository;
use crate::service::DecodedSessionToken;
use crate::service::RevokeSessionInput;
use crate::service::Service;

verus! {

/// The sixteen little-endian bytes of a session id.
pub open spec fn id_bytes_spec(id: u128) -> Seq<u8> {
    Seq::new(16, |i: int| (id >> (8 * i)) as u8)
}

/// The text of the bearer token naming session `sid` with raw secret
/// `secret`.
pub open spec fn token_spec(sid: u128, secret: Seq<u8>) -> Seq<char> {
    b64_of(id_bytes_spec(sid) + secret)
}

/// Two ids with the same sixteen bytes are the same id.
proof fn lemma_id_bytes_injective(a: u128, b: u128)
    requires
        id_bytes_spec(a) == id_bytes_spec(b),
    ensures
        a == b,
{
    assert((a >> 0) as u8 == (b >> 0) as u8) by {
        assert(id_bytes_spec(a)[0] == id_bytes_spec(b)[0]);
        assert(id_bytes_spec(a)[0] == (a >> (8 * 0)) as u8);
        assert(id_bytes_spec(b)[0] == (b >> (8 * 0)) as u8);
    }
    assert((a >> 8) as u8 == (b >> 8) as u8) by {
        assert(id_bytes_spec(a)[1] == id_bytes_spec(b)[1]);
        assert(id_bytes_spec(a)[1] == (a >> (8 * 1)) as u8);
        assert(id_bytes_spec(b)[1] == (b >> (8 * 1)) as u8);
    }
    assert((a >> 16) as u8 == (b >> 16) as u8) by {
        assert(id_bytes_spec(a)[2] == id_bytes_spec(b)[2]);
        assert(id_bytes_spec(a)[2] == (a >> (8 * 2)) as u8);
        assert(id_bytes_spec(b)[2] == (b >> (8 * 2)) as u8);
    }
    assert((a >> 24) as u8 == (b >> 24) as u8) by {
        assert(id_bytes_spec(a)[3] == id_bytes_spec(b)[3]);
        assert(id_bytes_spec(a)[3] == (a >> (8 * 3)) as u8);
        assert(id_bytes_spec(b)[3] == (b >> (8 * 3)) as u8);
    }
    assert((a >> 32) as u8 == (b >> 32) as u8) by {
        assert(id_bytes_spec(a)[4] == id_bytes_spec(b)[4]);
        assert(id_bytes_spec(a)[4] == (a >> (8 * 4)) as u8);
        assert(id_bytes_spec(b)[4] == (b >> (8 * 4)) as u8);
    }
    assert((a >> 40) as u8 == (b >> 40) as u8) by {
        assert(id_bytes_spec(a)[5] == id_bytes_spec(b)[5]);
        assert(id_bytes_spec(a)[5] == (a >> (8 * 5)) as u8);
        assert(id_bytes_spec(b)[5] == (b >> (8 * 5)) as u8);
    }
    assert((a >> 48) as u8 == (b >> 48) as u8) by {
        assert(id_bytes_spec(a)[6] == id_bytes_spec(b)[6]);
        assert(id_bytes_spec(a)[6] == (a >> (8 * 6)) as u8);
        assert(id_bytes_spec(b)[6] == (b >> (8 * 6)) as u8);
    }
    assert((a >> 56) as u8 == (b >> 56) as u8) by {
        assert(id_bytes_spec(a)[7] == id_bytes_spec(b)[7]);
        assert(id_bytes_spec(a)[7] == (a >> (8 * 7)) as u8);
        assert(id_bytes_spec(b)[7] == (b >> (8 * 7)) as u8);
    }
    assert((a >> 64) as u8 == (b >> 64) as u8) by {
        assert(id_bytes_spec(a)[8] == id_bytes_spec(b)[8]);
        assert(id_bytes_spec(a)[8] == (a >> (8 * 8)) as u8);
        assert(id_bytes_spec(b)[8] == (b >> (8 * 8)) as u8);
    }
    assert((a >> 72) as u8 == (b >> 72) as u8) by {
        assert(id_bytes_spec(a)[9] == id_bytes_spec(b)[9]);
        assert(id_bytes_spec(a)[9] == (a >> (8 * 9)) as u8);
        assert(id_bytes_spec(b)[9] == (b >> (8 * 9)) as u8);
    }
    assert((a >> 80) as u8 == (b >> 80) as u8) by {
        assert(id_bytes_spec(a)[10] == id_bytes_spec(b)[10]);
        assert(id_bytes_spec(a)[10] == (a >> (8 * 10)) as u8);
        assert(id_bytes_spec(b)[10] == (b >> (8 * 10)) as u8);
    }
    assert((a >> 88) as u8 == (b >> 88) as u8) by {
        assert(id_bytes_spec(a)[11] == id_bytes_spec(b)[11]);
        assert(id_bytes_spec(a)[11] == (a >> (8 * 11)) as u8);
        assert(id_bytes_spec(b)[11] == (b >> (8 * 11)) as u8);
    }
    assert((a >> 96) as u8 == (b >> 96) as u8) by {
        assert(id_bytes_spec(a)[12] == id_bytes_spec(b)[12]);
        assert(id_bytes_spec(a)[12] == (a >> (8 * 12)) as u8);
        assert(id_bytes_spec(b)[12] == (b >> (8 * 12)) as u8);
    }
    assert((a >> 104) as u8 == (b >> 104) as u8) by {
        assert(id_bytes_spec(a)[13] == id_bytes_spec(b)[13]);
        assert(id_bytes_spec(a)[13] == (a >> (8 * 13)) as u8);
        assert(id_bytes_spec(b)[13] == (b >> (8 * 13)) as u8);
    }
    assert((a >> 112) as u8 == (b >> 112) as u8) by {
        assert(id_bytes_spec(a)[14] == id_bytes_spec(b)[14]);
        assert(id_bytes_spec(a)[14] == (a >> (8 * 14)) as u8);
        assert(id_bytes_spec(b)[14] == (b >> (8 * 14)) as u8);
    }
    assert((a >> 120) as u8 == (b >> 120) as u8) by {
        assert(id_bytes_spec(a)[15] == id_bytes_spec(b)[15]);
        assert(id_bytes_spec(a)[15] == (a >> (8 * 15)) as u8);
        assert(id_bytes_spec(b)[15] == (b >> (8 * 15)) as u8);
    }
    lemma_all_bytes_equal(a, b);
}

proof fn lemma_all_bytes_equal(a: u128, b: u128)
    by (bit_vector)
    requires
        (a >> 0) as u8 == (b >> 0) as u8,
        (a >> 8) as u8 == (b >> 8) as u8,
        (a >> 16) as u8 == (b >> 16) as u8,
        (a >> 24) as u8 == (b >> 24) as u8,
        (a >> 32) as u8 == (b >> 32) as u8,
        (a >> 40) as u8 == (b >> 40) as u8,
        (a >> 48) as u8 == (b >> 48) as u8,
        (a >> 56) as u8 == (b >> 56) as u8,
        (a >> 64) as u8 == (b >> 64) as u8,
        (a >> 72) as u8 == (b >> 72) as u8,
        (a >> 80) as u8 == (b >> 80) as u8,
        (a >> 88) as u8 == (b >> 88) as u8,
        (a >> 96) as u8 == (b >> 96) as u8,
        (a >> 104) as u8 == (b >> 104) as u8,
        (a >> 112) as u8 == (b >> 112) as u8,
        (a >> 120) as u8 == (b >> 120) as u8,
    ensures
        a == b,
{
}

proof fn lemma_or_byte_low(x: u128, c: u128, sh: u128, t: u128)
    by (bit_vector)
    requires
        t < sh,
        t % 8 == 0,
        sh % 8 == 0,
        sh <= 120,
    ensures
        ((x | (c << sh)) >> t) as u8 == (x >> t) as u8,
{
}

proof fn lemma_or_byte_at(x: u128, c: u128, sh: u128)
    by (bit_vector)
    requires
        x >> sh == 0,
        c < 256,
        sh <= 120,
    ensures
        ((x | (c << sh)) >> sh) as u8 == c as u8,
{
}

proof fn lemma_or_byte_high(x: u128, c: u128, sh: u128)
    by (bit_vector)
    requires
        x >> sh == 0,
        c < 256,
        sh <= 112,
    ensures
        (x | (c << sh)) >> (sh + 8) == 0,
{
}

/// Writes a session id as its sixteen little-endian bytes.
pub(crate) fn id_to_bytes(id: u128) -> (r: Vec<u8>)
    ensures
        r@ == id_bytes_spec(id),
{
    let mut r: Vec<u8> = Vec::new();
    let mut i: usize = 0;
    while i < 16
        invariant
            0 <= i <= 16,
            r@.len() == i,
            forall|t: int| 0 <= t < i ==> r@[t] == (id >> (8 * t)) as u8,
        decreases 16 - i,
    {
        let b: u8 = #[verifier::truncate] ((id >> ((8 * i) as u128)) as u8);
        r.push(b);
        i = i + 1;
    }
    proof {
        assert(r@ =~= id_bytes_spec(id));
    }
    r
}

/// Reads a session id back from the first sixteen bytes.
fn bytes_to_id(b: &[u8]) -> (r: u128)
    requires
        b@.len() >= 16,
    ensures
        id_bytes_spec(r) == b@.subrange(0, 16),
{
    let mut r: u128 = 0;
    proof {
        assert(0u128 >> (8 * 0) == 0) by (bit_vector);
    }
    let mut i: usize = 0;
    while i < 16
        invariant
            0 <= i <= 16,
            b@.len() >= 16,
            forall|t: int| 0 <= t < i ==> (r >> (8 * t)) as u8 == b@[t],
            i < 16 ==> r >> (8 * i) == 0,
        decreases 16 - i,
    {
        let c: u128 = (b[i] as u128) << ((8 * i) as u128);
        proof {
            let ci = b@[i as int] as u128;
            let sh = (8 * i) as u128;
            lemma_or_byte_at(r, ci, sh);
            assert forall|t: int| 0 <= t < i + 1 implies ((r | c) >> (8 * t)) as u8 == b@[t] by {
                if t < i as int {
                    lemma_or_byte_low(r, ci, sh, (8 * t) as u128);
                }
            }
            if i + 1 < 16 {
                lemma_or_byte_high(r, ci, sh);
            }
        }
        r = r | c;
        i = i + 1;
    }
    proof {
        assert forall|t: int| 0 <= t < 16 implies id_bytes_spec(r)[t] == b@.subrange(0, 16)[t] by {
            assert((r >> (8 * t)) as u8 == b@[t]);
        }
        assert(id_bytes_spec(r) =~= b@.subrange(0, 16));
    }
    r
}

/// Encodes a bearer token from a session id and its raw secret.
pub fn encode_token(session_id: u128, secret: &Vec<u8>) -> (r: String)
    ensures
        r@ == token_spec(session_id, secret@),
{
    let mut frame = id_to_bytes(session_id);
    let n = secret.len();
    let mut i: usize = 0;
    while i < n
        invariant
            0 <= i <= n,
            n == secret@.len(),
            frame@ =~= id_bytes_spec(session_id) + secret@.subrange(0, i as int),
        decreases n - i,
    {
        frame.push(secret[i]);
        i = i + 1;
    }
    proof {
        assert(frame@ =~= id_bytes_spec(session_id) + secret@);
    }
    b64_encode(frame.as_slice())
}

/// Takes a bearer token apart. Any token that is the encoding of a session
/// id and a secret comes back as exactly that pair; malformed text comes
/// back as `None`, never a panic.
pub fn decode_token(token: &str) -> (r: Option<DecodedSessionToken>)
    ensures
        forall|sid: u128, sec: Seq<u8>|
            token@ == #[trigger] token_spec(sid, sec) ==> r is Some && r->0.session_id == sid
                && r->0.secret@ == sec,
        r matches Some(d) ==> token@ == token_spec(d.session_id, d.secret@),
{
    let bytes = match b64_decode(token) {
        Some(b) => b,
        None => {
            return None;
        },
    };
    if bytes.len() < 16 {
        proof {
            assert forall|sid: u128, sec: Seq<u8>|
                token@ == #[trigger] token_spec(sid, sec) implies false by {
                assert(bytes@ == id_bytes_spec(sid) + sec);
            }
        }
        return None;
    }
    let session_id = bytes_to_id(bytes.as_slice());
    let n = bytes.len();
    let mut secret: Vec<u8> = Vec::new();
    let mut i: usize = 16;
    while i < n
        invariant
            16 <= i <= n,
            n == bytes@.len(),
            secret@ =~= bytes@.subrange(16, i as int),
        decreases n - i,
    {
        secret.push(bytes[i]);
        i = i + 1;
    }
    proof {
        assert(secret@ =~= bytes@.subrange(16, n as int));
        assert(bytes@ =~= id_bytes_spec(session_id) + secret@);
        assert forall|sid: u128, sec: Seq<u8>|
            token@ == #[trigger] token_spec(sid, sec) implies session_id == sid && secret@
            == sec by {
            assert(bytes@ == id_bytes_spec(sid) + sec);
            assert(bytes@.subrange(0, 16) =~= id_bytes_spec(sid));
            lemma_id_bytes_injective(session_id, sid);
            assert(sec =~= bytes@.subrange(16, n as int));
        }
    }
    Some(DecodedSessionToken { session_id, secret })
}

/// A live session row: named id, not expired at `now`, and a stored hash
/// that the raw secret matches.
pub open spec fn session_lives(repo: Repository, sid: u128, sec: Seq<u8>, now: u64) -> bool {
    exists|t: int|
        0 <= t < repo.sessions@.len() && (#[trigger] repo.sessions@[t])@.id == sid && now
            <= repo.sessions@[t]@.expires_at && secret_matches(sec, repo.sessions@[t]@.secret_hash)
}

/// Same as `session_lives`, and the session belongs to user `uid`.
pub open spec fn session_grants(repo: Repository, sid: u128, sec: Seq<u8>, now: u64, uid: u128) -> bool {
    exists|t: int|
        0 <= t < repo.sessions@.len() && (#[trigger] repo.sessions@[t])@.id == sid && now
            <= repo.sessions@[t]@.expires_at && secret_matches(sec, repo.sessions@[t]@.secret_hash)
            && uid == repo.sessions@[t]@.user_id
}

/// The token text opens some live session at `now`.
pub open spec fn token_grants(repo: Repository, tok: Seq<char>, now: u64) -> bool {
    exists|sid: u128, sec: Seq<u8>|
        tok == #[trigger] token_spec(sid, sec) && session_lives(repo, sid, sec, now)
}

/// When a session issued at `now` stops being accepted.
pub open spec fn session_expiry(now: u64) -> u64 {
    if now + consts::SESSION_TTL_SECONDS > u64::MAX {
        u64::MAX
    } else {
        (now + consts::SESSION_TTL_SECONDS) as u64
    }
}

impl Service {
    /// Issues a session for an existing user: draws a random secret,
    /// persists only its hash, and returns the row together with the bearer
    /// token, which carries the raw secret exactly once.
    pub fn issue(&self, repo: &mut Repository, user_id: u128, now: u64) -> (r: (Session, String))
        requires
            old(repo).wf(),
            old(repo).next_id < u128::MAX,
            crate::repository::has_user_with_id(*old(repo), user_id),
        ensures
            final(repo).wf(),
            final(repo).sessions@.len() == old(repo).sessions@.len() + 1,
            forall|t: int|
                0 <= t < old(repo).sessions@.len() ==> final(repo).sessions@[t] == old(
                    repo,
                ).sessions@[t],
            final(repo).sessions@.last()@ == r.0@,
            r.0@.id == old(repo).next_id,
            r.0@.user_id == user_id,
            r.0@.created_at == now,
            r.0@.expires_at == session_expiry(now),
            exists|sec: Seq<u8>|
                r.1@ == #[trigger] token_spec(r.0@.id, sec) && secret_matches(
                    sec,
                    r.0@.secret_hash,
                ),
            forall|t: u64| t <= r.0@.expires_at ==> token_grants(*final(repo), r.1@, t),
            final(repo).users@ == old(repo).users@,
            final(repo).pending_users@ == old(repo).pending_users@,
            final(repo).pending_sessions@ == old(repo).pending_sessions@,
            final(repo).namespaces@ == old(repo).namespaces@,
            final(repo).groups@ == old(repo).groups@,
            final(repo).invitations@ == old(repo).invitations@,
            final(repo).memberships@ == old(repo).memberships@,
            final(repo).next_id == old(repo).next_id + 1,
    {
        let secret = random_bytes(consts::SESSION_SECRET_LENGTH);
        let secret_hash = hash_secret(secret.as_slice());
        let expires_at = if now > u64::MAX - consts::SESSION_TTL_SECONDS {
            u64::MAX
        } else {
            now + consts::SESSION_TTL_SECONDS
        };
        let session = repo.create_session(user_id, secret_hash, now, expires_at);
        let token = encode_token(session.id, &secret);
        proof {
            let sid = session@.id;
            assert(token@ == token_spec(sid, secret@));
            assert forall|t: u64| t <= session@.expires_at implies token_grants(
                *repo,
                token@,
                t,
            ) by {
                let last = repo.sessions@.len() - 1;
                assert(repo.sessions@[last]@.id == sid);
                assert(session_lives(*repo, sid, secret@, t));
            }
        }
        (session, token)
    }

    /// Verifies a bearer token: decodes it, loads the session, refuses
    /// missing, expired or mismatching ones with `Unauthenticated`, and
    /// returns the owning user. Acceptance is exactly `token_grants`.
    pub fn verify(&self, repo: &Repository, token: &str, now: u64) -> (r: Result<User, Error>)
        requires
            repo.wf(),
        ensures
            r is Ok <==> token_grants(*repo, token@, now),
            r matches Ok(u) ==> forall|sid: u128, sec: Seq<u8>|
                token@ == #[trigger] token_spec(sid, sec) ==> session_grants(
                    *repo,
                    sid,
                    sec,
                    now,
                    u@.id,
                ),
            r is Err ==> r matches Err(Error::Unauthenticated),
    {
        let decoded = match decode_token(token) {
            Some(d) => d,
            None => {
                proof {
                    if token_grants(*repo, token@, now) {
                        let (sid, sec) = choose|sid: u128, sec: Seq<u8>|
                            token@ == #[trigger] token_spec(sid, sec) && session_lives(
                                *repo,
                                sid,
                                sec,
                                now,
                            );
                    }
                }
                return Err(Error::Unauthenticated);
            },
        };
        let i = match repo.find_session_index_by_id(decoded.session_id) {
            Some(i) => i,
            None => {
                proof {
                    if token_grants(*repo, token@, now) {
                        let (sid, sec) = choose|sid: u128, sec: Seq<u8>|
                            token@ == #[trigger] token_spec(sid, sec) && session_lives(
                                *repo,
                                sid,
                                sec,
                                now,
                            );
                        assert(decoded.session_id == sid);
                        let t = choose|t: int|
                            0 <= t < repo.sessions@.len() && (#[trigger] repo.sessions@[t])@.id
                                == sid && now <= repo.sessions@[t]@.expires_at && secret_matches(
                                sec,
                                repo.sessions@[t]@.secret_hash,
                            );
                        assert(has_session_with_id(*repo, sid));
                    }
                }
                return Err(Error::Unauthenticated);
            },
        };
        let session = &repo.sessions[i];
        if session.expires_at < now {
            proof {
                if token_grants(*repo, token@, now) {
                    let (sid, sec) = choose|sid: u128, sec: Seq<u8>|
                        token@ == #[trigger] token_spec(sid, sec) && session_lives(
                            *repo,
                            sid,
                            sec,
                            now,
                        );
                    assert(decoded.session_id == sid);
                    let t = choose|t: int|
                        0 <= t < repo.sessions@.len() && (#[trigger] repo.sessions@[t])@.id == sid
                            && now <= repo.sessions@[t]@.expires_at && secret_matches(
                            sec,
                            repo.sessions@[t]@.secret_hash,
                        );
                    assert(repo.sessions@[t]@.id == repo.sessions@[i as int]@.id);
                    assert(t == i as int);
                }
            }
            return Err(Error::Unauthenticated);
        }
        if !verify_secret(decoded.secret.as_slice(), session.secret_hash.as_str()) {
            proof {
                if token_grants(*repo, token@, now) {
                    let (sid, sec) = choose|sid: u128, sec: Seq<u8>|
                        token@ == #[trigger] token_spec(sid, sec) && session_lives(
                            *repo,
                            sid,
                            sec,
                            now,
                        );
                    assert(decoded.session_id == sid && decoded.secret@ == sec);
                    let t = choose|t: int|
                        0 <= t < repo.sessions@.len() && (#[trigger] repo.sessions@[t])@.id == sid
                            && now <= repo.sessions@[t]@.expires_at && secret_matches(
                            sec,
                            repo.sessions@[t]@.secret_hash,
                        );
                    assert(repo.sessions@[t]@.id == repo.sessions@[i as int]@.id);
                    assert(t == i as int);
                }
            }
            return Err(Error::Unauthenticated);
        }
        let k = match repo.find_user_index_by_id(session.user_id) {
            Some(k) => k,
            None => {
                proof {
                    assert(crate::repository::user_id_in(
                        repo.users@,
                        repo.sessions@[i as int]@.user_id,
                    ));
                }
                return Err(Error::Internal);
            },
        };
        let user = repo.users[k].duplicate();
        proof {
            assert(session_lives(*repo, decoded.session_id, decoded.secret@, now));
            assert(token@ == token_spec(decoded.session_id, decoded.secret@));
            assert(token_grants(*repo, token@, now));
            assert forall|sid: u128, sec: Seq<u8>|
                token@ == #[trigger] token_spec(sid, sec) implies session_grants(
                *repo,
                sid,
                sec,
                now,
                user@.id,
            ) by {
                assert(sid == decoded.session_id && sec == decoded.secret@);
                assert((i as int) < repo.sessions@.len() && repo.sessions@[i as int]@.id == sid
                    && now <= repo.sessions@[i as int]@.expires_at && secret_matches(
                    sec,
                    repo.sessions@[i as int]@.secret_hash,
                ) && user@.id == repo.sessions@[i as int]@.user_id);
            }
        }
        Ok(user)
    }

    /// Revokes a session: only its owner may do it, and revoking an absent
    /// (already revoked) session is not an error.
    pub fn revoke_session(&self, repo: &mut Repository, actor: &User, input: RevokeSessionInput) -> (r:
        Result<(), Error>)
        requires
            old(repo).wf(),
        ensures
            final(repo).wf(),
            final(repo).next_id == old(repo).next_id,
            r is Err ==> (r matches Err(Error::PermissionDenied)) && *final(repo) == *old(repo)
                && (exists|t: int|
                0 <= t < old(repo).sessions@.len() && (#[trigger] old(repo).sessions@[t])@.id
                    == input.session_id && old(repo).sessions@[t]@.user_id != actor@.id),
            r is Ok ==> !has_session_with_id(*final(repo), input.session_id),
            r is Ok && !has_session_with_id(*old(repo), input.session_id) ==> *final(repo) == *old(
                repo,
            ),
            r is Ok && has_session_with_id(*old(repo), input.session_id) ==> exists|t: int|
                0 <= t < old(repo).sessions@.len() && (#[trigger] old(repo).sessions@[t])@.id
                    == input.session_id && old(repo).sessions@[t]@.user_id == actor@.id
                    && final(repo).sessions@ == old(repo).sessions@.remove(t),
            final(repo).users@ == old(repo).users@,
            final(repo).pending_users@ == old(repo).pending_users@,
            final(repo).pending_sessions@ == old(repo).pending_sessions@,
            final(repo).namespaces@ == old(repo).namespaces@,
            final(repo).groups@ == old(repo).groups@,
            final(repo).invitations@ == old(repo).invitations@,
            final(repo).memberships@ == old(repo).memberships@,
    {
        let i = match repo.find_session_index_by_id(input.session_id) {
            Some(i) => i,
            None => {
                return Ok(());
            },
        };
        if repo.sessions[i].user_id != actor.id {
            return Err(Error::PermissionDenied);
        }
        repo.remove_session_at(i);
        proof {
            let rows0 = old(repo).sessions@;
            assert forall|t: int|
                0 <= t < repo.sessions@.len() implies (#[trigger] repo.sessions@[t])@.id
                != input.session_id by {
                if t < i as int {
                    assert(repo.sessions@[t] == rows0[t]);
                } else {
                    assert(repo.sessions@[t] == rows0[t + 1]);
                }
            }
        }
        Ok(())
    }
}

} // verus!
