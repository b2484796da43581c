//! Persisted entities and their mathematical views. Textual fields are
//! UTF-8 byte strings; every entity has an abstract view used by the
//! contracts and a `duplicate` method that denotes the same view.

use vstd::prelude::*;

use crate::text::clone_bytes;
use crate::text::clone_opt_bytes;

verus! {

/// The second-factor mechanisms a user can enable.
#[derive(Clone, Copy, Debug, PartialEq, Eq, Structural)]
pub enum TwoFaMethod {
    Totp,
}

/// What kind of owner a namespace path belongs to.
#[derive(Clone, Copy, Debug, PartialEq, Eq, Structural)]
pub enum NamespaceType {
    User,
    Group,
}

/// A member's role inside a group.
#[derive(Clone, Copy, Debug, PartialEq, Eq, Structural)]
pub enum GroupRole {
    Administrator,
    Member,
}

/// An activated account. If `two_fa_enabled` is set, the encrypted TOTP
/// secret, its nonce and the method tag must all be present.
#[derive(Clone, Debug)]
pub struct User {
    pub id: u128,
    pub created_at: u64,
    pub updated_at: u64,
    pub email: Vec<u8>,
    pub username: Vec<u8>,
    pub name: Vec<u8>,
    pub description: Vec<u8>,
    pub two_fa_enabled: bool,
    pub encrypted_totp_secret: Option<Vec<u8>>,
    pub totp_secret_nonce: Option<Vec<u8>>,
    pub two_fa_method: Option<TwoFaMethod>,
    pub last_totp_counter: Option<u64>,
}

pub ghost struct UserV {
    pub id: u128,
    pub created_at: u64,
    pub updated_at: u64,
    pub email: Seq<u8>,
    pub username: Seq<u8>,
    pub name: Seq<u8>,
    pub description: Seq<u8>,
    pub two_fa_enabled: bool,
    pub encrypted_totp_secret: Option<Seq<u8>>,
    pub totp_secret_nonce: Option<Seq<u8>>,
    pub two_fa_method: Option<TwoFaMethod>,
    pub last_totp_counter: Option<u64>,
}

pub open spec fn opt_bytes_view(o: Option<Vec<u8>>) -> Option<Seq<u8>> {
    match o {
        Some(v) => Some(v@),
        None => None,
    }
}

impl View for User {
    type V = UserV;

    open spec fn view(&self) -> UserV {
        UserV {
            id: self.id,
            created_at: self.created_at,
            updated_at: self.updated_at,
            email: self.email@,
            username: self.username@,
            name: self.name@,
            description: self.description@,
            two_fa_enabled: self.two_fa_enabled,
            encrypted_totp_secret: opt_bytes_view(self.encrypted_totp_secret),
            totp_secret_nonce: opt_bytes_view(self.totp_secret_nonce),
            two_fa_method: self.two_fa_method,
            last_totp_counter: self.last_totp_counter,
        }
    }
}

impl UserV {
    /// The internal invariant of a user row: an enabled second factor is
    /// fully materialised, and the stored nonce has the AEAD nonce length.
    pub open spec fn wf(self) -> bool {
        &&& self.two_fa_enabled ==> {
            &&& self.encrypted_totp_secret is Some
            &&& self.totp_secret_nonce is Some
            &&& self.two_fa_method is Some
        }
        &&& self.totp_secret_nonce matches Some(n) ==> n.len()
            == crate::consts::AEAD_NONCE_LENGTH
    }
}

impl User {
    /// Copies the row; the copy denotes the same view.
    pub fn duplicate(&self) -> (r: User)
        ensures
            r@ == self@,
    {
        User {
            id: self.id,
            created_at: self.created_at,
            updated_at: self.updated_at,
            email: clone_bytes(&self.email),
            username: clone_bytes(&self.username),
            name: clone_bytes(&self.name),
            description: clone_bytes(&self.description),
            two_fa_enabled: self.two_fa_enabled,
            encrypted_totp_secret: clone_opt_bytes(&self.encrypted_totp_secret),
            totp_secret_nonce: clone_opt_bytes(&self.totp_secret_nonce),
            two_fa_method: self.two_fa_method,
            last_totp_counter: self.last_totp_counter,
        }
    }
}

/// A provisional account awaiting its email confirmation code.
#[derive(Clone, Debug)]
pub struct PendingUser {
    pub id: u128,
    pub created_at: u64,
    pub updated_at: u64,
    pub username: Vec<u8>,
    pub email: Vec<u8>,
    pub failed_attempts: u64,
    pub code_hash: String,
}

pub ghost struct PendingUserV {
    pub id: u128,
    pub created_at: u64,
    pub updated_at: u64,
    pub username: Seq<u8>,
    pub email: Seq<u8>,
    pub failed_attempts: u64,
    pub code_hash: Seq<char>,
}

impl View for PendingUser {
    type V = PendingUserV;

    open spec fn view(&self) -> PendingUserV {
        PendingUserV {
            id: self.id,
            created_at: self.created_at,
            updated_at: self.updated_at,
            username: self.username@,
            email: self.email@,
            failed_attempts: self.failed_attempts,
            code_hash: self.code_hash@,
        }
    }
}

impl PendingUser {
    /// Copies the row; the copy denotes the same view.
    pub fn duplicate(&self) -> (r: PendingUser)
        ensures
            r@ == self@,
    {
        PendingUser {
            id: self.id,
            created_at: self.created_at,
            updated_at: self.updated_at,
            username: clone_bytes(&self.username),
            email: clone_bytes(&self.email),
            failed_attempts: self.failed_attempts,
            code_hash: self.code_hash.clone(),
        }
    }
}

/// An authenticated session; only the hash of its bearer secret is stored.
#[derive(Clone, Debug)]
pub struct Session {
    pub id: u128,
    pub created_at: u64,
    pub expires_at: u64,
    pub user_id: u128,
    pub secret_hash: String,
}

pub ghost struct SessionV {
    pub id: u128,
    pub created_at: u64,
    pub expires_at: u64,
    pub user_id: u128,
    pub secret_hash: Seq<char>,
}

impl View for Session {
    type V = SessionV;

    open spec fn view(&self) -> SessionV {
        SessionV {
            id: self.id,
            created_at: self.created_at,
            expires_at: self.expires_at,
            user_id: self.user_id,
            secret_hash: self.secret_hash@,
        }
    }
}

impl Session {
    /// Copies the row; the copy denotes the same view.
    pub fn duplicate(&self) -> (r: Session)
        ensures
            r@ == self@,
    {
        Session {
            id: self.id,
            created_at: self.created_at,
            expires_at: self.expires_at,
            user_id: self.user_id,
            secret_hash: self.secret_hash.clone(),
        }
    }
}

/// An identity looked up but not yet proved by code (and, if enabled, by the
/// second factor). `code_verified` records that the emailed code has been
/// accepted and only the second factor is still owed.
#[derive(Clone, Debug)]
pub struct PendingSession {
    pub id: u128,
    pub created_at: u64,
    pub user_id: u128,
    pub code_hash: String,
    pub failed_attempts: u64,
    pub code_verified: bool,
}

pub ghost struct PendingSessionV {
    pub id: u128,
    pub created_at: u64,
    pub user_id: u128,
    pub code_hash: Seq<char>,
    pub failed_attempts: u64,
    pub code_verified: bool,
}

impl View for PendingSession {
    type V = PendingSessionV;

    open spec fn view(&self) -> PendingSessionV {
        PendingSessionV {
            id: self.id,
            created_at: self.created_at,
            user_id: self.user_id,
            code_hash: self.code_hash@,
            failed_attempts: self.failed_attempts,
            code_verified: self.code_verified,
        }
    }
}

impl PendingSession {
    /// Copies the row; the copy denotes the same view.
    pub fn duplicate(&self) -> (r: PendingSession)
        ensures
            r@ == self@,
    {
        PendingSession {
            id: self.id,
            created_at: self.created_at,
            user_id: self.user_id,
            code_hash: self.code_hash.clone(),
            failed_attempts: self.failed_attempts,
            code_verified: self.code_verified,
        }
    }
}

/// A claim on a path. Usernames and group paths share this one table, so a
/// username and a group path can never collide.
#[derive(Clone, Debug)]
pub struct Namespace {
    pub id: u128,
    pub created_at: u64,
    pub updated_at: u64,
    pub path: Vec<u8>,
    pub kind: NamespaceType,
    pub parent_id: Option<u128>,
}

pub ghost struct NamespaceV {
    pub id: u128,
    pub created_at: u64,
    pub updated_at: u64,
    pub path: Seq<u8>,
    pub kind: NamespaceType,
    pub parent_id: Option<u128>,
}

impl View for Namespace {
    type V = NamespaceV;

    open spec fn view(&self) -> NamespaceV {
        NamespaceV {
            id: self.id,
            created_at: self.created_at,
            updated_at: self.updated_at,
            path: self.path@,
            kind: self.kind,
            parent_id: self.parent_id,
        }
    }
}

impl Namespace {
    /// Copies the row; the copy denotes the same view.
    pub fn duplicate(&self) -> (r: Namespace)
        ensures
            r@ == self@,
    {
        Namespace {
            id: self.id,
            created_at: self.created_at,
            updated_at: self.updated_at,
            path: clone_bytes(&self.path),
            kind: self.kind,
            parent_id: self.parent_id,
        }
    }
}

/// A group of users; its path is a namespace of kind `Group`.
#[derive(Clone, Debug)]
pub struct Group {
    pub id: u128,
    pub created_at: u64,
    pub updated_at: u64,
    pub name: Vec<u8>,
    pub path: Vec<u8>,
    pub description: Vec<u8>,
}

pub ghost struct GroupV {
    pub id: u128,
    pub created_at: u64,
    pub updated_at: u64,
    pub name: Seq<u8>,
    pub path: Seq<u8>,
    pub description: Seq<u8>,
}

impl View for Group {
    type V = GroupV;

    open spec fn view(&self) -> GroupV {
        GroupV {
            id: self.id,
            created_at: self.created_at,
            updated_at: self.updated_at,
            name: self.name@,
            path: self.path@,
            description: self.description@,
        }
    }
}

impl Group {
    /// Copies the row; the copy denotes the same view.
    pub fn duplicate(&self) -> (r: Group)
        ensures
            r@ == self@,
    {
        Group {
            id: self.id,
            created_at: self.created_at,
            updated_at: self.updated_at,
            name: clone_bytes(&self.name),
            path: clone_bytes(&self.path),
            description: clone_bytes(&self.description),
        }
    }
}

/// A standing offer of membership, deleted on accept, decline or cancel.
#[derive(Clone, Copy, Debug, PartialEq, Eq, Structural)]
pub struct GroupInvitation {
    pub id: u128,
    pub created_at: u64,
    pub updated_at: u64,
    pub group_id: u128,
    pub invitee_id: u128,
    pub inviter_id: u128,
}

/// Membership of one user in one group.
#[derive(Clone, Copy, Debug, PartialEq, Eq, Structural)]
pub struct GroupMembership {
    pub group_id: u128,
    pub user_id: u128,
    pub role: GroupRole,
}

} // verus!
