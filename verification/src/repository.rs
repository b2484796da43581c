//! The abstract store behind the service: one in-memory table per entity,
//! with the data-model invariants (fresh distinct ids, unique emails,
//! usernames and paths, a namespace row of the right kind behind every
//! username and group path) carried by `wf`. The repository is the only
//! mutator of persisted state; every mutation keeps `wf`.

use vstd::prelude::*;

use crate::entities::Group;
use crate::entities::GroupInvitation;
use crate::entities::GroupMembership;
use crate::entities::Namespace;
use crate::entities::NamespaceType;
use crate::entities::PendingSession;
use crate::entities::PendingUser;
use crate::entities::Session;
use crate::entities::User;
use crate::errors::Error;
use crate::text::bytes_eq;

verus! {

/// The persisted state of the platform.
pub struct Repository {
    pub users: Vec<User>,
    pub pending_users: Vec<PendingUser>,
    pub sessions: Vec<Session>,
    pub pending_sessions: Vec<PendingSession>,
    pub namespaces: Vec<Namespace>,
    pub groups: Vec<Group>,
    pub invitations: Vec<GroupInvitation>,
    pub memberships: Vec<GroupMembership>,
    /// Source of fresh row ids; every stored id is below it.
    pub next_id: u128,
}

pub open spec fn user_id_in(users: Seq<User>, id: u128) -> bool {
    exists|t: int| 0 <= t < users.len() && (#[trigger] users[t])@.id == id
}

pub open spec fn user_email_in(users: Seq<User>, email: Seq<u8>) -> bool {
    exists|t: int| 0 <= t < users.len() && (#[trigger] users[t])@.email == email
}

pub open spec fn user_username_in(users: Seq<User>, username: Seq<u8>) -> bool {
    exists|t: int| 0 <= t < users.len() && (#[trigger] users[t])@.username == username
}

pub open spec fn pending_user_id_in(rows: Seq<PendingUser>, id: u128) -> bool {
    exists|t: int| 0 <= t < rows.len() && (#[trigger] rows[t])@.id == id
}

pub open spec fn pending_user_email_in(rows: Seq<PendingUser>, email: Seq<u8>) -> bool {
    exists|t: int| 0 <= t < rows.len() && (#[trigger] rows[t])@.email == email
}

pub open spec fn pending_user_username_in(rows: Seq<PendingUser>, username: Seq<u8>) -> bool {
    exists|t: int| 0 <= t < rows.len() && (#[trigger] rows[t])@.username == username
}

pub open spec fn session_id_in(rows: Seq<Session>, id: u128) -> bool {
    exists|t: int| 0 <= t < rows.len() && (#[trigger] rows[t])@.id == id
}

pub open spec fn pending_session_id_in(rows: Seq<PendingSession>, id: u128) -> bool {
    exists|t: int| 0 <= t < rows.len() && (#[trigger] rows[t])@.id == id
}

pub open spec fn namespace_path_in(rows: Seq<Namespace>, path: Seq<u8>) -> bool {
    exists|t: int| 0 <= t < rows.len() && (#[trigger] rows[t])@.path == path
}

pub open spec fn namespace_id_in(rows: Seq<Namespace>, id: u128) -> bool {
    exists|t: int| 0 <= t < rows.len() && (#[trigger] rows[t])@.id == id
}

pub open spec fn namespace_kind_in(rows: Seq<Namespace>, path: Seq<u8>, kind: NamespaceType) -> bool {
    exists|t: int|
        0 <= t < rows.len() && (#[trigger] rows[t])@.path == path && rows[t]@.kind == kind
}

pub open spec fn group_id_in(rows: Seq<Group>, id: u128) -> bool {
    exists|t: int| 0 <= t < rows.len() && (#[trigger] rows[t])@.id == id
}

pub open spec fn invitation_id_in(rows: Seq<GroupInvitation>, id: u128) -> bool {
    exists|t: int| 0 <= t < rows.len() && (#[trigger] rows[t]).id == id
}

pub open spec fn invitation_for_in(rows: Seq<GroupInvitation>, group_id: u128, invitee_id: u128) -> bool {
    exists|t: int|
        0 <= t < rows.len() && (#[trigger] rows[t]).group_id == group_id && rows[t].invitee_id
            == invitee_id
}

pub open spec fn membership_in(rows: Seq<GroupMembership>, group_id: u128, user_id: u128) -> bool {
    exists|t: int|
        0 <= t < rows.len() && (#[trigger] rows[t]).group_id == group_id && rows[t].user_id
            == user_id
}

pub open spec fn admin_in(rows: Seq<GroupMembership>, group_id: u128, user_id: u128) -> bool {
    exists|t: int|
        0 <= t < rows.len() && (#[trigger] rows[t]).group_id == group_id && rows[t].user_id
            == user_id && rows[t].role == crate::entities::GroupRole::Administrator
}

pub open spec fn has_user_with_id(r: Repository, id: u128) -> bool {
    user_id_in(r.users@, id)
}

pub open spec fn has_user_with_email(r: Repository, email: Seq<u8>) -> bool {
    user_email_in(r.users@, email)
}

pub open spec fn has_user_with_username(r: Repository, username: Seq<u8>) -> bool {
    user_username_in(r.users@, username)
}

pub open spec fn has_pending_user_with_id(r: Repository, id: u128) -> bool {
    pending_user_id_in(r.pending_users@, id)
}

pub open spec fn has_pending_user_with_email(r: Repository, email: Seq<u8>) -> bool {
    pending_user_email_in(r.pending_users@, email)
}

pub open spec fn has_pending_user_with_username(r: Repository, username: Seq<u8>) -> bool {
    pending_user_username_in(r.pending_users@, username)
}

pub open spec fn has_session_with_id(r: Repository, id: u128) -> bool {
    session_id_in(r.sessions@, id)
}

pub open spec fn has_pending_session_with_id(r: Repository, id: u128) -> bool {
    pending_session_id_in(r.pending_sessions@, id)
}

pub open spec fn has_namespace_with_path(r: Repository, path: Seq<u8>) -> bool {
    namespace_path_in(r.namespaces@, path)
}

pub open spec fn has_namespace_with_id(r: Repository, id: u128) -> bool {
    namespace_id_in(r.namespaces@, id)
}

pub open spec fn has_namespace_of_kind(r: Repository, path: Seq<u8>, kind: NamespaceType) -> bool {
    namespace_kind_in(r.namespaces@, path, kind)
}

pub open spec fn has_group_with_id(r: Repository, id: u128) -> bool {
    group_id_in(r.groups@, id)
}

pub open spec fn has_invitation_with_id(r: Repository, id: u128) -> bool {
    invitation_id_in(r.invitations@, id)
}

pub open spec fn has_invitation_for(r: Repository, group_id: u128, invitee_id: u128) -> bool {
    invitation_for_in(r.invitations@, group_id, invitee_id)
}

pub open spec fn has_membership(r: Repository, group_id: u128, user_id: u128) -> bool {
    membership_in(r.memberships@, group_id, user_id)
}

pub open spec fn is_group_admin(r: Repository, group_id: u128, user_id: u128) -> bool {
    admin_in(r.memberships@, group_id, user_id)
}

pub open spec fn users_ok(users: Seq<User>, namespaces: Seq<Namespace>, next: u128) -> bool {
    &&& forall|i: int| 0 <= i < users.len() ==> (#[trigger] users[i])@.id < next
    &&& forall|i: int, j: int|
        0 <= i < j < users.len() ==> (#[trigger] users[i])@.id != (#[trigger] users[j])@.id
    &&& forall|i: int, j: int|
        0 <= i < j < users.len() ==> (#[trigger] users[i])@.email != (#[trigger] users[j])@.email
    &&& forall|i: int, j: int|
        0 <= i < j < users.len() ==> (#[trigger] users[i])@.username
            != (#[trigger] users[j])@.username
    &&& forall|i: int| 0 <= i < users.len() ==> (#[trigger] users[i])@.wf()
    &&& forall|i: int|
        0 <= i < users.len() ==> namespace_kind_in(
            namespaces,
            (#[trigger] users[i])@.username,
            NamespaceType::User,
        )
}

pub open spec fn pending_users_ok(rows: Seq<PendingUser>, next: u128) -> bool {
    &&& forall|i: int| 0 <= i < rows.len() ==> (#[trigger] rows[i])@.id < next
    &&& forall|i: int, j: int|
        0 <= i < j < rows.len() ==> (#[trigger] rows[i])@.id != (#[trigger] rows[j])@.id
    &&& forall|i: int, j: int|
        0 <= i < j < rows.len() ==> (#[trigger] rows[i])@.email != (#[trigger] rows[j])@.email
    &&& forall|i: int, j: int|
        0 <= i < j < rows.len() ==> (#[trigger] rows[i])@.username
            != (#[trigger] rows[j])@.username
}

pub open spec fn sessions_ok(rows: Seq<Session>, users: Seq<User>, next: u128) -> bool {
    &&& forall|i: int| 0 <= i < rows.len() ==> (#[trigger] rows[i])@.id < next
    &&& forall|i: int, j: int|
        0 <= i < j < rows.len() ==> (#[trigger] rows[i])@.id != (#[trigger] rows[j])@.id
    &&& forall|i: int| 0 <= i < rows.len() ==> user_id_in(users, (#[trigger] rows[i])@.user_id)
}

pub open spec fn pending_sessions_ok(rows: Seq<PendingSession>, users: Seq<User>, next: u128) -> bool {
    &&& forall|i: int| 0 <= i < rows.len() ==> (#[trigger] rows[i])@.id < next
    &&& forall|i: int, j: int|
        0 <= i < j < rows.len() ==> (#[trigger] rows[i])@.id != (#[trigger] rows[j])@.id
    &&& forall|i: int| 0 <= i < rows.len() ==> user_id_in(users, (#[trigger] rows[i])@.user_id)
}

pub open spec fn namespaces_ok(rows: Seq<Namespace>, next: u128) -> bool {
    &&& forall|i: int| 0 <= i < rows.len() ==> (#[trigger] rows[i])@.id < next
    &&& forall|i: int, j: int|
        0 <= i < j < rows.len() ==> (#[trigger] rows[i])@.id != (#[trigger] rows[j])@.id
    &&& forall|i: int, j: int|
        0 <= i < j < rows.len() ==> (#[trigger] rows[i])@.path != (#[trigger] rows[j])@.path
}

pub open spec fn groups_ok(rows: Seq<Group>, namespaces: Seq<Namespace>, next: u128) -> bool {
    &&& forall|i: int| 0 <= i < rows.len() ==> (#[trigger] rows[i])@.id < next
    &&& forall|i: int, j: int|
        0 <= i < j < rows.len() ==> (#[trigger] rows[i])@.id != (#[trigger] rows[j])@.id
    &&& forall|i: int|
        0 <= i < rows.len() ==> namespace_kind_in(
            namespaces,
            (#[trigger] rows[i])@.path,
            NamespaceType::Group,
        )
}

pub open spec fn invitations_ok(rows: Seq<GroupInvitation>, next: u128) -> bool {
    &&& forall|i: int|
        0 <= i < rows.len() ==> (#[trigger] rows[i]).id < next && rows[i].group_id < next
            && rows[i].invitee_id < next && rows[i].inviter_id < next
    &&& forall|i: int, j: int|
        0 <= i < j < rows.len() ==> (#[trigger] rows[i]).id != (#[trigger] rows[j]).id
    &&& forall|i: int, j: int|
        0 <= i < j < rows.len() ==> !((#[trigger] rows[i]).group_id == (#[trigger] rows[j]).group_id
            && rows[i].invitee_id == rows[j].invitee_id)
}

pub open spec fn memberships_ok(rows: Seq<GroupMembership>, next: u128) -> bool {
    &&& forall|i: int|
        0 <= i < rows.len() ==> (#[trigger] rows[i]).group_id < next && rows[i].user_id < next
    &&& forall|i: int, j: int|
        0 <= i < j < rows.len() ==> !((#[trigger] rows[i]).group_id == (#[trigger] rows[j]).group_id
            && rows[i].user_id == rows[j].user_id)
}

impl Repository {
    /// A fresh, empty store.
    pub fn new() -> (r: Repository)
        ensures
            r.wf(),
            r.users@.len() == 0,
            r.pending_users@.len() == 0,
            r.sessions@.len() == 0,
            r.pending_sessions@.len() == 0,
            r.namespaces@.len() == 0,
            r.groups@.len() == 0,
            r.invitations@.len() == 0,
            r.memberships@.len() == 0,
    {
        Repository {
            users: Vec::new(),
            pending_users: Vec::new(),
            sessions: Vec::new(),
            pending_sessions: Vec::new(),
            namespaces: Vec::new(),
            groups: Vec::new(),
            invitations: Vec::new(),
            memberships: Vec::new(),
            next_id: 1,
        }
    }

    /// The data-model invariant: fresh distinct ids, unique emails and
    /// usernames (activated and pending), globally unique namespace paths,
    /// a namespace row of the right kind behind every username and group
    /// path, per-user well-formedness, and sessions that always reference an
    /// existing user.
    pub open spec fn wf(self) -> bool {
        &&& users_ok(self.users@, self.namespaces@, self.next_id)
        &&& pending_users_ok(self.pending_users@, self.next_id)
        &&& sessions_ok(self.sessions@, self.users@, self.next_id)
        &&& pending_sessions_ok(self.pending_sessions@, self.users@, self.next_id)
        &&& namespaces_ok(self.namespaces@, self.next_id)
        &&& groups_ok(self.groups@, self.namespaces@, self.next_id)
        &&& invitations_ok(self.invitations@, self.next_id)
        &&& memberships_ok(self.memberships@, self.next_id)
    }

    pub fn find_user_index_by_id(&self, id: u128) -> (r: Option<usize>)
        ensures
            r matches Some(i) ==> i < self.users@.len() && self.users@[i as int]@.id == id,
            r is None ==> !has_user_with_id(*self, id),
    {
        let n = self.users.len();
        let mut i: usize = 0;
        while i < n
            invariant
                0 <= i <= n,
                n == self.users@.len(),
                forall|t: int| 0 <= t < i ==> (#[trigger] self.users@[t])@.id != id,
            decreases n - i,
        {
            if self.users[i].id == id {
                return Some(i);
            }
            i = i + 1;
        }
        None
    }

    pub fn find_user_index_by_email(&self, email: &[u8]) -> (r: Option<usize>)
        ensures
            r matches Some(i) ==> i < self.users@.len() && self.users@[i as int]@.email == email@,
            r is None ==> !has_user_with_email(*self, email@),
    {
        let n = self.users.len();
        let mut i: usize = 0;
        while i < n
            invariant
                0 <= i <= n,
                n == self.users@.len(),
                forall|t: int| 0 <= t < i ==> (#[trigger] self.users@[t])@.email != email@,
            decreases n - i,
        {
            if bytes_eq(self.users[i].email.as_slice(), email) {
                return Some(i);
            }
            i = i + 1;
        }
        None
    }

    pub fn find_user_index_by_username(&self, username: &[u8]) -> (r: Option<usize>)
        ensures
            r matches Some(i) ==> i < self.users@.len() && self.users@[i as int]@.username
                == username@,
            r is None ==> !has_user_with_username(*self, username@),
    {
        let n = self.users.len();
        let mut i: usize = 0;
        while i < n
            invariant
                0 <= i <= n,
                n == self.users@.len(),
                forall|t: int| 0 <= t < i ==> (#[trigger] self.users@[t])@.username != username@,
            decreases n - i,
        {
            if bytes_eq(self.users[i].username.as_slice(), username) {
                return Some(i);
            }
            i = i + 1;
        }
        None
    }

    pub fn find_pending_user_index_by_id(&self, id: u128) -> (r: Option<usize>)
        ensures
            r matches Some(i) ==> i < self.pending_users@.len()
                && self.pending_users@[i as int]@.id == id,
            r is None ==> !has_pending_user_with_id(*self, id),
    {
        let n = self.pending_users.len();
        let mut i: usize = 0;
        while i < n
            invariant
                0 <= i <= n,
                n == self.pending_users@.len(),
                forall|t: int| 0 <= t < i ==> (#[trigger] self.pending_users@[t])@.id != id,
            decreases n - i,
        {
            if self.pending_users[i].id == id {
                return Some(i);
            }
            i = i + 1;
        }
        None
    }

    pub fn find_pending_user_index_by_email(&self, email: &[u8]) -> (r: Option<usize>)
        ensures
            r matches Some(i) ==> i < self.pending_users@.len()
                && self.pending_users@[i as int]@.email == email@,
            r is None ==> !has_pending_user_with_email(*self, email@),
    {
        let n = self.pending_users.len();
        let mut i: usize = 0;
        while i < n
            invariant
                0 <= i <= n,
                n == self.pending_users@.len(),
                forall|t: int| 0 <= t < i ==> (#[trigger] self.pending_users@[t])@.email != email@,
            decreases n - i,
        {
            if bytes_eq(self.pending_users[i].email.as_slice(), email) {
                return Some(i);
            }
            i = i + 1;
        }
        None
    }

    pub fn find_pending_user_index_by_username(&self, username: &[u8]) -> (r: Option<usize>)
        ensures
            r matches Some(i) ==> i < self.pending_users@.len()
                && self.pending_users@[i as int]@.username == username@,
            r is None ==> !has_pending_user_with_username(*self, username@),
    {
        let n = self.pending_users.len();
        let mut i: usize = 0;
        while i < n
            invariant
                0 <= i <= n,
                n == self.pending_users@.len(),
                forall|t: int|
                    0 <= t < i ==> (#[trigger] self.pending_users@[t])@.username != username@,
            decreases n - i,
        {
            if bytes_eq(self.pending_users[i].username.as_slice(), username) {
                return Some(i);
            }
            i = i + 1;
        }
        None
    }

    pub fn find_session_index_by_id(&self, id: u128) -> (r: Option<usize>)
        ensures
            r matches Some(i) ==> i < self.sessions@.len() && self.sessions@[i as int]@.id == id,
            r is None ==> !has_session_with_id(*self, id),
    {
        let n = self.sessions.len();
        let mut i: usize = 0;
        while i < n
            invariant
                0 <= i <= n,
                n == self.sessions@.len(),
                forall|t: int| 0 <= t < i ==> (#[trigger] self.sessions@[t])@.id != id,
            decreases n - i,
        {
            if self.sessions[i].id == id {
                return Some(i);
            }
            i = i + 1;
        }
        None
    }

    pub fn find_pending_session_index_by_id(&self, id: u128) -> (r: Option<usize>)
        ensures
            r matches Some(i) ==> i < self.pending_sessions@.len()
                && self.pending_sessions@[i as int]@.id == id,
            r is None ==> !has_pending_session_with_id(*self, id),
    {
        let n = self.pending_sessions.len();
        let mut i: usize = 0;
        while i < n
            invariant
                0 <= i <= n,
                n == self.pending_sessions@.len(),
                forall|t: int| 0 <= t < i ==> (#[trigger] self.pending_sessions@[t])@.id != id,
            decreases n - i,
        {
            if self.pending_sessions[i].id == id {
                return Some(i);
            }
            i = i + 1;
        }
        None
    }

    pub fn find_namespace_index_by_path(&self, path: &[u8]) -> (r: Option<usize>)
        ensures
            r matches Some(i) ==> i < self.namespaces@.len() && self.namespaces@[i as int]@.path
                == path@,
            r is None ==> !has_namespace_with_path(*self, path@),
    {
        let n = self.namespaces.len();
        let mut i: usize = 0;
        while i < n
            invariant
                0 <= i <= n,
                n == self.namespaces@.len(),
                forall|t: int| 0 <= t < i ==> (#[trigger] self.namespaces@[t])@.path != path@,
            decreases n - i,
        {
            if bytes_eq(self.namespaces[i].path.as_slice(), path) {
                return Some(i);
            }
            i = i + 1;
        }
        None
    }

    pub fn find_group_index_by_id(&self, id: u128) -> (r: Option<usize>)
        ensures
            r matches Some(i) ==> i < self.groups@.len() && self.groups@[i as int]@.id == id,
            r is None ==> !has_group_with_id(*self, id),
    {
        let n = self.groups.len();
        let mut i: usize = 0;
        while i < n
            invariant
                0 <= i <= n,
                n == self.groups@.len(),
                forall|t: int| 0 <= t < i ==> (#[trigger] self.groups@[t])@.id != id,
            decreases n - i,
        {
            if self.groups[i].id == id {
                return Some(i);
            }
            i = i + 1;
        }
        None
    }

    pub fn find_invitation_index_by_id(&self, id: u128) -> (r: Option<usize>)
        ensures
            r matches Some(i) ==> i < self.invitations@.len() && self.invitations@[i as int].id
                == id,
            r is None ==> !has_invitation_with_id(*self, id),
    {
        let n = self.invitations.len();
        let mut i: usize = 0;
        while i < n
            invariant
                0 <= i <= n,
                n == self.invitations@.len(),
                forall|t: int| 0 <= t < i ==> (#[trigger] self.invitations@[t]).id != id,
            decreases n - i,
        {
            if self.invitations[i].id == id {
                return Some(i);
            }
            i = i + 1;
        }
        None
    }

    pub fn find_invitation_index_for(&self, group_id: u128, invitee_id: u128) -> (r: Option<usize>)
        ensures
            r matches Some(i) ==> i < self.invitations@.len()
                && self.invitations@[i as int].group_id == group_id
                && self.invitations@[i as int].invitee_id == invitee_id,
            r is None ==> !has_invitation_for(*self, group_id, invitee_id),
    {
        let n = self.invitations.len();
        let mut i: usize = 0;
        while i < n
            invariant
                0 <= i <= n,
                n == self.invitations@.len(),
                forall|t: int|
                    0 <= t < i ==> !((#[trigger] self.invitations@[t]).group_id == group_id
                        && self.invitations@[t].invitee_id == invitee_id),
            decreases n - i,
        {
            if self.invitations[i].group_id == group_id && self.invitations[i].invitee_id
                == invitee_id {
                return Some(i);
            }
            i = i + 1;
        }
        None
    }

    pub fn find_membership_index(&self, group_id: u128, user_id: u128) -> (r: Option<usize>)
        ensures
            r matches Some(i) ==> i < self.memberships@.len()
                && self.memberships@[i as int].group_id == group_id
                && self.memberships@[i as int].user_id == user_id,
            r is None ==> !has_membership(*self, group_id, user_id),
    {
        let n = self.memberships.len();
        let mut i: usize = 0;
        while i < n
            invariant
                0 <= i <= n,
                n == self.memberships@.len(),
                forall|t: int|
                    0 <= t < i ==> !((#[trigger] self.memberships@[t]).group_id == group_id
                        && self.memberships@[t].user_id == user_id),
            decreases n - i,
        {
            if self.memberships[i].group_id == group_id && self.memberships[i].user_id == user_id {
                return Some(i);
            }
            i = i + 1;
        }
        None
    }

    /// Loads a namespace row by id, as the repository interface promises:
    /// the row if it exists, `NamespaceNotFound` otherwise.
    pub fn find_namespace_by_id(&self, namespace_id: u128) -> (r: Result<Namespace, Error>)
        ensures
            r matches Ok(ns) ==> exists|t: int|
                0 <= t < self.namespaces@.len() && (#[trigger] self.namespaces@[t])@ == ns@
                    && ns@.id == namespace_id,
            r is Err ==> (r matches Err(Error::NamespaceNotFound)) && !has_namespace_with_id(
                *self,
                namespace_id,
            ),
    {
        let n = self.namespaces.len();
        let mut i: usize = 0;
        while i < n
            invariant
                0 <= i <= n,
                n == self.namespaces@.len(),
                forall|t: int| 0 <= t < i ==> (#[trigger] self.namespaces@[t])@.id != namespace_id,
            decreases n - i,
        {
            if self.namespaces[i].id == namespace_id {
                return Ok(self.namespaces[i].duplicate());
            }
            i = i + 1;
        }
        Err(Error::NamespaceNotFound)
    }
}

proof fn lemma_user_id_in_push(users: Seq<User>, x: User, id: u128)
    requires
        user_id_in(users, id),
    ensures
        user_id_in(users.push(x), id),
{
    let t = choose|t: int| 0 <= t < users.len() && (#[trigger] users[t])@.id == id;
    assert(users.push(x)[t] == users[t]);
}

proof fn lemma_user_id_in_update(users: Seq<User>, i: int, x: User, id: u128)
    requires
        user_id_in(users, id),
        0 <= i < users.len(),
        x@.id == users[i]@.id,
    ensures
        user_id_in(users.update(i, x), id),
{
    let t = choose|t: int| 0 <= t < users.len() && (#[trigger] users[t])@.id == id;
    if t == i {
        assert(users.update(i, x)[i] == x);
    } else {
        assert(users.update(i, x)[t] == users[t]);
    }
}

proof fn lemma_namespace_kind_in_push(
    rows: Seq<Namespace>,
    x: Namespace,
    path: Seq<u8>,
    kind: NamespaceType,
)
    requires
        namespace_kind_in(rows, path, kind),
    ensures
        namespace_kind_in(rows.push(x), path, kind),
{
    let t = choose|t: int|
        0 <= t < rows.len() && (#[trigger] rows[t])@.path == path && rows[t]@.kind == kind;
    assert(rows.push(x)[t] == rows[t]);
}

impl Repository {
    /// Inserts a fresh pending registration row.
    pub fn create_pending_user(
        &mut self,
        username: Vec<u8>,
        email: Vec<u8>,
        code_hash: String,
        now: u64,
    ) -> (pu: PendingUser)
        requires
            old(self).wf(),
            old(self).next_id < u128::MAX,
            !has_pending_user_with_email(*old(self), email@),
            !has_pending_user_with_username(*old(self), username@),
        ensures
            final(self).wf(),
            final(self).pending_users@.len() == old(self).pending_users@.len() + 1,
            forall|t: int|
                0 <= t < old(self).pending_users@.len() ==> final(self).pending_users@[t] == old(
                    self,
                ).pending_users@[t],
            final(self).pending_users@.last()@ == pu@,
            pu@ == (crate::entities::PendingUserV {
                id: old(self).next_id,
                created_at: now,
                updated_at: now,
                username: username@,
                email: email@,
                failed_attempts: 0,
                code_hash: code_hash@,
            }),
            final(self).users@ == old(self).users@,
            final(self).sessions@ == old(self).sessions@,
            final(self).pending_sessions@ == old(self).pending_sessions@,
            final(self).namespaces@ == old(self).namespaces@,
            final(self).groups@ == old(self).groups@,
            final(self).invitations@ == old(self).invitations@,
            final(self).memberships@ == old(self).memberships@,
            final(self).next_id == old(self).next_id + 1,
    {
        let pu = PendingUser {
            id: self.next_id,
            created_at: now,
            updated_at: now,
            username,
            email,
            failed_attempts: 0,
            code_hash,
        };
        let stored = pu.duplicate();
        self.pending_users.push(stored);
        self.next_id = self.next_id + 1;
        pu
    }

    /// Overwrites a pending registration row in place; identity fields stay.
    pub fn set_pending_user(&mut self, i: usize, row: PendingUser)
        requires
            old(self).wf(),
            i < old(self).pending_users@.len(),
            row@.id == old(self).pending_users@[i as int]@.id,
            row@.email == old(self).pending_users@[i as int]@.email,
            row@.username == old(self).pending_users@[i as int]@.username,
        ensures
            final(self).wf(),
            final(self).pending_users@ == old(self).pending_users@.update(i as int, row),
            final(self).users@ == old(self).users@,
            final(self).sessions@ == old(self).sessions@,
            final(self).pending_sessions@ == old(self).pending_sessions@,
            final(self).namespaces@ == old(self).namespaces@,
            final(self).groups@ == old(self).groups@,
            final(self).invitations@ == old(self).invitations@,
            final(self).memberships@ == old(self).memberships@,
            final(self).next_id == old(self).next_id,
    {
        self.pending_users.set(i, row);
    }

    /// Removes the pending registration row at a known index.
    pub fn remove_pending_user_at(&mut self, i: usize)
        requires
            old(self).wf(),
            i < old(self).pending_users@.len(),
        ensures
            final(self).wf(),
            final(self).pending_users@ == old(self).pending_users@.remove(i as int),
            final(self).users@ == old(self).users@,
            final(self).sessions@ == old(self).sessions@,
            final(self).pending_sessions@ == old(self).pending_sessions@,
            final(self).namespaces@ == old(self).namespaces@,
            final(self).groups@ == old(self).groups@,
            final(self).invitations@ == old(self).invitations@,
            final(self).memberships@ == old(self).memberships@,
            final(self).next_id == old(self).next_id,
    {
        self.pending_users.remove(i);
    }

    /// Deletes the pending registration with the given id, as the repository
    /// interface promises; deleting an absent row is not an error.
    pub fn delete_pending_user(&mut self, pending_user_id: u128) -> (r: Result<(), Error>)
        requires
            old(self).wf(),
        ensures
            final(self).wf(),
            r is Ok,
            !has_pending_user_with_id(*final(self), pending_user_id),
            !has_pending_user_with_id(*old(self), pending_user_id) ==> final(self).pending_users@ == old(
                self,
            ).pending_users@,
            has_pending_user_with_id(*old(self), pending_user_id) ==> exists|t: int|
                0 <= t < old(self).pending_users@.len() && (#[trigger] old(
                    self,
                ).pending_users@[t])@.id == pending_user_id && final(self).pending_users@ == old(
                    self,
                ).pending_users@.remove(t),
            final(self).users@ == old(self).users@,
            final(self).sessions@ == old(self).sessions@,
            final(self).pending_sessions@ == old(self).pending_sessions@,
            final(self).namespaces@ == old(self).namespaces@,
            final(self).groups@ == old(self).groups@,
            final(self).invitations@ == old(self).invitations@,
            final(self).memberships@ == old(self).memberships@,
            final(self).next_id == old(self).next_id,
    {
        match self.find_pending_user_index_by_id(pending_user_id) {
            Some(i) => {
                self.remove_pending_user_at(i);
                proof {
                    let rows0 = old(self).pending_users@;
                    assert forall|t: int|
                        0 <= t < self.pending_users@.len() implies (
                    #[trigger] self.pending_users@[t])@.id != pending_user_id by {
                        if t < i as int {
                            assert(self.pending_users@[t] == rows0[t]);
                        } else {
                            assert(self.pending_users@[t] == rows0[t + 1]);
                        }
                    }
                }
                Ok(())
            },
            None => Ok(()),
        }
    }

    /// Activates an account: inserts the user row and claims its username as
    /// a user namespace, in one step.
    pub fn create_user(&mut self, email: Vec<u8>, username: Vec<u8>, now: u64) -> (u: User)
        requires
            old(self).wf(),
            old(self).next_id < u128::MAX - 1,
            !has_user_with_email(*old(self), email@),
            !has_user_with_username(*old(self), username@),
            !has_namespace_with_path(*old(self), username@),
        ensures
            final(self).wf(),
            final(self).users@.len() == old(self).users@.len() + 1,
            forall|t: int| 0 <= t < old(self).users@.len() ==> final(self).users@[t] == old(self).users@[t],
            final(self).users@.last()@ == u@,
            u@ == (crate::entities::UserV {
                id: old(self).next_id,
                created_at: now,
                updated_at: now,
                email: email@,
                username: username@,
                name: Seq::empty(),
                description: Seq::empty(),
                two_fa_enabled: false,
                encrypted_totp_secret: None,
                totp_secret_nonce: None,
                two_fa_method: None,
                last_totp_counter: None,
            }),
            final(self).namespaces@.len() == old(self).namespaces@.len() + 1,
            forall|t: int|
                0 <= t < old(self).namespaces@.len() ==> final(self).namespaces@[t] == old(
                    self,
                ).namespaces@[t],
            final(self).namespaces@.last()@.path == username@,
            final(self).namespaces@.last()@.kind == NamespaceType::User,
            final(self).pending_users@ == old(self).pending_users@,
            final(self).sessions@ == old(self).sessions@,
            final(self).pending_sessions@ == old(self).pending_sessions@,
            final(self).groups@ == old(self).groups@,
            final(self).invitations@ == old(self).invitations@,
            final(self).memberships@ == old(self).memberships@,
            final(self).next_id == old(self).next_id + 2,
    {
        let u = User {
            id: self.next_id,
            created_at: now,
            updated_at: now,
            email,
            username,
            name: Vec::new(),
            description: Vec::new(),
            two_fa_enabled: false,
            encrypted_totp_secret: None,
            totp_secret_nonce: None,
            two_fa_method: None,
            last_totp_counter: None,
        };
        let ns = Namespace {
            id: self.next_id + 1,
            created_at: now,
            updated_at: now,
            path: crate::text::clone_bytes(&u.username),
            kind: NamespaceType::User,
            parent_id: None,
        };
        let stored = u.duplicate();
        self.users.push(stored);
        self.namespaces.push(ns);
        self.next_id = self.next_id + 2;
        proof {
            let users1 = self.users@;
            let ns1 = self.namespaces@;
            let ns0 = old(self).namespaces@;
            assert(ns1.last()@.path == username@ && ns1.last()@.kind == NamespaceType::User);
            assert forall|i: int|
                0 <= i < users1.len() implies namespace_kind_in(
                ns1,
                (#[trigger] users1[i])@.username,
                NamespaceType::User,
            ) by {
                if i < old(self).users@.len() {
                    assert(users1[i] == old(self).users@[i]);
                    lemma_namespace_kind_in_push(
                        ns0,
                        self.namespaces@.last(),
                        users1[i]@.username,
                        NamespaceType::User,
                    );
                } else {
                    assert(ns1[ns1.len() - 1]@.path == users1[i]@.username);
                }
            }
            assert forall|i: int|
                0 <= i < self.groups@.len() implies namespace_kind_in(
                ns1,
                (#[trigger] self.groups@[i])@.path,
                NamespaceType::Group,
            ) by {
                lemma_namespace_kind_in_push(
                    ns0,
                    self.namespaces@.last(),
                    self.groups@[i]@.path,
                    NamespaceType::Group,
                );
            }
            assert forall|i: int|
                0 <= i < self.sessions@.len() implies user_id_in(
                users1,
                (#[trigger] self.sessions@[i])@.user_id,
            ) by {
                lemma_user_id_in_push(
                    old(self).users@,
                    users1.last(),
                    self.sessions@[i]@.user_id,
                );
            }
            assert forall|i: int|
                0 <= i < self.pending_sessions@.len() implies user_id_in(
                users1,
                (#[trigger] self.pending_sessions@[i])@.user_id,
            ) by {
                lemma_user_id_in_push(
                    old(self).users@,
                    users1.last(),
                    self.pending_sessions@[i]@.user_id,
                );
            }
        }
        u
    }

    /// Overwrites a user row in place; id, email and username stay.
    pub fn set_user(&mut self, i: usize, row: User)
        requires
            old(self).wf(),
            i < old(self).users@.len(),
            row@.wf(),
            row@.id == old(self).users@[i as int]@.id,
            row@.email == old(self).users@[i as int]@.email,
            row@.username == old(self).users@[i as int]@.username,
        ensures
            final(self).wf(),
            final(self).users@ == old(self).users@.update(i as int, row),
            final(self).pending_users@ == old(self).pending_users@,
            final(self).sessions@ == old(self).sessions@,
            final(self).pending_sessions@ == old(self).pending_sessions@,
            final(self).namespaces@ == old(self).namespaces@,
            final(self).groups@ == old(self).groups@,
            final(self).invitations@ == old(self).invitations@,
            final(self).memberships@ == old(self).memberships@,
            final(self).next_id == old(self).next_id,
    {
        self.users.set(i, row);
        proof {
            let users0 = old(self).users@;
            let users1 = self.users@;
            assert forall|t: int|
                0 <= t < users1.len() implies namespace_kind_in(
                self.namespaces@,
                (#[trigger] users1[t])@.username,
                NamespaceType::User,
            ) by {
                assert(users1[t]@.username == users0[t]@.username);
            }
            assert forall|t: int|
                0 <= t < self.sessions@.len() implies user_id_in(
                users1,
                (#[trigger] self.sessions@[t])@.user_id,
            ) by {
                lemma_user_id_in_update(users0, i as int, users1[i as int], self.sessions@[t]@.user_id);
            }
            assert forall|t: int|
                0 <= t < self.pending_sessions@.len() implies user_id_in(
                users1,
                (#[trigger] self.pending_sessions@[t])@.user_id,
            ) by {
                lemma_user_id_in_update(
                    users0,
                    i as int,
                    users1[i as int],
                    self.pending_sessions@[t]@.user_id,
                );
            }
        }
    }

    /// Inserts a fresh session row for an existing user.
    pub fn create_session(
        &mut self,
        user_id: u128,
        secret_hash: String,
        now: u64,
        expires_at: u64,
    ) -> (s: Session)
        requires
            old(self).wf(),
            old(self).next_id < u128::MAX,
            has_user_with_id(*old(self), user_id),
        ensures
            final(self).wf(),
            final(self).sessions@.len() == old(self).sessions@.len() + 1,
            forall|t: int|
                0 <= t < old(self).sessions@.len() ==> final(self).sessions@[t] == old(self).sessions@[t],
            final(self).sessions@.last()@ == s@,
            s@ == (crate::entities::SessionV {
                id: old(self).next_id,
                created_at: now,
                expires_at: expires_at,
                user_id: user_id,
                secret_hash: secret_hash@,
            }),
            final(self).users@ == old(self).users@,
            final(self).pending_users@ == old(self).pending_users@,
            final(self).pending_sessions@ == old(self).pending_sessions@,
            final(self).namespaces@ == old(self).namespaces@,
            final(self).groups@ == old(self).groups@,
            final(self).invitations@ == old(self).invitations@,
            final(self).memberships@ == old(self).memberships@,
            final(self).next_id == old(self).next_id + 1,
    {
        let s = Session { id: self.next_id, created_at: now, expires_at, user_id, secret_hash };
        let stored = s.duplicate();
        self.sessions.push(stored);
        self.next_id = self.next_id + 1;
        s
    }

    /// Removes the session row at a known index.
    pub fn remove_session_at(&mut self, i: usize)
        requires
            old(self).wf(),
            i < old(self).sessions@.len(),
        ensures
            final(self).wf(),
            final(self).sessions@ == old(self).sessions@.remove(i as int),
            final(self).users@ == old(self).users@,
            final(self).pending_users@ == old(self).pending_users@,
            final(self).pending_sessions@ == old(self).pending_sessions@,
            final(self).namespaces@ == old(self).namespaces@,
            final(self).groups@ == old(self).groups@,
            final(self).invitations@ == old(self).invitations@,
            final(self).memberships@ == old(self).memberships@,
            final(self).next_id == old(self).next_id,
    {
        self.sessions.remove(i);
    }

    /// Inserts a fresh pending sign-in row for an existing user.
    pub fn create_pending_session(&mut self, user_id: u128, code_hash: String, now: u64) -> (ps:
        PendingSession)
        requires
            old(self).wf(),
            old(self).next_id < u128::MAX,
            has_user_with_id(*old(self), user_id),
        ensures
            final(self).wf(),
            final(self).pending_sessions@.len() == old(self).pending_sessions@.len() + 1,
            forall|t: int|
                0 <= t < old(self).pending_sessions@.len() ==> final(self).pending_sessions@[t] == old(
                    self,
                ).pending_sessions@[t],
            final(self).pending_sessions@.last()@ == ps@,
            ps@ == (crate::entities::PendingSessionV {
                id: old(self).next_id,
                created_at: now,
                user_id: user_id,
                code_hash: code_hash@,
                failed_attempts: 0,
                code_verified: false,
            }),
            final(self).users@ == old(self).users@,
            final(self).pending_users@ == old(self).pending_users@,
            final(self).sessions@ == old(self).sessions@,
            final(self).namespaces@ == old(self).namespaces@,
            final(self).groups@ == old(self).groups@,
            final(self).invitations@ == old(self).invitations@,
            final(self).memberships@ == old(self).memberships@,
            final(self).next_id == old(self).next_id + 1,
    {
        let ps = PendingSession {
            id: self.next_id,
            created_at: now,
            user_id,
            code_hash,
            failed_attempts: 0,
            code_verified: false,
        };
        let stored = ps.duplicate();
        self.pending_sessions.push(stored);
        self.next_id = self.next_id + 1;
        ps
    }

    /// Overwrites a pending sign-in row in place; id and user stay.
    pub fn set_pending_session(&mut self, i: usize, row: PendingSession)
        requires
            old(self).wf(),
            i < old(self).pending_sessions@.len(),
            row@.id == old(self).pending_sessions@[i as int]@.id,
            row@.user_id == old(self).pending_sessions@[i as int]@.user_id,
        ensures
            final(self).wf(),
            final(self).pending_sessions@ == old(self).pending_sessions@.update(i as int, row),
            final(self).users@ == old(self).users@,
            final(self).pending_users@ == old(self).pending_users@,
            final(self).sessions@ == old(self).sessions@,
            final(self).namespaces@ == old(self).namespaces@,
            final(self).groups@ == old(self).groups@,
            final(self).invitations@ == old(self).invitations@,
            final(self).memberships@ == old(self).memberships@,
            final(self).next_id == old(self).next_id,
    {
        self.pending_sessions.set(i, row);
    }

    /// Removes the pending sign-in row at a known index.
    pub fn remove_pending_session_at(&mut self, i: usize)
        requires
            old(self).wf(),
            i < old(self).pending_sessions@.len(),
        ensures
            final(self).wf(),
            final(self).pending_sessions@ == old(self).pending_sessions@.remove(i as int),
            final(self).users@ == old(self).users@,
            final(self).pending_users@ == old(self).pending_users@,
            final(self).sessions@ == old(self).sessions@,
            final(self).namespaces@ == old(self).namespaces@,
            final(self).groups@ == old(self).groups@,
            final(self).invitations@ == old(self).invitations@,
            final(self).memberships@ == old(self).memberships@,
            final(self).next_id == old(self).next_id,
    {
        self.pending_sessions.remove(i);
    }

    /// Claims a path, as the repository interface promises: the storage
    /// layer is the authoritative guard of path uniqueness.
    pub fn create_namespace(
        &mut self,
        path: Vec<u8>,
        kind: NamespaceType,
        parent_id: Option<u128>,
        now: u64,
    ) -> (r: Result<Namespace, Error>)
        requires
            old(self).wf(),
            old(self).next_id < u128::MAX,
        ensures
            final(self).wf(),
            r is Ok <==> !has_namespace_with_path(*old(self), path@),
            r matches Ok(ns) ==> {
                &&& final(self).namespaces@.len() == old(self).namespaces@.len() + 1
                &&& forall|t: int|
                    0 <= t < old(self).namespaces@.len() ==> final(self).namespaces@[t] == old(
                        self,
                    ).namespaces@[t]
                &&& final(self).namespaces@.last()@ == ns@
                &&& ns@ == (crate::entities::NamespaceV {
                    id: old(self).next_id,
                    created_at: now,
                    updated_at: now,
                    path: path@,
                    kind: kind,
                    parent_id: parent_id,
                })
                &&& final(self).next_id == old(self).next_id + 1
            },
            r is Err ==> (r matches Err(Error::NamespaceAlreadyExists)) && *final(self) == *old(self),
            final(self).users@ == old(self).users@,
            final(self).pending_users@ == old(self).pending_users@,
            final(self).sessions@ == old(self).sessions@,
            final(self).pending_sessions@ == old(self).pending_sessions@,
            final(self).groups@ == old(self).groups@,
            final(self).invitations@ == old(self).invitations@,
            final(self).memberships@ == old(self).memberships@,
    {
        match self.find_namespace_index_by_path(path.as_slice()) {
            Some(_) => Err(Error::NamespaceAlreadyExists),
            None => {
                let ns = Namespace {
                    id: self.next_id,
                    created_at: now,
                    updated_at: now,
                    path,
                    kind,
                    parent_id,
                };
                let out = ns.duplicate();
                self.namespaces.push(ns);
                self.next_id = self.next_id + 1;
                proof {
                    let ns0 = old(self).namespaces@;
                    let ns1 = self.namespaces@;
                    assert forall|i: int|
                        0 <= i < self.users@.len() implies namespace_kind_in(
                        ns1,
                        (#[trigger] self.users@[i])@.username,
                        NamespaceType::User,
                    ) by {
                        lemma_namespace_kind_in_push(
                            ns0,
                            ns1.last(),
                            self.users@[i]@.username,
                            NamespaceType::User,
                        );
                    }
                    assert forall|i: int|
                        0 <= i < self.groups@.len() implies namespace_kind_in(
                        ns1,
                        (#[trigger] self.groups@[i])@.path,
                        NamespaceType::Group,
                    ) by {
                        lemma_namespace_kind_in_push(
                            ns0,
                            ns1.last(),
                            self.groups@[i]@.path,
                            NamespaceType::Group,
                        );
                    }
                }
                Ok(out)
            },
        }
    }

    /// Creates a group: inserts the group row, claims its path as a group
    /// namespace, and makes the creator an administrator member, in one step.
    pub fn create_group(
        &mut self,
        name: Vec<u8>,
        path: Vec<u8>,
        description: Vec<u8>,
        creator_id: u128,
        now: u64,
    ) -> (g: Group)
        requires
            old(self).wf(),
            old(self).next_id < u128::MAX - 1,
            has_user_with_id(*old(self), creator_id),
            !has_namespace_with_path(*old(self), path@),
        ensures
            final(self).wf(),
            final(self).groups@.len() == old(self).groups@.len() + 1,
            forall|t: int|
                0 <= t < old(self).groups@.len() ==> final(self).groups@[t] == old(self).groups@[t],
            final(self).groups@.last()@ == g@,
            g@ == (crate::entities::GroupV {
                id: old(self).next_id,
                created_at: now,
                updated_at: now,
                name: name@,
                path: path@,
                description: description@,
            }),
            final(self).namespaces@.len() == old(self).namespaces@.len() + 1,
            forall|t: int|
                0 <= t < old(self).namespaces@.len() ==> final(self).namespaces@[t] == old(
                    self,
                ).namespaces@[t],
            final(self).namespaces@.last()@.path == path@,
            final(self).namespaces@.last()@.kind == NamespaceType::Group,
            final(self).memberships@ == old(self).memberships@.push(
                GroupMembership {
                    group_id: old(self).next_id,
                    user_id: creator_id,
                    role: crate::entities::GroupRole::Administrator,
                },
            ),
            final(self).users@ == old(self).users@,
            final(self).pending_users@ == old(self).pending_users@,
            final(self).sessions@ == old(self).sessions@,
            final(self).pending_sessions@ == old(self).pending_sessions@,
            final(self).invitations@ == old(self).invitations@,
            final(self).next_id == old(self).next_id + 2,
    {
        let g = Group {
            id: self.next_id,
            created_at: now,
            updated_at: now,
            name,
            path,
            description,
        };
        let ns = Namespace {
            id: self.next_id + 1,
            created_at: now,
            updated_at: now,
            path: crate::text::clone_bytes(&g.path),
            kind: NamespaceType::Group,
            parent_id: None,
        };
        let m = GroupMembership {
            group_id: self.next_id,
            user_id: creator_id,
            role: crate::entities::GroupRole::Administrator,
        };
        let stored = g.duplicate();
        self.groups.push(stored);
        self.namespaces.push(ns);
        self.memberships.push(m);
        self.next_id = self.next_id + 2;
        proof {
            let ns0 = old(self).namespaces@;
            let ns1 = self.namespaces@;
            let groups1 = self.groups@;
            assert(ns1.last()@.path == g@.path && ns1.last()@.kind == NamespaceType::Group);
            assert forall|i: int|
                0 <= i < self.users@.len() implies namespace_kind_in(
                ns1,
                (#[trigger] self.users@[i])@.username,
                NamespaceType::User,
            ) by {
                lemma_namespace_kind_in_push(
                    ns0,
                    ns1.last(),
                    self.users@[i]@.username,
                    NamespaceType::User,
                );
            }
            assert forall|i: int|
                0 <= i < groups1.len() implies namespace_kind_in(
                ns1,
                (#[trigger] groups1[i])@.path,
                NamespaceType::Group,
            ) by {
                if i < old(self).groups@.len() {
                    assert(groups1[i] == old(self).groups@[i]);
                    lemma_namespace_kind_in_push(
                        ns0,
                        ns1.last(),
                        groups1[i]@.path,
                        NamespaceType::Group,
                    );
                } else {
                    assert(ns1[ns1.len() - 1]@.path == groups1[i]@.path);
                }
            }
            assert forall|i: int, j: int|
                0 <= i < j < self.memberships@.len() implies !((
            #[trigger] self.memberships@[i]).group_id == (#[trigger] self.memberships@[j]).group_id
                && self.memberships@[i].user_id == self.memberships@[j].user_id) by {
                if j == self.memberships@.len() - 1 {
                    assert(self.memberships@[i] == old(self).memberships@[i]);
                    assert(self.memberships@[i].group_id < old(self).next_id);
                }
            }
        }
        g
    }

    /// Inserts a fresh invitation row.
    pub fn create_invitation(
        &mut self,
        group_id: u128,
        invitee_id: u128,
        inviter_id: u128,
        now: u64,
    ) -> (inv: GroupInvitation)
        requires
            old(self).wf(),
            old(self).next_id < u128::MAX,
            has_group_with_id(*old(self), group_id),
            has_user_with_id(*old(self), invitee_id),
            has_user_with_id(*old(self), inviter_id),
            !has_invitation_for(*old(self), group_id, invitee_id),
        ensures
            final(self).wf(),
            final(self).invitations@ == old(self).invitations@.push(inv),
            inv == (GroupInvitation {
                id: old(self).next_id,
                created_at: now,
                updated_at: now,
                group_id: group_id,
                invitee_id: invitee_id,
                inviter_id: inviter_id,
            }),
            final(self).users@ == old(self).users@,
            final(self).pending_users@ == old(self).pending_users@,
            final(self).sessions@ == old(self).sessions@,
            final(self).pending_sessions@ == old(self).pending_sessions@,
            final(self).namespaces@ == old(self).namespaces@,
            final(self).groups@ == old(self).groups@,
            final(self).memberships@ == old(self).memberships@,
            final(self).next_id == old(self).next_id + 1,
    {
        proof {
            let g = choose|t: int|
                0 <= t < old(self).groups@.len() && (#[trigger] old(self).groups@[t])@.id
                    == group_id;
            let a = choose|t: int|
                0 <= t < old(self).users@.len() && (#[trigger] old(self).users@[t])@.id
                    == invitee_id;
            let b = choose|t: int|
                0 <= t < old(self).users@.len() && (#[trigger] old(self).users@[t])@.id
                    == inviter_id;
        }
        let inv = GroupInvitation {
            id: self.next_id,
            created_at: now,
            updated_at: now,
            group_id,
            invitee_id,
            inviter_id,
        };
        self.invitations.push(inv);
        self.next_id = self.next_id + 1;
        inv
    }

    /// Removes the invitation row at a known index.
    pub fn remove_invitation_at(&mut self, i: usize)
        requires
            old(self).wf(),
            i < old(self).invitations@.len(),
        ensures
            final(self).wf(),
            final(self).invitations@ == old(self).invitations@.remove(i as int),
            final(self).users@ == old(self).users@,
            final(self).pending_users@ == old(self).pending_users@,
            final(self).sessions@ == old(self).sessions@,
            final(self).pending_sessions@ == old(self).pending_sessions@,
            final(self).namespaces@ == old(self).namespaces@,
            final(self).groups@ == old(self).groups@,
            final(self).memberships@ == old(self).memberships@,
            final(self).next_id == old(self).next_id,
    {
        self.invitations.remove(i);
    }

    /// Inserts a membership row.
    pub fn create_membership(
        &mut self,
        group_id: u128,
        user_id: u128,
        role: crate::entities::GroupRole,
    )
        requires
            old(self).wf(),
            has_group_with_id(*old(self), group_id),
            has_user_with_id(*old(self), user_id),
            !has_membership(*old(self), group_id, user_id),
        ensures
            final(self).wf(),
            final(self).memberships@ == old(self).memberships@.push(
                GroupMembership { group_id: group_id, user_id: user_id, role: role },
            ),
            final(self).users@ == old(self).users@,
            final(self).pending_users@ == old(self).pending_users@,
            final(self).sessions@ == old(self).sessions@,
            final(self).pending_sessions@ == old(self).pending_sessions@,
            final(self).namespaces@ == old(self).namespaces@,
            final(self).groups@ == old(self).groups@,
            final(self).invitations@ == old(self).invitations@,
            final(self).next_id == old(self).next_id,
    {
        proof {
            let g = choose|t: int|
                0 <= t < old(self).groups@.len() && (#[trigger] old(self).groups@[t])@.id
                    == group_id;
            let a = choose|t: int|
                0 <= t < old(self).users@.len() && (#[trigger] old(self).users@[t])@.id == user_id;
        }
        let m = GroupMembership { group_id, user_id, role };
        self.memberships.push(m);
    }

    /// Removes the membership row at a known index.
    pub fn remove_membership_at(&mut self, i: usize)
        requires
            old(self).wf(),
            i < old(self).memberships@.len(),
        ensures
            final(self).wf(),
            final(self).memberships@ == old(self).memberships@.remove(i as int),
            final(self).users@ == old(self).users@,
            final(self).pending_users@ == old(self).pending_users@,
            final(self).sessions@ == old(self).sessions@,
            final(self).pending_sessions@ == old(self).pending_sessions@,
            final(self).namespaces@ == old(self).namespaces@,
            final(self).groups@ == old(self).groups@,
            final(self).invitations@ == old(self).invitations@,
            final(self).next_id == old(self).next_id,
    {
        self.memberships.remove(i);
    }
}

} // verus!
