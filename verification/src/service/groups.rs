//! The group-invitation workflow: creating a group (its path shares the
//! one namespace with usernames), inviting, accepting, declining,
//! cancelling, removing a member and quitting. Accepting is atomic: either
//! the membership appears and the invitation disappears, or nothing
//! changes.

use vstd::prelude::*;

use crate::entities::Group;
use crate::entities::GroupInvitation;
use crate::entities::GroupMembership;
use crate::entities::GroupRole;
use crate::entities::User;
use crate::errors::Error;
use crate::repository::has_invitation_with_id;
use crate::repository::has_membership;
use crate::repository::has_namespace_with_path;
use crate::repository::has_user_with_id;
use crate::repository::has_user_with_username;
use crate::repository::invitation_for_in;
use crate::repository::is_group_admin;
use crate::repository::user_username_in;
use crate::repository::Repository;
use crate::service::validators::name_error;
use crate::service::validators::namespace_error;
use crate::service::AcceptGroupInvitationInput;
use crate::service::CancelGroupInvitationInput;
use crate::service::CreateGroupInput;
use crate::service::DeclineGroupInvitationInput;
use crate::service::InvitePeopleInGroupInput;
use crate::service::Message;
use crate::service::QuitGroupInput;
use crate::service::RemoveMemberFromGroupInput;
use crate::service::Service;
use crate::text::clone_bytes;
use crate::text::normalize_bytes;

verus! {

/// An earlier entry of the same invitation round already invited this user
/// into this group.
pub open spec fn earlier_ok_invitee(
    prior: Seq<Result<(GroupInvitation, Message), Error>>,
    group_id: u128,
    uid: u128,
) -> bool {
    exists|jj: int|
        0 <= jj < prior.len() && ((#[trigger] prior[jj]) matches Ok(p) && p.0.group_id
            == group_id && p.0.invitee_id == uid)
}

/// How many entries of an invitation round succeeded.
pub open spec fn count_ok(results: Seq<Result<(GroupInvitation, Message), Error>>) -> nat
    decreases results.len(),
{
    if results.len() == 0 {
        0
    } else {
        count_ok(results.drop_last()) + if results.last() is Ok {
            1nat
        } else {
            0nat
        }
    }
}

/// The exact outcome owed to one resolved invitee, against the given
/// membership and invitation tables: self-invites, members, standing
/// invitations and a missing group are refused in this order; otherwise the
/// invitation and its notification are owed, pinned to the invitee.
pub open spec fn invite_outcome(
    memberships: Seq<GroupMembership>,
    invitations: Seq<GroupInvitation>,
    group_id: u128,
    actor_id: u128,
    group_has: bool,
    u: crate::entities::UserV,
    r: Result<(GroupInvitation, Message), Error>,
) -> bool {
    if u.id == actor_id {
        r matches Err(Error::PermissionDenied)
    } else if crate::repository::membership_in(memberships, group_id, u.id) {
        r matches Err(Error::AlreadyAMember)
    } else if crate::repository::invitation_for_in(invitations, group_id, u.id) {
        r matches Err(Error::AlreadyInvited)
    } else if !group_has {
        r matches Err(Error::GroupNotFound)
    } else {
        r matches Ok(p) && p.0.group_id == group_id && p.0.invitee_id == u.id && p.0.inviter_id
            == actor_id && (p.1 matches Message::SendGroupInvitationEmail { email } && email@
            == u.email)
    }
}

/// The exact outcome owed to one username of an invitation round, given
/// the entries already produced (`prior`): an unknown username is refused,
/// and a username invited by an earlier entry of the same round counts as
/// already invited.
pub open spec fn invite_entry_post(
    old_repo: Repository,
    group_id: u128,
    actor_id: u128,
    prior: Seq<Result<(GroupInvitation, Message), Error>>,
    entry: Result<(GroupInvitation, Message), Error>,
    identity: Seq<u8>,
) -> bool {
    if !user_username_in(old_repo.users@, identity) {
        entry matches Err(Error::UserNotFound)
    } else {
        exists|w: int|
            0 <= w < old_repo.users@.len() && (#[trigger] old_repo.users@[w])@.username == identity
                && {
                let u = old_repo.users@[w]@;
                if u.id == actor_id {
                    entry matches Err(Error::PermissionDenied)
                } else if crate::repository::membership_in(old_repo.memberships@, group_id, u.id) {
                    entry matches Err(Error::AlreadyAMember)
                } else if crate::repository::invitation_for_in(old_repo.invitations@, group_id, u.id)
                    || earlier_ok_invitee(prior, group_id, u.id) {
                    entry matches Err(Error::AlreadyInvited)
                } else if !crate::repository::has_group_with_id(old_repo, group_id) {
                    entry matches Err(Error::GroupNotFound)
                } else {
                    entry matches Ok(p) && p.0.group_id == group_id && p.0.invitee_id == u.id
                        && p.0.inviter_id == actor_id && (p.1
                        matches Message::SendGroupInvitationEmail { email } && email@ == u.email)
                }
            }
    }
}

impl Service {
    /// Creates a group: validates name, path and description, claims the
    /// normalized path in the shared namespace, and makes the creator an
    /// administrator member — one atomic step.
    pub fn create_group(
        &self,
        repo: &mut Repository,
        actor: Option<User>,
        input: CreateGroupInput,
        now: u64,
    ) -> (r: Result<Group, Error>)
        requires
            old(repo).wf(),
            old(repo).next_id < u128::MAX - 1,
        ensures
            final(repo).wf(),
            old(repo).next_id <= final(repo).next_id <= old(repo).next_id + 2,
            r is Err ==> *final(repo) == *old(repo),
            actor is None ==> r matches Err(Error::Unauthenticated),
            actor matches Some(a) ==> !has_user_with_id(*old(repo), a@.id) ==> r matches Err(
                Error::UserNotFound,
            ),
            actor matches Some(a) ==> has_user_with_id(*old(repo), a@.id) ==> {
                let path = crate::service::register::normal_of(input.path@);
                if name_error(
                    input.name@,
                    vstd::utf8::encode_utf8(input.name@).len(),
                    crate::consts::GROUP_NAME_MIN_LENGTH as nat,
                    crate::consts::GROUP_NAME_MAX_LENGTH as nat,
                    Error::GroupNameIsTooLong,
                    Error::GroupNameIsTooShort,
                    Error::InvalidGroupName,
                ) is Some {
                    Some(r->Err_0) == name_error(
                        input.name@,
                        vstd::utf8::encode_utf8(input.name@).len(),
                        crate::consts::GROUP_NAME_MIN_LENGTH as nat,
                        crate::consts::GROUP_NAME_MAX_LENGTH as nat,
                        Error::GroupNameIsTooLong,
                        Error::GroupNameIsTooShort,
                        Error::InvalidGroupName,
                    ) && r is Err
                } else if namespace_error(*self, path) is Some {
                    Some(r->Err_0) == namespace_error(*self, path) && r is Err
                } else if vstd::utf8::encode_utf8(input.description@).len()
                    > crate::consts::GROUP_DESCRIPTION_MAX_LENGTH {
                    r matches Err(Error::GroupDescriptionIsTooLong)
                } else if has_namespace_with_path(*old(repo), path) {
                    r matches Err(Error::NamespaceAlreadyExists)
                } else {
                    &&& r matches Ok(g) && g@.path == path && g@.name == vstd::utf8::encode_utf8(input.name@)
                        && g@.id == old(repo).next_id && g@.created_at == now
                    &&& final(repo).groups@.len() == old(repo).groups@.len() + 1
                    &&& (r matches Ok(g) ==> final(repo).groups@.last()@ == g@)
                    &&& final(repo).namespaces@.last()@.path == path
                    &&& final(repo).namespaces@.last()@.kind
                        == crate::entities::NamespaceType::Group
                    &&& final(repo).memberships@ == old(repo).memberships@.push(
                        GroupMembership {
                            group_id: old(repo).next_id,
                            user_id: a@.id,
                            role: GroupRole::Administrator,
                        },
                    )
                    &&& final(repo).users@ == old(repo).users@
                    &&& final(repo).sessions@ == old(repo).sessions@
                    &&& final(repo).pending_users@ == old(repo).pending_users@
                    &&& final(repo).pending_sessions@ == old(repo).pending_sessions@
                    &&& final(repo).invitations@ == old(repo).invitations@
                }
            },
    {
        let a = match self.current_user(actor) {
            Ok(a) => a,
            Err(e) => {
                return Err(e);
            },
        };
        if repo.find_user_index_by_id(a.id).is_none() {
            return Err(Error::UserNotFound);
        }
        match self.validate_group_name(input.name.as_str()) {
            Ok(()) => (),
            Err(e) => {
                return Err(e);
            },
        }
        let path = normalize_bytes(input.path.as_str().as_bytes());
        match self.validate_namespace_bytes(path.as_slice()) {
            Ok(()) => (),
            Err(e) => {
                return Err(e);
            },
        }
        match self.validate_group_description(input.description.as_str()) {
            Ok(()) => (),
            Err(e) => {
                return Err(e);
            },
        }
        if self.check_namespace_exists(repo, path.as_slice()) {
            return Err(Error::NamespaceAlreadyExists);
        }
        let name = input.name.as_str().as_bytes_vec();
        let description = input.description.as_str().as_bytes_vec();
        let g = repo.create_group(name, path, description, a.id, now);
        Ok(g)
    }

    /// Invites each named user into the group. The actor must be a member;
    /// per-username failures (unknown user, self-invite, already a member,
    /// already invited, group gone) are collected in the result, never
    /// fatal to the whole call. Each success carries its invitation and its
    /// notification job.
    pub fn invite_people_in_group(
        &self,
        repo: &mut Repository,
        actor: Option<User>,
        input: InvitePeopleInGroupInput,
        now: u64,
    ) -> (r: Result<Vec<Result<(GroupInvitation, Message), Error>>, Error>)
        requires
            old(repo).wf(),
            old(repo).next_id + input.usernames@.len() < u128::MAX,
        ensures
            final(repo).wf(),
            old(repo).next_id <= final(repo).next_id <= old(repo).next_id
                + input.usernames@.len(),
            r is Err ==> *final(repo) == *old(repo),
            actor is None ==> r matches Err(Error::Unauthenticated),
            actor matches Some(a) ==> !has_user_with_id(*old(repo), a@.id) ==> r matches Err(
                Error::UserNotFound,
            ),
            actor matches Some(a) ==> has_user_with_id(*old(repo), a@.id) && !has_membership(
                *old(repo),
                input.group_id,
                a@.id,
            ) ==> r matches Err(Error::PermissionDenied),
            actor matches Some(a) ==> has_user_with_id(*old(repo), a@.id) && has_membership(
                *old(repo),
                input.group_id,
                a@.id,
            ) ==> r is Ok,
            actor matches Some(a) ==> r matches Ok(results) ==> {
                &&& results@.len() == input.usernames@.len()
                &&& forall|k: int|
                    0 <= k < results@.len() ==> #[trigger] invite_entry_post(
                        *old(repo),
                        input.group_id,
                        a@.id,
                        results@.subrange(0, k),
                        results@[k],
                        crate::service::register::normal_of(input.usernames@[k]@),
                    )
                &&& forall|k: int|
                    0 <= k < results@.len() ==> ((#[trigger] results@[k]) matches Ok(p)
                        ==> final(repo).invitations@.contains(p.0))
                &&& forall|q: int|
                    0 <= q < old(repo).invitations@.len() ==> final(repo).invitations@[q] == old(
                        repo,
                    ).invitations@[q]
                &&& final(repo).invitations@.len() == old(repo).invitations@.len() + count_ok(
                    results@,
                )
                &&& final(repo).users@ == old(repo).users@
                &&& final(repo).sessions@ == old(repo).sessions@
                &&& final(repo).memberships@ == old(repo).memberships@
                &&& final(repo).groups@ == old(repo).groups@
                &&& final(repo).pending_users@ == old(repo).pending_users@
                &&& final(repo).pending_sessions@ == old(repo).pending_sessions@
                &&& final(repo).namespaces@ == old(repo).namespaces@
            },
    {
        let a = match self.current_user(actor) {
            Ok(a) => a,
            Err(e) => {
                return Err(e);
            },
        };
        if repo.find_user_index_by_id(a.id).is_none() {
            return Err(Error::UserNotFound);
        }
        if repo.find_membership_index(input.group_id, a.id).is_none() {
            return Err(Error::PermissionDenied);
        }
        let group_exists = repo.find_group_index_by_id(input.group_id).is_some();
        let mut results: Vec<Result<(GroupInvitation, Message), Error>> = Vec::new();
        let n = input.usernames.len();
        let mut j: usize = 0;
        while j < n
            invariant
                0 <= j <= n,
                n == input.usernames@.len(),
                repo.wf(),
                old(repo).next_id + n < u128::MAX,
                old(repo).next_id <= repo.next_id <= old(repo).next_id + j,
                results@.len() == j,
                group_exists == crate::repository::has_group_with_id(*repo, input.group_id),
                has_user_with_id(*repo, a@.id),
                forall|k: int|
                    0 <= k < j ==> #[trigger] invite_entry_post(
                        *old(repo),
                        input.group_id,
                        a@.id,
                        results@.subrange(0, k),
                        results@[k],
                        crate::service::register::normal_of(input.usernames@[k]@),
                    ),
                forall|k: int|
                    0 <= k < j ==> ((#[trigger] results@[k]) matches Ok(p)
                        ==> repo.invitations@.contains(p.0)),
                forall|q: int|
                    0 <= q < old(repo).invitations@.len() ==> repo.invitations@[q] == old(
                        repo,
                    ).invitations@[q],
                old(repo).invitations@.len() <= repo.invitations@.len(),
                repo.invitations@.len() == old(repo).invitations@.len() + count_ok(results@),
                forall|uid: u128|
                    #[trigger] invitation_for_in(repo.invitations@, input.group_id, uid) <==> (
                    invitation_for_in(old(repo).invitations@, input.group_id, uid)
                        || earlier_ok_invitee(results@, input.group_id, uid)),
                repo.users@ == old(repo).users@,
                repo.sessions@ == old(repo).sessions@,
                repo.memberships@ == old(repo).memberships@,
                repo.groups@ == old(repo).groups@,
                repo.pending_users@ == old(repo).pending_users@,
                repo.pending_sessions@ == old(repo).pending_sessions@,
                repo.namespaces@ == old(repo).namespaces@,
            decreases n - j,
    {
            let ghost invitations_before = repo.invitations@;
            let ghost results_before = results@;
            let outcome = self.invite_one(
                repo,
                a.id,
                input.group_id,
                group_exists,
                &input.usernames[j],
                now,
            );
            let ghost out_g = outcome;
            results.push(outcome);
            proof {
                let g = input.group_id;
                let aid = a@.id;
                let idj = crate::service::register::normal_of(input.usernames@[j as int]@);
                // entries already settled keep their postconditions: their
                // prefixes and values are untouched by the push
                assert forall|k: int|
                    0 <= k < j implies #[trigger] invite_entry_post(
                    *old(repo),
                    g,
                    aid,
                    results@.subrange(0, k),
                    results@[k],
                    crate::service::register::normal_of(input.usernames@[k]@),
                ) by {
                    assert(results@.subrange(0, k) =~= results_before.subrange(0, k));
                    assert(results@[k] == results_before[k]);
                }
                // rows created by earlier entries are still present
                assert forall|k: int|
                    0 <= k < j implies ((#[trigger] results@[k]) matches Ok(p)
                        ==> repo.invitations@.contains(p.0)) by {
                    if results@[k] is Ok && invitations_before.contains(results@[k]->Ok_0.0) {
                        let inv0 = results@[k]->Ok_0.0;
                        let x = choose|x: int|
                            0 <= x < invitations_before.len() && invitations_before[x] == inv0;
                        assert(repo.invitations@[x] == inv0);
                    }
                }
                if out_g is Ok {
                    assert(repo.invitations@[repo.invitations@.len() - 1] == out_g->Ok_0.0);
                    assert(repo.invitations@.contains(out_g->Ok_0.0));
                }
                // the table grew by exactly the successful entries
                assert(results@.drop_last() =~= results_before);
                assert(count_ok(results@) == count_ok(results_before) + if out_g is Ok {
                    1nat
                } else {
                    0nat
                });
                // the standing-invitation bridge after this entry
                assert forall|uid: u128|
                    #[trigger] invitation_for_in(repo.invitations@, g, uid) <==> (
                    invitation_for_in(old(repo).invitations@, g, uid) || earlier_ok_invitee(
                        results@,
                        g,
                        uid,
                    )) by {
                    if invitation_for_in(repo.invitations@, g, uid) {
                        let x = choose|x: int|
                            0 <= x < repo.invitations@.len() && (#[trigger] repo.invitations@[x]).group_id
                                == g && repo.invitations@[x].invitee_id == uid;
                        if x < invitations_before.len() {
                            assert(invitations_before[x] == repo.invitations@[x]);
                            assert(invitation_for_in(invitations_before, g, uid));
                            if earlier_ok_invitee(results_before, g, uid) {
                                let k0 = choose|k0: int|
                                    0 <= k0 < results_before.len() && ((
                                    #[trigger] results_before[k0]) matches Ok(p) && p.0.group_id
                                        == g && p.0.invitee_id == uid);
                                assert(results@[k0] == results_before[k0]);
                            }
                        } else {
                            assert(out_g is Ok && out_g->Ok_0.0 == repo.invitations@[x]);
                            assert(results@[j as int] == out_g);
                        }
                    }
                    if invitation_for_in(old(repo).invitations@, g, uid) {
                        assert(invitation_for_in(invitations_before, g, uid));
                        let x = choose|x: int|
                            0 <= x < invitations_before.len() && (
                            #[trigger] invitations_before[x]).group_id == g
                                && invitations_before[x].invitee_id == uid;
                        assert(repo.invitations@[x] == invitations_before[x]);
                    }
                    if earlier_ok_invitee(results@, g, uid) {
                        let k0 = choose|k0: int|
                            0 <= k0 < results@.len() && ((#[trigger] results@[k0]) matches Ok(
                                p,
                            ) && p.0.group_id == g && p.0.invitee_id == uid);
                        if k0 < j as int {
                            assert(results_before[k0] == results@[k0]);
                            assert(earlier_ok_invitee(results_before, g, uid));
                            assert(invitation_for_in(invitations_before, g, uid));
                            let x = choose|x: int|
                                0 <= x < invitations_before.len() && (
                                #[trigger] invitations_before[x]).group_id == g
                                    && invitations_before[x].invitee_id == uid;
                            assert(repo.invitations@[x] == invitations_before[x]);
                        } else {
                            assert(out_g->Ok_0.0 == repo.invitations@[repo.invitations@.len() - 1]);
                        }
                    }
                }
                // the new entry meets its own postcondition
                assert(results@.subrange(0, j as int) =~= results_before);
                assert(results@[j as int] == out_g);
                if user_username_in(old(repo).users@, idj) {
                    let w = choose|w: int|
                        0 <= w < old(repo).users@.len() && (#[trigger] old(repo).users@[w])@.username
                            == idj && invite_outcome(
                            old(repo).memberships@,
                            invitations_before,
                            g,
                            aid,
                            group_exists,
                            old(repo).users@[w]@,
                            out_g,
                        );
                    let u = old(repo).users@[w]@;
                    if u.id != aid && !crate::repository::membership_in(
                        old(repo).memberships@,
                        g,
                        u.id,
                    ) {
                        assert(invitation_for_in(invitations_before, g, u.id) <==> (
                        invitation_for_in(old(repo).invitations@, g, u.id) || earlier_ok_invitee(
                            results_before,
                            g,
                            u.id,
                        )));
                    }
                    assert(invite_entry_post(*old(repo), g, aid, results_before, out_g, idj));
                }
            }
            j = j + 1;
        }
        Ok(results)
    }

    /// One username of an invitation round: resolve, reject self-invites,
    /// members and duplicates, create the invitation and its notification.
    /// The outcome is pinned exactly, relative to the store it ran against.
    fn invite_one(
        &self,
        repo: &mut Repository,
        actor_id: u128,
        group_id: u128,
        group_exists: bool,
        username: &String,
        now: u64,
    ) -> (r: Result<(GroupInvitation, Message), Error>)
        requires
            old(repo).wf(),
            old(repo).next_id < u128::MAX,
            group_exists == crate::repository::has_group_with_id(*old(repo), group_id),
            has_user_with_id(*old(repo), actor_id),
        ensures
            final(repo).wf(),
            r matches Ok(p) ==> final(repo).invitations@ == old(repo).invitations@.push(p.0),
            r is Err ==> *final(repo) == *old(repo),
            !user_username_in(
                old(repo).users@,
                crate::service::register::normal_of(username@),
            ) ==> r matches Err(Error::UserNotFound),
            user_username_in(
                old(repo).users@,
                crate::service::register::normal_of(username@),
            ) ==> exists|w: int|
                0 <= w < old(repo).users@.len() && (#[trigger] old(repo).users@[w])@.username
                    == crate::service::register::normal_of(username@) && invite_outcome(
                    old(repo).memberships@,
                    old(repo).invitations@,
                    group_id,
                    actor_id,
                    group_exists,
                    old(repo).users@[w]@,
                    r,
                ),
            final(repo).users@ == old(repo).users@,
            final(repo).sessions@ == old(repo).sessions@,
            final(repo).memberships@ == old(repo).memberships@,
            final(repo).groups@ == old(repo).groups@,
            final(repo).pending_users@ == old(repo).pending_users@,
            final(repo).pending_sessions@ == old(repo).pending_sessions@,
            final(repo).namespaces@ == old(repo).namespaces@,
            old(repo).next_id <= final(repo).next_id <= old(repo).next_id + 1,
    {
        let identity = normalize_bytes(username.as_str().as_bytes());
        let w = match repo.find_user_index_by_username(identity.as_slice()) {
            Some(w) => w,
            None => {
                return Err(Error::UserNotFound);
            },
        };
        let invitee_id = repo.users[w].id;
        if invitee_id == actor_id {
            return Err(Error::PermissionDenied);
        }
        if repo.find_membership_index(group_id, invitee_id).is_some() {
            return Err(Error::AlreadyAMember);
        }
        if repo.find_invitation_index_for(group_id, invitee_id).is_some() {
            return Err(Error::AlreadyInvited);
        }
        if !group_exists {
            return Err(Error::GroupNotFound);
        }
        let email = clone_bytes(&repo.users[w].email);
        let inv = repo.create_invitation(group_id, invitee_id, actor_id, now);
        let msg = Message::SendGroupInvitationEmail { email };
        Ok((inv, msg))
    }

    /// Accepts an invitation: only its invitee may; the membership appears
    /// and the invitation disappears in one step — on any error nothing at
    /// all has changed.
    pub fn accept_group_invitation(
        &self,
        repo: &mut Repository,
        actor: Option<User>,
        input: AcceptGroupInvitationInput,
        now: u64,
    ) -> (r: Result<(), Error>)
        requires
            old(repo).wf(),
        ensures
            final(repo).wf(),
            final(repo).next_id == old(repo).next_id,
            r is Err ==> *final(repo) == *old(repo),
            actor is None ==> r matches Err(Error::Unauthenticated),
            actor matches Some(a) ==> !has_user_with_id(*old(repo), a@.id) ==> r matches Err(
                Error::UserNotFound,
            ),
            actor matches Some(a) ==> has_user_with_id(*old(repo), a@.id)
                && !has_invitation_with_id(*old(repo), input.invitation_id) ==> r matches Err(
                Error::GroupInvitationNotFound,
            ),
            actor matches Some(a) ==> has_user_with_id(*old(repo), a@.id)
                ==> has_invitation_with_id(*old(repo), input.invitation_id) ==> exists|t: int|
                0 <= t < old(repo).invitations@.len() && (#[trigger] old(repo).invitations@[t]).id
                    == input.invitation_id && {
                    let inv = old(repo).invitations@[t];
                    if inv.invitee_id != a@.id {
                        r matches Err(Error::PermissionDenied)
                    } else if has_membership(*old(repo), inv.group_id, a@.id) {
                        r matches Err(Error::AlreadyAMember)
                    } else if !crate::repository::has_group_with_id(*old(repo), inv.group_id) {
                        r matches Err(Error::GroupNotFound)
                    } else {
                        &&& r is Ok
                        &&& final(repo).memberships@ == old(repo).memberships@.push(
                            GroupMembership {
                                group_id: inv.group_id,
                                user_id: a@.id,
                                role: GroupRole::Member,
                            },
                        )
                        &&& final(repo).invitations@ == old(repo).invitations@.remove(t)
                        &&& final(repo).users@ == old(repo).users@
                        &&& final(repo).sessions@ == old(repo).sessions@
                        &&& final(repo).pending_users@ == old(repo).pending_users@
                        &&& final(repo).pending_sessions@ == old(repo).pending_sessions@
                        &&& final(repo).namespaces@ == old(repo).namespaces@
                        &&& final(repo).groups@ == old(repo).groups@
                    }
                },
    {
        let a = match self.current_user(actor) {
            Ok(a) => a,
            Err(e) => {
                return Err(e);
            },
        };
        if repo.find_user_index_by_id(a.id).is_none() {
            return Err(Error::UserNotFound);
        }
        let t = match repo.find_invitation_index_by_id(input.invitation_id) {
            Some(t) => t,
            None => {
                return Err(Error::GroupInvitationNotFound);
            },
        };
        let inv = repo.invitations[t];
        if inv.invitee_id != a.id {
            return Err(Error::PermissionDenied);
        }
        if repo.find_membership_index(inv.group_id, a.id).is_some() {
            return Err(Error::AlreadyAMember);
        }
        if repo.find_group_index_by_id(inv.group_id).is_none() {
            return Err(Error::GroupNotFound);
        }
        repo.create_membership(inv.group_id, a.id, GroupRole::Member);
        repo.remove_invitation_at(t);
        Ok(())
    }

    /// Declines an invitation: only its invitee may; the invitation is
    /// deleted and nothing else changes.
    pub fn decline_group_invitation(
        &self,
        repo: &mut Repository,
        actor: Option<User>,
        input: DeclineGroupInvitationInput,
    ) -> (r: Result<(), Error>)
        requires
            old(repo).wf(),
        ensures
            final(repo).wf(),
            final(repo).next_id == old(repo).next_id,
            r is Err ==> *final(repo) == *old(repo),
            actor is None ==> r matches Err(Error::Unauthenticated),
            actor matches Some(a) ==> !has_invitation_with_id(*old(repo), input.invitation_id)
                ==> r matches Err(Error::GroupInvitationNotFound),
            actor matches Some(a) ==> has_invitation_with_id(*old(repo), input.invitation_id)
                ==> exists|t: int|
                0 <= t < old(repo).invitations@.len() && (#[trigger] old(repo).invitations@[t]).id
                    == input.invitation_id && {
                    let inv = old(repo).invitations@[t];
                    if inv.invitee_id != a@.id {
                        r matches Err(Error::PermissionDenied)
                    } else {
                        &&& r is Ok
                        &&& final(repo).invitations@ == old(repo).invitations@.remove(t)
                        &&& final(repo).memberships@ == old(repo).memberships@
                        &&& final(repo).users@ == old(repo).users@
                        &&& final(repo).sessions@ == old(repo).sessions@
                        &&& final(repo).groups@ == old(repo).groups@
                    }
                },
    {
        let a = match self.current_user(actor) {
            Ok(a) => a,
            Err(e) => {
                return Err(e);
            },
        };
        let t = match repo.find_invitation_index_by_id(input.invitation_id) {
            Some(t) => t,
            None => {
                return Err(Error::GroupInvitationNotFound);
            },
        };
        if repo.invitations[t].invitee_id != a.id {
            return Err(Error::PermissionDenied);
        }
        repo.remove_invitation_at(t);
        Ok(())
    }

    /// Cancels an invitation: the inviter, or a group administrator, may.
    pub fn cancel_group_invitation(
        &self,
        repo: &mut Repository,
        actor: Option<User>,
        input: CancelGroupInvitationInput,
    ) -> (r: Result<(), Error>)
        requires
            old(repo).wf(),
        ensures
            final(repo).wf(),
            final(repo).next_id == old(repo).next_id,
            r is Err ==> *final(repo) == *old(repo),
            actor is None ==> r matches Err(Error::Unauthenticated),
            actor matches Some(a) ==> !has_invitation_with_id(*old(repo), input.invitation_id)
                ==> r matches Err(Error::GroupInvitationNotFound),
            actor matches Some(a) ==> has_invitation_with_id(*old(repo), input.invitation_id)
                ==> exists|t: int|
                0 <= t < old(repo).invitations@.len() && (#[trigger] old(repo).invitations@[t]).id
                    == input.invitation_id && {
                    let inv = old(repo).invitations@[t];
                    if inv.inviter_id != a@.id && !is_group_admin(*old(repo), inv.group_id, a@.id) {
                        r matches Err(Error::PermissionDenied)
                    } else {
                        &&& r is Ok
                        &&& final(repo).invitations@ == old(repo).invitations@.remove(t)
                        &&& final(repo).memberships@ == old(repo).memberships@
                        &&& final(repo).users@ == old(repo).users@
                        &&& final(repo).sessions@ == old(repo).sessions@
                        &&& final(repo).groups@ == old(repo).groups@
                    }
                },
    {
        let a = match self.current_user(actor) {
            Ok(a) => a,
            Err(e) => {
                return Err(e);
            },
        };
        let t = match repo.find_invitation_index_by_id(input.invitation_id) {
            Some(t) => t,
            None => {
                return Err(Error::GroupInvitationNotFound);
            },
        };
        let inv = repo.invitations[t];
        if inv.inviter_id != a.id {
            match repo.find_membership_index(inv.group_id, a.id) {
                Some(k) => {
                    if !matches!(repo.memberships[k].role, GroupRole::Administrator) {
                        proof {
                            admin_unique(*repo, inv.group_id, a@.id, k as int);
                        }
                        return Err(Error::PermissionDenied);
                    }
                },
                None => {
                    return Err(Error::PermissionDenied);
                },
            }
        }
        repo.remove_invitation_at(t);
        Ok(())
    }

    /// Removes another member from the group: only an administrator may,
    /// and not on themselves.
    pub fn remove_member_from_group(
        &self,
        repo: &mut Repository,
        actor: Option<User>,
        input: RemoveMemberFromGroupInput,
    ) -> (r: Result<(), Error>)
        requires
            old(repo).wf(),
        ensures
            final(repo).wf(),
            final(repo).next_id == old(repo).next_id,
            r is Err ==> *final(repo) == *old(repo),
            actor is None ==> r matches Err(Error::Unauthenticated),
            actor matches Some(a) ==> !is_group_admin(*old(repo), input.group_id, a@.id)
                ==> r matches Err(Error::PermissionDenied),
            actor matches Some(a) ==> is_group_admin(*old(repo), input.group_id, a@.id) && (
            !has_user_with_username(
                *old(repo),
                crate::service::register::normal_of(input.username@),
            )) ==> r matches Err(Error::UserNotFound),
            actor matches Some(a) ==> is_group_admin(*old(repo), input.group_id, a@.id)
                ==> has_user_with_username(
                *old(repo),
                crate::service::register::normal_of(input.username@),
            ) ==> exists|w: int|
                0 <= w < old(repo).users@.len() && (#[trigger] old(repo).users@[w])@.username
                    == crate::service::register::normal_of(input.username@) && {
                    let target = old(repo).users@[w]@;
                    if target.id == a@.id {
                        r matches Err(Error::PermissionDenied)
                    } else if !has_membership(*old(repo), input.group_id, target.id) {
                        r matches Err(Error::GroupMemberNotFound)
                    } else {
                        &&& r is Ok
                        &&& exists|k: int|
                            0 <= k < old(repo).memberships@.len() && (#[trigger] old(
                                repo,
                            ).memberships@[k]).group_id == input.group_id && old(
                                repo,
                            ).memberships@[k].user_id == target.id && final(repo).memberships@
                                == old(repo).memberships@.remove(k)
                        &&& final(repo).users@ == old(repo).users@
                        &&& final(repo).sessions@ == old(repo).sessions@
                        &&& final(repo).pending_users@ == old(repo).pending_users@
                        &&& final(repo).pending_sessions@ == old(repo).pending_sessions@
                        &&& final(repo).namespaces@ == old(repo).namespaces@
                        &&& final(repo).groups@ == old(repo).groups@
                        &&& final(repo).invitations@ == old(repo).invitations@
                        &&& final(repo).next_id == old(repo).next_id
                    }
                },
    {
        let a = match self.current_user(actor) {
            Ok(a) => a,
            Err(e) => {
                return Err(e);
            },
        };
        let k = match repo.find_membership_index(input.group_id, a.id) {
            Some(k) => k,
            None => {
                return Err(Error::PermissionDenied);
            },
        };
        if !matches!(repo.memberships[k].role, GroupRole::Administrator) {
            proof {
                admin_unique(*repo, input.group_id, a@.id, k as int);
            }
            return Err(Error::PermissionDenied);
        }
        let identity = normalize_bytes(input.username.as_str().as_bytes());
        let w = match repo.find_user_index_by_username(identity.as_slice()) {
            Some(w) => w,
            None => {
                return Err(Error::UserNotFound);
            },
        };
        let target_id = repo.users[w].id;
        if target_id == a.id {
            return Err(Error::PermissionDenied);
        }
        let m = match repo.find_membership_index(input.group_id, target_id) {
            Some(m) => m,
            None => {
                return Err(Error::GroupMemberNotFound);
            },
        };
        repo.remove_membership_at(m);
        Ok(())
    }

    /// Leaves the group: the member removes their own membership row.
    pub fn quit_group(&self, repo: &mut Repository, actor: Option<User>, input: QuitGroupInput) -> (r:
        Result<(), Error>)
        requires
            old(repo).wf(),
        ensures
            final(repo).wf(),
            final(repo).next_id == old(repo).next_id,
            r is Err ==> *final(repo) == *old(repo),
            actor is None ==> r matches Err(Error::Unauthenticated),
            actor matches Some(a) ==> !has_membership(*old(repo), input.group_id, a@.id)
                ==> r matches Err(Error::GroupMemberNotFound),
            actor matches Some(a) ==> has_membership(*old(repo), input.group_id, a@.id)
                ==> r is Ok,
            actor matches Some(a) ==> r is Ok ==> exists|k: int|
                0 <= k < old(repo).memberships@.len() && (#[trigger] old(repo).memberships@[k]).group_id
                    == input.group_id && old(repo).memberships@[k].user_id == a@.id && final(repo).memberships@ == old(repo).memberships@.remove(k) && final(repo).users@ == old(
                    repo,
                ).users@ && final(repo).invitations@ == old(repo).invitations@ && final(repo).sessions@ == old(repo).sessions@ && final(repo).pending_users@ == old(
                    repo,
                ).pending_users@ && final(repo).pending_sessions@ == old(repo).pending_sessions@
                    && final(repo).namespaces@ == old(repo).namespaces@ && final(repo).groups@
                    == old(repo).groups@ && final(repo).next_id == old(repo).next_id,
    {
        let a = match self.current_user(actor) {
            Ok(a) => a,
            Err(e) => {
                return Err(e);
            },
        };
        let k = match repo.find_membership_index(input.group_id, a.id) {
            Some(k) => k,
            None => {
                return Err(Error::GroupMemberNotFound);
            },
        };
        repo.remove_membership_at(k);
        Ok(())
    }
}

/// There is at most one membership row per (group, user) pair, so the row
/// an index lookup found decides `is_group_admin`.
proof fn admin_unique(repo: Repository, group_id: u128, user_id: u128, k: int)
    requires
        repo.wf(),
        0 <= k < repo.memberships@.len(),
        repo.memberships@[k].group_id == group_id,
        repo.memberships@[k].user_id == user_id,
        repo.memberships@[k].role != GroupRole::Administrator,
    ensures
        !is_group_admin(repo, group_id, user_id),
{
    if is_group_admin(repo, group_id, user_id) {
        let t = choose|t: int|
            0 <= t < repo.memberships@.len() && (#[trigger] repo.memberships@[t]).group_id
                == group_id && repo.memberships@[t].user_id == user_id
                && repo.memberships@[t].role == GroupRole::Administrator;
        assert(t != k);
    }
}

} // verus!
