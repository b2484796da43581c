//! The typed errors every service and repository operation can surface.

use vstd::prelude::*;

verus! {

/// Every failure a caller can observe. Validation, conflict, not-found,
/// permission, authentication and attempt-budget failures each have their own
/// variant; `Internal` covers storage or crypto faults not attributable to
/// the caller.
#[derive(Clone, Debug)]
pub enum Error {
    /// The caller is anonymous but the operation needs an authenticated actor.
    Unauthenticated,
    /// The caller is authenticated but the operation needs an anonymous one.
    MustNotBeAuthenticated,
    /// The actor lacks rights over the target.
    PermissionDenied,
    /// Email address fails the syntactic or blocklist rules.
    EmailIsInvalid,
    /// Namespace path is longer than the maximum.
    NamespaceIsTooLong,
    /// Namespace path is shorter than the minimum.
    NamespaceIsTooShort,
    /// Namespace path is reserved, uses a foreign character, or misuses the
    /// separator.
    InvalidNamespace,
    /// Display name is longer than the maximum.
    UserNameIsTooLong,
    /// Display name is shorter than the minimum.
    UserNameIsTooShort,
    /// Display name uses a forbidden character or doubles punctuation.
    InvalidUserName,
    /// User description is longer than the maximum.
    UserDescriptionIsTooLong,
    /// Group name is longer than the maximum.
    GroupNameIsTooLong,
    /// Group name is shorter than the minimum.
    GroupNameIsTooShort,
    /// Group name uses a forbidden character or doubles punctuation.
    InvalidGroupName,
    /// Group description is longer than the maximum.
    GroupDescriptionIsTooLong,
    /// A user or a pending registration already owns this email.
    EmailAlreadyExists,
    /// A user or a pending registration already owns this username.
    UsernameAlreadyExists,
    /// The namespace path is already taken.
    NamespaceAlreadyExists,
    /// No user matches the given identity.
    UserNotFound,
    /// No pending registration matches the given id.
    PendingUserNotFound,
    /// No pending sign-in matches the given id.
    PendingSessionNotFound,
    /// No namespace matches the given id.
    NamespaceNotFound,
    /// No group matches the given id.
    GroupNotFound,
    /// No invitation matches the given id.
    GroupInvitationNotFound,
    /// The named user is not a member of the group.
    GroupMemberNotFound,
    /// The invitee is already a member of the group.
    AlreadyAMember,
    /// The invitee already holds an invitation to the group.
    AlreadyInvited,
    /// The confirmation code does not match.
    InvalidCode,
    /// The confirmation-code guess budget is exhausted; the pending row is gone.
    AttemptsExceeded,
    /// Two-factor authentication is not set up on this account.
    TwoFaIsNotEnabled,
    /// Two-factor authentication is already enabled on this account.
    TwoFaAlreadyEnabled,
    /// The supplied TOTP code is wrong or replayed.
    TwoFACodeIsNotValid,
    /// A named thing is absent; carries a human-readable message.
    NotFound(String),
    /// A supplied value is malformed; carries a human-readable message.
    InvalidArgument(String),
    /// A storage or crypto fault not attributable to the caller.
    Internal,
}

/// Builds the error reported when a required environment variable is absent.
pub fn env_not_found(var: &str) -> (r: Error)
    ensures
        r matches Error::NotFound(m) && m@ == "config: "@ + var@ + " env var not found"@,
{
    let msg = String::from_str("config: ").concat(var).concat(" env var not found");
    Error::NotFound(msg)
}

} // verus!
