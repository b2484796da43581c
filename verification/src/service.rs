//! The service: request-scoped orchestration over the repository. This file
//! holds the service value itself and the typed inputs and outputs of its
//! operations; each workflow lives in its own submodule.

use vstd::prelude::*;

use crate::config::Config;
use crate::entities::NamespaceType;
use crate::entities::Session;
use crate::entities::TwoFaMethod;
use crate::entities::User;
use crate::errors::Error;
use crate::repository::has_namespace_with_path;
use crate::repository::Repository;
use vstd::string::StringSliceAdditionalSpecFns;

pub mod groups;
pub mod register;
pub mod session;
pub mod signin;
pub mod twofa;
pub mod validators;

verus! {

/// The service: the platform's policy (reserved words, namespace alphabet)
/// plus the loaded configuration. It holds no persisted state; every
/// operation takes the repository it works on.
pub struct Service {
    pub config: Config,
    pub invalid_namespaces: Vec<Vec<u8>>,
    pub valid_namespace_alphabet: Vec<u8>,
}

impl Service {
    /// The policy invariant: the reserved-word list and the namespace
    /// alphabet are exactly the fixed ones, and the master key has the AEAD
    /// key length.
    pub open spec fn wf(self) -> bool {
        &&& self.config.master_key@.len() == crate::consts::MASTER_KEY_LENGTH
        &&& self.valid_namespace_alphabet@ == "abcdefghijklmnopqrstuvwxyz0123456789-".spec_bytes()
        &&& self.invalid_namespaces@.len() == 12
        &&& self.invalid_namespaces@[0]@ == "admin".spec_bytes()
        &&& self.invalid_namespaces@[1]@ == "administrator".spec_bytes()
        &&& self.invalid_namespaces@[2]@ == "api".spec_bytes()
        &&& self.invalid_namespaces@[3]@ == "bloom".spec_bytes()
        &&& self.invalid_namespaces@[4]@ == "contact".spec_bytes()
        &&& self.invalid_namespaces@[5]@ == "help".spec_bytes()
        &&& self.invalid_namespaces@[6]@ == "mail".spec_bytes()
        &&& self.invalid_namespaces@[7]@ == "root".spec_bytes()
        &&& self.invalid_namespaces@[8]@ == "security".spec_bytes()
        &&& self.invalid_namespaces@[9]@ == "support".spec_bytes()
        &&& self.invalid_namespaces@[10]@ == "system".spec_bytes()
        &&& self.invalid_namespaces@[11]@ == "www".spec_bytes()
    }

    /// A namespace candidate equal to one of the reserved words.
    pub open spec fn reserved(self, s: Seq<u8>) -> bool {
        exists|i: int|
            0 <= i < self.invalid_namespaces@.len() && (#[trigger] self.invalid_namespaces@[i])@
                == s
    }

    /// A byte of the namespace alphabet.
    pub open spec fn in_alphabet(self, b: u8) -> bool {
        self.valid_namespace_alphabet@.contains(b)
    }

    /// Builds the service around a loaded configuration.
    pub fn new(config: Config) -> (s: Service)
        requires
            config.master_key@.len() == crate::consts::MASTER_KEY_LENGTH,
        ensures
            s.wf(),
            s.config == config,
    {
        let mut invalid: Vec<Vec<u8>> = Vec::new();
        invalid.push(bv("admin"));
        invalid.push(bv("administrator"));
        invalid.push(bv("api"));
        invalid.push(bv("bloom"));
        invalid.push(bv("contact"));
        invalid.push(bv("help"));
        invalid.push(bv("mail"));
        invalid.push(bv("root"));
        invalid.push(bv("security"));
        invalid.push(bv("support"));
        invalid.push(bv("system"));
        invalid.push(bv("www"));
        let alphabet = bv("abcdefghijklmnopqrstuvwxyz0123456789-");
        Service { config, invalid_namespaces: invalid, valid_namespace_alphabet: alphabet }
    }

    /// The authenticated actor, or `Unauthenticated` for an anonymous call.
    pub fn current_user(&self, actor: Option<User>) -> (r: Result<User, Error>)
        ensures
            r matches Ok(u) ==> actor matches Some(a) && u == a,
            r is Err ==> (r matches Err(Error::Unauthenticated)) && actor is None,
    {
        match actor {
            Some(u) => Ok(u),
            None => Err(Error::Unauthenticated),
        }
    }

    /// Whether a path is already claimed in the shared namespace table.
    pub fn check_namespace_exists(&self, repo: &Repository, path: &[u8]) -> (r: bool)
        ensures
            r == has_namespace_with_path(*repo, path@),
    {
        match repo.find_namespace_index_by_path(path) {
            Some(_) => true,
            None => false,
        }
    }
}

/// The UTF-8 bytes of a string literal, as an owned byte string.
fn bv(s: &str) -> (r: Vec<u8>)
    ensures
        r@ == s.spec_bytes(),
{
    s.as_bytes_vec()
}

/// What `complete_sign_in` hands back: either a live session or the demand
/// for the second factor.
#[derive(Clone, Debug)]
pub enum SignedIn {
    Success { session: Session, user: User, token: String },
    TwoFa(TwoFaMethod),
}

/// An asynchronous notification job. The service returns these for the
/// caller to enqueue; delivery is best-effort and never part of the
/// transaction.
#[derive(Clone, Debug)]
pub enum Message {
    SendRegisterEmail { email: Vec<u8>, username: Vec<u8>, code: Vec<u8> },
    SendSignInEmail { email: Vec<u8>, code: Vec<u8> },
    SendGroupInvitationEmail { email: Vec<u8> },
}

/// Data required to start a registration.
#[derive(Clone, Debug)]
pub struct RegisterInput {
    pub email: String,
    pub username: String,
}

/// Data required to complete a registration.
#[derive(Clone, Debug)]
pub struct CompleteRegistrationInput {
    pub pending_user_id: u128,
    pub code: String,
}

/// Data required to complete a sign-in.
#[derive(Clone, Debug)]
pub struct CompleteSignInInput {
    pub pending_session_id: u128,
    pub code: String,
}

/// Data required to start a sign-in.
#[derive(Clone, Debug)]
pub struct SignInInput {
    pub email_or_username: String,
}

/// Data required to create a group.
#[derive(Clone, Debug)]
pub struct CreateGroupInput {
    pub name: String,
    pub path: String,
    pub description: String,
}

/// Data required to delete a group.
#[derive(Clone, Copy, Debug)]
pub struct DeleteGroupInput {
    pub group_id: u128,
}

/// Data required to claim a namespace directly.
#[derive(Clone, Debug)]
pub struct CreateNamespaceInput {
    pub path: String,
    pub namespace_type: NamespaceType,
}

/// Data required to change the payment method of a namespace.
#[derive(Clone, Debug)]
pub struct UpdatePaymentMethodInput {
    pub stripe_id: String,
    pub namespace_id: u128,
}

/// Data required to change a subscription.
#[derive(Clone, Copy, Debug)]
pub struct ChangeSubscriptionInput {
    pub namespace_id: u128,
    pub plan: crate::consts::BillingPlan,
}

/// Data required to open a checkout session.
#[derive(Clone, Debug)]
pub struct GetCheckoutSessionInput {
    pub namespace: String,
    pub plan: crate::consts::BillingPlan,
}

/// Data required to update billing information.
#[derive(Clone, Debug)]
pub struct UpdateBillingInformationInput {
    pub namespace: String,
    pub name: String,
    pub email: String,
    pub country_code: String,
    pub city: String,
    pub postal_code: String,
    pub address_line1: String,
    pub address_line2: String,
    pub state: String,
    pub tax_id: Option<String>,
}

/// Data required to re-sync billing state with the provider.
#[derive(Clone, Debug)]
pub struct SyncBillingWithProviderInput {
    pub namespace: String,
}

/// Data required to update the caller's profile.
#[derive(Clone, Debug)]
pub struct UpdateMyProfileInput {
    pub name: Option<String>,
    pub email: Option<String>,
    pub username: Option<String>,
    pub description: Option<String>,
}

/// Data required to verify a pending email.
#[derive(Clone, Debug)]
pub struct VerifyPendingEmailInput {
    pub token: String,
}

/// Data required to update a group's profile.
#[derive(Clone, Debug)]
pub struct UpdateGroupProfileInput {
    pub group_id: u128,
    pub name: Option<String>,
    pub path: Option<String>,
    pub description: Option<String>,
}

/// Data required to invite people into a group.
#[derive(Clone, Debug)]
pub struct InvitePeopleInGroupInput {
    pub group_id: u128,
    pub usernames: Vec<String>,
}

/// Data required to accept an invitation.
#[derive(Clone, Copy, Debug)]
pub struct AcceptGroupInvitationInput {
    pub invitation_id: u128,
}

/// Data required to cancel an invitation.
#[derive(Clone, Copy, Debug)]
pub struct CancelGroupInvitationInput {
    pub invitation_id: u128,
}

/// Data required to decline an invitation.
#[derive(Clone, Copy, Debug)]
pub struct DeclineGroupInvitationInput {
    pub invitation_id: u128,
}

/// Data required to remove a member from a group.
#[derive(Clone, Debug)]
pub struct RemoveMemberFromGroupInput {
    pub group_id: u128,
    pub username: String,
}

/// Data required to quit a group.
#[derive(Clone, Copy, Debug)]
pub struct QuitGroupInput {
    pub group_id: u128,
}

/// Data required to get a signed upload URL.
#[derive(Clone, Copy, Debug)]
pub struct GetSignedStorageUploadUrlInput {
    pub filesize: u64,
}

/// Data required to finish enabling the second factor.
#[derive(Clone, Debug)]
pub struct EnableTwoFaInput {
    pub code: String,
}

/// Data required to disable the second factor.
#[derive(Clone, Debug)]
pub struct DisableTwoFaInput {
    pub code: String,
}

/// Data required to answer the second-factor challenge.
#[derive(Clone, Debug)]
pub struct CompleteTwoFaChallengeInput {
    pub pending_session_id: u128,
    pub code: String,
}

/// Data required to delete the caller's account.
#[derive(Clone, Debug)]
pub struct DeleteMyAccountInput {
    pub two_fa_totp_code: Option<String>,
}

/// Data required to revoke a session.
#[derive(Clone, Copy, Debug)]
pub struct RevokeSessionInput {
    pub session_id: u128,
}

/// Data required to verify an email change.
#[derive(Clone, Debug)]
pub struct VerifyEmailInput {
    pub pending_email_id: u128,
    pub code: String,
}

/// A bearer token taken apart: the session it names and the raw secret.
#[derive(Clone, Debug)]
pub struct DecodedSessionToken {
    pub session_id: u128,
    pub secret: Vec<u8>,
}

} // verus!
