//! Fixed policy constants: size bounds for namespaces, names and
//! descriptions, confirmation-code shape, attempt budgets, session lifetime
//! and the TOTP step.

use vstd::prelude::*;

verus! {

/// Shortest legal namespace path (usernames and group paths).
pub const NAMESPACE_MIN_LENGTH: usize = 4;

/// Longest legal namespace path.
pub const NAMESPACE_MAX_LENGTH: usize = 20;

/// Shortest legal display name of a user.
pub const USER_NAME_MIN_LENGTH: usize = 1;

/// Longest legal display name of a user.
pub const USER_NAME_MAX_LENGTH: usize = 42;

/// Longest legal user description, in bytes.
pub const USER_DESCRIPTION_MAX_LENGTH: usize = 420;

/// Shortest legal group display name.
pub const GROUP_NAME_MIN_LENGTH: usize = 1;

/// Longest legal group display name.
pub const GROUP_NAME_MAX_LENGTH: usize = 42;

/// Longest legal group description, in bytes.
pub const GROUP_DESCRIPTION_MAX_LENGTH: usize = 420;

/// Length of every confirmation code (registration, sign-in).
pub const CODE_LENGTH: usize = 8;

/// How many wrong confirmation codes delete the pending row.
pub const MAX_CODE_ATTEMPTS: u64 = 5;

/// How long an issued session stays valid, in seconds.
pub const SESSION_TTL_SECONDS: u64 = 2592000;

/// Width of one TOTP time step, in seconds.
pub const TOTP_STEP_SECONDS: u64 = 30;

/// Byte length of a raw TOTP secret.
pub const TOTP_SECRET_LENGTH: usize = 32;

/// Byte length of a raw session secret.
pub const SESSION_SECRET_LENGTH: usize = 32;

/// Byte length of the AEAD master key.
pub const MASTER_KEY_LENGTH: usize = 32;

/// Byte length of an AEAD nonce.
pub const AEAD_NONCE_LENGTH: usize = 24;

/// The billing plans a namespace can subscribe to.
#[derive(Clone, Copy, Debug, PartialEq, Eq, Structural)]
pub enum BillingPlan {
    Free,
    Starter,
    Pro,
    Ultra,
}

} // verus!
