//! Verified core of a multi-tenant account platform: namespace validation,
//! registration with email-code confirmation, passwordless sign-in, optional
//! TOTP two-factor step-up, session issuance/verification/revocation, and the
//! group-invitation workflow, all specified against an in-memory repository
//! model. Crypto (password hashing, AEAD, TOTP digests, randomness, token
//! armor) is called through a small set of trusted wrappers.

pub mod config;
pub mod consts;
pub mod crypto;
pub mod errors;
pub mod laws;
pub mod repository;
pub mod service;
pub mod entities;
pub mod text;
