//! Error kinds surfaced by the user-operation core.
//!
//! `ConfigurationError` is the only error that is fatal before any backend
//! is attempted; every other failure is downgraded to a per-backend outcome
//! by the orchestrator and reported, never silently swallowed.

use vstd::prelude::*;

verus! {

/// A request that cannot be dispatched at all, such as a backend selection
/// that names no backend.
#[derive(Clone, Copy, PartialEq, Eq, Structural, Debug)]
pub enum ConfigurationError {
    /// The caller selected none of the backends, so the operation would be
    /// a silent no-op; it is rejected instead.
    EmptyBackendSelection,
}

/// A failure while resolving the username/secret pair for a channel.
#[derive(Clone, Copy, PartialEq, Eq, Structural, Debug)]
pub enum CredentialError {
    /// No secret was supplied, or the supplied secret was empty; a provider
    /// never silently proceeds with an empty secret.
    NoPasswordProvided,
    /// No input line was supplied where one was required.
    NoInputSupplied,
    /// The chosen key-candidate index does not denote one of the presented
    /// candidates.
    InvalidKeyIndex,
}

impl ConfigurationError {
    /// Human-readable description, for the front ends to print.
    pub fn message(&self) -> (r: &'static str)
        ensures
            r@ == self.spec_message(),
    {
        match self {
            ConfigurationError::EmptyBackendSelection => {
                "no backend selected: at least one of accounting, directory or home-directory handling must be chosen"
            },
        }
    }

    pub open spec fn spec_message(&self) -> Seq<char> {
        match self {
            ConfigurationError::EmptyBackendSelection => {
                "no backend selected: at least one of accounting, directory or home-directory handling must be chosen"@
            },
        }
    }
}

impl CredentialError {
    /// Human-readable description, for the front ends to print.
    pub fn message(&self) -> (r: &'static str)
        ensures
            r@ == self.spec_message(),
    {
        match self {
            CredentialError::NoPasswordProvided => "No password provided",
            CredentialError::NoInputSupplied => "No number supplied",
            CredentialError::InvalidKeyIndex => "Choice is not among the presented ssh keys",
        }
    }

    pub open spec fn spec_message(&self) -> Seq<char> {
        match self {
            CredentialError::NoPasswordProvided => "No password provided"@,
            CredentialError::NoInputSupplied => "No number supplied"@,
            CredentialError::InvalidKeyIndex => "Choice is not among the presented ssh keys"@,
        }
    }
}

} // verus!
