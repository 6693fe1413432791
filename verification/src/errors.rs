//! Error taxonomy of the library. Every failure a component can report is a
//! variant here, and each public contract says exactly when a variant comes.

use vstd::prelude::*;

verus! {

/// Failures of the login / two-factor flow and of credential checking.
#[derive(Clone, Copy, Debug, PartialEq, Eq, Structural)]
pub enum AuthError {
    /// The remote rejected the submitted username/password.
    BadCredentials,
    /// The second-factor verification endpoint rejected the supplied code.
    SecondFactorRejected,
    /// Verification succeeded but the follow-up identity query still demanded
    /// a second factor: the session cookie was never upgraded.
    SessionNotUpgraded,
    /// A transport-level failure talking to the remote service.
    RemoteUnavailable,
    /// A stored credential was replayed and the remote did not accept it.
    InvalidCredential,
}

/// Failures of the persistence layer.
#[derive(Clone, Copy, Debug, PartialEq, Eq, Structural)]
pub enum StoreError {
    /// The underlying storage could not be read or written.
    IoFailure,
    /// The data handed to the store violates its invariant.
    Corrupt,
}

/// Failures of identifier resolution.
#[derive(Clone, Copy, Debug, PartialEq, Eq, Structural)]
pub enum ResolveError {
    /// A search query matched no catalog entry.
    NoMatch,
    /// An alias name has no entry in the alias table.
    UnknownAlias,
    /// The caller did not supply exactly one identifier kind.
    AmbiguousInput,
}

/// Failure of the remote switch action.
#[derive(Debug, PartialEq, Eq)]
pub enum SwitchError {
    /// The remote reported a non-success response; the detail is kept verbatim.
    Remote(String),
}

} // verus!
