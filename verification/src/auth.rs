//! The login / two-factor state machine.
//!
//! The machine itself is pure: it maps a phase and an observed remote event
//! to the next phase. The caller performs the remote calls and feeds their
//! outcomes back as events, so every branching decision of the flow —
//! channel selection, the distinct "cookie never upgraded" failure, terminal
//! absorption — is stated and proved here.

use vstd::prelude::*;

use crate::errors::AuthError;
use crate::text::str_equal;

verus! {

/// The second-factor channel the flow verifies against. The choice is a
/// policy of this client, not a negotiation with the remote: the email-code
/// channel is preferred whenever the remote requires it, because it is the
/// only channel reachable without an out-of-band authenticator app.
#[derive(Clone, Copy, Debug, PartialEq, Eq, Structural)]
pub enum VerificationChannel {
    /// A code sent to the account's email address.
    EmailCode,
    /// A time-based code from an authenticator app.
    OtpCode,
}

/// What an identity query of the remote reports: either a fully identified
/// current user, or a demand for further verification over one or more
/// named channels.
#[derive(Debug, PartialEq, Eq)]
pub enum AuthResponse {
    CurrentUser,
    SecondFactorNeeded { channels: Vec<String> },
}

/// A phase of the login flow. `Authenticated` and `Failed` are terminal.
#[derive(Clone, Copy, Debug, PartialEq, Eq, Structural)]
pub enum AuthPhase {
    /// Nothing sent yet.
    Init,
    /// Username and password are with the remote; its verdict is pending.
    Submitted,
    /// The remote demands a second factor; the policy has picked the channel.
    SecondFactorRequired { channel: VerificationChannel },
    /// The supplied code passed; a final identity query must confirm that
    /// the session was actually upgraded.
    ConfirmingIdentity,
    /// A definitive identity: the session credential can be extracted.
    Authenticated,
    /// A definitive failure.
    Failed { error: AuthError },
}

/// An observed outcome of a remote call, fed into the machine by the caller.
#[derive(Debug, PartialEq, Eq)]
pub enum AuthEvent {
    /// Username and password went out.
    CredentialsSent,
    /// The remote answered the primary authentication query.
    PrimaryResponse { response: AuthResponse },
    /// The remote refused the username/password outright.
    PrimaryRejected,
    /// The verification endpoint accepted the supplied code.
    VerificationPassed,
    /// The verification endpoint rejected the supplied code.
    VerificationFailed,
    /// The remote answered the confirming identity query.
    ConfirmResponse { response: AuthResponse },
    /// A transport-level failure on any call.
    RemoteFailure,
}

/// The name under which the remote lists the email-code channel.
pub open spec fn email_channel_name() -> Seq<char> {
    "emailOtp"@
}

/// Channel-selection policy: the email-code channel whenever the remote's
/// required set names it, otherwise the time-based code channel.
pub open spec fn spec_select_channel(channels: Seq<String>) -> VerificationChannel {
    if exists|i: int| 0 <= i < channels.len() && channels[i]@ == email_channel_name() {
        VerificationChannel::EmailCode
    } else {
        VerificationChannel::OtpCode
    }
}

/// The transition table of the flow. A terminal phase absorbs every event;
/// an event that the current phase does not expect changes nothing.
pub open spec fn next_phase(phase: AuthPhase, event: AuthEvent) -> AuthPhase {
    match (phase, event) {
        (AuthPhase::Init, AuthEvent::CredentialsSent) => AuthPhase::Submitted,
        (AuthPhase::Init, AuthEvent::RemoteFailure) => AuthPhase::Failed {
            error: AuthError::RemoteUnavailable,
        },
        (AuthPhase::Submitted, AuthEvent::PrimaryResponse { response }) => match response {
            AuthResponse::CurrentUser => AuthPhase::Authenticated,
            AuthResponse::SecondFactorNeeded { channels } => AuthPhase::SecondFactorRequired {
                channel: spec_select_channel(channels@),
            },
        },
        (AuthPhase::Submitted, AuthEvent::PrimaryRejected) => AuthPhase::Failed {
            error: AuthError::BadCredentials,
        },
        (AuthPhase::Submitted, AuthEvent::RemoteFailure) => AuthPhase::Failed {
            error: AuthError::RemoteUnavailable,
        },
        (AuthPhase::SecondFactorRequired { .. }, AuthEvent::VerificationPassed) => {
            AuthPhase::ConfirmingIdentity
        },
        (AuthPhase::SecondFactorRequired { .. }, AuthEvent::VerificationFailed) => {
            AuthPhase::Failed { error: AuthError::SecondFactorRejected }
        },
        (AuthPhase::SecondFactorRequired { .. }, AuthEvent::RemoteFailure) => AuthPhase::Failed {
            error: AuthError::RemoteUnavailable,
        },
        (AuthPhase::ConfirmingIdentity, AuthEvent::ConfirmResponse { response }) => match response {
            AuthResponse::CurrentUser => AuthPhase::Authenticated,
            AuthResponse::SecondFactorNeeded { .. } => AuthPhase::Failed {
                error: AuthError::SessionNotUpgraded,
            },
        },
        (AuthPhase::ConfirmingIdentity, AuthEvent::RemoteFailure) => AuthPhase::Failed {
            error: AuthError::RemoteUnavailable,
        },
        (p, _) => p,
    }
}

/// A phase from which no event leads anywhere else.
pub open spec fn is_terminal(phase: AuthPhase) -> bool {
    phase is Authenticated || phase is Failed
}

/// Pick the verification channel for a required set, per the policy of
/// [`spec_select_channel`].
pub fn select_channel(channels: &Vec<String>) -> (c: VerificationChannel)
    ensures
        c == spec_select_channel(channels@),
{
    let mut i: usize = 0;
    while i < channels.len()
        invariant
            0 <= i <= channels@.len(),
            forall|j: int| 0 <= j < i ==> channels@[j]@ != email_channel_name(),
        decreases channels@.len() - i,
    {
        if str_equal(channels[i].as_str(), "emailOtp") {
            return VerificationChannel::EmailCode;
        }
        i = i + 1;
    }
    VerificationChannel::OtpCode
}

/// Advance the flow by one observed event. A terminal phase never moves.
pub fn step(phase: AuthPhase, event: AuthEvent) -> (r: AuthPhase)
    ensures
        r == next_phase(phase, event),
        is_terminal(phase) ==> r == phase,
{
    match (phase, event) {
        (AuthPhase::Init, AuthEvent::CredentialsSent) => AuthPhase::Submitted,
        (AuthPhase::Init, AuthEvent::RemoteFailure) => AuthPhase::Failed {
            error: AuthError::RemoteUnavailable,
        },
        (AuthPhase::Submitted, AuthEvent::PrimaryResponse { response }) => match response {
            AuthResponse::CurrentUser => AuthPhase::Authenticated,
            AuthResponse::SecondFactorNeeded { channels } => AuthPhase::SecondFactorRequired {
                channel: select_channel(&channels),
            },
        },
        (AuthPhase::Submitted, AuthEvent::PrimaryRejected) => AuthPhase::Failed {
            error: AuthError::BadCredentials,
        },
        (AuthPhase::Submitted, AuthEvent::RemoteFailure) => AuthPhase::Failed {
            error: AuthError::RemoteUnavailable,
        },
        (AuthPhase::SecondFactorRequired { .. }, AuthEvent::VerificationPassed) => {
            AuthPhase::ConfirmingIdentity
        },
        (AuthPhase::SecondFactorRequired { .. }, AuthEvent::VerificationFailed) => {
            AuthPhase::Failed { error: AuthError::SecondFactorRejected }
        },
        (AuthPhase::SecondFactorRequired { .. }, AuthEvent::RemoteFailure) => AuthPhase::Failed {
            error: AuthError::RemoteUnavailable,
        },
        (AuthPhase::ConfirmingIdentity, AuthEvent::ConfirmResponse { response }) => match response {
            AuthResponse::CurrentUser => AuthPhase::Authenticated,
            AuthResponse::SecondFactorNeeded { .. } => AuthPhase::Failed {
                error: AuthError::SessionNotUpgraded,
            },
        },
        (AuthPhase::ConfirmingIdentity, AuthEvent::RemoteFailure) => AuthPhase::Failed {
            error: AuthError::RemoteUnavailable,
        },
        (p, _) => p,
    }
}

/// Interpret the remote's verdict on a replayed stored credential: any
/// non-success is `InvalidCredential`. Checking never mutates or replaces
/// the stored credential — this function only maps the verdict.
pub fn interpret_token_check(accepted: bool) -> (r: Result<(), AuthError>)
    ensures
        accepted ==> r == Ok::<(), AuthError>(()),
        !accepted ==> r == Err::<(), AuthError>(AuthError::InvalidCredential),
{
    if accepted {
        Ok(())
    } else {
        Err(AuthError::InvalidCredential)
    }
}

} // verus!
