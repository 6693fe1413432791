use avatarctl::auth::{
    interpret_token_check, select_channel, step, AuthEvent, AuthPhase, AuthResponse,
    VerificationChannel,
};
use avatarctl::errors::AuthError;

fn channels(names: &[&str]) -> Vec<String> {
    names.iter().map(|n| n.to_string()).collect()
}

#[test]
fn scenario_d_email_channel_preferred() {
    let phase = step(
        AuthPhase::Submitted,
        AuthEvent::PrimaryResponse {
            response: AuthResponse::SecondFactorNeeded {
                channels: channels(&["emailOtp", "totp"]),
            },
        },
    );
    assert_eq!(
        phase,
        AuthPhase::SecondFactorRequired {
            channel: VerificationChannel::EmailCode
        }
    );
}

#[test]
fn otp_channel_when_email_not_required() {
    assert_eq!(
        select_channel(&channels(&["totp", "otp"])),
        VerificationChannel::OtpCode
    );
}

#[test]
fn email_channel_found_anywhere_in_the_set() {
    assert_eq!(
        select_channel(&channels(&["totp", "emailOtp"])),
        VerificationChannel::EmailCode
    );
}

#[test]
fn login_without_second_factor() {
    let submitted = step(AuthPhase::Init, AuthEvent::CredentialsSent);
    assert_eq!(submitted, AuthPhase::Submitted);
    let done = step(
        submitted,
        AuthEvent::PrimaryResponse {
            response: AuthResponse::CurrentUser,
        },
    );
    assert_eq!(done, AuthPhase::Authenticated);
}

#[test]
fn login_with_second_factor_success() {
    let p = step(
        AuthPhase::SecondFactorRequired {
            channel: VerificationChannel::EmailCode,
        },
        AuthEvent::VerificationPassed,
    );
    assert_eq!(p, AuthPhase::ConfirmingIdentity);
    let done = step(
        p,
        AuthEvent::ConfirmResponse {
            response: AuthResponse::CurrentUser,
        },
    );
    assert_eq!(done, AuthPhase::Authenticated);
}

#[test]
fn session_not_upgraded_is_its_own_failure() {
    // Verification passed, but the confirming query still demands a second
    // factor: the cookie was never upgraded. Distinct from a bad code.
    let p = step(
        AuthPhase::ConfirmingIdentity,
        AuthEvent::ConfirmResponse {
            response: AuthResponse::SecondFactorNeeded {
                channels: channels(&["emailOtp"]),
            },
        },
    );
    assert_eq!(
        p,
        AuthPhase::Failed {
            error: AuthError::SessionNotUpgraded
        }
    );
}

#[test]
fn rejected_code_fails_with_second_factor_rejected() {
    let p = step(
        AuthPhase::SecondFactorRequired {
            channel: VerificationChannel::OtpCode,
        },
        AuthEvent::VerificationFailed,
    );
    assert_eq!(
        p,
        AuthPhase::Failed {
            error: AuthError::SecondFactorRejected
        }
    );
}

#[test]
fn rejected_credentials_fail_with_bad_credentials() {
    let p = step(AuthPhase::Submitted, AuthEvent::PrimaryRejected);
    assert_eq!(
        p,
        AuthPhase::Failed {
            error: AuthError::BadCredentials
        }
    );
}

#[test]
fn transport_failure_fails_with_remote_unavailable() {
    let p = step(AuthPhase::Submitted, AuthEvent::RemoteFailure);
    assert_eq!(
        p,
        AuthPhase::Failed {
            error: AuthError::RemoteUnavailable
        }
    );
}

#[test]
fn terminal_phases_absorb_every_event() {
    assert_eq!(
        step(AuthPhase::Authenticated, AuthEvent::RemoteFailure),
        AuthPhase::Authenticated
    );
    let failed = AuthPhase::Failed {
        error: AuthError::BadCredentials,
    };
    assert_eq!(step(failed, AuthEvent::CredentialsSent), failed);
}

#[test]
fn unexpected_events_change_nothing() {
    assert_eq!(
        step(AuthPhase::Init, AuthEvent::VerificationPassed),
        AuthPhase::Init
    );
    assert_eq!(
        step(AuthPhase::ConfirmingIdentity, AuthEvent::PrimaryRejected),
        AuthPhase::ConfirmingIdentity
    );
}

#[test]
fn token_check_accepts_or_reports_invalid_credential() {
    assert_eq!(interpret_token_check(true), Ok(()));
    assert_eq!(
        interpret_token_check(false),
        Err(AuthError::InvalidCredential)
    );
}
