//! The process-wide secrets, each wrapped in a type of its own so that a
//! token can only be signed and checked with the secret of its kind.

use vstd::prelude::*;

verus! {

/// The secret that signs and checks access tokens.
#[derive(Clone)]
pub struct AccessToken {
    pub accesstoken: String,
}

/// The secret that signs and checks refresh tokens.
#[derive(Clone)]
pub struct RefreshToken {
    pub refreshtoken: String,
}

/// The secret that signs and checks password-reset tokens.
#[derive(Clone)]
pub struct PasswordRecoveryToken {
    pub passrecovertoken: String,
}

/// The payment processor's secret key.
#[derive(Clone)]
pub struct StripeToken {
    pub stripetoken: String,
}

/// The payment processor's publishable key.
#[derive(Clone)]
pub struct StripePublicToken {
    pub stripepubtoken: String,
}

/// The three signing secrets, all present.
#[derive(Clone)]
pub struct Secrets {
    pub access: AccessToken,
    pub refresh: RefreshToken,
    pub recovery: PasswordRecoveryToken,
}

/// Gathers the signing secrets read from the configuration; the process must
/// not start when one is missing, so a missing one is reported.
pub fn load_secrets(
    access: Option<String>,
    refresh: Option<String>,
    recovery: Option<String>,
) -> (r: Option<Secrets>)
    ensures
        r is Some <==> (access is Some && refresh is Some && recovery is Some),
        r matches Some(s) ==> s.access.accesstoken@ == access.unwrap()@
            && s.refresh.refreshtoken@ == refresh.unwrap()@
            && s.recovery.passrecovertoken@ == recovery.unwrap()@,
{
    match (access, refresh, recovery) {
        (Some(a), Some(f), Some(p)) => Some(
            Secrets {
                access: AccessToken { accesstoken: a },
                refresh: RefreshToken { refreshtoken: f },
                recovery: PasswordRecoveryToken { passrecovertoken: p },
            },
        ),
        _ => None,
    }
}

} // verus!
