//! The Proton login as the mobile applications see it.
use crate::api::{HumanVerification, VerificationType};
use vstd::prelude::*;

verus! {

/// Kinds of human verification.
#[derive(Debug, Copy, Clone, PartialEq, Eq, Structural)]
pub enum ProtonHumanVerificationType {
    Captcha,
    Email,
    Sms,
}

impl ProtonHumanVerificationType {
    /// The kind a verification type is shown as.
    pub fn from_verification_type(value: VerificationType) -> (r: Self)
        ensures
            r == match value {
                VerificationType::Captcha => ProtonHumanVerificationType::Captcha,
                VerificationType::Email => ProtonHumanVerificationType::Email,
                VerificationType::Sms => ProtonHumanVerificationType::Sms,
            },
    {
        match value {
            VerificationType::Captcha => ProtonHumanVerificationType::Captcha,
            VerificationType::Email => ProtonHumanVerificationType::Email,
            VerificationType::Sms => ProtonHumanVerificationType::Sms,
        }
    }

    /// The verification type handed back to the API. Note that email and
    /// sms are exchanged on the way back.
    pub fn to_verification_type(self) -> (r: VerificationType)
        ensures
            r == match self {
                ProtonHumanVerificationType::Captcha => VerificationType::Captcha,
                ProtonHumanVerificationType::Email => VerificationType::Sms,
                ProtonHumanVerificationType::Sms => VerificationType::Email,
            },
    {
        match self {
            ProtonHumanVerificationType::Captcha => VerificationType::Captcha,
            ProtonHumanVerificationType::Email => VerificationType::Sms,
            ProtonHumanVerificationType::Sms => VerificationType::Email,
        }
    }

    /// The text shown for this kind.
    pub fn to_text(&self) -> (r: &'static str)
        ensures
            r@ == match self {
                ProtonHumanVerificationType::Captcha => "Captcha"@,
                ProtonHumanVerificationType::Email => "Email"@,
                ProtonHumanVerificationType::Sms => "Sms"@,
            },
    {
        match self {
            ProtonHumanVerificationType::Captcha => "Captcha",
            ProtonHumanVerificationType::Email => "Email",
            ProtonHumanVerificationType::Sms => "Sms",
        }
    }
}

/// A human verification request.
#[derive(Debug)]
pub struct ProtonHumanVerification {
    /// Kinds of supported verification.
    pub methods: Vec<ProtonHumanVerificationType>,
    /// Token for the verification request.
    pub token: String,
}

impl ProtonHumanVerification {
    /// The request as the mobile applications see it.
    pub fn from_human_verification(value: HumanVerification) -> (r: Self)
        ensures
            r.token == value.token,
            r.methods@.len() == value.methods@.len(),
            forall|i: int| 0 <= i < r.methods@.len() ==> (#[trigger] r.methods@[i]) == match value.methods@[i] {
                VerificationType::Captcha => ProtonHumanVerificationType::Captcha,
                VerificationType::Email => ProtonHumanVerificationType::Email,
                VerificationType::Sms => ProtonHumanVerificationType::Sms,
            },
    {
        let mut methods: Vec<ProtonHumanVerificationType> = Vec::new();
        let mut i: usize = 0;
        while i < value.methods.len()
            invariant
                i <= value.methods@.len(),
                methods@.len() == i,
                forall|j: int| 0 <= j < i ==> (#[trigger] methods@[j]) == match value.methods@[j] {
                    VerificationType::Captcha => ProtonHumanVerificationType::Captcha,
                    VerificationType::Email => ProtonHumanVerificationType::Email,
                    VerificationType::Sms => ProtonHumanVerificationType::Sms,
                },
            decreases value.methods@.len() - i,
        {
            methods.push(ProtonHumanVerificationType::from_verification_type(value.methods[i]));
            i = i + 1;
        }
        ProtonHumanVerification { methods, token: value.token }
    }
}

/// Errors of the Proton login sequence.
#[derive(Debug)]
pub enum ProtonLoginError {
    Api(String),
    Http(String),
    InvalidState,
    SRPServerProof(String),
    SRP(String),
    Unsupported2FA(String),
    InvalidHumanVerificationData,
    HumanVerificationRequired(ProtonHumanVerification),
    HumanVerificationTypeNotSupported(ProtonHumanVerificationType),
    AuthStore(String),
    Invalid,
    CreateAccount(crate::mobile::yhm::YhmError),
}

} // verus!
