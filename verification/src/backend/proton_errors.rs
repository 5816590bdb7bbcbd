//! How the Proton backend turns what the Proton servers and the login
//! sequence report into backend errors, how it checks the human verification
//! data of a login, and which client version and name it goes by.
use crate::api::{APIError, HumanVerification, VerificationType};
use crate::backend::{BackendError, BackendErrorKind};
use vstd::prelude::*;

verus! {

/// The app version the default Proton backend announces to the servers.
pub const PROTON_APP_VERSION: &'static str = "web-mail@5.0.19.5";

/// The app version of the variant that bypasses the captcha request.
pub const PROTON_APP_VERSION_OTHER: &'static str = "Other";

/// Name of the default Proton backend.
pub const PROTON_BACKEND_NAME: &'static str = "Proton Mail";

/// Name of the variant that bypasses the captcha request.
pub const PROTON_BACKEND_NAME_OTHER: &'static str = "Proton Mail V-Other";

/// Which client version a Proton backend uses.
#[derive(Debug, Copy, Clone, PartialEq, Eq, Structural)]
pub enum AppVersion {
    /// The web mail client version.
    Default,
    /// The "Other" version, which the servers do not ask for a captcha.
    Other,
}

impl AppVersion {
    /// The version string sent to the servers.
    pub fn version_text(&self) -> (r: &'static str)
        ensures
            r@ == (match self {
                AppVersion::Default => PROTON_APP_VERSION@,
                AppVersion::Other => PROTON_APP_VERSION_OTHER@,
            }),
    {
        match self {
            AppVersion::Default => PROTON_APP_VERSION,
            AppVersion::Other => PROTON_APP_VERSION_OTHER,
        }
    }

    /// The name of the backend that uses this version.
    pub fn backend_name(&self) -> (r: &'static str)
        ensures
            r@ == (match self {
                AppVersion::Default => PROTON_BACKEND_NAME@,
                AppVersion::Other => PROTON_BACKEND_NAME_OTHER@,
            }),
    {
        match self {
            AppVersion::Default => PROTON_BACKEND_NAME,
            AppVersion::Other => PROTON_BACKEND_NAME_OTHER,
        }
    }

    /// The description of the backend that uses this version.
    pub fn backend_description(&self) -> (r: &'static str)
        ensures
            r@ == (match self {
                AppVersion::Default => "For Proton accounts (mail.proton.com)"@,
                AppVersion::Other => "For Proton accounts (mail.proton.com) - Bypasses Captcha Request"@,
            }),
    {
        match self {
            AppVersion::Default => "For Proton accounts (mail.proton.com)",
            AppVersion::Other => "For Proton accounts (mail.proton.com) - Bypasses Captcha Request",
        }
    }

    /// The version a saved session was made with: the "Other" version only
    /// where the saved flag says so; an older save without the flag used the
    /// default version.
    pub fn from_saved_flag(is_other_version: Option<bool>) -> (r: AppVersion)
        ensures
            r == (if is_other_version == Some(true) {
                AppVersion::Other
            } else {
                AppVersion::Default
            }),
    {
        match is_other_version {
            Some(true) => AppVersion::Other,
            _ => AppVersion::Default,
        }
    }

    /// The flag saved with a session of this version.
    pub fn saved_flag(&self) -> (r: bool)
        ensures
            r == (*self == AppVersion::Other),
    {
        match self {
            AppVersion::Default => false,
            AppVersion::Other => true,
        }
    }
}

/// Why a request to the Proton servers failed, as the http client reports it;
/// each variant but the first carries the message of its cause.
#[derive(Debug)]
pub enum HttpError {
    /// The server answered with an error.
    API(APIError),
    /// The server redirected the request: the target and the message.
    Redirect(String, String),
    /// The request timed out.
    Timeout(String),
    /// The connection failed.
    Connection(String),
    /// The request could not be made.
    Request(String),
    /// Any other failure.
    Other(String),
    /// A body could not be encoded or decoded.
    EncodeOrDecode(String),
}

/// Why a login failed, as the login sequence reports it; each variant
/// carries the text of the error.
#[derive(Debug)]
pub enum LoginError {
    /// A request of the sequence failed.
    Request(HttpError),
    /// The server's proof did not verify.
    ServerProof(String),
    /// The account's second factor is not supported.
    Unsupported2FA(String),
    /// The servers ask for human verification.
    HumanVerificationRequired(HumanVerification),
    /// The proof could not be computed.
    SRPProof(String),
}

/// The error text of a server error: its message, else its two codes.
pub open spec fn api_error_text(e: APIError) -> Seq<char> {
    match e.message {
        Some(m) => m@,
        None => "APIError code="@ + crate::text::decimal(e.api_code as nat)
            + " you-have-mail-http="@ + crate::text::decimal(e.http_code as nat),
    }
}

impl APIError {
    /// The text of this error; see [`api_error_text`].
    pub fn to_text(&self) -> (r: String)
        ensures
            r@ == api_error_text(*self),
    {
        match &self.message {
            Some(m) => m.clone(),
            None => {
                let mut s = String::new();
                s.append("APIError code=");
                crate::text::push_decimal(&mut s, self.api_code as u64);
                s.append(" you-have-mail-http=");
                crate::text::push_decimal(&mut s, self.http_code as u64);
                proof {
                    reveal_strlit("APIError code=");
                    reveal_strlit(" you-have-mail-http=");
                }
                s
            },
        }
    }
}

/// The kind of backend error a failed request stands for. A server error
/// with http code 401 means the session is gone: the account is logged out.
pub open spec fn http_error_kind(e: HttpError) -> BackendErrorKind {
    match e {
        HttpError::API(a) => if a.http_code == 401 {
            BackendErrorKind::LoggedOut
        } else {
            BackendErrorKind::API
        },
        HttpError::Redirect(_, _) => BackendErrorKind::Request,
        HttpError::Timeout(_) => BackendErrorKind::Timeout,
        HttpError::Connection(_) => BackendErrorKind::Connection,
        HttpError::Request(_) => BackendErrorKind::Request,
        HttpError::Other(_) => BackendErrorKind::Unknown,
        HttpError::EncodeOrDecode(_) => BackendErrorKind::EncodeOrDecode,
    }
}

/// The message of the backend error a failed request stands for: the text
/// of a server error, or the message of the cause.
pub open spec fn http_error_message(e: HttpError) -> Seq<char> {
    match e {
        HttpError::API(a) => if a.http_code == 401 {
            Seq::empty()
        } else {
            api_error_text(a)
        },
        HttpError::Redirect(_, m) => m@,
        HttpError::Timeout(m) => m@,
        HttpError::Connection(m) => m@,
        HttpError::Request(m) => m@,
        HttpError::Other(m) => m@,
        HttpError::EncodeOrDecode(m) => m@,
    }
}

/// The backend error a failed request stands for; see [`http_error_kind`].
pub fn backend_error_from_http(e: HttpError) -> (r: BackendError)
    ensures
        r.kind() == http_error_kind(e),
        r.message() == http_error_message(e),
{
    match e {
        HttpError::API(a) => {
            if a.http_code == 401 {
                BackendError::LoggedOut
            } else {
                BackendError::API(a.to_text())
            }
        },
        HttpError::Redirect(_, m) => BackendError::Request(m),
        HttpError::Timeout(m) => BackendError::Timeout(m),
        HttpError::Connection(m) => BackendError::Connection(m),
        HttpError::Request(m) => BackendError::Request(m),
        HttpError::Other(m) => BackendError::Unknown(m),
        HttpError::EncodeOrDecode(m) => BackendError::EncodeOrDecode(m),
    }
}

/// Whether a failed session refresh means the saved token is no longer
/// valid: the server answers 400 with code 10013.
pub open spec fn is_invalid_token(e: HttpError) -> bool {
    e matches HttpError::API(a) && a.http_code == 400 && a.api_code == 10013
}

/// The backend error for a failed session refresh: an invalid token logs the
/// account out; anything else maps as any failed request does.
pub fn backend_error_from_refresh(e: HttpError) -> (r: BackendError)
    ensures
        is_invalid_token(e) ==> r is LoggedOut,
        !is_invalid_token(e) ==> r.kind() == http_error_kind(e) && r.message() == http_error_message(e),
{
    let invalid = match &e {
        HttpError::API(a) => a.http_code == 400 && a.api_code == 10013,
        _ => false,
    };
    if invalid {
        BackendError::LoggedOut
    } else {
        backend_error_from_http(e)
    }
}

/// The text of a login error that the backend reports as it stands.
pub open spec fn login_error_text(kind: Seq<char>, m: Seq<char>) -> Seq<char> {
    kind + m
}

/// The backend error a failed login stands for: a failed request maps as
/// any failed request does; a proof the server could not verify is a failed
/// request; an unsupported second factor or a proof that could not be
/// computed is an unknown error, with the login error's text; a human
/// verification request is not one the backend knows how to report.
pub open spec fn login_error_spec(e: LoginError) -> (BackendErrorKind, Seq<char>) {
    match e {
        LoginError::Request(h) => (http_error_kind(h), http_error_message(h)),
        LoginError::ServerProof(m) => (
            BackendErrorKind::Request,
            login_error_text("Server SRP proof verification failed: "@, m@),
        ),
        LoginError::Unsupported2FA(m) => (
            BackendErrorKind::Unknown,
            login_error_text("Account 2FA method ("@, m@ + ")is not supported"@),
        ),
        LoginError::SRPProof(m) => (
            BackendErrorKind::Unknown,
            login_error_text("Failed to calculate SRP Proof: "@, m@),
        ),
        LoginError::HumanVerificationRequired(_) => (BackendErrorKind::Unknown, "Unhandled Login Error"@),
    }
}

/// The backend error a failed login stands for; see [`login_error_spec`].
pub fn backend_error_from_login(e: LoginError) -> (r: BackendError)
    ensures
        (r.kind(), r.message()) == login_error_spec(e),
{
    proof {
        reveal_strlit("Server SRP proof verification failed: ");
        reveal_strlit("Account 2FA method (");
        reveal_strlit(")is not supported");
        reveal_strlit("Failed to calculate SRP Proof: ");
        reveal_strlit("Unhandled Login Error");
    }
    match e {
        LoginError::Request(h) => backend_error_from_http(h),
        LoginError::ServerProof(m) => {
            let mut s = String::from_str("Server SRP proof verification failed: ");
            s.append(m.as_str());
            BackendError::Request(s)
        },
        LoginError::Unsupported2FA(m) => {
            let mut s = String::from_str("Account 2FA method (");
            s.append(m.as_str());
            s.append(")is not supported");
            BackendError::Unknown(s)
        },
        LoginError::SRPProof(m) => {
            let mut s = String::from_str("Failed to calculate SRP Proof: ");
            s.append(m.as_str());
            BackendError::Unknown(s)
        },
        LoginError::HumanVerificationRequired(_) => BackendError::Unknown(
            String::from_str("Unhandled Login Error"),
        ),
    }
}

/// Human verification data handed in with a login: the kind of verification
/// and the token it produced.
#[derive(Debug)]
pub struct HVData {
    pub hv_type: VerificationType,
    pub hv_token: String,
}

/// Check the human verification data handed in with a login: none is fine;
/// data that could not be read (the reason is given) or that is not for a
/// captcha is refused as invalid; captcha data is used.
pub fn login_hv_data(hv: Option<Result<HVData, String>>) -> (r: Result<Option<HVData>, BackendError>)
    ensures
        hv is None ==> r == Ok::<Option<HVData>, BackendError>(None),
        hv matches Some(Err(m)) ==> (r matches Err(e) && e is HVDataInvalid && e.message() == m@),
        hv matches Some(Ok(d)) ==> (if d.hv_type == VerificationType::Captcha {
            r == Ok::<Option<HVData>, BackendError>(Some(d))
        } else {
            (r matches Err(e) && e is HVDataInvalid
                && e.message() == "Only captcha based human verification is supported"@)
        }),
{
    match hv {
        None => Ok(None),
        Some(Err(m)) => Err(BackendError::HVDataInvalid(m)),
        Some(Ok(d)) => {
            if d.hv_type == VerificationType::Captcha {
                Ok(Some(d))
            } else {
                Err(
                    BackendError::HVDataInvalid(
                        String::from_str("Only captcha based human verification is supported"),
                    ),
                )
            }
        },
    }
}

/// What to do when the servers ask for human verification at login: fetch
/// the captcha with the request's token (`Ok`) if a captcha is among the
/// methods offered, else fail, as no other method is supported.
pub fn captcha_token(hv: &HumanVerification) -> (r: Result<String, BackendError>)
    ensures
        hv.methods@.contains(VerificationType::Captcha) ==> (r matches Ok(t) && t@ == hv.token@),
        !hv.methods@.contains(VerificationType::Captcha) ==> (r matches Err(e) && e is Unknown
            && e.message() == "Human Verification request, but no supported type available"@),
{
    let mut i: usize = 0;
    while i < hv.methods.len()
        invariant
            i <= hv.methods@.len(),
            forall|j: int| 0 <= j < i ==> hv.methods@[j] != VerificationType::Captcha,
        decreases hv.methods@.len() - i,
    {
        if hv.methods[i] == VerificationType::Captcha {
            return Ok(hv.token.clone());
        }
        i = i + 1;
    }
    Err(
        BackendError::Unknown(
            String::from_str("Human Verification request, but no supported type available"),
        ),
    )
}

/// The error reported when the captcha page could not be fetched.
pub fn captcha_fetch_failed(reason: &String) -> (r: BackendError)
    ensures
        r is Request,
        r.message() == "Failed to retrieve captcha "@ + reason@,
{
    let mut s = String::from_str("Failed to retrieve captcha ");
    s.append(reason.as_str());
    proof {
        reveal_strlit("Failed to retrieve captcha ");
    }
    BackendError::Request(s)
}

} // verus!
