use you_have_mail_common::api::{
    APIError, APIErrorDesc, ErrorDetails, GetEventRequest, GetHumanVerificationError,
    GetLatestEventRequest, HumanVerification, Method, OperationResponse, PutLabelMessageRequest,
    PutMarkMessageReadRequest, VerificationType, OPERATION_SUCCESS,
};
use you_have_mail_common::backend::proton_errors::{
    backend_error_from_http, backend_error_from_login, backend_error_from_refresh, captcha_fetch_failed,
    captcha_token, login_hv_data, AppVersion, HVData, HttpError, LoginError,
};
use you_have_mail_common::backend::{BackendError, BackendErrorKind};
use you_have_mail_common::label::{Id, SysLabelId};

#[test]
fn system_label_ids() {
    assert_eq!(Id::inbox().0, "0");
    assert_eq!(Id::all_drafts().0, "1");
    // The same code as all drafts, as the API defines it.
    assert_eq!(Id::all_sent().0, "1");
    assert_eq!(Id::trash().0, "3");
    assert_eq!(Id::spam().0, "4");
    assert_eq!(Id::all_mail().0, "5");
    assert_eq!(Id::archive().0, "6");
    assert_eq!(Id::sent().0, "7");
    assert_eq!(Id::drafts().0, "8");
    assert_eq!(Id::outbox().0, "9");
    assert_eq!(Id::starred().0, "10");
    assert_eq!(Id::all_scheduled().0, "12");
    assert_eq!(SysLabelId::inbox().as_str(), "0");
    assert!(SysLabelId::trash().eq_id(&Id("3".to_string())));
    assert!(!SysLabelId::trash().eq_id(&Id("4".to_string())));
}

#[test]
fn request_urls() {
    let id = "my_event".to_string();
    let req = GetEventRequest::new(&id);
    assert_eq!(req.url(), "core/v4/events/my_event");
    assert_eq!(req.method(), Method::Get);
    assert_eq!(GetLatestEventRequest.url(), "core/v4/events/latest");
    let read = PutMarkMessageReadRequest::new(vec!["my_message".to_string()]);
    assert_eq!(read.ids, vec!["my_message".to_string()]);
    assert_eq!(read.url(), "mail/v4/messages/read");
    assert_eq!(read.method(), Method::Put);
    let label = PutLabelMessageRequest::new(Id::trash(), vec!["my_message".to_string()]);
    assert_eq!(label.label_id.0, "3");
    assert_eq!(label.url(), "mail/v4/messages/label");
}

#[test]
fn operation_response() {
    let ok = OperationResponse::ok("id".to_string());
    assert!(ok.is_success());
    assert_eq!(OPERATION_SUCCESS, 1000);
    assert!(ok.into_result().is_ok());
}

fn hv_error(methods: Option<Vec<&str>>, token: Option<&str>) -> APIError {
    APIError::with_desc(
        422,
        APIErrorDesc {
            code: 9001,
            error: Some("Human verification required".to_string()),
            details: Some(ErrorDetails {
                human_verification_methods: methods.map(|m| m.iter().map(|s| s.to_string()).collect()),
                human_verification_token: token.map(|t| t.to_string()),
            }),
        },
    )
}

#[test]
fn human_verification_details() {
    let e = hv_error(Some(vec!["captcha", "email"]), Some("tok"));
    assert!(e.is_human_verification_request());
    let hv = e.try_get_human_verification_details().unwrap();
    assert_eq!(hv.token, "tok");
    assert_eq!(hv.methods, vec![VerificationType::Captcha, VerificationType::Email]);

    let bad = hv_error(Some(vec!["sms", "carrier pigeon"]), Some("tok"));
    assert!(matches!(
        bad.try_get_human_verification_details(),
        Err(GetHumanVerificationError::UnknownVerificationType(t)) if t == "carrier pigeon"
    ));
    let missing = hv_error(None, Some("tok"));
    assert!(matches!(
        missing.try_get_human_verification_details(),
        Err(GetHumanVerificationError::Deserialize(_))
    ));
    let plain = APIError::new(500);
    assert!(!plain.is_human_verification_request());
    assert!(matches!(
        plain.try_get_human_verification_details(),
        Err(GetHumanVerificationError::NotHumanVerificationError)
    ));
}

#[test]
fn api_error_text() {
    assert_eq!(APIError::new(500).to_text(), "APIError code=0 you-have-mail-http=500");
    let e = APIError::with_desc(
        422,
        APIErrorDesc { code: 2001, error: Some("Invalid input".to_string()), details: None },
    );
    assert_eq!(e.to_text(), "Invalid input");
}

#[test]
fn http_errors_map_to_backend_errors() {
    assert!(matches!(backend_error_from_http(HttpError::API(APIError::new(401))), BackendError::LoggedOut));
    assert!(matches!(
        backend_error_from_http(HttpError::API(APIError::new(500))),
        BackendError::API(m) if m == "APIError code=0 you-have-mail-http=500"
    ));
    assert!(matches!(
        backend_error_from_http(HttpError::Redirect("url".to_string(), "moved".to_string())),
        BackendError::Request(m) if m == "moved"
    ));
    assert!(matches!(backend_error_from_http(HttpError::Timeout("t".to_string())), BackendError::Timeout(_)));
    assert!(matches!(backend_error_from_http(HttpError::Connection("c".to_string())), BackendError::Connection(_)));
    assert!(matches!(backend_error_from_http(HttpError::Request("r".to_string())), BackendError::Request(_)));
    assert!(matches!(backend_error_from_http(HttpError::Other("o".to_string())), BackendError::Unknown(_)));
    assert!(matches!(
        backend_error_from_http(HttpError::EncodeOrDecode("d".to_string())),
        BackendError::EncodeOrDecode(_)
    ));
    assert_eq!(backend_error_from_http(HttpError::Timeout("t".to_string())).error_kind(), BackendErrorKind::Timeout);
}

#[test]
fn refresh_with_invalid_token_logs_out() {
    let mut invalid = APIError::new(400);
    invalid.api_code = 10013;
    assert!(matches!(backend_error_from_refresh(HttpError::API(invalid)), BackendError::LoggedOut));
    let mut other = APIError::new(400);
    other.api_code = 2000;
    assert!(matches!(backend_error_from_refresh(HttpError::API(other)), BackendError::API(_)));
    assert!(matches!(backend_error_from_refresh(HttpError::Timeout("t".to_string())), BackendError::Timeout(_)));
}

#[test]
fn login_errors_map_to_backend_errors() {
    assert!(matches!(
        backend_error_from_login(LoginError::ServerProof("bad".to_string())),
        BackendError::Request(m) if m == "Server SRP proof verification failed: bad"
    ));
    assert!(matches!(
        backend_error_from_login(LoginError::Unsupported2FA("FIDO2".to_string())),
        BackendError::Unknown(m) if m == "Account 2FA method (FIDO2)is not supported"
    ));
    assert!(matches!(
        backend_error_from_login(LoginError::SRPProof("x".to_string())),
        BackendError::Unknown(m) if m == "Failed to calculate SRP Proof: x"
    ));
    assert!(matches!(
        backend_error_from_login(LoginError::Request(HttpError::API(APIError::new(401)))),
        BackendError::LoggedOut
    ));
    let hv = HumanVerification { token: "t".to_string(), methods: vec![] };
    assert!(matches!(
        backend_error_from_login(LoginError::HumanVerificationRequired(hv)),
        BackendError::Unknown(m) if m == "Unhandled Login Error"
    ));
}

#[test]
fn login_human_verification_data() {
    assert!(matches!(login_hv_data(None), Ok(None)));
    let captcha = HVData { hv_type: VerificationType::Captcha, hv_token: "tok".to_string() };
    assert!(matches!(login_hv_data(Some(Ok(captcha))), Ok(Some(d)) if d.hv_token == "tok"));
    let email = HVData { hv_type: VerificationType::Email, hv_token: "tok".to_string() };
    assert!(matches!(
        login_hv_data(Some(Ok(email))),
        Err(BackendError::HVDataInvalid(m)) if m == "Only captcha based human verification is supported"
    ));
    assert!(matches!(
        login_hv_data(Some(Err("expected value".to_string()))),
        Err(BackendError::HVDataInvalid(m)) if m == "expected value"
    ));
}

#[test]
fn captcha_is_the_only_supported_verification() {
    let hv = HumanVerification {
        token: "tok".to_string(),
        methods: vec![VerificationType::Email, VerificationType::Captcha],
    };
    assert_eq!(captcha_token(&hv).unwrap(), "tok");
    let hv = HumanVerification { token: "tok".to_string(), methods: vec![VerificationType::Sms] };
    assert!(matches!(
        captcha_token(&hv),
        Err(BackendError::Unknown(m)) if m == "Human Verification request, but no supported type available"
    ));
    assert!(matches!(
        captcha_fetch_failed(&"timeout".to_string()),
        BackendError::Request(m) if m == "Failed to retrieve captcha timeout"
    ));
}

#[test]
fn app_versions() {
    assert_eq!(AppVersion::Default.version_text(), "web-mail@5.0.19.5");
    assert_eq!(AppVersion::Other.version_text(), "Other");
    assert_eq!(AppVersion::Default.backend_name(), "Proton Mail");
    assert_eq!(AppVersion::Other.backend_name(), "Proton Mail V-Other");
    assert_eq!(
        AppVersion::Other.backend_description(),
        "For Proton accounts (mail.proton.com) - Bypasses Captcha Request"
    );
    assert_eq!(AppVersion::from_saved_flag(None), AppVersion::Default);
    assert_eq!(AppVersion::from_saved_flag(Some(false)), AppVersion::Default);
    assert_eq!(AppVersion::from_saved_flag(Some(true)), AppVersion::Other);
    assert!(AppVersion::Other.saved_flag());
    assert!(!AppVersion::Default.saved_flag());
}

#[test]
fn error_from_status_and_response() {
    let decoded = APIError::with_status_and_response(
        422,
        Some(APIErrorDesc { code: 2001, error: Some("Invalid input".to_string()), details: None }),
    );
    assert_eq!(decoded.http_code, 422);
    assert_eq!(decoded.api_code, 2001);
    assert_eq!(decoded.message.as_deref(), Some("Invalid input"));
    let undecoded = APIError::with_status_and_response(502, None);
    assert_eq!(undecoded.http_code, 502);
    assert_eq!(undecoded.api_code, 0);
    assert!(undecoded.message.is_none());
    assert!(undecoded.details.is_none());
}
