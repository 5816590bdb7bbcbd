//! Errors, replies and requests of the mail API.
use crate::label::Id as LabelId;
use vstd::prelude::*;
use vstd::string::*;

verus! {

/// The code the API answers a successful operation with.
pub const OPERATION_SUCCESS: u32 = 1000;

/// The code with which the API asks for human verification.
pub const HUMAN_VERIFICATION_REQUESTED: u32 = 9001;

/// The parts of an error's JSON details that the library reads: each is
/// `None` when the details lack it or it has the wrong type.
#[derive(Debug)]
pub struct ErrorDetails {
    pub human_verification_methods: Option<Vec<String>>,
    pub human_verification_token: Option<String>,
}

/// Error status and details returned from the server.
#[derive(Debug)]
pub struct APIErrorDesc {
    pub code: u32,
    pub error: Option<String>,
    pub details: Option<ErrorDetails>,
}

/// An error answered by the mail API.
#[derive(Debug)]
pub struct APIError {
    /// Http code of the error.
    pub http_code: u16,
    /// Internal API code.
    pub api_code: u32,
    /// Optional error message.
    pub message: Option<String>,
    /// Optional details.
    pub details: Option<ErrorDetails>,
}

/// Why no human verification details could be had from an error.
#[derive(Debug)]
pub enum GetHumanVerificationError {
    /// The error is not a human verification request.
    NotHumanVerificationError,
    /// The details are missing or malformed; the message says which.
    Deserialize(String),
    /// A verification method that is not known.
    UnknownVerificationType(String),
}

/// A kind of human verification.
#[derive(Debug, Copy, Clone, PartialEq, Eq, Structural)]
pub enum VerificationType {
    Captcha,
    Email,
    Sms,
}

/// A human verification request: its token and the methods offered.
#[derive(Debug)]
pub struct HumanVerification {
    pub token: String,
    pub methods: Vec<VerificationType>,
}

/// The verification method a name stands for.
pub open spec fn verification_type_spec(name: Seq<char>) -> Option<VerificationType> {
    if name == "captcha"@ {
        Some(VerificationType::Captcha)
    } else if name == "email"@ {
        Some(VerificationType::Email)
    } else if name == "sms"@ {
        Some(VerificationType::Sms)
    } else {
        None
    }
}

/// The verification method a name stands for.
pub fn verification_type(name: &String) -> (r: Option<VerificationType>)
    ensures
        r == verification_type_spec(name@),
{
    if name.eq(&"captcha".to_owned()) {
        Some(VerificationType::Captcha)
    } else if name.eq(&"email".to_owned()) {
        Some(VerificationType::Email)
    } else if name.eq(&"sms".to_owned()) {
        Some(VerificationType::Sms)
    } else {
        None
    }
}

impl APIError {
    /// Whether this error is a request for human verification.
    pub open spec fn spec_is_hv(&self) -> bool {
        self.api_code == HUMAN_VERIFICATION_REQUESTED
    }

    /// The method names and the token of a complete verification request.
    pub open spec fn hv_parts(&self) -> Option<(Seq<String>, String)> {
        if self.spec_is_hv() {
            match self.details {
                Some(d) => match (d.human_verification_methods, d.human_verification_token) {
                    (Some(ms), Some(t)) => Some((ms@, t)),
                    _ => None,
                },
                None => None,
            }
        } else {
            None
        }
    }

    /// Whether this error is a request for human verification.
    pub fn is_human_verification_request(&self) -> (r: bool)
        ensures
            r == self.spec_is_hv(),
    {
        self.api_code == HUMAN_VERIFICATION_REQUESTED
    }

    /// The human verification details of this error: the token and the
    /// methods, each method name mapped to its kind. It fails if the error is
    /// no verification request, if the details, the methods or the token are
    /// missing, or at the first method name that is not known.
    pub fn try_get_human_verification_details(&self) -> (r: Result<HumanVerification, GetHumanVerificationError>)
        ensures
            !self.spec_is_hv() ==> r matches Err(GetHumanVerificationError::NotHumanVerificationError),
            self.spec_is_hv() && (self.details is None || self.details->Some_0.human_verification_methods is None
                || self.details->Some_0.human_verification_token is None) ==> r matches Err(GetHumanVerificationError::Deserialize(_)),
            match self.hv_parts() {
                Some((ms, t)) => match r {
                    Ok(hv) => {
                        &&& hv.token@ == t@
                        &&& hv.methods@.len() == ms.len()
                        &&& forall|i: int| 0 <= i < ms.len() ==> verification_type_spec((#[trigger] ms[i])@) == Some(hv.methods@[i])
                    },
                    Err(GetHumanVerificationError::UnknownVerificationType(name)) => exists|i: int| 0 <= i < ms.len()
                        && verification_type_spec((#[trigger] ms[i])@) is None && ms[i]@ == name@
                        && forall|j: int| 0 <= j < i ==> verification_type_spec((#[trigger] ms[j])@) is Some,
                    Err(_) => false,
                },
                None => true,
            },
            match self.hv_parts() {
                Some((ms, t)) => r is Ok <==> forall|i: int| 0 <= i < ms.len() ==> verification_type_spec((#[trigger] ms[i])@) is Some,
                None => r is Err,
            },
    {
        if !self.is_human_verification_request() {
            return Err(GetHumanVerificationError::NotHumanVerificationError);
        }
        let details = match &self.details {
            Some(d) => d,
            None => {
                return Err(GetHumanVerificationError::Deserialize("Error details are missing".to_owned()));
            },
        };
        let methods = match &details.human_verification_methods {
            Some(m) => m,
            None => {
                return Err(GetHumanVerificationError::Deserialize("missing field `HumanVerificationMethods`".to_owned()));
            },
        };
        let token = match &details.human_verification_token {
            Some(t) => t,
            None => {
                return Err(GetHumanVerificationError::Deserialize("missing field `HumanVerificationToken`".to_owned()));
            },
        };
        let mut hv_types: Vec<VerificationType> = Vec::new();
        let mut i: usize = 0;
        while i < methods.len()
            invariant
                i <= methods@.len(),
                hv_types@.len() == i,
                self.spec_is_hv(),
                self.details == Some(*details),
                details.human_verification_methods == Some(*methods),
                details.human_verification_token == Some(*token),
                forall|j: int| 0 <= j < i ==> verification_type_spec((#[trigger] methods@[j])@) == Some(hv_types@[j]),
            decreases methods@.len() - i,
        {
            match verification_type(&methods[i]) {
                Some(t) => hv_types.push(t),
                None => {
                    return Err(GetHumanVerificationError::UnknownVerificationType(methods[i].clone()));
                },
            }
            i = i + 1;
        }
        Ok(HumanVerification { token: token.clone(), methods: hv_types })
    }

    /// An error with only an http status.
    pub fn new(http_status: u16) -> (r: Self)
        ensures
            r.http_code == http_status,
            r.api_code == 0,
            r.message is None,
            r.details is None,
    {
        APIError { http_code: http_status, api_code: 0, message: None, details: None }
    }

    /// An error with an http status and the server's description.
    pub fn with_desc(http_status: u16, description: APIErrorDesc) -> (r: Self)
        ensures
            r.http_code == http_status,
            r.api_code == description.code,
            r.message == description.error,
            r.details == description.details,
    {
        APIError {
            http_code: http_status,
            api_code: description.code,
            message: description.error,
            details: description.details,
        }
    }

    /// An error from an http status and the server's answer, decoded as a
    /// description where that succeeded (`None` where the body could not be
    /// decoded): the description's fields where there is one, only the status
    /// otherwise.
    pub fn with_status_and_response(status: u16, response: Option<APIErrorDesc>) -> (r: Self)
        ensures
            r.http_code == status,
            match response {
                Some(d) => r.api_code == d.code && r.message == d.error && r.details == d.details,
                None => r.api_code == 0 && r.message is None && r.details is None,
            },
    {
        match response {
            Some(desc) => Self::with_desc(status, desc),
            None => Self::new(status),
        }
    }
}

/// Response item returned for a message operation.
#[derive(Debug)]
pub struct OperationResponse {
    pub id: String,
    pub response: APIErrorDesc,
}

impl OperationResponse {
    /// A successful operation on the message `id`.
    pub fn ok(id: String) -> (r: Self)
        ensures
            r.id == id,
            r.response.code == OPERATION_SUCCESS,
            r.response.error is None,
            r.response.details is None,
    {
        OperationResponse { id, response: APIErrorDesc { code: OPERATION_SUCCESS, details: None, error: None } }
    }

    /// Whether the operation succeeded.
    pub fn is_success(&self) -> (r: bool)
        ensures
            r == (self.response.code == OPERATION_SUCCESS),
    {
        self.response.code == OPERATION_SUCCESS
    }

    /// The outcome as a result: an unsuccessful operation becomes an error
    /// with http status 200 and the operation's description.
    pub fn into_result(self) -> (r: Result<(), APIError>)
        ensures
            self.response.code == OPERATION_SUCCESS ==> r is Ok,
            self.response.code != OPERATION_SUCCESS ==> (r matches Err(e) && e.http_code == 200
                && e.api_code == self.response.code && e.message == self.response.error
                && e.details == self.response.details),
    {
        if self.is_success() {
            Ok(())
        } else {
            Err(APIError::with_desc(200, self.response))
        }
    }
}

/// Responses of the mark-read operation.
#[derive(Debug)]
pub struct PutMarkMessageReadResponse {
    pub responses: Vec<OperationResponse>,
}

/// Responses of the label operation.
#[derive(Debug)]
pub struct PutLabelMessageResponse {
    pub responses: Vec<OperationResponse>,
}

/// Http method of a request.
#[derive(Debug, Copy, Clone, PartialEq, Eq, Structural)]
pub enum Method {
    Get,
    Put,
}

/// Reply to the latest-event request.
#[derive(Debug)]
pub struct GetLatestEventResponse {
    pub event_id: String,
}

/// Ask for the latest event.
#[derive(Debug, Copy, Clone)]
pub struct GetLatestEventRequest;

impl GetLatestEventRequest {
    pub fn method(&self) -> (r: Method)
        ensures
            r == Method::Get,
    {
        Method::Get
    }

    pub fn url(&self) -> (r: String)
        ensures
            r@ == "core/v4/events/latest"@,
    {
        "core/v4/events/latest".to_owned()
    }
}

/// Ask for the event that follows `event_id`.
#[derive(Debug)]
pub struct GetEventRequest<'a> {
    event_id: &'a String,
}

impl<'a> GetEventRequest<'a> {
    /// The event that the request names.
    pub closed spec fn id_view(&self) -> Seq<char> {
        self.event_id@
    }

    pub fn new(id: &'a String) -> (r: Self)
        ensures
            r.id_view() == id@,
    {
        GetEventRequest { event_id: id }
    }

    pub fn method(&self) -> (r: Method)
        ensures
            r == Method::Get,
    {
        Method::Get
    }

    pub fn url(&self) -> (r: String)
        ensures
            r@ == "core/v4/events/"@ + self.id_view(),
    {
        let mut s = "core/v4/events/".to_owned();
        s.append(self.event_id.as_str());
        s
    }
}

/// Mark the given messages as read.
#[derive(Debug)]
pub struct PutMarkMessageReadRequest {
    pub ids: Vec<String>,
}

impl PutMarkMessageReadRequest {
    pub fn new(ids: Vec<String>) -> (r: Self)
        ensures
            r.ids == ids,
    {
        PutMarkMessageReadRequest { ids }
    }

    pub fn method(&self) -> (r: Method)
        ensures
            r == Method::Put,
    {
        Method::Put
    }

    pub fn url(&self) -> (r: String)
        ensures
            r@ == "mail/v4/messages/read"@,
    {
        "mail/v4/messages/read".to_owned()
    }
}

/// Put the given messages under the label `label_id`.
#[derive(Debug)]
pub struct PutLabelMessageRequest {
    pub ids: Vec<String>,
    pub label_id: LabelId,
}

impl PutLabelMessageRequest {
    pub fn new(label_id: LabelId, ids: Vec<String>) -> (r: Self)
        ensures
            r.ids == ids,
            r.label_id == label_id,
    {
        PutLabelMessageRequest { ids, label_id }
    }

    pub fn method(&self) -> (r: Method)
        ensures
            r == Method::Put,
    {
        Method::Put
    }

    pub fn url(&self) -> (r: String)
        ensures
            r@ == "mail/v4/messages/label"@,
    {
        "mail/v4/messages/label".to_owned()
    }
}

/// Check that the server answers.
#[derive(Debug, Copy, Clone)]
pub struct Ping;

impl Ping {
    pub fn method(&self) -> (r: Method)
        ensures
            r == Method::Get,
    {
        Method::Get
    }

    pub fn url(&self) -> (r: String)
        ensures
            r@ == "tests/ping"@,
    {
        "tests/ping".to_owned()
    }
}

/// Ask for the user's information.
#[derive(Debug, Copy, Clone)]
pub struct GetUserInfoRequest {}

impl GetUserInfoRequest {
    pub fn method(&self) -> (r: Method)
        ensures
            r == Method::Get,
    {
        Method::Get
    }

    pub fn url(&self) -> (r: String)
        ensures
            r@ == "core/v4/users"@,
    {
        "core/v4/users".to_owned()
    }
}

} // verus!
