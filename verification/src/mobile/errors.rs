//! Errors reported to the mobile applications, and how the library's errors
//! map onto them.
use crate::account::AccountError;
use crate::backend::{Backend, BackendError};
use crate::observer::config::ConfigError as StoreError;
use crate::observer::ObserverError;
use vstd::prelude::*;

verus! {

/// What kind of request failed.
#[derive(Debug, Copy, Clone, PartialEq, Eq, Structural)]
pub enum RequestErrorCategory {
    Timeout,
    Connection,
    Request,
    API,
}

/// Errors of the configuration.
#[derive(Debug)]
pub enum ConfigError {
    Crypto { msg: String },
    JSON { msg: String },
    IO { msg: String },
    Unknown { msg: String },
}

/// Errors of the service.
#[derive(Debug)]
pub enum ServiceError {
    RPCFailed { msg: String },
    AccountNotFound { email: String },
    AccountAlreadyActive { email: String },
    InvalidAccountState,
    RequestError { category: RequestErrorCategory, msg: String },
    LoggedOut,
    Config { error: ConfigError },
    ProxyError,
    HVCaptchaRequest { msg: String },
    HVDataInvalid { msg: String },
    EncodeOrDecode { msg: String },
    Unknown { msg: String },
}

/// The service error a backend error becomes. A timeout is reported as a
/// connection failure.
pub open spec fn service_error_of_backend(e: BackendError) -> ServiceError {
    match e {
        BackendError::LoggedOut => ServiceError::LoggedOut,
        BackendError::Timeout(m) => ServiceError::RequestError { category: RequestErrorCategory::Connection, msg: m },
        BackendError::Request(m) => ServiceError::RequestError { category: RequestErrorCategory::Request, msg: m },
        BackendError::Unknown(m) => ServiceError::Unknown { msg: m },
        BackendError::Connection(m) => ServiceError::RequestError { category: RequestErrorCategory::Connection, msg: m },
        BackendError::API(m) => ServiceError::RequestError { category: RequestErrorCategory::API, msg: m },
        BackendError::HVCaptchaRequest(m) => ServiceError::HVCaptchaRequest { msg: m },
        BackendError::HVDataInvalid(m) => ServiceError::HVDataInvalid { msg: m },
        BackendError::EncodeOrDecode(m) => ServiceError::EncodeOrDecode { msg: m },
    }
}

/// The service error an account error becomes.
pub open spec fn service_error_of_account(e: AccountError) -> ServiceError {
    match e {
        AccountError::InvalidState => ServiceError::InvalidAccountState,
        AccountError::Backend(b) => service_error_of_backend(b),
        AccountError::Proxy => ServiceError::ProxyError,
        AccountError::Unknown(m) => ServiceError::Unknown { msg: m },
    }
}

/// The configuration error a failure of the accounts' record becomes.
pub open spec fn config_error_of_store(e: StoreError) -> ConfigError {
    match e {
        StoreError::IO(m) => ConfigError::IO { msg: m },
        StoreError::JSON(m) => ConfigError::JSON { msg: m },
        StoreError::Crypto(m) => ConfigError::Crypto { msg: m },
        StoreError::Unknown(m) => ConfigError::Unknown { msg: m },
    }
}

impl ConfigError {
    /// The configuration error a failure of the accounts' record becomes.
    pub fn from_store(e: StoreError) -> (r: ConfigError)
        ensures
            r == config_error_of_store(e),
    {
        match e {
            StoreError::IO(m) => ConfigError::IO { msg: m },
            StoreError::JSON(m) => ConfigError::JSON { msg: m },
            StoreError::Crypto(m) => ConfigError::Crypto { msg: m },
            StoreError::Unknown(m) => ConfigError::Unknown { msg: m },
        }
    }
}

impl ServiceError {
    /// The service error a backend error becomes.
    pub fn from_backend(value: BackendError) -> (r: ServiceError)
        ensures
            r == service_error_of_backend(value),
    {
        match value {
            BackendError::LoggedOut => ServiceError::LoggedOut,
            BackendError::Timeout(e) => ServiceError::RequestError { category: RequestErrorCategory::Connection, msg: e },
            BackendError::Request(e) => ServiceError::RequestError { category: RequestErrorCategory::Request, msg: e },
            BackendError::Unknown(e) => ServiceError::Unknown { msg: e },
            BackendError::Connection(e) => ServiceError::RequestError { category: RequestErrorCategory::Connection, msg: e },
            BackendError::API(e) => ServiceError::RequestError { category: RequestErrorCategory::API, msg: e },
            BackendError::HVCaptchaRequest(v) => ServiceError::HVCaptchaRequest { msg: v },
            BackendError::HVDataInvalid(v) => ServiceError::HVDataInvalid { msg: v },
            BackendError::EncodeOrDecode(v) => ServiceError::EncodeOrDecode { msg: v },
        }
    }

    /// The service error an account error becomes.
    pub fn from_account(value: AccountError) -> (r: ServiceError)
        ensures
            r == service_error_of_account(value),
    {
        match value {
            AccountError::InvalidState => ServiceError::InvalidAccountState,
            AccountError::Backend(e) => Self::from_backend(e),
            AccountError::Proxy => ServiceError::ProxyError,
            AccountError::Unknown(e) => ServiceError::Unknown { msg: e },
        }
    }

    /// The service error an observer error becomes; an account that is
    /// already active is an unknown error.
    pub fn from_observer<B: Backend>(value: ObserverError<B>) -> (r: ServiceError)
        ensures
            match value {
                ObserverError::AccountError(e) => r == service_error_of_account(e),
                ObserverError::Unknown(m) => r == ServiceError::Unknown { msg: m },
                ObserverError::NoSuchAccount(e) => r == ServiceError::AccountNotFound { email: e },
                ObserverError::Config(e) => r == ServiceError::Config { error: config_error_of_store(e) },
                ObserverError::AccountAlreadyActive(_) => r matches ServiceError::Unknown { msg } && msg@ == "Unknown error"@,
            },
    {
        match value {
            ObserverError::AccountError(e) => Self::from_account(e),
            ObserverError::Unknown(e) => ServiceError::Unknown { msg: e },
            ObserverError::NoSuchAccount(e) => ServiceError::AccountNotFound { email: e },
            ObserverError::Config(e) => ServiceError::Config { error: ConfigError::from_store(e) },
            ObserverError::AccountAlreadyActive(_) => ServiceError::Unknown { msg: "Unknown error".to_owned() },
        }
    }

    /// A configuration error.
    pub fn from_config(value: ConfigError) -> (r: ServiceError)
        ensures
            r == (ServiceError::Config { error: value }),
    {
        ServiceError::Config { error: value }
    }
}

} // verus!
