//! The requests that callers hand to the observer's worker, and how a
//! request's payload is given back when the worker could not be reached.
use crate::account::Account;
use crate::backend::Backend;
use crate::observer::worker::ObserverRequest;
use vstd::prelude::*;

verus! {

/// Errors of a request made to the observer's worker.
#[derive(Debug)]
pub enum ObserverRPCError<T, E> {
    /// The request could not be sent; its payload is handed back.
    SendFailed(T),
    /// The request could not be sent, and its payload could not be had back.
    SendFailedUnexpectedType,
    /// No reply was received.
    NoReply,
    /// The worker answered with an error.
    Error(E),
}

/// The error for a request that could not be sent: the payload, if it could
/// be had back from the request.
pub fn send_failed<T, E>(recovered: Option<T>) -> (r: ObserverRPCError<T, E>)
    ensures
        recovered matches Some(v) ==> r == ObserverRPCError::<T, E>::SendFailed(v),
        recovered is None ==> r is SendFailedUnexpectedType,
{
    match recovered {
        Some(v) => ObserverRPCError::SendFailed(v),
        None => ObserverRPCError::SendFailedUnexpectedType,
    }
}

/// Remove the account with this email.
#[derive(Debug)]
pub struct RemoveAccountRequest {
    pub email: String,
}

impl RemoveAccountRequest {
    /// The request to send.
    pub fn into_request<B: Backend>(self) -> (r: ObserverRequest<B>)
        ensures
            r == ObserverRequest::<B>::RemoveAccount(self.email),
    {
        ObserverRequest::RemoveAccount(self.email)
    }

    /// The email of a removal request that could not be sent.
    pub fn recover_send_value<B: Backend>(request: ObserverRequest<B>) -> (r: Option<String>)
        ensures
            request matches ObserverRequest::RemoveAccount(e) ==> r == Some(e),
            !(request is RemoveAccount) ==> r is None,
    {
        match request {
            ObserverRequest::RemoveAccount(e) => Some(e),
            _ => None,
        }
    }
}

/// Add this account.
pub struct AddAccountRequest<B: Backend> {
    pub account: Account<B>,
}

impl<B: Backend> AddAccountRequest<B> {
    /// The request to send.
    pub fn into_request(self) -> (r: ObserverRequest<B>)
        ensures
            r == ObserverRequest::<B>::AddAccount(self.account),
    {
        ObserverRequest::AddAccount(self.account)
    }

    /// The account of an addition request that could not be sent.
    pub fn recover_send_value(request: ObserverRequest<B>) -> (r: Option<Account<B>>)
        ensures
            request matches ObserverRequest::AddAccount(a) ==> r == Some(a),
            !(request is AddAccount) ==> r is None,
    {
        match request {
            ObserverRequest::AddAccount(a) => Some(a),
            _ => None,
        }
    }
}

/// List the observed accounts.
#[derive(Debug)]
pub struct GetAccountList {}

impl GetAccountList {
    /// The request to send.
    pub fn into_request<B: Backend>(self) -> (r: ObserverRequest<B>)
        ensures
            r is GetAccounts,
    {
        ObserverRequest::GetAccounts
    }

    /// Nothing is handed back of this request.
    pub fn recover_send_value<B: Backend>(request: ObserverRequest<B>) -> (r: Option<()>)
        ensures
            r == Some(()),
    {
        Some(())
    }
}

/// Generate the stored form of the observer's state.
#[derive(Debug)]
pub struct GenConfigRequest {}

impl GenConfigRequest {
    /// The request to send.
    pub fn into_request<B: Backend>(self) -> (r: ObserverRequest<B>)
        ensures
            r is GenConfig,
    {
        ObserverRequest::GenConfig
    }

    /// Nothing is handed back of this request.
    pub fn recover_send_value<B: Backend>(request: ObserverRequest<B>) -> (r: Option<()>)
        ensures
            r == Some(()),
    {
        Some(())
    }
}

} // verus!
