//! The bank's REST interface: which request to send for each operation, and
//! what to make of the reply.
//!
//! Requests are described, not sent. The caller performs them and hands back
//! the status code and the decoded body.

use crate::transfers::{
    CreateTransferDTO, TransferRequest, TransferResponse, TransferToCreditCardDTO,
};
use vstd::prelude::*;

verus! {

/// The HTTP method of a request.
#[derive(Clone, Copy, Debug, PartialEq, Eq)]
pub enum Method {
    Get,
    Post,
}

/// The JSON body of a request.
#[derive(Clone, Debug, PartialEq, Eq)]
pub enum Payload {
    Empty,
    Transfer(CreateTransferDTO),
    CreditCardTransfer(TransferToCreditCardDTO),
}

/// A request to the bank.
#[derive(Clone, Debug, PartialEq, Eq)]
pub struct ApiRequest {
    pub method: Method,
    pub url: String,
    pub payload: Payload,
}

/// Why an operation produced no usable answer.
#[derive(Clone, Copy, Debug, PartialEq, Eq)]
pub enum ApiError {
    /// The request did not reach the bank, or no reply came back.
    Transport,
    /// The bank answered with this status and nothing that could be used.
    Status(u16),
    /// The bank reported success, but the body could not be decoded.
    Malformed,
}

/// The value of the `Authorization` header for `access_token`.
pub fn authorization_header(access_token: &str) -> (value: String)
    ensures
        value@ == "Bearer "@ + access_token@,
{
    String::from_str("Bearer ").concat(access_token)
}

/// The value of the `Accept` header that every request carries.
pub fn accept_header() -> (value: &'static str)
    ensures
        value@ == "application/vnd.sparebank1.v1+json; charset=utf-8"@,
{
    "application/vnd.sparebank1.v1+json; charset=utf-8"
}

/// The request that lists the user's accounts, credit cards included.
pub fn get_accounts() -> (request: ApiRequest)
    ensures
        request.method == Method::Get,
        request.url@
            == "https://api.sparebank1.no/personal/banking/accounts?includeCreditCardAccounts=true"@,
        request.payload == Payload::Empty,
{
    ApiRequest {
        method: Method::Get,
        url: String::from_str(
            "https://api.sparebank1.no/personal/banking/accounts?includeCreditCardAccounts=true",
        ),
        payload: Payload::Empty,
    }
}

/// The request that lists the transactions of the account with key `account_key`.
pub fn get_transactions(account_key: &String) -> (request: ApiRequest)
    ensures
        request.method == Method::Get,
        request.url@ == "https://api.sparebank1.no/personal/banking/transactions?accountKey="@
            + account_key@,
        request.payload == Payload::Empty,
{
    ApiRequest {
        method: Method::Get,
        url: String::from_str(
            "https://api.sparebank1.no/personal/banking/transactions?accountKey=",
        ).concat(account_key.as_str()),
        payload: Payload::Empty,
    }
}

/// The request that tests whether the access token is still accepted.
pub fn hello_world() -> (request: ApiRequest)
    ensures
        request.method == Method::Get,
        request.url@ == "https://api.sparebank1.no/common/helloworld"@,
        request.payload == Payload::Empty,
{
    ApiRequest {
        method: Method::Get,
        url: String::from_str("https://api.sparebank1.no/common/helloworld"),
        payload: Payload::Empty,
    }
}

/// The request that submits a transfer between two ordinary accounts.
pub fn create_transfer(transfer: CreateTransferDTO) -> (request: ApiRequest)
    ensures
        request.method == Method::Post,
        request.url@ == "https://api.sparebank1.no/personal/banking/transfer/debit"@,
        request.payload == Payload::Transfer(transfer),
{
    ApiRequest {
        method: Method::Post,
        url: String::from_str("https://api.sparebank1.no/personal/banking/transfer/debit"),
        payload: Payload::Transfer(transfer),
    }
}

/// The request that submits a transfer to a credit card.
pub fn create_credit_card_transfer(transfer: TransferToCreditCardDTO) -> (request: ApiRequest)
    ensures
        request.method == Method::Post,
        request.url@
            == "https://api.sparebank1.no/personal/banking/transfer/creditcard/transferTo"@,
        request.payload == Payload::CreditCardTransfer(transfer),
{
    ApiRequest {
        method: Method::Post,
        url: String::from_str(
            "https://api.sparebank1.no/personal/banking/transfer/creditcard/transferTo",
        ),
        payload: Payload::CreditCardTransfer(transfer),
    }
}

/// The request that submits `transfer`, to the endpoint for its kind.
pub fn submit_transfer(transfer: TransferRequest) -> (request: ApiRequest)
    ensures
        request.method == Method::Post,
        match transfer {
            TransferRequest::Debit(debit) => {
                &&& request.url@ == "https://api.sparebank1.no/personal/banking/transfer/debit"@
                &&& request.payload == Payload::Transfer(debit)
            },
            TransferRequest::CreditCard(card) => {
                &&& request.url@
                    == "https://api.sparebank1.no/personal/banking/transfer/creditcard/transferTo"@
                &&& request.payload == Payload::CreditCardTransfer(card)
            },
        },
{
    match transfer {
        TransferRequest::Debit(debit) => create_transfer(debit),
        TransferRequest::CreditCard(card) => create_credit_card_transfer(card),
    }
}

/// The status is one of the success codes, 200 to 299.
pub open spec fn spec_is_success(status: u16) -> bool {
    200 <= status < 300
}

/// Whether the status is one of the success codes.
pub fn is_success(status: u16) -> (success: bool)
    ensures
        success == spec_is_success(status),
{
    200 <= status && status < 300
}

/// What a reply with this status and decoded body amounts to: the body if the
/// bank reported success and the body could be decoded.
pub open spec fn spec_accept<T>(status: u16, body: Option<T>) -> Result<T, ApiError> {
    if !spec_is_success(status) {
        Err(ApiError::Status(status))
    } else {
        match body {
            Some(value) => Ok(value),
            None => Err(ApiError::Malformed),
        }
    }
}

/// Judges the reply to a request for accounts, transactions or tokens.
/// `body` is the decoded body, `None` where it could not be decoded.
pub fn accept<T>(status: u16, body: Option<T>) -> (outcome: Result<T, ApiError>)
    ensures
        outcome == spec_accept(status, body),
{
    if !is_success(status) {
        Err(ApiError::Status(status))
    } else {
        match body {
            Some(value) => Ok(value),
            None => Err(ApiError::Malformed),
        }
    }
}

/// What a reply to a transfer amounts to. A success status with a decoded body
/// is the bank's answer; so is a failure status whose body lists the errors.
/// Any other failure status has nothing to show but itself.
pub open spec fn spec_accept_transfer(status: u16, body: Option<TransferResponse>) -> Result<
    TransferResponse,
    ApiError,
> {
    match body {
        Some(response) => if spec_is_success(status) || !response.spec_succeeded() {
            Ok(response)
        } else {
            Err(ApiError::Status(status))
        },
        None => if spec_is_success(status) {
            Err(ApiError::Malformed)
        } else {
            Err(ApiError::Status(status))
        },
    }
}

/// Judges the reply to a transfer. `body` is the decoded body, `None` where it
/// could not be decoded.
pub fn accept_transfer(status: u16, body: Option<TransferResponse>) -> (outcome: Result<
    TransferResponse,
    ApiError,
>)
    ensures
        outcome == spec_accept_transfer(status, body),
{
    let success = is_success(status);
    match body {
        Some(response) => {
            if success || !response.succeeded() {
                Ok(response)
            } else {
                Err(ApiError::Status(status))
            }
        },
        None => {
            if success {
                Err(ApiError::Malformed)
            } else {
                Err(ApiError::Status(status))
            }
        },
    }
}

/// A transfer that the bank declined is never mistaken for one that went
/// through: whatever is accepted under a failure status lists an error.
pub proof fn lemma_failure_status_never_succeeds(status: u16, body: Option<TransferResponse>)
    requires
        !spec_is_success(status),
    ensures
        spec_accept_transfer(status, body) matches Ok(response) ==> !response.spec_succeeded(),
{
}

} // verus!
