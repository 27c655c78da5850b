//! The credential service's request and response contract.
//!
//! The caller performs the exchange; this module says what is sent and what a
//! reply means.

use vstd::prelude::*;
use vstd::string::StringExecFns;
use crate::address::Ipv4Address;
use crate::decimal::{decimal, push_decimal};
use crate::token::AuthToken;

verus! {

/// Seconds after which one exchange with the service is abandoned.
pub const REQUEST_TIMEOUT_SECS: u64 = 70;

/// A certificate and its private key, as the service issued them. Neither text
/// is interpreted.
#[derive(Debug, PartialEq, Eq)]
pub struct Credential {
    pub certificate: String,
    pub key: String,
}

/// One request to the service, in the terms of HTTP: `method` and `url`, one
/// header, one form-encoded field in the body, and the seconds after which
/// the exchange is abandoned.
#[derive(Debug, PartialEq, Eq)]
pub struct ServiceRequest {
    pub method: String,
    pub url: String,
    pub header_name: String,
    pub header_value: String,
    pub form_field: String,
    pub form_value: String,
    pub timeout_secs: u64,
}

/// Whether `request` is the registration of `address` by the holder of
/// `token`: a POST to the service's endpoint that presents the token as
/// `Authorization: token <token>`, carries the address in dotted-decimal
/// notation as the form field `ip`, and is abandoned after 70 seconds.
pub open spec fn registers(request: ServiceRequest, token: Seq<char>, address: Ipv4Address) -> bool {
    &&& request.method@ == "POST"@
    &&& request.url@ == "https://selfserv.net/api/service/ping"@
    &&& request.header_name@ == "Authorization"@
    &&& request.header_value@ == "token "@ + token
    &&& request.form_field@ == "ip"@
    &&& request.form_value@ == address.dotted()
    &&& request.timeout_secs == REQUEST_TIMEOUT_SECS
}

/// Why an exchange produced no credential.
#[derive(Debug, PartialEq, Eq)]
pub enum ServiceError {
    /// No response arrived: the request could not be sent, or it timed out.
    Transport { detail: String },
    /// The service answered with a status outside 200..=299. `body` is the
    /// response text, where it could be read.
    Rejected { status: u16, body: Option<String> },
    /// The status indicated success, but the body did not hold the two text
    /// fields of a credential.
    Malformed { status: u16, body: Option<String> },
}

/// The text of a response body; empty where the body could not be read.
pub open spec fn body_text(body: Option<String>) -> Seq<char> {
    match body {
        Some(text) => text@,
        None => Seq::empty(),
    }
}

/// Whether `needle` occurs in `text` as a run of consecutive characters.
pub open spec fn occurs_in(needle: Seq<char>, text: Seq<char>) -> bool {
    exists|start: int|
        0 <= start && start + needle.len() <= text.len() && #[trigger] text.subrange(
            start,
            start + needle.len(),
        ) == needle
}

impl ServiceError {
    /// What went wrong, in words: the transport's message, or the status in
    /// decimal followed by a space and the response body.
    pub open spec fn description(self) -> Seq<char> {
        match self {
            ServiceError::Transport { detail } => detail@,
            ServiceError::Rejected { status, body } => "Returned error: "@ + decimal(status as nat)
                + " "@ + body_text(body),
            ServiceError::Malformed { status, body } => "Malformed response: "@ + decimal(
                status as nat,
            ) + " "@ + body_text(body),
        }
    }

    /// A message for the log.
    pub fn describe(&self) -> (text: String)
        ensures
            text@ == self.description(),
    {
        match self {
            ServiceError::Transport { detail } => detail.clone(),
            ServiceError::Rejected { status, body } => {
                let mut text = String::from_str("Returned error: ");
                push_decimal(&mut text, *status);
                text.append(" ");
                match body {
                    Some(body) => text.append(body.as_str()),
                    None => {},
                }
                assert(text@ =~= self.description());
                text
            },
            ServiceError::Malformed { status, body } => {
                let mut text = String::from_str("Malformed response: ");
                push_decimal(&mut text, *status);
                text.append(" ");
                match body {
                    Some(body) => text.append(body.as_str()),
                    None => {},
                }
                assert(text@ =~= self.description());
                text
            },
        }
    }
}

/// The message for a response that was rejected, or that held no credential,
/// shows the response's status in decimal and its body.
pub proof fn description_shows_status_and_body(
    error: ServiceError,
    status: u16,
    body: Option<String>,
)
    requires
        error == (ServiceError::Rejected { status, body }) || error == (ServiceError::Malformed {
            status,
            body,
        }),
    ensures
        occurs_in(decimal(status as nat), error.description()),
        occurs_in(body_text(body), error.description()),
{
    if error is Rejected {
        shown_in("Returned error: "@, decimal(status as nat), " "@, body_text(body));
    } else {
        shown_in("Malformed response: "@, decimal(status as nat), " "@, body_text(body));
    }
}

/// In a text of four parts, the second and the fourth occur.
proof fn shown_in(a: Seq<char>, b: Seq<char>, c: Seq<char>, d: Seq<char>)
    ensures
        occurs_in(b, a + b + c + d),
        occurs_in(d, a + b + c + d),
{
    let text = a + b + c + d;
    let second: int = a.len() as int;
    let fourth: int = (a.len() + b.len() + c.len()) as int;
    assert(text.subrange(second, second + b.len()) =~= b);
    assert(text.subrange(fourth, fourth + d.len()) =~= d);
}

/// What one exchange with the service produced, before any judgement.
#[derive(Debug, PartialEq, Eq)]
pub enum Exchange {
    /// No response arrived; `detail` is the transport's message.
    Failed { detail: String },
    /// A response arrived. `body` is its text, where it could be read, and
    /// `decoded` the credential that the body holds, where it holds one.
    Answered { status: u16, body: Option<String>, decoded: Option<Credential> },
}

/// Whether an HTTP status indicates success.
pub open spec fn is_success(status: u16) -> bool {
    200 <= status < 300
}

/// The credential or the error that an exchange amounts to.
pub open spec fn interpreted(exchange: Exchange) -> Result<Credential, ServiceError> {
    match exchange {
        Exchange::Failed { detail } => Err(ServiceError::Transport { detail }),
        Exchange::Answered { status, body, decoded } => if !is_success(status) {
            Err(ServiceError::Rejected { status, body })
        } else {
            match decoded {
                Some(credential) => Ok(credential),
                None => Err(ServiceError::Malformed { status, body }),
            }
        },
    }
}

/// The request that registers `address` on behalf of the holder of `token`.
pub fn build_request(token: &AuthToken, address: Ipv4Address) -> (request: ServiceRequest)
    ensures
        registers(request, token@, address),
{
    let mut header_value = String::from_str("token ");
    header_value.append(token.as_str());
    ServiceRequest {
        method: String::from_str("POST"),
        url: String::from_str("https://selfserv.net/api/service/ping"),
        header_name: String::from_str("Authorization"),
        header_value,
        form_field: String::from_str("ip"),
        form_value: address.to_dotted(),
        timeout_secs: REQUEST_TIMEOUT_SECS,
    }
}

/// Whether `status` lies in 200..=299.
pub fn status_is_success(status: u16) -> (success: bool)
    ensures
        success == is_success(status),
{
    200 <= status && status < 300
}

/// Judges one exchange. A credential comes out exactly when a response
/// arrived, its status indicates success, and its body held a credential. A
/// status that does not indicate success is an error whatever the body holds.
pub fn interpret(exchange: Exchange) -> (outcome: Result<Credential, ServiceError>)
    ensures
        outcome == interpreted(exchange),
{
    match exchange {
        Exchange::Failed { detail } => Err(ServiceError::Transport { detail }),
        Exchange::Answered { status, body, decoded } => {
            if !status_is_success(status) {
                Err(ServiceError::Rejected { status, body })
            } else {
                match decoded {
                    Some(credential) => Ok(credential),
                    None => Err(ServiceError::Malformed { status, body }),
                }
            }
        },
    }
}

} // verus!
