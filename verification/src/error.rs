//! Requests that are refused, and what the client is told.
use crate::text::{decimal, decimal_text};
use vstd::prelude::*;

verus! {

/// An error object of a JSON-RPC reply.
#[verifier::external_type_specification]
#[verifier::external_body]
pub struct ExErrorObject<'a>(jsonrpsee::types::ErrorObject<'a>);

/// `jsonrpsee::types::ErrorObject::code`, the numeric code of an error object. Nothing is claimed
/// of it here; [`owned_error`] says what it returns for the objects built there.
pub assume_specification<'a>[ jsonrpsee::types::ErrorObject::<'a>::code ](
    object: &jsonrpsee::types::ErrorObject<'a>,
) -> (code: i32)
;

/// `jsonrpsee::types::ErrorObject::message`, the text of an error object. Nothing is claimed of it
/// here; [`owned_error`] says what it returns for the objects built there.
pub assume_specification<'a, 'b>[ jsonrpsee::types::ErrorObject::<'a>::message ](
    object: &'b jsonrpsee::types::ErrorObject<'a>,
) -> (message: &'b str)
;

/// Additional data of an error object, as JSON text.
#[verifier::external_type_specification]
#[verifier::external_body]
pub struct ExJsonRawValue(jsonrpsee::core::JsonRawValue);

/// `jsonrpsee::types::ErrorObject::data`, the additional data of an error object. Nothing is
/// claimed of it here; [`owned_error`] says what it returns for the objects built there.
pub assume_specification<'a, 'b>[ jsonrpsee::types::ErrorObject::<'a>::data ](
    object: &'b jsonrpsee::types::ErrorObject<'a>,
) -> (data: Option<&'b jsonrpsee::core::JsonRawValue>)
;

/// Calls `jsonrpsee::types::ErrorObject::owned` without data. The claim is that `code` and
/// `message` of the object give back the code and the text it was built from, and that `data` finds
/// nothing.
#[verifier::external_body]
fn owned_error(code: i32, message: String) -> (object: jsonrpsee::types::ErrorObjectOwned)
    ensures
        error_code_is(object, code as int),
        error_message_is(object, message@),
        error_has_no_data(object),
{
    jsonrpsee::types::ErrorObjectOwned::owned(code, message, None::<()>)
}

/// Reads `jsonrpsee::types::error::INVALID_REQUEST_CODE`, the JSON-RPC code of an invalid request.
#[verifier::external_body]
fn invalid_request_code() -> (code: i32)
    ensures
        code == INVALID_REQUEST,
{
    jsonrpsee::types::error::INVALID_REQUEST_CODE
}

/// The JSON-RPC code of an invalid request.
pub const INVALID_REQUEST: i32 = -32600;

/// Every call of `code` on the object returns `code`.
pub open spec fn error_code_is(object: jsonrpsee::types::ErrorObjectOwned, code: int) -> bool {
    forall|c: i32| #[trigger]
        call_ensures(jsonrpsee::types::ErrorObject::code, (&object,), c) ==> c == code
}

/// Every call of `message` on the object returns the given text.
pub open spec fn error_message_is(
    object: jsonrpsee::types::ErrorObjectOwned,
    message: Seq<char>,
) -> bool {
    forall|m: &str| #[trigger]
        call_ensures(jsonrpsee::types::ErrorObject::message, (&object,), m) ==> m@ == message
}

/// Every call of `data` on the object finds none.
pub open spec fn error_has_no_data(object: jsonrpsee::types::ErrorObjectOwned) -> bool {
    forall|d: Option<&jsonrpsee::core::JsonRawValue>| #[trigger]
        call_ensures(jsonrpsee::types::ErrorObject::data, (&object,), d) ==> d is None
}

/// Why a request is refused.
#[derive(Debug, PartialEq, Eq)]
pub enum ServiceError {
    /// A start was asked for while process `pid` is being measured.
    InProgress { pid: u32 },
    /// A stop was asked for, and process `pid` is not being measured.
    NotMeasuring { pid: u32 },
    /// A stop was asked for, and it is `function` that is being measured.
    OtherFunction { function: String },
    /// A stop was asked for, and no function is being measured.
    NoFunction,
    /// A stop was asked for a process that no measurement was started for.
    UnknownProcess { pid: u32 },
    /// A session could not begin.
    SessionFailed { pid: u32, reason: String },
}

/// [`ServiceError`] over sequences of characters.
pub enum Refusal {
    InProgress { pid: u32 },
    NotMeasuring { pid: u32 },
    OtherFunction { function: Seq<char> },
    NoFunction,
    UnknownProcess { pid: u32 },
    SessionFailed { pid: u32, reason: Seq<char> },
}

impl View for ServiceError {
    type V = Refusal;

    open spec fn view(&self) -> Refusal {
        match *self {
            ServiceError::InProgress { pid } => Refusal::InProgress { pid },
            ServiceError::NotMeasuring { pid } => Refusal::NotMeasuring { pid },
            ServiceError::OtherFunction { function } => Refusal::OtherFunction {
                function: function@,
            },
            ServiceError::NoFunction => Refusal::NoFunction,
            ServiceError::UnknownProcess { pid } => Refusal::UnknownProcess { pid },
            ServiceError::SessionFailed { pid, reason } => Refusal::SessionFailed {
                pid,
                reason: reason@,
            },
        }
    }
}

impl Refusal {
    /// The text that the client is sent.
    pub open spec fn message(self) -> Seq<char> {
        match self {
            Refusal::InProgress { pid } => "A measurement is already in progress for pid: "@
                + decimal(pid as nat) + "."@,
            Refusal::NotMeasuring { pid } => "No measurement session is ongoing for pid: "@
                + decimal(pid as nat) + "."@,
            Refusal::OtherFunction { function } =>
            "Current measurements involves a different function: "@ + function + "."@,
            Refusal::NoFunction => "No function is currently being measured."@,
            Refusal::UnknownProcess { pid } => "No ongoing measurement was made for pid: "@
                + decimal(pid as nat) + "."@,
            Refusal::SessionFailed { pid, reason } => "Measurement session failed for pid: "@
                + decimal(pid as nat) + " due to "@ + reason,
        }
    }
}

/// `prefix`, a process id and `suffix` in one text.
pub fn pid_text(prefix: &str, pid: u32, suffix: &str) -> (text: String)
    ensures
        text@ == prefix@ + decimal(pid as nat) + suffix@,
{
    let mut text = prefix.to_string();
    text.append(decimal_text(pid as u128).as_str());
    text.append(suffix);
    text
}

impl ServiceError {
    /// The text that the client is sent.
    pub fn message(&self) -> (text: String)
        ensures
            text@ == self@.message(),
    {
        match self {
            ServiceError::InProgress { pid } => pid_text(
                "A measurement is already in progress for pid: ",
                *pid,
                ".",
            ),
            ServiceError::NotMeasuring { pid } => pid_text(
                "No measurement session is ongoing for pid: ",
                *pid,
                ".",
            ),
            ServiceError::OtherFunction { function } => {
                let mut text = "Current measurements involves a different function: ".to_string();
                text.append(function.as_str());
                text.append(".");
                text
            },
            ServiceError::NoFunction => "No function is currently being measured.".to_string(),
            ServiceError::UnknownProcess { pid } => pid_text(
                "No ongoing measurement was made for pid: ",
                *pid,
                ".",
            ),
            ServiceError::SessionFailed { pid, reason } => {
                let mut text = pid_text("Measurement session failed for pid: ", *pid, " due to ");
                text.append(reason.as_str());
                text
            },
        }
    }

    /// The error object that refuses the request: the code of an invalid request and the text of
    /// the refusal.
    pub fn error_object(&self) -> (object: jsonrpsee::types::ErrorObjectOwned)
        ensures
            error_code_is(object, INVALID_REQUEST as int),
            error_message_is(object, self@.message()),
            error_has_no_data(object),
    {
        owned_error(invalid_request_code(), self.message())
    }
}

} // verus!
