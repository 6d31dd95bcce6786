//! The one error that a client's caller sees.

use std::fmt::Display;
use vstd::prelude::*;
use vstd::string::*;

verus! {

/// `prost::DecodeError`: why bytes were not taken for a message. Nothing
/// is known of its inside; a server drops it, a client has it described.
#[verifier::external_type_specification]
#[verifier::external_body]
pub struct ExDecodeError(prost::DecodeError);

/// `reqwest::Error`: why a request was not sent or its answer not read.
/// Nothing is known of its inside; a client has it described.
#[verifier::external_type_specification]
#[verifier::external_body]
pub struct ExTransportError(reqwest::Error);

/// Message of the error that stands for every answer without a success
/// status.
pub const UNKNOWN_ERROR: &'static str = "Unknown Error";

/// A failed call. Whatever failed (the transport, the server, the decoding
/// of the answer), the caller gets a text and nothing else.
#[derive(Debug, PartialEq, Eq)]
pub enum LdkNodeServerError {
    InternalError(String),
}

impl View for LdkNodeServerError {
    type V = Seq<char>;

    /// The error's message.
    open spec fn view(&self) -> Seq<char> {
        match self {
            LdkNodeServerError::InternalError(message) => message@,
        }
    }
}

impl Clone for LdkNodeServerError {
    fn clone(&self) -> (error: Self)
        ensures
            error@ == self@,
    {
        match self {
            LdkNodeServerError::InternalError(message) => LdkNodeServerError::InternalError(
                message.clone(),
            ),
        }
    }
}

impl LdkNodeServerError {
    /// The error's message.
    pub fn message(&self) -> (message: &str)
        ensures
            message@ == self@,
    {
        match self {
            LdkNodeServerError::InternalError(message) => message.as_str(),
        }
    }

    /// The error for an answer without a success status. It is one value:
    /// neither the status nor the body is kept.
    pub fn unknown() -> (error: Self)
        ensures
            error@ == UNKNOWN_ERROR@,
    {
        LdkNodeServerError::InternalError(String::from_str(UNKNOWN_ERROR))
    }

    /// The error whose message is the display text of `failure`.
    pub fn describing<E: Display>(failure: &E) -> (error: Self)
        ensures
            Self::describes(error, failure),
    {
        LdkNodeServerError::InternalError(failure.to_string())
    }

    /// Whether the message of `error` is a display text of `failure`.
    pub open spec fn describes<E: Display>(error: Self, failure: &E) -> bool {
        exists|text: String| #[trigger]
            to_string_from_display_ensures::<E>(failure, text) && error@ == text@
    }
}

} // verus!
