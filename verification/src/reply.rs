//! What a server sends back: a status and a body of raw bytes.

use crate::text::text_bytes;
use vstd::prelude::*;
use vstd::string::*;
use vstd::utf8::*;

verus! {

/// Status of an answer that carries an encoded response message.
pub const STATUS_OK: u16 = 200;

/// Status of an answer to a request that never reached a handler.
pub const STATUS_BAD_REQUEST: u16 = 400;

/// Status of an answer that carries a handler's failure.
pub const STATUS_INTERNAL_SERVER_ERROR: u16 = 500;

/// Body of the answer to a request whose body did not decode.
pub const PARSE_ERROR: &'static str = "Error parsing request";

/// What the body of the answer to an unmatched path starts with.
pub const UNKNOWN_REQUEST: &'static str = "Unknown request: ";

/// A status and a body. The status is always one of the three that the
/// wire knows: success, bad request, server error.
#[derive(Debug, PartialEq, Eq)]
pub struct Reply {
    status: u16,
    body: Vec<u8>,
}

/// A reply as a value of mathematics.
pub struct ReplyView {
    pub status: u16,
    pub body: Seq<u8>,
}

impl View for Reply {
    type V = ReplyView;

    closed spec fn view(&self) -> ReplyView {
        ReplyView { status: self.status, body: self.body@ }
    }
}

impl ReplyView {
    /// Whether the status is one that a reply can carry.
    pub open spec fn well_formed(self) -> bool {
        self.status == STATUS_OK || self.status == STATUS_BAD_REQUEST || self.status
            == STATUS_INTERNAL_SERVER_ERROR
    }

    /// The answer that carries an encoded response.
    pub open spec fn success(encoded: Seq<u8>) -> ReplyView {
        ReplyView { status: STATUS_OK, body: encoded }
    }

    /// The answer to a handler's failure: the failure's text, as it is.
    pub open spec fn failure(text: Seq<char>) -> ReplyView {
        ReplyView { status: STATUS_INTERNAL_SERVER_ERROR, body: encode_utf8(text) }
    }

    /// The answer to a body that did not decode. It is the same for every
    /// such body.
    pub open spec fn malformed() -> ReplyView {
        ReplyView { status: STATUS_BAD_REQUEST, body: encode_utf8(PARSE_ERROR@) }
    }

    /// The answer to a path that no operation is registered under: it names
    /// the path as it came.
    pub open spec fn unknown(path: Seq<char>) -> ReplyView {
        ReplyView { status: STATUS_BAD_REQUEST, body: encode_utf8(UNKNOWN_REQUEST@ + path) }
    }
}

impl Reply {
    #[verifier::type_invariant]
    spec fn carries_known_status(&self) -> bool {
        self@.well_formed()
    }

    pub fn success(encoded: Vec<u8>) -> (reply: Reply)
        ensures
            reply@ == ReplyView::success(encoded@),
    {
        Reply { status: STATUS_OK, body: encoded }
    }

    pub fn failure(text: &str) -> (reply: Reply)
        ensures
            reply@ == ReplyView::failure(text@),
    {
        Reply { status: STATUS_INTERNAL_SERVER_ERROR, body: text_bytes(text) }
    }

    pub fn malformed() -> (reply: Reply)
        ensures
            reply@ == ReplyView::malformed(),
    {
        Reply { status: STATUS_BAD_REQUEST, body: text_bytes(PARSE_ERROR) }
    }

    pub fn unknown(path: &str) -> (reply: Reply)
        ensures
            reply@ == ReplyView::unknown(path@),
    {
        let mut text = String::from_str(UNKNOWN_REQUEST);
        text.append(path);
        Reply { status: STATUS_BAD_REQUEST, body: text_bytes(text.as_str()) }
    }

    pub fn status(&self) -> (status: u16)
        ensures
            status == self@.status,
            self@.well_formed(),
    {
        proof {
            use_type_invariant(self);
        }
        self.status
    }

    pub fn body(&self) -> (body: &[u8])
        ensures
            body@ == self@.body,
    {
        self.body.as_slice()
    }

    /// Gives the body up without copying it.
    pub fn into_body(self) -> (body: Vec<u8>)
        ensures
            body@ == self@.body,
    {
        self.body
    }
}

} // verus!
