//! The client's side: what is put on the wire for a call, and what is made
//! of the answer.

use crate::error::{LdkNodeServerError, UNKNOWN_ERROR};
use crate::operation::Operation;
use vstd::prelude::*;
use vstd::string::*;

verus! {

/// Content type that every request carries. It says nothing of the message
/// inside and no server reads it.
pub const APPLICATION_OCTET_STREAM: &'static str = "application/octet-stream";

/// What every request's address starts with.
pub const SCHEME: &'static str = "http://";

/// One request as it goes on the wire, by the POST method.
#[derive(Debug, PartialEq, Eq)]
pub struct Envelope {
    pub url: String,
    pub content_type: &'static str,
    pub body: Vec<u8>,
}

/// An envelope as a value of mathematics.
pub struct EnvelopeView {
    pub url: Seq<char>,
    pub content_type: Seq<char>,
    pub body: Seq<u8>,
}

impl View for Envelope {
    type V = EnvelopeView;

    open spec fn view(&self) -> EnvelopeView {
        EnvelopeView { url: self.url@, content_type: self.content_type@, body: self.body@ }
    }
}

/// The address of `operation` on the server at `base_url`.
pub open spec fn spec_url(base_url: Seq<char>, operation: Operation) -> Seq<char> {
    SCHEME@ + base_url + seq!['/'] + operation.spec_path()
}

/// The envelope that carries `request` to `operation` on the server at
/// `base_url`.
pub open spec fn spec_envelope(
    base_url: Seq<char>,
    operation: Operation,
    request: Seq<u8>,
) -> EnvelopeView {
    EnvelopeView {
        url: spec_url(base_url, operation),
        content_type: APPLICATION_OCTET_STREAM@,
        body: request,
    }
}

/// Where a server's operations are reached.
#[derive(Debug)]
pub struct LdkNodeServerClient {
    base_url: String,
}

impl LdkNodeServerClient {
    /// Where the server listens, as given.
    pub closed spec fn base_url(&self) -> Seq<char> {
        self.base_url@
    }

    pub fn new(base_url: String) -> (client: Self)
        ensures
            client.base_url() == base_url@,
    {
        LdkNodeServerClient { base_url }
    }

    /// The address of `operation` on this client's server.
    pub fn url(&self, operation: Operation) -> (url: String)
        ensures
            url@ == spec_url(self.base_url(), operation),
    {
        let mut url = String::from_str(SCHEME);
        url.append(self.base_url.as_str());
        url.append("/");
        url.append(operation.path());
        proof {
            reveal_strlit("/");
            assert("/"@ =~= seq!['/']);
        }
        url
    }

    /// The envelope for an encoded request of `operation`.
    pub fn request(&self, operation: Operation, request: Vec<u8>) -> (envelope: Envelope)
        ensures
            envelope@ == spec_envelope(self.base_url(), operation, request@),
    {
        let url = self.url(operation);
        self.post_request(request, url)
    }

    /// The envelope that asks for a new on-chain funding address.
    pub fn onchain_receive(&self, request: Vec<u8>) -> (envelope: Envelope)
        ensures
            envelope@ == spec_envelope(self.base_url(), Operation::OnchainReceive, request@),
    {
        let url = self.url(Operation::OnchainReceive);
        self.post_request(request, url)
    }

    /// The envelope that asks for an on-chain payment to a given address.
    pub fn onchain_send(&self, request: Vec<u8>) -> (envelope: Envelope)
        ensures
            envelope@ == spec_envelope(self.base_url(), Operation::OnchainSend, request@),
    {
        let url = self.url(Operation::OnchainSend);
        self.post_request(request, url)
    }

    /// The envelope that asks for a new BOLT11 invoice to be paid.
    pub fn bolt11_receive(&self, request: Vec<u8>) -> (envelope: Envelope)
        ensures
            envelope@ == spec_envelope(self.base_url(), Operation::Bolt11Receive, request@),
    {
        let url = self.url(Operation::Bolt11Receive);
        self.post_request(request, url)
    }

    /// The envelope that asks for the payment of a BOLT11 invoice.
    pub fn bolt11_send(&self, request: Vec<u8>) -> (envelope: Envelope)
        ensures
            envelope@ == spec_envelope(self.base_url(), Operation::Bolt11Send, request@),
    {
        let url = self.url(Operation::Bolt11Send);
        self.post_request(request, url)
    }

    /// The envelope that asks for a new BOLT12 offer to be paid.
    pub fn bolt12_receive(&self, request: Vec<u8>) -> (envelope: Envelope)
        ensures
            envelope@ == spec_envelope(self.base_url(), Operation::Bolt12Receive, request@),
    {
        let url = self.url(Operation::Bolt12Receive);
        self.post_request(request, url)
    }

    /// The envelope that asks for the payment of a BOLT12 offer.
    pub fn bolt12_send(&self, request: Vec<u8>) -> (envelope: Envelope)
        ensures
            envelope@ == spec_envelope(self.base_url(), Operation::Bolt12Send, request@),
    {
        let url = self.url(Operation::Bolt12Send);
        self.post_request(request, url)
    }

    /// The envelope that asks for a new outbound channel.
    pub fn open_channel(&self, request: Vec<u8>) -> (envelope: Envelope)
        ensures
            envelope@ == spec_envelope(self.base_url(), Operation::OpenChannel, request@),
    {
        let url = self.url(Operation::OpenChannel);
        self.post_request(request, url)
    }

    /// The envelope that asks for the closing of a channel.
    pub fn close_channel(&self, request: Vec<u8>) -> (envelope: Envelope)
        ensures
            envelope@ == spec_envelope(self.base_url(), Operation::CloseChannel, request@),
    {
        let url = self.url(Operation::CloseChannel);
        self.post_request(request, url)
    }

    /// The envelope that asks for the list of known channels.
    pub fn list_channels(&self, request: Vec<u8>) -> (envelope: Envelope)
        ensures
            envelope@ == spec_envelope(self.base_url(), Operation::ListChannels, request@),
    {
        let url = self.url(Operation::ListChannels);
        self.post_request(request, url)
    }

    fn post_request(&self, request: Vec<u8>, url: String) -> (envelope: Envelope)
        ensures
            envelope@ == (EnvelopeView {
                url: url@,
                content_type: APPLICATION_OCTET_STREAM@,
                body: request@,
            }),
    {
        Envelope { url, content_type: APPLICATION_OCTET_STREAM, body: request }
    }
}

impl Clone for LdkNodeServerClient {
    fn clone(&self) -> (client: Self)
        ensures
            client.base_url() == self.base_url(),
    {
        LdkNodeServerClient { base_url: self.base_url.clone() }
    }
}

/// Whether a status stands for success: the codes from 200 up to 299.
pub open spec fn spec_is_success(status: u16) -> bool {
    200 <= status < 300
}

/// What a client makes of a status and a payload, before any decoding: the
/// payload under a success status, and under every other status one and the
/// same error.
pub open spec fn spec_classify(status: u16, payload: Seq<u8>) -> Result<Seq<u8>, Seq<char>> {
    if spec_is_success(status) {
        Ok(payload)
    } else {
        Err(UNKNOWN_ERROR@)
    }
}

/// `StatusCode::from_u16`, then `StatusCode::is_success` on what it gave;
/// `reqwest::StatusCode` is the status code of the http crate, which reqwest
/// hands on. The first takes the numbers from 100 to 999 for status codes
/// and refuses every other; the second holds of the codes from 200 to 299.
#[verifier::external_body]
fn status_success(status: u16) -> (success: Option<bool>)
    ensures
        success == if 100 <= status < 1000 {
            Some(spec_is_success(status))
        } else {
            None::<bool>
        },
{
    match reqwest::StatusCode::from_u16(status) {
        Ok(code) => Some(code.is_success()),
        Err(_) => None,
    }
}

/// Whether `status` stands for success. A number that is no status code
/// does not.
pub fn is_success(status: u16) -> (success: bool)
    ensures
        success == spec_is_success(status),
{
    match status_success(status) {
        Some(success) => success,
        None => false,
    }
}

/// Sorts an answer by its status. Of an answer without a success status
/// nothing is kept, whatever its status and its body were.
pub fn classify(status: u16, payload: Vec<u8>) -> (sorted: Result<Vec<u8>, LdkNodeServerError>)
    ensures
        match spec_classify(status, payload@) {
            Ok(kept) => sorted matches Ok(bytes) && bytes@ == kept,
            Err(message) => sorted matches Err(error) && error@ == message,
        },
{
    if is_success(status) {
        Ok(payload)
    } else {
        Err(LdkNodeServerError::unknown())
    }
}

/// Whether `result` is what a call comes to, given what the transport
/// brought back: the transport's failure described; the decoded message of
/// an answer with a success status, or the decoder's failure described; the
/// one unknown error for any other answer.
pub open spec fn reads<Rs, D: FnOnce(&[u8]) -> Result<Rs, prost::DecodeError>>(
    result: Result<Rs, LdkNodeServerError>,
    received: Result<(u16, Vec<u8>), reqwest::Error>,
    decode: D,
) -> bool {
    match received {
        Ok((status, payload)) => match spec_classify(status, payload@) {
            Ok(kept) => exists|bytes: &[u8], decoded: Result<Rs, prost::DecodeError>|
                bytes@ == kept && #[trigger] decode.ensures((bytes,), decoded) && match decoded {
                    Ok(message) => result == Ok::<Rs, LdkNodeServerError>(message),
                    Err(failure) => result matches Err(error) && LdkNodeServerError::describes(
                        error,
                        &failure,
                    ),
                },
            Err(message) => result matches Err(error) && error@ == message,
        },
        Err(failure) => result matches Err(error) && LdkNodeServerError::describes(
            error,
            &failure,
        ),
    }
}

/// Reads what the transport brought back for one call: either its failure,
/// or the status and the whole payload of the answer. Nothing is retried.
pub fn read_response<Rs, D: FnOnce(&[u8]) -> Result<Rs, prost::DecodeError>>(
    received: Result<(u16, Vec<u8>), reqwest::Error>,
    decode: D,
) -> (result: Result<Rs, LdkNodeServerError>)
    requires
        received matches Ok((status, payload)) ==> spec_is_success(status) ==> forall|bytes: &[u8]|
            bytes@ == payload@ ==> decode.requires((bytes,)),
    ensures
        reads(result, received, decode),
{
    match received {
        Ok((status, payload)) => match classify(status, payload) {
            Ok(kept) => {
                let decoded = decode(kept.as_slice());
                match decoded {
                    Ok(message) => Ok(message),
                    Err(failure) => Err(LdkNodeServerError::describing(&failure)),
                }
            },
            Err(error) => Err(error),
        },
        Err(failure) => Err(LdkNodeServerError::describing(&failure)),
    }
}

/// Every answer without a success status comes to the same error, whatever
/// its status and whatever its body.
pub proof fn lemma_failures_collapse(
    status: u16,
    payload: Seq<u8>,
    other_status: u16,
    other_payload: Seq<u8>,
)
    requires
        !spec_is_success(status),
        !spec_is_success(other_status),
    ensures
        spec_classify(status, payload) == spec_classify(other_status, other_payload),
        spec_classify(status, payload) == Err::<Seq<u8>, Seq<char>>(UNKNOWN_ERROR@),
{
}

} // verus!
