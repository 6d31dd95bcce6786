//! The server's side: from a request's path and body to a reply.

use crate::operation::Operation;
use crate::reply::{Reply, ReplyView, STATUS_INTERNAL_SERVER_ERROR, STATUS_OK};
use std::fmt::Display;
use std::sync::Arc;
use vstd::prelude::*;
use vstd::string::*;

verus! {

/// `Arc::clone` of std: one more handle on the same value. To Verus a
/// handle is the value it points to, so the new handle equals the old.
#[verifier::external_body]
fn share<N>(node: &Arc<N>) -> (shared: Arc<N>)
    ensures
        shared == *node,
{
    Arc::clone(node)
}

/// The one handle on the node that every handler of a server is given.
/// The service shares it and never looks inside.
pub struct NodeService<N> {
    node: Arc<N>,
}

/// What a server does with a request once it has seen its path.
pub enum Dispatch<N> {
    /// Read the body and hand it, with the node, to the operation's handler.
    Invoke { operation: Operation, node: Arc<N> },
    /// Answer at once; the body is not read.
    Reject { reply: Reply },
}

impl<N> NodeService<N> {
    /// The handle that the service shares.
    pub closed spec fn node(&self) -> Arc<N> {
        self.node
    }

    pub fn new(node: Arc<N>) -> (service: Self)
        ensures
            service.node() == node,
    {
        NodeService { node }
    }

    /// Matches the request's path against the table of operations. A path
    /// that reaches an operation is dispatched to it with a handle on the
    /// node; any other path is answered as unknown.
    pub fn call(&self, path: &str) -> (dispatch: Dispatch<N>)
        ensures
            match Operation::spec_from_target(path@) {
                Some(found) => dispatch matches Dispatch::Invoke { operation, node }
                    && operation == found && node == self.node(),
                None => dispatch matches Dispatch::Reject { reply } && reply@ == ReplyView::unknown(
                    path@,
                ),
            },
    {
        match Operation::from_target(path) {
            Some(operation) => Dispatch::Invoke { operation, node: share(&self.node) },
            None => Dispatch::Reject { reply: Reply::unknown(path) },
        }
    }
}

impl<N> Clone for NodeService<N> {
    fn clone(&self) -> (service: Self)
        ensures
            service.node() == self.node(),
    {
        NodeService { node: share(&self.node) }
    }
}

/// One handler for each operation of the table. What a handler is, is the
/// server's choice; the table only keeps each under its operation.
pub struct Handlers<H> {
    pub onchain_receive: H,
    pub onchain_send: H,
    pub bolt11_receive: H,
    pub bolt11_send: H,
    pub bolt12_receive: H,
    pub bolt12_send: H,
    pub open_channel: H,
    pub close_channel: H,
    pub list_channels: H,
}

impl<H> Handlers<H> {
    /// The handler that is bound to `operation`.
    pub open spec fn spec_of(&self, operation: Operation) -> H {
        match operation {
            Operation::OnchainReceive => self.onchain_receive,
            Operation::OnchainSend => self.onchain_send,
            Operation::Bolt11Receive => self.bolt11_receive,
            Operation::Bolt11Send => self.bolt11_send,
            Operation::Bolt12Receive => self.bolt12_receive,
            Operation::Bolt12Send => self.bolt12_send,
            Operation::OpenChannel => self.open_channel,
            Operation::CloseChannel => self.close_channel,
            Operation::ListChannels => self.list_channels,
        }
    }

    pub fn of(&self, operation: Operation) -> (handler: &H)
        ensures
            *handler == self.spec_of(operation),
    {
        match operation {
            Operation::OnchainReceive => &self.onchain_receive,
            Operation::OnchainSend => &self.onchain_send,
            Operation::Bolt11Receive => &self.bolt11_receive,
            Operation::Bolt11Send => &self.bolt11_send,
            Operation::Bolt12Receive => &self.bolt12_receive,
            Operation::Bolt12Send => &self.bolt12_send,
            Operation::OpenChannel => &self.open_channel,
            Operation::CloseChannel => &self.close_channel,
            Operation::ListChannels => &self.list_channels,
        }
    }
}

/// Whether `reply` is the answer that a handler's result calls for: the
/// encoded response under the success status, or the failure's display text
/// under the status of a server error.
pub open spec fn concludes<R, E: Display, C: FnOnce(&R) -> Vec<u8>>(
    reply: Reply,
    handled: Result<R, E>,
    encode: C,
) -> bool {
    match handled {
        Ok(response) => exists|encoded: Vec<u8>| #[trigger]
            encode.ensures((&response,), encoded) && reply@ == ReplyView::success(encoded@),
        Err(failure) => exists|text: String| #[trigger]
            to_string_from_display_ensures::<E>(&failure, text) && reply@ == ReplyView::failure(
                text@,
            ),
    }
}

/// Whether `reply` is the answer to a request with this body: the answer to
/// a malformed body where `decode` fails, else the answer that the
/// handler's result on the decoded request calls for.
pub open spec fn answers<
    N,
    T,
    R,
    E: Display,
    D: FnOnce(&[u8]) -> Result<T, prost::DecodeError>,
    F: FnOnce(Arc<N>, T) -> Result<R, E>,
    C: FnOnce(&R) -> Vec<u8>,
>(reply: Reply, node: Arc<N>, body: &[u8], decode: D, handler: F, encode: C) -> bool {
    exists|decoded: Result<T, prost::DecodeError>| #[trigger]
        decode.ensures((body,), decoded) && match decoded {
            Ok(request) => exists|handled: Result<R, E>| #[trigger]
                handler.ensures((node, request), handled) && concludes(reply, handled, encode),
            Err(_) => reply@ == ReplyView::malformed(),
        }
}

/// Turns a handler's result into the reply. The handler's word is final:
/// nothing is retried.
pub fn conclude<R, E: Display, C: FnOnce(&R) -> Vec<u8>>(
    handled: Result<R, E>,
    encode: C,
) -> (reply: Reply)
    requires
        handled matches Ok(response) ==> encode.requires((&response,)),
    ensures
        concludes(reply, handled, encode),
{
    match handled {
        Ok(response) => {
            let encoded = encode(&response);
            Reply::success(encoded)
        },
        Err(failure) => {
            let text = failure.to_string();
            Reply::failure(text.as_str())
        },
    }
}

/// Answers a request whose path has reached an operation: decodes the body,
/// hands the request and the node to the handler, and encodes what the
/// handler returns. A body that does not decode never reaches the handler.
pub fn handle_request<
    N,
    T,
    R,
    E: Display,
    D: FnOnce(&[u8]) -> Result<T, prost::DecodeError>,
    F: FnOnce(Arc<N>, T) -> Result<R, E>,
    C: FnOnce(&R) -> Vec<u8>,
>(node: Arc<N>, body: &[u8], decode: D, handler: F, encode: C) -> (reply: Reply)
    requires
        decode.requires((body,)),
        forall|request: T| #[trigger]
            decode.ensures((body,), Ok(request)) ==> handler.requires((node, request)),
        forall|request: T, response: R| #[trigger]
            handler.ensures((node, request), Ok(response)) ==> encode.requires((&response,)),
    ensures
        answers(reply, node, body, decode, handler, encode),
{
    let decoded = decode(body);
    match decoded {
        Ok(request) => {
            let handled = handler(node, request);
            conclude(handled, encode)
        },
        Err(_) => Reply::malformed(),
    }
}

/// A request whose path reached an operation is answered with one of three
/// statuses: success, bad request, or server error; and with success only
/// where the body decoded and the handler returned a response.
pub proof fn lemma_answer_status<
    N,
    T,
    R,
    E: Display,
    D: FnOnce(&[u8]) -> Result<T, prost::DecodeError>,
    F: FnOnce(Arc<N>, T) -> Result<R, E>,
    C: FnOnce(&R) -> Vec<u8>,
>(reply: Reply, node: Arc<N>, body: &[u8], decode: D, handler: F, encode: C)
    requires
        answers(reply, node, body, decode, handler, encode),
    ensures
        reply@.well_formed(),
        reply@.status == STATUS_OK ==> exists|request: T, response: R|
            decode.ensures((body,), Ok(request)) && #[trigger] handler.ensures(
                (node, request),
                Ok(response),
            ),
{
}

/// A body that cannot be decoded is answered as malformed, whatever the
/// handler would have done with it.
pub proof fn lemma_undecodable_body_is_malformed<
    N,
    T,
    R,
    E: Display,
    D: FnOnce(&[u8]) -> Result<T, prost::DecodeError>,
    F: FnOnce(Arc<N>, T) -> Result<R, E>,
    C: FnOnce(&R) -> Vec<u8>,
>(reply: Reply, node: Arc<N>, body: &[u8], decode: D, handler: F, encode: C)
    requires
        answers(reply, node, body, decode, handler, encode),
        forall|request: T| !#[trigger] decode.ensures((body,), Ok(request)),
    ensures
        reply@ == ReplyView::malformed(),
{
}

/// Where the body decodes and the handler can only fail, the answer carries
/// the status of a server error.
pub proof fn lemma_failure_is_server_error<
    N,
    T,
    R,
    E: Display,
    D: FnOnce(&[u8]) -> Result<T, prost::DecodeError>,
    F: FnOnce(Arc<N>, T) -> Result<R, E>,
    C: FnOnce(&R) -> Vec<u8>,
>(reply: Reply, node: Arc<N>, body: &[u8], decode: D, handler: F, encode: C)
    requires
        answers(reply, node, body, decode, handler, encode),
        forall|decoded: Result<T, prost::DecodeError>| #[trigger]
            decode.ensures((body,), decoded) ==> decoded is Ok,
        forall|request: T, response: R| !#[trigger] handler.ensures((node, request), Ok(response)),
    ensures
        reply@.status == STATUS_INTERNAL_SERVER_ERROR,
        exists|text: Seq<char>| reply@ == ReplyView::failure(text),
{
}

} // verus!
