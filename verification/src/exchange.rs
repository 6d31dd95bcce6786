//! One call from end to end: what holds of the client's result, given how
//! the server answered.

use crate::client::{reads, spec_is_success, spec_url, SCHEME};
use crate::error::{LdkNodeServerError, UNKNOWN_ERROR};
use crate::operation::{lemma_from_target_exact, Operation};
use crate::reply::{Reply, ReplyView};
use crate::service::concludes;
use std::fmt::Display;
use vstd::prelude::*;

verus! {

/// Client and server name an operation alike: the address that the client
/// builds ends in the target under which the server finds that operation,
/// and no other.
pub proof fn lemma_address_reaches_operation(base_url: Seq<char>, operation: Operation)
    ensures
        spec_url(base_url, operation) == SCHEME@ + base_url + operation.spec_target(),
        Operation::spec_from_target(operation.spec_target()) == Some(operation),
{
    lemma_from_target_exact(operation.spec_target(), operation);
    assert(spec_url(base_url, operation) =~= SCHEME@ + base_url + operation.spec_target());
}

/// Where the codec gives back the response that it was given, the caller
/// receives exactly what the handler returned.
pub proof fn lemma_response_reaches_caller<
    R,
    E: Display,
    C: FnOnce(&R) -> Vec<u8>,
    D: FnOnce(&[u8]) -> Result<R, prost::DecodeError>,
>(
    reply: Reply,
    response: R,
    encode: C,
    payload: Vec<u8>,
    decode: D,
    result: Result<R, LdkNodeServerError>,
)
    requires
        concludes(reply, Ok::<R, E>(response), encode),
        payload@ == reply@.body,
        forall|encoded: Vec<u8>, bytes: &[u8], decoded: Result<R, prost::DecodeError>|
            #![trigger encode.ensures((&response,), encoded), decode.ensures((bytes,), decoded)]
            encode.ensures((&response,), encoded) && bytes@ == encoded@ && decode.ensures(
                (bytes,),
                decoded,
            ) ==> decoded == Ok::<R, prost::DecodeError>(response),
        reads(result, Ok((reply@.status, payload)), decode),
    ensures
        result == Ok::<R, LdkNodeServerError>(response),
{
}

/// An answer without a success status reaches the caller as the one
/// unknown error, whatever its status and whatever its body.
pub proof fn lemma_failure_reaches_caller_as_unknown<
    Rs,
    D: FnOnce(&[u8]) -> Result<Rs, prost::DecodeError>,
>(status: u16, payload: Vec<u8>, decode: D, result: Result<Rs, LdkNodeServerError>)
    requires
        !spec_is_success(status),
        reads(result, Ok((status, payload)), decode),
    ensures
        result matches Err(error) && error@ == UNKNOWN_ERROR@,
{
}

/// What a server says of a request that it turned down (an unknown path, a
/// body that did not decode, a handler's failure) does not reach the
/// caller: each comes to the one unknown error.
pub proof fn lemma_rejection_reaches_caller_as_unknown<
    Rs,
    D: FnOnce(&[u8]) -> Result<Rs, prost::DecodeError>,
>(reply: Reply, payload: Vec<u8>, decode: D, result: Result<Rs, LdkNodeServerError>)
    requires
        reply@ == ReplyView::malformed() || (exists|path: Seq<char>|
            reply@ == ReplyView::unknown(path)) || (exists|text: Seq<char>|
            reply@ == ReplyView::failure(text)),
        payload@ == reply@.body,
        reads(result, Ok((reply@.status, payload)), decode),
    ensures
        result matches Err(error) && error@ == UNKNOWN_ERROR@,
{
}

} // verus!
