//! The whole cycle: from a request body to a response body.

use crate::dispatch::{dispatch, dispatched, DispatchError};
use crate::request::{decode, decoded, DecodeError, RequestView, RpcRequest};
use crate::response::{encode, response_bytes, EncodeError, RpcResponse};
use vstd::prelude::*;

verus! {

/// Why a body got no response.
#[derive(Clone, Copy, Debug, PartialEq, Eq, Structural)]
pub enum RpcError {
    /// The body is no request.
    Decode(DecodeError),
    /// The request's method gave no result.
    Dispatch(DispatchError),
    /// The response has no wire form.
    Encode(EncodeError),
}

impl RpcError {
    /// The error in words: those of the step that failed.
    pub open spec fn text(self) -> Seq<char> {
        match self {
            RpcError::Decode(e) => e.text(),
            RpcError::Dispatch(e) => e.text(),
            RpcError::Encode(e) => e.text(),
        }
    }

    /// The error in words, for the transport to report.
    pub fn describe(self) -> (r: String)
        ensures
            r@ == self.text(),
    {
        match self {
            RpcError::Decode(e) => e.describe(),
            RpcError::Dispatch(e) => e.describe(),
            RpcError::Encode(e) => e.describe(),
        }
    }
}

/// Answers a request: the response carries the method's result and the
/// request's own id.
pub fn respond(request: &RpcRequest) -> (r: Result<RpcResponse, DispatchError>)
    ensures
        match r {
            Ok(response) => response.wf() && response.id == request.id && dispatched(request@)
                == Ok::<_, DispatchError>(response.result),
            Err(e) => dispatched(request@) == Err::<i32, _>(e),
        },
{
    match dispatch(request) {
        Ok(result) => Ok(RpcResponse::new(result, request.id)),
        Err(e) => Err(e),
    }
}

/// The response body that a request calls for.
pub open spec fn answered(request: RequestView) -> Result<Seq<u8>, RpcError> {
    match dispatched(request) {
        Ok(result) => Ok(response_bytes(result as int, request.id as int)),
        Err(e) => Err(RpcError::Dispatch(e)),
    }
}

/// The response body that a request body calls for.
pub open spec fn handled(body: Seq<u8>) -> Result<Seq<u8>, RpcError> {
    match decoded(body) {
        Ok(request) => answered(request),
        Err(e) => Err(RpcError::Decode(e)),
    }
}

/// A response carries the id of the request that it answers, and the result
/// that the request calls for.
pub proof fn response_keeps_id(body: Seq<u8>)
    requires
        handled(body) is Ok,
    ensures
        decoded(body) is Ok,
        dispatched(decoded(body).unwrap()) is Ok,
        handled(body).unwrap() == response_bytes(
            dispatched(decoded(body).unwrap()).unwrap() as int,
            decoded(body).unwrap().id as int,
        ),
{
}

/// A body that is no request gets no response body, but the decoding error.
pub proof fn no_response_without_request(body: Seq<u8>)
    requires
        decoded(body) is Err,
    ensures
        handled(body) == Err::<Seq<u8>, _>(RpcError::Decode(decoded(body)->Err_0)),
{
}

/// An exchange never ends in an encoding error: every response that it
/// builds has a wire form.
pub proof fn exchange_never_fails_to_encode(body: Seq<u8>)
    ensures
        !(handled(body) matches Err(RpcError::Encode(_))),
{
}

/// Answers a request in wire form.
pub fn answer(request: &RpcRequest) -> (r: Result<Vec<u8>, RpcError>)
    ensures
        match r {
            Ok(bytes) => answered(request@) == Ok::<_, RpcError>(bytes@),
            Err(e) => answered(request@) == Err::<Seq<u8>, _>(e),
        },
{
    match respond(request) {
        Ok(response) => match encode(&response) {
            Ok(bytes) => Ok(bytes),
            Err(e) => Err(RpcError::Encode(e)),
        },
        Err(e) => Err(RpcError::Dispatch(e)),
    }
}

/// Runs one exchange: decodes the body, dispatches the request and encodes
/// the response. Each exchange stands alone. The empty body gets no response.
pub fn handle(body: &[u8]) -> (r: Result<Vec<u8>, RpcError>)
    ensures
        match r {
            Ok(bytes) => handled(body@) == Ok::<_, RpcError>(bytes@),
            Err(e) => handled(body@) == Err::<Seq<u8>, _>(e),
        },
        body@.len() == 0 ==> r == Err::<Vec<u8>, _>(RpcError::Decode(DecodeError::Syntax)),
{
    match decode(body) {
        Ok(request) => answer(&request),
        Err(e) => Err(RpcError::Decode(e)),
    }
}

} // verus!
