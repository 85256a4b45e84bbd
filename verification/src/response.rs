//! Responses and their wire form.

use crate::decimal::{decimal, decimal_is_ascii, push_decimal};
use crate::text::same_text;
use vstd::prelude::*;
use vstd::string::{StrSliceExecFns, StringExecFns};
use vstd::utf8::{is_ascii_chars, is_ascii_chars_encode_utf8};

verus! {

/// The answer to one request.
#[derive(Debug, PartialEq, Eq)]
pub struct RpcResponse {
    /// The protocol version, always `2.0`.
    pub jsonrpc: String,
    pub result: i32,
    /// The id of the request that this answers.
    pub id: i32,
}

/// A response that has no wire form: its protocol version is not `2.0`.
#[derive(Clone, Copy, Debug, PartialEq, Eq, Structural)]
pub struct EncodeError;

impl EncodeError {
    /// The error in words.
    pub open spec fn text(self) -> Seq<char> {
        "response is not of protocol version 2.0"@
    }

    /// The error in words, for the transport to report.
    pub fn describe(self) -> (r: String)
        ensures
            r@ == self.text(),
    {
        String::from_str("response is not of protocol version 2.0")
    }
}

/// The text of a response: a JSON object of the three members `jsonrpc`,
/// `result` and `id`, in that order and without whitespace.
pub open spec fn response_text(result: int, id: int) -> Seq<char> {
    "{\"jsonrpc\":\"2.0\",\"result\":"@ + decimal(result) + ",\"id\":"@ + decimal(id) + "}"@
}

/// The wire form of a response: its text, one byte for each character.
pub open spec fn response_bytes(result: int, id: int) -> Seq<u8> {
    response_text(result, id).map_values(|c: char| c as u8)
}

/// The text of a response holds ASCII characters only.
pub proof fn response_text_is_ascii(result: int, id: int)
    ensures
        is_ascii_chars(response_text(result, id)),
{
    reveal_strlit("{\"jsonrpc\":\"2.0\",\"result\":");
    reveal_strlit(",\"id\":");
    reveal_strlit("}");
    decimal_is_ascii(result);
    decimal_is_ascii(id);
}

impl RpcResponse {
    /// A response is well formed when it names protocol version `2.0`.
    pub open spec fn wf(&self) -> bool {
        self.jsonrpc@ == "2.0"@
    }

    /// The response that carries `result` to the request numbered `id`.
    pub fn new(result: i32, id: i32) -> (r: RpcResponse)
        ensures
            r.wf(),
            r.result == result,
            r.id == id,
    {
        RpcResponse { jsonrpc: String::from_str("2.0"), result, id }
    }

    /// The wire form of a well-formed response, as JSON text.
    pub fn to_text(&self) -> (r: Result<String, EncodeError>)
        ensures
            self.wf() ==> r is Ok && r.unwrap()@ == response_text(
                self.result as int,
                self.id as int,
            ),
            !self.wf() ==> r is Err,
    {
        if !same_text(self.jsonrpc.as_str(), "2.0") {
            return Err(EncodeError);
        }
        let mut out = String::from_str("{\"jsonrpc\":\"2.0\",\"result\":");
        push_decimal(&mut out, self.result as i64);
        out.append(",\"id\":");
        push_decimal(&mut out, self.id as i64);
        out.append("}");
        Ok(out)
    }
}

/// The wire form of a well-formed response, as bytes.
pub fn encode(response: &RpcResponse) -> (r: Result<Vec<u8>, EncodeError>)
    ensures
        response.wf() ==> r is Ok && r.unwrap()@ == response_bytes(
            response.result as int,
            response.id as int,
        ),
        !response.wf() ==> r is Err,
{
    match response.to_text() {
        Ok(text) => {
            let bytes = text.as_str().as_bytes_vec();
            proof {
                response_text_is_ascii(response.result as int, response.id as int);
                is_ascii_chars_encode_utf8(text@);
                assert(bytes@ =~= response_bytes(response.result as int, response.id as int));
            }
            Ok(bytes)
        },
        Err(e) => Err(e),
    }
}

} // verus!
