//! Requests and their decoding.

use crate::json::{array_view, find, object_view, parsed, Json, JsonView};
use vstd::prelude::*;
use vstd::string::StringExecFns;

verus! {

/// One call: a method name, its integer parameters, and the id under which
/// the caller expects the answer.
#[derive(Debug, PartialEq, Eq)]
pub struct RpcRequest {
    /// The protocol version that the caller named.
    pub jsonrpc: String,
    pub method: String,
    pub params: Vec<i32>,
    pub id: i32,
}

/// The mathematical content of a request.
pub struct RequestView {
    pub jsonrpc: Seq<char>,
    pub method: Seq<char>,
    pub params: Seq<i32>,
    pub id: i32,
}

impl View for RpcRequest {
    type V = RequestView;

    open spec fn view(&self) -> RequestView {
        RequestView {
            jsonrpc: self.jsonrpc@,
            method: self.method@,
            params: self.params@,
            id: self.id,
        }
    }
}

/// The members that a request object must have.
#[derive(Clone, Copy, Debug, PartialEq, Eq, Structural)]
pub enum Field {
    Jsonrpc,
    Method,
    Params,
    Id,
}

/// Why a body is no request.
#[derive(Clone, Copy, Debug, PartialEq, Eq, Structural)]
pub enum DecodeError {
    /// The body is not JSON.
    Syntax,
    /// The body is JSON, but no object.
    NotObject,
    /// The object lacks this member.
    Missing(Field),
    /// This member does not hold what a request has there: a string for
    /// `jsonrpc` and `method`, an integer for `id`, an array of integers for
    /// `params`, each integer in the range of `i32`.
    Mistyped(Field),
}

impl Field {
    /// The member's key in the object.
    pub open spec fn name(self) -> Seq<char> {
        match self {
            Field::Jsonrpc => "jsonrpc"@,
            Field::Method => "method"@,
            Field::Params => "params"@,
            Field::Id => "id"@,
        }
    }

    /// The member's key in the object.
    pub fn key(self) -> (r: &'static str)
        ensures
            r@ == self.name(),
    {
        match self {
            Field::Jsonrpc => "jsonrpc",
            Field::Method => "method",
            Field::Params => "params",
            Field::Id => "id",
        }
    }
}

impl DecodeError {
    /// The error in words.
    pub open spec fn text(self) -> Seq<char> {
        match self {
            DecodeError::Syntax => "body is not JSON"@,
            DecodeError::NotObject => "request is not a JSON object"@,
            DecodeError::Missing(field) => "missing member: "@ + field.name(),
            DecodeError::Mistyped(field) => "mistyped member: "@ + field.name(),
        }
    }

    /// The error in words, for the transport to report.
    pub fn describe(self) -> (r: String)
        ensures
            r@ == self.text(),
    {
        match self {
            DecodeError::Syntax => String::from_str("body is not JSON"),
            DecodeError::NotObject => String::from_str("request is not a JSON object"),
            DecodeError::Missing(field) => String::from_str("missing member: ").concat(
                field.key(),
            ),
            DecodeError::Mistyped(field) => String::from_str("mistyped member: ").concat(
                field.key(),
            ),
        }
    }
}

/// The characters of a JSON string.
pub open spec fn text_of(value: JsonView) -> Option<Seq<char>> {
    match value {
        JsonView::Text(s) => Some(s),
        _ => None,
    }
}

/// The value of a JSON number that is an integer in the range of `i32`.
pub open spec fn int_of(value: JsonView) -> Option<i32> {
    match value {
        JsonView::Number(Some(n)) => if i32::MIN <= n <= i32::MAX {
            Some(n as i32)
        } else {
            None
        },
        _ => None,
    }
}

/// The items of a JSON array all of whose items are such integers.
pub open spec fn ints_of(value: JsonView) -> Option<Seq<i32>> {
    match value {
        JsonView::Array(items) => if forall|i: int|
            0 <= i < items.len() ==> int_of(#[trigger] items[i]) is Some {
            Some(Seq::new(items.len(), |i: int| int_of(items[i]).unwrap()))
        } else {
            None
        },
        _ => None,
    }
}

/// What a member holds when read by `read`: missing where the object has no
/// such member, mistyped where `read` gives nothing for its value.
pub open spec fn member_of<T>(
    members: Seq<(Seq<char>, JsonView)>,
    field: Field,
    read: spec_fn(JsonView) -> Option<T>,
) -> Result<T, DecodeError> {
    match find(members, field.name()) {
        None => Err(DecodeError::Missing(field)),
        Some(value) => match read(value) {
            Some(x) => Ok(x),
            None => Err(DecodeError::Mistyped(field)),
        },
    }
}

/// The request that a JSON value denotes. The value must be an object. Its
/// members are read in the order `jsonrpc`, `method`, `params`, `id`, and the
/// first that fails gives the error. Other members are ignored.
pub open spec fn request_of(json: JsonView) -> Result<RequestView, DecodeError> {
    match json {
        JsonView::Object(members) => {
            let jsonrpc = member_of(members, Field::Jsonrpc, |v: JsonView| text_of(v));
            let method = member_of(members, Field::Method, |v: JsonView| text_of(v));
            let params = member_of(members, Field::Params, |v: JsonView| ints_of(v));
            let id = member_of(members, Field::Id, |v: JsonView| int_of(v));
            if jsonrpc is Err {
                Err(jsonrpc->Err_0)
            } else if method is Err {
                Err(method->Err_0)
            } else if params is Err {
                Err(params->Err_0)
            } else if id is Err {
                Err(id->Err_0)
            } else {
                Ok(
                    RequestView {
                        jsonrpc: jsonrpc->Ok_0,
                        method: method->Ok_0,
                        params: params->Ok_0,
                        id: id->Ok_0,
                    },
                )
            }
        },
        _ => Err(DecodeError::NotObject),
    }
}

/// The JSON object that spells a request: its four members, in the order
/// `jsonrpc`, `method`, `params`, `id`.
pub open spec fn json_of(request: RequestView) -> JsonView {
    JsonView::Object(
        seq![
            (Field::Jsonrpc.name(), JsonView::Text(request.jsonrpc)),
            (Field::Method.name(), JsonView::Text(request.method)),
            (
                Field::Params.name(),
                JsonView::Array(
                    request.params.map_values(|n: i32| JsonView::Number(Some(n as i64))),
                ),
            ),
            (Field::Id.name(), JsonView::Number(Some(request.id as i64))),
        ],
    )
}

/// Decoding inverts spelling: the object that spells a request denotes that
/// request, with the same id, method, parameters and protocol version.
pub proof fn request_round_trip(request: RequestView)
    ensures
        request_of(json_of(request)) == Ok::<_, DecodeError>(request),
        request_of(json_of(request)).unwrap().id == request.id,
{
    reveal_strlit("jsonrpc");
    reveal_strlit("method");
    reveal_strlit("params");
    reveal_strlit("id");
    let members = json_of(request)->Object_0;
    reveal_with_fuel(find, 5);
    assert(members.skip(1)[0] == members[1]);
    assert(members.skip(1).skip(1)[0] == members[2]);
    assert(members.skip(1).skip(1).skip(1)[0] == members[3]);
    assert("jsonrpc"@.len() == 7 && "method"@.len() == 6 && "params"@.len() == 6 && "id"@.len()
        == 2);
    assert("method"@[0] == 'm' && "params"@[0] == 'p');
    assert(find(members, Field::Jsonrpc.name()) == Some(members[0].1));
    assert(find(members, Field::Method.name()) == Some(members[1].1));
    assert(find(members, Field::Params.name()) == Some(members[2].1));
    assert(find(members, Field::Id.name()) == Some(members[3].1));
    let items = request.params.map_values(|n: i32| JsonView::Number(Some(n as i64)));
    assert forall|i: int| 0 <= i < items.len() implies int_of(#[trigger] items[i]) == Some(
        request.params[i],
    ) by {}
    assert(ints_of(JsonView::Array(items)).unwrap() =~= request.params);
}

/// The request that a body denotes.
pub open spec fn decoded(body: Seq<u8>) -> Result<RequestView, DecodeError> {
    match parsed(body) {
        None => Err(DecodeError::Syntax),
        Some(json) => request_of(json),
    }
}

/// Reads a string member of an object.
fn text_member(json: &Json, field: Field) -> (r: Result<String, DecodeError>)
    requires
        json@ is Object,
    ensures
        match r {
            Ok(s) => member_of(json@->Object_0, field, |v: JsonView| text_of(v)) == Ok::<
                _,
                DecodeError,
            >(s@),
            Err(e) => member_of(json@->Object_0, field, |v: JsonView| text_of(v)) == Err::<
                Seq<char>,
                _,
            >(e),
        },
{
    match json.member(field.key()) {
        None => Err(DecodeError::Missing(field)),
        Some(Json::Text(s)) => Ok(s.clone()),
        Some(_) => Err(DecodeError::Mistyped(field)),
    }
}

/// Reads an integer out of a JSON value.
fn int_value(json: &Json) -> (r: Option<i32>)
    ensures
        r == int_of(json@),
{
    match json {
        Json::Number(Some(n)) => if i32::MIN as i64 <= *n && *n <= i32::MAX as i64 {
            Some(*n as i32)
        } else {
            None
        },
        _ => None,
    }
}

/// Reads an integer member of an object.
fn int_member(json: &Json, field: Field) -> (r: Result<i32, DecodeError>)
    requires
        json@ is Object,
    ensures
        r == member_of(json@->Object_0, field, |v: JsonView| int_of(v)),
{
    match json.member(field.key()) {
        None => Err(DecodeError::Missing(field)),
        Some(value) => match int_value(value) {
            Some(n) => Ok(n),
            None => Err(DecodeError::Mistyped(field)),
        },
    }
}

/// Reads the integers out of a JSON array.
fn int_values(json: &Json) -> (r: Option<Vec<i32>>)
    ensures
        match r {
            Some(v) => ints_of(json@) == Some(v@),
            None => ints_of(json@) is None,
        },
{
    match json {
        Json::Array(items) => {
            proof {
                array_view(*items);
            }
            let ghost all = json@->Array_0;
            let mut out: Vec<i32> = Vec::new();
            let mut i: usize = 0;
            while i < items.len()
                invariant
                    i <= items.len(),
                    json@ == JsonView::Array(all),
                    all.len() == items@.len(),
                    forall|k: int| 0 <= k < items@.len() ==> #[trigger] all[k] == items@[k]@,
                    out@.len() == i,
                    forall|k: int| 0 <= k < i ==> int_of(#[trigger] all[k]) == Some(out@[k]),
                decreases items.len() - i,
            {
                match int_value(&items[i]) {
                    Some(n) => {
                        out.push(n);
                    },
                    None => {
                        assert(int_of(all[i as int]) is None);
                        return None;
                    },
                }
                i += 1;
            }
            proof {
                assert(out@ =~= Seq::new(all.len(), |i: int| int_of(all[i]).unwrap()));
            }
            Some(out)
        },
        _ => None,
    }
}

/// Reads the `params` member of an object.
fn ints_member(json: &Json, field: Field) -> (r: Result<Vec<i32>, DecodeError>)
    requires
        json@ is Object,
    ensures
        match r {
            Ok(ints) => member_of(json@->Object_0, field, |v: JsonView| ints_of(v)) == Ok::<
                _,
                DecodeError,
            >(ints@),
            Err(e) => member_of(json@->Object_0, field, |v: JsonView| ints_of(v)) == Err::<
                Seq<i32>,
                _,
            >(e),
        },
{
    match json.member(field.key()) {
        None => Err(DecodeError::Missing(field)),
        Some(value) => match int_values(value) {
            Some(v) => Ok(v),
            None => Err(DecodeError::Mistyped(field)),
        },
    }
}

impl RpcRequest {
    /// The JSON object that spells this request.
    pub fn to_json(&self) -> (r: Json)
        ensures
            r@ == json_of(self@),
    {
        let mut items: Vec<Json> = Vec::new();
        let mut i: usize = 0;
        while i < self.params.len()
            invariant
                i <= self.params.len(),
                items@.len() == i,
                forall|k: int|
                    0 <= k < i ==> (#[trigger] items@[k])@ == JsonView::Number(
                        Some(self.params@[k] as i64),
                    ),
            decreases self.params.len() - i,
        {
            items.push(Json::Number(Some(self.params[i] as i64)));
            i += 1;
        }
        let members = vec![
            (Field::Jsonrpc.key().to_owned(), Json::Text(self.jsonrpc.clone())),
            (Field::Method.key().to_owned(), Json::Text(self.method.clone())),
            (Field::Params.key().to_owned(), Json::Array(items)),
            (Field::Id.key().to_owned(), Json::Number(Some(self.id as i64))),
        ];
        proof {
            array_view(items);
            object_view(members);
            assert(Json::Array(items)@->Array_0 =~= self@.params.map_values(
                |n: i32| JsonView::Number(Some(n as i64)),
            ));
            assert(Json::Object(members)@->Object_0 =~= json_of(self@)->Object_0);
        }
        Json::Object(members)
    }

    /// The request that a JSON value denotes, or why it denotes none.
    pub fn from_json(json: &Json) -> (r: Result<RpcRequest, DecodeError>)
        ensures
            match r {
                Ok(request) => request_of(json@) == Ok::<_, DecodeError>(request@),
                Err(e) => request_of(json@) == Err::<RequestView, _>(e),
            },
    {
        match json {
            Json::Object(_) => {},
            _ => {
                return Err(DecodeError::NotObject);
            },
        }
        let jsonrpc = match text_member(json, Field::Jsonrpc) {
            Ok(s) => s,
            Err(e) => {
                return Err(e);
            },
        };
        let method = match text_member(json, Field::Method) {
            Ok(s) => s,
            Err(e) => {
                return Err(e);
            },
        };
        let params = match ints_member(json, Field::Params) {
            Ok(v) => v,
            Err(e) => {
                return Err(e);
            },
        };
        let id = match int_member(json, Field::Id) {
            Ok(n) => n,
            Err(e) => {
                return Err(e);
            },
        };
        Ok(RpcRequest { jsonrpc, method, params, id })
    }
}

/// Decodes a request body. The body must be one JSON object that has the
/// members of a request; nothing is accepted in part. The empty body is no
/// request.
pub fn decode(body: &[u8]) -> (r: Result<RpcRequest, DecodeError>)
    ensures
        match r {
            Ok(request) => decoded(body@) == Ok::<_, DecodeError>(request@),
            Err(e) => decoded(body@) == Err::<RequestView, _>(e),
        },
        body@.len() == 0 ==> r == Err::<RpcRequest, _>(DecodeError::Syntax),
{
    match Json::parse(body) {
        None => Err(DecodeError::Syntax),
        Some(json) => RpcRequest::from_json(&json),
    }
}

} // verus!
