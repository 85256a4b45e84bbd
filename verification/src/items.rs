//! The rules of the item endpoints: which items are accepted, which ids have
//! an item, and how a failure is reported.

use crate::decimal::{digits, push_digits};
use vstd::prelude::*;
use vstd::string::StringExecFns;

verus! {

/// A named item.
#[derive(Debug, PartialEq, Eq)]
pub struct Item {
    pub id: u32,
    pub name: String,
}

/// A failure of an endpoint, with its message.
#[derive(Debug, PartialEq, Eq)]
pub enum ApiError {
    /// The caller's fault.
    BadRequest(String),
    /// The server's fault.
    Internal(String),
}

impl ApiError {
    /// The message that the error carries.
    pub open spec fn message(&self) -> Seq<char> {
        match self {
            ApiError::BadRequest(message) => message@,
            ApiError::Internal(message) => message@,
        }
    }

    /// The HTTP status that reports the error: 400 for the caller's fault,
    /// 500 for the server's.
    pub open spec fn status(&self) -> u16 {
        match self {
            ApiError::BadRequest(_) => 400,
            ApiError::Internal(_) => 500,
        }
    }

    /// The error as a line of text: whose fault it is, then its message.
    pub open spec fn text(&self) -> Seq<char> {
        match self {
            ApiError::BadRequest(message) => "Bad Request: "@ + message@,
            ApiError::Internal(message) => "Internal Error: "@ + message@,
        }
    }

    /// The HTTP status that reports the error.
    pub fn status_code(&self) -> (r: u16)
        ensures
            r == self.status(),
    {
        match self {
            ApiError::BadRequest(_) => 400,
            ApiError::Internal(_) => 500,
        }
    }

    /// The message for the body of the error response.
    pub fn response_message(&self) -> (r: String)
        ensures
            r@ == self.message(),
    {
        match self {
            ApiError::BadRequest(message) => message.clone(),
            ApiError::Internal(message) => message.clone(),
        }
    }

    /// The error as a line of text.
    pub fn describe(&self) -> (r: String)
        ensures
            r@ == self.text(),
    {
        match self {
            ApiError::BadRequest(message) => String::from_str("Bad Request: ").concat(
                message.as_str(),
            ),
            ApiError::Internal(message) => String::from_str("Internal Error: ").concat(
                message.as_str(),
            ),
        }
    }
}

/// The message of the health endpoint.
pub fn health() -> (r: String)
    ensures
        r@ == "ok"@,
{
    String::from_str("ok")
}

/// The name of the item numbered `id`.
pub open spec fn item_name(id: u32) -> Seq<char> {
    "Item "@ + digits(id as nat)
}

/// Accepts a new item: one whose name is not empty. The item comes back as
/// it was given.
pub fn create_item(item: Item) -> (r: Result<Item, ApiError>)
    ensures
        item.name@.len() == 0 ==> (r matches Err(ApiError::BadRequest(message)) && message@
            == "name required"@),
        item.name@.len() != 0 ==> r == Ok::<_, ApiError>(item),
{
    if item.name.as_str().is_empty() {
        return Err(ApiError::BadRequest(String::from_str("name required")));
    }
    Ok(item)
}

/// Finds the item numbered `id`. Every id but 0 has one.
pub fn get_item(id: u32) -> (r: Result<Item, ApiError>)
    ensures
        id == 0 ==> (r matches Err(ApiError::BadRequest(message)) && message@ == "invalid id"@),
        id != 0 ==> (r matches Ok(item) && item.id == id && item.name@ == item_name(id)),
{
    if id == 0 {
        return Err(ApiError::BadRequest(String::from_str("invalid id")));
    }
    let mut name = String::from_str("Item ");
    push_digits(&mut name, id as u64);
    Ok(Item { id, name })
}

} // verus!
