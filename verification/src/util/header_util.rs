use crate::model::response::ResponseResult;
use crate::util::token_util::{get_user_id_by_token, token_verdict, TokenError};
use vstd::prelude::*;

verus! {

/// What looking up one header of a request found.
#[derive(Debug)]
pub enum HeaderLookup {
    /// The request has no such header.
    Missing,
    /// The header is there but its value is no visible text.
    Unreadable,
    /// The header's value.
    Text(String),
}

/// The message of the response to a request without a credential header.
pub const MSG_TOKEN_EMPTY: &'static str = "token is empty";

/// The value of the header as text, if it is there and readable.
pub fn get_header_value(lookup: &HeaderLookup) -> (value: Option<&str>)
    ensures
        match *lookup {
            HeaderLookup::Text(text) => value matches Some(found) && found@ == text@,
            _ => value is None,
        },
{
    match lookup {
        HeaderLookup::Text(text) => Some(text.as_str()),
        _ => None,
    }
}

/// The user behind the credential header of a request, as of the time of
/// the call, or the failed response to send back: `token is empty` where
/// the header is missing or unreadable, and the token's fault in words
/// where the credential does not validate.
pub fn get_user_id_from_request(lookup: &HeaderLookup, secret: &str) -> (found: Result<
    u64,
    ResponseResult<bool>,
>)
    ensures
        match *lookup {
            HeaderLookup::Text(token) => exists|now: usize|
                match #[trigger] token_verdict(token@, secret@, now) {
                    Ok(claims) => found == Ok::<u64, ResponseResult<bool>>(claims.user_id),
                    Err(error) => found matches Err(response) && response.code == -1
                        && response.msg@ == error.message_spec() && response.data is None,
                },
            _ => found matches Err(response) && response.code == -1 && response.msg@
                == MSG_TOKEN_EMPTY@ && response.data is None,
        },
{
    match get_header_value(lookup) {
        None => Err(ResponseResult::fail(MSG_TOKEN_EMPTY.to_owned())),
        Some(token) => match get_user_id_by_token(token, secret) {
            Ok(user_id) => Ok(user_id),
            Err(error) => Err(ResponseResult::fail(error.message())),
        },
    }
}

} // verus!
