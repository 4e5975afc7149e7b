use vstd::prelude::*;

verus! {

/// The message of every successful response.
pub const MSG_SUCCESS: &'static str = "success";

/// The envelope of every response body: a code (`0` for success, `-1` for
/// failure), a message, and the data if there is any.
pub struct ResponseResult<T> {
    pub code: i32,
    pub msg: String,
    pub data: Option<T>,
}

impl<T> ResponseResult<T> {
    /// A successful response that carries `data_opt`.
    pub fn success(data_opt: Option<T>) -> (response: Self)
        ensures
            response.code == 0,
            response.msg@ == MSG_SUCCESS@,
            response.data == data_opt,
    {
        Self { code: 0, msg: MSG_SUCCESS.to_owned(), data: data_opt }
    }

    /// A successful response without data.
    pub fn success_without_data() -> (response: Self)
        ensures
            response.code == 0,
            response.msg@ == MSG_SUCCESS@,
            response.data is None,
    {
        Self::success(Option::None)
    }

    /// A successful response that carries `data`.
    pub fn success_with_data(data: T) -> (response: Self)
        ensures
            response.code == 0,
            response.msg@ == MSG_SUCCESS@,
            response.data == Some(data),
    {
        Self { code: 0, msg: MSG_SUCCESS.to_owned(), data: Option::Some(data) }
    }

    /// A failed response with `msg` as its message and no data.
    pub fn fail(msg: String) -> (response: Self)
        ensures
            response.code == -1,
            response.msg == msg,
            response.data is None,
    {
        Self { code: -1, msg, data: None }
    }
}

/// An answer to a request: the HTTP status and the body.
pub struct HttpReply<T> {
    pub status: u16,
    pub body: ResponseResult<T>,
}

} // verus!
