use crate::model::response::{HttpReply, ResponseResult};
use vstd::prelude::*;

verus! {

/// The message of the answer to a request for a path that nothing serves.
pub const MSG_NOT_FOUND: &'static str = "Not Found";

/// The answer to a request for a path that nothing serves: status and code
/// 404, no data.
pub fn not_found() -> (reply: HttpReply<String>)
    ensures
        reply.status == 404,
        reply.body.code == 404,
        reply.body.msg@ == MSG_NOT_FOUND@,
        reply.body.data is None,
{
    HttpReply {
        status: 404,
        body: ResponseResult { code: 404, msg: MSG_NOT_FOUND.to_owned(), data: None },
    }
}

} // verus!
