use crate::model::response::{HttpReply, ResponseResult, MSG_SUCCESS};
use crate::model::user::User;
use vstd::prelude::*;

verus! {

/// The message of the answer to a login that was refused.
pub const MSG_LOGIN_REFUSED: &'static str = "用户名或密码错误";

/// The message of the answer to a login for which no credential could be
/// issued.
pub const MSG_TOKEN_NOT_ISSUED: &'static str = "token 颁发失败";

/// The answer to a login request. `attempt` is how the login went: refused
/// (outer error), accepted but without a credential (inner error), or
/// accepted with the credential issued.
///
/// A refusal is answered with 401 and never says why; a credential that
/// could not be issued with 500; a credential with 200 and the credential
/// as the data.
pub fn login(attempt: Result<Result<String, String>, String>) -> (reply: HttpReply<String>)
    ensures
        match attempt {
            Ok(Ok(token)) => {
                &&& reply.status == 200
                &&& reply.body.code == 0
                &&& reply.body.msg@ == MSG_SUCCESS@
                &&& reply.body.data == Some(token)
            },
            Ok(Err(_)) => {
                &&& reply.status == 500
                &&& reply.body.code == -1
                &&& reply.body.msg@ == MSG_TOKEN_NOT_ISSUED@
                &&& reply.body.data is None
            },
            Err(_) => {
                &&& reply.status == 401
                &&& reply.body.code == -1
                &&& reply.body.msg@ == MSG_LOGIN_REFUSED@
                &&& reply.body.data is None
            },
        },
{
    match attempt {
        Ok(Ok(token)) => HttpReply { status: 200, body: ResponseResult::success_with_data(token) },
        Ok(Err(_)) => HttpReply {
            status: 500,
            body: ResponseResult::fail(MSG_TOKEN_NOT_ISSUED.to_owned()),
        },
        Err(_) => HttpReply { status: 401, body: ResponseResult::fail(MSG_LOGIN_REFUSED.to_owned()) },
    }
}

/// The answer to a registration request: 200 with the stored user, or 500
/// with the reason for which the registration failed as the message.
pub fn register(outcome: Result<User, String>) -> (reply: HttpReply<User>)
    ensures
        match outcome {
            Ok(user) => {
                &&& reply.status == 200
                &&& reply.body.code == 0
                &&& reply.body.msg@ == MSG_SUCCESS@
                &&& reply.body.data == Some(user)
            },
            Err(reason) => {
                &&& reply.status == 500
                &&& reply.body.code == -1
                &&& reply.body.msg == reason
                &&& reply.body.data is None
            },
        },
{
    match outcome {
        Ok(user) => HttpReply { status: 200, body: ResponseResult::success_with_data(user) },
        Err(reason) => HttpReply { status: 500, body: ResponseResult::fail(reason) },
    }
}

} // verus!
