//! The error-body rewriting middleware. It runs after the handlers, so
//! any response carrying 404 or 500 has its body replaced with a fixed
//! plain-text message, overriding whatever envelope the handler produced;
//! handler-built bodies stay visible only for other status codes.

use vstd::prelude::*;
use vstd::string::StringExecFns;

use crate::reply::{Reply, ReplyBody};

verus! {

/// Replace the body of an internal-error response with the fixed generic
/// message, keeping the status code.
pub fn internal_error(res: Reply) -> (r: Reply)
    ensures
        r.code == res.code,
        (r.body matches ReplyBody::Text { message } && message@ == ("An error occurred")@),
{
    Reply { code: res.code, body: ReplyBody::Text { message: String::from_str("An error occurred") } }
}

/// Replace the body of a not-found response with the fixed generic
/// message, keeping the status code.
pub fn not_found(res: Reply) -> (r: Reply)
    ensures
        r.code == res.code,
        (r.body matches ReplyBody::Text { message } && message@ == ("Not found")@),
{
    Reply { code: res.code, body: ReplyBody::Text { message: String::from_str("Not found") } }
}

/// The rewriting stage of the pipeline: responses carrying 404 or 500 get
/// the fixed plain-text bodies; every other response passes unchanged.
pub fn err_handlers(res: Reply) -> (r: Reply)
    ensures
        r.code == res.code,
        res.code == 404 ==> (r.body matches ReplyBody::Text { message } && message@ == (
        "Not found")@),
        res.code == 500 ==> (r.body matches ReplyBody::Text { message } && message@ == (
        "An error occurred")@),
        res.code != 404 && res.code != 500 ==> r == res,
{
    if res.code == 404 {
        not_found(res)
    } else if res.code == 500 {
        internal_error(res)
    } else {
        res
    }
}

} // verus!
