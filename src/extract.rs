//! Checks on a JSON request body before it is decoded.
use vstd::prelude::*;

use crate::resp::Response;

verus! {

/// A request body decoded from JSON.
pub struct Json<T>(pub T);

/// Code of the answer to a body that is not declared as JSON.
pub const CODE_UNSUPPORTED_MEDIA: u16 = 415;

/// Code of the answer to a body that does not decode.
pub const CODE_BAD_REQUEST: u16 = 400;

/// Prefix of the message that reports an undecodable body.
pub const INVALID_BODY_PREFIX: &'static str = "invalid request body: ";

/// Relies on `String::push_str`: appends `t` at the end of `s`.
#[verifier::external_body]
fn push_str(s: &mut String, t: &str)
    ensures
        final(s)@ == old(s)@ + t@,
{
    s.push_str(t)
}

/// The refusal of a body whose content type is not JSON, or `None` where it is.
pub fn content_type_answer(is_json: bool) -> (r: Option<Response<()>>)
    ensures
        is_json <==> r is None,
        r matches Some(a) ==> a.code == CODE_UNSUPPORTED_MEDIA && a.message@
            == "request content_type is not json"@,
{
    if is_json {
        None
    } else {
        Some(Response::custom(CODE_UNSUPPORTED_MEDIA, "request content_type is not json"))
    }
}

/// The refusal of a body that does not decode, quoting the decoder's `detail`.
pub fn invalid_body_response(detail: &str) -> (r: Response<()>)
    ensures
        r.code == CODE_BAD_REQUEST,
        r.message@ == INVALID_BODY_PREFIX@ + detail@,
{
    let mut message = INVALID_BODY_PREFIX.to_owned();
    push_str(&mut message, detail);
    Response { code: CODE_BAD_REQUEST, message, data: () }
}

} // verus!
