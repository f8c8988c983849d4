//! The `{code, message, data}` envelope every endpoint answers with.
use vstd::prelude::*;

verus! {

/// Status code of a successful answer.
pub const CODE_OK: u16 = 200;

/// Status code of a failed answer.
pub const CODE_ERROR: u16 = 500;

/// An answer: a status code, a message and a payload.
pub struct Response<T> {
    pub code: u16,
    pub message: String,
    pub data: T,
}

impl Response<()> {
    /// Success with no message and no payload.
    pub fn empty() -> (r: Response<()>)
        ensures
            r.code == CODE_OK,
            r.message@ == Seq::<char>::empty(),
    {
        Response { code: CODE_OK, message: String::new(), data: () }
    }

    /// Failure carrying `msg`.
    pub fn error(msg: &str) -> (r: Response<()>)
        ensures
            r.code == CODE_ERROR,
            r.message@ == msg@,
    {
        Response { code: CODE_ERROR, message: msg.to_owned(), data: () }
    }

    /// An answer with the given code and message and no payload.
    pub fn custom(code: u16, msg: &str) -> (r: Response<()>)
        ensures
            r.code == code,
            r.message@ == msg@,
    {
        Response { code, message: msg.to_owned(), data: () }
    }
}

impl<T> Response<T> {
    /// Success carrying `value`.
    pub fn ok(value: T) -> (r: Response<T>)
        ensures
            r.code == CODE_OK,
            r.message@ == Seq::<char>::empty(),
            r.data == value,
    {
        Response { code: CODE_OK, message: String::new(), data: value }
    }
}

/// The answer to a request that no route serves.
pub fn catch404() -> (r: Response<()>)
    ensures
        r.code == 404,
        r.message@ == "not found"@,
{
    Response::custom(404, "not found")
}

} // verus!
