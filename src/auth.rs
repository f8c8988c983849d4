//! Login decisions: whether a session is logged in, and the answers to the
//! login endpoints.
use vstd::prelude::*;

use crate::resp::Response;

verus! {

/// Session key that marks a logged-in session.
pub const LOGGED_KEY: &'static str = "logged";

/// Body of a login request.
pub struct LoginPost {
    pub password: String,
}

/// Whether the session is logged in, given the value it holds under
/// `LOGGED_KEY`; no session or no value means not logged in.
pub fn logged_from(value: Option<bool>) -> (r: bool)
    ensures
        r == (value == Some(true)),
{
    match value {
        Some(b) => b,
        None => false,
    }
}

/// What a login attempt does next.
#[derive(Clone, Copy, Debug, PartialEq, Eq, Structural)]
pub enum LoginStep {
    /// The session is already logged in: answer success, check nothing.
    AlreadyLogged,
    /// Compare the submitted password against the stored hash.
    CheckPassword,
}

/// The first step of a login: a logged-in session needs no password check.
pub fn login_start(logged: bool) -> (r: LoginStep)
    ensures
        logged <==> r == LoginStep::AlreadyLogged,
{
    if logged {
        LoginStep::AlreadyLogged
    } else {
        LoginStep::CheckPassword
    }
}

/// The answer to a login once the password check came back: success (and the
/// session is then marked logged in), or a 401 failure.
pub fn login_answer(matched: bool) -> (r: Result<Response<()>, Response<()>>)
    ensures
        matched ==> (r matches Ok(a) && a.code == 200 && a.message@ == Seq::<char>::empty()),
        !matched ==> (r matches Err(a) && a.code == 401 && a.message@ == "login failure"@),
{
    if matched {
        Ok(Response::empty())
    } else {
        Err(Response::custom(401, "login failure"))
    }
}

/// The answer to "am I logged in": success, or a 403 failure.
pub fn logged_answer(logged: bool) -> (r: Result<Response<()>, Response<()>>)
    ensures
        logged ==> (r matches Ok(a) && a.code == 200 && a.message@ == Seq::<char>::empty()),
        !logged ==> (r matches Err(a) && a.code == 403 && a.message@ == "not logged"@),
{
    if logged {
        Ok(Response::empty())
    } else {
        Err(Response::custom(403, "not logged"))
    }
}

} // verus!
