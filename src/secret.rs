//! The session secret: one random value kept in a singleton record, read if
//! it exists and created otherwise, inside a single store transaction.
use vstd::prelude::*;

use crate::error::AccessError;

verus! {

/// The get-or-create transaction. Its second statement's result is the secret.
pub const SECRET_TX: &'static str = "LET $secret = (SELECT session FROM ONLY secret:bulog).session; IF $secret != NONE { RETURN $secret; } ELSE { LET $secret = rand::string(64); CREATE secret:bulog SET session = $secret; RETURN $secret; }";

/// Index of the statement of `SECRET_TX` whose result is the secret.
pub const SECRET_STATEMENT: usize = 1;

/// Name of the session cookie.
pub const SESSION_COOKIE: &'static str = "bulog";

/// How long a session lasts, in seconds: thirty days.
pub const SESSION_TTL_SECS: u64 = 30 * 3600 * 24;

/// The get-or-create transaction on the stored secret: the stored value where
/// there is one, else `fresh`, which is then stored. Returns the new stored
/// state and the secret handed out.
pub open spec fn secret_tx(stored: Option<Seq<char>>, fresh: Seq<char>) -> (
    Option<Seq<char>>,
    Seq<char>,
) {
    match stored {
        Some(s) => (Some(s), s),
        None => (Some(fresh), fresh),
    }
}

/// Two bootstraps against one store, one after the other as the store
/// serialises them, hand out the same secret, whatever random values each drew.
pub proof fn lemma_secret_stable(stored: Option<Seq<char>>, fresh1: Seq<char>, fresh2: Seq<char>)
    ensures
        secret_tx(secret_tx(stored, fresh1).0, fresh2).1 == secret_tx(stored, fresh1).1,
        secret_tx(secret_tx(stored, fresh1).0, fresh2).0 == secret_tx(stored, fresh1).0,
{
}

/// The secret out of the transaction's answer; a missing answer is a store
/// failure.
pub fn secret_from_reply(reply: Option<String>) -> (r: Result<String, AccessError>)
    ensures
        reply is None <==> r == Err::<String, AccessError>(AccessError::StoreFailure),
        reply matches Some(s) ==> r == Ok::<String, AccessError>(s),
{
    match reply {
        Some(s) => Ok(s),
        None => Err(AccessError::StoreFailure),
    }
}

} // verus!
