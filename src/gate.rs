//! The installation gate: until the configuration record exists, every
//! request but the install request is answered with a fixed "uninitialized"
//! response, and installation can happen only once.
use vstd::prelude::*;

use crate::error::AccessError;
use crate::resp::Response;

verus! {

/// Paths ending with this are install requests.
pub const INSTALL_SUFFIX: &'static str = "/install";

/// Code of the answer given while the blog is not installed.
pub const CODE_UNINITIALIZED: u16 = 0;

/// Whether `s` ends with `suffix`.
pub open spec fn ends_with(s: Seq<char>, suffix: Seq<char>) -> bool {
    suffix.len() <= s.len() && s.subrange(s.len() - suffix.len(), s.len() as int) == suffix
}

/// Whether a request to `path` is the install request.
pub open spec fn is_install_path(path: Seq<char>) -> bool {
    ends_with(path, INSTALL_SUFFIX@)
}

/// Relies on `str::ends_with` with a string pattern: whether `suffix` is a
/// suffix of `s`.
#[verifier::external_body]
fn str_ends_with(s: &str, suffix: &str) -> (r: bool)
    ensures
        r == ends_with(s@, suffix@),
{
    s.ends_with(suffix)
}

/// Whether a request to `path` is the install request.
pub fn is_install_request(path: &str) -> (r: bool)
    ensures
        r == is_install_path(path@),
{
    str_ends_with(path, INSTALL_SUFFIX)
}

/// What happens to a request before its handler.
#[derive(Clone, Copy, Debug, PartialEq, Eq, Structural)]
pub enum GateVerdict {
    /// Hand the request on to its handler.
    Proceed,
    /// Answer with the "uninitialized" response; the handler does not run.
    Blocked,
}

/// Cached installation state: `installed` once the configuration record has
/// been seen. It only ever goes from `false` to `true`.
#[derive(Clone, Copy, Debug)]
pub struct InstallationGate {
    pub installed: bool,
}

/// Cached state after a store lookup found the record `present` or not.
pub open spec fn gate_after(installed: bool, present: bool) -> bool {
    installed || present
}

/// The verdict for a request to `path`, given the cached state and what the
/// store lookup found.
pub open spec fn gate_verdict(installed: bool, present: bool, path: Seq<char>) -> GateVerdict {
    if !installed && !present && !is_install_path(path) {
        GateVerdict::Blocked
    } else {
        GateVerdict::Proceed
    }
}

impl InstallationGate {
    /// State of a process that has not yet seen the configuration record.
    pub fn new() -> (g: InstallationGate)
        ensures
            !g.installed,
    {
        InstallationGate { installed: false }
    }

    /// State with the cached flag `installed`.
    pub fn from_flag(installed: bool) -> (g: InstallationGate)
        ensures
            g.installed == installed,
    {
        InstallationGate { installed }
    }

    /// Whether the store must be asked if the configuration record exists;
    /// once it has been seen the request proceeds without asking.
    pub fn needs_lookup(&self) -> (r: bool)
        ensures
            r == !self.installed,
    {
        !self.installed
    }

    /// Decides on a request to `path` once the store said whether the
    /// configuration record is `present`, and caches a positive answer.
    pub fn on_lookup(&mut self, present: bool, path: &str) -> (r: GateVerdict)
        ensures
            final(self).installed == gate_after(old(self).installed, present),
            r == gate_verdict(old(self).installed, present, path@),
    {
        if present {
            self.installed = true;
            GateVerdict::Proceed
        } else if self.installed || is_install_request(path) {
            GateVerdict::Proceed
        } else {
            GateVerdict::Blocked
        }
    }

    /// Whether an install request may run: not once the blog has been seen
    /// installed.
    pub fn check_install(&self) -> (r: Result<(), AccessError>)
        ensures
            self.installed <==> r == Err::<(), AccessError>(AccessError::AlreadyInstalled),
            !self.installed <==> r is Ok,
    {
        if self.installed {
            Err(AccessError::AlreadyInstalled)
        } else {
            Ok(())
        }
    }
}

/// Until the blog is installed, every request but the install request is
/// blocked and the install request passes; once the install has created the
/// configuration record, the next lookup caches it and a second install is
/// refused.
pub proof fn lemma_install_once(path: Seq<char>)
    ensures
        !is_install_path(path) ==> gate_verdict(false, false, path) == GateVerdict::Blocked,
        is_install_path(path) ==> gate_verdict(false, false, path) == GateVerdict::Proceed
            && !gate_after(false, false),
        gate_verdict(false, true, path) == GateVerdict::Proceed,
        gate_after(false, true),
        forall|present: bool| #[trigger] gate_after(true, present),
{
}

/// The answer to a request blocked before installation.
pub fn uninitialized_response() -> (r: Response<()>)
    ensures
        r.code == CODE_UNINITIALIZED,
        r.message@ == "uninitialized"@,
{
    Response::custom(CODE_UNINITIALIZED, "uninitialized")
}

/// The answer to an install request once the blog is installed.
pub fn reinstall_response() -> (r: Response<()>)
    ensures
        r.code == crate::resp::CODE_ERROR,
        r.message@ == "repeat installation"@,
{
    Response::error("repeat installation")
}

} // verus!
