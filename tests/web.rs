use bulog::auth::{login_answer, login_start, logged_answer, logged_from, LoginStep};
use bulog::error::AccessError;
use bulog::extract::{content_type_answer, invalid_body_response};
use bulog::gate::{
    is_install_request, reinstall_response, uninitialized_response, GateVerdict,
    InstallationGate,
};
use bulog::resp::{catch404, Response};
use bulog::secret::{secret_from_reply, SESSION_TTL_SECS};

#[test]
fn responses() {
    let e = Response::empty();
    assert_eq!((e.code, e.message.as_str()), (200, ""));
    let e = Response::error("boom");
    assert_eq!((e.code, e.message.as_str()), (500, "boom"));
    let c = Response::custom(0, "uninitialized");
    assert_eq!((c.code, c.message.as_str()), (0, "uninitialized"));
    let o = Response::ok(7u32);
    assert_eq!((o.code, o.message.as_str(), o.data), (200, "", 7));
    let n = catch404();
    assert_eq!((n.code, n.message.as_str()), (404, "not found"));
}

#[test]
fn install_path_detection() {
    assert!(is_install_request("/v1/install"));
    assert!(!is_install_request("/v1/config"));
    assert!(!is_install_request("/v1/install/x"));
    assert!(!is_install_request(""));
}

#[test]
fn gate_blocks_until_installed_and_installs_once() {
    let mut gate = InstallationGate::new();
    assert!(gate.needs_lookup());
    assert_eq!(gate.on_lookup(false, "/v1/config"), GateVerdict::Blocked);
    assert_eq!(gate.on_lookup(false, "/v1/login"), GateVerdict::Blocked);
    assert_eq!(gate.on_lookup(false, "/v1/install"), GateVerdict::Proceed);
    assert_eq!(gate.check_install(), Ok(()));
    // The install request created the configuration record.
    assert_eq!(gate.on_lookup(true, "/v1/config"), GateVerdict::Proceed);
    assert!(!gate.needs_lookup());
    assert_eq!(gate.check_install(), Err(AccessError::AlreadyInstalled));
    let r = reinstall_response();
    assert_eq!((r.code, r.message.as_str()), (500, "repeat installation"));
}

#[test]
fn gate_answer_when_blocked() {
    let r = uninitialized_response();
    assert_eq!(r.code, 0);
    assert_eq!(r.message, "uninitialized");
}

#[test]
fn restarted_process_looks_up_again() {
    let gate = InstallationGate::from_flag(false);
    assert!(gate.needs_lookup());
    let mut gate = InstallationGate::from_flag(false);
    assert_eq!(gate.on_lookup(true, "/v1/install"), GateVerdict::Proceed);
    assert!(gate.installed);
}

#[test]
fn secret_reply() {
    assert_eq!(secret_from_reply(Some("s3cr3t".to_string())), Ok("s3cr3t".to_string()));
    assert_eq!(secret_from_reply(None), Err(AccessError::StoreFailure));
    assert_eq!(SESSION_TTL_SECS, 2_592_000);
}

#[test]
fn login_flow() {
    assert_eq!(login_start(true), LoginStep::AlreadyLogged);
    assert_eq!(login_start(false), LoginStep::CheckPassword);
    assert!(matches!(login_answer(true), Ok(r) if r.code == 200));
    assert!(matches!(login_answer(false), Err(r) if r.code == 401 && r.message == "login failure"));
    assert!(matches!(logged_answer(false), Err(r) if r.code == 403));
    assert!(matches!(logged_answer(true), Ok(r) if r.code == 200));
    assert!(logged_from(Some(true)));
    assert!(!logged_from(Some(false)));
    assert!(!logged_from(None));
}

#[test]
fn body_checks() {
    assert!(content_type_answer(true).is_none());
    let r = content_type_answer(false).unwrap();
    assert_eq!((r.code, r.message.as_str()), (415, "request content_type is not json"));
    let r = invalid_body_response("EOF at line 1");
    assert_eq!((r.code, r.message.as_str()), (400, "invalid request body: EOF at line 1"));
}

#[test]
fn error_answers() {
    let r = AccessError::NotFound.to_response();
    assert_eq!((r.code, r.message.as_str()), (500, "not found"));
    assert_eq!(AccessError::Exhausted.message(), "no free identifier found");
    assert_eq!(AccessError::AlreadyInstalled.message(), "repeat installation");
    assert_eq!(AccessError::StoreFailure.message(), "unexpected store answer");
}
