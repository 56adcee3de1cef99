use ebay_watcher::credential::{basic_auth_header, refresh_needed, Credential};
use ebay_watcher::poll::PollState;

#[test]
fn issued_credential_expiry() {
    let cred = Credential::issued("tok".to_string(), 7200, 1000);
    assert_eq!(cred.access_token, "tok");
    assert_eq!(cred.expires_at, 8200);
}

#[test]
fn issued_credential_expiry_saturates() {
    let cred = Credential::issued("tok".to_string(), u64::MAX, 10);
    assert_eq!(cred.expires_at, u64::MAX);
}

#[test]
fn refresh_exactly_within_margin() {
    let cred = Credential::issued("tok".to_string(), 7200, 1000);
    // expires_at == 8200; the safety margin is 5 seconds
    assert!(!cred.needs_refresh(8194), "comfortably outside the margin: keep the token");
    assert!(cred.needs_refresh(8195), "within the margin: refresh");
    assert!(cred.needs_refresh(9000), "already expired: refresh");
    assert!(refresh_needed(&None, 0), "no credential yet: refresh");
    assert!(!refresh_needed(&Some(cred), 100));
}

#[test]
fn state_refresh_decision() {
    let mut state = PollState::start();
    assert!(state.needs_refresh(0), "a cold start holds no credential");
    state.install_credential("tok".to_string(), 3600, 100);
    assert!(!state.needs_refresh(100));
    assert!(!state.needs_refresh(3694));
    assert!(state.needs_refresh(3695));
}

#[test]
fn basic_auth_header_encodes_credentials() {
    assert_eq!(basic_auth_header("user", "pass"), "Basic dXNlcjpwYXNz");
    assert_eq!(basic_auth_header("", ""), "Basic Og==");
}
