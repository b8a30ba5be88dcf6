use oauth_relay::oauth::flow::{random_string, Flow};
use oauth_relay::oauth::OAuthRequest;

fn callback(state: &str, code: Option<&str>) -> OAuthRequest {
    OAuthRequest { state: state.to_string(), code: code.map(|c| c.to_string()), error: None }
}

#[test]
fn new_registry_holds_nothing() {
    let flow = Flow::new();
    assert!(!flow.find("anything".to_string()));
    assert!(!flow.find(String::new()));
}

#[test]
fn issued_nonce_is_pending_until_consumed() {
    let mut flow = Flow::new();
    let nonce = flow.generate_persistent_nonce();
    assert!(flow.find(nonce.clone()));
    assert!(flow.remove(nonce.clone()));
    assert!(!flow.find(nonce.clone()));
    assert!(!flow.remove(nonce));
}

#[test]
fn find_does_not_consume() {
    let mut flow = Flow::new();
    flow.issue("n1".to_string());
    assert!(flow.find("n1".to_string()));
    assert!(flow.find("n1".to_string()));
    assert!(flow.remove("n1".to_string()));
}

#[test]
fn only_the_first_of_many_consumes_succeeds() {
    let mut flow = Flow::new();
    flow.issue("n1".to_string());
    let mut successes = 0;
    for _ in 0..8 {
        if flow.remove("n1".to_string()) {
            successes += 1;
        }
    }
    assert_eq!(successes, 1);
}

#[test]
fn consuming_an_unknown_nonce_reports_not_found() {
    let mut flow = Flow::new();
    flow.issue("n1".to_string());
    assert!(!flow.remove("n2".to_string()));
    assert!(flow.find("n1".to_string()));
}

#[test]
fn issuing_twice_keeps_one_pending_entry() {
    let mut flow = Flow::new();
    flow.issue("n1".to_string());
    flow.issue("n1".to_string());
    assert!(flow.remove("n1".to_string()));
    assert!(!flow.find("n1".to_string()));
    assert!(!flow.remove("n1".to_string()));
}

#[test]
fn nonces_are_independent() {
    let mut flow = Flow::new();
    let a = flow.generate_persistent_nonce();
    let b = flow.generate_persistent_nonce();
    assert_ne!(a, b);
    assert!(flow.remove(a.clone()));
    assert!(flow.find(b.clone()));
    assert!(!flow.find(a));
}

#[test]
fn abandoned_nonces_stay_pending() {
    let mut flow = Flow::new();
    let first = flow.generate_persistent_nonce();
    for _ in 0..50 {
        let _ = flow.generate_persistent_nonce();
    }
    assert!(flow.find(first));
}

#[test]
fn random_string_is_url_safe_base64_of_32_chars() {
    let nonce = random_string();
    assert!(nonce.len() >= 43 && nonce.len() <= 171);
    assert!(nonce.chars().all(|c| c.is_ascii_alphanumeric() || c == '-' || c == '_'));
    assert_ne!(nonce, random_string());
}

#[test]
fn verify_needs_code_pending_nonce_and_matching_state() {
    let mut flow = Flow::new();
    flow.issue("n1".to_string());
    assert!(flow.verify(callback("n1", Some("code")), "n1".to_string()));
    assert!(!flow.verify(callback("n1", None), "n1".to_string()));
    assert!(!flow.verify(callback("n2", Some("code")), "n1".to_string()));
    assert!(!flow.verify(callback("n2", Some("code")), "n2".to_string()));
    assert!(!flow.verify(callback("n1", Some("code")), "n2".to_string()));
    assert!(flow.find("n1".to_string()));
}
