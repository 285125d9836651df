use spotty::auth::{auth_url, find_param, CodeStore};
use spotty::pkce::{generate_code_challenge, generate_code_verifier};

fn pair(name: &str, value: &str) -> (String, String) {
    (name.to_string(), value.to_string())
}

#[test]
fn login_page() {
    assert_eq!(
        auth_url("CHALLENGE"),
        "https://accounts.spotify.com/authorize\
         ?client_id=029dec42942148988a90b86aa92756dd\
         &response_type=code\
         &redirect_uri=http%3A%2F%2F127.0.0.1%3A8888%2Fcallback\
         &scope=user-read-recently-played%20playlist-modify-public%20playlist-read-private\
         &code_challenge=CHALLENGE\
         &code_challenge_method=S256"
    );
}

#[test]
fn parameters_by_name() {
    let params = vec![pair("state", "x"), pair("code", "y"), pair("code", "z")];
    assert_eq!(find_param(&params, "code"), Some("y".to_string()));
    assert_eq!(find_param(&params, "state"), Some("x".to_string()));
    assert_eq!(find_param(&params, "error"), None);
    assert_eq!(find_param(&Vec::new(), "code"), None);
}

#[test]
fn parameters_in_any_order() {
    let one = vec![pair("state", "x"), pair("code", "y")];
    let other = vec![pair("code", "y"), pair("state", "x")];
    assert_eq!(find_param(&one, "code"), find_param(&other, "code"));
}

#[test]
fn callback_without_code() {
    let mut store = CodeStore::new();
    assert_eq!(store.poll(), None);
    assert_eq!(store.receive(&vec![pair("error", "denied")]), "Missing code");
    assert_eq!(store.poll(), None);
    assert_eq!(store.take(), None);
}

#[test]
fn callback_with_code() {
    let mut store = CodeStore::new();
    assert_eq!(
        store.receive(&vec![pair("code", "abc")]),
        "Login successful. You can close this window."
    );
    assert_eq!(store.poll(), Some("Got authorization code: abc".to_string()));
    assert_eq!(store.poll(), Some("Got authorization code: abc".to_string()));
    assert_eq!(store.take(), Some("abc".to_string()));
    assert_eq!(store.take(), None);
}

#[test]
fn last_code_is_kept() {
    let mut store = CodeStore::new();
    store.receive(&vec![pair("code", "first")]);
    store.receive(&vec![pair("code", "second")]);
    assert_eq!(store.receive(&Vec::new()), "Missing code");
    assert_eq!(store.take(), Some("second".to_string()));
}

#[test]
fn login_page_hides_the_verifier() {
    let verifier = generate_code_verifier().ok().unwrap();
    let challenge = generate_code_challenge(&verifier);
    assert_ne!(verifier, challenge);
    let url = auth_url(&challenge);
    assert!(url.contains(&challenge));
    assert!(!url.contains(&verifier));
}
