use std::sync::Arc;
use xhs_auth::auth::AuthService;
use xhs_auth::client::{AppState, XhsApiClient};
use xhs_auth::credentials::{cookies_to_string, ApiSignature, Cookie, Credential};
use xhs_auth::error::ApiError;
use xhs_auth::request::{Method, SignedRequest};
use xhs_auth::store::CredentialStore;

fn jar() -> Vec<Cookie> {
    vec![Cookie::new("a1", "xyz"), Cookie::new("web_session", "s3cr3tvalue42")]
}

fn bundle(x_s: &str, x_t: &str, url: Option<&str>, body: Option<&str>) -> ApiSignature {
    ApiSignature {
        endpoint_key: "search_trending".to_string(),
        x_s: x_s.to_string(),
        x_t: x_t.to_string(),
        x_s_common: "common".to_string(),
        x_b3_traceid: "b3".to_string(),
        x_xray_traceid: "xray".to_string(),
        request_url: url.map(|u| u.to_string()),
        post_body: body.map(|b| b.to_string()),
    }
}

fn logged_in() -> AuthService {
    let mut auth = AuthService::new();
    auth.store_credentials(Credential::new(jar(), 1000, None));
    auth
}

fn client(auth: AuthService) -> XhsApiClient {
    XhsApiClient::new(Arc::new(auth))
}

fn header<'a>(r: &'a SignedRequest, name: &str) -> Option<&'a String> {
    r.header(name)
}

#[test]
fn cookie_string_joins_pairs() {
    assert_eq!(cookies_to_string(&jar()), "a1=xyz; web_session=s3cr3tvalue42");
    assert_eq!(cookies_to_string(&vec![]), "");
    assert_eq!(cookies_to_string(&vec![Cookie::new("k", "v")]), "k=v");
}

#[test]
fn no_login_gives_not_logged_in() {
    let api = client(AuthService::new());
    match api.get("user_me") {
        Err(ApiError::NotLoggedIn) => {}
        _ => panic!("expected NotLoggedIn"),
    }
    assert!(matches!(api.post("user_me"), Err(ApiError::NotLoggedIn)));
    assert!(matches!(api.get_with_url("user_me", "https://x"), Err(ApiError::NotLoggedIn)));
    assert!(matches!(api.post_with_body("user_me", "https://x", "{}".to_string()), Err(ApiError::NotLoggedIn)));
}

#[test]
fn not_logged_in_even_with_a_capture() {
    let mut auth = AuthService::new();
    auth.store_signature("user_me", bundle("abc", "123", Some("https://x/me"), None));
    let api = client(auth);
    assert!(matches!(api.get("user_me"), Err(ApiError::NotLoggedIn)));
}

#[test]
fn missing_capture_gives_signature_missing() {
    let api = client(logged_in());
    for r in [
        api.get("nothing_here"),
        api.get_with_url("nothing_here", "https://x"),
        api.post("nothing_here"),
        api.post_with_body("nothing_here", "https://x", "b".to_string()),
    ] {
        match r {
            Err(ApiError::SignatureMissing { endpoint }) => assert_eq!(endpoint, "nothing_here"),
            _ => panic!("expected SignatureMissing"),
        }
    }
}

#[test]
fn signed_get_carries_signature_and_cookies() {
    let mut auth = logged_in();
    auth.store_signature(
        "search_trending",
        bundle("abc", "123", Some("https://edith.xiaohongshu.com/api/sns/web/v1/search/querytrending?x=1"), None),
    );
    let api = client(auth);
    let req = api.get("search_trending").ok().unwrap();
    assert_eq!(req.method, Method::Get);
    assert_eq!(req.url, "https://edith.xiaohongshu.com/api/sns/web/v1/search/querytrending?x=1");
    assert_eq!(header(&req, "x-s").unwrap(), "abc");
    assert_eq!(header(&req, "x-t").unwrap(), "123");
    assert_eq!(header(&req, "x-s-common").unwrap(), "common");
    assert_eq!(header(&req, "x-b3-traceid").unwrap(), "b3");
    assert_eq!(header(&req, "x-xray-traceid").unwrap(), "xray");
    assert_eq!(header(&req, "cookie").unwrap(), "a1=xyz; web_session=s3cr3tvalue42");
    assert_eq!(header(&req, "origin").unwrap(), "https://www.xiaohongshu.com");
    assert_eq!(header(&req, "referer").unwrap(), "https://www.xiaohongshu.com/");
    assert_eq!(header(&req, "cache-control").unwrap(), "no-cache");
    assert!(header(&req, "xy-direction").is_none());
    assert!(req.body.is_none());
    assert_eq!(req.headers.len(), 20);
    assert_eq!(req.headers[0].name, "accept");
    assert_eq!(req.headers[19].name, "cookie");
}

#[test]
fn get_without_captured_url_fails() {
    let mut auth = logged_in();
    auth.store_signature("user_me", bundle("abc", "123", None, None));
    let api = client(auth);
    match api.get("user_me") {
        Err(ApiError::RequestUrlMissing { endpoint }) => assert_eq!(endpoint, "user_me"),
        _ => panic!("expected RequestUrlMissing"),
    }
    let req = api.get_with_url("user_me", "https://custom/url?q=1").ok().unwrap();
    assert_eq!(req.url, "https://custom/url?q=1");
    assert_eq!(header(&req, "x-s").unwrap(), "abc");
}

#[test]
fn post_defaults_url_and_body() {
    let mut auth = logged_in();
    auth.store_signature("home_feed_recommend", bundle("p", "9", None, None));
    let api = client(auth);
    let req = api.post("home_feed_recommend").ok().unwrap();
    assert_eq!(req.method, Method::Post);
    assert_eq!(req.url, "https://edith.xiaohongshu.com/api/sns/web/v1/home_feed_recommend");
    assert_eq!(req.body.as_deref(), Some(""));
    assert_eq!(header(&req, "content-type").unwrap(), "application/json;charset=UTF-8");
    assert_eq!(header(&req, "xy-direction").unwrap(), "98");
    assert_eq!(header(&req, "x-s").unwrap(), "p");
    assert!(header(&req, "cache-control").is_none());
    assert_eq!(req.headers.len(), 20);
}

#[test]
fn post_uses_captured_url_and_body() {
    let mut auth = logged_in();
    auth.store_signature("home_feed_recommend", bundle("p", "9", Some("https://cap/url"), Some("{\"a\":1}")));
    let api = client(auth);
    let req = api.post("home_feed_recommend").ok().unwrap();
    assert_eq!(req.url, "https://cap/url");
    assert_eq!(req.body.as_deref(), Some("{\"a\":1}"));
    let req2 = api.post_with_body("home_feed_recommend", "https://other", "xyz".to_string()).ok().unwrap();
    assert_eq!(req2.url, "https://other");
    assert_eq!(req2.body.as_deref(), Some("xyz"));
}

#[test]
fn response_406_is_flagged_not_failed() {
    let api = client(logged_in());
    let r = api.handle_response(406, "nope".to_string());
    assert!(r.signature_rejected);
    assert_eq!(r.status, 406);
    assert_eq!(r.body, "nope");
    let ok = api.handle_response(200, "{}".to_string());
    assert!(!ok.signature_rejected);
    assert_eq!(ok.body, "{}");
}

#[test]
fn put_then_get_signature_round_trips() {
    let mut auth = AuthService::new();
    let b = bundle("x-s-value", "1700000000", Some("https://u?q=1"), Some("{\"k\":2}"));
    auth.store_signature("search_trending", b);
    let got = auth.get_endpoint_signature("search_trending").unwrap();
    assert_eq!(got.endpoint_key, "search_trending");
    assert_eq!(got.x_s, "x-s-value");
    assert_eq!(got.x_t, "1700000000");
    assert_eq!(got.x_s_common, "common");
    assert_eq!(got.x_b3_traceid, "b3");
    assert_eq!(got.x_xray_traceid, "xray");
    assert_eq!(got.request_url.as_deref(), Some("https://u?q=1"));
    assert_eq!(got.post_body.as_deref(), Some("{\"k\":2}"));
    assert!(auth.get_endpoint_signature("other").is_none());
}

#[test]
fn writing_a_key_again_replaces_it() {
    let mut auth = AuthService::new();
    auth.store_signature("k", bundle("old", "1", None, None));
    auth.store_signature("j", bundle("other", "2", None, None));
    auth.store_signature("k", bundle("new", "3", None, None));
    assert_eq!(auth.get_endpoint_signature("k").unwrap().x_s, "new");
    assert_eq!(auth.get_endpoint_signature("j").unwrap().x_s, "other");
}

#[test]
fn store_keeps_one_credential_and_the_catalogue() {
    let mut store = CredentialStore::new();
    assert!(store.get_credential().is_none());
    assert!(store.get_signature("k").is_none());
    store.put_signature("k", bundle("s", "t", None, None));
    store.put_credential(Credential::new(jar(), 5, Some(99)));
    store.put_credential(Credential::new(vec![Cookie::new("n", "v")], 6, None));
    let c = store.get_credential().unwrap();
    assert_eq!(c.cookie_string(), "n=v");
    assert_eq!(c.captured_at, 6);
    assert_eq!(c.expires_at, None);
    assert_eq!(store.get_signature("k").unwrap().x_s, "s");
}

#[test]
fn snapshot_keeps_old_credential_after_swap() {
    let mut auth = logged_in();
    auth.store_signature("k", bundle("s1", "t1", Some("https://u"), None));
    let before = client(auth_copy(&auth));
    auth.store_credentials(Credential::new(vec![Cookie::new("fresh", "1")], 2000, None));
    let after = client(auth_copy(&auth));
    let old_req = before.get("k").ok().unwrap();
    let new_req = after.get("k").ok().unwrap();
    assert_eq!(header(&old_req, "cookie").unwrap(), "a1=xyz; web_session=s3cr3tvalue42");
    assert_eq!(header(&new_req, "cookie").unwrap(), "fresh=1");
    assert_eq!(header(&old_req, "x-s").unwrap(), "s1");
    assert_eq!(header(&new_req, "x-s").unwrap(), "s1");
    assert_eq!(auth.credential_writes(), 2);
}

fn auth_copy(auth: &AuthService) -> AuthService {
    let mut copy = AuthService::new();
    if let Some(c) = auth.try_get_credentials() {
        copy.store_credentials(c);
    }
    if let Some(s) = auth.get_endpoint_signature("k") {
        copy.store_signature("k", s);
    }
    copy
}

#[test]
fn session_info_masks_values() {
    let info = AuthService::new().session_info();
    assert!(!info.logged_in);
    assert!(info.cookies.is_empty());
    let info = logged_in().session_info();
    assert!(info.logged_in);
    assert_eq!(info.captured_at, Some(1000));
    assert_eq!(info.cookies[0].name, "a1");
    assert_eq!(info.cookies[0].value, "****");
    assert_eq!(info.cookies[1].name, "web_session");
    assert_eq!(info.cookies[1].value, "s3cr****ue42");
}

#[test]
fn app_state_shares_one_snapshot() {
    let state = AppState::new(Arc::new(logged_in()));
    assert!(state.auth.try_get_credentials().is_some());
    assert!(state.api.auth().try_get_credentials().is_some());
}

#[test]
fn error_messages() {
    assert_eq!(ApiError::NotLoggedIn.message(), "Not logged in. Please call /api/auth/login-session first.");
    assert_eq!(
        ApiError::SignatureMissing { endpoint: "k".to_string() }.message(),
        "No signature found for endpoint: k. Please login again to capture signatures."
    );
    assert_eq!(
        ApiError::RequestUrlMissing { endpoint: "k".to_string() }.message(),
        "No request_url found for endpoint: k"
    );
    assert_eq!(
        ApiError::StorageUnavailable { reason: "disk".to_string() }.message(),
        "Storage unavailable: disk"
    );
    assert_eq!(ApiError::AgentFailed { reason: "down".to_string() }.message(), "Agent error: down");
    assert_eq!(ApiError::SignFailed { reason: "bad uri".to_string() }.message(), "Sign error: bad uri");
    assert_eq!(ApiError::NoCookies.message(), "No cookies returned");
    assert_eq!(
        ApiError::Collaborator { reason: "Failed to connect to Agent: refused".to_string() }.message(),
        "Failed to connect to Agent: refused"
    );
    assert_eq!(
        ApiError::Http { status: 503, body: "busy".to_string() }.message(),
        "API Error (503): busy"
    );
}

#[test]
fn duplicate_is_independent() {
    let mut auth = logged_in();
    auth.store_signature("k", bundle("s1", "t1", None, None));
    auth.store_signature("j", bundle("s2", "t2", None, None));
    let copy = auth.duplicate();
    auth.store_signature("k", bundle("changed", "t", None, None));
    assert_eq!(copy.get_endpoint_signature("k").unwrap().x_s, "s1");
    assert_eq!(copy.try_get_credentials().unwrap().cookie_string(), "a1=xyz; web_session=s3cr3tvalue42");
    assert_eq!(copy.credential_writes(), 1);
    let mut keys = copy.signature_keys();
    keys.sort();
    assert_eq!(keys, vec!["j".to_string(), "k".to_string()]);
    assert!(AuthService::new().signature_keys().is_empty());
}

#[test]
fn set_cookie_headers() {
    let c = Cookie::from_set_cookie("web_session=abc=d; Path=/; HttpOnly").unwrap();
    assert_eq!(c.name, "web_session");
    assert_eq!(c.value, "abc=d");
    let plain = Cookie::from_set_cookie("a1=xyz").unwrap();
    assert_eq!((plain.name.as_str(), plain.value.as_str()), ("a1", "xyz"));
    assert!(Cookie::from_set_cookie("HttpOnly; a=b").is_none());
    let empty = Cookie::from_set_cookie("k=").unwrap();
    assert_eq!(empty.value, "");
}

#[test]
fn repeated_cookie_names_merge() {
    let c = Credential::new(
        vec![Cookie::new("a", "1"), Cookie::new("b", "2"), Cookie::new("a", "3")],
        7,
        None,
    );
    assert_eq!(c.cookies.len(), 2);
    assert_eq!(c.cookie_string(), "a=3; b=2");
    let mut auth = AuthService::new();
    auth.store_credentials(c);
    assert_eq!(auth.try_get_credentials().unwrap().cookie_string(), "a=3; b=2");
}
