//! The signed request client: checks that a session and a capture exist for
//! an endpoint, then assembles the request with the fixed browser headers,
//! the captured signature and the cookie jar.

use std::sync::Arc;
use vstd::prelude::*;
use vstd::string::StringExecFns;
use crate::auth::{with_credential, AuthService, AuthView};
use crate::credentials::{cookie_header, ApiSignature, CredentialView, SignatureView};
use crate::error::{ApiError, ApiErrorView};
use crate::request::{headers_view, push_header, Header, Method, RequestView, SignedRequest};
use crate::store::lookup;
use crate::text::owned;

verus! {

pub const ORIGIN: &'static str = "https://www.xiaohongshu.com";

pub const REFERER: &'static str = "https://www.xiaohongshu.com/";

pub const USER_AGENT: &'static str = "Mozilla/5.0 (Windows NT 10.0; Win64; x64) AppleWebKit/537.36 (KHTML, like Gecko) Chrome/143.0.0.0 Safari/537.36";

pub const ACCEPT_JSON: &'static str = "application/json, text/plain, */*";

pub const ACCEPT_LANGUAGE: &'static str = "zh-CN,zh;q=0.9";

pub const CONTENT_TYPE_JSON: &'static str = "application/json;charset=UTF-8";

pub const PRIORITY: &'static str = "u=1, i";

pub const SEC_CH_UA: &'static str = "\"Google Chrome\";v=\"143\", \"Chromium\";v=\"143\", \"Not A(Brand\";v=\"24\"";

pub const SEC_CH_UA_PLATFORM: &'static str = "\"Windows\"";

/// Where a POST goes when its capture holds no URL; the endpoint key follows.
pub const DEFAULT_POST_BASE: &'static str = "https://edith.xiaohongshu.com/api/sns/web/v1/";

/// The status with which the platform rejects a signature.
pub const SIGNATURE_REJECTED_STATUS: u16 = 406;

/// The security-context headers that every request carries.
pub open spec fn security_headers() -> Seq<(Seq<char>, Seq<char>)> {
    seq![
        ("sec-ch-ua"@, SEC_CH_UA@),
        ("sec-ch-ua-mobile"@, "?0"@),
        ("sec-ch-ua-platform"@, SEC_CH_UA_PLATFORM@),
        ("sec-fetch-dest"@, "empty"@),
        ("sec-fetch-mode"@, "cors"@),
        ("sec-fetch-site"@, "same-site"@),
        ("user-agent"@, USER_AGENT@),
        ("origin"@, ORIGIN@),
        ("referer"@, REFERER@),
    ]
}

/// The browser fingerprint of a GET.
pub open spec fn get_fingerprint() -> Seq<(Seq<char>, Seq<char>)> {
    seq![
        ("accept"@, ACCEPT_JSON@),
        ("accept-language"@, ACCEPT_LANGUAGE@),
        ("cache-control"@, "no-cache"@),
        ("pragma"@, "no-cache"@),
        ("priority"@, PRIORITY@),
    ] + security_headers()
}

/// The browser fingerprint of a POST.
pub open spec fn post_fingerprint() -> Seq<(Seq<char>, Seq<char>)> {
    seq![
        ("accept"@, ACCEPT_JSON@),
        ("accept-language"@, ACCEPT_LANGUAGE@),
        ("content-type"@, CONTENT_TYPE_JSON@),
        ("priority"@, PRIORITY@),
    ] + security_headers()
}

/// The signature fields and trace ids of a capture, as headers.
pub open spec fn signature_headers(sig: SignatureView) -> Seq<(Seq<char>, Seq<char>)> {
    seq![
        ("x-s"@, sig.x_s),
        ("x-t"@, sig.x_t),
        ("x-s-common"@, sig.x_s_common),
        ("x-b3-traceid"@, sig.x_b3_traceid),
        ("x-xray-traceid"@, sig.x_xray_traceid),
    ]
}

/// Every header of a signed GET.
pub open spec fn get_headers(sig: SignatureView, cookie: Seq<char>) -> Seq<(Seq<char>, Seq<char>)> {
    get_fingerprint() + signature_headers(sig) + seq![("cookie"@, cookie)]
}

/// Every header of a signed POST.
pub open spec fn post_headers(sig: SignatureView, cookie: Seq<char>) -> Seq<(Seq<char>, Seq<char>)> {
    post_fingerprint() + signature_headers(sig) + seq![("xy-direction"@, "98"@), ("cookie"@, cookie)]
}

/// The session and the capture that a call to `key` needs, or the first of
/// them that is missing.
pub open spec fn authorize(a: AuthView, key: Seq<char>) -> Result<(CredentialView, SignatureView), ApiErrorView> {
    match a.credential {
        None => Err(ApiErrorView::NotLoggedIn),
        Some(c) => match lookup(a.signatures, key) {
            None => Err(ApiErrorView::SignatureMissing { endpoint: key }),
            Some(s) => Ok((c, s)),
        },
    }
}

pub open spec fn get_request(url: Seq<char>, c: CredentialView, s: SignatureView) -> RequestView {
    RequestView {
        method: Method::Get,
        url,
        headers: get_headers(s, cookie_header(c.cookies)),
        body: None,
    }
}

pub open spec fn post_request(url: Seq<char>, body: Seq<char>, c: CredentialView, s: SignatureView) -> RequestView {
    RequestView {
        method: Method::Post,
        url,
        headers: post_headers(s, cookie_header(c.cookies)),
        body: Some(body),
    }
}

/// A GET of the URL captured for `key`.
pub open spec fn signed_get(a: AuthView, key: Seq<char>) -> Result<RequestView, ApiErrorView> {
    match authorize(a, key) {
        Err(e) => Err(e),
        Ok((c, s)) => match s.request_url {
            None => Err(ApiErrorView::RequestUrlMissing { endpoint: key }),
            Some(url) => Ok(get_request(url, c, s)),
        },
    }
}

/// A GET of `url` with the capture for `key`.
pub open spec fn signed_get_with_url(a: AuthView, key: Seq<char>, url: Seq<char>) -> Result<RequestView, ApiErrorView> {
    match authorize(a, key) {
        Err(e) => Err(e),
        Ok((c, s)) => Ok(get_request(url, c, s)),
    }
}

/// A POST of the URL and body captured for `key`; without a captured URL it
/// goes to the default base followed by the key, without a captured body it
/// is empty.
pub open spec fn signed_post(a: AuthView, key: Seq<char>) -> Result<RequestView, ApiErrorView> {
    match authorize(a, key) {
        Err(e) => Err(e),
        Ok((c, s)) => {
            let url = match s.request_url {
                Some(u) => u,
                None => DEFAULT_POST_BASE@ + key,
            };
            let body = match s.post_body {
                Some(b) => b,
                None => Seq::empty(),
            };
            Ok(post_request(url, body, c, s))
        },
    }
}

/// A POST of `body` to `url` with the capture for `key`.
pub open spec fn signed_post_with_body(a: AuthView, key: Seq<char>, url: Seq<char>, body: Seq<char>) -> Result<RequestView, ApiErrorView> {
    match authorize(a, key) {
        Err(e) => Err(e),
        Ok((c, s)) => Ok(post_request(url, body, c, s)),
    }
}

/// A call for a key with no capture fails with `SignatureMissing` naming the
/// key, and so hands nothing to the network, whatever the method.
pub proof fn lemma_missing_capture_fails_fast(a: AuthView, key: Seq<char>, url: Seq<char>, body: Seq<char>)
    requires
        a.credential is Some,
        !a.signatures.contains_key(key),
    ensures
        signed_get(a, key) == Err::<RequestView, ApiErrorView>(ApiErrorView::SignatureMissing { endpoint: key }),
        signed_get_with_url(a, key, url) == Err::<RequestView, ApiErrorView>(ApiErrorView::SignatureMissing { endpoint: key }),
        signed_post(a, key) == Err::<RequestView, ApiErrorView>(ApiErrorView::SignatureMissing { endpoint: key }),
        signed_post_with_body(a, key, url, body) == Err::<RequestView, ApiErrorView>(ApiErrorView::SignatureMissing { endpoint: key }),
{
}

/// A call without an active credential fails with `NotLoggedIn`, and so
/// hands nothing to the network, whatever the method and the key.
pub proof fn lemma_logged_out_fails_fast(a: AuthView, key: Seq<char>, url: Seq<char>, body: Seq<char>)
    requires
        a.credential is None,
    ensures
        signed_get(a, key) == Err::<RequestView, ApiErrorView>(ApiErrorView::NotLoggedIn),
        signed_get_with_url(a, key, url) == Err::<RequestView, ApiErrorView>(ApiErrorView::NotLoggedIn),
        signed_post(a, key) == Err::<RequestView, ApiErrorView>(ApiErrorView::NotLoggedIn),
        signed_post_with_body(a, key, url, body) == Err::<RequestView, ApiErrorView>(ApiErrorView::NotLoggedIn),
{
}

/// A call reads one snapshot: before a credential is replaced it carries the
/// old cookie jar, after it the new one, and in both cases the capture of
/// that same snapshot; never old cookies with a new capture or the reverse.
pub proof fn lemma_call_reads_one_snapshot(a: AuthView, c: CredentialView, key: Seq<char>, url: Seq<char>, body: Seq<char>)
    requires
        a.credential is Some,
        a.signatures.contains_key(key),
    ensures
        signed_get_with_url(a, key, url) == Ok::<RequestView, ApiErrorView>(get_request(url, a.credential.unwrap(), a.signatures[key])),
        signed_get_with_url(with_credential(a, c), key, url) == Ok::<RequestView, ApiErrorView>(get_request(url, c, a.signatures[key])),
        signed_post_with_body(a, key, url, body) == Ok::<RequestView, ApiErrorView>(post_request(url, body, a.credential.unwrap(), a.signatures[key])),
        signed_post_with_body(with_credential(a, c), key, url, body) == Ok::<RequestView, ApiErrorView>(post_request(url, body, c, a.signatures[key])),
{
}

pub open spec fn request_result_view(r: Result<SignedRequest, ApiError>) -> Result<RequestView, ApiErrorView> {
    match r {
        Ok(req) => Ok(req@),
        Err(e) => Err(e@),
    }
}

fn push_security_headers(h: &mut Vec<Header>)
    ensures
        headers_view(final(h)@) == headers_view(old(h)@) + security_headers(),
{
    push_header(h, "sec-ch-ua", SEC_CH_UA);
    push_header(h, "sec-ch-ua-mobile", "?0");
    push_header(h, "sec-ch-ua-platform", SEC_CH_UA_PLATFORM);
    push_header(h, "sec-fetch-dest", "empty");
    push_header(h, "sec-fetch-mode", "cors");
    push_header(h, "sec-fetch-site", "same-site");
    push_header(h, "user-agent", USER_AGENT);
    push_header(h, "origin", ORIGIN);
    push_header(h, "referer", REFERER);
    assert(headers_view(h@) =~= headers_view(old(h)@) + security_headers());
}

fn push_signature_headers(h: &mut Vec<Header>, sig: &ApiSignature)
    ensures
        headers_view(final(h)@) == headers_view(old(h)@) + signature_headers(sig@),
{
    push_header(h, "x-s", sig.x_s.as_str());
    push_header(h, "x-t", sig.x_t.as_str());
    push_header(h, "x-s-common", sig.x_s_common.as_str());
    push_header(h, "x-b3-traceid", sig.x_b3_traceid.as_str());
    push_header(h, "x-xray-traceid", sig.x_xray_traceid.as_str());
    assert(headers_view(h@) =~= headers_view(old(h)@) + signature_headers(sig@));
}

/// The headers of a signed GET.
pub fn build_get_headers(sig: &ApiSignature, cookie: &str) -> (r: Vec<Header>)
    ensures
        headers_view(r@) == get_headers(sig@, cookie@),
{
    let mut h: Vec<Header> = Vec::new();
    push_header(&mut h, "accept", ACCEPT_JSON);
    push_header(&mut h, "accept-language", ACCEPT_LANGUAGE);
    push_header(&mut h, "cache-control", "no-cache");
    push_header(&mut h, "pragma", "no-cache");
    push_header(&mut h, "priority", PRIORITY);
    let ghost first = headers_view(h@);
    push_security_headers(&mut h);
    push_signature_headers(&mut h, sig);
    push_header(&mut h, "cookie", cookie);
    assert(first =~= seq![
        ("accept"@, ACCEPT_JSON@),
        ("accept-language"@, ACCEPT_LANGUAGE@),
        ("cache-control"@, "no-cache"@),
        ("pragma"@, "no-cache"@),
        ("priority"@, PRIORITY@),
    ]);
    assert(headers_view(h@) =~= get_headers(sig@, cookie@));
    h
}

/// The headers of a signed POST.
pub fn build_post_headers(sig: &ApiSignature, cookie: &str) -> (r: Vec<Header>)
    ensures
        headers_view(r@) == post_headers(sig@, cookie@),
{
    let mut h: Vec<Header> = Vec::new();
    push_header(&mut h, "accept", ACCEPT_JSON);
    push_header(&mut h, "accept-language", ACCEPT_LANGUAGE);
    push_header(&mut h, "content-type", CONTENT_TYPE_JSON);
    push_header(&mut h, "priority", PRIORITY);
    let ghost first = headers_view(h@);
    push_security_headers(&mut h);
    push_signature_headers(&mut h, sig);
    push_header(&mut h, "xy-direction", "98");
    push_header(&mut h, "cookie", cookie);
    assert(first =~= seq![
        ("accept"@, ACCEPT_JSON@),
        ("accept-language"@, ACCEPT_LANGUAGE@),
        ("content-type"@, CONTENT_TYPE_JSON@),
        ("priority"@, PRIORITY@),
    ]);
    assert(headers_view(h@) =~= post_headers(sig@, cookie@));
    h
}

/// The state shared by every request handler: the client and the auth
/// service snapshot that it reads.
pub struct AppState {
    pub api: XhsApiClient,
    pub auth: Arc<AuthService>,
}

impl AppState {
    /// State over one snapshot of the auth service.
    pub fn new(auth: Arc<AuthService>) -> (r: AppState)
        requires
            auth.wf(),
        ensures
            r.api.wf(),
            r.api.auth_view() == auth@,
            r.auth@ == auth@,
            r.auth.wf(),
    {
        let api = XhsApiClient::new(auth.clone());
        AppState { api, auth }
    }
}

/// What came back for a signed call. A signature rejection is flagged, not
/// retried: the caller must supply a fresh capture.
pub struct RawResponse {
    pub status: u16,
    pub body: String,
    pub signature_rejected: bool,
}

/// The client through which every signed call is assembled. It reads one
/// snapshot of the auth service, so a call never mixes the cookies of one
/// session with the signature expectations of another.
pub struct XhsApiClient {
    auth: Arc<AuthService>,
}

impl XhsApiClient {
    pub closed spec fn wf(&self) -> bool {
        self.auth.wf()
    }

    /// What the client's auth service holds.
    pub closed spec fn auth_view(&self) -> AuthView {
        self.auth@
    }

    pub fn new(auth: Arc<AuthService>) -> (r: XhsApiClient)
        requires
            auth.wf(),
        ensures
            r.wf(),
            r.auth_view() == auth@,
    {
        XhsApiClient { auth }
    }

    /// The auth service that the client reads.
    pub fn auth(&self) -> (r: &Arc<AuthService>)
        ensures
            r@ == self.auth_view(),
            self.wf() ==> r.wf(),
    {
        &self.auth
    }

    /// The credential and the capture for `key`, or the first that is missing.
    fn authorize(&self, endpoint_key: &str) -> (r: Result<(crate::credentials::Credential, ApiSignature), ApiError>)
        requires
            self.wf(),
        ensures
            match r {
                Ok((c, s)) => authorize(self.auth_view(), endpoint_key@) == Ok::<(CredentialView, SignatureView), ApiErrorView>((c@, s@)),
                Err(e) => authorize(self.auth_view(), endpoint_key@) == Err::<(CredentialView, SignatureView), ApiErrorView>(e@),
            },
    {
        let credentials = match self.auth.try_get_credentials() {
            Some(c) => c,
            None => return Err(ApiError::NotLoggedIn),
        };
        let signature = self.get_signature(endpoint_key)?;
        Ok((credentials, signature))
    }

    /// The capture for `key`, or `SignatureMissing` naming the key.
    fn get_signature(&self, endpoint_key: &str) -> (r: Result<ApiSignature, ApiError>)
        requires
            self.wf(),
        ensures
            match r {
                Ok(s) => lookup(self.auth_view().signatures, endpoint_key@) == Some(s@),
                Err(e) => lookup(self.auth_view().signatures, endpoint_key@) is None
                    && e@ == ApiErrorView::SignatureMissing { endpoint: endpoint_key@ },
            },
    {
        match self.auth.get_endpoint_signature(endpoint_key) {
            Some(s) => Ok(s),
            None => Err(ApiError::SignatureMissing { endpoint: owned(endpoint_key) }),
        }
    }

    /// A GET of the URL captured for `endpoint_key`. Fails before any network
    /// work when nobody is logged in, when nothing was captured for the key,
    /// or when the capture holds no URL.
    pub fn get(&self, endpoint_key: &str) -> (r: Result<SignedRequest, ApiError>)
        requires
            self.wf(),
        ensures
            request_result_view(r) == signed_get(self.auth_view(), endpoint_key@),
    {
        let (credentials, signature) = self.authorize(endpoint_key)?;
        let url = match &signature.request_url {
            Some(u) => u.clone(),
            None => return Err(ApiError::RequestUrlMissing { endpoint: owned(endpoint_key) }),
        };
        let cookie = credentials.cookie_string();
        let headers = build_get_headers(&signature, cookie.as_str());
        Ok(SignedRequest { method: Method::Get, url, headers, body: None })
    }

    /// A GET of `url` signed with the capture for `endpoint_key`.
    pub fn get_with_url(&self, endpoint_key: &str, url: &str) -> (r: Result<SignedRequest, ApiError>)
        requires
            self.wf(),
        ensures
            request_result_view(r) == signed_get_with_url(self.auth_view(), endpoint_key@, url@),
    {
        let (credentials, signature) = self.authorize(endpoint_key)?;
        let cookie = credentials.cookie_string();
        let headers = build_get_headers(&signature, cookie.as_str());
        Ok(SignedRequest { method: Method::Get, url: owned(url), headers, body: None })
    }

    /// A POST of the URL and body captured for `endpoint_key`.
    pub fn post(&self, endpoint_key: &str) -> (r: Result<SignedRequest, ApiError>)
        requires
            self.wf(),
        ensures
            request_result_view(r) == signed_post(self.auth_view(), endpoint_key@),
    {
        let (credentials, signature) = self.authorize(endpoint_key)?;
        let url = match &signature.request_url {
            Some(u) => u.clone(),
            None => {
                let mut u = owned(DEFAULT_POST_BASE);
                u.append(endpoint_key);
                u
            },
        };
        let body = match &signature.post_body {
            Some(b) => b.clone(),
            None => String::new(),
        };
        let cookie = credentials.cookie_string();
        let headers = build_post_headers(&signature, cookie.as_str());
        Ok(SignedRequest { method: Method::Post, url, headers, body: Some(body) })
    }

    /// A POST of `body` to `url` signed with the capture for `endpoint_key`.
    pub fn post_with_body(&self, endpoint_key: &str, url: &str, body: String) -> (r: Result<SignedRequest, ApiError>)
        requires
            self.wf(),
        ensures
            request_result_view(r) == signed_post_with_body(self.auth_view(), endpoint_key@, url@, body@),
    {
        let (credentials, signature) = self.authorize(endpoint_key)?;
        let cookie = credentials.cookie_string();
        let headers = build_post_headers(&signature, cookie.as_str());
        Ok(SignedRequest { method: Method::Post, url: owned(url), headers, body: Some(body) })
    }

    /// Classifies what came back: the body is handed on as it is, and a
    /// signature rejection is flagged.
    pub fn handle_response(&self, status: u16, body: String) -> (r: RawResponse)
        ensures
            r.status == status,
            r.body@ == body@,
            r.signature_rejected == (status == SIGNATURE_REJECTED_STATUS),
    {
        RawResponse { status, body, signature_rejected: status == SIGNATURE_REJECTED_STATUS }
    }
}

} // verus!
