//! The creator-center login: its headers, the query of a status poll, and
//! the reading of the signing collaborator's and the platform's replies.

use vstd::prelude::*;
use vstd::string::StringExecFns;
use crate::credentials::{cookie_header, cookies_to_string, jar_view, opt_view, Cookie};
use crate::error::{error_message, ApiError, ApiErrorView, AGENT_ERROR_MSG, NO_COOKIES_MSG, SIGN_ERROR_MSG};
use crate::login::QrCode;
use crate::request::{headers_view, push_header, Header};
use crate::text::{owned, pct_encode, url_encode, url_encoded};
use vstd::utf8::encode_utf8;

verus! {

pub const CREATOR_ORIGIN: &'static str = "https://creator.xiaohongshu.com";

pub const CREATOR_REFERER: &'static str = "https://creator.xiaohongshu.com/";

pub const CREATOR_USER_AGENT: &'static str = "Mozilla/5.0 (Windows NT 10.0; Win64; x64) AppleWebKit/537.36 (KHTML, like Gecko) Chrome/143.0.0.0 Safari/537.36";

pub const CREATOR_ACCEPT: &'static str = "application/json, text/plain, */*";

pub const CREATOR_CONTENT_TYPE: &'static str = "application/json;charset=UTF-8";

/// The application context of the creator center.
pub const CREATOR_APP_ID: &'static str = "ugc";

/// The service that a creator QR code logs into.
pub const CREATOR_SERVICE: &'static str = "https://creator.xiaohongshu.com";

/// The path of the QR-code endpoint, as it is signed.
pub const QRCODE_PATH: &'static str = "/api/cas/customer/web/qr-code";

/// The full URL of the QR-code endpoint.
pub const QRCODE_URL: &'static str = "https://customer.xiaohongshu.com/api/cas/customer/web/qr-code";

/// The JSON body that asks for a creator QR code.
pub const QRCODE_CREATE_PAYLOAD: &'static str = "{\"service\":\"https://creator.xiaohongshu.com\"}";

pub const QRCODE_FAILED_MSG: &'static str = "QR code creation failed";

/// Guest cookies for the creator center, asked of the signing collaborator.
pub struct CreatorQrcodeCreateRequest {
    pub cookies: Vec<Cookie>,
}

/// A poll of a creator QR code's status.
pub struct CreatorQrcodeStatusRequest {
    pub qr_id: String,
    pub cookies: Vec<Cookie>,
}

/// The signature triple that the signing collaborator computes.
pub struct SignatureTriple {
    pub x_s: String,
    pub x_t: String,
    pub x_s_common: String,
}

/// The signing collaborator's reply to a guest-cookie request.
pub struct GuestCookiesReply {
    pub success: bool,
    pub cookies: Option<Vec<Cookie>>,
    pub error: Option<String>,
}

/// The signing collaborator's reply to a signing request.
pub struct SignReply {
    pub success: bool,
    pub x_s: Option<String>,
    pub x_t: Option<String>,
    pub x_s_common: Option<String>,
    pub error: Option<String>,
}

/// The platform's reply to a request for a QR code.
pub struct QrCreateReply {
    pub success: bool,
    pub code: i32,
    pub msg: Option<String>,
    pub data: Option<QrCode>,
}

/// The text of an optional string, empty where there is none.
pub open spec fn or_empty(o: Option<Seq<char>>) -> Seq<char> {
    match o {
        Some(s) => s,
        None => Seq::empty(),
    }
}

fn take_or_empty(o: Option<String>) -> (r: String)
    ensures
        r@ == or_empty(opt_view(o)),
{
    match o {
        Some(s) => s,
        None => String::new(),
    }
}

impl GuestCookiesReply {
    /// The guest cookies, or the collaborator's error: `AgentFailed` with
    /// its own message when it reports a failure, `NoCookies` when it
    /// reports success without cookies.
    pub fn into_cookies(self) -> (r: Result<Vec<Cookie>, ApiError>)
        ensures
            !self.success ==> (r matches Err(e) && e@ == ApiErrorView::AgentFailed { reason: or_empty(opt_view(self.error)) }
                && error_message(e@) == AGENT_ERROR_MSG@ + or_empty(opt_view(self.error))),
            self.success && self.cookies is None ==> (r matches Err(e) && e@ == ApiErrorView::NoCookies
                && error_message(e@) == NO_COOKIES_MSG@),
            self.success && self.cookies is Some ==> (r matches Ok(c) && c@ == self.cookies.unwrap()@),
    {
        if !self.success {
            return Err(ApiError::AgentFailed { reason: take_or_empty(self.error) });
        }
        match self.cookies {
            Some(c) => Ok(c),
            None => Err(ApiError::NoCookies),
        }
    }
}

impl SignReply {
    /// The signature triple, each missing field empty, or `SignFailed`
    /// with the collaborator's message when it reports a failure.
    pub fn into_triple(self) -> (r: Result<SignatureTriple, ApiError>)
        ensures
            !self.success ==> (r matches Err(e) && e@ == ApiErrorView::SignFailed { reason: or_empty(opt_view(self.error)) }
                && error_message(e@) == SIGN_ERROR_MSG@ + or_empty(opt_view(self.error))),
            self.success ==> (r matches Ok(t) && t.x_s@ == or_empty(opt_view(self.x_s)) && t.x_t@ == or_empty(
                opt_view(self.x_t),
            ) && t.x_s_common@ == or_empty(opt_view(self.x_s_common))),
    {
        if !self.success {
            return Err(ApiError::SignFailed { reason: take_or_empty(self.error) });
        }
        Ok(SignatureTriple {
            x_s: take_or_empty(self.x_s),
            x_t: take_or_empty(self.x_t),
            x_s_common: take_or_empty(self.x_s_common),
        })
    }
}

impl QrCreateReply {
    /// The created code, or the platform's message (`QRCODE_FAILED_MSG`
    /// where it gave none) when it reports a failure or no code.
    pub fn into_qr_code(self) -> (r: Result<QrCode, ApiError>)
        ensures
            self.success && self.data is Some ==> (r matches Ok(q) && q.qr_id@ == self.data.unwrap().qr_id@
                && q.url@ == self.data.unwrap().url@),
            !(self.success && self.data is Some) ==> (r matches Err(e) && e@ == ApiErrorView::Collaborator {
                reason: match self.msg {
                    Some(m) => m@,
                    None => QRCODE_FAILED_MSG@,
                },
            }),
    {
        if self.success {
            if let Some(q) = self.data {
                return Ok(q);
            }
        }
        match self.msg {
            Some(m) => Err(ApiError::Collaborator { reason: m }),
            None => Err(ApiError::Collaborator { reason: owned(QRCODE_FAILED_MSG) }),
        }
    }
}

/// The body of a reply, or an `Http` error for a status of 400 or more.
pub fn check_http_status(status: u16, body: String) -> (r: Result<String, ApiError>)
    ensures
        status < 400 ==> (r matches Ok(b) && b@ == body@),
        status >= 400 ==> (r matches Err(e) && e@ == ApiErrorView::Http { status, body: body@ }),
{
    if status >= 400 {
        Err(ApiError::Http { status, body })
    } else {
        Ok(body)
    }
}

/// The headers of every creator-center request.
pub open spec fn creator_headers() -> Seq<(Seq<char>, Seq<char>)> {
    seq![
        ("accept"@, CREATOR_ACCEPT@),
        ("origin"@, CREATOR_ORIGIN@),
        ("referer"@, CREATOR_REFERER@),
        ("user-agent"@, CREATOR_USER_AGENT@),
        ("xsecappid"@, CREATOR_APP_ID@),
    ]
}

/// The headers of a signed creator-center request; a JSON body adds its
/// content type.
pub open spec fn signed_creator_headers(
    x_s: Seq<char>,
    x_t: Seq<char>,
    x_s_common: Seq<char>,
    cookie: Seq<char>,
    json_body: bool,
) -> Seq<(Seq<char>, Seq<char>)> {
    creator_headers() + (if json_body {
        seq![("content-type"@, CREATOR_CONTENT_TYPE@)]
    } else {
        Seq::empty()
    }) + seq![("x-s"@, x_s), ("x-t"@, x_t), ("x-s-common"@, x_s_common), ("cookie"@, cookie)]
}

/// The headers of every creator-center request.
pub fn build_creator_headers() -> (r: Vec<Header>)
    ensures
        headers_view(r@) == creator_headers(),
{
    let mut h: Vec<Header> = Vec::new();
    push_header(&mut h, "accept", CREATOR_ACCEPT);
    push_header(&mut h, "origin", CREATOR_ORIGIN);
    push_header(&mut h, "referer", CREATOR_REFERER);
    push_header(&mut h, "user-agent", CREATOR_USER_AGENT);
    push_header(&mut h, "xsecappid", CREATOR_APP_ID);
    assert(headers_view(h@) =~= creator_headers());
    h
}

/// The headers of a creator-center request signed with `triple` and sent
/// with the guest `cookies`.
pub fn build_signed_creator_headers(triple: &SignatureTriple, cookies: &Vec<Cookie>, json_body: bool) -> (r: Vec<Header>)
    ensures
        headers_view(r@) == signed_creator_headers(
            triple.x_s@,
            triple.x_t@,
            triple.x_s_common@,
            cookie_header(jar_view(cookies@)),
            json_body,
        ),
{
    let mut h = build_creator_headers();
    if json_body {
        push_header(&mut h, "content-type", CREATOR_CONTENT_TYPE);
    }
    push_header(&mut h, "x-s", triple.x_s.as_str());
    push_header(&mut h, "x-t", triple.x_t.as_str());
    push_header(&mut h, "x-s-common", triple.x_s_common.as_str());
    let cookie = cookies_to_string(cookies);
    push_header(&mut h, "cookie", cookie.as_str());
    assert(headers_view(h@) =~= signed_creator_headers(
        triple.x_s@,
        triple.x_t@,
        triple.x_s_common@,
        cookie_header(jar_view(cookies@)),
        json_body,
    ));
    h
}

/// The creator service, percent-encoded.
pub const ENCODED_CREATOR_SERVICE: &'static str = "https%3A%2F%2Fcreator.xiaohongshu.com";

proof fn lemma_ascii_byte(x: u32)
    by (bit_vector)
    requires
        x < 128,
    ensures
        (x & 0x7F) as u8 == x as u8,
{
}

/// The UTF-8 form of an ASCII text is its character codes.
proof fn lemma_encode_ascii(s: Seq<char>)
    requires
        forall|i: int| 0 <= i < s.len() ==> (#[trigger] s[i] as u32) < 128,
    ensures
        encode_utf8(s) == s.map_values(|c: char| c as u32 as u8),
    decreases s.len(),
{
    if s.len() > 0 {
        lemma_encode_ascii(s.drop_first());
        lemma_ascii_byte(s[0] as u32);
        assert(encode_utf8(s) =~= s.map_values(|c: char| c as u32 as u8));
    }
}

/// The encoding of the creator service that every poll query carries.
pub proof fn lemma_creator_service_encoding()
    ensures
        url_encoded(CREATOR_SERVICE@) == ENCODED_CREATOR_SERVICE@,
{
    reveal_strlit("https://creator.xiaohongshu.com");
    reveal_strlit("https%3A%2F%2Fcreator.xiaohongshu.com");
    let s = CREATOR_SERVICE@;
    lemma_encode_ascii(s);
    let b = s.map_values(|c: char| c as u32 as u8);
    assert(b =~= seq![104u8, 116, 116, 112, 115, 58, 47, 47, 99, 114, 101, 97, 116, 111, 114, 46, 120, 105, 97, 111, 104, 111, 110, 103, 115, 104, 117, 46, 99, 111, 109]);
    reveal_with_fuel(pct_encode, 32);
    assert(pct_encode(b) =~= ENCODED_CREATOR_SERVICE@);
}

/// The query of a status poll for the code `qr_id`.
pub open spec fn qr_status_query(qr_id: Seq<char>) -> Seq<char> {
    "service="@ + url_encoded(CREATOR_SERVICE@) + "&qr_code_id="@ + qr_id + "&source="@
}

/// The query of a status poll for the code `qr_id`.
pub fn creator_qr_status_query(qr_id: &str) -> (r: String)
    ensures
        r@ == qr_status_query(qr_id@),
        r@ == "service="@ + ENCODED_CREATOR_SERVICE@ + "&qr_code_id="@ + qr_id@ + "&source="@,
{
    proof {
        lemma_creator_service_encoding();
    }
    let mut q = owned("service=");
    let service = url_encode(CREATOR_SERVICE);
    q.append(service.as_str());
    q.append("&qr_code_id=");
    q.append(qr_id);
    q.append("&source=");
    q
}

/// The path and query of a status poll, as it is signed.
pub fn creator_qr_status_uri(qr_id: &str) -> (r: String)
    ensures
        r@ == QRCODE_PATH@ + "?"@ + qr_status_query(qr_id@),
{
    let mut u = owned(QRCODE_PATH);
    u.append("?");
    let q = creator_qr_status_query(qr_id);
    u.append(q.as_str());
    u
}

/// The full URL of a status poll.
pub fn creator_qr_status_url(qr_id: &str) -> (r: String)
    ensures
        r@ == QRCODE_URL@ + "?"@ + qr_status_query(qr_id@),
{
    let mut u = owned(QRCODE_URL);
    u.append("?");
    let q = creator_qr_status_query(qr_id);
    u.append(q.as_str());
    u
}

} // verus!
