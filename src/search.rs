//! Search: the URLs of the keyword endpoints, and the random ids that a
//! search request carries.

use rand::distributions::Alphanumeric;
use rand::Rng;
use std::time::{SystemTime, UNIX_EPOCH};
use vstd::prelude::*;
use vstd::string::StringExecFns;
use crate::text::{ascii_lowered, decimal, is_ascii_alnum, is_lower_alnum, lowercase_ascii, owned, push_char, push_decimal, url_encode, url_encoded};

verus! {

pub const SEARCH_RECOMMEND_KEY: &'static str = "search_recommend";

pub const SEARCH_FILTER_KEY: &'static str = "search_filter";

pub const SEARCH_RECOMMEND_BASE: &'static str = "https://edith.xiaohongshu.com/api/sns/web/v1/search/recommend?keyword=";

pub const SEARCH_FILTER_BASE: &'static str = "https://edith.xiaohongshu.com/api/sns/web/v1/search/filter?keyword=";

pub const SEARCH_NOTES_KEY: &'static str = "search_notes";

pub const SEARCH_ONEBOX_KEY: &'static str = "search_onebox";

pub const SEARCH_USER_KEY: &'static str = "search_user";

pub const SEARCH_NOTES_URL: &'static str = "https://edith.xiaohongshu.com/api/sns/web/v1/search/notes";

pub const SEARCH_ONEBOX_URL: &'static str = "https://edith.xiaohongshu.com/api/sns/web/v1/search/onebox";

pub const SEARCH_USER_URL: &'static str = "https://edith.xiaohongshu.com/api/sns/web/v1/search/usersearch";

/// The length of a search id.
pub const SEARCH_ID_LEN: usize = 22;

/// The smallest random prefix of a request id.
pub const REQUEST_PREFIX_LOW: u64 = 1_000_000_000;

/// One past the largest random prefix of a request id.
pub const REQUEST_PREFIX_HIGH: u64 = 10_000_000_000;

/// Relies on rand's `Alphanumeric` distribution, sampled from the thread
/// generator: each character is an ASCII letter or digit.
#[verifier::external_body]
fn random_alphanumeric(n: usize) -> (r: Vec<char>)
    ensures
        r@.len() == n,
        forall|i: int| 0 <= i < n ==> is_ascii_alnum(#[trigger] r@[i]),
{
    rand::thread_rng().sample_iter(&Alphanumeric).take(n).map(char::from).collect()
}

/// Relies on rand's `Rng::gen_range` on the thread generator: a value in
/// `low..high`, which must not be empty.
#[verifier::external_body]
fn random_in_range(low: u64, high: u64) -> (r: u64)
    requires
        low < high,
    ensures
        low <= r < high,
{
    rand::thread_rng().gen_range(low..high)
}

/// Relies on `SystemTime::now` and `duration_since`: the milliseconds since
/// the epoch, or `None` when the clock stands before it.
#[verifier::external_body]
fn unix_millis() -> (r: Option<u128>) {
    SystemTime::now().duration_since(UNIX_EPOCH).ok().map(|d| d.as_millis())
}

/// Lower-casing keeps an ASCII letter or digit one, lower-case.
proof fn lemma_lowered_alnum(d: Seq<char>)
    requires
        forall|i: int| 0 <= i < d.len() ==> is_ascii_alnum(#[trigger] d[i]),
    ensures
        forall|i: int| 0 <= i < d.len() ==> is_lower_alnum(#[trigger] ascii_lowered(d)[i]),
{
    assert forall|i: int| 0 <= i < d.len() implies is_lower_alnum(#[trigger] ascii_lowered(d)[i]) by {
        assert(is_ascii_alnum(d[i]));
    }
}

/// A fresh search id: 22 random ASCII letters and digits, lower-cased.
pub fn generate_search_id() -> (r: String)
    ensures
        exists|d: Seq<char>|
            d.len() == SEARCH_ID_LEN && (forall|i: int| 0 <= i < d.len() ==> is_ascii_alnum(#[trigger] d[i]))
                && r@ == #[trigger] ascii_lowered(d),
        r@.len() == SEARCH_ID_LEN,
        forall|i: int| 0 <= i < r@.len() ==> is_lower_alnum(#[trigger] r@[i]),
{
    let chars = random_alphanumeric(SEARCH_ID_LEN);
    let s = lowercase_ascii(&chars);
    proof {
        lemma_lowered_alnum(chars@);
    }
    s
}

/// A request id: the prefix and the time, in decimal, joined by `-`.
pub open spec fn request_id_of(prefix: nat, millis: nat) -> Seq<char> {
    decimal(prefix) + seq!['-'] + decimal(millis)
}

/// The request id of a prefix and a time in milliseconds.
pub fn format_request_id(prefix: u64, millis: u128) -> (r: String)
    ensures
        r@ == request_id_of(prefix as nat, millis as nat),
{
    let mut s = String::new();
    push_decimal(&mut s, prefix as u128);
    push_char(&mut s, '-');
    push_decimal(&mut s, millis);
    assert(s@ =~= request_id_of(prefix as nat, millis as nat));
    s
}

/// A fresh request id: a random ten-digit prefix and the time now in
/// milliseconds (zero where the clock stands before the epoch).
pub fn generate_request_id() -> (r: String)
    ensures
        exists|p: nat, t: nat|
            REQUEST_PREFIX_LOW <= p < REQUEST_PREFIX_HIGH && r@ == #[trigger] request_id_of(p, t),
{
    let prefix = random_in_range(REQUEST_PREFIX_LOW, REQUEST_PREFIX_HIGH);
    let millis = match unix_millis() {
        Some(m) => m,
        None => 0,
    };
    format_request_id(prefix, millis)
}

/// The search id a request carries: its own, or a fresh one.
pub fn search_id_or_new(id: Option<String>) -> (r: String)
    ensures
        id is Some ==> r@ == id.unwrap()@,
        id is None ==> r@.len() == SEARCH_ID_LEN && forall|i: int| 0 <= i < r@.len() ==> is_lower_alnum(#[trigger] r@[i]),
{
    match id {
        Some(s) => s,
        None => generate_search_id(),
    }
}

/// The request id a request carries: its own, or a fresh one.
pub fn request_id_or_new(id: Option<String>) -> (r: String)
    ensures
        id is Some ==> r@ == id.unwrap()@,
        id is None ==> exists|p: nat, t: nat|
            REQUEST_PREFIX_LOW <= p < REQUEST_PREFIX_HIGH && r@ == #[trigger] request_id_of(p, t),
{
    match id {
        Some(s) => s,
        None => generate_request_id(),
    }
}

/// The URL of the suggestions for `keyword`.
pub fn search_recommend_url(keyword: &str) -> (r: String)
    ensures
        r@ == SEARCH_RECOMMEND_BASE@ + url_encoded(keyword@),
{
    let mut u = owned(SEARCH_RECOMMEND_BASE);
    let k = url_encode(keyword);
    u.append(k.as_str());
    u
}

/// The URL of the filters of a search for `keyword`.
pub fn search_filter_url(keyword: &str, search_id: &str) -> (r: String)
    ensures
        r@ == SEARCH_FILTER_BASE@ + url_encoded(keyword@) + "&search_id="@ + url_encoded(search_id@),
{
    let mut u = owned(SEARCH_FILTER_BASE);
    let k = url_encode(keyword);
    u.append(k.as_str());
    u.append("&search_id=");
    let s = url_encode(search_id);
    u.append(s.as_str());
    u
}

} // verus!
