//! The notification pages: likes and collections, comments and mentions.

use vstd::prelude::*;
use vstd::string::StringExecFns;
use crate::credentials::opt_view;
use crate::text::{owned, push_signed_decimal, signed_decimal};

verus! {

pub const LIKES_KEY: &'static str = "notification_likes";

pub const MENTIONS_KEY: &'static str = "notification_mentions";

pub const LIKES_BASE: &'static str = "https://edith.xiaohongshu.com/api/sns/web/v1/you/likes?num=";

pub const MENTIONS_BASE: &'static str = "https://edith.xiaohongshu.com/api/sns/web/v1/you/mentions?num=";

/// The page size asked for when the caller names none.
pub const DEFAULT_NUM: i32 = 20;

/// The page size asked for when the caller names none.
pub fn default_num() -> (r: i32)
    ensures
        r == DEFAULT_NUM,
{
    DEFAULT_NUM
}

/// A page of likes-and-collections notifications.
pub struct LikesParams {
    pub num: i32,
    /// None for the first page, then the cursor of the page before.
    pub cursor: Option<String>,
}

/// A page of comments-and-mentions notifications.
pub struct MentionsParams {
    pub num: i32,
    pub cursor: Option<String>,
}

impl Default for LikesParams {
    fn default() -> (r: Self)
        ensures
            r.num == DEFAULT_NUM,
            r.cursor is None,
    {
        LikesParams { num: DEFAULT_NUM, cursor: None }
    }
}

impl Default for MentionsParams {
    fn default() -> (r: Self)
        ensures
            r.num == DEFAULT_NUM,
            r.cursor is None,
    {
        MentionsParams { num: DEFAULT_NUM, cursor: None }
    }
}

/// A page URL: the base, the page size, and the cursor (empty when absent).
pub open spec fn page_url_of(base: Seq<char>, num: i32, cursor: Option<Seq<char>>) -> Seq<char> {
    base + signed_decimal(num as int) + "&cursor="@ + match cursor {
        Some(c) => c,
        None => Seq::empty(),
    }
}

fn page_url(base: &str, num: i32, cursor: &Option<String>) -> (r: String)
    ensures
        r@ == page_url_of(base@, num, opt_view(*cursor)),
{
    let mut u = owned(base);
    push_signed_decimal(&mut u, num as i64);
    u.append("&cursor=");
    match cursor {
        Some(c) => u.append(c.as_str()),
        None => {},
    }
    assert(u@ =~= page_url_of(base@, num, opt_view(*cursor)));
    u
}

impl LikesParams {
    /// The URL of the page these parameters ask for.
    pub fn page_url(&self) -> (r: String)
        ensures
            r@ == page_url_of(LIKES_BASE@, self.num, opt_view(self.cursor)),
    {
        page_url(LIKES_BASE, self.num, &self.cursor)
    }
}

impl MentionsParams {
    /// The URL of the page these parameters ask for.
    pub fn page_url(&self) -> (r: String)
        ensures
            r@ == page_url_of(MENTIONS_BASE@, self.num, opt_view(self.cursor)),
    {
        page_url(MENTIONS_BASE, self.num, &self.cursor)
    }
}

} // verus!
