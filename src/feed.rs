//! The names under which the platform files the home-feed channels.

use vstd::prelude::*;
use crate::text::{concat, owned};

verus! {

pub const RECOMMEND: &'static str = "recommend";

pub const RECOMMEND_CATEGORY: &'static str = "homefeed_recommend";

pub const CATEGORY_PREFIX: &'static str = "homefeed.";

pub const CATEGORY_SUFFIX: &'static str = "_v3";

pub const RECOMMEND_KEY: &'static str = "home_feed_recommend";

pub const FEED_KEY_PREFIX: &'static str = "home_feed_";

/// The URL of the home feed.
pub const HOMEFEED_URL: &'static str = "https://edith.xiaohongshu.com/api/sns/web/v1/homefeed";

/// The platform's name for a channel: `homefeed_recommend` for the
/// recommended one, `homefeed.<channel>_v3` for the others.
pub open spec fn category_name(channel: Seq<char>) -> Seq<char> {
    if channel == RECOMMEND@ {
        RECOMMEND_CATEGORY@
    } else {
        CATEGORY_PREFIX@ + channel + CATEGORY_SUFFIX@
    }
}

/// The endpoint key of a channel's capture: `home_feed_<channel>`.
pub open spec fn feed_key(channel: Seq<char>) -> Seq<char> {
    if channel == RECOMMEND@ {
        RECOMMEND_KEY@
    } else {
        FEED_KEY_PREFIX@ + channel
    }
}

/// The platform's name for the channel `category`.
pub fn map_category(category: &str) -> (r: String)
    ensures
        r@ == category_name(category@),
{
    if owned(category) == owned(RECOMMEND) {
        owned(RECOMMEND_CATEGORY)
    } else {
        let mut s = concat(CATEGORY_PREFIX, category);
        s = concat(s.as_str(), CATEGORY_SUFFIX);
        s
    }
}

/// The endpoint key under which the channel `category` is captured.
pub fn feed_signature_key(category: &str) -> (r: String)
    ensures
        r@ == feed_key(category@),
{
    if owned(category) == owned(RECOMMEND) {
        owned(RECOMMEND_KEY)
    } else {
        concat(FEED_KEY_PREFIX, category)
    }
}

} // verus!
