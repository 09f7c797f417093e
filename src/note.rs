//! The comment page of a note.

use vstd::prelude::*;
use vstd::string::StringExecFns;
use crate::text::{owned, url_encode, url_encoded};

verus! {

pub const NOTE_PAGE_KEY: &'static str = "note_page";

pub const NOTE_PAGE_BASE: &'static str = "https://edith.xiaohongshu.com/api/sns/web/v2/comment/page?note_id=";

pub const IMAGE_FORMATS: &'static str = "jpg,webp,avif";

/// What a caller asks of a note's comment page.
pub struct NotePageParams {
    pub note_id: String,
    /// Empty for the first page, then the cursor of the page before.
    pub cursor: String,
    pub top_comment_id: String,
    pub image_formats: String,
    pub xsec_token: String,
}

/// The image formats asked for when the caller names none.
pub fn default_image_formats() -> (r: String)
    ensures
        r@ == IMAGE_FORMATS@,
{
    owned(IMAGE_FORMATS)
}

/// The URL of a comment page; only the token is percent-encoded.
pub open spec fn note_page_url_of(
    note_id: Seq<char>,
    cursor: Seq<char>,
    top_comment_id: Seq<char>,
    image_formats: Seq<char>,
    xsec_token: Seq<char>,
) -> Seq<char> {
    NOTE_PAGE_BASE@ + note_id + "&cursor="@ + cursor + "&top_comment_id="@ + top_comment_id + "&image_formats="@
        + image_formats + "&xsec_token="@ + url_encoded(xsec_token)
}

impl NotePageParams {
    /// The URL of the comment page these parameters ask for.
    pub fn page_url(&self) -> (r: String)
        ensures
            r@ == note_page_url_of(
                self.note_id@,
                self.cursor@,
                self.top_comment_id@,
                self.image_formats@,
                self.xsec_token@,
            ),
    {
        let mut u = owned(NOTE_PAGE_BASE);
        u.append(self.note_id.as_str());
        u.append("&cursor=");
        u.append(self.cursor.as_str());
        u.append("&top_comment_id=");
        u.append(self.top_comment_id.as_str());
        u.append("&image_formats=");
        u.append(self.image_formats.as_str());
        u.append("&xsec_token=");
        let token = url_encode(self.xsec_token.as_str());
        u.append(token.as_str());
        u
    }
}

} // verus!
