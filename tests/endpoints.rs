use xhs_auth::creator::{
    build_creator_headers, build_signed_creator_headers, check_http_status, creator_qr_status_query,
    creator_qr_status_uri, creator_qr_status_url, GuestCookiesReply, QrCreateReply, SignReply, SignatureTriple,
};
use xhs_auth::credentials::Cookie;
use xhs_auth::error::ApiError;
use xhs_auth::feed::{feed_signature_key, map_category};
use xhs_auth::login::QrCode;
use xhs_auth::note::{default_image_formats, NotePageParams};
use xhs_auth::notification::{default_num, LikesParams, MentionsParams};
use xhs_auth::search::{
    format_request_id, generate_request_id, generate_search_id, request_id_or_new, search_filter_url,
    search_id_or_new, search_recommend_url,
};
use xhs_auth::text::{decimal_string, lowercase_ascii};

#[test]
fn category_names() {
    assert_eq!(map_category("recommend"), "homefeed_recommend");
    assert_eq!(map_category("fashion"), "homefeed.fashion_v3");
    assert_eq!(feed_signature_key("recommend"), "home_feed_recommend");
    assert_eq!(feed_signature_key("food"), "home_feed_food");
}

#[test]
fn note_page_url_encodes_token_only() {
    let p = NotePageParams {
        note_id: "n1".to_string(),
        cursor: "".to_string(),
        top_comment_id: "".to_string(),
        image_formats: default_image_formats(),
        xsec_token: "AB+c/=".to_string(),
    };
    assert_eq!(
        p.page_url(),
        "https://edith.xiaohongshu.com/api/sns/web/v2/comment/page?note_id=n1&cursor=&top_comment_id=&image_formats=jpg,webp,avif&xsec_token=AB%2Bc%2F%3D"
    );
}

#[test]
fn notification_pages() {
    assert_eq!(default_num(), 20);
    let l = LikesParams::default();
    assert_eq!(l.num, 20);
    assert!(l.cursor.is_none());
    assert_eq!(l.page_url(), "https://edith.xiaohongshu.com/api/sns/web/v1/you/likes?num=20&cursor=");
    let m = MentionsParams { num: -5, cursor: Some("c9".to_string()) };
    assert_eq!(m.page_url(), "https://edith.xiaohongshu.com/api/sns/web/v1/you/mentions?num=-5&cursor=c9");
    assert_eq!(MentionsParams::default().num, 20);
}

#[test]
fn search_urls_are_encoded() {
    assert_eq!(
        search_recommend_url("红 书"),
        "https://edith.xiaohongshu.com/api/sns/web/v1/search/recommend?keyword=%E7%BA%A2%20%E4%B9%A6"
    );
    assert_eq!(
        search_filter_url("a&b", "id 1"),
        "https://edith.xiaohongshu.com/api/sns/web/v1/search/filter?keyword=a%26b&search_id=id%201"
    );
}

#[test]
fn search_id_is_lower_alnum() {
    let id = generate_search_id();
    assert_eq!(id.chars().count(), 22);
    assert!(id.chars().all(|c| c.is_ascii_lowercase() || c.is_ascii_digit()));
    assert_eq!(search_id_or_new(Some("mine".to_string())), "mine");
    assert_eq!(search_id_or_new(None).len(), 22);
}

#[test]
fn request_id_shape() {
    assert_eq!(format_request_id(1234567890, 1700000000123), "1234567890-1700000000123");
    assert_eq!(format_request_id(0, 0), "0-0");
    let id = generate_request_id();
    let (p, t) = id.split_once('-').unwrap();
    assert_eq!(p.len(), 10);
    let p: u64 = p.parse().unwrap();
    assert!((1_000_000_000..10_000_000_000).contains(&p));
    assert!(t.parse::<u128>().unwrap() > 0);
    assert_eq!(request_id_or_new(Some("r".to_string())), "r");
}

#[test]
fn decimals() {
    assert_eq!(decimal_string(0), "0");
    assert_eq!(decimal_string(406), "406");
    assert_eq!(decimal_string(u128::MAX), "340282366920938463463374607431768211455");
}

#[test]
fn creator_headers_and_query() {
    let h = build_creator_headers();
    let names: Vec<&str> = h.iter().map(|x| x.name.as_str()).collect();
    assert_eq!(names, vec!["accept", "origin", "referer", "user-agent", "xsecappid"]);
    assert_eq!(h[4].value, "ugc");
    assert_eq!(h[1].value, "https://creator.xiaohongshu.com");
    assert_eq!(
        creator_qr_status_query("68c5"),
        "service=https%3A%2F%2Fcreator.xiaohongshu.com&qr_code_id=68c5&source="
    );
    assert_eq!(
        creator_qr_status_uri("68c5"),
        "/api/cas/customer/web/qr-code?service=https%3A%2F%2Fcreator.xiaohongshu.com&qr_code_id=68c5&source="
    );
    assert_eq!(
        creator_qr_status_url("68c5"),
        "https://customer.xiaohongshu.com/api/cas/customer/web/qr-code?service=https%3A%2F%2Fcreator.xiaohongshu.com&qr_code_id=68c5&source="
    );
}

#[test]
fn signed_creator_headers() {
    let t = SignatureTriple { x_s: "s".to_string(), x_t: "t".to_string(), x_s_common: "c".to_string() };
    let cookies = vec![Cookie::new("a", "1"), Cookie::new("b", "2")];
    let post = build_signed_creator_headers(&t, &cookies, true);
    let names: Vec<&str> = post.iter().map(|x| x.name.as_str()).collect();
    assert_eq!(
        names,
        vec!["accept", "origin", "referer", "user-agent", "xsecappid", "content-type", "x-s", "x-t", "x-s-common", "cookie"]
    );
    assert_eq!(post[9].value, "a=1; b=2");
    let get = build_signed_creator_headers(&t, &cookies, false);
    assert_eq!(get.len(), 9);
    assert_eq!(get[5].name, "x-s");
}

#[test]
fn collaborator_replies() {
    let ok = GuestCookiesReply { success: true, cookies: Some(vec![Cookie::new("g", "1")]), error: None };
    assert_eq!(ok.into_cookies().ok().unwrap()[0].name, "g");
    let empty = GuestCookiesReply { success: true, cookies: None, error: None };
    match empty.into_cookies() {
        Err(e) => {
            assert!(matches!(e, ApiError::NoCookies));
            assert_eq!(e.message(), "No cookies returned");
        }
        _ => panic!("expected NoCookies"),
    }
    let bad = GuestCookiesReply { success: false, cookies: None, error: Some("busy".to_string()) };
    match bad.into_cookies() {
        Err(e) => assert_eq!(e.message(), "Agent error: busy"),
        _ => panic!("expected AgentFailed"),
    }
    let sign = SignReply { success: true, x_s: Some("s".to_string()), x_t: None, x_s_common: Some("c".to_string()), error: None };
    let t = sign.into_triple().ok().unwrap();
    assert_eq!((t.x_s.as_str(), t.x_t.as_str(), t.x_s_common.as_str()), ("s", "", "c"));
    let sign_bad = SignReply { success: false, x_s: None, x_t: None, x_s_common: None, error: None };
    match sign_bad.into_triple() {
        Err(ApiError::SignFailed { reason }) => assert_eq!(reason, ""),
        _ => panic!("expected SignFailed"),
    }
    let sign_refused = SignReply { success: false, x_s: None, x_t: None, x_s_common: None, error: Some("no key".to_string()) };
    match sign_refused.into_triple() {
        Err(e) => assert_eq!(e.message(), "Sign error: no key"),
        _ => panic!("expected SignFailed"),
    }
}

#[test]
fn qr_create_replies() {
    let ok = QrCreateReply {
        success: true,
        code: 0,
        msg: None,
        data: Some(QrCode { qr_id: "id9".to_string(), url: "https://q".to_string() }),
    };
    let q = ok.into_qr_code().ok().unwrap();
    assert_eq!(q.qr_id, "id9");
    let no_data = QrCreateReply { success: true, code: 0, msg: None, data: None };
    match no_data.into_qr_code() {
        Err(ApiError::Collaborator { reason }) => assert_eq!(reason, "QR code creation failed"),
        _ => panic!("expected Collaborator"),
    }
    let refused = QrCreateReply { success: false, code: -1, msg: Some("rate limited".to_string()), data: None };
    match refused.into_qr_code() {
        Err(ApiError::Collaborator { reason }) => assert_eq!(reason, "rate limited"),
        _ => panic!("expected Collaborator"),
    }
}

#[test]
fn http_status_check() {
    assert_eq!(check_http_status(200, "b".to_string()).ok().unwrap(), "b");
    assert_eq!(check_http_status(399, "b".to_string()).ok().unwrap(), "b");
    match check_http_status(400, "bad".to_string()) {
        Err(ApiError::Http { status, body }) => {
            assert_eq!(status, 400);
            assert_eq!(body, "bad");
        }
        _ => panic!("expected Http"),
    }
}

#[test]
fn ascii_lowering() {
    assert_eq!(lowercase_ascii(&vec!['A', 'b', 'Z', '9', 'É']), "abz9É");
    assert_eq!(lowercase_ascii(&vec![]), "");
}
