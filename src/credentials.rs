//! The two kinds of authentication material: the session's cookie jar and
//! the per-endpoint signature bundles captured for it.

use vstd::prelude::*;
use vstd::string::{StrSliceExecFns, StringExecFns};
use crate::text::owned;

verus! {

/// One cookie of a jar.
pub struct Cookie {
    pub name: String,
    pub value: String,
}

impl View for Cookie {
    type V = (Seq<char>, Seq<char>);

    open spec fn view(&self) -> (Seq<char>, Seq<char>) {
        (self.name@, self.value@)
    }
}

impl Cookie {
    pub fn new(name: &str, value: &str) -> (r: Cookie)
        ensures
            r@ == (name@, value@),
    {
        Cookie { name: owned(name), value: owned(value) }
    }

    pub fn duplicate(&self) -> (r: Cookie)
        ensures
            r@ == self@,
    {
        Cookie { name: self.name.clone(), value: self.value.clone() }
    }
}

/// The pairs of a cookie jar, in order.
pub open spec fn jar_view(cookies: Seq<Cookie>) -> Seq<(Seq<char>, Seq<char>)> {
    cookies.map_values(|c: Cookie| c@)
}

/// A copy of a cookie jar.
pub fn copy_jar(cookies: &Vec<Cookie>) -> (r: Vec<Cookie>)
    ensures
        jar_view(r@) == jar_view(cookies@),
{
    let mut r: Vec<Cookie> = Vec::new();
    let mut i: usize = 0;
    while i < cookies.len()
        invariant
            i <= cookies@.len(),
            jar_view(r@) == jar_view(cookies@.subrange(0, i as int)),
        decreases cookies@.len() - i,
    {
        let ghost before = r@;
        let c = cookies[i].duplicate();
        r.push(c);
        proof {
            assert(cookies@.subrange(0, i + 1) =~= cookies@.subrange(0, i as int).push(cookies@[i as int]));
            assert(jar_view(r@) =~= jar_view(before).push(c@));
            assert(jar_view(cookies@.subrange(0, i + 1)) =~= jar_view(cookies@.subrange(0, i as int)).push(cookies@[i as int]@));
        }
        i = i + 1;
    }
    assert(cookies@.subrange(0, i as int) =~= cookies@);
    r
}

/// `name=value`.
pub open spec fn cookie_pair(c: (Seq<char>, Seq<char>)) -> Seq<char> {
    c.0 + seq!['='] + c.1
}

/// The jar as one `cookie` header value: `name=value` pairs joined by `"; "`.
pub open spec fn cookie_header(jar: Seq<(Seq<char>, Seq<char>)>) -> Seq<char>
    decreases jar.len(),
{
    if jar.len() == 0 {
        Seq::empty()
    } else if jar.len() == 1 {
        cookie_pair(jar[0])
    } else {
        cookie_header(jar.drop_last()) + seq![';', ' '] + cookie_pair(jar.last())
    }
}

/// Joins a cookie jar into the value of one `cookie` header.
pub fn cookies_to_string(cookies: &Vec<Cookie>) -> (r: String)
    ensures
        r@ == cookie_header(jar_view(cookies@)),
{
    let mut r = String::new();
    let mut i: usize = 0;
    proof {
        reveal_strlit("=");
        reveal_strlit("; ");
    }
    while i < cookies.len()
        invariant
            i <= cookies@.len(),
            r@ == cookie_header(jar_view(cookies@.subrange(0, i as int))),
            "="@ == seq!['='],
            "; "@ == seq![';', ' '],
        decreases cookies@.len() - i,
    {
        let ghost before = r@;
        let c = &cookies[i];
        if i > 0 {
            r.append("; ");
        }
        r.append(c.name.as_str());
        r.append("=");
        r.append(c.value.as_str());
        proof {
            let jar = jar_view(cookies@.subrange(0, i + 1));
            assert(jar.drop_last() =~= jar_view(cookies@.subrange(0, i as int)));
            assert(jar.last() == c@);
            if i == 0 {
                assert(before =~= Seq::<char>::empty());
                assert(r@ =~= cookie_pair(c@));
            } else {
                assert(r@ =~= before + seq![';', ' '] + cookie_pair(c@));
            }
        }
        i = i + 1;
    }
    assert(cookies@.subrange(0, i as int) =~= cookies@);
    r
}

/// The position of the first `c` in `s`, or its length where there is none.
pub open spec fn first_index_of(s: Seq<char>, c: char) -> int
    decreases s.len(),
{
    if s.len() == 0 {
        0
    } else if s[0] == c {
        0
    } else {
        1 + first_index_of(s.drop_first(), c)
    }
}

/// The cookie that a `Set-Cookie` header value sets: the text before the
/// first `;`, split at its first `=`. A value without `=` sets nothing.
pub open spec fn set_cookie_pair(header: Seq<char>) -> Option<(Seq<char>, Seq<char>)> {
    let pair = header.take(first_index_of(header, ';'));
    let eq = first_index_of(pair, '=');
    if eq < pair.len() {
        Some((pair.take(eq), pair.skip(eq + 1)))
    } else {
        None
    }
}

proof fn lemma_first_index_of(s: Seq<char>, c: char, i: int)
    requires
        0 <= i <= s.len(),
        forall|j: int| 0 <= j < i ==> s[j] != c,
        i == s.len() || s[i] == c,
    ensures
        first_index_of(s, c) == i,
    decreases s.len(),
{
    if s.len() > 0 && s[0] != c {
        lemma_first_index_of(s.drop_first(), c, i - 1);
    }
}

/// The first position of `c` in `s`, or the length of `s`.
fn find_char(s: &str, n: usize, c: char) -> (r: usize)
    requires
        n == s@.len(),
    ensures
        r <= n,
        r == first_index_of(s@, c),
{
    let mut i: usize = 0;
    while i < n
        invariant
            n == s@.len(),
            i <= n,
            forall|j: int| 0 <= j < i ==> s@[j] != c,
        decreases n - i,
    {
        if s.get_char(i) == c {
            proof {
                lemma_first_index_of(s@, c, i as int);
            }
            return i;
        }
        i = i + 1;
    }
    proof {
        lemma_first_index_of(s@, c, i as int);
    }
    i
}

impl Cookie {
    /// Reads the cookie that a `Set-Cookie` header value sets.
    pub fn from_set_cookie(header: &str) -> (r: Option<Cookie>)
        ensures
            match set_cookie_pair(header@) {
                Some(p) => r matches Some(c) && c@ == p,
                None => r is None,
            },
    {
        let n = header.unicode_len();
        let end = find_char(header, n, ';');
        let pair = header.substring_char(0, end);
        let m = pair.unicode_len();
        let eq = find_char(pair, m, '=');
        if eq < m {
            let name = pair.substring_char(0, eq);
            let value = pair.substring_char(eq + 1, m);
            Some(Cookie::new(name, value))
        } else {
            None
        }
    }
}

/// No two cookies of a jar share a name: a jar maps names to values.
pub open spec fn distinct_names(jar: Seq<(Seq<char>, Seq<char>)>) -> bool {
    forall|i: int, j: int| 0 <= i < j < jar.len() ==> #[trigger] jar[i].0 != #[trigger] jar[j].0
}

/// Whether the jar has a cookie called `name`.
pub open spec fn has_name(jar: Seq<(Seq<char>, Seq<char>)>, name: Seq<char>) -> bool {
    exists|k: int| 0 <= k < jar.len() && #[trigger] jar[k].0 == name
}

/// The jar after setting cookie `c`: a cookie of the same name takes the
/// new value where it stands, otherwise `c` comes last.
pub open spec fn set_in_jar(jar: Seq<(Seq<char>, Seq<char>)>, c: (Seq<char>, Seq<char>)) -> Seq<(Seq<char>, Seq<char>)> {
    if has_name(jar, c.0) {
        jar.update(choose|k: int| 0 <= k < jar.len() && #[trigger] jar[k].0 == c.0, c)
    } else {
        jar.push(c)
    }
}

/// The jar that a list of cookies sets, in order: a later cookie replaces
/// an earlier one of the same name.
pub open spec fn jar_of(cookies: Seq<(Seq<char>, Seq<char>)>) -> Seq<(Seq<char>, Seq<char>)>
    decreases cookies.len(),
{
    if cookies.len() == 0 {
        Seq::empty()
    } else {
        set_in_jar(jar_of(cookies.drop_last()), cookies.last())
    }
}

/// Sets one cookie in a jar whose names are distinct.
fn set_cookie(jar: &mut Vec<Cookie>, c: Cookie)
    requires
        distinct_names(jar_view(old(jar)@)),
    ensures
        jar_view(final(jar)@) == set_in_jar(jar_view(old(jar)@), c@),
        distinct_names(jar_view(final(jar)@)),
{
    let ghost v = jar_view(jar@);
    let mut i: usize = 0;
    while i < jar.len()
        invariant
            i <= jar@.len(),
            v == jar_view(jar@),
            v == jar_view(old(jar)@),
            distinct_names(v),
            forall|j: int| 0 <= j < i ==> v[j].0 != c.name@,
        decreases jar@.len() - i,
    {
        if jar[i].name == c.name {
            proof {
                assert(v[i as int].0 == c@.0);
                assert(has_name(v, c@.0));
                let k = choose|k: int| 0 <= k < v.len() && #[trigger] v[k].0 == c@.0;
                assert(k == i) by {
                    if k != i {
                        if k < i {
                            assert(v[k].0 != v[i as int].0);
                        } else {
                            assert(v[i as int].0 != v[k].0);
                        }
                    }
                }
            }
            jar.set(i, c);
            proof {
                assert(jar_view(jar@) =~= v.update(i as int, c@));
                let w = jar_view(jar@);
                assert forall|a: int, b: int| 0 <= a < b < w.len() implies #[trigger] w[a].0 != #[trigger] w[b].0 by {
                    assert(v[a].0 != v[b].0);
                }
            }
            return;
        }
        i = i + 1;
    }
    proof {
        assert(!has_name(v, c@.0));
    }
    jar.push(c);
    proof {
        assert(jar_view(jar@) =~= v.push(c@));
    }
}

/// The jar that `cookies` set, in order, a later cookie replacing an
/// earlier one of the same name.
pub fn merge_jar(cookies: Vec<Cookie>) -> (r: Vec<Cookie>)
    ensures
        jar_view(r@) == jar_of(jar_view(cookies@)),
        distinct_names(jar_view(r@)),
{
    let mut jar: Vec<Cookie> = Vec::new();
    let mut i: usize = 0;
    while i < cookies.len()
        invariant
            i <= cookies@.len(),
            jar_view(jar@) == jar_of(jar_view(cookies@.subrange(0, i as int))),
            distinct_names(jar_view(jar@)),
        decreases cookies@.len() - i,
    {
        let c = cookies[i].duplicate();
        proof {
            let pre = jar_view(cookies@.subrange(0, i + 1));
            assert(pre.drop_last() =~= jar_view(cookies@.subrange(0, i as int)));
            assert(pre.last() == c@);
        }
        set_cookie(&mut jar, c);
        i = i + 1;
    }
    assert(cookies@.subrange(0, i as int) =~= cookies@);
    jar
}

/// The active session's cookie jar, with when it was captured and, where
/// known, when it stops being valid (both in milliseconds since the epoch).
pub struct Credential {
    pub cookies: Vec<Cookie>,
    pub captured_at: u64,
    pub expires_at: Option<u64>,
}

/// What a credential holds, as plain values.
pub struct CredentialView {
    pub cookies: Seq<(Seq<char>, Seq<char>)>,
    pub captured_at: u64,
    pub expires_at: Option<u64>,
}

impl View for Credential {
    type V = CredentialView;

    open spec fn view(&self) -> CredentialView {
        CredentialView {
            cookies: jar_view(self.cookies@),
            captured_at: self.captured_at,
            expires_at: self.expires_at,
        }
    }
}

impl Credential {
    /// The cookie names of the jar are distinct.
    pub open spec fn wf(&self) -> bool {
        distinct_names(self@.cookies)
    }

    /// A credential whose jar is what `cookies` set, in order; a later
    /// cookie replaces an earlier one of the same name.
    pub fn new(cookies: Vec<Cookie>, captured_at: u64, expires_at: Option<u64>) -> (r: Credential)
        ensures
            r.wf(),
            r@.cookies == jar_of(jar_view(cookies@)),
            r.captured_at == captured_at,
            r.expires_at == expires_at,
    {
        Credential { cookies: merge_jar(cookies), captured_at, expires_at }
    }

    /// The jar as the value of one `cookie` header.
    pub fn cookie_string(&self) -> (r: String)
        ensures
            r@ == cookie_header(self@.cookies),
    {
        cookies_to_string(&self.cookies)
    }

    pub fn duplicate(&self) -> (r: Credential)
        ensures
            r@ == self@,
    {
        Credential {
            cookies: copy_jar(&self.cookies),
            captured_at: self.captured_at,
            expires_at: self.expires_at,
        }
    }
}

/// The view of an optional string.
pub open spec fn opt_view(o: Option<String>) -> Option<Seq<char>> {
    match o {
        Some(s) => Some(s@),
        None => None,
    }
}

/// A copy of an optional string.
pub fn copy_opt(o: &Option<String>) -> (r: Option<String>)
    ensures
        opt_view(r) == opt_view(*o),
{
    match o {
        Some(s) => Some(s.clone()),
        None => None,
    }
}

/// The signing material captured for one endpoint: the signature triple, two
/// trace ids, and optionally the full URL (query included) and the body of
/// the captured request.
pub struct ApiSignature {
    pub endpoint_key: String,
    pub x_s: String,
    pub x_t: String,
    pub x_s_common: String,
    pub x_b3_traceid: String,
    pub x_xray_traceid: String,
    pub request_url: Option<String>,
    pub post_body: Option<String>,
}

/// What a signature bundle holds, as plain values.
pub struct SignatureView {
    pub endpoint_key: Seq<char>,
    pub x_s: Seq<char>,
    pub x_t: Seq<char>,
    pub x_s_common: Seq<char>,
    pub x_b3_traceid: Seq<char>,
    pub x_xray_traceid: Seq<char>,
    pub request_url: Option<Seq<char>>,
    pub post_body: Option<Seq<char>>,
}

impl View for ApiSignature {
    type V = SignatureView;

    open spec fn view(&self) -> SignatureView {
        SignatureView {
            endpoint_key: self.endpoint_key@,
            x_s: self.x_s@,
            x_t: self.x_t@,
            x_s_common: self.x_s_common@,
            x_b3_traceid: self.x_b3_traceid@,
            x_xray_traceid: self.x_xray_traceid@,
            request_url: opt_view(self.request_url),
            post_body: opt_view(self.post_body),
        }
    }
}

impl ApiSignature {
    pub fn duplicate(&self) -> (r: ApiSignature)
        ensures
            r@ == self@,
    {
        ApiSignature {
            endpoint_key: self.endpoint_key.clone(),
            x_s: self.x_s.clone(),
            x_t: self.x_t.clone(),
            x_s_common: self.x_s_common.clone(),
            x_b3_traceid: self.x_b3_traceid.clone(),
            x_xray_traceid: self.x_xray_traceid.clone(),
            request_url: copy_opt(&self.request_url),
            post_body: copy_opt(&self.post_body),
        }
    }
}

} // verus!
