//! An outbound HTTP request described as plain values: what the transport
//! layer sends, header by header.

use vstd::prelude::*;
use crate::credentials::opt_view;
use crate::text::owned;

verus! {

pub struct Header {
    pub name: String,
    pub value: String,
}

impl View for Header {
    type V = (Seq<char>, Seq<char>);

    open spec fn view(&self) -> (Seq<char>, Seq<char>) {
        (self.name@, self.value@)
    }
}

/// The pairs of a header list, in order.
pub open spec fn headers_view(headers: Seq<Header>) -> Seq<(Seq<char>, Seq<char>)> {
    headers.map_values(|h: Header| h@)
}

/// Appends one header.
pub fn push_header(headers: &mut Vec<Header>, name: &str, value: &str)
    ensures
        headers_view(final(headers)@) == headers_view(old(headers)@).push((name@, value@)),
{
    let h = Header { name: owned(name), value: owned(value) };
    headers.push(h);
    assert(headers_view(headers@) =~= headers_view(old(headers)@).push((name@, value@)));
}

#[derive(PartialEq, Eq, Structural, Clone, Copy, Debug)]
pub enum Method {
    Get,
    Post,
}

/// A request ready to be dispatched.
pub struct SignedRequest {
    pub method: Method,
    pub url: String,
    pub headers: Vec<Header>,
    pub body: Option<String>,
}

pub struct RequestView {
    pub method: Method,
    pub url: Seq<char>,
    pub headers: Seq<(Seq<char>, Seq<char>)>,
    pub body: Option<Seq<char>>,
}

impl View for SignedRequest {
    type V = RequestView;

    open spec fn view(&self) -> RequestView {
        RequestView {
            method: self.method,
            url: self.url@,
            headers: headers_view(self.headers@),
            body: opt_view(self.body),
        }
    }
}

impl SignedRequest {
    /// The value of the first header called `name`, if there is one.
    pub fn header(&self, name: &str) -> (r: Option<&String>)
        ensures
            match r {
                Some(v) => exists|i: int|
                    0 <= i < self.headers@.len() && self.headers@[i].name@ == name@
                        && self.headers@[i].value@ == v@ && forall|j: int|
                        0 <= j < i ==> self.headers@[j].name@ != name@,
                None => forall|i: int|
                    0 <= i < self.headers@.len() ==> self.headers@[i].name@ != name@,
            },
    {
        let n = owned(name);
        let mut i: usize = 0;
        while i < self.headers.len()
            invariant
                i <= self.headers@.len(),
                n@ == name@,
                forall|j: int| 0 <= j < i ==> self.headers@[j].name@ != name@,
            decreases self.headers@.len() - i,
        {
            if self.headers[i].name == n {
                return Some(&self.headers[i].value);
            }
            i = i + 1;
        }
        None
    }
}

} // verus!
