use vstd::prelude::*;
use crate::text::{names_match, same_name};

verus! {

/// A header list as a sequence of (name, value) pairs, in order.
pub type HeaderSeq = Seq<(Seq<char>, Seq<char>)>;

/// The value of the first header whose name is `name`, up to ASCII case.
pub open spec fn lookup(hs: HeaderSeq, name: Seq<char>) -> Option<Seq<char>>
    decreases hs.len(),
{
    if hs.len() == 0 {
        None
    } else if same_name(hs[0].0, name) {
        Some(hs[0].1)
    } else {
        lookup(hs.drop_first(), name)
    }
}

/// HTTP headers: (name, value) pairs kept in the order they were added.
pub struct Headers {
    entries: Vec<(String, String)>,
}

impl View for Headers {
    type V = HeaderSeq;

    closed spec fn view(&self) -> HeaderSeq {
        self.entries@.map_values(|e: (String, String)| (e.0@, e.1@))
    }
}

impl Headers {
    pub fn new() -> (r: Headers)
        ensures
            r@ == Seq::<(Seq<char>, Seq<char>)>::empty(),
    {
        let r = Headers { entries: Vec::new() };
        assert(r@ =~= Seq::<(Seq<char>, Seq<char>)>::empty());
        r
    }

    /// Adds a header after those already present.
    pub fn append(&mut self, name: &str, value: String)
        ensures
            final(self)@ == old(self)@.push((name@, value@)),
    {
        let n = name.to_string();
        self.entries.push((n, value));
        assert(final(self)@ =~= old(self)@.push((name@, value@)));
    }

    pub fn len(&self) -> (r: usize)
        ensures
            r == self@.len(),
    {
        self.entries.len()
    }

    /// The (name, value) pairs, in order.
    pub fn entries(&self) -> (r: &Vec<(String, String)>)
        ensures
            r@.map_values(|e: (String, String)| (e.0@, e.1@)) == self@,
    {
        &self.entries
    }

    /// The value of the first header named `name`, compared without regard to
    /// ASCII case.
    pub fn get(&self, name: &str) -> (r: Option<String>)
        ensures
            r matches Some(v) ==> lookup(self@, name@) == Some(v@),
            r is None ==> lookup(self@, name@) is None,
    {
        let n = self.entries.len();
        let mut i: usize = 0;
        assert(self@.subrange(0, n as int) =~= self@);
        while i < n
            invariant
                n == self@.len(),
                i <= n,
                lookup(self@, name@) == lookup(self@.subrange(i as int, n as int), name@),
            decreases n - i,
        {
            let e = &self.entries[i];
            assert(self@[i as int] == (e.0@, e.1@));
            assert(self@.subrange(i as int, n as int).drop_first() =~= self@.subrange(
                i as int + 1,
                n as int,
            ));
            if names_match(e.0.as_str(), name) {
                return Some(e.1.clone());
            }
            i = i + 1;
        }
        assert(self@.subrange(n as int, n as int).len() == 0);
        None
    }
}

/// The security headers that every outbound request and every response
/// carries, in this order.
pub open spec fn security_headers() -> HeaderSeq {
    seq![
        ("X-Frame-Options"@, "deny"@),
        ("X-XSS-Protection"@, "1; mode=block"@),
        ("X-Content-Type-Options"@, "nosniff"@),
        ("Content-Security-Policy"@, "default-src 'none'; img-src data:; style-src 'unsafe-inline'"@),
        ("Strict-Transport-Security"@, "max-age=31536000; includeSubDomains"@),
    ]
}

/// The header `name` of `from`, if `from` has one.
pub open spec fn copy_one(from: HeaderSeq, name: Seq<char>) -> HeaderSeq {
    match lookup(from, name) {
        Some(v) => seq![(name, v)],
        None => seq![],
    }
}

/// The header `name` of `from`, or `name` with `default` when `from` lacks it.
pub open spec fn or_default(from: HeaderSeq, name: Seq<char>, default: Seq<char>) -> HeaderSeq {
    match lookup(from, name) {
        Some(v) => seq![(name, v)],
        None => seq![(name, default)],
    }
}

/// The headers sent upstream for a client request with headers `inbound`.
pub open spec fn outbound_headers(inbound: HeaderSeq, user_agent: Seq<char>) -> HeaderSeq {
    security_headers().push(("User-Agent"@, user_agent)) + or_default(
        inbound,
        "Accept"@,
        "image/*"@,
    ) + copy_one(inbound, "Accept-Encoding"@)
}

/// The headers returned to the client for an upstream response with headers
/// `upstream`.
pub open spec fn response_headers(upstream: HeaderSeq) -> HeaderSeq {
    security_headers() + or_default(upstream, "Cache-Control"@, "public, max-age=31536000"@)
        + copy_one(upstream, "Content-Type"@) + copy_one(upstream, "ETag"@) + copy_one(
        upstream,
        "Expires"@,
    ) + copy_one(upstream, "Last-Modified"@) + copy_one(upstream, "Content-Length"@) + copy_one(
        upstream,
        "Transfer-Encoding"@,
    ) + copy_one(upstream, "Content-Encoding"@)
}

/// A fresh header list holding the security headers.
pub fn default_headers() -> (r: Headers)
    ensures
        r@ == security_headers(),
{
    let mut r = Headers::new();
    r.append("X-Frame-Options", "deny".to_string());
    r.append("X-XSS-Protection", "1; mode=block".to_string());
    r.append("X-Content-Type-Options", "nosniff".to_string());
    r.append(
        "Content-Security-Policy",
        "default-src 'none'; img-src data:; style-src 'unsafe-inline'".to_string(),
    );
    r.append("Strict-Transport-Security", "max-age=31536000; includeSubDomains".to_string());
    assert(r@ =~= security_headers());
    r
}

/// Appends the header `name` of `from` to `to`, if `from` has one.
fn copy_if_present(to: &mut Headers, from: &Headers, name: &str)
    ensures
        final(to)@ == old(to)@ + copy_one(from@, name@),
{
    match from.get(name) {
        Some(v) => {
            to.append(name, v);
            assert(final(to)@ =~= old(to)@ + copy_one(from@, name@));
        },
        None => {
            assert(final(to)@ =~= old(to)@ + copy_one(from@, name@));
        },
    }
}

/// Appends the header `name` of `from` to `to`, or `default` under that name.
fn copy_or_default(to: &mut Headers, from: &Headers, name: &str, default: &str)
    ensures
        final(to)@ == old(to)@ + or_default(from@, name@, default@),
{
    match from.get(name) {
        Some(v) => {
            to.append(name, v);
        },
        None => {
            to.append(name, default.to_string());
        },
    }
    assert(final(to)@ =~= old(to)@ + or_default(from@, name@, default@));
}

/// The headers of the request sent upstream: the security headers, the
/// configured user agent, the client's `Accept` (or `image/*`), and the
/// client's `Accept-Encoding` when it sent one.
pub fn build_outbound_headers(inbound: &Headers, user_agent: &str) -> (r: Headers)
    ensures
        r@ == outbound_headers(inbound@, user_agent@),
{
    let mut r = default_headers();
    r.append("User-Agent", user_agent.to_string());
    copy_or_default(&mut r, inbound, "Accept", "image/*");
    copy_if_present(&mut r, inbound, "Accept-Encoding");
    r
}

/// The headers of the response relayed to the client: the security headers,
/// the upstream `Cache-Control` (or a one-year public default), and each of
/// the content and caching headers that the upstream response carries.
pub fn build_response_headers(upstream: &Headers) -> (r: Headers)
    ensures
        r@ == response_headers(upstream@),
{
    let mut r = default_headers();
    copy_or_default(&mut r, upstream, "Cache-Control", "public, max-age=31536000");
    copy_if_present(&mut r, upstream, "Content-Type");
    copy_if_present(&mut r, upstream, "ETag");
    copy_if_present(&mut r, upstream, "Expires");
    copy_if_present(&mut r, upstream, "Last-Modified");
    copy_if_present(&mut r, upstream, "Content-Length");
    copy_if_present(&mut r, upstream, "Transfer-Encoding");
    copy_if_present(&mut r, upstream, "Content-Encoding");
    r
}

} // verus!
