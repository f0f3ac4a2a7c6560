use vstd::prelude::*;
use crate::error::ProxyError;
use crate::headers::lookup;
use crate::message::{ProxyRequest, UpstreamResponse};
use crate::text::text_equal;

verus! {

#[verifier::external_type_specification]
#[verifier::external_body]
pub struct ExUri(hyper::Uri);

/// What `url::form_urlencoded::parse` yields for a query string: its
/// percent-decoded (name, value) pairs, in order.
pub uninterp spec fn form_pairs_of(query: Seq<char>) -> Seq<(Seq<char>, Seq<char>)>;

/// What `url::Url::parse` makes of a text: the serialization of the absolute
/// URL it denotes, or `None` where it denotes none.
pub uninterp spec fn url_serialization_of(s: Seq<char>) -> Option<Seq<char>>;

/// What hyper's `Uri::from_str` makes of a text: `None` where it is refused,
/// else the scheme of the parsed URI, if it has one.
pub uninterp spec fn uri_scheme_of(s: Seq<char>) -> Option<Option<Seq<char>>>;

pub open spec fn pairs_view(v: Seq<(String, String)>) -> Seq<(Seq<char>, Seq<char>)> {
    v.map_values(|e: (String, String)| (e.0@, e.1@))
}

pub open spec fn opt_string_view(s: Option<String>) -> Option<Seq<char>> {
    match s {
        Some(t) => Some(t@),
        None => None,
    }
}

/// Relies on url::form_urlencoded::parse to split and decode a query string.
#[verifier::external_body]
fn form_pairs(query: &str) -> (r: Vec<(String, String)>)
    ensures
        pairs_view(r@) == form_pairs_of(query@),
{
    url::form_urlencoded::parse(query.as_bytes()).map(|(k, v)| (k.into_owned(), v.into_owned())).collect()
}

/// Relies on url::Url::parse to recognise an absolute URL, and on
/// Url::as_str for its serialization.
#[verifier::external_body]
fn parse_url(s: &str) -> (r: Option<String>)
    ensures
        opt_string_view(r) == url_serialization_of(s@),
{
    match url::Url::parse(s) {
        Ok(u) => Some(u.as_str().to_string()),
        Err(_) => None,
    }
}

/// Relies on hyper's Uri::from_str to parse a request target, and on
/// Uri::scheme for its scheme.
#[verifier::external_body]
fn parse_uri(s: &str) -> (r: Option<(hyper::Uri, Option<String>)>)
    ensures
        r matches Some(p) ==> uri_scheme_of(s@) == Some(opt_string_view(p.1)),
        r is None ==> uri_scheme_of(s@) is None,
{
    match <hyper::Uri as std::str::FromStr>::from_str(s) {
        Ok(u) => {
            let scheme = u.scheme().map(|x| x.to_string());
            Some((u, scheme))
        },
        Err(_) => None,
    }
}

/// An upstream target: a parsed URI, with the text it was parsed from.
pub struct TargetUri {
    uri: hyper::Uri,
    scheme: Option<String>,
    source: Ghost<Seq<char>>,
}

impl TargetUri {
    /// The text the target was parsed from.
    pub closed spec fn source(&self) -> Seq<char> {
        self.source@
    }

    pub closed spec fn scheme_view(&self) -> Option<Seq<char>> {
        opt_string_view(self.scheme)
    }

    /// The scheme is the one that parsing the source gives.
    pub open spec fn wf(&self) -> bool {
        uri_scheme_of(self.source()) == Some(self.scheme_view())
    }

    /// Parses a request target.
    pub fn parse(s: &str) -> (r: Option<TargetUri>)
        ensures
            match uri_scheme_of(s@) {
                Some(scheme) => r matches Some(t) && t.wf() && t.source() == s@ && t.scheme_view()
                    == scheme,
                None => r is None,
            },
    {
        match parse_uri(s) {
            Some((uri, scheme)) => Some(TargetUri { uri, scheme, source: Ghost(s@) }),
            None => None,
        }
    }

    /// The parsed URI, for the transport that fetches it.
    pub fn uri(&self) -> &hyper::Uri {
        &self.uri
    }

    pub fn scheme(&self) -> (r: Option<String>)
        ensures
            opt_string_view(r) == self.scheme_view(),
    {
        match &self.scheme {
            Some(s) => Some(s.clone()),
            None => None,
        }
    }
}

/// The value of the first pair whose name is exactly `key`.
pub open spec fn first_value(pairs: Seq<(Seq<char>, Seq<char>)>, key: Seq<char>) -> Option<
    Seq<char>,
>
    decreases pairs.len(),
{
    if pairs.len() == 0 {
        None
    } else if pairs[0].0 == key {
        Some(pairs[0].1)
    } else {
        first_value(pairs.drop_first(), key)
    }
}

/// The target named by the `q` parameter of a query, as the text that was
/// parsed into it, or why there is none.
pub open spec fn target_of(query: Option<Seq<char>>) -> Result<Seq<char>, ProxyError> {
    match query {
        None => Err(ProxyError::NoQueryParameter),
        Some(q) => match first_value(form_pairs_of(q), "q"@) {
            None => Err(ProxyError::NoQueryParameter),
            Some(v) => match url_serialization_of(v) {
                None => Err(ProxyError::InvalidUrl),
                Some(u) => match uri_scheme_of(u) {
                    None => Err(ProxyError::InvalidUrl),
                    Some(_) => Ok(u),
                },
            },
        },
    }
}

/// The target of a redirect, from its `Location` header, or why there is
/// none.
pub open spec fn redirect_of(headers: Seq<(Seq<char>, Seq<char>)>) -> Result<
    Seq<char>,
    ProxyError,
> {
    match lookup(headers, "Location"@) {
        None => Err(ProxyError::BadRedirect),
        Some(l) => match uri_scheme_of(l) {
            None => Err(ProxyError::BadRedirect),
            Some(_) => Ok(l),
        },
    }
}

/// `r` is the target that `expected` names, or the same error.
pub open spec fn target_result(r: Result<TargetUri, ProxyError>, expected: Result<Seq<char>, ProxyError>) -> bool {
    match expected {
        Ok(src) => r matches Ok(t) && t.wf() && t.source() == src,
        Err(e) => r == Err::<TargetUri, ProxyError>(e),
    }
}

fn find_value(pairs: &Vec<(String, String)>, key: &str) -> (r: Option<usize>)
    ensures
        match first_value(pairs_view(pairs@), key@) {
            Some(v) => r matches Some(i) && i < pairs@.len() && pairs@[i as int].1@ == v,
            None => r is None,
        },
{
    let n = pairs.len();
    let ghost ps = pairs_view(pairs@);
    let mut i: usize = 0;
    assert(ps.subrange(0, n as int) =~= ps);
    while i < n
        invariant
            n == pairs@.len(),
            ps == pairs_view(pairs@),
            i <= n,
            first_value(ps, key@) == first_value(ps.subrange(i as int, n as int), key@),
        decreases n - i,
    {
        assert(ps[i as int] == (pairs@[i as int].0@, pairs@[i as int].1@));
        assert(ps.subrange(i as int, n as int).drop_first() =~= ps.subrange(i as int + 1, n as int));
        if text_equal(pairs[i].0.as_str(), key) {
            return Some(i);
        }
        i = i + 1;
    }
    assert(ps.subrange(n as int, n as int).len() == 0);
    None
}

/// Extracts the upstream target from the `q` query parameter of a request.
pub fn get_target_uri(request: &ProxyRequest) -> (r: Result<TargetUri, ProxyError>)
    ensures
        target_result(r, target_of(request.query_view())),
{
    let query = match &request.query {
        Some(q) => q,
        None => {
            return Err(ProxyError::NoQueryParameter);
        },
    };
    let pairs = form_pairs(query.as_str());
    let value = match find_value(&pairs, "q") {
        Some(i) => &pairs[i].1,
        None => {
            return Err(ProxyError::NoQueryParameter);
        },
    };
    let url = match parse_url(value.as_str()) {
        Some(u) => u,
        None => {
            return Err(ProxyError::InvalidUrl);
        },
    };
    match TargetUri::parse(url.as_str()) {
        Some(t) => Ok(t),
        None => Err(ProxyError::InvalidUrl),
    }
}

/// Extracts the target of a redirect from the `Location` header of an
/// upstream response.
pub fn get_redirect_uri(response: &UpstreamResponse) -> (r: Result<TargetUri, ProxyError>)
    ensures
        target_result(r, redirect_of(response.headers@)),
{
    match response.headers.get("Location") {
        Some(l) => match TargetUri::parse(l.as_str()) {
            Some(t) => Ok(t),
            None => Err(ProxyError::BadRedirect),
        },
        None => Err(ProxyError::BadRedirect),
    }
}

/// The transport over which a target is fetched.
#[derive(Debug, Clone, Copy, PartialEq, Eq, Structural)]
pub enum Transport {
    /// Plain HTTP.
    Http,
    /// HTTP over TLS.
    Https,
}

/// The transport for a scheme: `https` and `http` have their own, and any
/// other scheme, or none, is refused.
pub open spec fn transport_for(scheme: Option<Seq<char>>) -> Result<Transport, ProxyError> {
    if scheme == Some("https"@) {
        Ok(Transport::Https)
    } else if scheme == Some("http"@) {
        Ok(Transport::Http)
    } else {
        Err(ProxyError::InvalidUrl)
    }
}

/// Picks the transport for a target by its scheme.
pub fn select_transport(target: &TargetUri) -> (r: Result<Transport, ProxyError>)
    ensures
        r == transport_for(target.scheme_view()),
{
    match &target.scheme {
        Some(s) => {
            if text_equal(s.as_str(), "https") {
                Ok(Transport::Https)
            } else if text_equal(s.as_str(), "http") {
                Ok(Transport::Http)
            } else {
                Err(ProxyError::InvalidUrl)
            }
        },
        None => Err(ProxyError::InvalidUrl),
    }
}

} // verus!
