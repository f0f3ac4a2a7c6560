use vstd::prelude::*;
use crate::error::ProxyError;
use crate::headers::{
    build_response_headers, default_headers, lookup, response_headers, security_headers,
    HeaderSeq, Headers,
};
use crate::options::EnvOptions;

verus! {

/// The request a client sent to the gateway. Only its method, query and
/// headers are read; it is never changed while it is being served.
pub struct ProxyRequest {
    pub method: String,
    pub path: String,
    pub query: Option<String>,
    pub headers: Headers,
}

impl ProxyRequest {
    pub open spec fn query_view(&self) -> Option<Seq<char>> {
        match self.query {
            Some(q) => Some(q@),
            None => None,
        }
    }
}

/// The status and headers of a response from the upstream server. Its body
/// stays with the caller, which relays it unchanged.
pub struct UpstreamResponse {
    pub status: u16,
    pub headers: Headers,
}

/// What a relayed response carries as its body.
pub enum ResponseBody {
    /// The body of the upstream response, unchanged.
    Upstream,
    /// A short text, such as an error tag.
    Text(String),
}

/// The response sent back to the client.
pub struct ProxyResponse {
    pub status: u16,
    pub headers: Headers,
    pub body: ResponseBody,
}

pub enum BodyView {
    Upstream,
    Text(Seq<char>),
}

pub struct ResponseView {
    pub status: u16,
    pub headers: HeaderSeq,
    pub body: BodyView,
}

impl View for ProxyResponse {
    type V = ResponseView;

    open spec fn view(&self) -> ResponseView {
        ResponseView {
            status: self.status,
            headers: self.headers@,
            body: match self.body {
                ResponseBody::Upstream => BodyView::Upstream,
                ResponseBody::Text(t) => BodyView::Text(t@),
            },
        }
    }
}

pub open spec fn is_success(status: u16) -> bool {
    200 <= status < 300
}

/// The response that reports `e`: status 400, the security headers, and the
/// error's tag as the body.
pub open spec fn error_response(e: ProxyError) -> ResponseView {
    ResponseView { status: 400, headers: security_headers(), body: BodyView::Text(e.tag_spec()) }
}

/// The response relayed for an upstream response that is not a redirect to
/// follow: the upstream status with the sanitized headers, unless a success
/// lacks an allowed `Content-Type`.
pub open spec fn proxied_response(
    status: u16,
    upstream: HeaderSeq,
    options: &EnvOptions,
) -> ResponseView {
    let relayed = ResponseView {
        status,
        headers: response_headers(upstream),
        body: BodyView::Upstream,
    };
    if !is_success(status) {
        relayed
    } else {
        match lookup(upstream, "Content-Type"@) {
            Some(ct) => if options.allows(ct) {
                relayed
            } else {
                error_response(ProxyError::InvalidContentType)
            },
            None => error_response(ProxyError::InvalidContentType),
        }
    }
}

impl ProxyResponse {
    /// Renders an error as a response.
    pub fn from_error(err: ProxyError) -> (r: ProxyResponse)
        ensures
            r@ == error_response(err),
    {
        ProxyResponse { status: 400, headers: default_headers(), body: ResponseBody::Text(err.tag()) }
    }
}

/// Sanitizes an upstream response for the client, and checks the content
/// type of a success against the allow-list.
pub fn build_proxy_response(response: UpstreamResponse, options: &EnvOptions) -> (r: ProxyResponse)
    ensures
        r@ == proxied_response(response.status, response.headers@, options),
{
    let headers = build_response_headers(&response.headers);
    let status = response.status;
    if !(200 <= status && status < 300) {
        return ProxyResponse { status, headers, body: ResponseBody::Upstream };
    }
    match response.headers.get("Content-Type") {
        Some(ct) => {
            if !options.is_valid_content_type(ct.as_str()) {
                return ProxyResponse::from_error(ProxyError::InvalidContentType);
            }
        },
        None => {
            return ProxyResponse::from_error(ProxyError::InvalidContentType);
        },
    }
    ProxyResponse { status, headers, body: ResponseBody::Upstream }
}

} // verus!
