use vstd::prelude::*;
use crate::error::ProxyError;
use crate::headers::{build_outbound_headers, default_headers, outbound_headers, security_headers, HeaderSeq, Headers};
use crate::message::{
    build_proxy_response, error_response, proxied_response, BodyView, ProxyRequest,
    ProxyResponse, ResponseBody, ResponseView, UpstreamResponse,
};
use crate::options::EnvOptions;
use crate::target::{
    get_redirect_uri, get_target_uri, redirect_of, select_transport, target_of, transport_for,
    uri_scheme_of, TargetUri, Transport,
};
use crate::text::text_equal;

verus! {

/// The statuses of the redirects that are followed. Others, 304 among them,
/// end the exchange.
pub open spec fn is_redirect(status: u16) -> bool {
    status == 301 || status == 302 || status == 303 || status == 307
}

pub fn is_redirect_status(status: u16) -> (r: bool)
    ensures
        r == is_redirect(status),
{
    status == 301 || status == 302 || status == 303 || status == 307
}

pub struct RequestView {
    pub method: Seq<char>,
    pub path: Seq<char>,
    pub query: Option<Seq<char>>,
    pub headers: HeaderSeq,
}

impl View for ProxyRequest {
    type V = RequestView;

    open spec fn view(&self) -> RequestView {
        RequestView {
            method: self.method@,
            path: self.path@,
            query: self.query_view(),
            headers: self.headers@,
        }
    }
}

pub struct UpstreamView {
    pub status: u16,
    pub headers: HeaderSeq,
}

impl View for UpstreamResponse {
    type V = UpstreamView;

    open spec fn view(&self) -> UpstreamView {
        UpstreamView { status: self.status, headers: self.headers@ }
    }
}

/// Where the serving of one request stands.
pub enum ProxyRequestState {
    /// The request as received, not yet validated.
    Incoming { request: ProxyRequest },
    /// A fetch of `target` is to be made, with `retries_remaining` redirects
    /// left to follow.
    Proxy { request: ProxyRequest, target: TargetUri, retries_remaining: usize },
    /// An upstream response has arrived and is to be classified.
    ProxyProcessing {
        request: ProxyRequest,
        upstream: UpstreamResponse,
        retries_remaining: usize,
    },
    /// Serving failed; the error is yet to be rendered.
    Invalid { request: ProxyRequest, error: ProxyError },
    /// The response to send back.
    Done { request: ProxyRequest, response: ProxyResponse },
}

/// The model of a state. A target is seen as the text it was parsed from.
pub enum StateView {
    Incoming { request: RequestView },
    Proxy { request: RequestView, target: Seq<char>, retries: usize },
    Processing { request: RequestView, upstream: UpstreamView, retries: usize },
    Invalid { request: RequestView, error: ProxyError },
    Done { request: RequestView, response: ResponseView },
}

impl View for ProxyRequestState {
    type V = StateView;

    open spec fn view(&self) -> StateView {
        match self {
            ProxyRequestState::Incoming { request } => StateView::Incoming { request: request@ },
            ProxyRequestState::Proxy { request, target, retries_remaining } => StateView::Proxy {
                request: request@,
                target: target.source(),
                retries: *retries_remaining,
            },
            ProxyRequestState::ProxyProcessing { request, upstream, retries_remaining } =>
                StateView::Processing {
                request: request@,
                upstream: upstream@,
                retries: *retries_remaining,
            },
            ProxyRequestState::Invalid { request, error } => StateView::Invalid {
                request: request@,
                error: *error,
            },
            ProxyRequestState::Done { request, response } => StateView::Done {
                request: request@,
                response: response@,
            },
        }
    }
}

impl ProxyRequestState {
    /// Every target held is well formed.
    pub open spec fn wf(&self) -> bool {
        match self {
            ProxyRequestState::Proxy { target, .. } => target.wf(),
            _ => true,
        }
    }
}

/// The fetch to make upstream: always a GET, with no body.
pub struct OutboundRequest {
    pub transport: Transport,
    pub target: TargetUri,
    pub headers: Headers,
}

/// A fetch that is under way, with what is needed to go on once it ends.
pub struct PendingFetch {
    pub request: ProxyRequest,
    pub retries_remaining: usize,
    pub outbound: OutboundRequest,
}

pub struct FetchView {
    pub request: RequestView,
    pub retries: usize,
    pub transport: Transport,
    pub target: Seq<char>,
    pub headers: HeaderSeq,
}

impl View for PendingFetch {
    type V = FetchView;

    open spec fn view(&self) -> FetchView {
        FetchView {
            request: self.request@,
            retries: self.retries_remaining,
            transport: self.outbound.transport,
            target: self.outbound.target.source(),
            headers: self.outbound.headers@,
        }
    }
}

/// The outcome of one step: the next state, or a fetch to make first.
pub enum Step {
    Next(ProxyRequestState),
    Fetch(PendingFetch),
}

pub enum StepView {
    Next(StateView),
    Fetch(FetchView),
}

impl View for Step {
    type V = StepView;

    open spec fn view(&self) -> StepView {
        match self {
            Step::Next(s) => StepView::Next(s@),
            Step::Fetch(f) => StepView::Fetch(f@),
        }
    }
}

impl Step {
    pub open spec fn wf(&self) -> bool {
        match self {
            Step::Next(s) => s.wf(),
            Step::Fetch(f) => f.outbound.target.wf(),
        }
    }
}

/// The scheme of a well-formed target parsed from `source`.
pub open spec fn scheme_of(source: Seq<char>) -> Option<Seq<char>> {
    match uri_scheme_of(source) {
        Some(s) => s,
        None => None,
    }
}

/// One transition of the machine.
pub open spec fn step_model(s: StateView, options: &EnvOptions) -> StepView {
    match s {
        StateView::Incoming { request } => match target_of(request.query) {
            Ok(target) => StepView::Next(
                StateView::Proxy { request, target, retries: options.max_number_redirects },
            ),
            Err(error) => StepView::Next(StateView::Invalid { request, error }),
        },
        StateView::Proxy { request, target, retries } => match transport_for(scheme_of(target)) {
            Ok(transport) => StepView::Fetch(
                FetchView {
                    request,
                    retries,
                    transport,
                    target,
                    headers: outbound_headers(request.headers, options.user_agent@),
                },
            ),
            Err(error) => StepView::Next(StateView::Invalid { request, error }),
        },
        StateView::Processing { request, upstream, retries } => if is_redirect(upstream.status) {
            if retries == 0 {
                StepView::Next(
                    StateView::Invalid { request, error: ProxyError::TooManyRedirects },
                )
            } else {
                match redirect_of(upstream.headers) {
                    Ok(target) => StepView::Next(
                        StateView::Proxy { request, target, retries: (retries - 1) as usize },
                    ),
                    Err(error) => StepView::Next(StateView::Invalid { request, error }),
                }
            }
        } else {
            StepView::Next(
                StateView::Done {
                    request,
                    response: proxied_response(upstream.status, upstream.headers, options),
                },
            )
        },
        StateView::Invalid { request, error } => StepView::Next(
            StateView::Done { request, response: error_response(error) },
        ),
        StateView::Done { .. } => StepView::Next(s),
    }
}

/// The state after a fetch ends: with the upstream response, or `None`
/// where the transport failed.
pub open spec fn resume_model(f: FetchView, outcome: Option<UpstreamView>) -> StateView {
    match outcome {
        Some(upstream) => StateView::Processing {
            request: f.request,
            upstream,
            retries: f.retries,
        },
        None => StateView::Invalid { request: f.request, error: ProxyError::RequestFailed },
    }
}

impl ProxyRequestState {
    /// Makes one transition.
    pub fn step(self, options: &EnvOptions) -> (r: Step)
        requires
            self.wf(),
        ensures
            r.wf(),
            r@ == step_model(self@, options),
    {
        match self {
            ProxyRequestState::Incoming { request } => match get_target_uri(&request) {
                Ok(target) => Step::Next(
                    ProxyRequestState::Proxy {
                        request,
                        target,
                        retries_remaining: options.max_number_redirects,
                    },
                ),
                Err(error) => Step::Next(ProxyRequestState::Invalid { request, error }),
            },
            ProxyRequestState::Proxy { request, target, retries_remaining } => {
                let headers = build_outbound_headers(&request.headers, options.user_agent.as_str());
                match select_transport(&target) {
                    Ok(transport) => Step::Fetch(
                        PendingFetch {
                            request,
                            retries_remaining,
                            outbound: OutboundRequest { transport, target, headers },
                        },
                    ),
                    Err(error) => Step::Next(ProxyRequestState::Invalid { request, error }),
                }
            },
            ProxyRequestState::ProxyProcessing { request, upstream, retries_remaining } => {
                if is_redirect_status(upstream.status) {
                    if retries_remaining == 0 {
                        Step::Next(
                            ProxyRequestState::Invalid {
                                request,
                                error: ProxyError::TooManyRedirects,
                            },
                        )
                    } else {
                        match get_redirect_uri(&upstream) {
                            Ok(target) => Step::Next(
                                ProxyRequestState::Proxy {
                                    request,
                                    target,
                                    retries_remaining: retries_remaining - 1,
                                },
                            ),
                            Err(error) => Step::Next(ProxyRequestState::Invalid { request, error }),
                        }
                    }
                } else {
                    let response = build_proxy_response(upstream, options);
                    Step::Next(ProxyRequestState::Done { request, response })
                }
            },
            ProxyRequestState::Invalid { request, error } => Step::Next(
                ProxyRequestState::Done { request, response: ProxyResponse::from_error(error) },
            ),
            ProxyRequestState::Done { request, response } => Step::Next(
                ProxyRequestState::Done { request, response },
            ),
        }
    }
}

impl PendingFetch {
    /// Goes on after the fetch: `outcome` is the upstream response, or
    /// `None` where the transport failed.
    pub fn resume(self, outcome: Option<UpstreamResponse>) -> (r: ProxyRequestState)
        ensures
            r.wf(),
            r@ == resume_model(
                self@,
                match outcome {
                    Some(u) => Some(u@),
                    None => None,
                },
            ),
    {
        match outcome {
            Some(upstream) => ProxyRequestState::ProxyProcessing {
                request: self.request,
                upstream,
                retries_remaining: self.retries_remaining,
            },
            None => ProxyRequestState::Invalid {
                request: self.request,
                error: ProxyError::RequestFailed,
            },
        }
    }
}

/// The response to a request whose method is not served: status 405, the
/// security headers and an empty body.
pub open spec fn method_not_allowed() -> ResponseView {
    ResponseView { status: 405, headers: security_headers(), body: BodyView::Text(Seq::empty()) }
}

/// Admits a client request: a GET enters the machine, any other method is
/// answered at once with 405.
pub fn handle_proxy_request(request: ProxyRequest) -> (r: Result<ProxyRequestState, ProxyResponse>)
    ensures
        request.method@ == "GET"@ ==> (r matches Ok(s) && s.wf() && s@ == (StateView::Incoming {
            request: request@,
        })),
        request.method@ != "GET"@ ==> (r matches Err(resp) && resp@ == method_not_allowed()),
{
    if text_equal(request.method.as_str(), "GET") {
        Ok(ProxyRequestState::Incoming { request })
    } else {
        let response = ProxyResponse {
            status: 405,
            headers: default_headers(),
            body: ResponseBody::Text(String::new()),
        };
        assert(response@.body == BodyView::Text(Seq::empty()));
        Err(response)
    }
}

} // verus!
