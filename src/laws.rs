use vstd::prelude::*;
use crate::error::ProxyError;
use crate::headers::{
    copy_one, lookup, or_default, outbound_headers, response_headers, security_headers, HeaderSeq,
};
use crate::machine::{
    method_not_allowed,
    is_redirect, resume_model, FetchView, scheme_of, step_model, RequestView, StateView, StepView,
    UpstreamView,
};
use crate::message::{error_response, is_success, proxied_response, BodyView, ResponseView};
use crate::options::EnvOptions;
use crate::target::{redirect_of, target_of, transport_for};
use crate::text::{folded_code, same_name};

verus! {

/// The state reached from `s` in at most `fuel` steps when the upstream
/// answers the fetches with `answers` in turn (`None` for a transport
/// failure), and the number of fetches made. The run stops early at `Done`,
/// or where a fetch finds no answer left.
pub open spec fn run(
    s: StateView,
    options: &EnvOptions,
    answers: Seq<Option<UpstreamView>>,
    fuel: nat,
) -> (StateView, nat)
    decreases fuel,
{
    if fuel == 0 || s is Done {
        (s, 0)
    } else {
        match step_model(s, options) {
            StepView::Next(t) => run(t, options, answers, (fuel - 1) as nat),
            StepView::Fetch(f) => if answers.len() == 0 {
                (s, 0)
            } else {
                let (e, c) = run(
                    resume_model(f, answers[0]),
                    options,
                    answers.drop_first(),
                    (fuel - 1) as nat,
                );
                (e, c + 1)
            },
        }
    }
}

/// A target that one of the transports can fetch.
pub open spec fn fetchable(target: Seq<char>) -> bool {
    transport_for(scheme_of(target)) is Ok
}

/// An answer that redirects to a fetchable target.
pub open spec fn followable_redirect(a: Option<UpstreamView>) -> bool {
    a matches Some(u) && is_redirect(u.status) && (redirect_of(u.headers) matches Ok(t)
        && fetchable(t))
}

/// A success whose content type is allowed.
pub open spec fn accepted_success(a: Option<UpstreamView>, options: &EnvOptions) -> bool {
    a matches Some(u) && is_success(u.status) && (lookup(u.headers, "Content-Type"@) matches Some(
        ct,
    ) && options.allows(ct))
}

/// The response that relays an upstream response.
pub open spec fn relayed(u: UpstreamView) -> ResponseView {
    ResponseView { status: u.status, headers: response_headers(u.headers), body: BodyView::Upstream }
}

proof fn lemma_follow_to_success(
    request: RequestView,
    target: Seq<char>,
    n: usize,
    options: &EnvOptions,
    answers: Seq<Option<UpstreamView>>,
    k: nat,
    fuel: nat,
)
    requires
        fetchable(target),
        k <= n,
        answers.len() > k,
        forall|i: int| 0 <= i < k ==> followable_redirect(#[trigger] answers[i]),
        accepted_success(answers[k as int], options),
        fuel >= 2 * k + 2,
    ensures
        run(StateView::Proxy { request, target, retries: n }, options, answers, fuel) == (
        StateView::Done { request, response: relayed(answers[k as int]->Some_0) },
        k + 1,
        ),
    decreases k,
{
    let s = StateView::Proxy { request, target, retries: n };
    let f = FetchView {
        request,
        retries: n,
        transport: transport_for(scheme_of(target))->Ok_0,
        target,
        headers: outbound_headers(request.headers, options.user_agent@),
    };
    assert(step_model(s, options) == StepView::Fetch(f));
    let p = resume_model(f, answers[0]);
    let rest = answers.drop_first();
    if k == 0 {
        let u = answers[0]->Some_0;
        assert(!is_redirect(u.status));
        assert(proxied_response(u.status, u.headers, options) == relayed(u));
        let done = StateView::Done { request, response: relayed(u) };
        assert(run(done, options, rest, (fuel - 2) as nat) == (done, 0nat));
        assert(run(p, options, rest, (fuel - 1) as nat) == (
        StateView::Done { request, response: relayed(u) },
        0nat,
        ));
    } else {
        assert(followable_redirect(answers[0]));
        let t = redirect_of(answers[0]->Some_0.headers)->Ok_0;
        let q = StateView::Proxy { request, target: t, retries: (n - 1) as usize };
        assert(step_model(p, options) == StepView::Next(q));
        assert forall|i: int| 0 <= i < k - 1 implies followable_redirect(#[trigger] rest[i]) by {
            assert(rest[i] == answers[i + 1]);
        }
        assert(rest[k - 1] == answers[k as int]);
        lemma_follow_to_success(request, t, (n - 1) as usize, options, rest, (k - 1) as nat, (fuel - 2) as nat);
        assert(run(p, options, rest, (fuel - 1) as nat) == run(q, options, rest, (fuel - 2) as nat));
    }
}

/// A request whose target redirects `k` times, within the configured bound,
/// each time to an http(s) target, and then answers with a success of an
/// allowed content type, gets that success relayed, after exactly `k + 1`
/// fetches.
pub proof fn lemma_redirects_then_success(
    request: RequestView,
    options: &EnvOptions,
    answers: Seq<Option<UpstreamView>>,
    k: nat,
    fuel: nat,
)
    requires
        target_of(request.query) matches Ok(t) && fetchable(t),
        k <= options.max_number_redirects,
        answers.len() == k + 1,
        forall|i: int| 0 <= i < k ==> followable_redirect(#[trigger] answers[i]),
        accepted_success(answers[k as int], options),
        fuel >= 2 * k + 3,
    ensures
        run(StateView::Incoming { request }, options, answers, fuel) == (
        StateView::Done { request, response: relayed(answers[k as int]->Some_0) },
        k + 1,
        ),
{
    let t = target_of(request.query)->Ok_0;
    lemma_follow_to_success(request, t, options.max_number_redirects, options, answers, k, (fuel - 1) as nat);
}

proof fn lemma_exhaust_budget(
    request: RequestView,
    target: Seq<char>,
    n: usize,
    options: &EnvOptions,
    answers: Seq<Option<UpstreamView>>,
    fuel: nat,
)
    requires
        fetchable(target),
        answers.len() > n,
        forall|i: int| 0 <= i <= n ==> followable_redirect(#[trigger] answers[i]),
        fuel >= 2 * n + 3,
    ensures
        run(StateView::Proxy { request, target, retries: n }, options, answers, fuel) == (
        StateView::Done { request, response: error_response(ProxyError::TooManyRedirects) },
        (n + 1) as nat,
        ),
    decreases n,
{
    let s = StateView::Proxy { request, target, retries: n };
    let f = FetchView {
        request,
        retries: n,
        transport: transport_for(scheme_of(target))->Ok_0,
        target,
        headers: outbound_headers(request.headers, options.user_agent@),
    };
    assert(step_model(s, options) == StepView::Fetch(f));
    let p = resume_model(f, answers[0]);
    let rest = answers.drop_first();
    assert(followable_redirect(answers[0]));
    if n == 0 {
        let inv = StateView::Invalid { request, error: ProxyError::TooManyRedirects };
        assert(step_model(p, options) == StepView::Next(inv));
        let done = StateView::Done {
            request,
            response: error_response(ProxyError::TooManyRedirects),
        };
        assert(run(done, options, rest, (fuel - 3) as nat) == (done, 0nat));
        assert(run(inv, options, rest, (fuel - 2) as nat) == (done, 0nat));
        assert(run(p, options, rest, (fuel - 1) as nat) == (
        StateView::Done { request, response: error_response(ProxyError::TooManyRedirects) },
        0nat,
        ));
    } else {
        let t = redirect_of(answers[0]->Some_0.headers)->Ok_0;
        let q = StateView::Proxy { request, target: t, retries: (n - 1) as usize };
        assert(step_model(p, options) == StepView::Next(q));
        assert forall|i: int| 0 <= i <= n - 1 implies followable_redirect(#[trigger] rest[i]) by {
            assert(rest[i] == answers[i + 1]);
        }
        lemma_exhaust_budget(request, t, (n - 1) as usize, options, rest, (fuel - 2) as nat);
        assert(run(p, options, rest, (fuel - 1) as nat) == run(q, options, rest, (fuel - 2) as nat));
    }
}

/// A request whose target keeps redirecting, each time to an http(s)
/// target, one time more than the configured bound, fails with
/// `TooManyRedirects` after exactly that many fetches: the bound is spent
/// one fetch at a time.
pub proof fn lemma_too_many_redirects(
    request: RequestView,
    options: &EnvOptions,
    answers: Seq<Option<UpstreamView>>,
    fuel: nat,
)
    requires
        target_of(request.query) matches Ok(t) && fetchable(t),
        answers.len() == options.max_number_redirects + 1,
        forall|i: int| 0 <= i < answers.len() ==> followable_redirect(#[trigger] answers[i]),
        fuel >= 2 * options.max_number_redirects + 4,
    ensures
        run(StateView::Incoming { request }, options, answers, fuel) == (
        StateView::Done { request, response: error_response(ProxyError::TooManyRedirects) },
        (options.max_number_redirects + 1) as nat,
        ),
{
    let t = target_of(request.query)->Ok_0;
    lemma_exhaust_budget(request, t, options.max_number_redirects, options, answers, (fuel - 1) as nat);
}

/// A request without a usable `q` parameter is answered with 400 and the
/// tag `NoQueryParameter` or `InvalidUrl`, and nothing is fetched.
pub proof fn lemma_bad_target_fetches_nothing(
    request: RequestView,
    options: &EnvOptions,
    answers: Seq<Option<UpstreamView>>,
    fuel: nat,
)
    requires
        target_of(request.query) is Err,
        fuel >= 2,
    ensures
        target_of(request.query)->Err_0 == ProxyError::NoQueryParameter || target_of(
            request.query,
        )->Err_0 == ProxyError::InvalidUrl,
        run(StateView::Incoming { request }, options, answers, fuel) == (
        StateView::Done {
            request,
            response: error_response(target_of(request.query)->Err_0),
        },
        0nat,
        ),
{
    let e = target_of(request.query)->Err_0;
    let inv = StateView::Invalid { request, error: e };
    assert(step_model(StateView::Incoming { request }, options) == StepView::Next(inv));
    let done = StateView::Done { request, response: error_response(e) };
    assert(run(done, options, answers, (fuel - 2) as nat) == (done, 0nat));
    assert(run(inv, options, answers, (fuel - 1) as nat) == (
    StateView::Done { request, response: error_response(e) },
    0nat,
    ));
}

/// A target whose scheme is neither `http` nor `https` (or that has none)
/// fails with `InvalidUrl` without being fetched.
pub proof fn lemma_unsupported_scheme_fetches_nothing(
    request: RequestView,
    target: Seq<char>,
    retries: usize,
    options: &EnvOptions,
    answers: Seq<Option<UpstreamView>>,
    fuel: nat,
)
    requires
        scheme_of(target) != Some("http"@),
        scheme_of(target) != Some("https"@),
        fuel >= 2,
    ensures
        step_model(StateView::Proxy { request, target, retries }, options) == StepView::Next(
            StateView::Invalid { request, error: ProxyError::InvalidUrl },
        ),
        run(StateView::Proxy { request, target, retries }, options, answers, fuel) == (
        StateView::Done { request, response: error_response(ProxyError::InvalidUrl) },
        0nat,
        ),
{
    let inv = StateView::Invalid { request, error: ProxyError::InvalidUrl };
    let done = StateView::Done { request, response: error_response(ProxyError::InvalidUrl) };
    assert(run(done, options, answers, (fuel - 2) as nat) == (done, 0nat));
    assert(run(inv, options, answers, (fuel - 1) as nat) == (
    StateView::Done { request, response: error_response(ProxyError::InvalidUrl) },
    0nat,
    ));
}

/// An upstream response that is neither a followed redirect nor a success,
/// such as 304, ends the exchange: it is relayed with its status, without a
/// content-type check.
pub proof fn lemma_other_statuses_relayed(
    request: RequestView,
    upstream: UpstreamView,
    retries: usize,
    options: &EnvOptions,
)
    requires
        !is_redirect(upstream.status),
        !is_success(upstream.status),
    ensures
        step_model(StateView::Processing { request, upstream, retries }, options)
            == StepView::Next(StateView::Done { request, response: relayed(upstream) }),
{
}

/// A success without a `Content-Type`, or with one that is not allowed, is
/// answered with 400 `InvalidContentType`.
pub proof fn lemma_success_needs_allowed_type(status: u16, upstream: HeaderSeq, options: &EnvOptions)
    requires
        is_success(status),
        !(lookup(upstream, "Content-Type"@) matches Some(ct) && options.allows(ct)),
    ensures
        proxied_response(status, upstream, options) == error_response(
            ProxyError::InvalidContentType,
        ),
{
}

/// `hs` begins with the security headers.
pub open spec fn has_security_headers(hs: HeaderSeq) -> bool {
    hs.len() >= 5 && hs.subrange(0, 5) == security_headers()
}

proof fn lemma_extend_secure(hs: HeaderSeq, more: HeaderSeq)
    requires
        has_security_headers(hs),
    ensures
        has_security_headers(hs + more),
{
    assert((hs + more).subrange(0, 5) =~= hs.subrange(0, 5));
}

proof fn lemma_response_headers_secure(upstream: HeaderSeq)
    ensures
        has_security_headers(security_headers()),
        has_security_headers(response_headers(upstream)),
{
    let sec = security_headers();
    assert(sec.subrange(0, 5) =~= sec);
    let cache = or_default(upstream, "Cache-Control"@, "public, max-age=31536000"@);
    let a = sec + cache;
    lemma_extend_secure(sec, cache);
    let b = a + copy_one(upstream, "Content-Type"@);
    lemma_extend_secure(a, copy_one(upstream, "Content-Type"@));
    let c = b + copy_one(upstream, "ETag"@);
    lemma_extend_secure(b, copy_one(upstream, "ETag"@));
    let d = c + copy_one(upstream, "Expires"@);
    lemma_extend_secure(c, copy_one(upstream, "Expires"@));
    let e = d + copy_one(upstream, "Last-Modified"@);
    lemma_extend_secure(d, copy_one(upstream, "Last-Modified"@));
    let f = e + copy_one(upstream, "Content-Length"@);
    lemma_extend_secure(e, copy_one(upstream, "Content-Length"@));
    let g = f + copy_one(upstream, "Transfer-Encoding"@);
    lemma_extend_secure(f, copy_one(upstream, "Transfer-Encoding"@));
    lemma_extend_secure(g, copy_one(upstream, "Content-Encoding"@));
}

/// A state that is `Done` holds a response with the security headers.
pub open spec fn done_secure(s: StateView) -> bool {
    s matches StateView::Done { response, .. } ==> has_security_headers(response.headers)
}

proof fn lemma_run_secure(
    s: StateView,
    options: &EnvOptions,
    answers: Seq<Option<UpstreamView>>,
    fuel: nat,
)
    requires
        done_secure(s),
    ensures
        done_secure(run(s, options, answers, fuel).0),
    decreases fuel,
{
    if fuel > 0 && !(s is Done) {
        match s {
            StateView::Processing { upstream, .. } => {
                lemma_response_headers_secure(upstream.headers);
            },
            _ => {
                lemma_response_headers_secure(Seq::empty());
            },
        }
        match step_model(s, options) {
            StepView::Next(t) => {
                lemma_run_secure(t, options, answers, (fuel - 1) as nat);
            },
            StepView::Fetch(f) => {
                if answers.len() > 0 {
                    lemma_run_secure(
                        resume_model(f, answers[0]),
                        options,
                        answers.drop_first(),
                        (fuel - 1) as nat,
                    );
                }
            },
        }
    }
}

/// Every response, a relayed one or an error, and the refusal of a method,
/// begins with the same security headers.
pub proof fn lemma_security_headers_always(
    request: RequestView,
    options: &EnvOptions,
    answers: Seq<Option<UpstreamView>>,
    fuel: nat,
    upstream: HeaderSeq,
    e: ProxyError,
)
    ensures
        run(StateView::Incoming { request }, options, answers, fuel).0 matches StateView::Done {
            response,
            ..
        } ==> has_security_headers(response.headers),
        has_security_headers(response_headers(upstream)),
        has_security_headers(error_response(e).headers),
        has_security_headers(method_not_allowed().headers),
{
    lemma_response_headers_secure(upstream);
    lemma_run_secure(StateView::Incoming { request }, options, answers, fuel);
}

proof fn lemma_lookup_append(a: HeaderSeq, b: HeaderSeq, name: Seq<char>)
    ensures
        lookup(a + b, name) == match lookup(a, name) {
            Some(v) => Some(v),
            None => lookup(b, name),
        },
    decreases a.len(),
{
    if a.len() == 0 {
        assert(a + b =~= b);
    } else {
        assert((a + b).drop_first() =~= a.drop_first() + b);
        lemma_lookup_append(a.drop_first(), b, name);
    }
}

proof fn lemma_lookup_absent(hs: HeaderSeq, name: Seq<char>)
    requires
        forall|i: int| 0 <= i < hs.len() ==> !same_name(#[trigger] hs[i].0, name),
    ensures
        lookup(hs, name) is None,
    decreases hs.len(),
{
    if hs.len() > 0 {
        assert(!same_name(hs[0].0, name));
        assert forall|i: int| 0 <= i < hs.drop_first().len() implies !same_name(
            #[trigger] hs.drop_first()[i].0,
            name,
        ) by {
            assert(hs.drop_first()[i] == hs[i + 1]);
        }
        lemma_lookup_absent(hs.drop_first(), name);
    }
}

/// The request sent upstream carries the client's `Accept-Encoding`
/// unchanged, or none where the client sent none; and where the client sent
/// no `Accept`, it asks for `image/*`.
pub proof fn lemma_outbound_accept_headers(inbound: HeaderSeq, user_agent: Seq<char>)
    ensures
        lookup(outbound_headers(inbound, user_agent), "Accept-Encoding"@) == lookup(
            inbound,
            "Accept-Encoding"@,
        ),
        lookup(inbound, "Accept"@) is None ==> lookup(
            outbound_headers(inbound, user_agent),
            "Accept"@,
        ) == Some("image/*"@),
{
    reveal_strlit("X-Frame-Options");
    reveal_strlit("X-XSS-Protection");
    reveal_strlit("X-Content-Type-Options");
    reveal_strlit("Content-Security-Policy");
    reveal_strlit("Strict-Transport-Security");
    reveal_strlit("User-Agent");
    reveal_strlit("Accept");
    reveal_strlit("Accept-Encoding");
    let ae = "Accept-Encoding"@;
    let acc = "Accept"@;
    let head = security_headers().push(("User-Agent"@, user_agent));
    let defaulted = or_default(inbound, acc, "image/*"@);
    let copied = copy_one(inbound, ae);
    assert forall|i: int| 0 <= i < head.len() implies !same_name(#[trigger] head[i].0, ae) by {
        if i == 0 {
            assert(folded_code(head[i].0[0]) != folded_code(ae[0]));
        }
    }
    assert forall|i: int| 0 <= i < head.len() implies !same_name(#[trigger] head[i].0, acc) by {
    }
    lemma_lookup_absent(head, ae);
    lemma_lookup_absent(head, acc);
    assert(!same_name(defaulted[0].0, ae));
    lemma_lookup_absent(defaulted, ae);
    lemma_lookup_append(head, defaulted, ae);
    lemma_lookup_append(head + defaulted, copied, ae);
    lemma_lookup_append(head, defaulted, acc);
    lemma_lookup_append(head + defaulted, copied, acc);
    assert(same_name(ae, ae));
    assert(same_name(acc, acc));
}

} // verus!
