use url_proxy::error::ProxyError;
use url_proxy::headers::Headers;
use url_proxy::machine::{handle_proxy_request, is_redirect_status, ProxyRequestState, Step};
use url_proxy::message::{ProxyRequest, ProxyResponse, ResponseBody, UpstreamResponse};
use url_proxy::options::EnvOptions;
use url_proxy::target::{get_redirect_uri, get_target_uri, select_transport, TargetUri, Transport};

fn request(method: &str, query: Option<&str>) -> ProxyRequest {
    ProxyRequest {
        method: method.to_string(),
        path: "/".to_string(),
        query: query.map(|q| q.to_string()),
        headers: Headers::new(),
    }
}

fn headers(pairs: &[(&str, &str)]) -> Headers {
    let mut h = Headers::new();
    for (n, v) in pairs {
        h.append(n, v.to_string());
    }
    h
}

fn options(max_redirects: &str) -> EnvOptions {
    EnvOptions::create(None, None, Some(max_redirects), None, vec!["image/png".to_string()]).unwrap()
}

fn redirect(status: u16, location: &str) -> Option<UpstreamResponse> {
    Some(UpstreamResponse { status, headers: headers(&[("Location", location)]) })
}

fn png() -> Option<UpstreamResponse> {
    Some(UpstreamResponse { status: 200, headers: headers(&[("Content-Type", "image/png")]) })
}

/// Serves a request against scripted upstream answers; returns the response,
/// the number of fetches and the URIs fetched.
fn drive(
    req: ProxyRequest,
    opts: &EnvOptions,
    answers: Vec<Option<UpstreamResponse>>,
) -> (ProxyResponse, usize, Vec<String>) {
    let mut answers = answers;
    answers.reverse();
    let mut fetched = Vec::new();
    let mut state = match handle_proxy_request(req) {
        Ok(s) => s,
        Err(r) => return (r, 0, fetched),
    };
    loop {
        match state.step(opts) {
            Step::Next(ProxyRequestState::Done { response, .. }) => {
                return (response, fetched.len(), fetched)
            }
            Step::Next(s) => state = s,
            Step::Fetch(pending) => {
                fetched.push(format!("{}", pending.outbound.target.uri()));
                let answer = answers.pop().expect("the upstream was asked once too often");
                state = pending.resume(answer);
            }
        }
    }
}

fn body_text(r: &ProxyResponse) -> Option<String> {
    match &r.body {
        ResponseBody::Text(t) => Some(t.clone()),
        ResponseBody::Upstream => None,
    }
}

#[test]
fn missing_query_is_rejected_without_fetch() {
    let (r, n, _) = drive(request("GET", None), &options("4"), vec![]);
    assert_eq!((r.status, n), (400, 0));
    assert_eq!(body_text(&r), Some("NoQueryParameter".to_string()));
    assert_eq!(r.headers.get("X-Content-Type-Options"), Some("nosniff".to_string()));
}

#[test]
fn query_without_q_is_rejected() {
    let (r, n, _) = drive(request("GET", Some("url=http%3A%2F%2Fa.test%2F")), &options("4"), vec![]);
    assert_eq!((r.status, n), (400, 0));
    assert_eq!(body_text(&r), Some("NoQueryParameter".to_string()));
}

#[test]
fn relative_target_is_invalid() {
    let (r, n, _) = drive(request("GET", Some("q=%2Fimg.png")), &options("4"), vec![]);
    assert_eq!((r.status, n), (400, 0));
    assert_eq!(body_text(&r), Some("InvalidUrl".to_string()));
}

#[test]
fn ftp_target_is_invalid_without_fetch() {
    let (r, n, _) = drive(request("GET", Some("q=ftp%3A%2F%2Ffiles.test%2Fa.png")), &options("4"), vec![]);
    assert_eq!((r.status, n), (400, 0));
    assert_eq!(body_text(&r), Some("InvalidUrl".to_string()));
}

#[test]
fn direct_success() {
    let (r, n, fetched) = drive(request("GET", Some("q=http%3A%2F%2Fa.test%2Fx.png")), &options("4"), vec![png()]);
    assert_eq!((r.status, n), (200, 1));
    assert!(matches!(r.body, ResponseBody::Upstream));
    assert_eq!(fetched, vec!["http://a.test/x.png".to_string()]);
    assert_eq!(r.headers.get("Cache-Control"), Some("public, max-age=31536000".to_string()));
}

#[test]
fn redirects_within_budget_are_followed() {
    let answers = vec![
        redirect(301, "https://b.test/1"),
        redirect(302, "http://c.test/2"),
        redirect(307, "https://d.test/3.png"),
        png(),
    ];
    let (r, n, fetched) = drive(request("GET", Some("q=http%3A%2F%2Fa.test%2F")), &options("3"), answers);
    assert_eq!((r.status, n), (200, 4));
    assert_eq!(
        fetched,
        vec![
            "http://a.test/".to_string(),
            "https://b.test/1".to_string(),
            "http://c.test/2".to_string(),
            "https://d.test/3.png".to_string(),
        ]
    );
}

#[test]
fn one_redirect_too_many() {
    let answers = vec![
        redirect(301, "http://a.test/1"),
        redirect(303, "http://a.test/2"),
        redirect(301, "http://a.test/3"),
    ];
    let (r, n, _) = drive(request("GET", Some("q=http%3A%2F%2Fa.test%2F")), &options("2"), answers);
    assert_eq!((r.status, n), (400, 3));
    assert_eq!(body_text(&r), Some("TooManyRedirects".to_string()));
}

#[test]
fn zero_budget_fetches_once() {
    let (r, n, _) = drive(request("GET", Some("q=http%3A%2F%2Fa.test%2F")), &options("0"), vec![redirect(302, "http://a.test/")]);
    assert_eq!((r.status, n), (400, 1));
    assert_eq!(body_text(&r), Some("TooManyRedirects".to_string()));
}

#[test]
fn not_modified_is_not_a_redirect() {
    let answer = Some(UpstreamResponse { status: 304, headers: headers(&[("Location", "http://a.test/other")]) });
    let (r, n, _) = drive(request("GET", Some("q=http%3A%2F%2Fa.test%2F")), &options("4"), vec![answer]);
    assert_eq!((r.status, n), (304, 1));
    assert!(matches!(r.body, ResponseBody::Upstream));
    assert_eq!(r.headers.get("X-Frame-Options"), Some("deny".to_string()));
}

#[test]
fn same_upstream_gives_same_outcome() {
    for _ in 0..2 {
        let answer = Some(UpstreamResponse { status: 304, headers: Headers::new() });
        let (r, n, _) = drive(request("GET", Some("q=http%3A%2F%2Fa.test%2F")), &options("4"), vec![answer]);
        assert_eq!((r.status, n), (304, 1));
    }
}

#[test]
fn redirect_without_location_is_bad() {
    let answer = Some(UpstreamResponse { status: 301, headers: Headers::new() });
    let (r, n, _) = drive(request("GET", Some("q=http%3A%2F%2Fa.test%2F")), &options("4"), vec![answer]);
    assert_eq!((r.status, n), (400, 1));
    assert_eq!(body_text(&r), Some("BadRedirect".to_string()));
}

#[test]
fn relative_redirect_is_invalid() {
    let (r, n, _) = drive(request("GET", Some("q=http%3A%2F%2Fa.test%2F")), &options("4"), vec![redirect(302, "/elsewhere")]);
    assert_eq!((r.status, n), (400, 1));
    assert_eq!(body_text(&r), Some("InvalidUrl".to_string()));
}

#[test]
fn transport_failure() {
    let (r, n, _) = drive(request("GET", Some("q=https%3A%2F%2Fa.test%2F")), &options("4"), vec![None]);
    assert_eq!((r.status, n), (400, 1));
    assert_eq!(body_text(&r), Some("RequestFailed".to_string()));
}

#[test]
fn success_with_wrong_type_after_redirect() {
    let html = Some(UpstreamResponse { status: 200, headers: headers(&[("Content-Type", "text/html")]) });
    let (r, n, _) = drive(request("GET", Some("q=http%3A%2F%2Fa.test%2F")), &options("4"), vec![redirect(301, "http://b.test/"), html]);
    assert_eq!((r.status, n), (400, 2));
    assert_eq!(body_text(&r), Some("InvalidContentType".to_string()));
}

#[test]
fn other_methods_are_refused() {
    let (r, n, _) = drive(request("POST", Some("q=http%3A%2F%2Fa.test%2F")), &options("4"), vec![]);
    assert_eq!((r.status, n), (405, 0));
    assert_eq!(body_text(&r), Some(String::new()));
    assert_eq!(r.headers.get("Strict-Transport-Security"), Some("max-age=31536000; includeSubDomains".to_string()));
}

#[test]
fn outbound_request_carries_policy_headers() {
    let mut req = request("GET", Some("q=https%3A%2F%2Fa.test%2Fp.png"));
    req.headers = headers(&[("Accept-Encoding", "gzip"), ("User-Agent", "client")]);
    let state = handle_proxy_request(req).ok().unwrap();
    let state = match state.step(&options("4")) {
        Step::Next(s) => s,
        Step::Fetch(_) => panic!("no fetch before the target is read"),
    };
    match state.step(&options("4")) {
        Step::Fetch(p) => {
            assert_eq!(p.outbound.transport, Transport::Https);
            assert_eq!(p.outbound.headers.get("Accept-Encoding"), Some("gzip".to_string()));
            assert_eq!(p.outbound.headers.get("User-Agent"), Some("stanistan".to_string()));
            assert_eq!(p.outbound.headers.get("Accept"), Some("image/*".to_string()));
            assert_eq!(p.retries_remaining, 4);
        }
        Step::Next(_) => panic!("expected a fetch"),
    }
}

#[test]
fn target_extraction() {
    let t = get_target_uri(&request("GET", Some("a=1&q=HTTPS%3A%2F%2FExample.test&q=http%3A%2F%2Fother.test%2F"))).ok().unwrap();
    assert_eq!(format!("{}", t.uri()), "https://example.test/");
    assert_eq!(t.scheme(), Some("https".to_string()));
    assert_eq!(select_transport(&t), Ok(Transport::Https));
    let t = get_target_uri(&request("GET", Some("q=http://plain.test/a+b"))).ok().unwrap();
    assert_eq!(select_transport(&t), Ok(Transport::Http));
    assert_eq!(get_target_uri(&request("GET", Some("q=not%20a%20url"))).err(), Some(ProxyError::InvalidUrl));
    assert_eq!(get_target_uri(&request("GET", Some(""))).err(), Some(ProxyError::NoQueryParameter));
}

#[test]
fn redirect_extraction() {
    let up = UpstreamResponse { status: 302, headers: headers(&[("location", "http://x.test/y")]) };
    let t = get_redirect_uri(&up).ok().unwrap();
    assert_eq!(t.scheme(), Some("http".to_string()));
    let up = UpstreamResponse { status: 302, headers: headers(&[("Location", "")]) };
    assert_eq!(get_redirect_uri(&up).err(), Some(ProxyError::BadRedirect));
    let rel = TargetUri::parse("/y").unwrap();
    assert_eq!(rel.scheme(), None);
    assert_eq!(select_transport(&rel), Err(ProxyError::InvalidUrl));
    assert_eq!(select_transport(&TargetUri::parse("ftp://f.test/").unwrap()), Err(ProxyError::InvalidUrl));
}

#[test]
fn redirect_statuses() {
    for s in [301u16, 302, 303, 307] {
        assert!(is_redirect_status(s));
    }
    for s in [300u16, 304, 305, 308, 200] {
        assert!(!is_redirect_status(s));
    }
}
