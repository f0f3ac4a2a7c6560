use url_proxy::error::ProxyError;
use url_proxy::headers::{build_outbound_headers, build_response_headers, default_headers, Headers};
use url_proxy::message::{build_proxy_response, ProxyResponse, ResponseBody, UpstreamResponse};
use url_proxy::options::{parse_usize, ConfigError, EnvOptions};
use url_proxy::text::{names_match, text_equal};

fn headers(pairs: &[(&str, &str)]) -> Headers {
    let mut h = Headers::new();
    for (n, v) in pairs {
        h.append(n, v.to_string());
    }
    h
}

fn pairs(h: &Headers) -> Vec<(String, String)> {
    h.entries().clone()
}

fn options(mime_types: &[&str]) -> EnvOptions {
    EnvOptions::create(None, None, None, None, mime_types.iter().map(|s| s.to_string()).collect())
        .unwrap()
}

fn security() -> Vec<(String, String)> {
    vec![
        ("X-Frame-Options".to_string(), "deny".to_string()),
        ("X-XSS-Protection".to_string(), "1; mode=block".to_string()),
        ("X-Content-Type-Options".to_string(), "nosniff".to_string()),
        (
            "Content-Security-Policy".to_string(),
            "default-src 'none'; img-src data:; style-src 'unsafe-inline'".to_string(),
        ),
        (
            "Strict-Transport-Security".to_string(),
            "max-age=31536000; includeSubDomains".to_string(),
        ),
    ]
}

fn body_text(r: &ProxyResponse) -> Option<String> {
    match &r.body {
        ResponseBody::Text(t) => Some(t.clone()),
        ResponseBody::Upstream => None,
    }
}

#[test]
fn error_tags() {
    assert_eq!(ProxyError::NoQueryParameter.tag(), "NoQueryParameter");
    assert_eq!(ProxyError::InvalidUrl.tag(), "InvalidUrl");
    assert_eq!(ProxyError::TooManyRedirects.tag(), "TooManyRedirects");
    assert_eq!(ProxyError::BadRedirect.tag(), "BadRedirect");
    assert_eq!(ProxyError::InvalidContentType.tag(), "InvalidContentType");
    assert_eq!(ProxyError::RequestFailed.tag(), "RequestFailed");
}

#[test]
fn names_compare_without_case() {
    assert!(names_match("Content-Type", "content-type"));
    assert!(names_match("ETAG", "ETag"));
    assert!(!names_match("Accept", "Accept-Encoding"));
    assert!(!names_match("Accept", "Accepu"));
    assert!(text_equal("q", "q"));
    assert!(!text_equal("Q", "q"));
}

#[test]
fn header_lookup_takes_first_match() {
    let h = headers(&[("content-type", "image/png"), ("Content-Type", "text/html")]);
    assert_eq!(h.get("Content-Type"), Some("image/png".to_string()));
    assert_eq!(h.get("ETag"), None);
    assert_eq!(h.len(), 2);
}

#[test]
fn default_headers_are_the_security_headers() {
    assert_eq!(pairs(&default_headers()), security());
}

#[test]
fn outbound_forwards_accept_encoding() {
    let inbound = headers(&[("accept-encoding", "gzip"), ("User-Agent", "curl/8")]);
    let out = build_outbound_headers(&inbound, "gateway");
    let mut expected = security();
    expected.push(("User-Agent".to_string(), "gateway".to_string()));
    expected.push(("Accept".to_string(), "image/*".to_string()));
    expected.push(("Accept-Encoding".to_string(), "gzip".to_string()));
    assert_eq!(pairs(&out), expected);
}

#[test]
fn outbound_defaults_accept_to_images() {
    let out = build_outbound_headers(&Headers::new(), "stanistan");
    assert_eq!(out.get("Accept"), Some("image/*".to_string()));
    assert_eq!(out.get("Accept-Encoding"), None);
    assert_eq!(out.get("User-Agent"), Some("stanistan".to_string()));
    assert_eq!(out.len(), 7);
}

#[test]
fn outbound_keeps_client_accept() {
    let inbound = headers(&[("Accept", "image/webp")]);
    let out = build_outbound_headers(&inbound, "ua");
    assert_eq!(out.get("Accept"), Some("image/webp".to_string()));
}

#[test]
fn response_headers_copy_and_default_cache_control() {
    let up = headers(&[
        ("Content-Type", "image/png"),
        ("ETag", "\"abc\""),
        ("Set-Cookie", "a=b"),
        ("content-length", "12"),
    ]);
    let out = build_response_headers(&up);
    let mut expected = security();
    expected.push(("Cache-Control".to_string(), "public, max-age=31536000".to_string()));
    expected.push(("Content-Type".to_string(), "image/png".to_string()));
    expected.push(("ETag".to_string(), "\"abc\"".to_string()));
    expected.push(("Content-Length".to_string(), "12".to_string()));
    assert_eq!(pairs(&out), expected);
    assert_eq!(out.get("Set-Cookie"), None);
}

#[test]
fn response_headers_keep_upstream_cache_control() {
    let up = headers(&[("cache-control", "no-store"), ("Expires", "0")]);
    let out = build_response_headers(&up);
    assert_eq!(out.get("Cache-Control"), Some("no-store".to_string()));
    assert_eq!(out.get("Expires"), Some("0".to_string()));
}

#[test]
fn success_with_allowed_type_is_relayed() {
    let up = UpstreamResponse { status: 200, headers: headers(&[("Content-Type", "IMAGE/PNG")]) };
    let r = build_proxy_response(up, &options(&["image/png"]));
    assert_eq!(r.status, 200);
    assert!(matches!(r.body, ResponseBody::Upstream));
    assert_eq!(r.headers.get("Content-Type"), Some("IMAGE/PNG".to_string()));
    assert_eq!(r.headers.get("X-Frame-Options"), Some("deny".to_string()));
}

#[test]
fn success_without_content_type_is_refused() {
    let up = UpstreamResponse { status: 200, headers: headers(&[("ETag", "x")]) };
    let r = build_proxy_response(up, &options(&["image/png"]));
    assert_eq!(r.status, 400);
    assert_eq!(body_text(&r), Some("InvalidContentType".to_string()));
    assert_eq!(pairs(&r.headers), security());
}

#[test]
fn success_with_unlisted_type_is_refused() {
    let up = UpstreamResponse { status: 206, headers: headers(&[("Content-Type", "text/html")]) };
    let r = build_proxy_response(up, &options(&["image/png", "image/gif"]));
    assert_eq!(r.status, 400);
    assert_eq!(body_text(&r), Some("InvalidContentType".to_string()));
}

#[test]
fn not_modified_skips_content_type_check() {
    let up = UpstreamResponse { status: 304, headers: headers(&[("ETag", "x")]) };
    let r = build_proxy_response(up, &options(&[]));
    assert_eq!(r.status, 304);
    assert!(matches!(r.body, ResponseBody::Upstream));
    assert_eq!(r.headers.get("ETag"), Some("x".to_string()));
}

#[test]
fn error_response_has_security_headers() {
    let r = ProxyResponse::from_error(ProxyError::BadRedirect);
    assert_eq!(r.status, 400);
    assert_eq!(pairs(&r.headers), security());
    assert_eq!(body_text(&r), Some("BadRedirect".to_string()));
}

#[test]
fn parse_usize_numerals() {
    assert_eq!(parse_usize("0"), Some(0));
    assert_eq!(parse_usize("3000"), Some(3000));
    assert_eq!(parse_usize("+7"), Some(7));
    assert_eq!(parse_usize(""), None);
    assert_eq!(parse_usize("+"), None);
    assert_eq!(parse_usize("-1"), None);
    assert_eq!(parse_usize("12a"), None);
    assert_eq!(parse_usize(" 1"), None);
    assert_eq!(parse_usize("18446744073709551615"), Some(usize::MAX));
    assert_eq!(parse_usize("18446744073709551616"), None);
    assert_eq!(parse_usize("99999999999999999999x"), None);
}

#[test]
fn options_defaults() {
    let o = EnvOptions::create(None, None, None, None, vec![]).unwrap();
    assert_eq!(o.port, 3000);
    assert_eq!(o.num_threads, 4);
    assert_eq!(o.max_number_redirects, 4);
    assert_eq!(o.user_agent, "stanistan");
}

#[test]
fn options_from_settings() {
    let o = EnvOptions::create(Some("8080"), Some("2"), Some("0"), Some("bot".to_string()), vec![])
        .unwrap();
    assert_eq!(o.port, 8080);
    assert_eq!(o.num_threads, 2);
    assert_eq!(o.max_number_redirects, 0);
    assert_eq!(o.user_agent, "bot");
}

#[test]
fn options_errors() {
    assert_eq!(EnvOptions::create(Some("70000"), None, None, None, vec![]).err(), Some(ConfigError::BadPort));
    assert_eq!(EnvOptions::create(Some("x"), Some("0"), None, None, vec![]).err(), Some(ConfigError::BadPort));
    assert_eq!(EnvOptions::create(None, Some("0"), None, None, vec![]).err(), Some(ConfigError::BadThreadCount));
    assert_eq!(EnvOptions::create(None, Some("two"), None, None, vec![]).err(), Some(ConfigError::BadThreadCount));
    assert_eq!(EnvOptions::create(None, None, Some("-1"), None, vec![]).err(), Some(ConfigError::BadMaxRedirects));
}

#[test]
fn content_type_allow_list() {
    let o = options(&["image/png", "image/jpeg"]);
    assert!(o.is_valid_content_type("image/jpeg"));
    assert!(o.is_valid_content_type("Image/PNG"));
    assert!(!o.is_valid_content_type("image/svg+xml"));
    assert!(!options(&[]).is_valid_content_type("image/png"));
}
