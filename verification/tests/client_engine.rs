use gufo_http::auth::AuthMethod;
use gufo_http::client::{Client, ClientConfig, RedirectPolicy};
use gufo_http::error::GufoHttpError;
use gufo_http::method::{RequestMethod, BROTLI, DEFLATE, GZIP, ZSTD};
use gufo_http::proxy::Proxy;

fn config() -> ClientConfig {
    ClientConfig {
        validate_cert: true,
        connect_timeout_ns: 1_000_000_000,
        timeout_ns: 5_000_000_000,
        max_redirect: Some(10),
        headers: vec![],
        compression: None,
        user_agent: None,
        auth: AuthMethod::NoAuth,
        proxies: vec![],
    }
}

fn build(c: ClientConfig) -> Client {
    c.build().unwrap()
}

#[test]
fn build_with_valid_default_header() {
    let mut c = config();
    c.headers = vec![(b"X-Token".to_vec(), b"abc".to_vec())];
    let client = build(c);
    assert_eq!(
        client.default_headers.get(b"x-token", None).unwrap(),
        b"abc".to_vec()
    );
}

#[test]
fn build_rejects_invalid_header_name() {
    let mut c = config();
    c.headers = vec![(b"bad name".to_vec(), b"v".to_vec())];
    assert!(matches!(c.build(), Err(GufoHttpError::ValueError(_))));
}

#[test]
fn build_rejects_empty_header_name() {
    let mut c = config();
    c.headers = vec![(b"".to_vec(), b"v".to_vec())];
    assert!(matches!(c.build(), Err(GufoHttpError::ValueError(_))));
}

#[test]
fn build_rejects_control_byte_in_header_value() {
    let mut c = config();
    c.headers = vec![(b"X-Ok".to_vec(), b"a\nb".to_vec())];
    assert!(matches!(c.build(), Err(GufoHttpError::ValueError(_))));
}

#[test]
fn build_accepts_empty_header_value() {
    let mut c = config();
    c.headers = vec![(b"X-Empty".to_vec(), b"".to_vec())];
    let client = build(c);
    assert_eq!(
        client.default_headers.get(b"X-Empty", None).unwrap(),
        b"".to_vec()
    );
}

#[test]
fn no_cap_forbids_redirects() {
    let mut c = config();
    c.max_redirect = None;
    let client = build(c);
    assert_eq!(client.redirect, RedirectPolicy::NoFollow);
    assert!(client.redirect.permits(0));
    assert!(!client.redirect.permits(1));
}

#[test]
fn cap_of_two_permits_two_hops_not_three() {
    let mut c = config();
    c.max_redirect = Some(2);
    let client = build(c);
    assert_eq!(client.redirect, RedirectPolicy::Limited(2));
    assert!(client.redirect.permits(2));
    assert!(!client.redirect.permits(3));
}

#[test]
fn compression_mask_three_enables_deflate_and_gzip() {
    let mut c = config();
    c.compression = Some(DEFLATE | GZIP);
    let client = build(c);
    assert!(client.deflate);
    assert!(client.gzip);
    assert!(!client.brotli);
    assert!(!client.zstd);
}

#[test]
fn compression_bits_are_independent() {
    let mut c = config();
    c.compression = Some(BROTLI);
    let client = build(c);
    assert!(!client.deflate);
    assert!(!client.gzip);
    assert!(client.brotli);
    assert!(!client.zstd);

    let mut c = config();
    c.compression = Some(ZSTD);
    let client = build(c);
    assert!(client.zstd);
    assert!(!client.brotli);
}

#[test]
fn compression_absent_enables_nothing() {
    let client = build(config());
    assert!(!client.deflate && !client.gzip && !client.brotli && !client.zstd);
}

#[test]
fn compression_unknown_bits_are_ignored() {
    let mut c = config();
    c.compression = Some(0xF0);
    let client = build(c);
    assert!(!client.deflate && !client.gzip && !client.brotli && !client.zstd);
}

#[test]
fn build_keeps_settings() {
    let mut c = config();
    c.validate_cert = false;
    c.user_agent = Some(String::from("agent/1.0"));
    c.proxies = vec![Proxy::new("http://proxy.example.org:3128").unwrap()];
    let client = build(c);
    assert!(!client.validate_cert);
    assert_eq!(client.connect_timeout_ns, 1_000_000_000);
    assert_eq!(client.timeout_ns, 5_000_000_000);
    assert_eq!(client.user_agent.as_deref(), Some("agent/1.0"));
    assert_eq!(client.proxies.len(), 1);
    assert_eq!(client.proxies[0].url(), "http://proxy.example.org:3128");
}

#[test]
fn compose_merges_defaults_then_overrides() {
    let mut c = config();
    c.headers = vec![(b"X-Base".to_vec(), b"1".to_vec())];
    let client = build(c);
    let overrides = vec![
        (b"X-Call".to_vec(), b"2".to_vec()),
        (b"X-Base".to_vec(), b"3".to_vec()),
    ];
    let plan = client
        .compose(RequestMethod::POST, "http://example.com/a", Some(&overrides), None)
        .unwrap();
    assert_eq!(plan.method, RequestMethod::POST);
    assert_eq!(plan.url, "http://example.com/a");
    assert_eq!(
        plan.headers,
        vec![
            (b"X-Base".to_vec(), b"1".to_vec()),
            (b"X-Call".to_vec(), b"2".to_vec()),
            (b"X-Base".to_vec(), b"3".to_vec()),
        ]
    );
    assert!(plan.body.is_none());
}

#[test]
fn compose_without_overrides_sends_defaults() {
    let mut c = config();
    c.headers = vec![(b"X-Base".to_vec(), b"1".to_vec())];
    let client = build(c);
    let plan = client
        .compose(RequestMethod::GET, "http://example.com/", None, None)
        .unwrap();
    assert_eq!(plan.headers, vec![(b"X-Base".to_vec(), b"1".to_vec())]);
}

#[test]
fn compose_rejects_invalid_override_name() {
    let client = build(config());
    let overrides = vec![(b"bad name".to_vec(), b"v".to_vec())];
    assert!(matches!(
        client.compose(RequestMethod::GET, "http://example.com/", Some(&overrides), None),
        Err(GufoHttpError::ValueError(_))
    ));
}

#[test]
fn compose_rejects_invalid_override_value() {
    let client = build(config());
    let overrides = vec![(b"X-Ok".to_vec(), b"bad\0".to_vec())];
    assert!(matches!(
        client.compose(RequestMethod::GET, "http://example.com/", Some(&overrides), None),
        Err(GufoHttpError::ValueError(_))
    ));
}

#[test]
fn compose_carries_body_byte_exact() {
    let client = build(config());
    let plan = client
        .compose(
            RequestMethod::PUT,
            "http://example.com/up",
            None,
            Some(vec![0, 159, 146, 150]),
        )
        .unwrap();
    assert_eq!(plan.body.unwrap(), vec![0, 159, 146, 150]);
}

#[test]
fn bearer_client_keeps_auth_and_caller_header() {
    let mut c = config();
    c.auth = AuthMethod::Bearer { token: String::from("abc") };
    let client = build(c);
    let overrides = vec![(b"Authorization".to_vec(), b"Custom xyz".to_vec())];
    let plan = client
        .compose(RequestMethod::GET, "http://example.com/echo", Some(&overrides), None)
        .unwrap();
    // The caller-supplied header is still present in the composed list...
    assert!(plan
        .headers
        .contains(&(b"Authorization".to_vec(), b"Custom xyz".to_vec())));
    // ...and the credential strategy rides alongside it, to be attached
    // after the headers.
    match plan.auth {
        AuthMethod::Bearer { token } => assert_eq!(token, "abc"),
        other => panic!("expected Bearer, got {:?}", other),
    }
}
