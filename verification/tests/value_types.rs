use gufo_http::auth::{AuthMethod, BasicAuth, BearerAuth, GetAuthMethod};
use gufo_http::error::GufoHttpError;
use gufo_http::method::RequestMethod;
use gufo_http::proxy::Proxy;

#[test]
fn method_get_known_names() {
    assert_eq!(RequestMethod::get("GET"), Some(RequestMethod::GET));
    assert_eq!(RequestMethod::get("HEAD"), Some(RequestMethod::HEAD));
    assert_eq!(RequestMethod::get("OPTIONS"), Some(RequestMethod::OPTIONS));
    assert_eq!(RequestMethod::get("DELETE"), Some(RequestMethod::DELETE));
    assert_eq!(RequestMethod::get("POST"), Some(RequestMethod::POST));
    assert_eq!(RequestMethod::get("PUT"), Some(RequestMethod::PUT));
    assert_eq!(RequestMethod::get("PATCH"), Some(RequestMethod::PATCH));
}

#[test]
fn method_get_unknown_name() {
    assert_eq!(RequestMethod::get("get"), None);
    assert_eq!(RequestMethod::get(""), None);
    assert_eq!(RequestMethod::get("TRACE"), None);
}

#[test]
fn method_getitem_known_and_unknown() {
    let m = RequestMethod::GET;
    assert_eq!(m.__getitem__("PUT").unwrap(), RequestMethod::PUT);
    match m.__getitem__("SPLICE") {
        Err(GufoHttpError::ValueError(name)) => assert_eq!(name, "SPLICE"),
        other => panic!("expected a ValueError, got {:?}", other),
    }
}

#[test]
fn method_as_str_round_trips() {
    let all = [
        RequestMethod::GET,
        RequestMethod::HEAD,
        RequestMethod::OPTIONS,
        RequestMethod::DELETE,
        RequestMethod::POST,
        RequestMethod::PUT,
        RequestMethod::PATCH,
    ];
    for m in all {
        assert_eq!(RequestMethod::get(m.as_str()), Some(m));
    }
}

#[test]
fn basic_auth_resolves_to_basic() {
    let a = BasicAuth::new("alice", Some(String::from("wonder")));
    match a.get_method() {
        AuthMethod::Basic { user, password } => {
            assert_eq!(user, "alice");
            assert_eq!(password.as_deref(), Some("wonder"));
        }
        other => panic!("expected Basic, got {:?}", other),
    }
}

#[test]
fn basic_auth_without_password() {
    let a = BasicAuth::new("bob", None);
    match a.get_method() {
        AuthMethod::Basic { user, password } => {
            assert_eq!(user, "bob");
            assert!(password.is_none());
        }
        other => panic!("expected Basic, got {:?}", other),
    }
}

#[test]
fn bearer_auth_resolves_to_bearer() {
    let a = BearerAuth::new("tok-123");
    match a.get_method() {
        AuthMethod::Bearer { token } => assert_eq!(token, "tok-123"),
        other => panic!("expected Bearer, got {:?}", other),
    }
}

#[test]
fn proxy_rejects_foreign_scheme() {
    match Proxy::new("ftp://example.com") {
        Err(GufoHttpError::ValueError(_)) => {}
        other => panic!("expected a ValueError, got {:?}", other),
    }
}

#[test]
fn proxy_rejects_missing_scheme() {
    assert!(matches!(
        Proxy::new("example.com:3128"),
        Err(GufoHttpError::ValueError(_))
    ));
}

#[test]
fn proxy_scheme_check_is_exact() {
    assert!(matches!(
        Proxy::new("HTTP://example.com"),
        Err(GufoHttpError::ValueError(_))
    ));
}

#[test]
fn proxy_accepts_http_with_port() {
    let p = Proxy::new("http://example.com:3128").unwrap();
    assert_eq!(p.url(), "http://example.com:3128");
}

#[test]
fn proxy_accepts_https() {
    let p = Proxy::new("https://proxy.example.org").unwrap();
    assert_eq!(p.url(), "https://proxy.example.org");
}

#[test]
fn proxy_rejects_unparsable_url() {
    // The scheme passes, but the transport's URL parser refuses the rest.
    assert!(matches!(
        Proxy::new("http://exa mple.com"),
        Err(GufoHttpError::ValueError(_))
    ));
}
