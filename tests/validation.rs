use onion_fetch::address::{validate, validate_parts, UriParts};
use onion_fetch::error::FetchError;
use onion_fetch::http::HttpClient;
use onion_fetch::session::TorClientWrapper;

fn ready_session() -> TorClientWrapper {
    let mut s = TorClientWrapper::new();
    assert!(s.install_client());
    s.begin_bootstrap();
    assert_eq!(s.finish_bootstrap(true), Ok(()));
    s
}

fn error_of(url: &str) -> FetchError {
    match validate(url) {
        Ok(t) => panic!("accepted {} as {}:{}", url, t.host, t.port),
        Err(e) => e,
    }
}

#[test]
fn onion_url_is_split_into_host_port_and_target() {
    let t = validate("http://abcdef.onion/maps/city.pmtiles?v=2").ok().unwrap();
    assert_eq!(t.host, "abcdef.onion");
    assert_eq!(t.port, 80);
    assert_eq!(t.path, "/maps/city.pmtiles?v=2");
}

#[test]
fn explicit_port_is_kept_and_empty_path_becomes_root() {
    let t = validate("http://abcdef.onion:8080").ok().unwrap();
    assert_eq!(t.host, "abcdef.onion");
    assert_eq!(t.port, 8080);
    assert_eq!(t.path, "/");
}

#[test]
fn upper_case_http_scheme_is_plain_http() {
    let t = validate("HTTP://abcdef.onion/x").ok().unwrap();
    assert_eq!(t.path, "/x");
}

#[test]
fn url_without_scheme_on_onion_host_is_accepted() {
    let t = validate("abcdef.onion:9000").ok().unwrap();
    assert_eq!(t.host, "abcdef.onion");
    assert_eq!(t.port, 9000);
    assert_eq!(t.path, "/");
}

#[test]
fn clear_net_hosts_are_disallowed() {
    assert_eq!(error_of("http://example.com/file"), FetchError::DisallowedDomain);
    assert_eq!(error_of("http://onion/file"), FetchError::DisallowedDomain);
    assert_eq!(error_of("http://abc.onion.example.com/"), FetchError::DisallowedDomain);
    assert_eq!(error_of("https://example.com/"), FetchError::DisallowedDomain);
}

#[test]
fn clear_net_get_orders_no_stream() {
    let session = ready_session();
    let client = HttpClient::new();
    let mut streams_ordered = 0;
    for url in ["http://example.com/", "http://10.0.0.1:80/a", "https://example.org/b"] {
        match client.prepare_get(url, &session) {
            Ok(_) => streams_ordered += 1,
            Err(e) => assert_eq!(e, FetchError::DisallowedDomain),
        }
    }
    assert_eq!(streams_ordered, 0);
}

#[test]
fn non_http_schemes_on_onion_hosts_are_disallowed() {
    assert_eq!(error_of("https://abcdef.onion/"), FetchError::DisallowedScheme);
    assert_eq!(error_of("ftp://abcdef.onion/file"), FetchError::DisallowedScheme);
    assert_eq!(error_of("ws://abcdef.onion/"), FetchError::DisallowedScheme);
}

#[test]
fn unparsable_or_hostless_urls_are_invalid() {
    assert_eq!(error_of("http://exa mple.onion/"), FetchError::InvalidUrl);
    assert_eq!(error_of("/only/a/path"), FetchError::InvalidUrl);
    assert_eq!(error_of(""), FetchError::InvalidUrl);
}

#[test]
fn parts_are_checked_domain_before_scheme() {
    let parts = UriParts {
        scheme: Some("https".to_string()),
        host: Some("example.com".to_string()),
        port: None,
        path_and_query: None,
    };
    assert_eq!(validate_parts(Some(parts)).err(), Some(FetchError::DisallowedDomain));
    assert_eq!(validate_parts(None).err(), Some(FetchError::InvalidUrl));
}

#[test]
fn validate_onion_url_matches_validate() {
    let client = HttpClient::default();
    assert!(client.validate_onion_url("http://abcdef.onion/").is_ok());
    assert_eq!(client.validate_onion_url("http://abcdef.com/").err(), Some(FetchError::DisallowedDomain));
}

#[test]
fn get_plan_names_stream_and_target() {
    let session = ready_session();
    let plan = HttpClient::new().prepare_get("http://abcdef.onion:81/a/b?c=d", &session).ok().unwrap();
    assert_eq!(plan.stream.host, "abcdef.onion");
    assert_eq!(plan.stream.port, 81);
    assert_eq!(plan.path, "/a/b?c=d");
}

#[test]
fn get_before_bootstrap_is_not_ready() {
    let session = TorClientWrapper::new();
    let r = HttpClient::new().prepare_get("http://abcdef.onion/", &session);
    assert_eq!(r.err(), Some(FetchError::NotReady));
}
