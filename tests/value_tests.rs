use bolt::{
    build_request, default_headers, format_duration, format_response_body, validate_url, ApiDebugResult, Body,
    ConnectionPoolManager, ContentType, Headers, HttpClientError, HttpMethod, HttpResponse, MetricsSnapshot,
    PerformanceConfig, PerformanceMetrics, RequestOptions, Url, UrlError,
};

fn response(status: u16, body: Option<Body>) -> HttpResponse {
    HttpResponse { status, headers: Headers::new(), body, duration_ns: 1, timestamp_secs: 0 }
}

#[test]
fn body_constructors() {
    let b = Body::json("{}".to_string());
    assert_eq!(b.content(), "{}");
    assert_eq!(b.content_type(), ContentType::Json);
    assert_eq!(Body::text("héllo".to_string()).len(), 6);
    assert!(Body::default().is_empty());
    let f = Body::from_string("a=1".to_string(), ContentType::FormUrlEncoded);
    assert_eq!(f.content_type(), ContentType::FormUrlEncoded);
    assert!(!f.is_empty());
}

#[test]
fn headers_insert_replaces() {
    let mut h = Headers::with_capacity(4);
    assert!(h.is_empty());
    h.insert("Accept", "text/plain");
    h.insert("X-Id", "7");
    h.insert("Accept", "*/*");
    assert_eq!(h.len(), 2);
    assert_eq!(h.get("Accept").map(|s| s.as_str()), Some("*/*"));
    assert!(h.contains_key("X-Id"));
    assert!(!h.contains_key("x-id"));
    assert_eq!(h.get("Missing"), None);
    let pairs: Vec<(String, String)> = h.iter().clone();
    assert_eq!(pairs[0].0, "Accept");
    assert_eq!(h.into_inner().len(), 2);
}

#[test]
fn headers_from_pairs_later_wins() {
    let pairs = vec![("a".to_string(), "1".to_string()), ("b".to_string(), "2".to_string()), ("a".to_string(), "3".to_string())];
    let h = Headers::from_pairs(&pairs);
    assert_eq!(h.len(), 2);
    assert_eq!(h.get("a").unwrap(), "3");
}

#[test]
fn default_headers_set() {
    let h = default_headers();
    assert_eq!(h.get("User-Agent").unwrap(), "Bolt/0.1");
    assert_eq!(h.get("Accept").unwrap(), "*/*");
    assert_eq!(h.len(), 2);
}

#[test]
fn method_parsing_ignores_case() {
    assert_eq!("get".parse::<HttpMethod>(), Ok(HttpMethod::GET));
    assert_eq!(HttpMethod::from_method_str("Options"), Ok(HttpMethod::OPTIONS));
    assert_eq!(HttpMethod::from_method_str("fetch"), Err("Invalid HTTP method: fetch".to_string()));
    assert_eq!(HttpMethod::from_upper("PATCH", "x"), Ok(HttpMethod::PATCH));
    assert_eq!(HttpMethod::DELETE.as_str(), "DELETE");
    assert_eq!(HttpMethod::default(), HttpMethod::GET);
}

#[test]
fn method_properties() {
    assert!(HttpMethod::GET.is_idempotent());
    assert!(!HttpMethod::POST.is_idempotent());
    assert!(HttpMethod::PATCH.supports_body());
    assert!(!HttpMethod::HEAD.supports_body());
}

#[test]
fn url_parse_accepts_http_and_https() {
    assert_eq!(Url::parse("https://example.com/a").unwrap().as_str(), "https://example.com/a");
    assert_eq!(Url::parse("HTTP://example.com").unwrap().as_str(), "HTTP://example.com");
    match Url::parse("ftp://example.com") {
        Err(UrlError::UnsupportedScheme(s)) => assert_eq!(s, "ftp"),
        other => panic!("unexpected {:?}", other),
    }
    assert!(matches!(Url::parse("not a url"), Err(UrlError::InvalidUrl(_))));
}

#[test]
fn url_from_parsed_decides() {
    assert!(Url::from_parsed("x", Ok("https".to_string())).is_ok());
    assert!(matches!(Url::from_parsed("x", Ok("file".to_string())), Err(UrlError::UnsupportedScheme(_))));
    match Url::from_parsed("x", Err("bad".to_string())) {
        Err(e) => assert_eq!(e.message(), "Invalid URL: bad"),
        Ok(_) => panic!("accepted"),
    }
}

#[test]
fn build_request_checks_url_then_method() {
    let r = build_request(7, "http://localhost:8080/x", "post").unwrap();
    assert_eq!(r.id, 7);
    assert_eq!(r.method, HttpMethod::POST);
    assert_eq!(r.url.as_str(), "http://localhost:8080/x");
    assert!(r.body.is_none());
    match build_request(1, "mailto:a@b.c", "BOGUS") {
        Err(HttpClientError::InvalidUrl(m)) => assert_eq!(m, "Unsupported scheme: mailto"),
        other => panic!("unexpected {:?}", other),
    }
    match build_request(1, "http://h/", "BOGUS") {
        Err(HttpClientError::InvalidUrl(m)) => assert_eq!(m, "Invalid HTTP method: BOGUS"),
        other => panic!("unexpected {:?}", other),
    }
}

#[test]
fn response_status_classes() {
    assert!(response(204, None).is_success());
    assert!(!response(300, None).is_success());
    assert!(response(404, None).is_client_error());
    assert!(response(599, None).is_server_error());
    assert!(!response(600, None).is_server_error());
    assert!(HttpResponse::body_from_text(String::new()).is_none());
    assert_eq!(HttpResponse::body_from_text("x".to_string()).unwrap().content(), "x");
}

#[test]
fn json_body_is_reindented() {
    let out = format_response_body("{\"a\":1}", ContentType::Json);
    assert_eq!(out, "{\n  \"a\": 1\n}");
    assert_eq!(format_response_body("{oops", ContentType::Json), "{oops");
    assert_eq!(format_response_body("{\"a\":1}", ContentType::Text), "{\"a\":1}");
    let d = ApiDebugResult::from_response(response(200, Some(Body::json("[1,2]".to_string()))));
    assert_eq!(d.formatted_body.unwrap(), "[\n  1,\n  2\n]");
    assert!(ApiDebugResult::from_response(response(200, None)).formatted_body.is_none());
}

#[test]
fn transport_failure_classification() {
    assert!(matches!(HttpClientError::from_transport_failure(true, true, true, true, "t".into()), HttpClientError::Timeout));
    assert!(matches!(
        HttpClientError::from_transport_failure(false, true, true, false, "t".into()),
        HttpClientError::TooManyRedirects
    ));
    assert!(matches!(
        HttpClientError::from_transport_failure(false, false, true, false, "t".into()),
        HttpClientError::ConnectionFailed(_)
    ));
    assert!(matches!(
        HttpClientError::from_transport_failure(false, false, false, true, "t".into()),
        HttpClientError::SerializationError(_)
    ));
    let e = HttpClientError::from_transport_failure(false, false, false, false, "boom".into());
    assert_eq!(e.message(), "Unknown error: boom");
    assert_eq!(HttpClientError::Timeout.message(), "Timeout exceeded");
}

#[test]
fn request_option_presets() {
    let d = RequestOptions::default();
    assert!(d.follow_redirects && d.verify_ssl);
    assert_eq!(d.redirect_limit, 10);
    assert_eq!(RequestOptions::strict_security().timeout_seconds, 60);
    assert!(!RequestOptions::lenient_testing().verify_ssl);
}

#[test]
fn durations_as_text() {
    assert_eq!(format_duration(1_500_000_000), "1.50s");
    assert_eq!(format_duration(12_345_678_901), "12.35s");
    assert_eq!(format_duration(1_000_000_000), "1.00s");
    assert_eq!(format_duration(250_000_000), "250ms");
    assert_eq!(format_duration(999_999), "999μs");
    assert_eq!(format_duration(0), "0μs");
}

#[test]
fn url_prefix_validation() {
    assert!(validate_url("http://a").is_ok());
    assert!(validate_url("https://a").is_ok());
    assert_eq!(validate_url("ftp://a"), Err("URL must start with http:// or https://".to_string()));
    assert!(validate_url("http:/").is_err());
}

#[test]
fn performance_presets() {
    assert_eq!(PerformanceConfig::balanced(), PerformanceConfig::default());
    assert_eq!(PerformanceConfig::high_performance().max_idle_per_host, 5000);
    assert_eq!(PerformanceConfig::resource_saving().max_pool_size, 1000);
}

#[test]
fn metrics_count_and_reset() {
    let mut m = PerformanceMetrics::default();
    m.increment_request(true, 10, 100, 2_000);
    m.increment_request(false, 5, 0, 4_000);
    let s: MetricsSnapshot = m.snapshot();
    assert_eq!(s.total_requests, 2);
    assert_eq!(s.successful_requests, 1);
    assert_eq!(s.failed_requests, 1);
    assert_eq!(s.total_bytes_sent, 15);
    assert_eq!(m.average_response_time(), 3_000);
    assert_eq!(s.average_response_time(), 3_000);
    m.reset();
    assert_eq!(m.snapshot().total_requests, 0);
    assert_eq!(m.average_response_time(), 0);
    let mut w = PerformanceMetrics::default();
    w.total_bytes_sent = usize::MAX;
    w.increment_request(true, 2, 0, 0);
    assert_eq!(w.total_bytes_sent, 1);
}

#[test]
fn pool_stubs() {
    assert_eq!(ConnectionPoolManager::get_stats().active_connections, 0);
    assert!(ConnectionPoolManager::health_check());
    ConnectionPoolManager::cleanup_idle_connections();
}

#[test]
fn default_request_and_url() {
    assert_eq!(Url::default().as_str(), "https://httpbin.org/get");
    let r = bolt::HttpRequest::default_with_id(3);
    assert_eq!(r.id, 3);
    assert_eq!(r.method, HttpMethod::GET);
    assert_eq!(r.timeout_ns, 30_000_000_000);
    assert!(r.headers.is_empty());
}
