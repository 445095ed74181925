use rench::cli::Args;
use rench::engine::{
    body_file_to_read, parse_header, parse_headers, rate_per_worker, url_is_valid, BenchConfig,
    ConfigError,
};
use std::time::Duration;

fn args(url: &str) -> Args {
    Args {
        url: url.to_string(),
        connections: 1,
        requests: 0,
        duration: Duration::from_secs(1),
        threads: 1,
        method: "GET".to_string(),
        headers: vec![],
        body: None,
        body_file: None,
        http2: false,
        rate: 0,
        timeout: Duration::from_secs(5),
        insecure: true,
        latency: false,
    }
}

#[test]
fn config_from_plain_args() {
    let a = args("https://localhost");
    let c = BenchConfig::from_args(&a, 1, None).unwrap();
    assert_eq!(c.uri, "https://localhost/".parse::<http::Uri>().unwrap());
    assert_eq!(c.method, http::Method::GET);
    assert!(c.headers.is_empty());
    assert!(c.body.is_none());
    assert_eq!(c.duration, Duration::from_secs(1));
    assert_eq!(c.timeout, Duration::from_secs(5));
    assert!(!c.http2);
    assert_eq!(c.rate_per_worker, 0);
}

#[test]
fn config_headers_body_and_rate() {
    let mut a = args("http://example.com/api");
    a.method = "POST".to_string();
    a.headers = vec![
        "Content-Type: application/json".to_string(),
        "  X-Token :  a:b  ".to_string(),
    ];
    a.body = Some("{\"key\":\"value\"}".to_string());
    a.body_file = Some("ignored.json".to_string());
    a.rate = 10;
    a.http2 = true;
    assert!(body_file_to_read(&a).is_none());
    let c = BenchConfig::from_args(&a, 4, None).unwrap();
    assert_eq!(c.method, http::Method::POST);
    assert_eq!(
        c.headers,
        vec![
            ("Content-Type".to_string(), "application/json".to_string()),
            ("X-Token".to_string(), "a:b".to_string()),
        ]
    );
    assert_eq!(c.body, Some(bytes::Bytes::from("{\"key\":\"value\"}")));
    assert_eq!(c.rate_per_worker, 2);
    assert!(c.http2);
}

#[test]
fn config_body_from_file() {
    let mut a = args("http://example.com");
    a.body_file = Some("payload.bin".to_string());
    assert_eq!(body_file_to_read(&a), Some(&"payload.bin".to_string()));
    let c = BenchConfig::from_args(&a, 1, Some(Ok(vec![1, 2, 3]))).unwrap();
    assert_eq!(c.body, Some(bytes::Bytes::from(vec![1u8, 2, 3])));

    let e = BenchConfig::from_args(
        &a,
        1,
        Some(Err(std::io::Error::new(std::io::ErrorKind::NotFound, "missing"))),
    );
    assert!(matches!(e, Err(ConfigError::BodyFile(_))));
}

#[test]
fn config_errors_in_order() {
    let mut a = args("http://exa mple.com");
    a.method = "GE T".to_string();
    a.headers = vec!["NoColon".to_string()];
    assert!(matches!(BenchConfig::from_args(&a, 1, None), Err(ConfigError::InvalidUri(_))));

    a.url = "http://example.com".to_string();
    assert!(matches!(BenchConfig::from_args(&a, 1, None), Err(ConfigError::InvalidMethod(_))));

    a.method = "PURGE".to_string();
    match BenchConfig::from_args(&a, 1, None) {
        Err(ConfigError::InvalidHeader(m)) => {
            assert_eq!(m, "invalid header format: 'NoColon' (expected 'Key: Value')")
        }
        _ => panic!("expected a header error"),
    }

    a.headers = vec![];
    let c = BenchConfig::from_args(&a, 1, None).unwrap();
    assert_eq!(c.method.as_str(), "PURGE");
}

#[test]
fn headers_split_at_first_colon() {
    assert_eq!(parse_header("A: b"), Some(("A".to_string(), "b".to_string())));
    assert_eq!(parse_header(":"), Some(("".to_string(), "".to_string())));
    assert_eq!(parse_header("Host:x:80"), Some(("Host".to_string(), "x:80".to_string())));
    assert_eq!(parse_header("nothing"), None);
    let hs = vec!["a: 1".to_string(), "bad".to_string(), "worse".to_string()];
    assert_eq!(
        parse_headers(&hs),
        Err("invalid header format: 'bad' (expected 'Key: Value')".to_string())
    );
}

#[test]
fn worker_rates() {
    assert_eq!(rate_per_worker(0, 0), 0);
    assert_eq!(rate_per_worker(0, 8), 0);
    assert_eq!(rate_per_worker(5000, 50), 100);
    assert_eq!(rate_per_worker(10, 3), 3);
    assert_eq!(rate_per_worker(3, 10), 1);
}

#[test]
fn urls_are_checked() {
    assert!(url_is_valid("http://localhost:8080/api"));
    assert!(url_is_valid("https://api.example.com/endpoint"));
    assert!(!url_is_valid("http://exa mple.com"));
    assert!(!url_is_valid(""));
}

#[test]
fn no_workers_with_a_rate_limit() {
    let mut a = args("http://example.com");
    a.rate = 10;
    assert!(BenchConfig::try_from_args(&a, 0, None).is_none());
    a.method = "GE T".to_string();
    assert!(matches!(
        BenchConfig::try_from_args(&a, 0, None),
        Some(Err(ConfigError::InvalidMethod(_)))
    ));
    a.method = "GET".to_string();
    let c = BenchConfig::try_from_args(&a, 5, None).unwrap().unwrap();
    assert_eq!(c.rate_per_worker, 2);
    a.rate = 0;
    let c = BenchConfig::try_from_args(&a, 0, None).unwrap().unwrap();
    assert_eq!(c.rate_per_worker, 0);
}
