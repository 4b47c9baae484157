use rustack::gateway::{
    arn_to_queue_url, extract_sigv4_service, health_check_body, health_check_response, is_compiled_in, is_health_check,
    is_lambda_path, parse_services_value, signing_service,
};

fn auth_headers(value: &'static str) -> http::HeaderMap {
    let mut headers = http::HeaderMap::new();
    headers.insert("authorization", http::HeaderValue::from_static(value));
    headers
}

#[test]
fn test_should_parse_services_value_default() {
    // Empty string = all compiled-in services.
    let services = parse_services_value("");
    assert!(services.contains(&"s3".to_string()));
    assert!(services.contains(&"dynamodb".to_string()));
}

#[test]
fn test_should_parse_services_value_explicit() {
    let services = parse_services_value("dynamodb");
    assert_eq!(services, vec!["dynamodb"]);
}

#[test]
fn test_should_parse_services_value_multiple() {
    let services = parse_services_value("s3, dynamodb");
    assert_eq!(services, vec!["s3", "dynamodb"]);
}

#[test]
fn test_should_parse_services_value_whitespace() {
    // Whitespace-only = all compiled-in services.
    let services = parse_services_value("  ");
    assert!(!services.is_empty());
}

#[test]
fn test_should_parse_services_value_case_insensitive() {
    let services = parse_services_value("S3,DynamoDB");
    assert_eq!(services, vec!["s3", "dynamodb"]);
}

#[test]
fn test_should_detect_compiled_services() {
    assert_eq!(is_compiled_in("s3"), true);
    assert_eq!(is_compiled_in("dynamodb"), true);
    assert_eq!(is_compiled_in("sqs"), true);
    assert_eq!(is_compiled_in("ssm"), true);
    assert_eq!(is_compiled_in("sns"), true);
    assert_eq!(is_compiled_in("lambda"), true);
}

#[test]
fn services_value_drops_empty_names() {
    let services = parse_services_value(" sqs,, ,SNS ,");
    assert_eq!(services, vec!["sqs", "sns"]);
    assert!(!is_compiled_in("nosuchservice"));
}

#[test]
fn test_should_detect_health_check_paths() {
    assert!(is_health_check(&http::Method::GET, "/_localstack/health"));
    assert!(is_health_check(&http::Method::GET, "/_health"));
    assert!(is_health_check(&http::Method::GET, "/health"));
    assert!(!is_health_check(&http::Method::POST, "/_health"));
    assert!(!is_health_check(&http::Method::GET, "/mybucket"));
}

#[test]
fn minio_health_paths_are_health_checks() {
    assert!(is_health_check(&http::Method::GET, "/minio/health/live"));
    assert!(is_health_check(&http::Method::GET, "/minio/health/ready"));
    assert!(is_health_check(&http::Method::GET, "/minio/health/cluster"));
    assert!(!is_health_check(&http::Method::HEAD, "/minio/health/live"));
}

#[test]
fn health_body_lists_services_as_running() {
    let names = vec!["s3".to_owned(), "dynamodb".to_owned()];
    assert_eq!(
        health_check_body(&names),
        r#"{"services":{"s3":"running","dynamodb":"running"}}"#
    );
    assert_eq!(health_check_body(&vec!["dynamodb".to_owned()]), r#"{"services":{"dynamodb":"running"}}"#);
    assert_eq!(health_check_body(&vec![]), r#"{"services":{}}"#);
}

#[test]
fn test_should_produce_health_check_response_with_both_services() {
    let names = vec!["s3".to_owned(), "dynamodb".to_owned()];
    let (status, content_type, body) = health_check_response(&names);
    assert_eq!(status, 200);
    assert_eq!(content_type, "application/json");
    assert_eq!(body, r#"{"services":{"s3":"running","dynamodb":"running"}}"#);
}

#[test]
fn test_should_produce_health_check_response_with_single_service() {
    let names = vec!["dynamodb".to_owned()];
    let (status, _, _) = health_check_response(&names);
    assert_eq!(status, 200);
}

#[test]
fn test_should_produce_health_check_response_with_no_services() {
    let names: Vec<String> = vec![];
    let (status, _, body) = health_check_response(&names);
    assert_eq!(status, 200);
    assert_eq!(body, r#"{"services":{}}"#);
}

#[test]
fn test_should_extract_sigv4_service_ses() {
    let headers = auth_headers(
        "AWS4-HMAC-SHA256 Credential=test/20260319/us-east-1/ses/aws4_request, SignedHeaders=content-type;host;x-amz-date, Signature=abc123",
    );
    assert_eq!(extract_sigv4_service(&headers), Some("ses".to_owned()));
}

#[test]
fn test_should_extract_sigv4_service_email() {
    let headers = auth_headers(
        "AWS4-HMAC-SHA256 Credential=AKID/20260319/us-east-1/email/aws4_request, SignedHeaders=host, Signature=abc123",
    );
    assert_eq!(extract_sigv4_service(&headers), Some("email".to_owned()));
}

#[test]
fn test_should_extract_sigv4_service_sns() {
    let headers = auth_headers(
        "AWS4-HMAC-SHA256 Credential=AKID/20260319/us-east-1/sns/aws4_request, SignedHeaders=host, Signature=abc123",
    );
    assert_eq!(extract_sigv4_service(&headers), Some("sns".to_owned()));
}

#[test]
fn test_should_return_none_for_missing_auth_header() {
    let headers = http::HeaderMap::new();
    assert_eq!(extract_sigv4_service(&headers), None);
}

#[test]
fn test_should_return_none_for_malformed_credential() {
    let headers = auth_headers("AWS4-HMAC-SHA256 Credential=AKID, Signature=abc");
    assert_eq!(extract_sigv4_service(&headers), None);
}

#[test]
fn signing_service_reads_fourth_credential_part() {
    assert_eq!(
        signing_service("Credential=a/b/c/sqs/aws4_request"),
        Some("sqs".to_owned())
    );
    assert_eq!(signing_service("no credential here"), None);
    assert_eq!(signing_service("Credential=a/b/c"), None);
}

#[test]
fn non_ascii_authorization_header_gives_none() {
    let mut headers = http::HeaderMap::new();
    headers.insert(
        "authorization",
        http::HeaderValue::from_bytes(b"Credential=a/b/c/\xffs3/x").unwrap(),
    );
    assert_eq!(extract_sigv4_service(&headers), None);
}

#[test]
fn lambda_paths_are_recognised() {
    assert!(is_lambda_path("/2015-03-31/functions"));
    assert!(is_lambda_path("/2015-03-31/functions/my-fn/invocations"));
    assert!(is_lambda_path("/2017-03-31/tags/arn"));
    assert!(is_lambda_path("/2016-08-19/account-settings"));
    assert!(is_lambda_path("/lambda-url/abc"));
    assert!(!is_lambda_path("/2015-03-31/other"));
    assert!(!is_lambda_path("/mybucket/functions"));
    assert!(!is_lambda_path(""));
}

#[test]
fn events_bridge_test_should_convert_arn_to_queue_url() {
    let url = arn_to_queue_url(
        "localhost",
        4566,
        "000000000000",
        "arn:aws:sqs:us-east-1:000000000000:my-queue",
    );
    assert_eq!(url, "http://localhost:4566/000000000000/my-queue");
}

#[test]
fn sns_bridge_test_should_convert_arn_to_queue_url() {
    let url = arn_to_queue_url(
        "localhost",
        4566,
        "000000000000",
        "arn:aws:sqs:us-east-1:000000000000:my-queue",
    );
    assert_eq!(url, "http://localhost:4566/000000000000/my-queue");
}

#[test]
fn queue_url_uses_last_arn_part() {
    assert_eq!(arn_to_queue_url("h", 80, "1", "plain"), "http://h:80/1/plain");
    assert_eq!(arn_to_queue_url("h", 0, "1", "a:b:"), "http://h:0/1/a:b:");
    assert_eq!(arn_to_queue_url("h", 1, "9", "a:b:c:d:acct:q:extra"), "http://h:1/acct/q");
}
