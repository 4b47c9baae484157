use rustack::routing::{
    execution_error_reply, gateway_action, registered_services, ExecutionFailure, route_request, service_matches, GatewayAction,
    RoutedService, NO_MATCH_BODY,
};

fn headers(pairs: &[(&'static str, &'static str)]) -> http::HeaderMap {
    let mut h = http::HeaderMap::new();
    for (k, v) in pairs {
        h.insert(*k, http::HeaderValue::from_static(v));
    }
    h
}

const SES_AUTH: &str =
    "AWS4-HMAC-SHA256 Credential=AKID/20240101/us-east-1/ses/aws4_request, SignedHeaders=host";
const FORM: &str = "application/x-www-form-urlencoded; charset=utf-8";

#[test]
fn target_prefix_routers_match_their_targets() {
    let post = http::Method::POST;
    let cases = [
        (RoutedService::DynamoDB, "DynamoDB_20120810.PutItem"),
        (RoutedService::Sqs, "AmazonSQS.SendMessage"),
        (RoutedService::Ssm, "AmazonSSM.GetParameter"),
        (RoutedService::Events, "AWSEvents.PutEvents"),
        (RoutedService::Logs, "Logs_20140328.PutLogEvents"),
        (RoutedService::Kms, "TrentService.Encrypt"),
        (RoutedService::Kinesis, "Kinesis_20131202.PutRecord"),
        (RoutedService::SecretsManager, "secretsmanager.GetSecretValue"),
    ];
    for (svc, target) in cases {
        let h = headers(&[("x-amz-target", target)]);
        assert!(service_matches(svc, &post, "/", &h), "{svc:?} should match {target}");
        let other = headers(&[("x-amz-target", "Other.Op")]);
        assert!(!service_matches(svc, &post, "/", &other));
        assert!(!service_matches(svc, &post, "/", &http::HeaderMap::new()));
    }
}

#[test]
fn sqs_target_without_dot_still_matches() {
    let h = headers(&[("x-amz-target", "AmazonSQSx")]);
    assert!(service_matches(RoutedService::Sqs, &http::Method::POST, "/", &h));
    let ssm = headers(&[("x-amz-target", "AmazonSSMx")]);
    assert!(!service_matches(RoutedService::Ssm, &http::Method::POST, "/", &ssm));
}

#[test]
fn sns_matches_form_posts_only() {
    let h = headers(&[("content-type", FORM)]);
    assert!(service_matches(RoutedService::Sns, &http::Method::POST, "/", &h));
    assert!(!service_matches(RoutedService::Sns, &http::Method::GET, "/", &h));
    let json = headers(&[("content-type", "application/json")]);
    assert!(!service_matches(RoutedService::Sns, &http::Method::POST, "/", &json));
}

#[test]
fn ses_matches_paths_and_signed_form_posts() {
    let none = http::HeaderMap::new();
    let get = http::Method::GET;
    assert!(service_matches(RoutedService::Ses, &get, "/v2/email/outbound-emails", &none));
    assert!(service_matches(RoutedService::Ses, &get, "/v2/email", &none));
    assert!(service_matches(RoutedService::Ses, &get, "/_aws/ses", &none));
    assert!(!service_matches(RoutedService::Ses, &get, "/v2/emails", &none));
    let signed = headers(&[("content-type", FORM), ("authorization", SES_AUTH)]);
    assert!(service_matches(RoutedService::Ses, &http::Method::POST, "/", &signed));
    let sns_signed = headers(&[
        ("content-type", FORM),
        ("authorization", "AWS4-HMAC-SHA256 Credential=AKID/20240101/us-east-1/sns/aws4_request"),
    ]);
    assert!(!service_matches(RoutedService::Ses, &http::Method::POST, "/", &sns_signed));
    let email_signed = headers(&[
        ("content-type", FORM),
        ("authorization", "AWS4-HMAC-SHA256 Credential=AKID/20240101/us-east-1/email/aws4_request"),
    ]);
    assert!(service_matches(RoutedService::Ses, &http::Method::POST, "/", &email_signed));
}

#[test]
fn path_routers_match_their_paths() {
    let none = http::HeaderMap::new();
    let get = http::Method::GET;
    for p in ["/v2/apis", "/v2/apis/abc/routes", "/v2/domainnames", "/v2/vpclinks/x", "/v2/tags/arn"] {
        assert!(service_matches(RoutedService::ApiGatewayV2Management, &get, p, &none));
    }
    assert!(!service_matches(RoutedService::ApiGatewayV2Management, &get, "/v2/email", &none));
    assert!(service_matches(RoutedService::ApiGatewayV2Execution, &get, "/_aws/execute-api/abc/prod/x", &none));
    assert!(!service_matches(RoutedService::ApiGatewayV2Execution, &get, "/_aws/execute-api", &none));
    assert!(service_matches(RoutedService::Lambda, &get, "/2015-03-31/functions", &none));
    assert!(!service_matches(RoutedService::Lambda, &get, "/mybucket/key", &none));
    assert!(service_matches(RoutedService::S3, &get, "/mybucket/key", &none));
}

#[test]
fn registration_puts_s3_last() {
    let all: Vec<String> = ["s3", "dynamodb", "sqs", "ssm", "sns", "lambda"]
        .iter()
        .map(|s| s.to_string())
        .collect();
    assert_eq!(
        registered_services(&all),
        vec![
            RoutedService::DynamoDB,
            RoutedService::Sqs,
            RoutedService::Ssm,
            RoutedService::Sns,
            RoutedService::Lambda,
            RoutedService::S3,
        ]
    );
    let some = vec!["s3".to_string(), "sqs".to_string(), "kms".to_string()];
    assert_eq!(registered_services(&some), vec![RoutedService::Sqs, RoutedService::S3]);
    assert!(registered_services(&Vec::new()).is_empty());
}

#[test]
fn routing_picks_the_first_router_that_claims() {
    let services = vec![RoutedService::DynamoDB, RoutedService::Sqs, RoutedService::S3];
    let post = http::Method::POST;
    let ddb = headers(&[("x-amz-target", "DynamoDB_20120810.GetItem")]);
    assert_eq!(route_request(&services, &post, "/", &ddb), Some(0));
    let sqs = headers(&[("x-amz-target", "AmazonSQS.ReceiveMessage")]);
    assert_eq!(route_request(&services, &post, "/", &sqs), Some(1));
    assert_eq!(route_request(&services, &post, "/bucket", &http::HeaderMap::new()), Some(2));
    let no_s3 = vec![RoutedService::DynamoDB];
    assert_eq!(route_request(&no_s3, &post, "/bucket", &http::HeaderMap::new()), None);
}

#[test]
fn gateway_answers_health_probes_itself() {
    let services = vec![RoutedService::S3];
    let none = http::HeaderMap::new();
    assert_eq!(
        gateway_action(&services, &http::Method::GET, "/_localstack/health", &none),
        GatewayAction::HealthCheck
    );
    assert_eq!(
        gateway_action(&services, &http::Method::POST, "/_localstack/health", &none),
        GatewayAction::Dispatch(0)
    );
    assert_eq!(
        gateway_action(&Vec::new(), &http::Method::GET, "/bucket", &none),
        GatewayAction::NoMatch
    );
    assert_eq!(NO_MATCH_BODY, r#"{"error":"no service matched the request"}"#);
}

#[test]
fn router_names() {
    assert_eq!(RoutedService::S3.name(), "s3");
    assert_eq!(RoutedService::ApiGatewayV2Management.name(), "apigatewayv2");
    assert_eq!(RoutedService::ApiGatewayV2Execution.name(), "apigatewayv2-execution");
    assert_eq!(RoutedService::SecretsManager.name(), "secretsmanager");
}

#[test]
fn execution_failures_map_to_status_and_json_message() {
    use_reply(ExecutionFailure::NotFound("no such api".to_string()), 404, r#"{"message":"no such api"}"#);
    use_reply(ExecutionFailure::BadRequest("bad \"path\"".to_string()), 400, r#"{"message":"bad \"path\""}"#);
    use_reply(ExecutionFailure::Internal("line\nbreak".to_string()), 500, r#"{"message":"line\nbreak"}"#);
}

fn use_reply(f: ExecutionFailure, status: u16, body: &str) {
    let (s, b) = execution_error_reply(&f);
    assert_eq!(s, status);
    assert_eq!(b, body);
}
