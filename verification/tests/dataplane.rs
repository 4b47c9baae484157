use rustack::dataplane::{
    check_divergence, check_request, handle_function, handle_lambda_edge, handle_signed_url, handle_viewer_protocol,
    method_is_allowed, parse_path_based, resolve_request, xml_escape, DataPlaneError,
    DivergenceTracker, RequestTarget,
};

#[test]
fn test_parse_path_based() {
    let (id, path) = parse_path_based("/_aws/cloudfront/e1abcd/index.html").unwrap();
    assert_eq!(id, "E1ABCD");
    assert_eq!(path, "/index.html");

    let (id, path) = parse_path_based("/_aws/cloudfront/e1abcd").unwrap();
    assert_eq!(id, "E1ABCD");
    assert_eq!(path, "/");

    assert!(parse_path_based("/wrong/prefix").is_none());
}

#[test]
fn path_based_needs_an_id() {
    assert!(parse_path_based("/_aws/cloudfront/").is_none());
    assert!(parse_path_based("/_aws/cloudfront//x").is_none());
    let (id, path) = parse_path_based("/_aws/cloudfront/e1/").unwrap();
    assert_eq!(id, "E1");
    assert_eq!(path, "/");
    let (_, path) = parse_path_based("/_aws/cloudfront/e1/a/b").unwrap();
    assert_eq!(path, "/a/b");
}

#[test]
fn allowed_methods_default_to_get_and_head() {
    let none = behavior();
    assert!(method_is_allowed(&none, &http::Method::GET));
    assert!(method_is_allowed(&none, &http::Method::HEAD));
    assert!(!method_is_allowed(&none, &http::Method::POST));
    let mut listed = behavior();
    listed.allowed_methods = vec!["get".to_owned(), "Post".to_owned()];
    assert!(method_is_allowed(&listed, &http::Method::POST));
    assert!(method_is_allowed(&listed, &http::Method::GET));
    assert!(!method_is_allowed(&listed, &http::Method::HEAD));
}

#[test]
fn xml_escape_escapes_markup() {
    assert_eq!(xml_escape("a<b>&c"), "a&lt;b&gt;&amp;c");
    assert_eq!(xml_escape("\"quoted\""), "\"quoted\"");
    assert_eq!(xml_escape(""), "");
}

#[test]
fn divergence_warnings_are_rate_limited() {
    let mut t = DivergenceTracker::new(u64::MAX);
    assert!(t.should_log("k"));
    assert!(!t.should_log("k"));
    assert!(t.should_log("other"));
    let mut every = DivergenceTracker::new(0);
    assert!(every.should_log("k"));
    assert!(every.should_log("k"));
}

#[test]
fn divergence_handlers_fail_or_warn() {
    let mut t = DivergenceTracker::new(u64::MAX);
    match handle_lambda_edge(&mut t, true, "E1") {
        Err(DataPlaneError::FunctionExecutionSkipped(m)) => assert_eq!(
            m,
            "Lambda@Edge would have executed but CLOUDFRONT_FAIL_ON_FUNCTION=true (E1)"
        ),
        other => panic!("unexpected {other:?}"),
    }
    assert_eq!(handle_lambda_edge(&mut t, false, "E1").unwrap(), true);
    assert_eq!(handle_lambda_edge(&mut t, false, "E1").unwrap(), false);
    assert_eq!(handle_function(&mut t, false, "E1").unwrap(), true);
    match handle_function(&mut t, true, "E2") {
        Err(DataPlaneError::FunctionExecutionSkipped(m)) => assert_eq!(
            m,
            "CloudFront Function would have executed but CLOUDFRONT_FAIL_ON_FUNCTION=true (E2)"
        ),
        other => panic!("unexpected {other:?}"),
    }
    match handle_signed_url(&mut t, true, "E3") {
        Err(e) => assert_eq!(
            e.message(),
            "Behavior requires signed URL but Rustack does not verify signatures (E3)"
        ),
        Ok(_) => panic!("expected an error"),
    }
    assert_eq!(handle_signed_url(&mut t, false, "E3").unwrap(), true);
}

#[test]
fn viewer_protocol_policies() {
    let mut t = DivergenceTracker::new(u64::MAX);
    assert_eq!(handle_viewer_protocol(&mut t, true, "E1", "allow-all").unwrap(), false);
    match handle_viewer_protocol(&mut t, true, "E1", "https-only") {
        Err(DataPlaneError::BehaviorResolution(m)) => assert_eq!(
            m,
            "ViewerProtocolPolicy is 'https-only' but Rustack is HTTP-only (E1)"
        ),
        other => panic!("unexpected {other:?}"),
    }
    assert_eq!(handle_viewer_protocol(&mut t, true, "E1", "redirect-to-https").unwrap(), true);
    assert_eq!(handle_viewer_protocol(&mut t, false, "E1", "redirect-to-https").unwrap(), false);
    assert_eq!(handle_viewer_protocol(&mut t, false, "E1", "https-only").unwrap(), true);
}

#[test]
fn data_plane_error_messages() {
    assert_eq!(DataPlaneError::NoSuchDistribution("x".to_owned()).message(), "x");
    assert_eq!(DataPlaneError::MethodNotAllowed("m".to_owned()).message(), "m");
}

fn behavior() -> rustack::cloudfront_model::CacheBehavior {
    rustack::cloudfront_model::CacheBehavior::default()
}

#[test]
fn divergence_checks_fail_on_first_feature() {
    let mut t = DivergenceTracker::new(1_000_000_000);
    let mut b = behavior();
    assert!(check_divergence(&mut t, true, "E1", &b).is_ok());
    b.viewer_protocol_policy = "https-only".to_string();
    match check_divergence(&mut t, true, "E1", &b) {
        Err(DataPlaneError::BehaviorResolution(m)) => {
            assert_eq!(m, "ViewerProtocolPolicy is 'https-only' but Rustack is HTTP-only (E1)")
        }
        other => panic!("unexpected {other:?}"),
    }
    b.trusted_signers_enabled = true;
    b.trusted_signers = vec!["123".to_string()];
    assert!(matches!(
        check_divergence(&mut t, true, "E1", &b),
        Err(DataPlaneError::SignedUrlRequired(_))
    ));
    b.function_associations.push(rustack::cloudfront_model::FunctionAssociation {
        function_arn: "arn".to_string(),
        event_type: "viewer-request".to_string(),
    });
    match check_divergence(&mut t, true, "E1", &b) {
        Err(DataPlaneError::FunctionExecutionSkipped(m)) => assert!(m.starts_with("CloudFront Function")),
        other => panic!("unexpected {other:?}"),
    }
    b.lambda_function_associations.push(rustack::cloudfront_model::LambdaFunctionAssociation {
        lambda_function_arn: "arn".to_string(),
        event_type: "origin-request".to_string(),
        include_body: false,
    });
    match check_divergence(&mut t, true, "E1", &b) {
        Err(DataPlaneError::FunctionExecutionSkipped(m)) => assert!(m.starts_with("Lambda@Edge")),
        other => panic!("unexpected {other:?}"),
    }
    assert!(check_divergence(&mut t, false, "E1", &b).is_ok());
}

#[test]
fn divergence_checks_without_fail_only_warn() {
    let mut t = DivergenceTracker::new(60_000_000_000);
    let mut b = behavior();
    b.viewer_protocol_policy = "redirect-to-https".to_string();
    b.trusted_key_groups_enabled = true;
    assert!(check_divergence(&mut t, false, "E2", &b).is_ok());
    assert!(check_divergence(&mut t, true, "E2", &b).is_ok());
    // The warning for the policy was recorded once and is now rate-limited.
    assert!(!t.should_log("E2:vpp-redirect-to-https"));
}

fn config_with_origin(id: &str) -> rustack::cloudfront_model::DistributionConfig {
    let root = rustack::cloudfront_request::parse_root(
        format!(
            "<DistributionConfig><Enabled>true</Enabled><Origins><Items><Origin><Id>{id}</Id><DomainName>b.s3.amazonaws.com</DomainName></Origin></Items></Origins></DistributionConfig>"
        )
        .as_bytes(),
    )
    .unwrap();
    rustack::cloudfront_request::parse_distribution_config(&root)
}

#[test]
fn request_checks_in_order() {
    let mut t = DivergenceTracker::new(1_000_000_000);
    let mut cfg = config_with_origin("o1");
    let mut b = behavior();
    b.path_pattern = "/api/*".to_string();
    b.target_origin_id = "o1".to_string();
    let o = check_request(&mut t, false, "E9", &cfg, &b, &http::Method::GET).unwrap();
    assert_eq!(o.domain_name, "b.s3.amazonaws.com");
    match check_request(&mut t, false, "E9", &cfg, &b, &http::Method::POST) {
        Err(DataPlaneError::MethodNotAllowed(m)) => {
            assert_eq!(m, "POST is not in AllowedMethods for behavior /api/*")
        }
        other => panic!("unexpected {other:?}"),
    }
    b.target_origin_id = "missing".to_string();
    match check_request(&mut t, false, "E9", &cfg, &b, &http::Method::GET) {
        Err(DataPlaneError::BehaviorResolution(m)) => {
            assert_eq!(m, "TargetOriginId missing does not match any Origin")
        }
        other => panic!("unexpected {other:?}"),
    }
    b.function_associations.push(rustack::cloudfront_model::FunctionAssociation {
        function_arn: "arn".to_string(),
        event_type: "viewer-request".to_string(),
    });
    assert!(matches!(
        check_request(&mut t, true, "E9", &cfg, &b, &http::Method::GET),
        Err(DataPlaneError::FunctionExecutionSkipped(_))
    ));
    cfg.enabled = false;
    match check_request(&mut t, false, "E9", &cfg, &b, &http::Method::GET) {
        Err(DataPlaneError::DistributionDisabled(m)) => assert_eq!(m, "E9"),
        other => panic!("unexpected {other:?}"),
    }
}

#[test]
fn requests_resolve_by_path_then_host() {
    let none = http::HeaderMap::new();
    match resolve_request("/_aws/cloudfront/e1/a.txt", &none).unwrap() {
        RequestTarget::Distribution { id, object_path } => {
            assert_eq!(id, "E1");
            assert_eq!(object_path, "/a.txt");
        }
        other => panic!("unexpected {other:?}"),
    }
    let mut host = http::HeaderMap::new();
    host.insert("host", http::HeaderValue::from_static("d111.cloudfront.localhost"));
    match resolve_request("/a.txt", &host).unwrap() {
        RequestTarget::Host { host, object_path } => {
            assert_eq!(host, "d111.cloudfront.localhost");
            assert_eq!(object_path, "/a.txt");
        }
        other => panic!("unexpected {other:?}"),
    }
    match resolve_request("/a.txt", &none) {
        Err(DataPlaneError::NoSuchDistribution(m)) => assert_eq!(m, "/a.txt"),
        other => panic!("unexpected {other:?}"),
    }
}
