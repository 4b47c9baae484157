use rustack::cloudfront_model::CloudFrontError;
use rustack::cloudfront_query::{base64_decode_or_raw, percent_decode, query_max_items, query_resource};

#[test]
fn max_items_reads_first_argument() {
    assert_eq!(query_max_items(Some("MaxItems=5")), 5);
    assert_eq!(query_max_items(Some("Marker=x&MaxItems=25")), 25);
    assert_eq!(query_max_items(Some("MaxItems=bad&MaxItems=7")), 100);
    assert_eq!(query_max_items(Some("MaxItems=-3")), -3);
    assert_eq!(query_max_items(Some("maxitems=5")), 100);
    assert_eq!(query_max_items(Some("")), 100);
    assert_eq!(query_max_items(None), 100);
}

#[test]
fn resource_is_percent_decoded() {
    assert_eq!(
        query_resource(Some("Resource=arn%3Aaws%3Acloudfront%3A%3A123456789012%3Adistribution%2FE1")).unwrap(),
        "arn:aws:cloudfront::123456789012:distribution/E1"
    );
    assert_eq!(query_resource(Some("x=1&Resource=a&Resource=b")).unwrap(), "a");
    match query_resource(Some("x=1")) {
        Err(CloudFrontError::MissingArgument(m)) => assert_eq!(m, "Resource query parameter is required"),
        other => panic!("unexpected {other:?}"),
    }
    assert!(matches!(query_resource(None), Err(CloudFrontError::MissingArgument(_))));
}

#[test]
fn percent_decoding_keeps_plus_and_bad_escapes() {
    assert_eq!(percent_decode("a%2Bb+c"), "a+b+c");
    assert_eq!(percent_decode("100%"), "100%");
    assert_eq!(percent_decode("%zz%4a"), "%zzJ");
    assert_eq!(percent_decode("%ff"), "\u{FFFD}");
    assert_eq!(percent_decode("caf%C3%A9"), "café");
}

#[test]
fn base64_or_raw_payloads() {
    assert_eq!(base64_decode_or_raw("aGVsbG8="), b"hello".to_vec());
    assert_eq!(base64_decode_or_raw("function handler() {}"), b"function handler() {}".to_vec());
    assert_eq!(base64_decode_or_raw(""), Vec::<u8>::new());
}
