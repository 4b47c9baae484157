use rustack::apigw::{get_query_param, parse_query_params, percent_decode, CONTENT_TYPE};

fn pair(k: &str, v: &str) -> (String, String) {
    (k.to_owned(), v.to_owned())
}

#[test]
fn test_should_use_application_json_content_type() {
    assert_eq!(CONTENT_TYPE, "application/json");
}

#[test]
fn percent_decode_decodes_bytes_and_plus() {
    assert_eq!(percent_decode("a%20b+c"), "a b c");
    assert_eq!(percent_decode("%41%42"), "AB");
    assert_eq!(percent_decode("%e9"), "\u{e9}");
    assert_eq!(percent_decode("plain"), "plain");
    assert_eq!(percent_decode(""), "");
}

#[test]
fn percent_decode_keeps_invalid_escapes() {
    assert_eq!(percent_decode("%zz1"), "%zz1");
    assert_eq!(percent_decode("100%"), "100%");
    assert_eq!(percent_decode("%4"), "%4");
    assert_eq!(percent_decode("%+A"), "\n");
    assert_eq!(percent_decode("%-1x"), "%-1x");
}

#[test]
fn query_params_split_on_ampersand_and_equals() {
    let params = parse_query_params("a=1&b=x%20y&&c&d=e=f");
    assert_eq!(
        params,
        vec![pair("a", "1"), pair("b", "x y"), pair("c", ""), pair("d", "e=f")]
    );
    assert!(parse_query_params("").is_empty());
    assert!(parse_query_params("&&").is_empty());
}

#[test]
fn query_param_lookup_takes_first_match() {
    let params = vec![pair("a", "1"), pair("b", "2"), pair("a", "3")];
    assert_eq!(get_query_param(&params, "a"), Some("1".to_owned()));
    assert_eq!(get_query_param(&params, "b"), Some("2".to_owned()));
    assert_eq!(get_query_param(&params, "c"), None);
}

#[test]
fn required_path_params() {
    let params = vec![("apiId".to_string(), "a1".to_string()), ("apiId".to_string(), "a2".to_string())];
    assert_eq!(rustack::apigw::require_path_param(&params, "apiId").unwrap(), "a1");
    assert_eq!(
        rustack::apigw::require_path_param(&params, "routeId").unwrap_err(),
        "Missing path parameter: routeId"
    );
}
