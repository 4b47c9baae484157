use rustack::apigw_dispatch::{dispatch, ApiGatewayV2ErrorCode, ApiGatewayV2Output, ApiGatewayV2Request};
use rustack::apigw_json::merge_params;
use rustack::apigw_provider::{
    CreateAuthorizerInput, CreateModelInput, UpdateAuthorizerInput, UpdateModelInput,
    CreateApiMappingInput, CreateDomainNameInput, CreateVpcLinkInput, UpdateApiMappingInput,
    CreateApiInput, CreateDeploymentInput, CreateIntegrationInput, CreateRouteInput,
    CreateStageInput, RustackApiGatewayV2, UpdateApiInput,
};
use rustack::apigw_records::ApiGatewayV2ServiceError;

fn pair(k: &str, v: &str) -> (String, String) {
    (k.to_owned(), v.to_owned())
}

fn api_input(name: &str) -> CreateApiInput {
    CreateApiInput {
        name: name.to_owned(),
        protocol_type: "HTTP".to_owned(),
        route_selection_expression: None,
        api_key_selection_expression: None,
        description: None,
        disable_execute_api_endpoint: None,
        disable_schema_validation: None,
        ip_address_type: None,
        version: None,
        tags: vec![],
        target: None,
        route_key: None,
    }
}

fn route_input(api_id: &str, key: &str, target: Option<&str>) -> CreateRouteInput {
    CreateRouteInput {
        api_id: api_id.to_owned(),
        route_key: key.to_owned(),
        target: target.map(str::to_owned),
        authorization_type: None,
        authorizer_id: None,
        api_key_required: None,
        model_selection_expression: None,
        operation_name: None,
        route_response_selection_expression: None,
    }
}

fn stage_input(api_id: &str, name: &str, auto: bool) -> CreateStageInput {
    CreateStageInput {
        api_id: api_id.to_owned(),
        stage_name: name.to_owned(),
        deployment_id: None,
        description: None,
        auto_deploy: Some(auto),
        client_certificate_id: None,
    }
}

fn json(bytes: &[u8]) -> serde_json::Value {
    serde_json::from_slice(bytes).unwrap()
}

fn s(v: &str) -> serde_json::Value {
    serde_json::Value::String(v.to_owned())
}

#[test]
fn merge_params_adds_path_and_query_params() {
    let merged = merge_params(b"", &vec![pair("apiId", "a1")], "tagKeys=k1&tagKeys=k2&x=1");
    let v = json(&merged);
    assert_eq!(v.get("apiId"), Some(&s("a1")));
    assert_eq!(v.get("tagKeys"), Some(&serde_json::Value::Array(vec![s("k1"), s("k2")])));
    assert_eq!(v.get("x"), Some(&s("1")));
    assert_eq!(v.as_object().unwrap().len(), 3);
}

#[test]
fn merge_params_keeps_body_members_and_renames_resource_arn() {
    let merged = merge_params(
        br#"{"apiId":"body","n":3,"tagKeys":["a"]}"#,
        &vec![pair("apiId", "path"), pair("resource-arn", "arn:x")],
        "tagKeys=b&n=9",
    );
    let v = json(&merged);
    assert_eq!(v.get("apiId"), Some(&s("body")));
    assert_eq!(v.get("resourceArn"), Some(&s("arn:x")));
    assert_eq!(v.get("n"), Some(&serde_json::Value::from(3)));
    assert_eq!(v.get("tagKeys"), Some(&serde_json::Value::Array(vec![s("a"), s("b")])));
}

#[test]
fn merge_params_leaves_a_non_object_body_alone() {
    assert_eq!(merge_params(b"[1,2]", &vec![pair("apiId", "a")], "x=1"), b"[1,2]".to_vec());
    assert_eq!(merge_params(b"not json", &vec![], ""), b"not json".to_vec());
}

#[test]
fn create_api_requires_a_name() {
    let mut p = RustackApiGatewayV2::new("us-east-1".to_owned());
    match p.create_api(api_input("")) {
        Err(ApiGatewayV2ServiceError::BadRequest(m)) => assert_eq!(m, "Name is required"),
        other => panic!("unexpected {other:?}"),
    }
    assert!(p.get_apis().is_empty());
}

#[test]
fn create_api_fills_defaults_and_endpoint() {
    let mut p = RustackApiGatewayV2::new("eu-west-1".to_owned());
    let a = p.create_api_with(api_input("shop"), "abc123".to_owned(), "i1".to_owned(), "r1".to_owned(), 7).unwrap();
    assert_eq!(a.api_endpoint, "https://abc123.execute-api.eu-west-1.amazonaws.com");
    assert_eq!(a.route_selection_expression, "${request.method} ${request.path}");
    assert!(!a.disable_execute_api_endpoint);
    assert_eq!(a.created_date, 7);
    assert_eq!(p.get_api("abc123").unwrap().name, "shop");
    assert!(p.get_routes("abc123").unwrap().is_empty());
}

#[test]
fn create_api_with_target_makes_route_and_integration() {
    let mut p = RustackApiGatewayV2::new("us-east-1".to_owned());
    let mut input = api_input("quick");
    input.target = Some("arn:aws:lambda:fn".to_owned());
    input.tags = vec![pair("env", "prod")];
    p.create_api_with(input, "q1".to_owned(), "i1".to_owned(), "r1".to_owned(), 1).unwrap();
    let routes = p.get_routes("q1").unwrap();
    assert_eq!(routes.len(), 1);
    assert_eq!(routes[0].route_key, "$default");
    assert_eq!(routes[0].target.as_deref(), Some("integrations/i1"));
    let it = p.get_integration("q1", "i1").unwrap();
    assert_eq!(it.integration_type, "AWS_PROXY");
    assert_eq!(it.payload_format_version, "2.0");
    assert_eq!(it.timeout_in_millis, 30000);
    let tags = p.get_tags("arn:aws:apigateway:us-east-1::/apis/q1");
    assert_eq!(tags.len(), 1);
    assert_eq!(tags[0].value, "prod");
}

#[test]
fn missing_resources_give_not_found_messages() {
    let mut p = RustackApiGatewayV2::new("us-east-1".to_owned());
    match p.get_api("nope") {
        Err(ApiGatewayV2ServiceError::NotFound(m)) => assert_eq!(m, "Unable to find Api with id 'nope'"),
        other => panic!("unexpected {other:?}"),
    }
    p.create_api_with(api_input("a"), "a1".to_owned(), "x".to_owned(), "y".to_owned(), 0).unwrap();
    match p.get_route("a1", "r9") {
        Err(ApiGatewayV2ServiceError::NotFound(m)) => assert_eq!(m, "Unable to find Route with id 'r9'"),
        other => panic!("unexpected {other:?}"),
    }
    match p.get_stage("a1", "prod") {
        Err(ApiGatewayV2ServiceError::NotFound(m)) => assert_eq!(m, "Unable to find Stage with name 'prod'"),
        other => panic!("unexpected {other:?}"),
    }
}

#[test]
fn update_api_changes_only_given_fields() {
    let mut p = RustackApiGatewayV2::new("us-east-1".to_owned());
    p.create_api_with(api_input("old"), "a1".to_owned(), "x".to_owned(), "y".to_owned(), 0).unwrap();
    let u = UpdateApiInput {
        api_id: "a1".to_owned(),
        name: Some("new".to_owned()),
        description: Some("d".to_owned()),
        disable_execute_api_endpoint: None,
        disable_schema_validation: Some(true),
        route_selection_expression: None,
        api_key_selection_expression: None,
        version: None,
        ip_address_type: None,
    };
    let a = p.update_api(u).unwrap();
    assert_eq!(a.name, "new");
    assert_eq!(a.description.as_deref(), Some("d"));
    assert!(a.disable_schema_validation);
    assert_eq!(a.protocol_type, "HTTP");
    assert_eq!(p.get_apis().len(), 1);
}

#[test]
fn route_changes_deploy_auto_deploying_stages() {
    let mut p = RustackApiGatewayV2::new("us-east-1".to_owned());
    p.create_api_with(api_input("a"), "a1".to_owned(), "x".to_owned(), "y".to_owned(), 0).unwrap();
    p.create_stage(stage_input("a1", "auto", true), 5).unwrap();
    p.create_stage(stage_input("a1", "manual", false), 5).unwrap();
    p.create_route_with(route_input("a1", "GET /x", None), "r1".to_owned(), 9).unwrap();
    let deps = p.get_deployments("a1").unwrap();
    assert_eq!(deps.len(), 1);
    assert!(deps[0].auto_deployed);
    assert_eq!(deps[0].description.as_deref(), Some("Auto-deployed"));
    assert_eq!(deps[0].deployment_id.len(), 10);
    let auto = p.get_stage("a1", "auto").unwrap();
    assert_eq!(auto.deployment_id.as_deref(), Some(deps[0].deployment_id.as_str()));
    assert_eq!(auto.last_updated_date, 9);
    assert!(p.get_stage("a1", "manual").unwrap().deployment_id.is_none());
}

#[test]
fn create_stage_twice_conflicts() {
    let mut p = RustackApiGatewayV2::new("us-east-1".to_owned());
    p.create_api_with(api_input("a"), "a1".to_owned(), "x".to_owned(), "y".to_owned(), 0).unwrap();
    p.create_stage(stage_input("a1", "prod", false), 1).unwrap();
    match p.create_stage(stage_input("a1", "prod", false), 2) {
        Err(ApiGatewayV2ServiceError::Conflict(m)) => assert_eq!(m, "Stage 'prod' already exists"),
        other => panic!("unexpected {other:?}"),
    }
}

#[test]
fn deleting_an_integration_clears_route_targets() {
    let mut p = RustackApiGatewayV2::new("us-east-1".to_owned());
    p.create_api_with(api_input("a"), "a1".to_owned(), "x".to_owned(), "y".to_owned(), 0).unwrap();
    let it = CreateIntegrationInput {
        api_id: "a1".to_owned(),
        integration_type: "HTTP_PROXY".to_owned(),
        integration_method: Some("GET".to_owned()),
        integration_uri: Some("https://example.com".to_owned()),
        connection_type: None,
        connection_id: None,
        credentials_arn: None,
        description: None,
        payload_format_version: None,
        timeout_in_millis: None,
    };
    let it = p.create_integration_with(it, "i1".to_owned(), 1).unwrap();
    assert_eq!(it.payload_format_version, "1.0");
    p.create_route_with(route_input("a1", "GET /a", Some("integrations/i1")), "r1".to_owned(), 1).unwrap();
    p.create_route_with(route_input("a1", "GET /b", Some("integrations/i2")), "r2".to_owned(), 1).unwrap();
    p.delete_integration("a1", "i1", 2).unwrap();
    assert!(p.get_route("a1", "r1").unwrap().target.is_none());
    assert_eq!(p.get_route("a1", "r2").unwrap().target.as_deref(), Some("integrations/i2"));
    assert!(p.get_integration("a1", "i1").is_err());
}

#[test]
fn deleting_a_deployment_clears_stages_at_it() {
    let mut p = RustackApiGatewayV2::new("us-east-1".to_owned());
    p.create_api_with(api_input("a"), "a1".to_owned(), "x".to_owned(), "y".to_owned(), 0).unwrap();
    p.create_stage(stage_input("a1", "prod", false), 1).unwrap();
    let d = CreateDeploymentInput { api_id: "a1".to_owned(), description: None, stage_name: Some("prod".to_owned()) };
    p.create_deployment_with(d, "d1".to_owned(), 3).unwrap();
    assert_eq!(p.get_stage("a1", "prod").unwrap().deployment_id.as_deref(), Some("d1"));
    p.delete_deployment("a1", "d1").unwrap();
    assert!(p.get_stage("a1", "prod").unwrap().deployment_id.is_none());
}

#[test]
fn delete_api_removes_what_it_holds() {
    let mut p = RustackApiGatewayV2::new("us-east-1".to_owned());
    let mut input = api_input("a");
    input.tags = vec![pair("k", "v")];
    p.create_api_with(input, "a1".to_owned(), "x".to_owned(), "y".to_owned(), 0).unwrap();
    p.create_stage(stage_input("a1", "prod", false), 1).unwrap();
    p.delete_api("a1").unwrap();
    assert!(p.get_api("a1").is_err());
    assert!(p.get_stages("a1").is_err());
    assert!(p.get_tags("arn:aws:apigateway:us-east-1::/apis/a1").is_empty());
    assert!(p.delete_api("a1").is_err());
}

#[test]
fn tags_are_set_replaced_and_removed() {
    let mut p = RustackApiGatewayV2::new("us-east-1".to_owned());
    let arn = "arn:res".to_owned();
    p.tag_resource(&arn, &vec![pair("a", "1"), pair("b", "2")]);
    p.tag_resource(&arn, &vec![pair("a", "3")]);
    let tags = p.get_tags("arn:res");
    assert_eq!(tags.len(), 2);
    assert_eq!(tags[0].key, "a");
    assert_eq!(tags[0].value, "3");
    p.untag_resource("arn:res", &vec!["b".to_owned(), "zzz".to_owned()]);
    let tags = p.get_tags("arn:res");
    assert_eq!(tags.len(), 1);
    assert_eq!(tags[0].key, "a");
}

#[test]
fn dispatch_answers_with_operation_statuses() {
    let mut p = RustackApiGatewayV2::new("us-east-1".to_owned());
    let (status, out) = dispatch(&mut p, ApiGatewayV2Request::CreateApi(Ok(api_input("a"))), &vec![], "").unwrap();
    assert_eq!(status, 201);
    let id = match out {
        ApiGatewayV2Output::Api(a) => a.api_id,
        other => panic!("unexpected {other:?}"),
    };
    assert_eq!(id.len(), 10);
    let ps = vec![pair("apiId", &id)];
    let (status, _) = dispatch(&mut p, ApiGatewayV2Request::GetApi, &ps, "").unwrap();
    assert_eq!(status, 200);
    let (status, out) = dispatch(&mut p, ApiGatewayV2Request::GetApis, &vec![], "").unwrap();
    assert_eq!(status, 200);
    assert!(matches!(out, ApiGatewayV2Output::Apis(v) if v.len() == 1));
    let arn = vec![pair("resource-arn", "arn:r")];
    let (status, _) = dispatch(&mut p, ApiGatewayV2Request::TagResource(Ok(vec![pair("k", "v"), pair("j", "w")])), &arn, "").unwrap();
    assert_eq!(status, 201);
    let (status, _) = dispatch(&mut p, ApiGatewayV2Request::UntagResource, &arn, "tagKeys=k&other=1").unwrap();
    assert_eq!(status, 204);
    match dispatch(&mut p, ApiGatewayV2Request::GetTags, &arn, "").unwrap().1 {
        ApiGatewayV2Output::Tags(t) => {
            assert_eq!(t.len(), 1);
            assert_eq!(t[0].key, "j");
        }
        other => panic!("unexpected {other:?}"),
    }
    let (status, _) = dispatch(&mut p, ApiGatewayV2Request::DeleteApi, &ps, "").unwrap();
    assert_eq!(status, 204);
    let e = dispatch(&mut p, ApiGatewayV2Request::DeleteApi, &ps, "").unwrap_err();
    assert_eq!(e.code, ApiGatewayV2ErrorCode::NotFoundException);
}

#[test]
fn dispatch_reports_missing_params_and_bad_bodies() {
    let mut p = RustackApiGatewayV2::new("us-east-1".to_owned());
    let e = dispatch(&mut p, ApiGatewayV2Request::GetRoute, &vec![pair("apiId", "a")], "").unwrap_err();
    assert_eq!(e.code, ApiGatewayV2ErrorCode::InternalServerError);
    assert_eq!(e.message, "Missing path parameter: routeId");
    let e = dispatch(&mut p, ApiGatewayV2Request::CreateApi(Err("expected value".to_owned())), &vec![], "").unwrap_err();
    assert_eq!(e.code, ApiGatewayV2ErrorCode::BadRequestException);
    assert_eq!(e.message, "Invalid request body: expected value");
    let e = dispatch(&mut p, ApiGatewayV2Request::CreateDeployment(Err("bad".to_owned())), &vec![pair("apiId", "none")], "").unwrap_err();
    assert_eq!(e.code, ApiGatewayV2ErrorCode::NotFoundException);
    assert_eq!(e.message, "Unable to find Api with id 'none'");
}

#[test]
fn models_are_created_updated_and_listed() {
    let mut p = RustackApiGatewayV2::new("us-east-1".to_owned());
    p.create_api_with(api_input("a"), "a1".to_owned(), "x".to_owned(), "y".to_owned(), 0).unwrap();
    let m = CreateModelInput {
        api_id: "a1".to_owned(),
        name: "Pet".to_owned(),
        content_type: Some("application/json".to_owned()),
        schema: "{}".to_owned(),
        description: None,
    };
    p.create_model_with(m, "m1".to_owned()).unwrap();
    let u = UpdateModelInput {
        api_id: "a1".to_owned(),
        model_id: "m1".to_owned(),
        name: None,
        content_type: None,
        schema: Some("{\"type\":\"object\"}".to_owned()),
        description: Some("pets".to_owned()),
    };
    let m = p.update_model(u).unwrap();
    assert_eq!(m.name, "Pet");
    assert_eq!(m.description.as_deref(), Some("pets"));
    assert_eq!(p.get_model_template("a1", "m1").unwrap(), "{\"type\":\"object\"}");
    assert_eq!(p.get_models("a1").unwrap().len(), 1);
    p.delete_model("a1", "m1").unwrap();
    match p.get_model("a1", "m1") {
        Err(ApiGatewayV2ServiceError::NotFound(m)) => assert_eq!(m, "Unable to find Model with id 'm1'"),
        other => panic!("unexpected {other:?}"),
    }
}

#[test]
fn deleting_an_authorizer_clears_routes_using_it() {
    let mut p = RustackApiGatewayV2::new("us-east-1".to_owned());
    p.create_api_with(api_input("a"), "a1".to_owned(), "x".to_owned(), "y".to_owned(), 0).unwrap();
    let a = CreateAuthorizerInput {
        api_id: "a1".to_owned(),
        name: "jwt".to_owned(),
        authorizer_type: "JWT".to_owned(),
        authorizer_uri: None,
        authorizer_payload_format_version: None,
        enable_simple_responses: None,
        authorizer_result_ttl_in_seconds: Some(300),
    };
    p.create_authorizer_with(a, "z1".to_owned()).unwrap();
    let u = UpdateAuthorizerInput {
        api_id: "a1".to_owned(),
        authorizer_id: "z1".to_owned(),
        name: Some("jwt2".to_owned()),
        authorizer_type: None,
        authorizer_uri: None,
        authorizer_payload_format_version: None,
        enable_simple_responses: Some(true),
        authorizer_result_ttl_in_seconds: None,
    };
    let a = p.update_authorizer(u).unwrap();
    assert_eq!(a.name, "jwt2");
    assert_eq!(a.authorizer_type, "JWT");
    assert_eq!(a.authorizer_result_ttl_in_seconds, Some(300));
    let mut r = route_input("a1", "GET /s", None);
    r.authorizer_id = Some("z1".to_owned());
    p.create_route_with(r, "r1".to_owned(), 0).unwrap();
    p.delete_authorizer("a1", "z1").unwrap();
    assert!(p.get_route("a1", "r1").unwrap().authorizer_id.is_none());
    assert!(p.get_authorizers("a1").unwrap().is_empty());
}

#[test]
fn domain_names_hold_api_mappings() {
    let mut p = RustackApiGatewayV2::new("us-east-1".to_owned());
    let d = CreateDomainNameInput {
        domain_name: "api.example.com".to_owned(),
        routing_mode: None,
        mutual_tls: None,
        tags: vec![pair("team", "web")],
    };
    p.create_domain_name(d.clone()).unwrap();
    match p.create_domain_name(d) {
        Err(ApiGatewayV2ServiceError::Conflict(m)) => assert_eq!(m, "Domain name 'api.example.com' already exists"),
        other => panic!("unexpected {other:?}"),
    }
    let m = CreateApiMappingInput {
        domain_name: "api.example.com".to_owned(),
        api_id: "a1".to_owned(),
        api_mapping_key: Some("v1".to_owned()),
        stage: "prod".to_owned(),
    };
    p.create_api_mapping_with(m, "m1".to_owned()).unwrap();
    let u = UpdateApiMappingInput {
        domain_name: "api.example.com".to_owned(),
        api_mapping_id: "m1".to_owned(),
        api_id: "a2".to_owned(),
        api_mapping_key: None,
        stage: Some("beta".to_owned()),
    };
    let m = p.update_api_mapping(u).unwrap();
    assert_eq!(m.api_id, "a2");
    assert_eq!(m.api_mapping_key.as_deref(), Some("v1"));
    assert_eq!(m.stage, "beta");
    assert_eq!(p.get_api_mappings("api.example.com").unwrap().len(), 1);
    assert_eq!(p.get_tags("arn:aws:apigateway:us-east-1::/domainnames/api.example.com").len(), 1);
    p.delete_domain_name("api.example.com").unwrap();
    match p.get_api_mappings("api.example.com") {
        Err(ApiGatewayV2ServiceError::NotFound(m)) => assert_eq!(m, "Unable to find DomainName 'api.example.com'"),
        other => panic!("unexpected {other:?}"),
    }
    assert!(p.get_tags("arn:aws:apigateway:us-east-1::/domainnames/api.example.com").is_empty());
}

#[test]
fn vpc_links_are_kept_renamed_and_deleted() {
    let mut p = RustackApiGatewayV2::new("us-east-1".to_owned());
    let v = CreateVpcLinkInput {
        name: "link".to_owned(),
        security_group_ids: vec!["sg-1".to_owned()],
        subnet_ids: vec!["sn-1".to_owned(), "sn-2".to_owned()],
        tags: vec![],
    };
    let created = p.create_vpc_link_with(v, "v1".to_owned(), 4);
    assert_eq!(created.subnet_ids.len(), 2);
    let renamed = p.update_vpc_link("v1", Some("renamed".to_owned())).unwrap();
    assert_eq!(renamed.name, "renamed");
    assert_eq!(renamed.security_group_ids, vec!["sg-1".to_owned()]);
    assert_eq!(p.get_vpc_links().len(), 1);
    p.delete_vpc_link("v1").unwrap();
    match p.get_vpc_link("v1") {
        Err(ApiGatewayV2ServiceError::NotFound(m)) => assert_eq!(m, "Unable to find VpcLink with id 'v1'"),
        other => panic!("unexpected {other:?}"),
    }
    let e = dispatch(&mut p, ApiGatewayV2Request::DeleteVpcLink, &vec![pair("vpcLinkId", "v1")], "").unwrap_err();
    assert_eq!(e.code, ApiGatewayV2ErrorCode::NotFoundException);
}

#[test]
fn delete_vpc_link_answers_202() {
    let mut p = RustackApiGatewayV2::new("us-east-1".to_owned());
    let v = CreateVpcLinkInput { name: "l".to_owned(), security_group_ids: vec![], subnet_ids: vec![], tags: vec![] };
    let (status, out) = dispatch(&mut p, ApiGatewayV2Request::CreateVpcLink(Ok(v)), &vec![], "").unwrap();
    assert_eq!(status, 201);
    let id = match out {
        ApiGatewayV2Output::VpcLink(v) => v.vpc_link_id,
        other => panic!("unexpected {other:?}"),
    };
    let (status, _) = dispatch(&mut p, ApiGatewayV2Request::DeleteVpcLink, &vec![pair("vpcLinkId", &id)], "").unwrap();
    assert_eq!(status, 202);
}

#[test]
fn route_responses_belong_to_their_route() {
    let mut p = RustackApiGatewayV2::new("us-east-1".to_owned());
    p.create_api_with(api_input("a"), "a1".to_owned(), "x".to_owned(), "y".to_owned(), 0).unwrap();
    p.create_route_with(route_input("a1", "GET /a", None), "r1".to_owned(), 0).unwrap();
    p.create_route_with(route_input("a1", "GET /b", None), "r2".to_owned(), 0).unwrap();
    p.create_route_response_with("a1", "r1", "$default".to_owned(), None, "rr1".to_owned()).unwrap();
    assert_eq!(p.get_route_responses("a1", "r1").unwrap().len(), 1);
    assert!(p.get_route_responses("a1", "r2").unwrap().is_empty());
    match p.get_route_response("a1", "r2", "rr1") {
        Err(ApiGatewayV2ServiceError::NotFound(m)) => assert_eq!(m, "Unable to find RouteResponse with id 'rr1'"),
        other => panic!("unexpected {other:?}"),
    }
    match p.create_route_response_with("a1", "r9", "$default".to_owned(), None, "rr2".to_owned()) {
        Err(ApiGatewayV2ServiceError::NotFound(m)) => assert_eq!(m, "Unable to find Route with id 'r9'"),
        other => panic!("unexpected {other:?}"),
    }
    p.delete_route_response("a1", "r1", "rr1").unwrap();
    assert!(p.get_route_response("a1", "r1", "rr1").is_err());
}
