//! The records the API Gateway v2 control plane keeps, its errors, and how
//! identifiers, endpoints and ARNs are formed.

use vstd::prelude::*;
use crate::apigw_store::Keyed;
use crate::streams_store::{copy_opt_string, lower_hex_digit, new_uuid, uuid_text};
use crate::text::{push_str_chars, str_chars, string_from_chars};

verus! {

/// An HTTP or WebSocket API.
#[derive(Debug, Clone)]
pub struct ApiRecord {
    pub api_id: String,
    pub name: String,
    pub protocol_type: String,
    pub route_selection_expression: String,
    pub api_key_selection_expression: Option<String>,
    pub description: Option<String>,
    pub disable_execute_api_endpoint: bool,
    pub disable_schema_validation: bool,
    pub ip_address_type: Option<String>,
    pub version: Option<String>,
    pub api_endpoint: String,
    /// Creation time, in seconds since the Unix epoch.
    pub created_date: i64,
}

/// A route of an API.
#[derive(Debug, Clone)]
pub struct RouteRecord {
    pub api_id: String,
    pub route_id: String,
    pub route_key: String,
    pub target: Option<String>,
    pub authorization_type: Option<String>,
    pub authorizer_id: Option<String>,
    pub api_key_required: bool,
    pub model_selection_expression: Option<String>,
    pub operation_name: Option<String>,
    pub route_response_selection_expression: Option<String>,
    pub api_gateway_managed: bool,
}

/// An integration of an API.
#[derive(Debug, Clone)]
pub struct IntegrationRecord {
    pub api_id: String,
    pub integration_id: String,
    pub integration_type: String,
    pub integration_method: Option<String>,
    pub integration_uri: Option<String>,
    pub connection_type: Option<String>,
    pub connection_id: Option<String>,
    pub credentials_arn: Option<String>,
    pub description: Option<String>,
    pub payload_format_version: String,
    pub timeout_in_millis: i64,
    pub api_gateway_managed: bool,
}

/// A stage of an API.
#[derive(Debug, Clone)]
pub struct StageRecord {
    pub api_id: String,
    pub stage_name: String,
    pub deployment_id: Option<String>,
    pub description: Option<String>,
    pub auto_deploy: bool,
    pub client_certificate_id: Option<String>,
    pub created_date: i64,
    pub last_updated_date: i64,
}

/// A deployment of an API.
#[derive(Debug, Clone)]
pub struct DeploymentRecord {
    pub api_id: String,
    pub deployment_id: String,
    pub description: Option<String>,
    pub auto_deployed: bool,
    pub created_date: i64,
}

/// An authorizer of an API.
#[derive(Debug, Clone)]
pub struct AuthorizerRecord {
    pub api_id: String,
    pub authorizer_id: String,
    pub name: String,
    pub authorizer_type: String,
    pub authorizer_uri: Option<String>,
    pub authorizer_payload_format_version: Option<String>,
    pub enable_simple_responses: Option<bool>,
    pub authorizer_result_ttl_in_seconds: Option<i64>,
}

/// A model (a request or response schema) of an API.
#[derive(Debug, Clone)]
pub struct ModelRecord {
    pub api_id: String,
    pub model_id: String,
    pub name: String,
    pub content_type: Option<String>,
    pub schema: String,
    pub description: Option<String>,
}

/// The mutual TLS settings of a domain name.
#[derive(Debug, Clone)]
pub struct MutualTls {
    pub truststore_uri: String,
    pub truststore_version: Option<String>,
}

/// A custom domain name.
#[derive(Debug, Clone)]
pub struct DomainNameRecord {
    pub domain_name: String,
    pub routing_mode: Option<String>,
    pub mutual_tls: Option<MutualTls>,
}

/// A mapping of an API stage under a domain name.
#[derive(Debug, Clone)]
pub struct ApiMappingRecord {
    pub domain_name: String,
    pub api_mapping_id: String,
    pub api_id: String,
    pub api_mapping_key: Option<String>,
    pub stage: String,
}

/// A response of a route (kept under its API, naming its route).
#[derive(Debug, Clone)]
pub struct RouteResponseRecord {
    pub api_id: String,
    pub route_id: String,
    pub route_response_id: String,
    pub route_response_key: String,
    pub model_selection_expression: Option<String>,
}

/// A VPC link.
#[derive(Debug, Clone)]
pub struct VpcLinkRecord {
    pub vpc_link_id: String,
    pub name: String,
    pub security_group_ids: Vec<String>,
    pub subnet_ids: Vec<String>,
    pub created_date: i64,
}

/// One tag of a resource (or of an API as it was created).
#[derive(Debug, Clone)]
pub struct TagRecord {
    pub owner: String,
    pub key: String,
    pub value: String,
}

impl Keyed for ApiRecord {
    open spec fn owner_view(&self) -> Seq<char> {
        Seq::<char>::empty()
    }

    open spec fn ident_view(&self) -> Seq<char> {
        self.api_id@
    }

    fn owner(&self) -> (r: &str) {
        proof {
            reveal_strlit("");
        }
        ""
    }

    fn ident(&self) -> (r: &str) {
        self.api_id.as_str()
    }

    fn duplicate(&self) -> (r: Self) {
        ApiRecord {
            api_id: self.api_id.clone(),
            name: self.name.clone(),
            protocol_type: self.protocol_type.clone(),
            route_selection_expression: self.route_selection_expression.clone(),
            api_key_selection_expression: copy_opt_string(&self.api_key_selection_expression),
            description: copy_opt_string(&self.description),
            disable_execute_api_endpoint: self.disable_execute_api_endpoint,
            disable_schema_validation: self.disable_schema_validation,
            ip_address_type: copy_opt_string(&self.ip_address_type),
            version: copy_opt_string(&self.version),
            api_endpoint: self.api_endpoint.clone(),
            created_date: self.created_date,
        }
    }
}

impl Keyed for RouteRecord {
    open spec fn owner_view(&self) -> Seq<char> {
        self.api_id@
    }

    open spec fn ident_view(&self) -> Seq<char> {
        self.route_id@
    }

    fn owner(&self) -> (r: &str) {
        self.api_id.as_str()
    }

    fn ident(&self) -> (r: &str) {
        self.route_id.as_str()
    }

    fn duplicate(&self) -> (r: Self) {
        RouteRecord {
            api_id: self.api_id.clone(),
            route_id: self.route_id.clone(),
            route_key: self.route_key.clone(),
            target: copy_opt_string(&self.target),
            authorization_type: copy_opt_string(&self.authorization_type),
            authorizer_id: copy_opt_string(&self.authorizer_id),
            api_key_required: self.api_key_required,
            model_selection_expression: copy_opt_string(&self.model_selection_expression),
            operation_name: copy_opt_string(&self.operation_name),
            route_response_selection_expression: copy_opt_string(
                &self.route_response_selection_expression,
            ),
            api_gateway_managed: self.api_gateway_managed,
        }
    }
}

impl Keyed for IntegrationRecord {
    open spec fn owner_view(&self) -> Seq<char> {
        self.api_id@
    }

    open spec fn ident_view(&self) -> Seq<char> {
        self.integration_id@
    }

    fn owner(&self) -> (r: &str) {
        self.api_id.as_str()
    }

    fn ident(&self) -> (r: &str) {
        self.integration_id.as_str()
    }

    fn duplicate(&self) -> (r: Self) {
        IntegrationRecord {
            api_id: self.api_id.clone(),
            integration_id: self.integration_id.clone(),
            integration_type: self.integration_type.clone(),
            integration_method: copy_opt_string(&self.integration_method),
            integration_uri: copy_opt_string(&self.integration_uri),
            connection_type: copy_opt_string(&self.connection_type),
            connection_id: copy_opt_string(&self.connection_id),
            credentials_arn: copy_opt_string(&self.credentials_arn),
            description: copy_opt_string(&self.description),
            payload_format_version: self.payload_format_version.clone(),
            timeout_in_millis: self.timeout_in_millis,
            api_gateway_managed: self.api_gateway_managed,
        }
    }
}

impl Keyed for StageRecord {
    open spec fn owner_view(&self) -> Seq<char> {
        self.api_id@
    }

    open spec fn ident_view(&self) -> Seq<char> {
        self.stage_name@
    }

    fn owner(&self) -> (r: &str) {
        self.api_id.as_str()
    }

    fn ident(&self) -> (r: &str) {
        self.stage_name.as_str()
    }

    fn duplicate(&self) -> (r: Self) {
        StageRecord {
            api_id: self.api_id.clone(),
            stage_name: self.stage_name.clone(),
            deployment_id: copy_opt_string(&self.deployment_id),
            description: copy_opt_string(&self.description),
            auto_deploy: self.auto_deploy,
            client_certificate_id: copy_opt_string(&self.client_certificate_id),
            created_date: self.created_date,
            last_updated_date: self.last_updated_date,
        }
    }
}

impl Keyed for DeploymentRecord {
    open spec fn owner_view(&self) -> Seq<char> {
        self.api_id@
    }

    open spec fn ident_view(&self) -> Seq<char> {
        self.deployment_id@
    }

    fn owner(&self) -> (r: &str) {
        self.api_id.as_str()
    }

    fn ident(&self) -> (r: &str) {
        self.deployment_id.as_str()
    }

    fn duplicate(&self) -> (r: Self) {
        DeploymentRecord {
            api_id: self.api_id.clone(),
            deployment_id: self.deployment_id.clone(),
            description: copy_opt_string(&self.description),
            auto_deployed: self.auto_deployed,
            created_date: self.created_date,
        }
    }
}

impl Keyed for AuthorizerRecord {
    open spec fn owner_view(&self) -> Seq<char> {
        self.api_id@
    }

    open spec fn ident_view(&self) -> Seq<char> {
        self.authorizer_id@
    }

    fn owner(&self) -> (r: &str) {
        self.api_id.as_str()
    }

    fn ident(&self) -> (r: &str) {
        self.authorizer_id.as_str()
    }

    fn duplicate(&self) -> (r: Self) {
        AuthorizerRecord {
            api_id: self.api_id.clone(),
            authorizer_id: self.authorizer_id.clone(),
            name: self.name.clone(),
            authorizer_type: self.authorizer_type.clone(),
            authorizer_uri: copy_opt_string(&self.authorizer_uri),
            authorizer_payload_format_version: copy_opt_string(
                &self.authorizer_payload_format_version,
            ),
            enable_simple_responses: self.enable_simple_responses,
            authorizer_result_ttl_in_seconds: self.authorizer_result_ttl_in_seconds,
        }
    }
}

impl Keyed for ModelRecord {
    open spec fn owner_view(&self) -> Seq<char> {
        self.api_id@
    }

    open spec fn ident_view(&self) -> Seq<char> {
        self.model_id@
    }

    fn owner(&self) -> (r: &str) {
        self.api_id.as_str()
    }

    fn ident(&self) -> (r: &str) {
        self.model_id.as_str()
    }

    fn duplicate(&self) -> (r: Self) {
        ModelRecord {
            api_id: self.api_id.clone(),
            model_id: self.model_id.clone(),
            name: self.name.clone(),
            content_type: copy_opt_string(&self.content_type),
            schema: self.schema.clone(),
            description: copy_opt_string(&self.description),
        }
    }
}

/// A copy of mutual TLS settings.
pub fn copy_mutual_tls(m: &Option<MutualTls>) -> (r: Option<MutualTls>)
    ensures
        r == *m,
{
    match m {
        Some(t) => Some(
            MutualTls {
                truststore_uri: t.truststore_uri.clone(),
                truststore_version: copy_opt_string(&t.truststore_version),
            },
        ),
        None => None,
    }
}

impl Keyed for DomainNameRecord {
    open spec fn owner_view(&self) -> Seq<char> {
        Seq::<char>::empty()
    }

    open spec fn ident_view(&self) -> Seq<char> {
        self.domain_name@
    }

    fn owner(&self) -> (r: &str) {
        proof {
            reveal_strlit("");
        }
        ""
    }

    fn ident(&self) -> (r: &str) {
        self.domain_name.as_str()
    }

    fn duplicate(&self) -> (r: Self) {
        DomainNameRecord {
            domain_name: self.domain_name.clone(),
            routing_mode: copy_opt_string(&self.routing_mode),
            mutual_tls: copy_mutual_tls(&self.mutual_tls),
        }
    }
}

impl Keyed for ApiMappingRecord {
    open spec fn owner_view(&self) -> Seq<char> {
        self.domain_name@
    }

    open spec fn ident_view(&self) -> Seq<char> {
        self.api_mapping_id@
    }

    fn owner(&self) -> (r: &str) {
        self.domain_name.as_str()
    }

    fn ident(&self) -> (r: &str) {
        self.api_mapping_id.as_str()
    }

    fn duplicate(&self) -> (r: Self) {
        ApiMappingRecord {
            domain_name: self.domain_name.clone(),
            api_mapping_id: self.api_mapping_id.clone(),
            api_id: self.api_id.clone(),
            api_mapping_key: copy_opt_string(&self.api_mapping_key),
            stage: self.stage.clone(),
        }
    }
}

impl Keyed for RouteResponseRecord {
    open spec fn owner_view(&self) -> Seq<char> {
        self.api_id@
    }

    open spec fn ident_view(&self) -> Seq<char> {
        self.route_response_id@
    }

    fn owner(&self) -> (r: &str) {
        self.api_id.as_str()
    }

    fn ident(&self) -> (r: &str) {
        self.route_response_id.as_str()
    }

    fn duplicate(&self) -> (r: Self) {
        RouteResponseRecord {
            api_id: self.api_id.clone(),
            route_id: self.route_id.clone(),
            route_response_id: self.route_response_id.clone(),
            route_response_key: self.route_response_key.clone(),
            model_selection_expression: copy_opt_string(&self.model_selection_expression),
        }
    }
}

impl Keyed for TagRecord {
    open spec fn owner_view(&self) -> Seq<char> {
        self.owner@
    }

    open spec fn ident_view(&self) -> Seq<char> {
        self.key@
    }

    fn owner(&self) -> (r: &str) {
        self.owner.as_str()
    }

    fn ident(&self) -> (r: &str) {
        self.key.as_str()
    }

    fn duplicate(&self) -> (r: Self) {
        TagRecord { owner: self.owner.clone(), key: self.key.clone(), value: self.value.clone() }
    }
}

/// A failure of a control-plane operation.
#[derive(Debug)]
pub enum ApiGatewayV2ServiceError {
    NotFound(String),
    BadRequest(String),
    Conflict(String),
}

/// `Unable to find {kind} with id '{id}'`.
pub open spec fn not_found_text(kind: Seq<char>, id: Seq<char>) -> Seq<char> {
    "Unable to find "@ + kind + " with id '"@ + id + "'"@
}

/// The not-found error for a resource kind and identifier.
pub fn not_found(kind: &str, id: &str) -> (r: ApiGatewayV2ServiceError)
    ensures
        r matches ApiGatewayV2ServiceError::NotFound(m) && m@ == not_found_text(kind@, id@),
{
    let mut m = str_chars("Unable to find ");
    push_str_chars(&mut m, kind);
    push_str_chars(&mut m, " with id '");
    push_str_chars(&mut m, id);
    push_str_chars(&mut m, "'");
    ApiGatewayV2ServiceError::NotFound(string_from_chars(&m))
}

/// `Unable to find {kind} with name '{name}'`.
pub open spec fn not_found_name_text(kind: Seq<char>, name: Seq<char>) -> Seq<char> {
    "Unable to find "@ + kind + " with name '"@ + name + "'"@
}

/// The not-found error for a resource kind and name.
pub fn not_found_name(kind: &str, name: &str) -> (r: ApiGatewayV2ServiceError)
    ensures
        r matches ApiGatewayV2ServiceError::NotFound(m) && m@ == not_found_name_text(kind@, name@),
{
    let mut m = str_chars("Unable to find ");
    push_str_chars(&mut m, kind);
    push_str_chars(&mut m, " with name '");
    push_str_chars(&mut m, name);
    push_str_chars(&mut m, "'");
    ApiGatewayV2ServiceError::NotFound(string_from_chars(&m))
}

/// `Unable to find DomainName '{name}'`.
pub open spec fn domain_not_found_text(name: Seq<char>) -> Seq<char> {
    "Unable to find DomainName '"@ + name + "'"@
}

/// The ARN of a domain name: `arn:aws:apigateway:{region}::/domainnames/{name}`.
pub open spec fn domain_arn_text(region: Seq<char>, name: Seq<char>) -> Seq<char> {
    "arn:aws:apigateway:"@ + region + "::/domainnames/"@ + name
}

/// The ARN of a domain name.
pub fn domain_arn(region: &str, name: &str) -> (r: String)
    ensures
        r@ == domain_arn_text(region@, name@),
{
    let r = concat5("arn:aws:apigateway:", region, "::/domainnames/", name, "");
    proof {
        reveal_strlit("");
    }
    assert(r@ =~= domain_arn_text(region@, name@));
    r
}

/// The ARN of a VPC link: `arn:aws:apigateway:{region}::/vpclinks/{id}`.
pub open spec fn vpc_link_arn_text(region: Seq<char>, id: Seq<char>) -> Seq<char> {
    "arn:aws:apigateway:"@ + region + "::/vpclinks/"@ + id
}

/// The ARN of a VPC link.
pub fn vpc_link_arn(region: &str, id: &str) -> (r: String)
    ensures
        r@ == vpc_link_arn_text(region@, id@),
{
    let r = concat5("arn:aws:apigateway:", region, "::/vpclinks/", id, "");
    proof {
        reveal_strlit("");
    }
    assert(r@ =~= vpc_link_arn_text(region@, id@));
    r
}

/// A copy of a list of strings.
pub fn copy_strings(v: &Vec<String>) -> (r: Vec<String>)
    ensures
        r@ == v@,
{
    let mut out: Vec<String> = Vec::new();
    let mut i: usize = 0;
    while i < v.len()
        invariant
            i <= v.len(),
            out@ == v@.take(i as int),
        decreases v.len() - i,
    {
        out.push(v[i].clone());
        assert(out@ =~= v@.take(i + 1));
        i = i + 1;
    }
    assert(out@ =~= v@);
    out
}

/// What a VPC link holds.
pub open spec fn vpc_view(v: VpcLinkRecord) -> (String, String, Seq<String>, Seq<String>, i64) {
    (v.vpc_link_id, v.name, v.security_group_ids@, v.subnet_ids@, v.created_date)
}

/// A copy of a VPC link.
pub fn copy_vpc_link(v: &VpcLinkRecord) -> (r: VpcLinkRecord)
    ensures
        vpc_view(r) == vpc_view(*v),
{
    VpcLinkRecord {
        vpc_link_id: v.vpc_link_id.clone(),
        name: v.name.clone(),
        security_group_ids: copy_strings(&v.security_group_ids),
        subnet_ids: copy_strings(&v.subnet_ids),
        created_date: v.created_date,
    }
}

/// Text of three parts.
pub fn concat3(a: &str, b: &str, c: &str) -> (r: String)
    ensures
        r@ == a@ + b@ + c@,
{
    let mut m = str_chars(a);
    push_str_chars(&mut m, b);
    push_str_chars(&mut m, c);
    string_from_chars(&m)
}

/// Text of five parts.
pub fn concat5(a: &str, b: &str, c: &str, d: &str, e: &str) -> (r: String)
    ensures
        r@ == a@ + b@ + c@ + d@ + e@,
{
    let mut m = str_chars(a);
    push_str_chars(&mut m, b);
    push_str_chars(&mut m, c);
    push_str_chars(&mut m, d);
    push_str_chars(&mut m, e);
    string_from_chars(&m)
}

/// The endpoint of an API: `https://{api_id}.execute-api.{region}.amazonaws.com`.
pub open spec fn endpoint_text(region: Seq<char>, api_id: Seq<char>) -> Seq<char> {
    "https://"@ + api_id + ".execute-api."@ + region + ".amazonaws.com"@
}

/// The ARN of an API: `arn:aws:apigateway:{region}::/apis/{api_id}`.
pub open spec fn api_arn_text(region: Seq<char>, api_id: Seq<char>) -> Seq<char> {
    "arn:aws:apigateway:"@ + region + "::/apis/"@ + api_id
}

/// The endpoint of an API.
pub fn api_endpoint(region: &str, api_id: &str) -> (r: String)
    ensures
        r@ == endpoint_text(region@, api_id@),
{
    concat5("https://", api_id, ".execute-api.", region, ".amazonaws.com")
}

/// The ARN of an API.
pub fn api_arn(region: &str, api_id: &str) -> (r: String)
    ensures
        r@ == api_arn_text(region@, api_id@),
{
    let r = concat5("arn:aws:apigateway:", region, "::/apis/", api_id, "");
    proof {
        reveal_strlit("");
    }
    assert(r@ =~= api_arn_text(region@, api_id@));
    r
}

/// A resource identifier: ten lower-case hexadecimal digits.
pub open spec fn id_text(s: Seq<char>) -> bool {
    s.len() == 10 && forall|i: int| 0 <= i < 10 ==> lower_hex_digit(#[trigger] s[i])
}

/// A fresh resource identifier: the first ten hexadecimal digits of a
/// random UUID.
pub fn generate_id() -> (r: String)
    ensures
        id_text(r@),
{
    let text = new_uuid();
    let u = str_chars(text.as_str());
    assert forall|k: int|
        0 <= k < 36 && k != 8 && k != 13 && k != 18 && k != 23 implies lower_hex_digit(
        #[trigger] u@[k],
    ) by {
        assert(uuid_text(text@));
    }
    let mut out: Vec<char> = Vec::new();
    let mut i: usize = 0;
    while i < 11
        invariant
            u@.len() == 36,
            forall|k: int|
                0 <= k < 36 && k != 8 && k != 13 && k != 18 && k != 23 ==> lower_hex_digit(
                    #[trigger] u@[k],
                ),
            i <= 11,
            out@.len() == (if i <= 8 {
                i as int
            } else {
                i - 1
            }),
            forall|k: int| 0 <= k < out@.len() ==> lower_hex_digit(#[trigger] out@[k]),
        decreases 11 - i,
    {
        if i != 8 {
            out.push(u[i]);
        }
        i = i + 1;
    }
    string_from_chars(&out)
}

} // verus!
