//! The API Gateway v2 control plane: APIs and their routes, integrations,
//! stages, deployments and authorizers, and resource tags.

use vstd::prelude::*;
use crate::apigw_records::{
    api_arn, api_arn_text, api_endpoint, concat3, endpoint_text, generate_id, id_text, not_found,
    not_found_name, not_found_name_text, not_found_text, ApiGatewayV2ServiceError, ApiRecord, AuthorizerRecord, DeploymentRecord,
    IntegrationRecord, ModelRecord, RouteRecord, StageRecord, TagRecord, DomainNameRecord,
    ApiMappingRecord, MutualTls, copy_mutual_tls, domain_arn, domain_arn_text, domain_not_found_text,
    copy_strings, vpc_link_arn, vpc_link_arn_text, vpc_view, VpcLinkRecord, RouteResponseRecord,
};
use crate::apigw_store::{
    has_key, kept, kept_after, owned_by, record_at, vpc_index, vpc_kept, Keyed, KeyedStore, VpcLinkStore,
};
use crate::seqs::lemma_first_index_props;
use crate::streams_store::{copy_opt_string, now_epoch_seconds};
use crate::text::{own, push_str_chars, str_chars, str_eq, string_from_chars};

verus! {

/// The API Gateway v2 provider: every record it keeps, and its region.
#[derive(Debug)]
pub struct RustackApiGatewayV2 {
    pub region: String,
    pub apis: KeyedStore<ApiRecord>,
    pub routes: KeyedStore<RouteRecord>,
    pub integrations: KeyedStore<IntegrationRecord>,
    pub stages: KeyedStore<StageRecord>,
    pub deployments: KeyedStore<DeploymentRecord>,
    pub authorizers: KeyedStore<AuthorizerRecord>,
    pub models: KeyedStore<ModelRecord>,
    pub route_responses: KeyedStore<RouteResponseRecord>,
    pub domain_names: KeyedStore<DomainNameRecord>,
    /// API mappings by domain name.
    pub api_mappings: KeyedStore<ApiMappingRecord>,
    pub vpc_links: VpcLinkStore,
    /// Tags by resource ARN.
    pub tags: KeyedStore<TagRecord>,
    /// The tags each API was created with, by API id.
    pub api_tags: KeyedStore<TagRecord>,
}

/// The value given, or the one kept when none is.
pub open spec fn or_keep<T>(new: Option<T>, old: T) -> T {
    match new {
        Some(v) => v,
        None => old,
    }
}

/// The optional value given, or the one kept when none is.
pub open spec fn or_keep_opt<T>(new: Option<T>, old: Option<T>) -> Option<T> {
    match new {
        Some(v) => Some(v),
        None => old,
    }
}

/// The optional text given, or a copy of the one kept.
fn keep_opt(new: &Option<String>, old: &Option<String>) -> (r: Option<String>)
    ensures
        r == or_keep_opt(*new, *old),
{
    match new {
        Some(v) => Some(v.clone()),
        None => copy_opt_string(old),
    }
}

/// The text given, or a copy of the one kept.
fn keep_text(new: &Option<String>, old: &String) -> (r: String)
    ensures
        r == or_keep(*new, *old),
{
    match new {
        Some(v) => v.clone(),
        None => old.clone(),
    }
}

/// The flag given, or `false`.
pub open spec fn flag(b: Option<bool>) -> bool {
    match b {
        Some(v) => v,
        None => false,
    }
}

/// A stage after an automatic deployment `id` at time `now`.
pub open spec fn deployed_stage(st: StageRecord, id: String, now: i64) -> StageRecord {
    StageRecord {
        api_id: st.api_id,
        stage_name: st.stage_name,
        deployment_id: Some(id),
        description: st.description,
        auto_deploy: st.auto_deploy,
        client_certificate_id: st.client_certificate_id,
        created_date: st.created_date,
        last_updated_date: now,
    }
}

/// `d` is an automatic deployment of the API made at `now`.
pub open spec fn auto_deployment(d: DeploymentRecord, api: Seq<char>, now: i64) -> bool {
    &&& d.api_id@ == api
    &&& id_text(d.deployment_id@)
    &&& d.description matches Some(t) && t@ == "Auto-deployed"@
    &&& d.auto_deployed
    &&& d.created_date == now
}

/// Walking the first `i` stages: each stage of `api` with automatic deployment
/// gets the next of `deps` as its deployment, which is kept.  Gives the
/// stages, the deployments and how many of `deps` were used.
pub open spec fn deploy_walk(
    s0: Seq<StageRecord>,
    d0: Seq<DeploymentRecord>,
    api: Seq<char>,
    now: i64,
    deps: Seq<DeploymentRecord>,
    i: int,
) -> (Seq<StageRecord>, Seq<DeploymentRecord>, int)
    decreases i,
{
    if i <= 0 {
        (s0, d0, 0)
    } else {
        let prev = deploy_walk(s0, d0, api, now, deps, i - 1);
        let st = s0[i - 1];
        if st.api_id@ == api && st.auto_deploy {
            (
                prev.0.update(i - 1, deployed_stage(st, deps[prev.2].deployment_id, now)),
                kept(prev.1, deps[prev.2]),
                prev.2 + 1,
            )
        } else {
            prev
        }
    }
}

/// The stages and deployments after the automatic deployment of `api`:
/// each of its stages with automatic deployment gets a fresh deployment.
pub open spec fn auto_deployed(
    s0: Seq<StageRecord>,
    d0: Seq<DeploymentRecord>,
    s1: Seq<StageRecord>,
    d1: Seq<DeploymentRecord>,
    api: Seq<char>,
    now: i64,
) -> bool {
    exists|deps: Seq<DeploymentRecord>|
        (forall|k: int| 0 <= k < deps.len() ==> auto_deployment(#[trigger] deps[k], api, now))
            && #[trigger] deploy_walk(s0, d0, api, now, deps, s0.len() as int) == (
            s1,
            d1,
            deps.len() as int,
        )
}

proof fn lemma_walk_prefix(
    s0: Seq<StageRecord>,
    d0: Seq<DeploymentRecord>,
    api: Seq<char>,
    now: i64,
    deps: Seq<DeploymentRecord>,
    x: DeploymentRecord,
    i: int,
)
    requires
        i <= s0.len(),
        deploy_walk(s0, d0, api, now, deps, i).2 <= deps.len(),
    ensures
        deploy_walk(s0, d0, api, now, deps.push(x), i) == deploy_walk(s0, d0, api, now, deps, i),
        0 <= deploy_walk(s0, d0, api, now, deps, i).2,
    decreases i,
{
    if i > 0 {
        let prev = deploy_walk(s0, d0, api, now, deps, i - 1);
        lemma_walk_prefix(s0, d0, api, now, deps, x, i - 1);
        let st = s0[i - 1];
        if st.api_id@ == api && st.auto_deploy {
            assert(prev.2 < deps.len());
            assert(deps.push(x)[prev.2] == deps[prev.2]);
        }
    }
}

proof fn lemma_walk_shape(
    s0: Seq<StageRecord>,
    d0: Seq<DeploymentRecord>,
    api: Seq<char>,
    now: i64,
    deps: Seq<DeploymentRecord>,
    i: int,
)
    requires
        0 <= i <= s0.len(),
    ensures
        deploy_walk(s0, d0, api, now, deps, i).0.len() == s0.len(),
        forall|k: int|
            i <= k < s0.len() ==> #[trigger] deploy_walk(s0, d0, api, now, deps, i).0[k] == s0[k],
    decreases i,
{
    if i > 0 {
        lemma_walk_shape(s0, d0, api, now, deps, i - 1);
    }
}

/// The input of `CreateApi`.
#[derive(Debug, Clone)]
pub struct CreateApiInput {
    pub name: String,
    pub protocol_type: String,
    pub route_selection_expression: Option<String>,
    pub api_key_selection_expression: Option<String>,
    pub description: Option<String>,
    pub disable_execute_api_endpoint: Option<bool>,
    pub disable_schema_validation: Option<bool>,
    pub ip_address_type: Option<String>,
    pub version: Option<String>,
    pub tags: Vec<(String, String)>,
    pub target: Option<String>,
    pub route_key: Option<String>,
}

/// The input of `UpdateApi`.
#[derive(Debug, Clone)]
pub struct UpdateApiInput {
    pub api_id: String,
    pub name: Option<String>,
    pub description: Option<String>,
    pub disable_execute_api_endpoint: Option<bool>,
    pub disable_schema_validation: Option<bool>,
    pub route_selection_expression: Option<String>,
    pub api_key_selection_expression: Option<String>,
    pub version: Option<String>,
    pub ip_address_type: Option<String>,
}

/// `s` after keeping the tags `pairs` of `owner`, one after another.
pub open spec fn with_tags(s: Seq<TagRecord>, owner: String, pairs: Seq<(String, String)>) -> Seq<
    TagRecord,
>
    decreases pairs.len(),
{
    if pairs.len() == 0 {
        s
    } else {
        kept(
            with_tags(s, owner, pairs.drop_last()),
            TagRecord { owner: owner, key: pairs.last().0, value: pairs.last().1 },
        )
    }
}

/// Keeps the tags `pairs` of `owner`, one after another.
fn put_tags(store: &mut KeyedStore<TagRecord>, owner: &String, pairs: &Vec<(String, String)>)
    requires
        old(store).wf(),
    ensures
        final(store).wf(),
        final(store)@ == with_tags(old(store)@, *owner, pairs@),
{
    let ghost s0 = store@;
    let mut i: usize = 0;
    while i < pairs.len()
        invariant
            i <= pairs.len(),
            store.wf(),
            store@ == with_tags(s0, *owner, pairs@.take(i as int)),
        decreases pairs.len() - i,
    {
        proof {
            assert(pairs@.take(i + 1).drop_last() =~= pairs@.take(i as int));
            assert(pairs@.take(i + 1).last() == pairs@[i as int]);
        }
        let t = TagRecord { owner: owner.clone(), key: pairs[i].0.clone(), value: pairs[i].1.clone() };
        store.put(t);
        i = i + 1;
    }
    assert(pairs@.take(pairs.len() as int) =~= pairs@);
}

/// `r` is the API created from `input` under `api_id` in `region` at `now`.
pub open spec fn created_api(
    r: ApiRecord,
    input: CreateApiInput,
    api_id: String,
    region: Seq<char>,
    now: i64,
) -> bool {
    &&& r.api_id == api_id
    &&& r.name == input.name
    &&& r.protocol_type == input.protocol_type
    &&& r.route_selection_expression@ == match input.route_selection_expression {
        Some(e) => e@,
        None => "${request.method} ${request.path}"@,
    }
    &&& r.api_key_selection_expression == input.api_key_selection_expression
    &&& r.description == input.description
    &&& r.disable_execute_api_endpoint == flag(input.disable_execute_api_endpoint)
    &&& r.disable_schema_validation == flag(input.disable_schema_validation)
    &&& r.ip_address_type == input.ip_address_type
    &&& r.version == input.version
    &&& r.api_endpoint@ == endpoint_text(region, api_id@)
    &&& r.created_date == now
}

/// The integration `CreateApi` makes for a target.
pub open spec fn quick_integration(
    ir: IntegrationRecord,
    api_id: String,
    integration_id: String,
    target: String,
) -> bool {
    &&& ir.api_id == api_id
    &&& ir.integration_id == integration_id
    &&& ir.integration_type@ == "AWS_PROXY"@
    &&& ir.integration_method matches Some(m) && m@ == "POST"@
    &&& ir.integration_uri == Some(target)
    &&& ir.connection_type matches Some(c) && c@ == "INTERNET"@
    &&& ir.connection_id is None
    &&& ir.credentials_arn is None
    &&& ir.description is None
    &&& ir.payload_format_version@ == "2.0"@
    &&& ir.timeout_in_millis == 30000
    &&& ir.api_gateway_managed
}

/// The route `CreateApi` makes for a target.
pub open spec fn quick_route(
    rr: RouteRecord,
    api_id: String,
    route_id: String,
    route_key: Option<String>,
    integration_id: String,
) -> bool {
    &&& rr.api_id == api_id
    &&& rr.route_id == route_id
    &&& rr.route_key@ == match route_key {
        Some(k) => k@,
        None => "$default"@,
    }
    &&& rr.target matches Some(t) && t@ == "integrations/"@ + integration_id@
    &&& rr.authorization_type is None
    &&& rr.authorizer_id is None
    &&& !rr.api_key_required
    &&& rr.model_selection_expression is None
    &&& rr.operation_name is None
    &&& rr.route_response_selection_expression is None
    &&& rr.api_gateway_managed
}

/// `r` is `a` with the changes of `input`.
pub open spec fn updated_api(r: ApiRecord, a: ApiRecord, input: UpdateApiInput) -> bool {
    &&& r.api_id == a.api_id
    &&& r.name == or_keep(input.name, a.name)
    &&& r.protocol_type == a.protocol_type
    &&& r.route_selection_expression == or_keep(
        input.route_selection_expression,
        a.route_selection_expression,
    )
    &&& r.api_key_selection_expression == or_keep_opt(
        input.api_key_selection_expression,
        a.api_key_selection_expression,
    )
    &&& r.description == or_keep_opt(input.description, a.description)
    &&& r.disable_execute_api_endpoint == or_keep(
        input.disable_execute_api_endpoint,
        a.disable_execute_api_endpoint,
    )
    &&& r.disable_schema_validation == or_keep(
        input.disable_schema_validation,
        a.disable_schema_validation,
    )
    &&& r.ip_address_type == or_keep_opt(input.ip_address_type, a.ip_address_type)
    &&& r.version == or_keep_opt(input.version, a.version)
    &&& r.api_endpoint == a.api_endpoint
    &&& r.created_date == a.created_date
}

/// The input of `CreateRoute`.
#[derive(Debug, Clone)]
pub struct CreateRouteInput {
    pub api_id: String,
    pub route_key: String,
    pub target: Option<String>,
    pub authorization_type: Option<String>,
    pub authorizer_id: Option<String>,
    pub api_key_required: Option<bool>,
    pub model_selection_expression: Option<String>,
    pub operation_name: Option<String>,
    pub route_response_selection_expression: Option<String>,
}

/// The input of `UpdateRoute`.
#[derive(Debug, Clone)]
pub struct UpdateRouteInput {
    pub api_id: String,
    pub route_id: String,
    pub route_key: Option<String>,
    pub target: Option<String>,
    pub authorization_type: Option<String>,
    pub authorizer_id: Option<String>,
    pub api_key_required: Option<bool>,
    pub model_selection_expression: Option<String>,
    pub operation_name: Option<String>,
    pub route_response_selection_expression: Option<String>,
}

/// `r` is the route created from `input` under `route_id`.
pub open spec fn created_route(r: RouteRecord, input: CreateRouteInput, route_id: String) -> bool {
    &&& r.api_id == input.api_id
    &&& r.route_id == route_id
    &&& r.route_key == input.route_key
    &&& r.target == input.target
    &&& r.authorization_type == input.authorization_type
    &&& r.authorizer_id == input.authorizer_id
    &&& r.api_key_required == flag(input.api_key_required)
    &&& r.model_selection_expression == input.model_selection_expression
    &&& r.operation_name == input.operation_name
    &&& r.route_response_selection_expression == input.route_response_selection_expression
    &&& !r.api_gateway_managed
}

/// `r` is the route `o` with the changes of `input`.
pub open spec fn updated_route(r: RouteRecord, o: RouteRecord, input: UpdateRouteInput) -> bool {
    &&& r.api_id == o.api_id
    &&& r.route_id == o.route_id
    &&& r.route_key == or_keep(input.route_key, o.route_key)
    &&& r.target == or_keep_opt(input.target, o.target)
    &&& r.authorization_type == or_keep_opt(input.authorization_type, o.authorization_type)
    &&& r.authorizer_id == or_keep_opt(input.authorizer_id, o.authorizer_id)
    &&& r.api_key_required == or_keep(input.api_key_required, o.api_key_required)
    &&& r.model_selection_expression == or_keep_opt(
        input.model_selection_expression,
        o.model_selection_expression,
    )
    &&& r.operation_name == or_keep_opt(input.operation_name, o.operation_name)
    &&& r.route_response_selection_expression == or_keep_opt(
        input.route_response_selection_expression,
        o.route_response_selection_expression,
    )
    &&& r.api_gateway_managed == o.api_gateway_managed
}

/// `a` and `b` hold the same records but, possibly, those named.
pub open spec fn same_except(
    a: RustackApiGatewayV2,
    b: RustackApiGatewayV2,
    routes: bool,
    integrations: bool,
    stages: bool,
    deployments: bool,
    authorizers: bool,
    tags: bool,
) -> bool {
    &&& a.models@ == b.models@
    &&& a.domain_names@ == b.domain_names@
    &&& a.api_mappings@ == b.api_mappings@
    &&& a.vpc_links@ == b.vpc_links@
    &&& a.route_responses@ == b.route_responses@
    &&& a.region == b.region
    &&& a.apis@ == b.apis@
    &&& a.api_tags@ == b.api_tags@
    &&& !routes ==> a.routes@ == b.routes@
    &&& !integrations ==> a.integrations@ == b.integrations@
    &&& !stages ==> a.stages@ == b.stages@
    &&& !deployments ==> a.deployments@ == b.deployments@
    &&& !authorizers ==> a.authorizers@ == b.authorizers@
    &&& !tags ==> a.tags@ == b.tags@
}

/// The record kept under a key, or the not-found error for the kind.
fn require<T: Keyed>(store: &KeyedStore<T>, owner: &str, ident: &str, kind: &str) -> (r: Result<
    T,
    ApiGatewayV2ServiceError,
>)
    ensures
        match r {
            Ok(t) => record_at(store@, owner@, ident@) == Some(t),
            Err(e) => {
                &&& record_at(store@, owner@, ident@) is None
                &&& e matches ApiGatewayV2ServiceError::NotFound(m)
                &&& e->NotFound_0@ == not_found_text(kind@, ident@)
            },
        },
{
    match store.get(owner, ident) {
        Some(t) => Ok(t),
        None => Err(not_found(kind, ident)),
    }
}

/// The input of `CreateIntegration`.
#[derive(Debug, Clone)]
pub struct CreateIntegrationInput {
    pub api_id: String,
    pub integration_type: String,
    pub integration_method: Option<String>,
    pub integration_uri: Option<String>,
    pub connection_type: Option<String>,
    pub connection_id: Option<String>,
    pub credentials_arn: Option<String>,
    pub description: Option<String>,
    pub payload_format_version: Option<String>,
    pub timeout_in_millis: Option<i64>,
}

/// The input of `UpdateIntegration`.
#[derive(Debug, Clone)]
pub struct UpdateIntegrationInput {
    pub api_id: String,
    pub integration_id: String,
    pub integration_type: Option<String>,
    pub integration_method: Option<String>,
    pub integration_uri: Option<String>,
    pub connection_type: Option<String>,
    pub connection_id: Option<String>,
    pub credentials_arn: Option<String>,
    pub description: Option<String>,
    pub payload_format_version: Option<String>,
    pub timeout_in_millis: Option<i64>,
}

/// `r` is the integration created from `input` under `integration_id`.
pub open spec fn created_integration(
    r: IntegrationRecord,
    input: CreateIntegrationInput,
    integration_id: String,
) -> bool {
    &&& r.api_id == input.api_id
    &&& r.integration_id == integration_id
    &&& r.integration_type == input.integration_type
    &&& r.integration_method == input.integration_method
    &&& r.integration_uri == input.integration_uri
    &&& r.connection_type == input.connection_type
    &&& r.connection_id == input.connection_id
    &&& r.credentials_arn == input.credentials_arn
    &&& r.description == input.description
    &&& r.payload_format_version@ == match input.payload_format_version {
        Some(v) => v@,
        None => "1.0"@,
    }
    &&& r.timeout_in_millis == or_keep(input.timeout_in_millis, 30000)
    &&& !r.api_gateway_managed
}

/// `r` is the integration `o` with the changes of `input`.
pub open spec fn updated_integration(
    r: IntegrationRecord,
    o: IntegrationRecord,
    input: UpdateIntegrationInput,
) -> bool {
    &&& r.api_id == o.api_id
    &&& r.integration_id == o.integration_id
    &&& r.integration_type == or_keep(input.integration_type, o.integration_type)
    &&& r.integration_method == or_keep_opt(input.integration_method, o.integration_method)
    &&& r.integration_uri == or_keep_opt(input.integration_uri, o.integration_uri)
    &&& r.connection_type == or_keep_opt(input.connection_type, o.connection_type)
    &&& r.connection_id == or_keep_opt(input.connection_id, o.connection_id)
    &&& r.credentials_arn == or_keep_opt(input.credentials_arn, o.credentials_arn)
    &&& r.description == or_keep_opt(input.description, o.description)
    &&& r.payload_format_version == or_keep(input.payload_format_version, o.payload_format_version)
    &&& r.timeout_in_millis == or_keep(input.timeout_in_millis, o.timeout_in_millis)
    &&& r.api_gateway_managed == o.api_gateway_managed
}

/// Whether a route of `api` targets `t`.
pub open spec fn route_targets(o: RouteRecord, api: Seq<char>, t: Seq<char>) -> bool {
    o.api_id@ == api && match o.target {
        Some(x) => x@ == t,
        None => false,
    }
}

/// A route without its target when it targets `t` in `api`.
pub open spec fn target_cleared(o: RouteRecord, api: Seq<char>, t: Seq<char>) -> RouteRecord {
    if route_targets(o, api, t) {
        RouteRecord {
            api_id: o.api_id,
            route_id: o.route_id,
            route_key: o.route_key,
            target: None,
            authorization_type: o.authorization_type,
            authorizer_id: o.authorizer_id,
            api_key_required: o.api_key_required,
            model_selection_expression: o.model_selection_expression,
            operation_name: o.operation_name,
            route_response_selection_expression: o.route_response_selection_expression,
            api_gateway_managed: o.api_gateway_managed,
        }
    } else {
        o
    }
}

/// Whether a route of `api` uses the authorizer `id`.
pub open spec fn route_uses(o: RouteRecord, api: Seq<char>, id: Seq<char>) -> bool {
    o.api_id@ == api && match o.authorizer_id {
        Some(x) => x@ == id,
        None => false,
    }
}

/// A route without its authorizer when it uses `id` in `api`.
pub open spec fn authorizer_cleared(o: RouteRecord, api: Seq<char>, id: Seq<char>) -> RouteRecord {
    if route_uses(o, api, id) {
        RouteRecord {
            api_id: o.api_id,
            route_id: o.route_id,
            route_key: o.route_key,
            target: o.target,
            authorization_type: o.authorization_type,
            authorizer_id: None,
            api_key_required: o.api_key_required,
            model_selection_expression: o.model_selection_expression,
            operation_name: o.operation_name,
            route_response_selection_expression: o.route_response_selection_expression,
            api_gateway_managed: o.api_gateway_managed,
        }
    } else {
        o
    }
}

/// Whether a stage of `api` is at the deployment `id`.
pub open spec fn stage_at(o: StageRecord, api: Seq<char>, id: Seq<char>) -> bool {
    o.api_id@ == api && match o.deployment_id {
        Some(x) => x@ == id,
        None => false,
    }
}

/// A stage without its deployment when it is at `id` in `api`.
pub open spec fn deployment_cleared(o: StageRecord, api: Seq<char>, id: Seq<char>) -> StageRecord {
    if stage_at(o, api, id) {
        StageRecord {
            api_id: o.api_id,
            stage_name: o.stage_name,
            deployment_id: None,
            description: o.description,
            auto_deploy: o.auto_deploy,
            client_certificate_id: o.client_certificate_id,
            created_date: o.created_date,
            last_updated_date: o.last_updated_date,
        }
    } else {
        o
    }
}

/// Clears the target of each route of `api` that targets `t`.
fn clear_targets(store: &mut KeyedStore<RouteRecord>, api: &str, t: &str)
    requires
        old(store).wf(),
    ensures
        final(store).wf(),
        final(store)@ == old(store)@.map_values(|o: RouteRecord| target_cleared(o, api@, t@)),
{
    let ghost s0 = store@;
    let mut i: usize = 0;
    while i < store.len()
        invariant
            store.wf(),
            i <= store@.len(),
            store@.len() == s0.len(),
            forall|k: int| 0 <= k < i ==> #[trigger] store@[k] == target_cleared(s0[k], api@, t@),
            forall|k: int| i <= k < s0.len() ==> #[trigger] store@[k] == s0[k],
        decreases s0.len() - i,
    {
        let o = store.at(i);
        let hit = str_eq(o.api_id.as_str(), api) && match &o.target {
            Some(x) => str_eq(x.as_str(), t),
            None => false,
        };
        if hit {
            let n = RouteRecord {
                api_id: o.api_id.clone(),
                route_id: o.route_id.clone(),
                route_key: o.route_key.clone(),
                target: None,
                authorization_type: copy_opt_string(&o.authorization_type),
                authorizer_id: copy_opt_string(&o.authorizer_id),
                api_key_required: o.api_key_required,
                model_selection_expression: copy_opt_string(&o.model_selection_expression),
                operation_name: copy_opt_string(&o.operation_name),
                route_response_selection_expression: copy_opt_string(
                    &o.route_response_selection_expression,
                ),
                api_gateway_managed: o.api_gateway_managed,
            };
            assert(n == target_cleared(s0[i as int], api@, t@));
            store.set_at(i, n);
        }
        i = i + 1;
    }
    assert(store@ =~= s0.map_values(|o: RouteRecord| target_cleared(o, api@, t@)));
}

/// Clears the authorizer of each route of `api` that uses `id`.
fn clear_authorizers(store: &mut KeyedStore<RouteRecord>, api: &str, id: &str)
    requires
        old(store).wf(),
    ensures
        final(store).wf(),
        final(store)@ == old(store)@.map_values(|o: RouteRecord| authorizer_cleared(o, api@, id@)),
{
    let ghost s0 = store@;
    let mut i: usize = 0;
    while i < store.len()
        invariant
            store.wf(),
            i <= store@.len(),
            store@.len() == s0.len(),
            forall|k: int| 0 <= k < i ==> #[trigger] store@[k] == authorizer_cleared(s0[k], api@, id@),
            forall|k: int| i <= k < s0.len() ==> #[trigger] store@[k] == s0[k],
        decreases s0.len() - i,
    {
        let o = store.at(i);
        let hit = str_eq(o.api_id.as_str(), api) && match &o.authorizer_id {
            Some(x) => str_eq(x.as_str(), id),
            None => false,
        };
        if hit {
            let n = RouteRecord {
                api_id: o.api_id.clone(),
                route_id: o.route_id.clone(),
                route_key: o.route_key.clone(),
                target: copy_opt_string(&o.target),
                authorization_type: copy_opt_string(&o.authorization_type),
                authorizer_id: None,
                api_key_required: o.api_key_required,
                model_selection_expression: copy_opt_string(&o.model_selection_expression),
                operation_name: copy_opt_string(&o.operation_name),
                route_response_selection_expression: copy_opt_string(
                    &o.route_response_selection_expression,
                ),
                api_gateway_managed: o.api_gateway_managed,
            };
            assert(n == authorizer_cleared(s0[i as int], api@, id@));
            store.set_at(i, n);
        }
        i = i + 1;
    }
    assert(store@ =~= s0.map_values(|o: RouteRecord| authorizer_cleared(o, api@, id@)));
}

/// Clears the deployment of each stage of `api` at deployment `id`.
fn clear_deployments(store: &mut KeyedStore<StageRecord>, api: &str, id: &str)
    requires
        old(store).wf(),
    ensures
        final(store).wf(),
        final(store)@ == old(store)@.map_values(|o: StageRecord| deployment_cleared(o, api@, id@)),
{
    let ghost s0 = store@;
    let mut i: usize = 0;
    while i < store.len()
        invariant
            store.wf(),
            i <= store@.len(),
            store@.len() == s0.len(),
            forall|k: int| 0 <= k < i ==> #[trigger] store@[k] == deployment_cleared(s0[k], api@, id@),
            forall|k: int| i <= k < s0.len() ==> #[trigger] store@[k] == s0[k],
        decreases s0.len() - i,
    {
        let o = store.at(i);
        let hit = str_eq(o.api_id.as_str(), api) && match &o.deployment_id {
            Some(x) => str_eq(x.as_str(), id),
            None => false,
        };
        if hit {
            let n = StageRecord {
                api_id: o.api_id.clone(),
                stage_name: o.stage_name.clone(),
                deployment_id: None,
                description: copy_opt_string(&o.description),
                auto_deploy: o.auto_deploy,
                client_certificate_id: copy_opt_string(&o.client_certificate_id),
                created_date: o.created_date,
                last_updated_date: o.last_updated_date,
            };
            assert(n == deployment_cleared(s0[i as int], api@, id@));
            store.set_at(i, n);
        }
        i = i + 1;
    }
    assert(store@ =~= s0.map_values(|o: StageRecord| deployment_cleared(o, api@, id@)));
}

/// The input of `CreateStage`.
#[derive(Debug, Clone)]
pub struct CreateStageInput {
    pub api_id: String,
    pub stage_name: String,
    pub deployment_id: Option<String>,
    pub description: Option<String>,
    pub auto_deploy: Option<bool>,
    pub client_certificate_id: Option<String>,
}

/// The input of `UpdateStage`.
#[derive(Debug, Clone)]
pub struct UpdateStageInput {
    pub api_id: String,
    pub stage_name: String,
    pub deployment_id: Option<String>,
    pub description: Option<String>,
    pub auto_deploy: Option<bool>,
    pub client_certificate_id: Option<String>,
}

/// The input of `CreateDeployment`.
#[derive(Debug, Clone, Default)]
pub struct CreateDeploymentInput {
    pub api_id: String,
    pub description: Option<String>,
    pub stage_name: Option<String>,
}

/// The input of `CreateAuthorizer`.
#[derive(Debug, Clone)]
pub struct CreateAuthorizerInput {
    pub api_id: String,
    pub name: String,
    pub authorizer_type: String,
    pub authorizer_uri: Option<String>,
    pub authorizer_payload_format_version: Option<String>,
    pub enable_simple_responses: Option<bool>,
    pub authorizer_result_ttl_in_seconds: Option<i64>,
}

/// The input of `UpdateAuthorizer`.
#[derive(Debug, Clone)]
pub struct UpdateAuthorizerInput {
    pub api_id: String,
    pub authorizer_id: String,
    pub name: Option<String>,
    pub authorizer_type: Option<String>,
    pub authorizer_uri: Option<String>,
    pub authorizer_payload_format_version: Option<String>,
    pub enable_simple_responses: Option<bool>,
    pub authorizer_result_ttl_in_seconds: Option<i64>,
}

/// `r` is the authorizer `o` with the changes of `input`.
pub open spec fn updated_authorizer(
    r: AuthorizerRecord,
    o: AuthorizerRecord,
    input: UpdateAuthorizerInput,
) -> bool {
    &&& r.api_id == o.api_id
    &&& r.authorizer_id == o.authorizer_id
    &&& r.name == or_keep(input.name, o.name)
    &&& r.authorizer_type == or_keep(input.authorizer_type, o.authorizer_type)
    &&& r.authorizer_uri == or_keep_opt(input.authorizer_uri, o.authorizer_uri)
    &&& r.authorizer_payload_format_version == or_keep_opt(
        input.authorizer_payload_format_version,
        o.authorizer_payload_format_version,
    )
    &&& r.enable_simple_responses == or_keep_opt(input.enable_simple_responses, o.enable_simple_responses)
    &&& r.authorizer_result_ttl_in_seconds == or_keep_opt(
        input.authorizer_result_ttl_in_seconds,
        o.authorizer_result_ttl_in_seconds,
    )
}

/// `r` is the stage created from `input` at `now`.
pub open spec fn created_stage(r: StageRecord, input: CreateStageInput, now: i64) -> bool {
    &&& r.api_id == input.api_id
    &&& r.stage_name == input.stage_name
    &&& r.deployment_id == input.deployment_id
    &&& r.description == input.description
    &&& r.auto_deploy == flag(input.auto_deploy)
    &&& r.client_certificate_id == input.client_certificate_id
    &&& r.created_date == now
    &&& r.last_updated_date == now
}

/// `r` is the stage `o` with the changes of `input`, updated at `now`.
pub open spec fn updated_stage(r: StageRecord, o: StageRecord, input: UpdateStageInput, now: i64) -> bool {
    &&& r.api_id == o.api_id
    &&& r.stage_name == o.stage_name
    &&& r.deployment_id == or_keep_opt(input.deployment_id, o.deployment_id)
    &&& r.description == or_keep_opt(input.description, o.description)
    &&& r.auto_deploy == or_keep(input.auto_deploy, o.auto_deploy)
    &&& r.client_certificate_id == or_keep_opt(input.client_certificate_id, o.client_certificate_id)
    &&& r.created_date == o.created_date
    &&& r.last_updated_date == now
}

/// `r` is the authorizer created from `input` under `authorizer_id`.
pub open spec fn created_authorizer(
    r: AuthorizerRecord,
    input: CreateAuthorizerInput,
    authorizer_id: String,
) -> bool {
    &&& r.api_id == input.api_id
    &&& r.authorizer_id == authorizer_id
    &&& r.name == input.name
    &&& r.authorizer_type == input.authorizer_type
    &&& r.authorizer_uri == input.authorizer_uri
    &&& r.authorizer_payload_format_version == input.authorizer_payload_format_version
    &&& r.enable_simple_responses == input.enable_simple_responses
    &&& r.authorizer_result_ttl_in_seconds == input.authorizer_result_ttl_in_seconds
}

/// `s` after removing the tag keys, one after another, from `owner`.
pub open spec fn without_tags(s: Seq<TagRecord>, owner: Seq<char>, keys: Seq<String>) -> Seq<
    TagRecord,
>
    decreases keys.len(),
{
    if keys.len() == 0 {
        s
    } else {
        without_tags(s, owner, keys.drop_last()).filter(
            kept_after::<TagRecord>(owner, Some(keys.last()@)),
        )
    }
}

/// The input of `CreateModel`.
#[derive(Debug, Clone)]
pub struct CreateModelInput {
    pub api_id: String,
    pub name: String,
    pub content_type: Option<String>,
    pub schema: String,
    pub description: Option<String>,
}

/// The input of `UpdateModel`.
#[derive(Debug, Clone)]
pub struct UpdateModelInput {
    pub api_id: String,
    pub model_id: String,
    pub name: Option<String>,
    pub content_type: Option<String>,
    pub schema: Option<String>,
    pub description: Option<String>,
}

/// `a` and `b` hold the same records but, possibly, models.
pub open spec fn same_but_models(a: RustackApiGatewayV2, b: RustackApiGatewayV2) -> bool {
    &&& a.region == b.region
    &&& a.apis@ == b.apis@
    &&& a.api_tags@ == b.api_tags@
    &&& a.routes@ == b.routes@
    &&& a.integrations@ == b.integrations@
    &&& a.stages@ == b.stages@
    &&& a.deployments@ == b.deployments@
    &&& a.authorizers@ == b.authorizers@
    &&& a.tags@ == b.tags@
    &&& a.domain_names@ == b.domain_names@
    &&& a.api_mappings@ == b.api_mappings@
    &&& a.vpc_links@ == b.vpc_links@
    &&& a.route_responses@ == b.route_responses@
}

/// The input of `CreateDomainName`.
#[derive(Debug, Clone)]
pub struct CreateDomainNameInput {
    pub domain_name: String,
    pub routing_mode: Option<String>,
    pub mutual_tls: Option<MutualTls>,
    pub tags: Vec<(String, String)>,
}

/// The input of `UpdateDomainName`.
#[derive(Debug, Clone)]
pub struct UpdateDomainNameInput {
    pub domain_name: String,
    pub routing_mode: Option<String>,
    pub mutual_tls: Option<MutualTls>,
}

/// The input of `CreateApiMapping`.
#[derive(Debug, Clone)]
pub struct CreateApiMappingInput {
    pub domain_name: String,
    pub api_id: String,
    pub api_mapping_key: Option<String>,
    pub stage: String,
}

/// The input of `UpdateApiMapping`.
#[derive(Debug, Clone)]
pub struct UpdateApiMappingInput {
    pub domain_name: String,
    pub api_mapping_id: String,
    pub api_id: String,
    pub api_mapping_key: Option<String>,
    pub stage: Option<String>,
}

/// `a` and `b` hold the same records of APIs (domain names, their mappings
/// and tags aside).
pub open spec fn same_apis(a: RustackApiGatewayV2, b: RustackApiGatewayV2) -> bool {
    &&& a.region == b.region
    &&& a.apis@ == b.apis@
    &&& a.api_tags@ == b.api_tags@
    &&& a.routes@ == b.routes@
    &&& a.integrations@ == b.integrations@
    &&& a.stages@ == b.stages@
    &&& a.deployments@ == b.deployments@
    &&& a.authorizers@ == b.authorizers@
    &&& a.models@ == b.models@
    &&& a.vpc_links@ == b.vpc_links@
    &&& a.route_responses@ == b.route_responses@
}

/// The input of `CreateVpcLink`.
#[derive(Debug, Clone)]
pub struct CreateVpcLinkInput {
    pub name: String,
    pub security_group_ids: Vec<String>,
    pub subnet_ids: Vec<String>,
    pub tags: Vec<(String, String)>,
}

/// `a` and `b` hold the same records but, possibly, VPC links and tags.
pub open spec fn same_but_vpc_links(a: RustackApiGatewayV2, b: RustackApiGatewayV2) -> bool {
    &&& a.region == b.region
    &&& a.apis@ == b.apis@
    &&& a.api_tags@ == b.api_tags@
    &&& a.routes@ == b.routes@
    &&& a.integrations@ == b.integrations@
    &&& a.stages@ == b.stages@
    &&& a.deployments@ == b.deployments@
    &&& a.authorizers@ == b.authorizers@
    &&& a.models@ == b.models@
    &&& a.domain_names@ == b.domain_names@
    &&& a.api_mappings@ == b.api_mappings@
    &&& a.route_responses@ == b.route_responses@
}

/// The input of `CreateRouteResponse`.
#[derive(Debug, Clone)]
pub struct CreateRouteResponseInput {
    pub route_response_key: String,
    pub model_selection_expression: Option<String>,
}

/// The response `rr` of the route `route` of `api`, if any.
pub open spec fn route_response_at(
    s: Seq<RouteResponseRecord>,
    api: Seq<char>,
    route: Seq<char>,
    rr: Seq<char>,
) -> Option<RouteResponseRecord> {
    match record_at(s, api, rr) {
        Some(x) => if x.route_id@ == route {
            Some(x)
        } else {
            None
        },
        None => None,
    }
}

/// `a` and `b` hold the same records but, possibly, route responses.
pub open spec fn same_but_route_responses(a: RustackApiGatewayV2, b: RustackApiGatewayV2) -> bool {
    &&& a.region == b.region
    &&& a.apis@ == b.apis@
    &&& a.api_tags@ == b.api_tags@
    &&& a.routes@ == b.routes@
    &&& a.integrations@ == b.integrations@
    &&& a.stages@ == b.stages@
    &&& a.deployments@ == b.deployments@
    &&& a.authorizers@ == b.authorizers@
    &&& a.models@ == b.models@
    &&& a.domain_names@ == b.domain_names@
    &&& a.api_mappings@ == b.api_mappings@
    &&& a.vpc_links@ == b.vpc_links@
    &&& a.tags@ == b.tags@
}

/// Selects the responses of a route.
pub open spec fn of_route(route: Seq<char>) -> spec_fn(RouteResponseRecord) -> bool {
    |x: RouteResponseRecord| x.route_id@ == route
}

/// The error of a route-response request: the API, then the route, then the
/// response must exist.
pub open spec fn route_response_error(
    p: RustackApiGatewayV2,
    api: Seq<char>,
    route: Seq<char>,
    rr: Seq<char>,
    m: Seq<char>,
) -> bool {
    if !p.has_api(api) {
        m == not_found_text("Api"@, api)
    } else if record_at(p.routes@, api, route) is None {
        m == not_found_text("Route"@, route)
    } else {
        route_response_at(p.route_responses@, api, route, rr) is None && m == not_found_text(
            "RouteResponse"@,
            rr,
        )
    }
}

/// A created API copies its name, protocol and the settings given; without a
/// route selection expression it selects on `${request.method} ${request.path}`,
/// the two flags left out are off, its endpoint is
/// `https://{api_id}.execute-api.{region}.amazonaws.com`, and it was created now.
pub proof fn lemma_create_api_fields(
    r: ApiRecord,
    input: CreateApiInput,
    api_id: String,
    region: Seq<char>,
    now: i64,
)
    requires
        created_api(r, input, api_id, region, now),
    ensures
        r.api_id == api_id,
        r.name == input.name,
        r.protocol_type == input.protocol_type,
        match input.route_selection_expression {
            Some(e) => r.route_selection_expression@ == e@,
            None => r.route_selection_expression@ == "${request.method} ${request.path}"@,
        },
        r.api_key_selection_expression == input.api_key_selection_expression,
        r.description == input.description,
        match input.disable_execute_api_endpoint {
            Some(b) => r.disable_execute_api_endpoint == b,
            None => !r.disable_execute_api_endpoint,
        },
        match input.disable_schema_validation {
            Some(b) => r.disable_schema_validation == b,
            None => !r.disable_schema_validation,
        },
        r.ip_address_type == input.ip_address_type,
        r.version == input.version,
        r.api_endpoint@ == "https://"@ + api_id@ + ".execute-api."@ + region + ".amazonaws.com"@,
        r.created_date == now,
{
}

/// A created route copies the route key, target, authorization and the other
/// settings given; an API key is required only when the input says so, and
/// the route is not managed by API Gateway.
pub proof fn lemma_create_route_fields(r: RouteRecord, input: CreateRouteInput, route_id: String)
    requires
        created_route(r, input, route_id),
    ensures
        r.api_id == input.api_id,
        r.route_id == route_id,
        r.route_key == input.route_key,
        r.target == input.target,
        r.authorization_type == input.authorization_type,
        r.authorizer_id == input.authorizer_id,
        match input.api_key_required {
            Some(b) => r.api_key_required == b,
            None => !r.api_key_required,
        },
        r.model_selection_expression == input.model_selection_expression,
        r.operation_name == input.operation_name,
        r.route_response_selection_expression == input.route_response_selection_expression,
        !r.api_gateway_managed,
{
}

/// A created integration copies the settings given; the payload format
/// version defaults to `1.0` and the timeout to 30000 milliseconds, and it is
/// not managed by API Gateway.
pub proof fn lemma_create_integration_fields(
    r: IntegrationRecord,
    input: CreateIntegrationInput,
    integration_id: String,
)
    requires
        created_integration(r, input, integration_id),
    ensures
        r.api_id == input.api_id,
        r.integration_id == integration_id,
        r.integration_type == input.integration_type,
        r.integration_method == input.integration_method,
        r.integration_uri == input.integration_uri,
        r.connection_type == input.connection_type,
        r.connection_id == input.connection_id,
        r.credentials_arn == input.credentials_arn,
        r.description == input.description,
        match input.payload_format_version {
            Some(v) => r.payload_format_version@ == v@,
            None => r.payload_format_version@ == "1.0"@,
        },
        match input.timeout_in_millis {
            Some(t) => r.timeout_in_millis == t,
            None => r.timeout_in_millis == 30000,
        },
        !r.api_gateway_managed,
{
}

/// A created stage copies the name, deployment and settings given; it deploys
/// automatically only when the input says so, and it was created and last
/// updated now.
pub proof fn lemma_create_stage_fields(r: StageRecord, input: CreateStageInput, now: i64)
    requires
        created_stage(r, input, now),
    ensures
        r.api_id == input.api_id,
        r.stage_name == input.stage_name,
        r.deployment_id == input.deployment_id,
        r.description == input.description,
        match input.auto_deploy {
            Some(b) => r.auto_deploy == b,
            None => !r.auto_deploy,
        },
        r.client_certificate_id == input.client_certificate_id,
        r.created_date == now,
        r.last_updated_date == now,
{
}

/// A created authorizer copies every setting given.
pub proof fn lemma_create_authorizer_fields(
    r: AuthorizerRecord,
    input: CreateAuthorizerInput,
    authorizer_id: String,
)
    requires
        created_authorizer(r, input, authorizer_id),
    ensures
        r.api_id == input.api_id,
        r.authorizer_id == authorizer_id,
        r.name == input.name,
        r.authorizer_type == input.authorizer_type,
        r.authorizer_uri == input.authorizer_uri,
        r.authorizer_payload_format_version == input.authorizer_payload_format_version,
        r.enable_simple_responses == input.enable_simple_responses,
        r.authorizer_result_ttl_in_seconds == input.authorizer_result_ttl_in_seconds,
{
}

/// After `UpdateRoute` each field the input gives holds the given value; each
/// field it leaves out keeps the old value, and the route keeps its identity.
pub proof fn lemma_update_route_fields(r: RouteRecord, o: RouteRecord, input: UpdateRouteInput)
    requires
        updated_route(r, o, input),
    ensures
        match input.route_key {
            Some(v) => r.route_key == v,
            None => r.route_key == o.route_key,
        },
        match input.target {
            Some(v) => r.target == Some(v),
            None => r.target == o.target,
        },
        match input.authorization_type {
            Some(v) => r.authorization_type == Some(v),
            None => r.authorization_type == o.authorization_type,
        },
        match input.authorizer_id {
            Some(v) => r.authorizer_id == Some(v),
            None => r.authorizer_id == o.authorizer_id,
        },
        match input.api_key_required {
            Some(v) => r.api_key_required == v,
            None => r.api_key_required == o.api_key_required,
        },
        match input.model_selection_expression {
            Some(v) => r.model_selection_expression == Some(v),
            None => r.model_selection_expression == o.model_selection_expression,
        },
        match input.operation_name {
            Some(v) => r.operation_name == Some(v),
            None => r.operation_name == o.operation_name,
        },
        match input.route_response_selection_expression {
            Some(v) => r.route_response_selection_expression == Some(v),
            None => r.route_response_selection_expression == o.route_response_selection_expression,
        },
        r.api_id == o.api_id,
        r.route_id == o.route_id,
        r.api_gateway_managed == o.api_gateway_managed,
{
}

/// After `UpdateApi` each field the input gives holds the given value; each
/// field it leaves out keeps the old value, and the API keeps its identity,
/// protocol, endpoint and creation time.
pub proof fn lemma_update_api_fields(r: ApiRecord, o: ApiRecord, input: UpdateApiInput)
    requires
        updated_api(r, o, input),
    ensures
        match input.name {
            Some(v) => r.name == v,
            None => r.name == o.name,
        },
        match input.route_selection_expression {
            Some(v) => r.route_selection_expression == v,
            None => r.route_selection_expression == o.route_selection_expression,
        },
        match input.api_key_selection_expression {
            Some(v) => r.api_key_selection_expression == Some(v),
            None => r.api_key_selection_expression == o.api_key_selection_expression,
        },
        match input.description {
            Some(v) => r.description == Some(v),
            None => r.description == o.description,
        },
        match input.disable_execute_api_endpoint {
            Some(v) => r.disable_execute_api_endpoint == v,
            None => r.disable_execute_api_endpoint == o.disable_execute_api_endpoint,
        },
        match input.disable_schema_validation {
            Some(v) => r.disable_schema_validation == v,
            None => r.disable_schema_validation == o.disable_schema_validation,
        },
        match input.ip_address_type {
            Some(v) => r.ip_address_type == Some(v),
            None => r.ip_address_type == o.ip_address_type,
        },
        match input.version {
            Some(v) => r.version == Some(v),
            None => r.version == o.version,
        },
        r.api_id == o.api_id,
        r.protocol_type == o.protocol_type,
        r.api_endpoint == o.api_endpoint,
        r.created_date == o.created_date,
{
}

/// After `UpdateIntegration` each field the input gives holds the given value;
/// each field it leaves out keeps the old value.
pub proof fn lemma_update_integration_fields(r: IntegrationRecord, o: IntegrationRecord, input: UpdateIntegrationInput)
    requires
        updated_integration(r, o, input),
    ensures
        match input.integration_type {
            Some(v) => r.integration_type == v,
            None => r.integration_type == o.integration_type,
        },
        match input.integration_method {
            Some(v) => r.integration_method == Some(v),
            None => r.integration_method == o.integration_method,
        },
        match input.integration_uri {
            Some(v) => r.integration_uri == Some(v),
            None => r.integration_uri == o.integration_uri,
        },
        match input.connection_type {
            Some(v) => r.connection_type == Some(v),
            None => r.connection_type == o.connection_type,
        },
        match input.connection_id {
            Some(v) => r.connection_id == Some(v),
            None => r.connection_id == o.connection_id,
        },
        match input.credentials_arn {
            Some(v) => r.credentials_arn == Some(v),
            None => r.credentials_arn == o.credentials_arn,
        },
        match input.description {
            Some(v) => r.description == Some(v),
            None => r.description == o.description,
        },
        match input.payload_format_version {
            Some(v) => r.payload_format_version == v,
            None => r.payload_format_version == o.payload_format_version,
        },
        match input.timeout_in_millis {
            Some(v) => r.timeout_in_millis == v,
            None => r.timeout_in_millis == o.timeout_in_millis,
        },
        r.api_id == o.api_id,
        r.integration_id == o.integration_id,
        r.api_gateway_managed == o.api_gateway_managed,
{
}

/// After `UpdateAuthorizer` each field the input gives holds the given value;
/// each field it leaves out keeps the old value.
pub proof fn lemma_update_authorizer_fields(r: AuthorizerRecord, o: AuthorizerRecord, input: UpdateAuthorizerInput)
    requires
        updated_authorizer(r, o, input),
    ensures
        match input.name {
            Some(v) => r.name == v,
            None => r.name == o.name,
        },
        match input.authorizer_type {
            Some(v) => r.authorizer_type == v,
            None => r.authorizer_type == o.authorizer_type,
        },
        match input.authorizer_uri {
            Some(v) => r.authorizer_uri == Some(v),
            None => r.authorizer_uri == o.authorizer_uri,
        },
        match input.authorizer_payload_format_version {
            Some(v) => r.authorizer_payload_format_version == Some(v),
            None => r.authorizer_payload_format_version == o.authorizer_payload_format_version,
        },
        match input.enable_simple_responses {
            Some(v) => r.enable_simple_responses == Some(v),
            None => r.enable_simple_responses == o.enable_simple_responses,
        },
        match input.authorizer_result_ttl_in_seconds {
            Some(v) => r.authorizer_result_ttl_in_seconds == Some(v),
            None => r.authorizer_result_ttl_in_seconds == o.authorizer_result_ttl_in_seconds,
        },
        r.api_id == o.api_id,
        r.authorizer_id == o.authorizer_id,
{
}

/// After `UpdateStage` at `now` each field the input gives holds the given
/// value; each field it leaves out keeps the old value; the stage was last
/// updated at `now`.
pub proof fn lemma_update_stage_fields(r: StageRecord, o: StageRecord, input: UpdateStageInput, now: i64)
    requires
        updated_stage(r, o, input, now),
    ensures
        match input.deployment_id {
            Some(v) => r.deployment_id == Some(v),
            None => r.deployment_id == o.deployment_id,
        },
        match input.description {
            Some(v) => r.description == Some(v),
            None => r.description == o.description,
        },
        match input.auto_deploy {
            Some(v) => r.auto_deploy == v,
            None => r.auto_deploy == o.auto_deploy,
        },
        match input.client_certificate_id {
            Some(v) => r.client_certificate_id == Some(v),
            None => r.client_certificate_id == o.client_certificate_id,
        },
        r.api_id == o.api_id,
        r.stage_name == o.stage_name,
        r.created_date == o.created_date,
        r.last_updated_date == now,
{
}

impl RustackApiGatewayV2 {
    /// The provider's invariant: every store keeps unique keys.
    pub open spec fn wf(&self) -> bool {
        &&& self.apis.wf()
        &&& self.routes.wf()
        &&& self.integrations.wf()
        &&& self.stages.wf()
        &&& self.deployments.wf()
        &&& self.authorizers.wf()
        &&& self.models.wf()
        &&& self.route_responses.wf()
        &&& self.domain_names.wf()
        &&& self.api_mappings.wf()
        &&& self.vpc_links.wf()
        &&& self.tags.wf()
        &&& self.api_tags.wf()
    }

    /// Whether the API exists.
    pub open spec fn has_api(&self, api_id: Seq<char>) -> bool {
        record_at(self.apis@, Seq::<char>::empty(), api_id) is Some
    }

    /// A provider with nothing in it, for the given region.
    pub fn new(region: String) -> (r: Self)
        ensures
            r.wf(),
            r.region == region,
            r.apis@.len() == 0,
            r.routes@.len() == 0,
            r.integrations@.len() == 0,
            r.stages@.len() == 0,
            r.deployments@.len() == 0,
            r.authorizers@.len() == 0,
            r.models@.len() == 0,
            r.route_responses@.len() == 0,
            r.domain_names@.len() == 0,
            r.api_mappings@.len() == 0,
            r.vpc_links@.len() == 0,
            r.tags@.len() == 0,
            r.api_tags@.len() == 0,
    {
        RustackApiGatewayV2 {
            region,
            apis: KeyedStore::new(),
            routes: KeyedStore::new(),
            integrations: KeyedStore::new(),
            stages: KeyedStore::new(),
            deployments: KeyedStore::new(),
            authorizers: KeyedStore::new(),
            models: KeyedStore::new(),
            route_responses: KeyedStore::new(),
            domain_names: KeyedStore::new(),
            api_mappings: KeyedStore::new(),
            vpc_links: VpcLinkStore::new(),
            tags: KeyedStore::new(),
            api_tags: KeyedStore::new(),
        }
    }

    /// The API, or the not-found error for it.
    fn require_api(&self, api_id: &str) -> (r: Result<ApiRecord, ApiGatewayV2ServiceError>)
        ensures
            match r {
                Ok(a) => record_at(self.apis@, Seq::<char>::empty(), api_id@) == Some(a),
                Err(e) => {
                    &&& record_at(self.apis@, Seq::<char>::empty(), api_id@) is None
                    &&& e matches ApiGatewayV2ServiceError::NotFound(m)
                    &&& e->NotFound_0@ == not_found_text("Api"@, api_id@)
                },
            },
    {
        proof {
            reveal_strlit("");
            assert(""@ =~= Seq::<char>::empty());
        }
        match self.apis.get("", api_id) {
            Some(a) => Ok(a),
            None => Err(not_found("Api", api_id)),
        }
    }

    /// Deploys, at time `now`, each stage of the API that deploys
    /// automatically: a fresh deployment is kept and becomes the stage's.
    pub fn auto_deploy(&mut self, api_id: &str, now: i64)
        requires
            old(self).wf(),
        ensures
            final(self).wf(),
            auto_deployed(
                old(self).stages@,
                old(self).deployments@,
                final(self).stages@,
                final(self).deployments@,
                api_id@,
                now,
            ),
            final(self).region == old(self).region,
            final(self).apis@ == old(self).apis@,
            final(self).routes@ == old(self).routes@,
            final(self).integrations@ == old(self).integrations@,
            final(self).authorizers@ == old(self).authorizers@,
            final(self).models@ == old(self).models@,
            final(self).domain_names@ == old(self).domain_names@,
            final(self).api_mappings@ == old(self).api_mappings@,
            final(self).vpc_links@ == old(self).vpc_links@,
            final(self).route_responses@ == old(self).route_responses@,
            final(self).tags@ == old(self).tags@,
            final(self).api_tags@ == old(self).api_tags@,
    {
        let ghost s0 = self.stages@;
        let ghost d0 = self.deployments@;
        let ghost api = api_id@;
        let ghost mut deps: Seq<DeploymentRecord> = Seq::empty();
        let mut i: usize = 0;
        while i < self.stages.len()
            invariant
                self.wf(),
                0 <= i <= s0.len(),
                self.stages@.len() == s0.len(),
                forall|k: int| i <= k < s0.len() ==> #[trigger] self.stages@[k] == s0[k],
                forall|k: int| 0 <= k < deps.len() ==> auto_deployment(#[trigger] deps[k], api, now),
                deploy_walk(s0, d0, api, now, deps, i as int) == (
                    self.stages@,
                    self.deployments@,
                    deps.len() as int,
                ),
                self.region == old(self).region,
                self.apis@ == old(self).apis@,
                self.routes@ == old(self).routes@,
                self.integrations@ == old(self).integrations@,
                self.authorizers@ == old(self).authorizers@,
                self.models@ == old(self).models@,
                self.domain_names@ == old(self).domain_names@,
                self.api_mappings@ == old(self).api_mappings@,
                self.vpc_links@ == old(self).vpc_links@,
                self.route_responses@ == old(self).route_responses@,
                self.tags@ == old(self).tags@,
                self.api_tags@ == old(self).api_tags@,
                api == api_id@,
            decreases s0.len() - i,
        {
            let st = self.stages.at(i);
            if str_eq(st.api_id.as_str(), api_id) && st.auto_deploy {
                let id = generate_id();
                let dep = DeploymentRecord {
                    api_id: st.api_id.clone(),
                    deployment_id: id.clone(),
                    description: Some(own("Auto-deployed")),
                    auto_deployed: true,
                    created_date: now,
                };
                let new_st = StageRecord {
                    api_id: st.api_id.clone(),
                    stage_name: st.stage_name.clone(),
                    deployment_id: Some(id),
                    description: copy_opt_string(&st.description),
                    auto_deploy: st.auto_deploy,
                    client_certificate_id: copy_opt_string(&st.client_certificate_id),
                    created_date: st.created_date,
                    last_updated_date: now,
                };
                proof {
                    lemma_walk_prefix(s0, d0, api, now, deps, dep, i as int);
                    assert(new_st == deployed_stage(s0[i as int], dep.deployment_id, now));
                }
                self.stages.set_at(i, new_st);
                self.deployments.put(dep);
                proof {
                    deps = deps.push(dep);
                }
            }
            i = i + 1;
        }
    }

    /// Creates an API under `api_id` at time `now`; with a target, also an
    /// integration `integration_id` and a route `route_id` that sends to it.
    pub fn create_api_with(
        &mut self,
        input: CreateApiInput,
        api_id: String,
        integration_id: String,
        route_id: String,
        now: i64,
    ) -> (r: Result<ApiRecord, ApiGatewayV2ServiceError>)
        requires
            old(self).wf(),
        ensures
            final(self).wf(),
            match r {
                Err(e) => {
                    &&& input.name@.len() == 0
                    &&& e matches ApiGatewayV2ServiceError::BadRequest(m)
                    &&& e->BadRequest_0@ == "Name is required"@
                    &&& *final(self) == *old(self)
                },
                Ok(a) => {
                    &&& input.name@.len() > 0
                    &&& created_api(a, input, api_id, old(self).region@, now)
                    &&& final(self).region == old(self).region
                    &&& final(self).apis@ == kept(old(self).apis@, a)
                    &&& final(self).api_tags@ == with_tags(old(self).api_tags@, api_id, input.tags@)
                    &&& input.tags@.len() == 0 ==> final(self).tags@ == old(self).tags@
                    &&& input.tags@.len() > 0 ==> exists|arn: String|
                        arn@ == api_arn_text(old(self).region@, api_id@) && #[trigger] with_tags(
                            old(self).tags@.filter(kept_after::<TagRecord>(arn@, None)),
                            arn,
                            input.tags@,
                        ) == final(self).tags@
                    &&& input.target is None ==> (final(self).integrations@ == old(self).integrations@
                        && final(self).routes@ == old(self).routes@)
                    &&& input.target is Some ==> exists|ir: IntegrationRecord, rr: RouteRecord|
                        #![trigger quick_integration(ir, api_id, integration_id, input.target->0), quick_route(rr, api_id, route_id, input.route_key, integration_id)]
                        quick_integration(ir, api_id, integration_id, input.target->0) && quick_route(
                            rr,
                            api_id,
                            route_id,
                            input.route_key,
                            integration_id,
                        ) && final(self).integrations@ == kept(old(self).integrations@, ir)
                            && final(self).routes@ == kept(old(self).routes@, rr)
                    &&& final(self).stages@ == old(self).stages@
                    &&& final(self).deployments@ == old(self).deployments@
                    &&& final(self).authorizers@ == old(self).authorizers@
                    &&& final(self).models@ == old(self).models@
                    &&& final(self).domain_names@ == old(self).domain_names@
                    &&& final(self).api_mappings@ == old(self).api_mappings@
                    &&& final(self).vpc_links@ == old(self).vpc_links@
                    &&& final(self).route_responses@ == old(self).route_responses@
                },
            },
    {
        if str_chars(input.name.as_str()).len() == 0 {
            return Err(ApiGatewayV2ServiceError::BadRequest(own("Name is required")));
        }
        let endpoint = api_endpoint(self.region.as_str(), api_id.as_str());
        let rse = match &input.route_selection_expression {
            Some(e) => e.clone(),
            None => own("${request.method} ${request.path}"),
        };
        let record = ApiRecord {
            api_id: api_id.clone(),
            name: input.name.clone(),
            protocol_type: input.protocol_type.clone(),
            route_selection_expression: rse,
            api_key_selection_expression: copy_opt_string(&input.api_key_selection_expression),
            description: copy_opt_string(&input.description),
            disable_execute_api_endpoint: match input.disable_execute_api_endpoint {
                Some(v) => v,
                None => false,
            },
            disable_schema_validation: match input.disable_schema_validation {
                Some(v) => v,
                None => false,
            },
            ip_address_type: copy_opt_string(&input.ip_address_type),
            version: copy_opt_string(&input.version),
            api_endpoint: endpoint,
            created_date: now,
        };
        if input.tags.len() > 0 {
            let arn = api_arn(self.region.as_str(), api_id.as_str());
            self.tags.remove_where(arn.as_str(), None);
            put_tags(&mut self.tags, &arn, &input.tags);
        }
        put_tags(&mut self.api_tags, &api_id, &input.tags);
        self.apis.put(record.duplicate());
        match &input.target {
            None => {},
            Some(t) => {
                let ir = IntegrationRecord {
                    api_id: api_id.clone(),
                    integration_id: integration_id.clone(),
                    integration_type: own("AWS_PROXY"),
                    integration_method: Some(own("POST")),
                    integration_uri: Some(t.clone()),
                    connection_type: Some(own("INTERNET")),
                    connection_id: None,
                    credentials_arn: None,
                    description: None,
                    payload_format_version: own("2.0"),
                    timeout_in_millis: 30000,
                    api_gateway_managed: true,
                };
                let key = match &input.route_key {
                    Some(k) => k.clone(),
                    None => own("$default"),
                };
                let target = concat3("integrations/", integration_id.as_str(), "");
                proof {
                    reveal_strlit("");
                    assert(target@ =~= "integrations/"@ + integration_id@);
                }
                let rr = RouteRecord {
                    api_id: api_id.clone(),
                    route_id: route_id.clone(),
                    route_key: key,
                    target: Some(target),
                    authorization_type: None,
                    authorizer_id: None,
                    api_key_required: false,
                    model_selection_expression: None,
                    operation_name: None,
                    route_response_selection_expression: None,
                    api_gateway_managed: true,
                };
                assert(quick_integration(ir, api_id, integration_id, input.target->0));
                assert(quick_route(rr, api_id, route_id, input.route_key, integration_id));
                self.integrations.put(ir);
                self.routes.put(rr);
            },
        }
        Ok(record)
    }

    /// Creates an API with fresh identifiers, at the current time.
    pub fn create_api(&mut self, input: CreateApiInput) -> (r: Result<
        ApiRecord,
        ApiGatewayV2ServiceError,
    >)
        requires
            old(self).wf(),
        ensures
            final(self).wf(),
            match r {
                Err(e) => input.name@.len() == 0 && *final(self) == *old(self),
                Ok(a) => input.name@.len() > 0 && id_text(a.api_id@) && final(self).apis@ == kept(
                    old(self).apis@,
                    a,
                ),
            },
    {
        let api_id = generate_id();
        let integration_id = generate_id();
        let route_id = generate_id();
        let now = now_epoch_seconds();
        self.create_api_with(input, api_id, integration_id, route_id, now)
    }

    /// The API with the given id.
    pub fn get_api(&self, api_id: &str) -> (r: Result<ApiRecord, ApiGatewayV2ServiceError>)
        ensures
            match r {
                Ok(a) => record_at(self.apis@, Seq::<char>::empty(), api_id@) == Some(a),
                Err(e) => {
                    &&& record_at(self.apis@, Seq::<char>::empty(), api_id@) is None
                    &&& e matches ApiGatewayV2ServiceError::NotFound(m)
                    &&& e->NotFound_0@ == not_found_text("Api"@, api_id@)
                },
            },
    {
        self.require_api(api_id)
    }

    /// Updates an API with the fields the input gives.
    pub fn update_api(&mut self, input: UpdateApiInput) -> (r: Result<
        ApiRecord,
        ApiGatewayV2ServiceError,
    >)
        requires
            old(self).wf(),
        ensures
            final(self).wf(),
            match r {
                Err(e) => {
                    &&& record_at(old(self).apis@, Seq::<char>::empty(), input.api_id@) is None
                    &&& e matches ApiGatewayV2ServiceError::NotFound(m)
                    &&& e->NotFound_0@ == not_found_text("Api"@, input.api_id@)
                    &&& *final(self) == *old(self)
                },
                Ok(a) => {
                    &&& record_at(old(self).apis@, Seq::<char>::empty(), input.api_id@) matches Some(
                        o,
                    )
                    &&& updated_api(a, o, input)
                    &&& final(self).apis@ == kept(old(self).apis@, a)
                    &&& final(self).region == old(self).region
                    &&& final(self).routes@ == old(self).routes@
                    &&& final(self).integrations@ == old(self).integrations@
                    &&& final(self).stages@ == old(self).stages@
                    &&& final(self).deployments@ == old(self).deployments@
                    &&& final(self).authorizers@ == old(self).authorizers@
                    &&& final(self).models@ == old(self).models@
                    &&& final(self).domain_names@ == old(self).domain_names@
                    &&& final(self).api_mappings@ == old(self).api_mappings@
                    &&& final(self).vpc_links@ == old(self).vpc_links@
                    &&& final(self).route_responses@ == old(self).route_responses@
                    &&& final(self).tags@ == old(self).tags@
                    &&& final(self).api_tags@ == old(self).api_tags@
                },
            },
    {
        let a = match self.require_api(input.api_id.as_str()) {
            Ok(a) => a,
            Err(e) => {
                return Err(e);
            },
        };
        let r = ApiRecord {
            api_id: a.api_id.clone(),
            name: keep_text(&input.name, &a.name),
            protocol_type: a.protocol_type.clone(),
            route_selection_expression: keep_text(
                &input.route_selection_expression,
                &a.route_selection_expression,
            ),
            api_key_selection_expression: keep_opt(
                &input.api_key_selection_expression,
                &a.api_key_selection_expression,
            ),
            description: keep_opt(&input.description, &a.description),
            disable_execute_api_endpoint: match input.disable_execute_api_endpoint {
                Some(v) => v,
                None => a.disable_execute_api_endpoint,
            },
            disable_schema_validation: match input.disable_schema_validation {
                Some(v) => v,
                None => a.disable_schema_validation,
            },
            ip_address_type: keep_opt(&input.ip_address_type, &a.ip_address_type),
            version: keep_opt(&input.version, &a.version),
            api_endpoint: a.api_endpoint.clone(),
            created_date: a.created_date,
        };
        self.apis.put(r.duplicate());
        Ok(r)
    }

    /// Deletes an API with everything it holds and the tags of its ARN.
    pub fn delete_api(&mut self, api_id: &str) -> (r: Result<(), ApiGatewayV2ServiceError>)
        requires
            old(self).wf(),
        ensures
            final(self).wf(),
            match r {
                Err(e) => {
                    &&& record_at(old(self).apis@, Seq::<char>::empty(), api_id@) is None
                    &&& e matches ApiGatewayV2ServiceError::NotFound(m)
                    &&& e->NotFound_0@ == not_found_text("Api"@, api_id@)
                    &&& *final(self) == *old(self)
                },
                Ok(_) => {
                    &&& record_at(old(self).apis@, Seq::<char>::empty(), api_id@) is Some
                    &&& final(self).region == old(self).region
                    &&& final(self).apis@ == old(self).apis@.filter(
                        kept_after::<ApiRecord>(Seq::<char>::empty(), Some(api_id@)),
                    )
                    &&& final(self).routes@ == old(self).routes@.filter(
                        kept_after::<RouteRecord>(api_id@, None),
                    )
                    &&& final(self).integrations@ == old(self).integrations@.filter(
                        kept_after::<IntegrationRecord>(api_id@, None),
                    )
                    &&& final(self).stages@ == old(self).stages@.filter(
                        kept_after::<StageRecord>(api_id@, None),
                    )
                    &&& final(self).deployments@ == old(self).deployments@.filter(
                        kept_after::<DeploymentRecord>(api_id@, None),
                    )
                    &&& final(self).authorizers@ == old(self).authorizers@.filter(
                        kept_after::<AuthorizerRecord>(api_id@, None),
                    )
                    &&& final(self).models@ == old(self).models@.filter(
                        kept_after::<ModelRecord>(api_id@, None),
                    )
                    &&& final(self).domain_names@ == old(self).domain_names@
                    &&& final(self).api_mappings@ == old(self).api_mappings@
                    &&& final(self).vpc_links@ == old(self).vpc_links@
                    &&& final(self).route_responses@ == old(self).route_responses@.filter(
                        kept_after::<RouteResponseRecord>(api_id@, None),
                    )
                    &&& final(self).api_tags@ == old(self).api_tags@.filter(
                        kept_after::<TagRecord>(api_id@, None),
                    )
                    &&& final(self).tags@ == old(self).tags@.filter(
                        kept_after::<TagRecord>(api_arn_text(old(self).region@, api_id@), None),
                    )
                },
            },
    {
        match self.require_api(api_id) {
            Ok(_) => {},
            Err(e) => {
                return Err(e);
            },
        }
        proof {
            reveal_strlit("");
            assert(""@ =~= Seq::<char>::empty());
        }
        self.apis.remove_where("", Some(api_id));
        self.routes.remove_where(api_id, None);
        self.integrations.remove_where(api_id, None);
        self.stages.remove_where(api_id, None);
        self.deployments.remove_where(api_id, None);
        self.authorizers.remove_where(api_id, None);
        self.models.remove_where(api_id, None);
        self.route_responses.remove_where(api_id, None);
        self.api_tags.remove_where(api_id, None);
        let arn = api_arn(self.region.as_str(), api_id);
        self.tags.remove_where(arn.as_str(), None);
        Ok(())
    }

    /// Every API, in the order they were created.
    pub fn get_apis(&self) -> (r: Vec<ApiRecord>)
        ensures
            r@ == self.apis@.filter(owned_by::<ApiRecord>(Seq::<char>::empty())),
    {
        proof {
            reveal_strlit("");
            assert(""@ =~= Seq::<char>::empty());
        }
        self.apis.list_owner("")
    }

    /// Creates a route `route_id` of an API, then deploys the API's
    /// automatically deploying stages at time `now`.
    pub fn create_route_with(&mut self, input: CreateRouteInput, route_id: String, now: i64) -> (r: Result<
        RouteRecord,
        ApiGatewayV2ServiceError,
    >)
        requires
            old(self).wf(),
        ensures
            final(self).wf(),
            match r {
                Err(e) => {
                    &&& !old(self).has_api(input.api_id@)
                    &&& e matches ApiGatewayV2ServiceError::NotFound(m)
                    &&& e->NotFound_0@ == not_found_text("Api"@, input.api_id@)
                    &&& *final(self) == *old(self)
                },
                Ok(rt) => {
                    &&& old(self).has_api(input.api_id@)
                    &&& created_route(rt, input, route_id)
                    &&& final(self).routes@ == kept(old(self).routes@, rt)
                    &&& auto_deployed(
                        old(self).stages@,
                        old(self).deployments@,
                        final(self).stages@,
                        final(self).deployments@,
                        input.api_id@,
                        now,
                    )
                    &&& same_except(*final(self), *old(self), true, false, true, true, false, false)
                },
            },
    {
        match self.require_api(input.api_id.as_str()) {
            Ok(_) => {},
            Err(e) => {
                return Err(e);
            },
        }
        let rt = RouteRecord {
            api_id: input.api_id.clone(),
            route_id: route_id,
            route_key: input.route_key.clone(),
            target: copy_opt_string(&input.target),
            authorization_type: copy_opt_string(&input.authorization_type),
            authorizer_id: copy_opt_string(&input.authorizer_id),
            api_key_required: match input.api_key_required {
                Some(v) => v,
                None => false,
            },
            model_selection_expression: copy_opt_string(&input.model_selection_expression),
            operation_name: copy_opt_string(&input.operation_name),
            route_response_selection_expression: copy_opt_string(
                &input.route_response_selection_expression,
            ),
            api_gateway_managed: false,
        };
        self.routes.put(rt.duplicate());
        self.auto_deploy(input.api_id.as_str(), now);
        Ok(rt)
    }

    /// A route of an API.
    pub fn get_route(&self, api_id: &str, route_id: &str) -> (r: Result<
        RouteRecord,
        ApiGatewayV2ServiceError,
    >)
        ensures
            match r {
                Ok(rt) => self.has_api(api_id@) && record_at(self.routes@, api_id@, route_id@)
                    == Some(rt),
                Err(e) => e matches ApiGatewayV2ServiceError::NotFound(m) && if !self.has_api(
                    api_id@,
                ) {
                    m@ == not_found_text("Api"@, api_id@)
                } else {
                    record_at(self.routes@, api_id@, route_id@) is None && m@ == not_found_text(
                        "Route"@,
                        route_id@,
                    )
                },
            },
    {
        match self.require_api(api_id) {
            Ok(_) => {},
            Err(e) => {
                return Err(e);
            },
        }
        require(&self.routes, api_id, route_id, "Route")
    }

    /// Updates a route with the fields the input gives, then deploys the
    /// API's automatically deploying stages at time `now`.
    pub fn update_route(&mut self, input: UpdateRouteInput, now: i64) -> (r: Result<
        RouteRecord,
        ApiGatewayV2ServiceError,
    >)
        requires
            old(self).wf(),
        ensures
            final(self).wf(),
            match r {
                Err(e) => {
                    &&& e matches ApiGatewayV2ServiceError::NotFound(m)
                    &&& if !old(self).has_api(input.api_id@) {
                        e->NotFound_0@ == not_found_text("Api"@, input.api_id@)
                    } else {
                        record_at(old(self).routes@, input.api_id@, input.route_id@) is None
                            && e->NotFound_0@ == not_found_text("Route"@, input.route_id@)
                    }
                    &&& *final(self) == *old(self)
                },
                Ok(rt) => {
                    &&& old(self).has_api(input.api_id@)
                    &&& record_at(old(self).routes@, input.api_id@, input.route_id@) matches Some(o)
                    &&& rt.api_id@ == input.api_id@
                    &&& updated_route(rt, o, input)
                    &&& final(self).routes@ == kept(old(self).routes@, rt)
                    &&& auto_deployed(
                        old(self).stages@,
                        old(self).deployments@,
                        final(self).stages@,
                        final(self).deployments@,
                        input.api_id@,
                        now,
                    )
                    &&& same_except(*final(self), *old(self), true, false, true, true, false, false)
                },
            },
    {
        match self.require_api(input.api_id.as_str()) {
            Ok(_) => {},
            Err(e) => {
                return Err(e);
            },
        }
        let o = match require(&self.routes, input.api_id.as_str(), input.route_id.as_str(), "Route") {
            Ok(o) => o,
            Err(e) => {
                return Err(e);
            },
        };
        proof {
            lemma_first_index_props(old(self).routes@, has_key::<RouteRecord>(input.api_id@, input.route_id@));
        }
        let rt = RouteRecord {
            api_id: o.api_id.clone(),
            route_id: o.route_id.clone(),
            route_key: keep_text(&input.route_key, &o.route_key),
            target: keep_opt(&input.target, &o.target),
            authorization_type: keep_opt(&input.authorization_type, &o.authorization_type),
            authorizer_id: keep_opt(&input.authorizer_id, &o.authorizer_id),
            api_key_required: match input.api_key_required {
                Some(v) => v,
                None => o.api_key_required,
            },
            model_selection_expression: keep_opt(
                &input.model_selection_expression,
                &o.model_selection_expression,
            ),
            operation_name: keep_opt(&input.operation_name, &o.operation_name),
            route_response_selection_expression: keep_opt(
                &input.route_response_selection_expression,
                &o.route_response_selection_expression,
            ),
            api_gateway_managed: o.api_gateway_managed,
        };
        self.routes.put(rt.duplicate());
        self.auto_deploy(input.api_id.as_str(), now);
        Ok(rt)
    }

    /// Deletes a route, then deploys the API's automatically deploying
    /// stages at time `now`.
    pub fn delete_route(&mut self, api_id: &str, route_id: &str, now: i64) -> (r: Result<
        (),
        ApiGatewayV2ServiceError,
    >)
        requires
            old(self).wf(),
        ensures
            final(self).wf(),
            match r {
                Err(e) => {
                    &&& e matches ApiGatewayV2ServiceError::NotFound(m)
                    &&& if !old(self).has_api(api_id@) {
                        e->NotFound_0@ == not_found_text("Api"@, api_id@)
                    } else {
                        record_at(old(self).routes@, api_id@, route_id@) is None
                            && e->NotFound_0@ == not_found_text("Route"@, route_id@)
                    }
                    &&& *final(self) == *old(self)
                },
                Ok(_) => {
                    &&& old(self).has_api(api_id@)
                    &&& record_at(old(self).routes@, api_id@, route_id@) is Some
                    &&& final(self).routes@ == old(self).routes@.filter(
                        kept_after::<RouteRecord>(api_id@, Some(route_id@)),
                    )
                    &&& auto_deployed(
                        old(self).stages@,
                        old(self).deployments@,
                        final(self).stages@,
                        final(self).deployments@,
                        api_id@,
                        now,
                    )
                    &&& same_except(*final(self), *old(self), true, false, true, true, false, false)
                },
            },
    {
        match self.require_api(api_id) {
            Ok(_) => {},
            Err(e) => {
                return Err(e);
            },
        }
        match require(&self.routes, api_id, route_id, "Route") {
            Ok(_) => {},
            Err(e) => {
                return Err(e);
            },
        }
        self.routes.remove_where(api_id, Some(route_id));
        self.auto_deploy(api_id, now);
        Ok(())
    }

    /// The routes of an API, in the order they were created.
    pub fn get_routes(&self, api_id: &str) -> (r: Result<Vec<RouteRecord>, ApiGatewayV2ServiceError>)
        ensures
            match r {
                Ok(v) => self.has_api(api_id@) && v@ == self.routes@.filter(
                    owned_by::<RouteRecord>(api_id@),
                ),
                Err(e) => {
                    &&& !self.has_api(api_id@)
                    &&& e matches ApiGatewayV2ServiceError::NotFound(m)
                    &&& e->NotFound_0@ == not_found_text("Api"@, api_id@)
                },
            },
    {
        match self.require_api(api_id) {
            Ok(_) => {},
            Err(e) => {
                return Err(e);
            },
        }
        Ok(self.routes.list_owner(api_id))
    }

    /// Creates an integration `integration_id` of an API, then deploys the
    /// API's automatically deploying stages at time `now`.
    pub fn create_integration_with(
        &mut self,
        input: CreateIntegrationInput,
        integration_id: String,
        now: i64,
    ) -> (r: Result<IntegrationRecord, ApiGatewayV2ServiceError>)
        requires
            old(self).wf(),
        ensures
            final(self).wf(),
            match r {
                Err(e) => {
                    &&& !old(self).has_api(input.api_id@)
                    &&& e matches ApiGatewayV2ServiceError::NotFound(m)
                    &&& e->NotFound_0@ == not_found_text("Api"@, input.api_id@)
                    &&& *final(self) == *old(self)
                },
                Ok(it) => {
                    &&& old(self).has_api(input.api_id@)
                    &&& created_integration(it, input, integration_id)
                    &&& final(self).integrations@ == kept(old(self).integrations@, it)
                    &&& auto_deployed(
                        old(self).stages@,
                        old(self).deployments@,
                        final(self).stages@,
                        final(self).deployments@,
                        input.api_id@,
                        now,
                    )
                    &&& same_except(*final(self), *old(self), false, true, true, true, false, false)
                },
            },
    {
        match self.require_api(input.api_id.as_str()) {
            Ok(_) => {},
            Err(e) => {
                return Err(e);
            },
        }
        let it = IntegrationRecord {
            api_id: input.api_id.clone(),
            integration_id: integration_id,
            integration_type: input.integration_type.clone(),
            integration_method: copy_opt_string(&input.integration_method),
            integration_uri: copy_opt_string(&input.integration_uri),
            connection_type: copy_opt_string(&input.connection_type),
            connection_id: copy_opt_string(&input.connection_id),
            credentials_arn: copy_opt_string(&input.credentials_arn),
            description: copy_opt_string(&input.description),
            payload_format_version: match &input.payload_format_version {
                Some(v) => v.clone(),
                None => own("1.0"),
            },
            timeout_in_millis: match input.timeout_in_millis {
                Some(v) => v,
                None => 30000,
            },
            api_gateway_managed: false,
        };
        self.integrations.put(it.duplicate());
        self.auto_deploy(input.api_id.as_str(), now);
        Ok(it)
    }

    /// An integration of an API.
    pub fn get_integration(&self, api_id: &str, integration_id: &str) -> (r: Result<
        IntegrationRecord,
        ApiGatewayV2ServiceError,
    >)
        ensures
            match r {
                Ok(it) => self.has_api(api_id@) && record_at(
                    self.integrations@,
                    api_id@,
                    integration_id@,
                ) == Some(it),
                Err(e) => e matches ApiGatewayV2ServiceError::NotFound(m) && if !self.has_api(
                    api_id@,
                ) {
                    m@ == not_found_text("Api"@, api_id@)
                } else {
                    record_at(self.integrations@, api_id@, integration_id@) is None && m@
                        == not_found_text("Integration"@, integration_id@)
                },
            },
    {
        match self.require_api(api_id) {
            Ok(_) => {},
            Err(e) => {
                return Err(e);
            },
        }
        require(&self.integrations, api_id, integration_id, "Integration")
    }

    /// Updates an integration with the fields the input gives, then deploys
    /// the API's automatically deploying stages at time `now`.
    pub fn update_integration(&mut self, input: UpdateIntegrationInput, now: i64) -> (r: Result<
        IntegrationRecord,
        ApiGatewayV2ServiceError,
    >)
        requires
            old(self).wf(),
        ensures
            final(self).wf(),
            match r {
                Err(e) => {
                    &&& e matches ApiGatewayV2ServiceError::NotFound(m)
                    &&& if !old(self).has_api(input.api_id@) {
                        e->NotFound_0@ == not_found_text("Api"@, input.api_id@)
                    } else {
                        record_at(old(self).integrations@, input.api_id@, input.integration_id@) is None
                            && e->NotFound_0@ == not_found_text("Integration"@, input.integration_id@)
                    }
                    &&& *final(self) == *old(self)
                },
                Ok(it) => {
                    &&& old(self).has_api(input.api_id@)
                    &&& record_at(old(self).integrations@, input.api_id@, input.integration_id@) matches Some(o)
                    &&& it.api_id@ == input.api_id@
                    &&& updated_integration(it, o, input)
                    &&& final(self).integrations@ == kept(old(self).integrations@, it)
                    &&& auto_deployed(
                        old(self).stages@,
                        old(self).deployments@,
                        final(self).stages@,
                        final(self).deployments@,
                        input.api_id@,
                        now,
                    )
                    &&& same_except(*final(self), *old(self), false, true, true, true, false, false)
                },
            },
    {
        match self.require_api(input.api_id.as_str()) {
            Ok(_) => {},
            Err(e) => {
                return Err(e);
            },
        }
        let o = match require(
            &self.integrations,
            input.api_id.as_str(),
            input.integration_id.as_str(),
            "Integration",
        ) {
            Ok(o) => o,
            Err(e) => {
                return Err(e);
            },
        };
        proof {
            lemma_first_index_props(
                old(self).integrations@,
                has_key::<IntegrationRecord>(input.api_id@, input.integration_id@),
            );
        }
        let it = IntegrationRecord {
            api_id: o.api_id.clone(),
            integration_id: o.integration_id.clone(),
            integration_type: keep_text(&input.integration_type, &o.integration_type),
            integration_method: keep_opt(&input.integration_method, &o.integration_method),
            integration_uri: keep_opt(&input.integration_uri, &o.integration_uri),
            connection_type: keep_opt(&input.connection_type, &o.connection_type),
            connection_id: keep_opt(&input.connection_id, &o.connection_id),
            credentials_arn: keep_opt(&input.credentials_arn, &o.credentials_arn),
            description: keep_opt(&input.description, &o.description),
            payload_format_version: keep_text(
                &input.payload_format_version,
                &o.payload_format_version,
            ),
            timeout_in_millis: match input.timeout_in_millis {
                Some(v) => v,
                None => o.timeout_in_millis,
            },
            api_gateway_managed: o.api_gateway_managed,
        };
        self.integrations.put(it.duplicate());
        self.auto_deploy(input.api_id.as_str(), now);
        Ok(it)
    }

    /// Deletes an integration and clears the target of the API's routes that
    /// sent to it, then deploys the API's automatically deploying stages at
    /// time `now`.
    pub fn delete_integration(&mut self, api_id: &str, integration_id: &str, now: i64) -> (r: Result<
        (),
        ApiGatewayV2ServiceError,
    >)
        requires
            old(self).wf(),
        ensures
            final(self).wf(),
            match r {
                Err(e) => {
                    &&& e matches ApiGatewayV2ServiceError::NotFound(m)
                    &&& if !old(self).has_api(api_id@) {
                        e->NotFound_0@ == not_found_text("Api"@, api_id@)
                    } else {
                        record_at(old(self).integrations@, api_id@, integration_id@) is None
                            && e->NotFound_0@ == not_found_text("Integration"@, integration_id@)
                    }
                    &&& *final(self) == *old(self)
                },
                Ok(_) => {
                    &&& old(self).has_api(api_id@)
                    &&& record_at(old(self).integrations@, api_id@, integration_id@) is Some
                    &&& final(self).integrations@ == old(self).integrations@.filter(
                        kept_after::<IntegrationRecord>(api_id@, Some(integration_id@)),
                    )
                    &&& final(self).routes@ == old(self).routes@.map_values(
                        |o: RouteRecord| target_cleared(o, api_id@, "integrations/"@ + integration_id@),
                    )
                    &&& auto_deployed(
                        old(self).stages@,
                        old(self).deployments@,
                        final(self).stages@,
                        final(self).deployments@,
                        api_id@,
                        now,
                    )
                    &&& same_except(*final(self), *old(self), true, true, true, true, false, false)
                },
            },
    {
        match self.require_api(api_id) {
            Ok(_) => {},
            Err(e) => {
                return Err(e);
            },
        }
        match require(&self.integrations, api_id, integration_id, "Integration") {
            Ok(_) => {},
            Err(e) => {
                return Err(e);
            },
        }
        self.integrations.remove_where(api_id, Some(integration_id));
        let t = concat3("integrations/", integration_id, "");
        proof {
            reveal_strlit("");
            assert(t@ =~= "integrations/"@ + integration_id@);
        }
        clear_targets(&mut self.routes, api_id, t.as_str());
        self.auto_deploy(api_id, now);
        Ok(())
    }

    /// The integrations of an API, in the order they were created.
    pub fn get_integrations(&self, api_id: &str) -> (r: Result<
        Vec<IntegrationRecord>,
        ApiGatewayV2ServiceError,
    >)
        ensures
            match r {
                Ok(v) => self.has_api(api_id@) && v@ == self.integrations@.filter(
                    owned_by::<IntegrationRecord>(api_id@),
                ),
                Err(e) => {
                    &&& !self.has_api(api_id@)
                    &&& e matches ApiGatewayV2ServiceError::NotFound(m)
                    &&& e->NotFound_0@ == not_found_text("Api"@, api_id@)
                },
            },
    {
        match self.require_api(api_id) {
            Ok(_) => {},
            Err(e) => {
                return Err(e);
            },
        }
        Ok(self.integrations.list_owner(api_id))
    }

    /// Creates a stage of an API at time `now`; a stage of that name must not
    /// exist yet.
    pub fn create_stage(&mut self, input: CreateStageInput, now: i64) -> (r: Result<
        StageRecord,
        ApiGatewayV2ServiceError,
    >)
        requires
            old(self).wf(),
        ensures
            final(self).wf(),
            match r {
                Err(e) => {
                    &&& *final(self) == *old(self)
                    &&& if !old(self).has_api(input.api_id@) {
                        e matches ApiGatewayV2ServiceError::NotFound(m) && m@ == not_found_text(
                            "Api"@,
                            input.api_id@,
                        )
                    } else {
                        &&& record_at(old(self).stages@, input.api_id@, input.stage_name@) is Some
                        &&& e matches ApiGatewayV2ServiceError::Conflict(m)
                        &&& e->Conflict_0@ == "Stage '"@ + input.stage_name@ + "' already exists"@
                    }
                },
                Ok(st) => {
                    &&& old(self).has_api(input.api_id@)
                    &&& record_at(old(self).stages@, input.api_id@, input.stage_name@) is None
                    &&& created_stage(st, input, now)
                    &&& final(self).stages@ == kept(old(self).stages@, st)
                    &&& same_except(*final(self), *old(self), false, false, true, false, false, false)
                },
            },
    {
        match self.require_api(input.api_id.as_str()) {
            Ok(_) => {},
            Err(e) => {
                return Err(e);
            },
        }
        if self.stages.contains(input.api_id.as_str(), input.stage_name.as_str()) {
            return Err(
                ApiGatewayV2ServiceError::Conflict(
                    concat3("Stage '", input.stage_name.as_str(), "' already exists"),
                ),
            );
        }
        let st = StageRecord {
            api_id: input.api_id.clone(),
            stage_name: input.stage_name.clone(),
            deployment_id: copy_opt_string(&input.deployment_id),
            description: copy_opt_string(&input.description),
            auto_deploy: match input.auto_deploy {
                Some(v) => v,
                None => false,
            },
            client_certificate_id: copy_opt_string(&input.client_certificate_id),
            created_date: now,
            last_updated_date: now,
        };
        self.stages.put(st.duplicate());
        Ok(st)
    }

    /// The stage, or the not-found error for it.
    fn require_stage(&self, api_id: &str, stage_name: &str) -> (r: Result<
        StageRecord,
        ApiGatewayV2ServiceError,
    >)
        ensures
            match r {
                Ok(st) => record_at(self.stages@, api_id@, stage_name@) == Some(st),
                Err(e) => {
                    &&& record_at(self.stages@, api_id@, stage_name@) is None
                    &&& e matches ApiGatewayV2ServiceError::NotFound(m)
                    &&& e->NotFound_0@ == not_found_name_text("Stage"@, stage_name@)
                },
            },
    {
        match self.stages.get(api_id, stage_name) {
            Some(st) => Ok(st),
            None => Err(not_found_name("Stage", stage_name)),
        }
    }

    /// A stage of an API.
    pub fn get_stage(&self, api_id: &str, stage_name: &str) -> (r: Result<
        StageRecord,
        ApiGatewayV2ServiceError,
    >)
        ensures
            match r {
                Ok(st) => self.has_api(api_id@) && record_at(self.stages@, api_id@, stage_name@)
                    == Some(st),
                Err(e) => e matches ApiGatewayV2ServiceError::NotFound(m) && if !self.has_api(
                    api_id@,
                ) {
                    m@ == not_found_text("Api"@, api_id@)
                } else {
                    record_at(self.stages@, api_id@, stage_name@) is None && m@
                        == not_found_name_text("Stage"@, stage_name@)
                },
            },
    {
        match self.require_api(api_id) {
            Ok(_) => {},
            Err(e) => {
                return Err(e);
            },
        }
        self.require_stage(api_id, stage_name)
    }

    /// Updates a stage with the fields the input gives, at time `now`.
    pub fn update_stage(&mut self, input: UpdateStageInput, now: i64) -> (r: Result<
        StageRecord,
        ApiGatewayV2ServiceError,
    >)
        requires
            old(self).wf(),
        ensures
            final(self).wf(),
            match r {
                Err(e) => {
                    &&& e matches ApiGatewayV2ServiceError::NotFound(m)
                    &&& if !old(self).has_api(input.api_id@) {
                        e->NotFound_0@ == not_found_text("Api"@, input.api_id@)
                    } else {
                        record_at(old(self).stages@, input.api_id@, input.stage_name@) is None
                            && e->NotFound_0@ == not_found_name_text("Stage"@, input.stage_name@)
                    }
                    &&& *final(self) == *old(self)
                },
                Ok(st) => {
                    &&& old(self).has_api(input.api_id@)
                    &&& record_at(old(self).stages@, input.api_id@, input.stage_name@) matches Some(o)
                    &&& st.api_id@ == input.api_id@
                    &&& updated_stage(st, o, input, now)
                    &&& final(self).stages@ == kept(old(self).stages@, st)
                    &&& same_except(*final(self), *old(self), false, false, true, false, false, false)
                },
            },
    {
        match self.require_api(input.api_id.as_str()) {
            Ok(_) => {},
            Err(e) => {
                return Err(e);
            },
        }
        let o = match self.require_stage(input.api_id.as_str(), input.stage_name.as_str()) {
            Ok(o) => o,
            Err(e) => {
                return Err(e);
            },
        };
        proof {
            lemma_first_index_props(old(self).stages@, has_key::<StageRecord>(input.api_id@, input.stage_name@));
        }
        let st = StageRecord {
            api_id: o.api_id.clone(),
            stage_name: o.stage_name.clone(),
            deployment_id: keep_opt(&input.deployment_id, &o.deployment_id),
            description: keep_opt(&input.description, &o.description),
            auto_deploy: match input.auto_deploy {
                Some(v) => v,
                None => o.auto_deploy,
            },
            client_certificate_id: keep_opt(&input.client_certificate_id, &o.client_certificate_id),
            created_date: o.created_date,
            last_updated_date: now,
        };
        self.stages.put(st.duplicate());
        Ok(st)
    }

    /// Deletes a stage.
    pub fn delete_stage(&mut self, api_id: &str, stage_name: &str) -> (r: Result<
        (),
        ApiGatewayV2ServiceError,
    >)
        requires
            old(self).wf(),
        ensures
            final(self).wf(),
            match r {
                Err(e) => {
                    &&& e matches ApiGatewayV2ServiceError::NotFound(m)
                    &&& if !old(self).has_api(api_id@) {
                        e->NotFound_0@ == not_found_text("Api"@, api_id@)
                    } else {
                        record_at(old(self).stages@, api_id@, stage_name@) is None
                            && e->NotFound_0@ == not_found_name_text("Stage"@, stage_name@)
                    }
                    &&& *final(self) == *old(self)
                },
                Ok(_) => {
                    &&& old(self).has_api(api_id@)
                    &&& record_at(old(self).stages@, api_id@, stage_name@) is Some
                    &&& final(self).stages@ == old(self).stages@.filter(
                        kept_after::<StageRecord>(api_id@, Some(stage_name@)),
                    )
                    &&& same_except(*final(self), *old(self), false, false, true, false, false, false)
                },
            },
    {
        match self.require_api(api_id) {
            Ok(_) => {},
            Err(e) => {
                return Err(e);
            },
        }
        match self.require_stage(api_id, stage_name) {
            Ok(_) => {},
            Err(e) => {
                return Err(e);
            },
        }
        self.stages.remove_where(api_id, Some(stage_name));
        Ok(())
    }

    /// The stages of an API, in the order they were created.
    pub fn get_stages(&self, api_id: &str) -> (r: Result<Vec<StageRecord>, ApiGatewayV2ServiceError>)
        ensures
            match r {
                Ok(v) => self.has_api(api_id@) && v@ == self.stages@.filter(
                    owned_by::<StageRecord>(api_id@),
                ),
                Err(e) => {
                    &&& !self.has_api(api_id@)
                    &&& e matches ApiGatewayV2ServiceError::NotFound(m)
                    &&& e->NotFound_0@ == not_found_text("Api"@, api_id@)
                },
            },
    {
        match self.require_api(api_id) {
            Ok(_) => {},
            Err(e) => {
                return Err(e);
            },
        }
        Ok(self.stages.list_owner(api_id))
    }

    /// Creates a deployment `deployment_id` of an API at time `now`; a named
    /// stage of the API, if it exists, moves to it.
    pub fn create_deployment_with(
        &mut self,
        input: CreateDeploymentInput,
        deployment_id: String,
        now: i64,
    ) -> (r: Result<DeploymentRecord, ApiGatewayV2ServiceError>)
        requires
            old(self).wf(),
        ensures
            final(self).wf(),
            match r {
                Err(e) => {
                    &&& !old(self).has_api(input.api_id@)
                    &&& e matches ApiGatewayV2ServiceError::NotFound(m)
                    &&& e->NotFound_0@ == not_found_text("Api"@, input.api_id@)
                    &&& *final(self) == *old(self)
                },
                Ok(d) => {
                    &&& old(self).has_api(input.api_id@)
                    &&& d.api_id == input.api_id && d.deployment_id == deployment_id
                    &&& d.description == input.description && !d.auto_deployed
                    &&& d.created_date == now
                    &&& final(self).deployments@ == kept(old(self).deployments@, d)
                    &&& match input.stage_name {
                        Some(n) => match record_at(old(self).stages@, input.api_id@, n@) {
                            Some(o) => final(self).stages@ == kept(
                                old(self).stages@,
                                deployed_stage(o, deployment_id, now),
                            ),
                            None => final(self).stages@ == old(self).stages@,
                        },
                        None => final(self).stages@ == old(self).stages@,
                    }
                    &&& same_except(*final(self), *old(self), false, false, true, true, false, false)
                },
            },
    {
        match self.require_api(input.api_id.as_str()) {
            Ok(_) => {},
            Err(e) => {
                return Err(e);
            },
        }
        let d = DeploymentRecord {
            api_id: input.api_id.clone(),
            deployment_id: deployment_id.clone(),
            description: copy_opt_string(&input.description),
            auto_deployed: false,
            created_date: now,
        };
        self.deployments.put(d.duplicate());
        match &input.stage_name {
            None => {},
            Some(n) => {
                match self.stages.get(input.api_id.as_str(), n.as_str()) {
                    None => {},
                    Some(o) => {
                        let st = StageRecord {
                            api_id: o.api_id.clone(),
                            stage_name: o.stage_name.clone(),
                            deployment_id: Some(deployment_id.clone()),
                            description: copy_opt_string(&o.description),
                            auto_deploy: o.auto_deploy,
                            client_certificate_id: copy_opt_string(&o.client_certificate_id),
                            created_date: o.created_date,
                            last_updated_date: now,
                        };
                        assert(st == deployed_stage(o, deployment_id, now));
                        self.stages.put(st);
                    },
                }
            },
        }
        Ok(d)
    }

    /// A deployment of an API.
    pub fn get_deployment(&self, api_id: &str, deployment_id: &str) -> (r: Result<
        DeploymentRecord,
        ApiGatewayV2ServiceError,
    >)
        ensures
            match r {
                Ok(d) => self.has_api(api_id@) && record_at(self.deployments@, api_id@, deployment_id@)
                    == Some(d),
                Err(e) => e matches ApiGatewayV2ServiceError::NotFound(m) && if !self.has_api(
                    api_id@,
                ) {
                    m@ == not_found_text("Api"@, api_id@)
                } else {
                    record_at(self.deployments@, api_id@, deployment_id@) is None && m@
                        == not_found_text("Deployment"@, deployment_id@)
                },
            },
    {
        match self.require_api(api_id) {
            Ok(_) => {},
            Err(e) => {
                return Err(e);
            },
        }
        require(&self.deployments, api_id, deployment_id, "Deployment")
    }

    /// Deletes a deployment; the API's stages at it no longer have one.
    pub fn delete_deployment(&mut self, api_id: &str, deployment_id: &str) -> (r: Result<
        (),
        ApiGatewayV2ServiceError,
    >)
        requires
            old(self).wf(),
        ensures
            final(self).wf(),
            match r {
                Err(e) => {
                    &&& e matches ApiGatewayV2ServiceError::NotFound(m)
                    &&& if !old(self).has_api(api_id@) {
                        e->NotFound_0@ == not_found_text("Api"@, api_id@)
                    } else {
                        record_at(old(self).deployments@, api_id@, deployment_id@) is None
                            && e->NotFound_0@ == not_found_text("Deployment"@, deployment_id@)
                    }
                    &&& *final(self) == *old(self)
                },
                Ok(_) => {
                    &&& old(self).has_api(api_id@)
                    &&& record_at(old(self).deployments@, api_id@, deployment_id@) is Some
                    &&& final(self).deployments@ == old(self).deployments@.filter(
                        kept_after::<DeploymentRecord>(api_id@, Some(deployment_id@)),
                    )
                    &&& final(self).stages@ == old(self).stages@.map_values(
                        |o: StageRecord| deployment_cleared(o, api_id@, deployment_id@),
                    )
                    &&& same_except(*final(self), *old(self), false, false, true, true, false, false)
                },
            },
    {
        match self.require_api(api_id) {
            Ok(_) => {},
            Err(e) => {
                return Err(e);
            },
        }
        match require(&self.deployments, api_id, deployment_id, "Deployment") {
            Ok(_) => {},
            Err(e) => {
                return Err(e);
            },
        }
        self.deployments.remove_where(api_id, Some(deployment_id));
        clear_deployments(&mut self.stages, api_id, deployment_id);
        Ok(())
    }

    /// The deployments of an API, in the order they were created.
    pub fn get_deployments(&self, api_id: &str) -> (r: Result<
        Vec<DeploymentRecord>,
        ApiGatewayV2ServiceError,
    >)
        ensures
            match r {
                Ok(v) => self.has_api(api_id@) && v@ == self.deployments@.filter(
                    owned_by::<DeploymentRecord>(api_id@),
                ),
                Err(e) => {
                    &&& !self.has_api(api_id@)
                    &&& e matches ApiGatewayV2ServiceError::NotFound(m)
                    &&& e->NotFound_0@ == not_found_text("Api"@, api_id@)
                },
            },
    {
        match self.require_api(api_id) {
            Ok(_) => {},
            Err(e) => {
                return Err(e);
            },
        }
        Ok(self.deployments.list_owner(api_id))
    }

    /// Creates an authorizer `authorizer_id` of an API.
    pub fn create_authorizer_with(
        &mut self,
        input: CreateAuthorizerInput,
        authorizer_id: String,
    ) -> (r: Result<AuthorizerRecord, ApiGatewayV2ServiceError>)
        requires
            old(self).wf(),
        ensures
            final(self).wf(),
            match r {
                Err(e) => {
                    &&& !old(self).has_api(input.api_id@)
                    &&& e matches ApiGatewayV2ServiceError::NotFound(m)
                    &&& e->NotFound_0@ == not_found_text("Api"@, input.api_id@)
                    &&& *final(self) == *old(self)
                },
                Ok(a) => {
                    &&& old(self).has_api(input.api_id@)
                    &&& created_authorizer(a, input, authorizer_id)
                    &&& final(self).authorizers@ == kept(old(self).authorizers@, a)
                    &&& same_except(*final(self), *old(self), false, false, false, false, true, false)
                },
            },
    {
        match self.require_api(input.api_id.as_str()) {
            Ok(_) => {},
            Err(e) => {
                return Err(e);
            },
        }
        let a = AuthorizerRecord {
            api_id: input.api_id.clone(),
            authorizer_id: authorizer_id,
            name: input.name.clone(),
            authorizer_type: input.authorizer_type.clone(),
            authorizer_uri: copy_opt_string(&input.authorizer_uri),
            authorizer_payload_format_version: copy_opt_string(
                &input.authorizer_payload_format_version,
            ),
            enable_simple_responses: input.enable_simple_responses,
            authorizer_result_ttl_in_seconds: input.authorizer_result_ttl_in_seconds,
        };
        self.authorizers.put(a.duplicate());
        Ok(a)
    }

    /// An authorizer of an API.
    pub fn get_authorizer(&self, api_id: &str, authorizer_id: &str) -> (r: Result<
        AuthorizerRecord,
        ApiGatewayV2ServiceError,
    >)
        ensures
            match r {
                Ok(a) => self.has_api(api_id@) && record_at(self.authorizers@, api_id@, authorizer_id@)
                    == Some(a),
                Err(e) => e matches ApiGatewayV2ServiceError::NotFound(m) && if !self.has_api(
                    api_id@,
                ) {
                    m@ == not_found_text("Api"@, api_id@)
                } else {
                    record_at(self.authorizers@, api_id@, authorizer_id@) is None && m@
                        == not_found_text("Authorizer"@, authorizer_id@)
                },
            },
    {
        match self.require_api(api_id) {
            Ok(_) => {},
            Err(e) => {
                return Err(e);
            },
        }
        require(&self.authorizers, api_id, authorizer_id, "Authorizer")
    }

    /// Updates an authorizer with the fields the input gives.
    pub fn update_authorizer(&mut self, input: UpdateAuthorizerInput) -> (r: Result<
        AuthorizerRecord,
        ApiGatewayV2ServiceError,
    >)
        requires
            old(self).wf(),
        ensures
            final(self).wf(),
            match r {
                Err(e) => {
                    &&& e matches ApiGatewayV2ServiceError::NotFound(m)
                    &&& if !old(self).has_api(input.api_id@) {
                        e->NotFound_0@ == not_found_text("Api"@, input.api_id@)
                    } else {
                        record_at(old(self).authorizers@, input.api_id@, input.authorizer_id@) is None
                            && e->NotFound_0@ == not_found_text("Authorizer"@, input.authorizer_id@)
                    }
                    &&& *final(self) == *old(self)
                },
                Ok(a) => {
                    &&& old(self).has_api(input.api_id@)
                    &&& record_at(old(self).authorizers@, input.api_id@, input.authorizer_id@) matches Some(o)
                    &&& a.api_id@ == input.api_id@
                    &&& updated_authorizer(a, o, input)
                    &&& final(self).authorizers@ == kept(old(self).authorizers@, a)
                    &&& same_except(*final(self), *old(self), false, false, false, false, true, false)
                },
            },
    {
        match self.require_api(input.api_id.as_str()) {
            Ok(_) => {},
            Err(e) => {
                return Err(e);
            },
        }
        let o = match require(
            &self.authorizers,
            input.api_id.as_str(),
            input.authorizer_id.as_str(),
            "Authorizer",
        ) {
            Ok(o) => o,
            Err(e) => {
                return Err(e);
            },
        };
        proof {
            lemma_first_index_props(
                old(self).authorizers@,
                has_key::<AuthorizerRecord>(input.api_id@, input.authorizer_id@),
            );
        }
        let a = AuthorizerRecord {
            api_id: o.api_id.clone(),
            authorizer_id: o.authorizer_id.clone(),
            name: keep_text(&input.name, &o.name),
            authorizer_type: keep_text(&input.authorizer_type, &o.authorizer_type),
            authorizer_uri: keep_opt(&input.authorizer_uri, &o.authorizer_uri),
            authorizer_payload_format_version: keep_opt(
                &input.authorizer_payload_format_version,
                &o.authorizer_payload_format_version,
            ),
            enable_simple_responses: match input.enable_simple_responses {
                Some(v) => Some(v),
                None => o.enable_simple_responses,
            },
            authorizer_result_ttl_in_seconds: match input.authorizer_result_ttl_in_seconds {
                Some(v) => Some(v),
                None => o.authorizer_result_ttl_in_seconds,
            },
        };
        self.authorizers.put(a.duplicate());
        Ok(a)
    }

    /// Deletes an authorizer; the API's routes that used it no longer have one.
    pub fn delete_authorizer(&mut self, api_id: &str, authorizer_id: &str) -> (r: Result<
        (),
        ApiGatewayV2ServiceError,
    >)
        requires
            old(self).wf(),
        ensures
            final(self).wf(),
            match r {
                Err(e) => {
                    &&& e matches ApiGatewayV2ServiceError::NotFound(m)
                    &&& if !old(self).has_api(api_id@) {
                        e->NotFound_0@ == not_found_text("Api"@, api_id@)
                    } else {
                        record_at(old(self).authorizers@, api_id@, authorizer_id@) is None
                            && e->NotFound_0@ == not_found_text("Authorizer"@, authorizer_id@)
                    }
                    &&& *final(self) == *old(self)
                },
                Ok(_) => {
                    &&& old(self).has_api(api_id@)
                    &&& record_at(old(self).authorizers@, api_id@, authorizer_id@) is Some
                    &&& final(self).authorizers@ == old(self).authorizers@.filter(
                        kept_after::<AuthorizerRecord>(api_id@, Some(authorizer_id@)),
                    )
                    &&& final(self).routes@ == old(self).routes@.map_values(
                        |o: RouteRecord| authorizer_cleared(o, api_id@, authorizer_id@),
                    )
                    &&& same_except(*final(self), *old(self), true, false, false, false, true, false)
                },
            },
    {
        match self.require_api(api_id) {
            Ok(_) => {},
            Err(e) => {
                return Err(e);
            },
        }
        match require(&self.authorizers, api_id, authorizer_id, "Authorizer") {
            Ok(_) => {},
            Err(e) => {
                return Err(e);
            },
        }
        self.authorizers.remove_where(api_id, Some(authorizer_id));
        clear_authorizers(&mut self.routes, api_id, authorizer_id);
        Ok(())
    }

    /// The authorizers of an API, in the order they were created.
    pub fn get_authorizers(&self, api_id: &str) -> (r: Result<
        Vec<AuthorizerRecord>,
        ApiGatewayV2ServiceError,
    >)
        ensures
            match r {
                Ok(v) => self.has_api(api_id@) && v@ == self.authorizers@.filter(
                    owned_by::<AuthorizerRecord>(api_id@),
                ),
                Err(e) => {
                    &&& !self.has_api(api_id@)
                    &&& e matches ApiGatewayV2ServiceError::NotFound(m)
                    &&& e->NotFound_0@ == not_found_text("Api"@, api_id@)
                },
            },
    {
        match self.require_api(api_id) {
            Ok(_) => {},
            Err(e) => {
                return Err(e);
            },
        }
        Ok(self.authorizers.list_owner(api_id))
    }

    /// Creates a model `model_id` of an API.
    pub fn create_model_with(&mut self, input: CreateModelInput, model_id: String) -> (r: Result<
        ModelRecord,
        ApiGatewayV2ServiceError,
    >)
        requires
            old(self).wf(),
        ensures
            final(self).wf(),
            match r {
                Err(e) => {
                    &&& !old(self).has_api(input.api_id@)
                    &&& e matches ApiGatewayV2ServiceError::NotFound(m)
                    &&& e->NotFound_0@ == not_found_text("Api"@, input.api_id@)
                    &&& *final(self) == *old(self)
                },
                Ok(m) => {
                    &&& old(self).has_api(input.api_id@)
                    &&& m.api_id == input.api_id && m.model_id == model_id && m.name == input.name
                    &&& m.content_type == input.content_type && m.schema == input.schema
                    &&& m.description == input.description
                    &&& final(self).models@ == kept(old(self).models@, m)
                    &&& same_but_models(*final(self), *old(self))
                },
            },
    {
        match self.require_api(input.api_id.as_str()) {
            Ok(_) => {},
            Err(e) => {
                return Err(e);
            },
        }
        let m = ModelRecord {
            api_id: input.api_id.clone(),
            model_id: model_id,
            name: input.name.clone(),
            content_type: copy_opt_string(&input.content_type),
            schema: input.schema.clone(),
            description: copy_opt_string(&input.description),
        };
        self.models.put(m.duplicate());
        Ok(m)
    }

    /// A model of an API.
    pub fn get_model(&self, api_id: &str, model_id: &str) -> (r: Result<
        ModelRecord,
        ApiGatewayV2ServiceError,
    >)
        ensures
            match r {
                Ok(m) => self.has_api(api_id@) && record_at(self.models@, api_id@, model_id@) == Some(
                    m,
                ),
                Err(e) => e matches ApiGatewayV2ServiceError::NotFound(m) && if !self.has_api(
                    api_id@,
                ) {
                    m@ == not_found_text("Api"@, api_id@)
                } else {
                    record_at(self.models@, api_id@, model_id@) is None && m@ == not_found_text(
                        "Model"@,
                        model_id@,
                    )
                },
            },
    {
        match self.require_api(api_id) {
            Ok(_) => {},
            Err(e) => {
                return Err(e);
            },
        }
        require(&self.models, api_id, model_id, "Model")
    }

    /// The template of a model: its schema.
    pub fn get_model_template(&self, api_id: &str, model_id: &str) -> (r: Result<
        String,
        ApiGatewayV2ServiceError,
    >)
        ensures
            match r {
                Ok(t) => {
                    &&& self.has_api(api_id@)
                    &&& record_at(self.models@, api_id@, model_id@) matches Some(m)
                    &&& t == record_at(self.models@, api_id@, model_id@)->0.schema
                },
                Err(e) => e matches ApiGatewayV2ServiceError::NotFound(m) && if !self.has_api(
                    api_id@,
                ) {
                    m@ == not_found_text("Api"@, api_id@)
                } else {
                    record_at(self.models@, api_id@, model_id@) is None && m@ == not_found_text(
                        "Model"@,
                        model_id@,
                    )
                },
            },
    {
        match self.get_model(api_id, model_id) {
            Ok(m) => Ok(m.schema),
            Err(e) => Err(e),
        }
    }

    /// Updates a model with the fields the input gives.
    pub fn update_model(&mut self, input: UpdateModelInput) -> (r: Result<
        ModelRecord,
        ApiGatewayV2ServiceError,
    >)
        requires
            old(self).wf(),
        ensures
            final(self).wf(),
            match r {
                Err(e) => {
                    &&& e matches ApiGatewayV2ServiceError::NotFound(m)
                    &&& if !old(self).has_api(input.api_id@) {
                        e->NotFound_0@ == not_found_text("Api"@, input.api_id@)
                    } else {
                        record_at(old(self).models@, input.api_id@, input.model_id@) is None
                            && e->NotFound_0@ == not_found_text("Model"@, input.model_id@)
                    }
                    &&& *final(self) == *old(self)
                },
                Ok(m) => {
                    &&& old(self).has_api(input.api_id@)
                    &&& record_at(old(self).models@, input.api_id@, input.model_id@) matches Some(o)
                    &&& m.api_id@ == input.api_id@
                    &&& m.api_id == o.api_id && m.model_id == o.model_id
                    &&& m.name == or_keep(input.name, o.name)
                    &&& m.content_type == or_keep_opt(input.content_type, o.content_type)
                    &&& m.schema == or_keep(input.schema, o.schema)
                    &&& m.description == or_keep_opt(input.description, o.description)
                    &&& final(self).models@ == kept(old(self).models@, m)
                    &&& same_but_models(*final(self), *old(self))
                },
            },
    {
        match self.require_api(input.api_id.as_str()) {
            Ok(_) => {},
            Err(e) => {
                return Err(e);
            },
        }
        let o = match require(&self.models, input.api_id.as_str(), input.model_id.as_str(), "Model") {
            Ok(o) => o,
            Err(e) => {
                return Err(e);
            },
        };
        proof {
            lemma_first_index_props(
                old(self).models@,
                has_key::<ModelRecord>(input.api_id@, input.model_id@),
            );
        }
        let m = ModelRecord {
            api_id: o.api_id.clone(),
            model_id: o.model_id.clone(),
            name: keep_text(&input.name, &o.name),
            content_type: keep_opt(&input.content_type, &o.content_type),
            schema: keep_text(&input.schema, &o.schema),
            description: keep_opt(&input.description, &o.description),
        };
        self.models.put(m.duplicate());
        Ok(m)
    }

    /// Deletes a model.
    pub fn delete_model(&mut self, api_id: &str, model_id: &str) -> (r: Result<
        (),
        ApiGatewayV2ServiceError,
    >)
        requires
            old(self).wf(),
        ensures
            final(self).wf(),
            match r {
                Err(e) => {
                    &&& e matches ApiGatewayV2ServiceError::NotFound(m)
                    &&& if !old(self).has_api(api_id@) {
                        e->NotFound_0@ == not_found_text("Api"@, api_id@)
                    } else {
                        record_at(old(self).models@, api_id@, model_id@) is None
                            && e->NotFound_0@ == not_found_text("Model"@, model_id@)
                    }
                    &&& *final(self) == *old(self)
                },
                Ok(_) => {
                    &&& old(self).has_api(api_id@)
                    &&& record_at(old(self).models@, api_id@, model_id@) is Some
                    &&& final(self).models@ == old(self).models@.filter(
                        kept_after::<ModelRecord>(api_id@, Some(model_id@)),
                    )
                    &&& same_but_models(*final(self), *old(self))
                },
            },
    {
        match self.require_api(api_id) {
            Ok(_) => {},
            Err(e) => {
                return Err(e);
            },
        }
        match require(&self.models, api_id, model_id, "Model") {
            Ok(_) => {},
            Err(e) => {
                return Err(e);
            },
        }
        self.models.remove_where(api_id, Some(model_id));
        Ok(())
    }

    /// The models of an API, in the order they were created.
    pub fn get_models(&self, api_id: &str) -> (r: Result<Vec<ModelRecord>, ApiGatewayV2ServiceError>)
        ensures
            match r {
                Ok(v) => self.has_api(api_id@) && v@ == self.models@.filter(
                    owned_by::<ModelRecord>(api_id@),
                ),
                Err(e) => {
                    &&& !self.has_api(api_id@)
                    &&& e matches ApiGatewayV2ServiceError::NotFound(m)
                    &&& e->NotFound_0@ == not_found_text("Api"@, api_id@)
                },
            },
    {
        match self.require_api(api_id) {
            Ok(_) => {},
            Err(e) => {
                return Err(e);
            },
        }
        Ok(self.models.list_owner(api_id))
    }

    /// The domain name, or the not-found error for it.
    fn require_domain(&self, name: &str) -> (r: Result<DomainNameRecord, ApiGatewayV2ServiceError>)
        ensures
            match r {
                Ok(d) => record_at(self.domain_names@, Seq::<char>::empty(), name@) == Some(d),
                Err(e) => {
                    &&& record_at(self.domain_names@, Seq::<char>::empty(), name@) is None
                    &&& e matches ApiGatewayV2ServiceError::NotFound(m)
                    &&& e->NotFound_0@ == domain_not_found_text(name@)
                },
            },
    {
        proof {
            reveal_strlit("");
            assert(""@ =~= Seq::<char>::empty());
        }
        match self.domain_names.get("", name) {
            Some(d) => Ok(d),
            None => {
                let mut m = str_chars("Unable to find DomainName '");
                push_str_chars(&mut m, name);
                push_str_chars(&mut m, "'");
                Err(ApiGatewayV2ServiceError::NotFound(string_from_chars(&m)))
            },
        }
    }

    /// Whether the domain name exists.
    pub open spec fn has_domain(&self, name: Seq<char>) -> bool {
        record_at(self.domain_names@, Seq::<char>::empty(), name) is Some
    }

    /// Creates a domain name; one of that name must not exist yet.
    pub fn create_domain_name(&mut self, input: CreateDomainNameInput) -> (r: Result<
        DomainNameRecord,
        ApiGatewayV2ServiceError,
    >)
        requires
            old(self).wf(),
        ensures
            final(self).wf(),
            match r {
                Err(e) => {
                    &&& old(self).has_domain(input.domain_name@)
                    &&& e matches ApiGatewayV2ServiceError::Conflict(m)
                    &&& e->Conflict_0@ == "Domain name '"@ + input.domain_name@ + "' already exists"@
                    &&& *final(self) == *old(self)
                },
                Ok(d) => {
                    &&& !old(self).has_domain(input.domain_name@)
                    &&& d.domain_name == input.domain_name && d.routing_mode == input.routing_mode
                    &&& d.mutual_tls == input.mutual_tls
                    &&& final(self).domain_names@ == kept(old(self).domain_names@, d)
                    &&& final(self).api_mappings@ == old(self).api_mappings@
                    &&& input.tags@.len() == 0 ==> final(self).tags@ == old(self).tags@
                    &&& input.tags@.len() > 0 ==> exists|arn: String|
                        arn@ == domain_arn_text(old(self).region@, input.domain_name@) && #[trigger] with_tags(
                            old(self).tags@.filter(kept_after::<TagRecord>(arn@, None)),
                            arn,
                            input.tags@,
                        ) == final(self).tags@
                    &&& same_apis(*final(self), *old(self))
                },
            },
    {
        proof {
            reveal_strlit("");
            assert(""@ =~= Seq::<char>::empty());
        }
        if self.domain_names.contains("", input.domain_name.as_str()) {
            return Err(
                ApiGatewayV2ServiceError::Conflict(
                    concat3("Domain name '", input.domain_name.as_str(), "' already exists"),
                ),
            );
        }
        let d = DomainNameRecord {
            domain_name: input.domain_name.clone(),
            routing_mode: copy_opt_string(&input.routing_mode),
            mutual_tls: copy_mutual_tls(&input.mutual_tls),
        };
        if input.tags.len() > 0 {
            let arn = domain_arn(self.region.as_str(), input.domain_name.as_str());
            self.tags.remove_where(arn.as_str(), None);
            put_tags(&mut self.tags, &arn, &input.tags);
        }
        self.domain_names.put(d.duplicate());
        Ok(d)
    }

    /// A domain name.
    pub fn get_domain_name(&self, name: &str) -> (r: Result<DomainNameRecord, ApiGatewayV2ServiceError>)
        ensures
            match r {
                Ok(d) => record_at(self.domain_names@, Seq::<char>::empty(), name@) == Some(d),
                Err(e) => {
                    &&& !self.has_domain(name@)
                    &&& e matches ApiGatewayV2ServiceError::NotFound(m)
                    &&& e->NotFound_0@ == domain_not_found_text(name@)
                },
            },
    {
        self.require_domain(name)
    }

    /// Updates a domain name with the fields the input gives.
    pub fn update_domain_name(&mut self, input: UpdateDomainNameInput) -> (r: Result<
        DomainNameRecord,
        ApiGatewayV2ServiceError,
    >)
        requires
            old(self).wf(),
        ensures
            final(self).wf(),
            match r {
                Err(e) => {
                    &&& !old(self).has_domain(input.domain_name@)
                    &&& e matches ApiGatewayV2ServiceError::NotFound(m)
                    &&& e->NotFound_0@ == domain_not_found_text(input.domain_name@)
                    &&& *final(self) == *old(self)
                },
                Ok(d) => {
                    &&& record_at(old(self).domain_names@, Seq::<char>::empty(), input.domain_name@) matches Some(o)
                    &&& d.domain_name == o.domain_name
                    &&& d.routing_mode == or_keep_opt(input.routing_mode, o.routing_mode)
                    &&& d.mutual_tls == or_keep_opt(input.mutual_tls, o.mutual_tls)
                    &&& final(self).domain_names@ == kept(old(self).domain_names@, d)
                    &&& final(self).api_mappings@ == old(self).api_mappings@
                    &&& final(self).tags@ == old(self).tags@
                    &&& same_apis(*final(self), *old(self))
                },
            },
    {
        let o = match self.require_domain(input.domain_name.as_str()) {
            Ok(o) => o,
            Err(e) => {
                return Err(e);
            },
        };
        let d = DomainNameRecord {
            domain_name: o.domain_name.clone(),
            routing_mode: keep_opt(&input.routing_mode, &o.routing_mode),
            mutual_tls: match &input.mutual_tls {
                Some(m) => copy_mutual_tls(&Some(
                    MutualTls {
                        truststore_uri: m.truststore_uri.clone(),
                        truststore_version: copy_opt_string(&m.truststore_version),
                    },
                )),
                None => copy_mutual_tls(&o.mutual_tls),
            },
        };
        self.domain_names.put(d.duplicate());
        Ok(d)
    }

    /// Deletes a domain name, its API mappings and the tags of its ARN.
    pub fn delete_domain_name(&mut self, name: &str) -> (r: Result<(), ApiGatewayV2ServiceError>)
        requires
            old(self).wf(),
        ensures
            final(self).wf(),
            match r {
                Err(e) => {
                    &&& !old(self).has_domain(name@)
                    &&& e matches ApiGatewayV2ServiceError::NotFound(m)
                    &&& e->NotFound_0@ == domain_not_found_text(name@)
                    &&& *final(self) == *old(self)
                },
                Ok(_) => {
                    &&& old(self).has_domain(name@)
                    &&& final(self).domain_names@ == old(self).domain_names@.filter(
                        kept_after::<DomainNameRecord>(Seq::<char>::empty(), Some(name@)),
                    )
                    &&& final(self).api_mappings@ == old(self).api_mappings@.filter(
                        kept_after::<ApiMappingRecord>(name@, None),
                    )
                    &&& final(self).tags@ == old(self).tags@.filter(
                        kept_after::<TagRecord>(domain_arn_text(old(self).region@, name@), None),
                    )
                    &&& same_apis(*final(self), *old(self))
                },
            },
    {
        match self.require_domain(name) {
            Ok(_) => {},
            Err(e) => {
                return Err(e);
            },
        }
        proof {
            reveal_strlit("");
            assert(""@ =~= Seq::<char>::empty());
        }
        self.domain_names.remove_where("", Some(name));
        self.api_mappings.remove_where(name, None);
        let arn = domain_arn(self.region.as_str(), name);
        self.tags.remove_where(arn.as_str(), None);
        Ok(())
    }

    /// Every domain name, in the order they were created.
    pub fn get_domain_names(&self) -> (r: Vec<DomainNameRecord>)
        ensures
            r@ == self.domain_names@.filter(owned_by::<DomainNameRecord>(Seq::<char>::empty())),
    {
        proof {
            reveal_strlit("");
            assert(""@ =~= Seq::<char>::empty());
        }
        self.domain_names.list_owner("")
    }

    /// Creates an API mapping `api_mapping_id` under a domain name.
    pub fn create_api_mapping_with(
        &mut self,
        input: CreateApiMappingInput,
        api_mapping_id: String,
    ) -> (r: Result<ApiMappingRecord, ApiGatewayV2ServiceError>)
        requires
            old(self).wf(),
        ensures
            final(self).wf(),
            match r {
                Err(e) => {
                    &&& !old(self).has_domain(input.domain_name@)
                    &&& e matches ApiGatewayV2ServiceError::NotFound(m)
                    &&& e->NotFound_0@ == domain_not_found_text(input.domain_name@)
                    &&& *final(self) == *old(self)
                },
                Ok(m) => {
                    &&& old(self).has_domain(input.domain_name@)
                    &&& m.domain_name == input.domain_name && m.api_mapping_id == api_mapping_id
                    &&& m.api_id == input.api_id && m.api_mapping_key == input.api_mapping_key
                    &&& m.stage == input.stage
                    &&& final(self).api_mappings@ == kept(old(self).api_mappings@, m)
                    &&& final(self).domain_names@ == old(self).domain_names@
                    &&& final(self).tags@ == old(self).tags@
                    &&& same_apis(*final(self), *old(self))
                },
            },
    {
        match self.require_domain(input.domain_name.as_str()) {
            Ok(_) => {},
            Err(e) => {
                return Err(e);
            },
        }
        let m = ApiMappingRecord {
            domain_name: input.domain_name.clone(),
            api_mapping_id: api_mapping_id,
            api_id: input.api_id.clone(),
            api_mapping_key: copy_opt_string(&input.api_mapping_key),
            stage: input.stage.clone(),
        };
        self.api_mappings.put(m.duplicate());
        Ok(m)
    }

    /// An API mapping under a domain name.
    pub fn get_api_mapping(&self, name: &str, api_mapping_id: &str) -> (r: Result<
        ApiMappingRecord,
        ApiGatewayV2ServiceError,
    >)
        ensures
            match r {
                Ok(m) => self.has_domain(name@) && record_at(self.api_mappings@, name@, api_mapping_id@)
                    == Some(m),
                Err(e) => e matches ApiGatewayV2ServiceError::NotFound(t) && if !self.has_domain(
                    name@,
                ) {
                    t@ == domain_not_found_text(name@)
                } else {
                    record_at(self.api_mappings@, name@, api_mapping_id@) is None && t@
                        == not_found_text("ApiMapping"@, api_mapping_id@)
                },
            },
    {
        match self.require_domain(name) {
            Ok(_) => {},
            Err(e) => {
                return Err(e);
            },
        }
        require(&self.api_mappings, name, api_mapping_id, "ApiMapping")
    }

    /// Updates an API mapping: it maps the given API, and the key and stage
    /// the input gives.
    pub fn update_api_mapping(&mut self, input: UpdateApiMappingInput) -> (r: Result<
        ApiMappingRecord,
        ApiGatewayV2ServiceError,
    >)
        requires
            old(self).wf(),
        ensures
            final(self).wf(),
            match r {
                Err(e) => {
                    &&& e matches ApiGatewayV2ServiceError::NotFound(t)
                    &&& if !old(self).has_domain(input.domain_name@) {
                        e->NotFound_0@ == domain_not_found_text(input.domain_name@)
                    } else {
                        record_at(old(self).api_mappings@, input.domain_name@, input.api_mapping_id@) is None
                            && e->NotFound_0@ == not_found_text("ApiMapping"@, input.api_mapping_id@)
                    }
                    &&& *final(self) == *old(self)
                },
                Ok(m) => {
                    &&& old(self).has_domain(input.domain_name@)
                    &&& record_at(old(self).api_mappings@, input.domain_name@, input.api_mapping_id@) matches Some(o)
                    &&& m.domain_name@ == input.domain_name@
                    &&& m.domain_name == o.domain_name && m.api_mapping_id == o.api_mapping_id
                    &&& m.api_id == input.api_id
                    &&& m.api_mapping_key == or_keep_opt(input.api_mapping_key, o.api_mapping_key)
                    &&& m.stage == or_keep(input.stage, o.stage)
                    &&& final(self).api_mappings@ == kept(old(self).api_mappings@, m)
                    &&& final(self).domain_names@ == old(self).domain_names@
                    &&& final(self).tags@ == old(self).tags@
                    &&& same_apis(*final(self), *old(self))
                },
            },
    {
        match self.require_domain(input.domain_name.as_str()) {
            Ok(_) => {},
            Err(e) => {
                return Err(e);
            },
        }
        let o = match require(
            &self.api_mappings,
            input.domain_name.as_str(),
            input.api_mapping_id.as_str(),
            "ApiMapping",
        ) {
            Ok(o) => o,
            Err(e) => {
                return Err(e);
            },
        };
        proof {
            lemma_first_index_props(
                old(self).api_mappings@,
                has_key::<ApiMappingRecord>(input.domain_name@, input.api_mapping_id@),
            );
        }
        let m = ApiMappingRecord {
            domain_name: o.domain_name.clone(),
            api_mapping_id: o.api_mapping_id.clone(),
            api_id: input.api_id.clone(),
            api_mapping_key: keep_opt(&input.api_mapping_key, &o.api_mapping_key),
            stage: keep_text(&input.stage, &o.stage),
        };
        self.api_mappings.put(m.duplicate());
        Ok(m)
    }

    /// Deletes an API mapping.
    pub fn delete_api_mapping(&mut self, name: &str, api_mapping_id: &str) -> (r: Result<
        (),
        ApiGatewayV2ServiceError,
    >)
        requires
            old(self).wf(),
        ensures
            final(self).wf(),
            match r {
                Err(e) => {
                    &&& e matches ApiGatewayV2ServiceError::NotFound(t)
                    &&& if !old(self).has_domain(name@) {
                        e->NotFound_0@ == domain_not_found_text(name@)
                    } else {
                        record_at(old(self).api_mappings@, name@, api_mapping_id@) is None
                            && e->NotFound_0@ == not_found_text("ApiMapping"@, api_mapping_id@)
                    }
                    &&& *final(self) == *old(self)
                },
                Ok(_) => {
                    &&& old(self).has_domain(name@)
                    &&& record_at(old(self).api_mappings@, name@, api_mapping_id@) is Some
                    &&& final(self).api_mappings@ == old(self).api_mappings@.filter(
                        kept_after::<ApiMappingRecord>(name@, Some(api_mapping_id@)),
                    )
                    &&& final(self).domain_names@ == old(self).domain_names@
                    &&& final(self).tags@ == old(self).tags@
                    &&& same_apis(*final(self), *old(self))
                },
            },
    {
        match self.require_domain(name) {
            Ok(_) => {},
            Err(e) => {
                return Err(e);
            },
        }
        match require(&self.api_mappings, name, api_mapping_id, "ApiMapping") {
            Ok(_) => {},
            Err(e) => {
                return Err(e);
            },
        }
        self.api_mappings.remove_where(name, Some(api_mapping_id));
        Ok(())
    }

    /// The API mappings under a domain name, in the order they were created.
    pub fn get_api_mappings(&self, name: &str) -> (r: Result<
        Vec<ApiMappingRecord>,
        ApiGatewayV2ServiceError,
    >)
        ensures
            match r {
                Ok(v) => self.has_domain(name@) && v@ == self.api_mappings@.filter(
                    owned_by::<ApiMappingRecord>(name@),
                ),
                Err(e) => {
                    &&& !self.has_domain(name@)
                    &&& e matches ApiGatewayV2ServiceError::NotFound(t)
                    &&& e->NotFound_0@ == domain_not_found_text(name@)
                },
            },
    {
        match self.require_domain(name) {
            Ok(_) => {},
            Err(e) => {
                return Err(e);
            },
        }
        Ok(self.api_mappings.list_owner(name))
    }

    /// Creates a VPC link `vpc_link_id` at time `now`.
    pub fn create_vpc_link_with(
        &mut self,
        input: CreateVpcLinkInput,
        vpc_link_id: String,
        now: i64,
    ) -> (r: VpcLinkRecord)
        requires
            old(self).wf(),
        ensures
            final(self).wf(),
            vpc_view(r) == (vpc_link_id, input.name, input.security_group_ids@, input.subnet_ids@, now),
            final(self).vpc_links@ == vpc_kept(old(self).vpc_links@, vpc_view(r)),
            input.tags@.len() == 0 ==> final(self).tags@ == old(self).tags@,
            input.tags@.len() > 0 ==> exists|arn: String|
                arn@ == vpc_link_arn_text(old(self).region@, vpc_link_id@) && #[trigger] with_tags(
                    old(self).tags@.filter(kept_after::<TagRecord>(arn@, None)),
                    arn,
                    input.tags@,
                ) == final(self).tags@,
            same_but_vpc_links(*final(self), *old(self)),
    {
        let v = VpcLinkRecord {
            vpc_link_id: vpc_link_id.clone(),
            name: input.name.clone(),
            security_group_ids: copy_strings(&input.security_group_ids),
            subnet_ids: copy_strings(&input.subnet_ids),
            created_date: now,
        };
        if input.tags.len() > 0 {
            let arn = vpc_link_arn(self.region.as_str(), vpc_link_id.as_str());
            self.tags.remove_where(arn.as_str(), None);
            put_tags(&mut self.tags, &arn, &input.tags);
        }
        let c = crate::apigw_records::copy_vpc_link(&v);
        self.vpc_links.put(c);
        v
    }

    /// A VPC link.
    pub fn get_vpc_link(&self, vpc_link_id: &str) -> (r: Result<
        VpcLinkRecord,
        ApiGatewayV2ServiceError,
    >)
        ensures
            match r {
                Ok(v) => vpc_index(self.vpc_links@, vpc_link_id@) < self.vpc_links@.len()
                    && vpc_view(v) == self.vpc_links@[vpc_index(self.vpc_links@, vpc_link_id@)],
                Err(e) => {
                    &&& vpc_index(self.vpc_links@, vpc_link_id@) == self.vpc_links@.len()
                    &&& e matches ApiGatewayV2ServiceError::NotFound(m)
                    &&& e->NotFound_0@ == not_found_text("VpcLink"@, vpc_link_id@)
                },
            },
    {
        match self.vpc_links.get(vpc_link_id) {
            Some(v) => Ok(v),
            None => Err(not_found("VpcLink", vpc_link_id)),
        }
    }

    /// Renames a VPC link when a name is given.
    pub fn update_vpc_link(&mut self, vpc_link_id: &str, name: Option<String>) -> (r: Result<
        VpcLinkRecord,
        ApiGatewayV2ServiceError,
    >)
        requires
            old(self).wf(),
        ensures
            final(self).wf(),
            match r {
                Err(e) => {
                    &&& vpc_index(old(self).vpc_links@, vpc_link_id@) == old(self).vpc_links@.len()
                    &&& e matches ApiGatewayV2ServiceError::NotFound(m)
                    &&& e->NotFound_0@ == not_found_text("VpcLink"@, vpc_link_id@)
                    &&& *final(self) == *old(self)
                },
                Ok(v) => {
                    let o = old(self).vpc_links@[vpc_index(old(self).vpc_links@, vpc_link_id@)];
                    &&& vpc_index(old(self).vpc_links@, vpc_link_id@) < old(self).vpc_links@.len()
                    &&& vpc_view(v) == (o.0, or_keep(name, o.1), o.2, o.3, o.4)
                    &&& final(self).vpc_links@ == vpc_kept(old(self).vpc_links@, vpc_view(v))
                    &&& final(self).tags@ == old(self).tags@
                    &&& same_but_vpc_links(*final(self), *old(self))
                },
            },
    {
        let mut v = match self.get_vpc_link(vpc_link_id) {
            Ok(v) => v,
            Err(e) => {
                return Err(e);
            },
        };
        match name {
            Some(n) => {
                v.name = n;
            },
            None => {},
        }
        let c = crate::apigw_records::copy_vpc_link(&v);
        self.vpc_links.put(c);
        Ok(v)
    }

    /// Deletes a VPC link and the tags of its ARN.
    pub fn delete_vpc_link(&mut self, vpc_link_id: &str) -> (r: Result<(), ApiGatewayV2ServiceError>)
        requires
            old(self).wf(),
        ensures
            final(self).wf(),
            match r {
                Err(e) => {
                    &&& vpc_index(old(self).vpc_links@, vpc_link_id@) == old(self).vpc_links@.len()
                    &&& e matches ApiGatewayV2ServiceError::NotFound(m)
                    &&& e->NotFound_0@ == not_found_text("VpcLink"@, vpc_link_id@)
                    &&& *final(self) == *old(self)
                },
                Ok(_) => {
                    &&& vpc_index(old(self).vpc_links@, vpc_link_id@) < old(self).vpc_links@.len()
                    &&& final(self).vpc_links@ == old(self).vpc_links@.remove(
                        vpc_index(old(self).vpc_links@, vpc_link_id@),
                    )
                    &&& final(self).tags@ == old(self).tags@.filter(
                        kept_after::<TagRecord>(vpc_link_arn_text(old(self).region@, vpc_link_id@), None),
                    )
                    &&& same_but_vpc_links(*final(self), *old(self))
                },
            },
    {
        match self.get_vpc_link(vpc_link_id) {
            Ok(_) => {},
            Err(e) => {
                return Err(e);
            },
        }
        self.vpc_links.remove(vpc_link_id);
        let arn = vpc_link_arn(self.region.as_str(), vpc_link_id);
        self.tags.remove_where(arn.as_str(), None);
        Ok(())
    }

    /// Every VPC link, in the order they were created.
    pub fn get_vpc_links(&self) -> (r: Vec<VpcLinkRecord>)
        ensures
            r@.map_values(|v: VpcLinkRecord| vpc_view(v)) == self.vpc_links@,
    {
        self.vpc_links.list()
    }

    /// Creates a response `route_response_id` of a route of an API.
    pub fn create_route_response_with(
        &mut self,
        api_id: &str,
        route_id: &str,
        route_response_key: String,
        model_selection_expression: Option<String>,
        route_response_id: String,
    ) -> (r: Result<RouteResponseRecord, ApiGatewayV2ServiceError>)
        requires
            old(self).wf(),
        ensures
            final(self).wf(),
            match r {
                Err(e) => {
                    &&& e matches ApiGatewayV2ServiceError::NotFound(m)
                    &&& if !old(self).has_api(api_id@) {
                        e->NotFound_0@ == not_found_text("Api"@, api_id@)
                    } else {
                        record_at(old(self).routes@, api_id@, route_id@) is None
                            && e->NotFound_0@ == not_found_text("Route"@, route_id@)
                    }
                    &&& *final(self) == *old(self)
                },
                Ok(x) => {
                    &&& old(self).has_api(api_id@)
                    &&& record_at(old(self).routes@, api_id@, route_id@) is Some
                    &&& x.api_id@ == api_id@ && x.route_id@ == route_id@
                    &&& x.route_response_id == route_response_id
                    &&& x.route_response_key == route_response_key
                    &&& x.model_selection_expression == model_selection_expression
                    &&& final(self).route_responses@ == kept(old(self).route_responses@, x)
                    &&& same_but_route_responses(*final(self), *old(self))
                },
            },
    {
        match self.require_api(api_id) {
            Ok(_) => {},
            Err(e) => {
                return Err(e);
            },
        }
        match require(&self.routes, api_id, route_id, "Route") {
            Ok(_) => {},
            Err(e) => {
                return Err(e);
            },
        }
        let x = RouteResponseRecord {
            api_id: own(api_id),
            route_id: own(route_id),
            route_response_id,
            route_response_key,
            model_selection_expression,
        };
        self.route_responses.put(x.duplicate());
        Ok(x)
    }

    /// The route response, or the not-found error for the API, the route or it.
    fn require_route_response(&self, api_id: &str, route_id: &str, rr_id: &str) -> (r: Result<
        RouteResponseRecord,
        ApiGatewayV2ServiceError,
    >)
        ensures
            match r {
                Ok(x) => {
                    &&& self.has_api(api_id@)
                    &&& record_at(self.routes@, api_id@, route_id@) is Some
                    &&& route_response_at(self.route_responses@, api_id@, route_id@, rr_id@) == Some(x)
                },
                Err(e) => {
                    &&& e matches ApiGatewayV2ServiceError::NotFound(m)
                    &&& route_response_error(*self, api_id@, route_id@, rr_id@, e->NotFound_0@)
                },
            },
    {
        match self.require_api(api_id) {
            Ok(_) => {},
            Err(e) => {
                return Err(e);
            },
        }
        match require(&self.routes, api_id, route_id, "Route") {
            Ok(_) => {},
            Err(e) => {
                return Err(e);
            },
        }
        match self.route_responses.get(api_id, rr_id) {
            Some(x) => {
                if str_eq(x.route_id.as_str(), route_id) {
                    Ok(x)
                } else {
                    Err(not_found("RouteResponse", rr_id))
                }
            },
            None => Err(not_found("RouteResponse", rr_id)),
        }
    }

    /// A response of a route.
    pub fn get_route_response(&self, api_id: &str, route_id: &str, rr_id: &str) -> (r: Result<
        RouteResponseRecord,
        ApiGatewayV2ServiceError,
    >)
        ensures
            match r {
                Ok(x) => route_response_at(self.route_responses@, api_id@, route_id@, rr_id@) == Some(
                    x,
                ) && self.has_api(api_id@) && record_at(self.routes@, api_id@, route_id@) is Some,
                Err(e) => {
                    &&& e matches ApiGatewayV2ServiceError::NotFound(m)
                    &&& route_response_error(*self, api_id@, route_id@, rr_id@, e->NotFound_0@)
                },
            },
    {
        self.require_route_response(api_id, route_id, rr_id)
    }

    /// Deletes a response of a route.
    pub fn delete_route_response(&mut self, api_id: &str, route_id: &str, rr_id: &str) -> (r: Result<
        (),
        ApiGatewayV2ServiceError,
    >)
        requires
            old(self).wf(),
        ensures
            final(self).wf(),
            match r {
                Err(e) => {
                    &&& e matches ApiGatewayV2ServiceError::NotFound(m)
                    &&& route_response_error(*old(self), api_id@, route_id@, rr_id@, e->NotFound_0@)
                    &&& *final(self) == *old(self)
                },
                Ok(_) => {
                    &&& route_response_at(old(self).route_responses@, api_id@, route_id@, rr_id@) is Some
                    &&& final(self).route_responses@ == old(self).route_responses@.filter(
                        kept_after::<RouteResponseRecord>(api_id@, Some(rr_id@)),
                    )
                    &&& same_but_route_responses(*final(self), *old(self))
                },
            },
    {
        match self.require_route_response(api_id, route_id, rr_id) {
            Ok(_) => {},
            Err(e) => {
                return Err(e);
            },
        }
        self.route_responses.remove_where(api_id, Some(rr_id));
        Ok(())
    }

    /// The responses of a route, in the order they were created.
    pub fn get_route_responses(&self, api_id: &str, route_id: &str) -> (r: Result<
        Vec<RouteResponseRecord>,
        ApiGatewayV2ServiceError,
    >)
        ensures
            match r {
                Ok(v) => {
                    &&& self.has_api(api_id@)
                    &&& record_at(self.routes@, api_id@, route_id@) is Some
                    &&& v@ == self.route_responses@.filter(owned_by::<RouteResponseRecord>(api_id@)).filter(
                        of_route(route_id@),
                    )
                },
                Err(e) => e matches ApiGatewayV2ServiceError::NotFound(m) && if !self.has_api(
                    api_id@,
                ) {
                    m@ == not_found_text("Api"@, api_id@)
                } else {
                    record_at(self.routes@, api_id@, route_id@) is None && m@ == not_found_text(
                        "Route"@,
                        route_id@,
                    )
                },
            },
    {
        match self.require_api(api_id) {
            Ok(_) => {},
            Err(e) => {
                return Err(e);
            },
        }
        match require(&self.routes, api_id, route_id, "Route") {
            Ok(_) => {},
            Err(e) => {
                return Err(e);
            },
        }
        let all = self.route_responses.list_owner(api_id);
        let ghost filt = of_route(route_id@);
        let mut out: Vec<RouteResponseRecord> = Vec::new();
        let mut i: usize = 0;
        while i < all.len()
            invariant
                i <= all.len(),
                filt == of_route(route_id@),
                out@ == all@.take(i as int).filter(filt),
            decreases all.len() - i,
        {
            proof {
                reveal_with_fuel(Seq::filter, 1);
                assert(all@.take(i + 1).drop_last() =~= all@.take(i as int));
                assert(all@.take(i + 1).last() == all@[i as int]);
            }
            if str_eq(all[i].route_id.as_str(), route_id) {
                out.push(all[i].duplicate());
            }
            i = i + 1;
        }
        assert(all@.take(all.len() as int) =~= all@);
        Ok(out)
    }

    /// Adds tags to a resource; a key it already has takes the new value.
    pub fn tag_resource(&mut self, resource_arn: &String, tags: &Vec<(String, String)>)
        requires
            old(self).wf(),
        ensures
            final(self).wf(),
            final(self).tags@ == with_tags(old(self).tags@, *resource_arn, tags@),
            same_except(*final(self), *old(self), false, false, false, false, false, true),
    {
        put_tags(&mut self.tags, resource_arn, tags);
    }

    /// Removes tag keys from a resource.
    pub fn untag_resource(&mut self, resource_arn: &str, tag_keys: &Vec<String>)
        requires
            old(self).wf(),
        ensures
            final(self).wf(),
            final(self).tags@ == without_tags(old(self).tags@, resource_arn@, tag_keys@),
            same_except(*final(self), *old(self), false, false, false, false, false, true),
    {
        let ghost t0 = self.tags@;
        let mut i: usize = 0;
        while i < tag_keys.len()
            invariant
                self.wf(),
                i <= tag_keys.len(),
                self.tags@ == without_tags(t0, resource_arn@, tag_keys@.take(i as int)),
                same_except(*self, *old(self), false, false, false, false, false, true),
            decreases tag_keys.len() - i,
        {
            proof {
                assert(tag_keys@.take(i + 1).drop_last() =~= tag_keys@.take(i as int));
                assert(tag_keys@.take(i + 1).last() == tag_keys@[i as int]);
            }
            self.tags.remove_where(resource_arn, Some(tag_keys[i].as_str()));
            i = i + 1;
        }
        assert(tag_keys@.take(tag_keys.len() as int) =~= tag_keys@);
    }

    /// The tags of a resource, in the order they were first set.
    pub fn get_tags(&self, resource_arn: &str) -> (r: Vec<TagRecord>)
        ensures
            r@ == self.tags@.filter(owned_by::<TagRecord>(resource_arn@)),
    {
        self.tags.list_owner(resource_arn)
    }

    /// The API endpoint and ARN of an id in this provider's region.
    pub open spec fn endpoint_of(&self, api_id: Seq<char>) -> Seq<char> {
        endpoint_text(self.region@, api_id)
    }
}

} // verus!
