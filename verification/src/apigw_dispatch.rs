//! Dispatch of API Gateway v2 management operations to the provider: which
//! path parameters each needs, how its body is read, which status answers it.

use vstd::prelude::*;
use crate::apigw::{key_is, parse_query_params, require_path_param};
use crate::apigw_store::{kept, kept_after, vpc_index, vpc_kept};
use crate::apigw_provider::{
    with_tags, without_tags,
    CreateApiInput, CreateAuthorizerInput, CreateModelInput, UpdateModelInput,
    CreateDomainNameInput, UpdateDomainNameInput, CreateApiMappingInput, UpdateApiMappingInput,
    CreateVpcLinkInput, CreateRouteResponseInput, CreateDeploymentInput, CreateIntegrationInput,
    CreateRouteInput, CreateStageInput, RustackApiGatewayV2, UpdateApiInput, UpdateAuthorizerInput,
    UpdateIntegrationInput, UpdateRouteInput, UpdateStageInput,
};
use crate::apigw_records::{
    generate_id, ApiGatewayV2ServiceError, ApiRecord, AuthorizerRecord, DeploymentRecord,
    IntegrationRecord, ModelRecord, RouteRecord, DomainNameRecord, ApiMappingRecord, VpcLinkRecord,
    RouteResponseRecord,
    vpc_view, StageRecord, TagRecord,
};
use crate::seqs::first_index;
use crate::streams_store::now_epoch_seconds;
use crate::text::{own, push_str_chars, str_chars, str_eq, string_from_chars};

verus! {

/// A management request: the operation, with its body as read into the
/// operation's input (or the text of the reason it could not be read).
#[derive(Debug)]
pub enum ApiGatewayV2Request {
    CreateApi(Result<CreateApiInput, String>),
    GetApi,
    UpdateApi(Result<UpdateApiInput, String>),
    DeleteApi,
    GetApis,
    CreateRoute(Result<CreateRouteInput, String>),
    GetRoute,
    UpdateRoute(Result<UpdateRouteInput, String>),
    DeleteRoute,
    GetRoutes,
    CreateIntegration(Result<CreateIntegrationInput, String>),
    GetIntegration,
    UpdateIntegration(Result<UpdateIntegrationInput, String>),
    DeleteIntegration,
    GetIntegrations,
    CreateStage(Result<CreateStageInput, String>),
    GetStage,
    UpdateStage(Result<UpdateStageInput, String>),
    DeleteStage,
    GetStages,
    CreateDeployment(Result<CreateDeploymentInput, String>),
    GetDeployment,
    DeleteDeployment,
    GetDeployments,
    CreateRouteResponse(Result<CreateRouteResponseInput, String>),
    GetRouteResponse,
    DeleteRouteResponse,
    GetRouteResponses,
    CreateAuthorizer(Result<CreateAuthorizerInput, String>),
    GetAuthorizer,
    UpdateAuthorizer(Result<UpdateAuthorizerInput, String>),
    DeleteAuthorizer,
    GetAuthorizers,
    CreateModel(Result<CreateModelInput, String>),
    GetModel,
    UpdateModel(Result<UpdateModelInput, String>),
    DeleteModel,
    GetModels,
    GetModelTemplate,
    CreateDomainName(Result<CreateDomainNameInput, String>),
    GetDomainName,
    UpdateDomainName(Result<UpdateDomainNameInput, String>),
    DeleteDomainName,
    GetDomainNames,
    CreateApiMapping(Result<CreateApiMappingInput, String>),
    GetApiMapping,
    UpdateApiMapping(Result<UpdateApiMappingInput, String>),
    DeleteApiMapping,
    GetApiMappings,
    CreateVpcLink(Result<CreateVpcLinkInput, String>),
    GetVpcLink,
    UpdateVpcLink(Result<Option<String>, String>),
    DeleteVpcLink,
    GetVpcLinks,
    TagResource(Result<Vec<(String, String)>, String>),
    UntagResource,
    GetTags,
}

/// What a successful operation answers with.
#[derive(Debug)]
pub enum ApiGatewayV2Output {
    Api(ApiRecord),
    Apis(Vec<ApiRecord>),
    Route(RouteRecord),
    Routes(Vec<RouteRecord>),
    RouteResponse(RouteResponseRecord),
    RouteResponses(Vec<RouteResponseRecord>),
    Integration(IntegrationRecord),
    Integrations(Vec<IntegrationRecord>),
    Stage(StageRecord),
    Stages(Vec<StageRecord>),
    Deployment(DeploymentRecord),
    Deployments(Vec<DeploymentRecord>),
    Authorizer(AuthorizerRecord),
    Authorizers(Vec<AuthorizerRecord>),
    Model(ModelRecord),
    Models(Vec<ModelRecord>),
    ModelTemplate(String),
    DomainName(DomainNameRecord),
    DomainNames(Vec<DomainNameRecord>),
    ApiMapping(ApiMappingRecord),
    ApiMappings(Vec<ApiMappingRecord>),
    VpcLink(VpcLinkRecord),
    VpcLinks(Vec<VpcLinkRecord>),
    Tags(Vec<TagRecord>),
    Empty,
}

/// The kinds of error an operation answers with.
#[derive(Debug, Clone, Copy, PartialEq, Eq, Structural)]
pub enum ApiGatewayV2ErrorCode {
    BadRequestException,
    NotFoundException,
    ConflictException,
    InternalServerError,
}

/// An error answer: its kind and message.
#[derive(Debug)]
pub struct ApiGatewayV2Error {
    pub code: ApiGatewayV2ErrorCode,
    pub message: String,
}

/// The HTTP status of an error kind.
pub open spec fn error_status(c: ApiGatewayV2ErrorCode) -> u16 {
    match c {
        ApiGatewayV2ErrorCode::BadRequestException => 400,
        ApiGatewayV2ErrorCode::NotFoundException => 404,
        ApiGatewayV2ErrorCode::ConflictException => 409,
        ApiGatewayV2ErrorCode::InternalServerError => 500,
    }
}

/// The HTTP status of an error kind.
pub fn status_of(c: ApiGatewayV2ErrorCode) -> (r: u16)
    ensures
        r == error_status(c),
{
    match c {
        ApiGatewayV2ErrorCode::BadRequestException => 400,
        ApiGatewayV2ErrorCode::NotFoundException => 404,
        ApiGatewayV2ErrorCode::ConflictException => 409,
        ApiGatewayV2ErrorCode::InternalServerError => 500,
    }
}

/// The error answer of a provider failure.
pub open spec fn service_error_view(e: ApiGatewayV2ServiceError) -> (ApiGatewayV2ErrorCode, Seq<char>) {
    match e {
        ApiGatewayV2ServiceError::NotFound(m) => (ApiGatewayV2ErrorCode::NotFoundException, m@),
        ApiGatewayV2ServiceError::BadRequest(m) => (ApiGatewayV2ErrorCode::BadRequestException, m@),
        ApiGatewayV2ServiceError::Conflict(m) => (ApiGatewayV2ErrorCode::ConflictException, m@),
    }
}

/// The error answer of a provider failure.
pub fn from_service_error(e: ApiGatewayV2ServiceError) -> (r: ApiGatewayV2Error)
    ensures
        (r.code, r.message@) == service_error_view(e),
{
    match e {
        ApiGatewayV2ServiceError::NotFound(m) => ApiGatewayV2Error {
            code: ApiGatewayV2ErrorCode::NotFoundException,
            message: m,
        },
        ApiGatewayV2ServiceError::BadRequest(m) => ApiGatewayV2Error {
            code: ApiGatewayV2ErrorCode::BadRequestException,
            message: m,
        },
        ApiGatewayV2ServiceError::Conflict(m) => ApiGatewayV2Error {
            code: ApiGatewayV2ErrorCode::ConflictException,
            message: m,
        },
    }
}

/// The status a successful request answers with: 201 for creations and
/// tagging, 204 for deletions and untagging, 200 otherwise.
pub open spec fn success_status(req: ApiGatewayV2Request) -> u16 {
    match req {
        ApiGatewayV2Request::CreateApi(_) | ApiGatewayV2Request::CreateRoute(_)
        | ApiGatewayV2Request::CreateIntegration(_) | ApiGatewayV2Request::CreateStage(_)
        | ApiGatewayV2Request::CreateDeployment(_) | ApiGatewayV2Request::CreateAuthorizer(_)
        | ApiGatewayV2Request::CreateModel(_) | ApiGatewayV2Request::CreateDomainName(_)
        | ApiGatewayV2Request::CreateApiMapping(_) | ApiGatewayV2Request::CreateVpcLink(_)
        | ApiGatewayV2Request::CreateRouteResponse(_)
        | ApiGatewayV2Request::TagResource(_) => 201,
        ApiGatewayV2Request::DeleteVpcLink => 202,
        ApiGatewayV2Request::DeleteApi | ApiGatewayV2Request::DeleteRoute
        | ApiGatewayV2Request::DeleteIntegration | ApiGatewayV2Request::DeleteStage
        | ApiGatewayV2Request::DeleteDeployment | ApiGatewayV2Request::DeleteAuthorizer
        | ApiGatewayV2Request::DeleteModel | ApiGatewayV2Request::DeleteDomainName
        | ApiGatewayV2Request::DeleteApiMapping | ApiGatewayV2Request::DeleteRouteResponse
        | ApiGatewayV2Request::UntagResource => 204,
        _ => 200,
    }
}

/// Error kinds answer with their HTTP statuses: a bad request 400, a missing
/// resource 404, a conflict 409 and an internal error 500; a provider failure
/// keeps its message and answers as the kind it names.
pub proof fn lemma_error_statuses(e: ApiGatewayV2ServiceError)
    ensures
        error_status(ApiGatewayV2ErrorCode::BadRequestException) == 400,
        error_status(ApiGatewayV2ErrorCode::NotFoundException) == 404,
        error_status(ApiGatewayV2ErrorCode::ConflictException) == 409,
        error_status(ApiGatewayV2ErrorCode::InternalServerError) == 500,
        match e {
            ApiGatewayV2ServiceError::NotFound(m) => error_status(service_error_view(e).0) == 404
                && service_error_view(e).1 == m@,
            ApiGatewayV2ServiceError::BadRequest(m) => error_status(service_error_view(e).0) == 400
                && service_error_view(e).1 == m@,
            ApiGatewayV2ServiceError::Conflict(m) => error_status(service_error_view(e).0) == 409
                && service_error_view(e).1 == m@,
        },
{
}

/// A successful request answers 201 when it creates or tags, 202 when it
/// deletes a VPC link, 204 when it deletes anything else or untags, and 200
/// when it reads or updates.
pub proof fn lemma_success_statuses(req: ApiGatewayV2Request)
    ensures
        req is CreateApi ==> success_status(req) == 201,
        req is GetApi ==> success_status(req) == 200,
        req is UpdateApi ==> success_status(req) == 200,
        req is DeleteApi ==> success_status(req) == 204,
        req is GetApis ==> success_status(req) == 200,
        req is CreateRoute ==> success_status(req) == 201,
        req is GetRoute ==> success_status(req) == 200,
        req is UpdateRoute ==> success_status(req) == 200,
        req is DeleteRoute ==> success_status(req) == 204,
        req is GetRoutes ==> success_status(req) == 200,
        req is CreateIntegration ==> success_status(req) == 201,
        req is GetIntegration ==> success_status(req) == 200,
        req is UpdateIntegration ==> success_status(req) == 200,
        req is DeleteIntegration ==> success_status(req) == 204,
        req is GetIntegrations ==> success_status(req) == 200,
        req is CreateStage ==> success_status(req) == 201,
        req is GetStage ==> success_status(req) == 200,
        req is UpdateStage ==> success_status(req) == 200,
        req is DeleteStage ==> success_status(req) == 204,
        req is GetStages ==> success_status(req) == 200,
        req is CreateDeployment ==> success_status(req) == 201,
        req is GetDeployment ==> success_status(req) == 200,
        req is DeleteDeployment ==> success_status(req) == 204,
        req is GetDeployments ==> success_status(req) == 200,
        req is CreateRouteResponse ==> success_status(req) == 201,
        req is GetRouteResponse ==> success_status(req) == 200,
        req is DeleteRouteResponse ==> success_status(req) == 204,
        req is GetRouteResponses ==> success_status(req) == 200,
        req is CreateAuthorizer ==> success_status(req) == 201,
        req is GetAuthorizer ==> success_status(req) == 200,
        req is UpdateAuthorizer ==> success_status(req) == 200,
        req is DeleteAuthorizer ==> success_status(req) == 204,
        req is GetAuthorizers ==> success_status(req) == 200,
        req is CreateModel ==> success_status(req) == 201,
        req is GetModel ==> success_status(req) == 200,
        req is UpdateModel ==> success_status(req) == 200,
        req is DeleteModel ==> success_status(req) == 204,
        req is GetModels ==> success_status(req) == 200,
        req is GetModelTemplate ==> success_status(req) == 200,
        req is CreateDomainName ==> success_status(req) == 201,
        req is GetDomainName ==> success_status(req) == 200,
        req is UpdateDomainName ==> success_status(req) == 200,
        req is DeleteDomainName ==> success_status(req) == 204,
        req is GetDomainNames ==> success_status(req) == 200,
        req is CreateApiMapping ==> success_status(req) == 201,
        req is GetApiMapping ==> success_status(req) == 200,
        req is UpdateApiMapping ==> success_status(req) == 200,
        req is DeleteApiMapping ==> success_status(req) == 204,
        req is GetApiMappings ==> success_status(req) == 200,
        req is CreateVpcLink ==> success_status(req) == 201,
        req is GetVpcLink ==> success_status(req) == 200,
        req is UpdateVpcLink ==> success_status(req) == 200,
        req is DeleteVpcLink ==> success_status(req) == 202,
        req is GetVpcLinks ==> success_status(req) == 200,
        req is TagResource ==> success_status(req) == 201,
        req is UntagResource ==> success_status(req) == 204,
        req is GetTags ==> success_status(req) == 200,
{
}

/// Whether the answer is of the kind the request gives.
pub open spec fn output_fits(req: ApiGatewayV2Request, out: ApiGatewayV2Output) -> bool {
    match req {
        ApiGatewayV2Request::CreateApi(_) | ApiGatewayV2Request::GetApi
        | ApiGatewayV2Request::UpdateApi(_) => out is Api,
        ApiGatewayV2Request::GetApis => out is Apis,
        ApiGatewayV2Request::CreateRoute(_) | ApiGatewayV2Request::GetRoute
        | ApiGatewayV2Request::UpdateRoute(_) => out is Route,
        ApiGatewayV2Request::GetRoutes => out is Routes,
        ApiGatewayV2Request::CreateIntegration(_) | ApiGatewayV2Request::GetIntegration
        | ApiGatewayV2Request::UpdateIntegration(_) => out is Integration,
        ApiGatewayV2Request::GetIntegrations => out is Integrations,
        ApiGatewayV2Request::CreateStage(_) | ApiGatewayV2Request::GetStage
        | ApiGatewayV2Request::UpdateStage(_) => out is Stage,
        ApiGatewayV2Request::GetStages => out is Stages,
        ApiGatewayV2Request::CreateDeployment(_) | ApiGatewayV2Request::GetDeployment => out is Deployment,
        ApiGatewayV2Request::GetDeployments => out is Deployments,
        ApiGatewayV2Request::CreateAuthorizer(_) | ApiGatewayV2Request::GetAuthorizer
        | ApiGatewayV2Request::UpdateAuthorizer(_) => out is Authorizer,
        ApiGatewayV2Request::GetAuthorizers => out is Authorizers,
        ApiGatewayV2Request::CreateModel(_) | ApiGatewayV2Request::GetModel
        | ApiGatewayV2Request::UpdateModel(_) => out is Model,
        ApiGatewayV2Request::GetModels => out is Models,
        ApiGatewayV2Request::GetModelTemplate => out is ModelTemplate,
        ApiGatewayV2Request::CreateDomainName(_) | ApiGatewayV2Request::GetDomainName
        | ApiGatewayV2Request::UpdateDomainName(_) => out is DomainName,
        ApiGatewayV2Request::GetDomainNames => out is DomainNames,
        ApiGatewayV2Request::CreateApiMapping(_) | ApiGatewayV2Request::GetApiMapping
        | ApiGatewayV2Request::UpdateApiMapping(_) => out is ApiMapping,
        ApiGatewayV2Request::GetApiMappings => out is ApiMappings,
        ApiGatewayV2Request::CreateVpcLink(_) | ApiGatewayV2Request::GetVpcLink
        | ApiGatewayV2Request::UpdateVpcLink(_) => out is VpcLink,
        ApiGatewayV2Request::GetVpcLinks => out is VpcLinks,
        ApiGatewayV2Request::CreateRouteResponse(_) | ApiGatewayV2Request::GetRouteResponse => out is RouteResponse,
        ApiGatewayV2Request::GetRouteResponses => out is RouteResponses,
        ApiGatewayV2Request::GetTags => out is Tags,
        _ => out is Empty,
    }
}

/// The path parameters a request needs, in the order they are looked up.
pub open spec fn required_params(req: ApiGatewayV2Request) -> Seq<Seq<char>> {
    match req {
        ApiGatewayV2Request::CreateApi(_) | ApiGatewayV2Request::GetApis
        | ApiGatewayV2Request::CreateDomainName(_) | ApiGatewayV2Request::GetDomainNames
        | ApiGatewayV2Request::CreateVpcLink(_) | ApiGatewayV2Request::GetVpcLinks => Seq::empty(),
        ApiGatewayV2Request::GetVpcLink | ApiGatewayV2Request::UpdateVpcLink(_)
        | ApiGatewayV2Request::DeleteVpcLink => seq!["vpcLinkId"@],
        ApiGatewayV2Request::GetDomainName | ApiGatewayV2Request::UpdateDomainName(_)
        | ApiGatewayV2Request::DeleteDomainName | ApiGatewayV2Request::CreateApiMapping(_)
        | ApiGatewayV2Request::GetApiMappings => seq!["domainName"@],
        ApiGatewayV2Request::GetApiMapping | ApiGatewayV2Request::UpdateApiMapping(_)
        | ApiGatewayV2Request::DeleteApiMapping => seq!["domainName"@, "apiMappingId"@],
        ApiGatewayV2Request::GetRoute | ApiGatewayV2Request::UpdateRoute(_)
        | ApiGatewayV2Request::DeleteRoute | ApiGatewayV2Request::CreateRouteResponse(_)
        | ApiGatewayV2Request::GetRouteResponses => seq!["apiId"@, "routeId"@],
        ApiGatewayV2Request::GetRouteResponse | ApiGatewayV2Request::DeleteRouteResponse => seq![
            "apiId"@,
            "routeId"@,
            "routeResponseId"@,
        ],
        ApiGatewayV2Request::GetIntegration | ApiGatewayV2Request::UpdateIntegration(_)
        | ApiGatewayV2Request::DeleteIntegration => seq!["apiId"@, "integrationId"@],
        ApiGatewayV2Request::GetStage | ApiGatewayV2Request::UpdateStage(_)
        | ApiGatewayV2Request::DeleteStage => seq!["apiId"@, "stageName"@],
        ApiGatewayV2Request::GetDeployment | ApiGatewayV2Request::DeleteDeployment => seq![
            "apiId"@,
            "deploymentId"@,
        ],
        ApiGatewayV2Request::GetAuthorizer | ApiGatewayV2Request::UpdateAuthorizer(_)
        | ApiGatewayV2Request::DeleteAuthorizer => seq![
            "apiId"@,
            "authorizerId"@,
        ],
        ApiGatewayV2Request::GetModel | ApiGatewayV2Request::UpdateModel(_)
        | ApiGatewayV2Request::DeleteModel | ApiGatewayV2Request::GetModelTemplate => seq![
            "apiId"@,
            "modelId"@,
        ],
        ApiGatewayV2Request::TagResource(_) | ApiGatewayV2Request::UntagResource
        | ApiGatewayV2Request::GetTags => seq!["resource-arn"@],
        _ => seq!["apiId"@],
    }
}

/// The path parameters each request needs, in the order they are looked
/// up: the API's ID first for everything inside an API, then the ID of the
/// route, integration, stage, deployment, authorizer or model; the domain name
/// (and mapping ID) for domains, the VPC link ID for VPC links, the resource
/// ARN for tags; none for creating or listing APIs, domains and VPC links.
pub proof fn lemma_required_params(req: ApiGatewayV2Request)
    ensures
        req is CreateApi ==> required_params(req) == Seq::<Seq<char>>::empty(),
        req is GetApi ==> required_params(req) == seq!["apiId"@],
        req is UpdateApi ==> required_params(req) == seq!["apiId"@],
        req is DeleteApi ==> required_params(req) == seq!["apiId"@],
        req is GetApis ==> required_params(req) == Seq::<Seq<char>>::empty(),
        req is CreateRoute ==> required_params(req) == seq!["apiId"@],
        req is GetRoute ==> required_params(req) == seq!["apiId"@, "routeId"@],
        req is UpdateRoute ==> required_params(req) == seq!["apiId"@, "routeId"@],
        req is DeleteRoute ==> required_params(req) == seq!["apiId"@, "routeId"@],
        req is GetRoutes ==> required_params(req) == seq!["apiId"@],
        req is CreateIntegration ==> required_params(req) == seq!["apiId"@],
        req is GetIntegration ==> required_params(req) == seq!["apiId"@, "integrationId"@],
        req is UpdateIntegration ==> required_params(req) == seq!["apiId"@, "integrationId"@],
        req is DeleteIntegration ==> required_params(req) == seq!["apiId"@, "integrationId"@],
        req is GetIntegrations ==> required_params(req) == seq!["apiId"@],
        req is CreateStage ==> required_params(req) == seq!["apiId"@],
        req is GetStage ==> required_params(req) == seq!["apiId"@, "stageName"@],
        req is UpdateStage ==> required_params(req) == seq!["apiId"@, "stageName"@],
        req is DeleteStage ==> required_params(req) == seq!["apiId"@, "stageName"@],
        req is GetStages ==> required_params(req) == seq!["apiId"@],
        req is CreateDeployment ==> required_params(req) == seq!["apiId"@],
        req is GetDeployment ==> required_params(req) == seq!["apiId"@, "deploymentId"@],
        req is DeleteDeployment ==> required_params(req) == seq!["apiId"@, "deploymentId"@],
        req is GetDeployments ==> required_params(req) == seq!["apiId"@],
        req is CreateRouteResponse ==> required_params(req) == seq!["apiId"@, "routeId"@],
        req is GetRouteResponse ==> required_params(req) == seq!["apiId"@, "routeId"@, "routeResponseId"@],
        req is DeleteRouteResponse ==> required_params(req) == seq!["apiId"@, "routeId"@, "routeResponseId"@],
        req is GetRouteResponses ==> required_params(req) == seq!["apiId"@, "routeId"@],
        req is CreateAuthorizer ==> required_params(req) == seq!["apiId"@],
        req is GetAuthorizer ==> required_params(req) == seq!["apiId"@, "authorizerId"@],
        req is UpdateAuthorizer ==> required_params(req) == seq!["apiId"@, "authorizerId"@],
        req is DeleteAuthorizer ==> required_params(req) == seq!["apiId"@, "authorizerId"@],
        req is GetAuthorizers ==> required_params(req) == seq!["apiId"@],
        req is CreateModel ==> required_params(req) == seq!["apiId"@],
        req is GetModel ==> required_params(req) == seq!["apiId"@, "modelId"@],
        req is UpdateModel ==> required_params(req) == seq!["apiId"@, "modelId"@],
        req is DeleteModel ==> required_params(req) == seq!["apiId"@, "modelId"@],
        req is GetModels ==> required_params(req) == seq!["apiId"@],
        req is GetModelTemplate ==> required_params(req) == seq!["apiId"@, "modelId"@],
        req is CreateDomainName ==> required_params(req) == Seq::<Seq<char>>::empty(),
        req is GetDomainName ==> required_params(req) == seq!["domainName"@],
        req is UpdateDomainName ==> required_params(req) == seq!["domainName"@],
        req is DeleteDomainName ==> required_params(req) == seq!["domainName"@],
        req is GetDomainNames ==> required_params(req) == Seq::<Seq<char>>::empty(),
        req is CreateApiMapping ==> required_params(req) == seq!["domainName"@],
        req is GetApiMapping ==> required_params(req) == seq!["domainName"@, "apiMappingId"@],
        req is UpdateApiMapping ==> required_params(req) == seq!["domainName"@, "apiMappingId"@],
        req is DeleteApiMapping ==> required_params(req) == seq!["domainName"@, "apiMappingId"@],
        req is GetApiMappings ==> required_params(req) == seq!["domainName"@],
        req is CreateVpcLink ==> required_params(req) == Seq::<Seq<char>>::empty(),
        req is GetVpcLink ==> required_params(req) == seq!["vpcLinkId"@],
        req is UpdateVpcLink ==> required_params(req) == seq!["vpcLinkId"@],
        req is DeleteVpcLink ==> required_params(req) == seq!["vpcLinkId"@],
        req is GetVpcLinks ==> required_params(req) == Seq::<Seq<char>>::empty(),
        req is TagResource ==> required_params(req) == seq!["resource-arn"@],
        req is UntagResource ==> required_params(req) == seq!["resource-arn"@],
        req is GetTags ==> required_params(req) == seq!["resource-arn"@],
{
}

/// The reason a request's body could not be read, for the requests that
/// need one read (a deployment's body falls back to an empty input).
pub open spec fn body_failure(req: ApiGatewayV2Request) -> Option<Seq<char>> {
    match req {
        ApiGatewayV2Request::CreateApi(Err(t)) => Some(t@),
        ApiGatewayV2Request::UpdateApi(Err(t)) => Some(t@),
        ApiGatewayV2Request::CreateRoute(Err(t)) => Some(t@),
        ApiGatewayV2Request::UpdateRoute(Err(t)) => Some(t@),
        ApiGatewayV2Request::CreateIntegration(Err(t)) => Some(t@),
        ApiGatewayV2Request::UpdateIntegration(Err(t)) => Some(t@),
        ApiGatewayV2Request::CreateStage(Err(t)) => Some(t@),
        ApiGatewayV2Request::UpdateStage(Err(t)) => Some(t@),
        ApiGatewayV2Request::CreateAuthorizer(Err(t)) => Some(t@),
        ApiGatewayV2Request::UpdateAuthorizer(Err(t)) => Some(t@),
        ApiGatewayV2Request::CreateModel(Err(t)) => Some(t@),
        ApiGatewayV2Request::UpdateModel(Err(t)) => Some(t@),
        ApiGatewayV2Request::CreateDomainName(Err(t)) => Some(t@),
        ApiGatewayV2Request::UpdateDomainName(Err(t)) => Some(t@),
        ApiGatewayV2Request::CreateApiMapping(Err(t)) => Some(t@),
        ApiGatewayV2Request::UpdateApiMapping(Err(t)) => Some(t@),
        ApiGatewayV2Request::CreateVpcLink(Err(t)) => Some(t@),
        ApiGatewayV2Request::UpdateVpcLink(Err(t)) => Some(t@),
        ApiGatewayV2Request::CreateRouteResponse(Err(t)) => Some(t@),
        ApiGatewayV2Request::TagResource(Err(t)) => Some(t@),
        _ => None,
    }
}

/// Whether the path parameters name `n`.
pub open spec fn has_param(ps: Seq<(String, String)>, n: Seq<char>) -> bool {
    first_index(ps, key_is(n)) < ps.len()
}

/// The first of `names` that the path parameters lack.
pub open spec fn first_missing(ps: Seq<(String, String)>, names: Seq<Seq<char>>) -> Option<
    Seq<char>,
>
    decreases names.len(),
{
    if names.len() == 0 {
        None
    } else if !has_param(ps, names[0]) {
        Some(names[0])
    } else {
        first_missing(ps, names.drop_first())
    }
}

/// The value of the path parameter `n` (the first pair with that name).
pub open spec fn param_value(ps: Seq<(String, String)>, n: Seq<char>) -> Seq<char> {
    ps[first_index(ps, key_is(n)) as int].1@
}

/// What a successful request did to the provider, given its answer.
pub open spec fn effect(
    req: ApiGatewayV2Request,
    ps: Seq<(String, String)>,
    query: Seq<char>,
    o: RustackApiGatewayV2,
    f: RustackApiGatewayV2,
    out: ApiGatewayV2Output,
) -> bool {
    let api = param_value(ps, "apiId"@);
    match req {
        ApiGatewayV2Request::CreateApi(_) | ApiGatewayV2Request::UpdateApi(_) => match out {
            ApiGatewayV2Output::Api(a) => f.apis@ == kept(o.apis@, a),
            _ => false,
        },
        ApiGatewayV2Request::DeleteApi => f.apis@ == o.apis@.filter(
            kept_after::<ApiRecord>(Seq::<char>::empty(), Some(api)),
        ),
        ApiGatewayV2Request::CreateRoute(_) | ApiGatewayV2Request::UpdateRoute(_) => match out {
            ApiGatewayV2Output::Route(rt) => rt.api_id@ == api && f.routes@ == kept(o.routes@, rt),
            _ => false,
        },
        ApiGatewayV2Request::DeleteRoute => f.routes@ == o.routes@.filter(
            kept_after::<RouteRecord>(api, Some(param_value(ps, "routeId"@))),
        ),
        ApiGatewayV2Request::CreateIntegration(_) | ApiGatewayV2Request::UpdateIntegration(_) => match out {
            ApiGatewayV2Output::Integration(it) => it.api_id@ == api && f.integrations@ == kept(
                o.integrations@,
                it,
            ),
            _ => false,
        },
        ApiGatewayV2Request::DeleteIntegration => f.integrations@ == o.integrations@.filter(
            kept_after::<IntegrationRecord>(api, Some(param_value(ps, "integrationId"@))),
        ),
        ApiGatewayV2Request::CreateStage(_) | ApiGatewayV2Request::UpdateStage(_) => match out {
            ApiGatewayV2Output::Stage(st) => st.api_id@ == api && f.stages@ == kept(o.stages@, st),
            _ => false,
        },
        ApiGatewayV2Request::DeleteStage => f.stages@ == o.stages@.filter(
            kept_after::<StageRecord>(api, Some(param_value(ps, "stageName"@))),
        ),
        ApiGatewayV2Request::CreateDeployment(_) => match out {
            ApiGatewayV2Output::Deployment(d) => d.api_id@ == api && f.deployments@ == kept(
                o.deployments@,
                d,
            ),
            _ => false,
        },
        ApiGatewayV2Request::DeleteDeployment => f.deployments@ == o.deployments@.filter(
            kept_after::<DeploymentRecord>(api, Some(param_value(ps, "deploymentId"@))),
        ),
        ApiGatewayV2Request::CreateAuthorizer(_) | ApiGatewayV2Request::UpdateAuthorizer(_) => match out {
            ApiGatewayV2Output::Authorizer(a) => a.api_id@ == api && f.authorizers@ == kept(
                o.authorizers@,
                a,
            ),
            _ => false,
        },
        ApiGatewayV2Request::DeleteAuthorizer => f.authorizers@ == o.authorizers@.filter(
            kept_after::<AuthorizerRecord>(api, Some(param_value(ps, "authorizerId"@))),
        ),
        ApiGatewayV2Request::CreateModel(_) | ApiGatewayV2Request::UpdateModel(_) => match out {
            ApiGatewayV2Output::Model(m) => m.api_id@ == api && f.models@ == kept(o.models@, m),
            _ => false,
        },
        ApiGatewayV2Request::DeleteModel => f.models@ == o.models@.filter(
            kept_after::<ModelRecord>(api, Some(param_value(ps, "modelId"@))),
        ),
        ApiGatewayV2Request::CreateDomainName(_) | ApiGatewayV2Request::UpdateDomainName(_) => match out {
            ApiGatewayV2Output::DomainName(d) => f.domain_names@ == kept(o.domain_names@, d),
            _ => false,
        },
        ApiGatewayV2Request::DeleteDomainName => f.domain_names@ == o.domain_names@.filter(
            kept_after::<DomainNameRecord>(Seq::<char>::empty(), Some(param_value(ps, "domainName"@))),
        ),
        ApiGatewayV2Request::CreateApiMapping(_) | ApiGatewayV2Request::UpdateApiMapping(_) => match out {
            ApiGatewayV2Output::ApiMapping(m) => m.domain_name@ == param_value(ps, "domainName"@)
                && f.api_mappings@ == kept(o.api_mappings@, m),
            _ => false,
        },
        ApiGatewayV2Request::DeleteApiMapping => f.api_mappings@ == o.api_mappings@.filter(
            kept_after::<ApiMappingRecord>(
                param_value(ps, "domainName"@),
                Some(param_value(ps, "apiMappingId"@)),
            ),
        ),
        ApiGatewayV2Request::CreateVpcLink(_) | ApiGatewayV2Request::UpdateVpcLink(_) => match out {
            ApiGatewayV2Output::VpcLink(v) => f.vpc_links@ == vpc_kept(o.vpc_links@, vpc_view(v)),
            _ => false,
        },
        ApiGatewayV2Request::DeleteVpcLink => f.vpc_links@ == o.vpc_links@.remove(
            vpc_index(o.vpc_links@, param_value(ps, "vpcLinkId"@)),
        ),
        ApiGatewayV2Request::CreateRouteResponse(_) => match out {
            ApiGatewayV2Output::RouteResponse(x) => x.api_id@ == api && f.route_responses@ == kept(
                o.route_responses@,
                x,
            ),
            _ => false,
        },
        ApiGatewayV2Request::DeleteRouteResponse => f.route_responses@ == o.route_responses@.filter(
            kept_after::<RouteResponseRecord>(api, Some(param_value(ps, "routeResponseId"@))),
        ),
        ApiGatewayV2Request::TagResource(Ok(tags)) => exists|arn: String|
            arn@ == param_value(ps, "resource-arn"@) && #[trigger] with_tags(o.tags@, arn, tags@)
                == f.tags@,
        ApiGatewayV2Request::TagResource(Err(_)) => false,
        ApiGatewayV2Request::UntagResource => exists|keys: Seq<String>|
            keys.map_values(|k: String| k@) == tag_keys_of(crate::apigw::query_pairs(query))
                && #[trigger] without_tags(o.tags@, param_value(ps, "resource-arn"@), keys) == f.tags@,
        _ => f == o,
    }
}

/// A required path parameter, or the internal error for its absence.
fn param(ps: &Vec<(String, String)>, name: &str) -> (r: Result<String, ApiGatewayV2Error>)
    ensures
        match r {
            Ok(v) => has_param(ps@, name@) && v@ == ps@[first_index(ps@, key_is(name@)) as int].1@,
            Err(e) => !has_param(ps@, name@) && e.code == ApiGatewayV2ErrorCode::InternalServerError
                && e.message@ == "Missing path parameter: "@ + name@,
        },
{
    match require_path_param(ps.as_slice(), name) {
        Ok(v) => Ok(v),
        Err(m) => Err(ApiGatewayV2Error { code: ApiGatewayV2ErrorCode::InternalServerError, message: m }),
    }
}

/// The error for a body that could not be read: `Invalid request body: {reason}`.
fn invalid_body(reason: &str) -> (r: ApiGatewayV2Error)
    ensures
        r.code == ApiGatewayV2ErrorCode::BadRequestException,
        r.message@ == "Invalid request body: "@ + reason@,
{
    let mut m = str_chars("Invalid request body: ");
    push_str_chars(&mut m, reason);
    ApiGatewayV2Error { code: ApiGatewayV2ErrorCode::BadRequestException, message: string_from_chars(&m) }
}

/// The values of the query parameters named `tagKeys`, in order.
pub open spec fn tag_keys_of(q: Seq<(Seq<char>, Seq<char>)>) -> Seq<Seq<char>>
    decreases q.len(),
{
    if q.len() == 0 {
        Seq::empty()
    } else if q.last().0 == "tagKeys"@ {
        tag_keys_of(q.drop_last()).push(q.last().1)
    } else {
        tag_keys_of(q.drop_last())
    }
}

/// The values of the query parameters named `tagKeys`.
fn tag_keys(query: &str) -> (r: Vec<String>)
    ensures
        r@.map_values(|s: String| s@) == tag_keys_of(crate::apigw::query_pairs(query@)),
{
    let qp = parse_query_params(query);
    let ghost qv = crate::apigw::pairs_view(qp@);
    let mut out: Vec<String> = Vec::new();
    let mut i: usize = 0;
    while i < qp.len()
        invariant
            i <= qp.len(),
            qv == crate::apigw::pairs_view(qp@),
            qv == crate::apigw::query_pairs(query@),
            out@.map_values(|s: String| s@) == tag_keys_of(qv.take(i as int)),
        decreases qp.len() - i,
    {
        proof {
            assert(qv.take(i + 1).drop_last() =~= qv.take(i as int));
            assert(qv.take(i + 1).last() == qv[i as int]);
        }
        if str_eq(qp[i].0.as_str(), "tagKeys") {
            let ghost before = out@.map_values(|s: String| s@);
            out.push(qp[i].1.clone());
            assert(out@.map_values(|s: String| s@) =~= before.push(qv[i as int].1));
        }
        i = i + 1;
    }
    assert(qv.take(qp.len() as int) =~= qv);
    out
}

/// Dispatches a request on apis.
fn dispatch_apis(
    p: &mut RustackApiGatewayV2,
    req: ApiGatewayV2Request,
    path_params: &Vec<(String, String)>,
    query: &str,
) -> (r: Result<(u16, ApiGatewayV2Output), ApiGatewayV2Error>)
    requires
        old(p).wf(),
        req is CreateApi || req is GetApi || req is UpdateApi || req is DeleteApi || req is GetApis || req is UntagResource,
    ensures
        final(p).wf(),
        match r {
            Ok((s, out)) => s == success_status(req) && output_fits(req, out) && effect(
                req,
                path_params@,
                query@,
                *old(p),
                *final(p),
                out,
            ),
            Err(_) => *final(p) == *old(p),
        },
        match first_missing(path_params@, required_params(req)) {
            Some(n) => r matches Err(e) && e.code == ApiGatewayV2ErrorCode::InternalServerError
                && e.message@ == "Missing path parameter: "@ + n,
            None => body_failure(req) matches Some(t) ==> (r matches Err(e)
                && e.code == ApiGatewayV2ErrorCode::BadRequestException
                && e.message@ == "Invalid request body: "@ + t),
        },
{
    proof {
        reveal_with_fuel(first_missing, 4);
    }
    match req {
        ApiGatewayV2Request::CreateApi(b) => {
            let mut input = match b {
                Ok(i) => i,
                Err(t) => {
                    return Err(invalid_body(t.as_str()));
                },
            };
            match p.create_api(input) {
                Ok(v) => Ok((201, ApiGatewayV2Output::Api(v))),
                Err(e) => Err(from_service_error(e)),
            }
        },
        ApiGatewayV2Request::GetApi => {
            let api_id = match param(path_params, "apiId") {
                Ok(v) => v,
                Err(e) => {
                    return Err(e);
                },
            };
            match p.get_api(api_id.as_str()) {
                Ok(v) => Ok((200, ApiGatewayV2Output::Api(v))),
                Err(e) => Err(from_service_error(e)),
            }
        },
        ApiGatewayV2Request::UpdateApi(b) => {
            let api_id = match param(path_params, "apiId") {
                Ok(v) => v,
                Err(e) => {
                    return Err(e);
                },
            };
            let mut input = match b {
                Ok(i) => i,
                Err(t) => {
                    return Err(invalid_body(t.as_str()));
                },
            };
            input.api_id = api_id;
            match p.update_api(input) {
                Ok(v) => Ok((200, ApiGatewayV2Output::Api(v))),
                Err(e) => Err(from_service_error(e)),
            }
        },
        ApiGatewayV2Request::DeleteApi => {
            let api_id = match param(path_params, "apiId") {
                Ok(v) => v,
                Err(e) => {
                    return Err(e);
                },
            };
            match p.delete_api(api_id.as_str()) {
                Ok(v) => Ok((204, ApiGatewayV2Output::Empty)),
                Err(e) => Err(from_service_error(e)),
            }
        },
        ApiGatewayV2Request::GetApis => {
            let v = p.get_apis();
            Ok((200, ApiGatewayV2Output::Apis(v)))
        },
        ApiGatewayV2Request::UntagResource => {
            let arn = match param(path_params, "resource-arn") {
                Ok(v) => v,
                Err(e) => {
                    return Err(e);
                },
            };
            let keys = tag_keys(query);
            p.untag_resource(arn.as_str(), &keys);
            assert(without_tags(old(p).tags@, param_value(path_params@, "resource-arn"@), keys@)
                == p.tags@);
            Ok((204, ApiGatewayV2Output::Empty))
        },
        _ => {
            proof {
                assert(false);
            }
            Ok((200, ApiGatewayV2Output::Empty))
        },
    }
}

/// Dispatches a request on routes.
fn dispatch_routes(
    p: &mut RustackApiGatewayV2,
    req: ApiGatewayV2Request,
    path_params: &Vec<(String, String)>,
    query: &str,
) -> (r: Result<(u16, ApiGatewayV2Output), ApiGatewayV2Error>)
    requires
        old(p).wf(),
        req is CreateRoute || req is GetRoute || req is UpdateRoute || req is DeleteRoute || req is GetRoutes,
    ensures
        final(p).wf(),
        match r {
            Ok((s, out)) => s == success_status(req) && output_fits(req, out) && effect(
                req,
                path_params@,
                query@,
                *old(p),
                *final(p),
                out,
            ),
            Err(_) => *final(p) == *old(p),
        },
        match first_missing(path_params@, required_params(req)) {
            Some(n) => r matches Err(e) && e.code == ApiGatewayV2ErrorCode::InternalServerError
                && e.message@ == "Missing path parameter: "@ + n,
            None => body_failure(req) matches Some(t) ==> (r matches Err(e)
                && e.code == ApiGatewayV2ErrorCode::BadRequestException
                && e.message@ == "Invalid request body: "@ + t),
        },
{
    proof {
        reveal_with_fuel(first_missing, 4);
    }
    match req {
        ApiGatewayV2Request::CreateRoute(b) => {
            let api_id = match param(path_params, "apiId") {
                Ok(v) => v,
                Err(e) => {
                    return Err(e);
                },
            };
            let mut input = match b {
                Ok(i) => i,
                Err(t) => {
                    return Err(invalid_body(t.as_str()));
                },
            };
            input.api_id = api_id;
            let now = now_epoch_seconds();
            match p.create_route_with(input, generate_id(), now) {
                Ok(v) => Ok((201, ApiGatewayV2Output::Route(v))),
                Err(e) => Err(from_service_error(e)),
            }
        },
        ApiGatewayV2Request::GetRoute => {
            let api_id = match param(path_params, "apiId") {
                Ok(v) => v,
                Err(e) => {
                    return Err(e);
                },
            };
            let route_id = match param(path_params, "routeId") {
                Ok(v) => v,
                Err(e) => {
                    return Err(e);
                },
            };
            match p.get_route(api_id.as_str(), route_id.as_str()) {
                Ok(v) => Ok((200, ApiGatewayV2Output::Route(v))),
                Err(e) => Err(from_service_error(e)),
            }
        },
        ApiGatewayV2Request::UpdateRoute(b) => {
            let api_id = match param(path_params, "apiId") {
                Ok(v) => v,
                Err(e) => {
                    return Err(e);
                },
            };
            let route_id = match param(path_params, "routeId") {
                Ok(v) => v,
                Err(e) => {
                    return Err(e);
                },
            };
            let mut input = match b {
                Ok(i) => i,
                Err(t) => {
                    return Err(invalid_body(t.as_str()));
                },
            };
            input.api_id = api_id;
            input.route_id = route_id;
            let now = now_epoch_seconds();
            match p.update_route(input, now) {
                Ok(v) => Ok((200, ApiGatewayV2Output::Route(v))),
                Err(e) => Err(from_service_error(e)),
            }
        },
        ApiGatewayV2Request::DeleteRoute => {
            let api_id = match param(path_params, "apiId") {
                Ok(v) => v,
                Err(e) => {
                    return Err(e);
                },
            };
            let route_id = match param(path_params, "routeId") {
                Ok(v) => v,
                Err(e) => {
                    return Err(e);
                },
            };
            let now = now_epoch_seconds();
            match p.delete_route(api_id.as_str(), route_id.as_str(), now) {
                Ok(v) => Ok((204, ApiGatewayV2Output::Empty)),
                Err(e) => Err(from_service_error(e)),
            }
        },
        ApiGatewayV2Request::GetRoutes => {
            let api_id = match param(path_params, "apiId") {
                Ok(v) => v,
                Err(e) => {
                    return Err(e);
                },
            };
            match p.get_routes(api_id.as_str()) {
                Ok(v) => Ok((200, ApiGatewayV2Output::Routes(v))),
                Err(e) => Err(from_service_error(e)),
            }
        },
        _ => {
            proof {
                assert(false);
            }
            Ok((200, ApiGatewayV2Output::Empty))
        },
    }
}

/// Dispatches a request on integrations.
fn dispatch_integrations(
    p: &mut RustackApiGatewayV2,
    req: ApiGatewayV2Request,
    path_params: &Vec<(String, String)>,
    query: &str,
) -> (r: Result<(u16, ApiGatewayV2Output), ApiGatewayV2Error>)
    requires
        old(p).wf(),
        req is CreateIntegration || req is GetIntegration || req is UpdateIntegration || req is DeleteIntegration || req is GetIntegrations,
    ensures
        final(p).wf(),
        match r {
            Ok((s, out)) => s == success_status(req) && output_fits(req, out) && effect(
                req,
                path_params@,
                query@,
                *old(p),
                *final(p),
                out,
            ),
            Err(_) => *final(p) == *old(p),
        },
        match first_missing(path_params@, required_params(req)) {
            Some(n) => r matches Err(e) && e.code == ApiGatewayV2ErrorCode::InternalServerError
                && e.message@ == "Missing path parameter: "@ + n,
            None => body_failure(req) matches Some(t) ==> (r matches Err(e)
                && e.code == ApiGatewayV2ErrorCode::BadRequestException
                && e.message@ == "Invalid request body: "@ + t),
        },
{
    proof {
        reveal_with_fuel(first_missing, 4);
    }
    match req {
        ApiGatewayV2Request::CreateIntegration(b) => {
            let api_id = match param(path_params, "apiId") {
                Ok(v) => v,
                Err(e) => {
                    return Err(e);
                },
            };
            let mut input = match b {
                Ok(i) => i,
                Err(t) => {
                    return Err(invalid_body(t.as_str()));
                },
            };
            input.api_id = api_id;
            let now = now_epoch_seconds();
            match p.create_integration_with(input, generate_id(), now) {
                Ok(v) => Ok((201, ApiGatewayV2Output::Integration(v))),
                Err(e) => Err(from_service_error(e)),
            }
        },
        ApiGatewayV2Request::GetIntegration => {
            let api_id = match param(path_params, "apiId") {
                Ok(v) => v,
                Err(e) => {
                    return Err(e);
                },
            };
            let integration_id = match param(path_params, "integrationId") {
                Ok(v) => v,
                Err(e) => {
                    return Err(e);
                },
            };
            match p.get_integration(api_id.as_str(), integration_id.as_str()) {
                Ok(v) => Ok((200, ApiGatewayV2Output::Integration(v))),
                Err(e) => Err(from_service_error(e)),
            }
        },
        ApiGatewayV2Request::UpdateIntegration(b) => {
            let api_id = match param(path_params, "apiId") {
                Ok(v) => v,
                Err(e) => {
                    return Err(e);
                },
            };
            let integration_id = match param(path_params, "integrationId") {
                Ok(v) => v,
                Err(e) => {
                    return Err(e);
                },
            };
            let mut input = match b {
                Ok(i) => i,
                Err(t) => {
                    return Err(invalid_body(t.as_str()));
                },
            };
            input.api_id = api_id;
            input.integration_id = integration_id;
            let now = now_epoch_seconds();
            match p.update_integration(input, now) {
                Ok(v) => Ok((200, ApiGatewayV2Output::Integration(v))),
                Err(e) => Err(from_service_error(e)),
            }
        },
        ApiGatewayV2Request::DeleteIntegration => {
            let api_id = match param(path_params, "apiId") {
                Ok(v) => v,
                Err(e) => {
                    return Err(e);
                },
            };
            let integration_id = match param(path_params, "integrationId") {
                Ok(v) => v,
                Err(e) => {
                    return Err(e);
                },
            };
            let now = now_epoch_seconds();
            match p.delete_integration(api_id.as_str(), integration_id.as_str(), now) {
                Ok(v) => Ok((204, ApiGatewayV2Output::Empty)),
                Err(e) => Err(from_service_error(e)),
            }
        },
        ApiGatewayV2Request::GetIntegrations => {
            let api_id = match param(path_params, "apiId") {
                Ok(v) => v,
                Err(e) => {
                    return Err(e);
                },
            };
            match p.get_integrations(api_id.as_str()) {
                Ok(v) => Ok((200, ApiGatewayV2Output::Integrations(v))),
                Err(e) => Err(from_service_error(e)),
            }
        },
        _ => {
            proof {
                assert(false);
            }
            Ok((200, ApiGatewayV2Output::Empty))
        },
    }
}

/// Dispatches a request on stages.
fn dispatch_stages(
    p: &mut RustackApiGatewayV2,
    req: ApiGatewayV2Request,
    path_params: &Vec<(String, String)>,
    query: &str,
) -> (r: Result<(u16, ApiGatewayV2Output), ApiGatewayV2Error>)
    requires
        old(p).wf(),
        req is CreateStage || req is GetStage || req is UpdateStage || req is DeleteStage || req is GetStages,
    ensures
        final(p).wf(),
        match r {
            Ok((s, out)) => s == success_status(req) && output_fits(req, out) && effect(
                req,
                path_params@,
                query@,
                *old(p),
                *final(p),
                out,
            ),
            Err(_) => *final(p) == *old(p),
        },
        match first_missing(path_params@, required_params(req)) {
            Some(n) => r matches Err(e) && e.code == ApiGatewayV2ErrorCode::InternalServerError
                && e.message@ == "Missing path parameter: "@ + n,
            None => body_failure(req) matches Some(t) ==> (r matches Err(e)
                && e.code == ApiGatewayV2ErrorCode::BadRequestException
                && e.message@ == "Invalid request body: "@ + t),
        },
{
    proof {
        reveal_with_fuel(first_missing, 4);
    }
    match req {
        ApiGatewayV2Request::CreateStage(b) => {
            let api_id = match param(path_params, "apiId") {
                Ok(v) => v,
                Err(e) => {
                    return Err(e);
                },
            };
            let mut input = match b {
                Ok(i) => i,
                Err(t) => {
                    return Err(invalid_body(t.as_str()));
                },
            };
            input.api_id = api_id;
            let now = now_epoch_seconds();
            match p.create_stage(input, now) {
                Ok(v) => Ok((201, ApiGatewayV2Output::Stage(v))),
                Err(e) => Err(from_service_error(e)),
            }
        },
        ApiGatewayV2Request::GetStage => {
            let api_id = match param(path_params, "apiId") {
                Ok(v) => v,
                Err(e) => {
                    return Err(e);
                },
            };
            let stage_name = match param(path_params, "stageName") {
                Ok(v) => v,
                Err(e) => {
                    return Err(e);
                },
            };
            match p.get_stage(api_id.as_str(), stage_name.as_str()) {
                Ok(v) => Ok((200, ApiGatewayV2Output::Stage(v))),
                Err(e) => Err(from_service_error(e)),
            }
        },
        ApiGatewayV2Request::UpdateStage(b) => {
            let api_id = match param(path_params, "apiId") {
                Ok(v) => v,
                Err(e) => {
                    return Err(e);
                },
            };
            let stage_name = match param(path_params, "stageName") {
                Ok(v) => v,
                Err(e) => {
                    return Err(e);
                },
            };
            let mut input = match b {
                Ok(i) => i,
                Err(t) => {
                    return Err(invalid_body(t.as_str()));
                },
            };
            input.api_id = api_id;
            input.stage_name = stage_name;
            let now = now_epoch_seconds();
            match p.update_stage(input, now) {
                Ok(v) => Ok((200, ApiGatewayV2Output::Stage(v))),
                Err(e) => Err(from_service_error(e)),
            }
        },
        ApiGatewayV2Request::DeleteStage => {
            let api_id = match param(path_params, "apiId") {
                Ok(v) => v,
                Err(e) => {
                    return Err(e);
                },
            };
            let stage_name = match param(path_params, "stageName") {
                Ok(v) => v,
                Err(e) => {
                    return Err(e);
                },
            };
            match p.delete_stage(api_id.as_str(), stage_name.as_str()) {
                Ok(v) => Ok((204, ApiGatewayV2Output::Empty)),
                Err(e) => Err(from_service_error(e)),
            }
        },
        ApiGatewayV2Request::GetStages => {
            let api_id = match param(path_params, "apiId") {
                Ok(v) => v,
                Err(e) => {
                    return Err(e);
                },
            };
            match p.get_stages(api_id.as_str()) {
                Ok(v) => Ok((200, ApiGatewayV2Output::Stages(v))),
                Err(e) => Err(from_service_error(e)),
            }
        },
        _ => {
            proof {
                assert(false);
            }
            Ok((200, ApiGatewayV2Output::Empty))
        },
    }
}

/// Dispatches a request on deployments.
fn dispatch_deployments(
    p: &mut RustackApiGatewayV2,
    req: ApiGatewayV2Request,
    path_params: &Vec<(String, String)>,
    query: &str,
) -> (r: Result<(u16, ApiGatewayV2Output), ApiGatewayV2Error>)
    requires
        old(p).wf(),
        req is CreateDeployment || req is GetDeployment || req is DeleteDeployment || req is GetDeployments,
    ensures
        final(p).wf(),
        match r {
            Ok((s, out)) => s == success_status(req) && output_fits(req, out) && effect(
                req,
                path_params@,
                query@,
                *old(p),
                *final(p),
                out,
            ),
            Err(_) => *final(p) == *old(p),
        },
        match first_missing(path_params@, required_params(req)) {
            Some(n) => r matches Err(e) && e.code == ApiGatewayV2ErrorCode::InternalServerError
                && e.message@ == "Missing path parameter: "@ + n,
            None => body_failure(req) matches Some(t) ==> (r matches Err(e)
                && e.code == ApiGatewayV2ErrorCode::BadRequestException
                && e.message@ == "Invalid request body: "@ + t),
        },
{
    proof {
        reveal_with_fuel(first_missing, 4);
    }
    match req {
        ApiGatewayV2Request::CreateDeployment(b) => {
            let api_id = match param(path_params, "apiId") {
                Ok(v) => v,
                Err(e) => {
                    return Err(e);
                },
            };
            let mut input = match b {
                Ok(i) => i,
                Err(_) => CreateDeploymentInput { api_id: own(""), description: None, stage_name: None },
            };
            input.api_id = api_id;
            let now = now_epoch_seconds();
            match p.create_deployment_with(input, generate_id(), now) {
                Ok(v) => Ok((201, ApiGatewayV2Output::Deployment(v))),
                Err(e) => Err(from_service_error(e)),
            }
        },
        ApiGatewayV2Request::GetDeployment => {
            let api_id = match param(path_params, "apiId") {
                Ok(v) => v,
                Err(e) => {
                    return Err(e);
                },
            };
            let deployment_id = match param(path_params, "deploymentId") {
                Ok(v) => v,
                Err(e) => {
                    return Err(e);
                },
            };
            match p.get_deployment(api_id.as_str(), deployment_id.as_str()) {
                Ok(v) => Ok((200, ApiGatewayV2Output::Deployment(v))),
                Err(e) => Err(from_service_error(e)),
            }
        },
        ApiGatewayV2Request::DeleteDeployment => {
            let api_id = match param(path_params, "apiId") {
                Ok(v) => v,
                Err(e) => {
                    return Err(e);
                },
            };
            let deployment_id = match param(path_params, "deploymentId") {
                Ok(v) => v,
                Err(e) => {
                    return Err(e);
                },
            };
            match p.delete_deployment(api_id.as_str(), deployment_id.as_str()) {
                Ok(v) => Ok((204, ApiGatewayV2Output::Empty)),
                Err(e) => Err(from_service_error(e)),
            }
        },
        ApiGatewayV2Request::GetDeployments => {
            let api_id = match param(path_params, "apiId") {
                Ok(v) => v,
                Err(e) => {
                    return Err(e);
                },
            };
            match p.get_deployments(api_id.as_str()) {
                Ok(v) => Ok((200, ApiGatewayV2Output::Deployments(v))),
                Err(e) => Err(from_service_error(e)),
            }
        },
        _ => {
            proof {
                assert(false);
            }
            Ok((200, ApiGatewayV2Output::Empty))
        },
    }
}

/// Dispatches a request on authorizers.
fn dispatch_authorizers(
    p: &mut RustackApiGatewayV2,
    req: ApiGatewayV2Request,
    path_params: &Vec<(String, String)>,
    query: &str,
) -> (r: Result<(u16, ApiGatewayV2Output), ApiGatewayV2Error>)
    requires
        old(p).wf(),
        req is CreateAuthorizer || req is GetAuthorizer || req is UpdateAuthorizer || req is DeleteAuthorizer || req is GetAuthorizers,
    ensures
        final(p).wf(),
        match r {
            Ok((s, out)) => s == success_status(req) && output_fits(req, out) && effect(
                req,
                path_params@,
                query@,
                *old(p),
                *final(p),
                out,
            ),
            Err(_) => *final(p) == *old(p),
        },
        match first_missing(path_params@, required_params(req)) {
            Some(n) => r matches Err(e) && e.code == ApiGatewayV2ErrorCode::InternalServerError
                && e.message@ == "Missing path parameter: "@ + n,
            None => body_failure(req) matches Some(t) ==> (r matches Err(e)
                && e.code == ApiGatewayV2ErrorCode::BadRequestException
                && e.message@ == "Invalid request body: "@ + t),
        },
{
    proof {
        reveal_with_fuel(first_missing, 4);
    }
    match req {
        ApiGatewayV2Request::CreateAuthorizer(b) => {
            let api_id = match param(path_params, "apiId") {
                Ok(v) => v,
                Err(e) => {
                    return Err(e);
                },
            };
            let mut input = match b {
                Ok(i) => i,
                Err(t) => {
                    return Err(invalid_body(t.as_str()));
                },
            };
            input.api_id = api_id;
            match p.create_authorizer_with(input, generate_id()) {
                Ok(v) => Ok((201, ApiGatewayV2Output::Authorizer(v))),
                Err(e) => Err(from_service_error(e)),
            }
        },
        ApiGatewayV2Request::GetAuthorizer => {
            let api_id = match param(path_params, "apiId") {
                Ok(v) => v,
                Err(e) => {
                    return Err(e);
                },
            };
            let authorizer_id = match param(path_params, "authorizerId") {
                Ok(v) => v,
                Err(e) => {
                    return Err(e);
                },
            };
            match p.get_authorizer(api_id.as_str(), authorizer_id.as_str()) {
                Ok(v) => Ok((200, ApiGatewayV2Output::Authorizer(v))),
                Err(e) => Err(from_service_error(e)),
            }
        },
        ApiGatewayV2Request::UpdateAuthorizer(b) => {
            let api_id = match param(path_params, "apiId") {
                Ok(v) => v,
                Err(e) => {
                    return Err(e);
                },
            };
            let authorizer_id = match param(path_params, "authorizerId") {
                Ok(v) => v,
                Err(e) => {
                    return Err(e);
                },
            };
            let mut input = match b {
                Ok(i) => i,
                Err(t) => {
                    return Err(invalid_body(t.as_str()));
                },
            };
            input.api_id = api_id;
            input.authorizer_id = authorizer_id;
            match p.update_authorizer(input) {
                Ok(v) => Ok((200, ApiGatewayV2Output::Authorizer(v))),
                Err(e) => Err(from_service_error(e)),
            }
        },
        ApiGatewayV2Request::DeleteAuthorizer => {
            let api_id = match param(path_params, "apiId") {
                Ok(v) => v,
                Err(e) => {
                    return Err(e);
                },
            };
            let authorizer_id = match param(path_params, "authorizerId") {
                Ok(v) => v,
                Err(e) => {
                    return Err(e);
                },
            };
            match p.delete_authorizer(api_id.as_str(), authorizer_id.as_str()) {
                Ok(v) => Ok((204, ApiGatewayV2Output::Empty)),
                Err(e) => Err(from_service_error(e)),
            }
        },
        ApiGatewayV2Request::GetAuthorizers => {
            let api_id = match param(path_params, "apiId") {
                Ok(v) => v,
                Err(e) => {
                    return Err(e);
                },
            };
            match p.get_authorizers(api_id.as_str()) {
                Ok(v) => Ok((200, ApiGatewayV2Output::Authorizers(v))),
                Err(e) => Err(from_service_error(e)),
            }
        },
        _ => {
            proof {
                assert(false);
            }
            Ok((200, ApiGatewayV2Output::Empty))
        },
    }
}

/// Dispatches a request on models.
fn dispatch_models(
    p: &mut RustackApiGatewayV2,
    req: ApiGatewayV2Request,
    path_params: &Vec<(String, String)>,
    query: &str,
) -> (r: Result<(u16, ApiGatewayV2Output), ApiGatewayV2Error>)
    requires
        old(p).wf(),
        req is CreateModel || req is GetModel || req is UpdateModel || req is DeleteModel || req is GetModels || req is GetModelTemplate,
    ensures
        final(p).wf(),
        match r {
            Ok((s, out)) => s == success_status(req) && output_fits(req, out) && effect(
                req,
                path_params@,
                query@,
                *old(p),
                *final(p),
                out,
            ),
            Err(_) => *final(p) == *old(p),
        },
        match first_missing(path_params@, required_params(req)) {
            Some(n) => r matches Err(e) && e.code == ApiGatewayV2ErrorCode::InternalServerError
                && e.message@ == "Missing path parameter: "@ + n,
            None => body_failure(req) matches Some(t) ==> (r matches Err(e)
                && e.code == ApiGatewayV2ErrorCode::BadRequestException
                && e.message@ == "Invalid request body: "@ + t),
        },
{
    proof {
        reveal_with_fuel(first_missing, 4);
    }
    match req {
        ApiGatewayV2Request::CreateModel(b) => {
            let api_id = match param(path_params, "apiId") {
                Ok(v) => v,
                Err(e) => {
                    return Err(e);
                },
            };
            let mut input = match b {
                Ok(i) => i,
                Err(t) => {
                    return Err(invalid_body(t.as_str()));
                },
            };
            input.api_id = api_id;
            match p.create_model_with(input, generate_id()) {
                Ok(v) => Ok((201, ApiGatewayV2Output::Model(v))),
                Err(e) => Err(from_service_error(e)),
            }
        },
        ApiGatewayV2Request::GetModel => {
            let api_id = match param(path_params, "apiId") {
                Ok(v) => v,
                Err(e) => {
                    return Err(e);
                },
            };
            let model_id = match param(path_params, "modelId") {
                Ok(v) => v,
                Err(e) => {
                    return Err(e);
                },
            };
            match p.get_model(api_id.as_str(), model_id.as_str()) {
                Ok(v) => Ok((200, ApiGatewayV2Output::Model(v))),
                Err(e) => Err(from_service_error(e)),
            }
        },
        ApiGatewayV2Request::UpdateModel(b) => {
            let api_id = match param(path_params, "apiId") {
                Ok(v) => v,
                Err(e) => {
                    return Err(e);
                },
            };
            let model_id = match param(path_params, "modelId") {
                Ok(v) => v,
                Err(e) => {
                    return Err(e);
                },
            };
            let mut input = match b {
                Ok(i) => i,
                Err(t) => {
                    return Err(invalid_body(t.as_str()));
                },
            };
            input.api_id = api_id;
            input.model_id = model_id;
            match p.update_model(input) {
                Ok(v) => Ok((200, ApiGatewayV2Output::Model(v))),
                Err(e) => Err(from_service_error(e)),
            }
        },
        ApiGatewayV2Request::DeleteModel => {
            let api_id = match param(path_params, "apiId") {
                Ok(v) => v,
                Err(e) => {
                    return Err(e);
                },
            };
            let model_id = match param(path_params, "modelId") {
                Ok(v) => v,
                Err(e) => {
                    return Err(e);
                },
            };
            match p.delete_model(api_id.as_str(), model_id.as_str()) {
                Ok(v) => Ok((204, ApiGatewayV2Output::Empty)),
                Err(e) => Err(from_service_error(e)),
            }
        },
        ApiGatewayV2Request::GetModels => {
            let api_id = match param(path_params, "apiId") {
                Ok(v) => v,
                Err(e) => {
                    return Err(e);
                },
            };
            match p.get_models(api_id.as_str()) {
                Ok(v) => Ok((200, ApiGatewayV2Output::Models(v))),
                Err(e) => Err(from_service_error(e)),
            }
        },
        ApiGatewayV2Request::GetModelTemplate => {
            let api_id = match param(path_params, "apiId") {
                Ok(v) => v,
                Err(e) => {
                    return Err(e);
                },
            };
            let model_id = match param(path_params, "modelId") {
                Ok(v) => v,
                Err(e) => {
                    return Err(e);
                },
            };
            match p.get_model_template(api_id.as_str(), model_id.as_str()) {
                Ok(v) => Ok((200, ApiGatewayV2Output::ModelTemplate(v))),
                Err(e) => Err(from_service_error(e)),
            }
        },
        _ => {
            proof {
                assert(false);
            }
            Ok((200, ApiGatewayV2Output::Empty))
        },
    }
}

/// Dispatches a request on domain names and their API mappings.
fn dispatch_domains(
    p: &mut RustackApiGatewayV2,
    req: ApiGatewayV2Request,
    path_params: &Vec<(String, String)>,
    query: &str,
) -> (r: Result<(u16, ApiGatewayV2Output), ApiGatewayV2Error>)
    requires
        old(p).wf(),
        req is CreateDomainName || req is GetDomainName || req is UpdateDomainName || req is DeleteDomainName || req is GetDomainNames || req is CreateApiMapping || req is GetApiMapping || req is UpdateApiMapping || req is DeleteApiMapping || req is GetApiMappings,
    ensures
        final(p).wf(),
        match r {
            Ok((s, out)) => s == success_status(req) && output_fits(req, out) && effect(
                req,
                path_params@,
                query@,
                *old(p),
                *final(p),
                out,
            ),
            Err(_) => *final(p) == *old(p),
        },
        match first_missing(path_params@, required_params(req)) {
            Some(n) => r matches Err(e) && e.code == ApiGatewayV2ErrorCode::InternalServerError
                && e.message@ == "Missing path parameter: "@ + n,
            None => body_failure(req) matches Some(t) ==> (r matches Err(e)
                && e.code == ApiGatewayV2ErrorCode::BadRequestException
                && e.message@ == "Invalid request body: "@ + t),
        },
{
    proof {
        reveal_with_fuel(first_missing, 4);
    }
    match req {
        ApiGatewayV2Request::CreateDomainName(b) => {
            let input = match b {
                Ok(i) => i,
                Err(t) => {
                    return Err(invalid_body(t.as_str()));
                },
            };
            match p.create_domain_name(input) {
                Ok(v) => Ok((201, ApiGatewayV2Output::DomainName(v))),
                Err(e) => Err(from_service_error(e)),
            }
        },
        ApiGatewayV2Request::GetDomainName => {
            let domain = match param(path_params, "domainName") {
                Ok(v) => v,
                Err(e) => {
                    return Err(e);
                },
            };
            match p.get_domain_name(domain.as_str()) {
                Ok(v) => Ok((200, ApiGatewayV2Output::DomainName(v))),
                Err(e) => Err(from_service_error(e)),
            }
        },
        ApiGatewayV2Request::UpdateDomainName(b) => {
            let domain = match param(path_params, "domainName") {
                Ok(v) => v,
                Err(e) => {
                    return Err(e);
                },
            };
            let mut input = match b {
                Ok(i) => i,
                Err(t) => {
                    return Err(invalid_body(t.as_str()));
                },
            };
            input.domain_name = domain;
            match p.update_domain_name(input) {
                Ok(v) => Ok((200, ApiGatewayV2Output::DomainName(v))),
                Err(e) => Err(from_service_error(e)),
            }
        },
        ApiGatewayV2Request::DeleteDomainName => {
            let domain = match param(path_params, "domainName") {
                Ok(v) => v,
                Err(e) => {
                    return Err(e);
                },
            };
            match p.delete_domain_name(domain.as_str()) {
                Ok(v) => Ok((204, ApiGatewayV2Output::Empty)),
                Err(e) => Err(from_service_error(e)),
            }
        },
        ApiGatewayV2Request::GetDomainNames => {
            let v = p.get_domain_names();
            Ok((200, ApiGatewayV2Output::DomainNames(v)))
        },
        ApiGatewayV2Request::CreateApiMapping(b) => {
            let domain = match param(path_params, "domainName") {
                Ok(v) => v,
                Err(e) => {
                    return Err(e);
                },
            };
            let mut input = match b {
                Ok(i) => i,
                Err(t) => {
                    return Err(invalid_body(t.as_str()));
                },
            };
            input.domain_name = domain;
            match p.create_api_mapping_with(input, generate_id()) {
                Ok(v) => Ok((201, ApiGatewayV2Output::ApiMapping(v))),
                Err(e) => Err(from_service_error(e)),
            }
        },
        ApiGatewayV2Request::GetApiMapping => {
            let domain = match param(path_params, "domainName") {
                Ok(v) => v,
                Err(e) => {
                    return Err(e);
                },
            };
            let mapping_id = match param(path_params, "apiMappingId") {
                Ok(v) => v,
                Err(e) => {
                    return Err(e);
                },
            };
            match p.get_api_mapping(domain.as_str(), mapping_id.as_str()) {
                Ok(v) => Ok((200, ApiGatewayV2Output::ApiMapping(v))),
                Err(e) => Err(from_service_error(e)),
            }
        },
        ApiGatewayV2Request::UpdateApiMapping(b) => {
            let domain = match param(path_params, "domainName") {
                Ok(v) => v,
                Err(e) => {
                    return Err(e);
                },
            };
            let mapping_id = match param(path_params, "apiMappingId") {
                Ok(v) => v,
                Err(e) => {
                    return Err(e);
                },
            };
            let mut input = match b {
                Ok(i) => i,
                Err(t) => {
                    return Err(invalid_body(t.as_str()));
                },
            };
            input.domain_name = domain;
            input.api_mapping_id = mapping_id;
            match p.update_api_mapping(input) {
                Ok(v) => Ok((200, ApiGatewayV2Output::ApiMapping(v))),
                Err(e) => Err(from_service_error(e)),
            }
        },
        ApiGatewayV2Request::DeleteApiMapping => {
            let domain = match param(path_params, "domainName") {
                Ok(v) => v,
                Err(e) => {
                    return Err(e);
                },
            };
            let mapping_id = match param(path_params, "apiMappingId") {
                Ok(v) => v,
                Err(e) => {
                    return Err(e);
                },
            };
            match p.delete_api_mapping(domain.as_str(), mapping_id.as_str()) {
                Ok(v) => Ok((204, ApiGatewayV2Output::Empty)),
                Err(e) => Err(from_service_error(e)),
            }
        },
        ApiGatewayV2Request::GetApiMappings => {
            let domain = match param(path_params, "domainName") {
                Ok(v) => v,
                Err(e) => {
                    return Err(e);
                },
            };
            match p.get_api_mappings(domain.as_str()) {
                Ok(v) => Ok((200, ApiGatewayV2Output::ApiMappings(v))),
                Err(e) => Err(from_service_error(e)),
            }
        },
        _ => {
            proof {
                assert(false);
            }
            Ok((200, ApiGatewayV2Output::Empty))
        },
    }
}

/// Dispatches a request on VPC links.
fn dispatch_vpc_links(
    p: &mut RustackApiGatewayV2,
    req: ApiGatewayV2Request,
    path_params: &Vec<(String, String)>,
    query: &str,
) -> (r: Result<(u16, ApiGatewayV2Output), ApiGatewayV2Error>)
    requires
        old(p).wf(),
        req is CreateVpcLink || req is GetVpcLink || req is UpdateVpcLink || req is DeleteVpcLink || req is GetVpcLinks,
    ensures
        final(p).wf(),
        match r {
            Ok((s, out)) => s == success_status(req) && output_fits(req, out) && effect(
                req,
                path_params@,
                query@,
                *old(p),
                *final(p),
                out,
            ),
            Err(_) => *final(p) == *old(p),
        },
        match first_missing(path_params@, required_params(req)) {
            Some(n) => r matches Err(e) && e.code == ApiGatewayV2ErrorCode::InternalServerError
                && e.message@ == "Missing path parameter: "@ + n,
            None => body_failure(req) matches Some(t) ==> (r matches Err(e)
                && e.code == ApiGatewayV2ErrorCode::BadRequestException
                && e.message@ == "Invalid request body: "@ + t),
        },
{
    proof {
        reveal_with_fuel(first_missing, 4);
    }
    match req {
        ApiGatewayV2Request::CreateVpcLink(b) => {
            let input = match b {
                Ok(i) => i,
                Err(t) => {
                    return Err(invalid_body(t.as_str()));
                },
            };
            let now = now_epoch_seconds();
            let v = p.create_vpc_link_with(input, generate_id(), now);
            Ok((201, ApiGatewayV2Output::VpcLink(v)))
        },
        ApiGatewayV2Request::GetVpcLink => {
            let id = match param(path_params, "vpcLinkId") {
                Ok(v) => v,
                Err(e) => {
                    return Err(e);
                },
            };
            match p.get_vpc_link(id.as_str()) {
                Ok(v) => Ok((200, ApiGatewayV2Output::VpcLink(v))),
                Err(e) => Err(from_service_error(e)),
            }
        },
        ApiGatewayV2Request::UpdateVpcLink(b) => {
            let id = match param(path_params, "vpcLinkId") {
                Ok(v) => v,
                Err(e) => {
                    return Err(e);
                },
            };
            let name = match b {
                Ok(i) => i,
                Err(t) => {
                    return Err(invalid_body(t.as_str()));
                },
            };
            match p.update_vpc_link(id.as_str(), name) {
                Ok(v) => Ok((200, ApiGatewayV2Output::VpcLink(v))),
                Err(e) => Err(from_service_error(e)),
            }
        },
        ApiGatewayV2Request::DeleteVpcLink => {
            let id = match param(path_params, "vpcLinkId") {
                Ok(v) => v,
                Err(e) => {
                    return Err(e);
                },
            };
            match p.delete_vpc_link(id.as_str()) {
                Ok(v) => Ok((202, ApiGatewayV2Output::Empty)),
                Err(e) => Err(from_service_error(e)),
            }
        },
        ApiGatewayV2Request::GetVpcLinks => {
            let v = p.get_vpc_links();
            Ok((200, ApiGatewayV2Output::VpcLinks(v)))
        },
        _ => {
            proof {
                assert(false);
            }
            Ok((200, ApiGatewayV2Output::Empty))
        },
    }
}

/// Dispatches a request on route responses.
fn dispatch_route_responses(
    p: &mut RustackApiGatewayV2,
    req: ApiGatewayV2Request,
    path_params: &Vec<(String, String)>,
    query: &str,
) -> (r: Result<(u16, ApiGatewayV2Output), ApiGatewayV2Error>)
    requires
        old(p).wf(),
        req is CreateRouteResponse || req is GetRouteResponse || req is DeleteRouteResponse || req is GetRouteResponses,
    ensures
        final(p).wf(),
        match r {
            Ok((s, out)) => s == success_status(req) && output_fits(req, out) && effect(
                req,
                path_params@,
                query@,
                *old(p),
                *final(p),
                out,
            ),
            Err(_) => *final(p) == *old(p),
        },
        match first_missing(path_params@, required_params(req)) {
            Some(n) => r matches Err(e) && e.code == ApiGatewayV2ErrorCode::InternalServerError
                && e.message@ == "Missing path parameter: "@ + n,
            None => body_failure(req) matches Some(t) ==> (r matches Err(e)
                && e.code == ApiGatewayV2ErrorCode::BadRequestException
                && e.message@ == "Invalid request body: "@ + t),
        },
{
    proof {
        reveal_with_fuel(first_missing, 4);
    }
    match req {
        ApiGatewayV2Request::CreateRouteResponse(b) => {
            let api_id = match param(path_params, "apiId") {
                Ok(v) => v,
                Err(e) => {
                    return Err(e);
                },
            };
            let route_id = match param(path_params, "routeId") {
                Ok(v) => v,
                Err(e) => {
                    return Err(e);
                },
            };
            let input = match b {
                Ok(i) => i,
                Err(t) => {
                    return Err(invalid_body(t.as_str()));
                },
            };
            match p.create_route_response_with(api_id.as_str(), route_id.as_str(), input.route_response_key, input.model_selection_expression, generate_id()) {
                Ok(v) => Ok((201, ApiGatewayV2Output::RouteResponse(v))),
                Err(e) => Err(from_service_error(e)),
            }
        },
        ApiGatewayV2Request::GetRouteResponse => {
            let api_id = match param(path_params, "apiId") {
                Ok(v) => v,
                Err(e) => {
                    return Err(e);
                },
            };
            let route_id = match param(path_params, "routeId") {
                Ok(v) => v,
                Err(e) => {
                    return Err(e);
                },
            };
            let rr_id = match param(path_params, "routeResponseId") {
                Ok(v) => v,
                Err(e) => {
                    return Err(e);
                },
            };
            match p.get_route_response(api_id.as_str(), route_id.as_str(), rr_id.as_str()) {
                Ok(v) => Ok((200, ApiGatewayV2Output::RouteResponse(v))),
                Err(e) => Err(from_service_error(e)),
            }
        },
        ApiGatewayV2Request::DeleteRouteResponse => {
            let api_id = match param(path_params, "apiId") {
                Ok(v) => v,
                Err(e) => {
                    return Err(e);
                },
            };
            let route_id = match param(path_params, "routeId") {
                Ok(v) => v,
                Err(e) => {
                    return Err(e);
                },
            };
            let rr_id = match param(path_params, "routeResponseId") {
                Ok(v) => v,
                Err(e) => {
                    return Err(e);
                },
            };
            match p.delete_route_response(api_id.as_str(), route_id.as_str(), rr_id.as_str()) {
                Ok(v) => Ok((204, ApiGatewayV2Output::Empty)),
                Err(e) => Err(from_service_error(e)),
            }
        },
        ApiGatewayV2Request::GetRouteResponses => {
            let api_id = match param(path_params, "apiId") {
                Ok(v) => v,
                Err(e) => {
                    return Err(e);
                },
            };
            let route_id = match param(path_params, "routeId") {
                Ok(v) => v,
                Err(e) => {
                    return Err(e);
                },
            };
            match p.get_route_responses(api_id.as_str(), route_id.as_str()) {
                Ok(v) => Ok((200, ApiGatewayV2Output::RouteResponses(v))),
                Err(e) => Err(from_service_error(e)),
            }
        },
        _ => {
            proof {
                assert(false);
            }
            Ok((200, ApiGatewayV2Output::Empty))
        },
    }
}

/// Dispatches a request on tags.
fn dispatch_tags(
    p: &mut RustackApiGatewayV2,
    req: ApiGatewayV2Request,
    path_params: &Vec<(String, String)>,
    query: &str,
) -> (r: Result<(u16, ApiGatewayV2Output), ApiGatewayV2Error>)
    requires
        old(p).wf(),
        req is TagResource || req is GetTags,
    ensures
        final(p).wf(),
        match r {
            Ok((s, out)) => s == success_status(req) && output_fits(req, out) && effect(
                req,
                path_params@,
                query@,
                *old(p),
                *final(p),
                out,
            ),
            Err(_) => *final(p) == *old(p),
        },
        match first_missing(path_params@, required_params(req)) {
            Some(n) => r matches Err(e) && e.code == ApiGatewayV2ErrorCode::InternalServerError
                && e.message@ == "Missing path parameter: "@ + n,
            None => body_failure(req) matches Some(t) ==> (r matches Err(e)
                && e.code == ApiGatewayV2ErrorCode::BadRequestException
                && e.message@ == "Invalid request body: "@ + t),
        },
{
    proof {
        reveal_with_fuel(first_missing, 4);
    }
    match req {
        ApiGatewayV2Request::TagResource(b) => {
            let arn = match param(path_params, "resource-arn") {
                Ok(v) => v,
                Err(e) => {
                    return Err(e);
                },
            };
            let mut tags = match b {
                Ok(i) => i,
                Err(t) => {
                    return Err(invalid_body(t.as_str()));
                },
            };
            p.tag_resource(&arn, &tags);
            Ok((201, ApiGatewayV2Output::Empty))
        },
        ApiGatewayV2Request::GetTags => {
            let arn = match param(path_params, "resource-arn") {
                Ok(v) => v,
                Err(e) => {
                    return Err(e);
                },
            };
            let v = p.get_tags(arn.as_str());
            Ok((200, ApiGatewayV2Output::Tags(v)))
        },
        _ => {
            proof {
                assert(false);
            }
            Ok((200, ApiGatewayV2Output::Empty))
        },
    }
}

/// Dispatches a management request to the provider, with the request's
/// path parameters and query string, and gives the status and answer.
pub fn dispatch(
    p: &mut RustackApiGatewayV2,
    req: ApiGatewayV2Request,
    path_params: &Vec<(String, String)>,
    query: &str,
) -> (r: Result<(u16, ApiGatewayV2Output), ApiGatewayV2Error>)
    requires
        old(p).wf(),
    ensures
        final(p).wf(),
        match r {
            Ok((s, out)) => s == success_status(req) && output_fits(req, out) && effect(
                req,
                path_params@,
                query@,
                *old(p),
                *final(p),
                out,
            ),
            Err(_) => *final(p) == *old(p),
        },
        match first_missing(path_params@, required_params(req)) {
            Some(n) => r matches Err(e) && e.code == ApiGatewayV2ErrorCode::InternalServerError
                && e.message@ == "Missing path parameter: "@ + n,
            None => body_failure(req) matches Some(t) ==> (r matches Err(e)
                && e.code == ApiGatewayV2ErrorCode::BadRequestException
                && e.message@ == "Invalid request body: "@ + t),
        },
{
    match &req {
        ApiGatewayV2Request::CreateApi(_) => dispatch_apis(p, req, path_params, query),
        ApiGatewayV2Request::GetApi => dispatch_apis(p, req, path_params, query),
        ApiGatewayV2Request::UpdateApi(_) => dispatch_apis(p, req, path_params, query),
        ApiGatewayV2Request::DeleteApi => dispatch_apis(p, req, path_params, query),
        ApiGatewayV2Request::GetApis => dispatch_apis(p, req, path_params, query),
        ApiGatewayV2Request::UntagResource => dispatch_apis(p, req, path_params, query),
        ApiGatewayV2Request::CreateRoute(_) => dispatch_routes(p, req, path_params, query),
        ApiGatewayV2Request::GetRoute => dispatch_routes(p, req, path_params, query),
        ApiGatewayV2Request::UpdateRoute(_) => dispatch_routes(p, req, path_params, query),
        ApiGatewayV2Request::DeleteRoute => dispatch_routes(p, req, path_params, query),
        ApiGatewayV2Request::GetRoutes => dispatch_routes(p, req, path_params, query),
        ApiGatewayV2Request::CreateIntegration(_) => dispatch_integrations(p, req, path_params, query),
        ApiGatewayV2Request::GetIntegration => dispatch_integrations(p, req, path_params, query),
        ApiGatewayV2Request::UpdateIntegration(_) => dispatch_integrations(p, req, path_params, query),
        ApiGatewayV2Request::DeleteIntegration => dispatch_integrations(p, req, path_params, query),
        ApiGatewayV2Request::GetIntegrations => dispatch_integrations(p, req, path_params, query),
        ApiGatewayV2Request::CreateStage(_) => dispatch_stages(p, req, path_params, query),
        ApiGatewayV2Request::GetStage => dispatch_stages(p, req, path_params, query),
        ApiGatewayV2Request::UpdateStage(_) => dispatch_stages(p, req, path_params, query),
        ApiGatewayV2Request::DeleteStage => dispatch_stages(p, req, path_params, query),
        ApiGatewayV2Request::GetStages => dispatch_stages(p, req, path_params, query),
        ApiGatewayV2Request::CreateDeployment(_) => dispatch_deployments(p, req, path_params, query),
        ApiGatewayV2Request::GetDeployment => dispatch_deployments(p, req, path_params, query),
        ApiGatewayV2Request::DeleteDeployment => dispatch_deployments(p, req, path_params, query),
        ApiGatewayV2Request::GetDeployments => dispatch_deployments(p, req, path_params, query),
        ApiGatewayV2Request::CreateAuthorizer(_) => dispatch_authorizers(p, req, path_params, query),
        ApiGatewayV2Request::GetAuthorizer => dispatch_authorizers(p, req, path_params, query),
        ApiGatewayV2Request::UpdateAuthorizer(_) => dispatch_authorizers(p, req, path_params, query),
        ApiGatewayV2Request::DeleteAuthorizer => dispatch_authorizers(p, req, path_params, query),
        ApiGatewayV2Request::GetAuthorizers => dispatch_authorizers(p, req, path_params, query),
        ApiGatewayV2Request::CreateModel(_) => dispatch_models(p, req, path_params, query),
        ApiGatewayV2Request::GetModel => dispatch_models(p, req, path_params, query),
        ApiGatewayV2Request::UpdateModel(_) => dispatch_models(p, req, path_params, query),
        ApiGatewayV2Request::DeleteModel => dispatch_models(p, req, path_params, query),
        ApiGatewayV2Request::GetModels => dispatch_models(p, req, path_params, query),
        ApiGatewayV2Request::GetModelTemplate => dispatch_models(p, req, path_params, query),
        ApiGatewayV2Request::CreateDomainName(_) => dispatch_domains(p, req, path_params, query),
        ApiGatewayV2Request::GetDomainName => dispatch_domains(p, req, path_params, query),
        ApiGatewayV2Request::UpdateDomainName(_) => dispatch_domains(p, req, path_params, query),
        ApiGatewayV2Request::DeleteDomainName => dispatch_domains(p, req, path_params, query),
        ApiGatewayV2Request::GetDomainNames => dispatch_domains(p, req, path_params, query),
        ApiGatewayV2Request::CreateApiMapping(_) => dispatch_domains(p, req, path_params, query),
        ApiGatewayV2Request::GetApiMapping => dispatch_domains(p, req, path_params, query),
        ApiGatewayV2Request::UpdateApiMapping(_) => dispatch_domains(p, req, path_params, query),
        ApiGatewayV2Request::DeleteApiMapping => dispatch_domains(p, req, path_params, query),
        ApiGatewayV2Request::GetApiMappings => dispatch_domains(p, req, path_params, query),
        ApiGatewayV2Request::CreateVpcLink(_) => dispatch_vpc_links(p, req, path_params, query),
        ApiGatewayV2Request::GetVpcLink => dispatch_vpc_links(p, req, path_params, query),
        ApiGatewayV2Request::UpdateVpcLink(_) => dispatch_vpc_links(p, req, path_params, query),
        ApiGatewayV2Request::DeleteVpcLink => dispatch_vpc_links(p, req, path_params, query),
        ApiGatewayV2Request::GetVpcLinks => dispatch_vpc_links(p, req, path_params, query),
        ApiGatewayV2Request::CreateRouteResponse(_) => dispatch_route_responses(p, req, path_params, query),
        ApiGatewayV2Request::GetRouteResponse => dispatch_route_responses(p, req, path_params, query),
        ApiGatewayV2Request::DeleteRouteResponse => dispatch_route_responses(p, req, path_params, query),
        ApiGatewayV2Request::GetRouteResponses => dispatch_route_responses(p, req, path_params, query),
        ApiGatewayV2Request::TagResource(_) => dispatch_tags(p, req, path_params, query),
        ApiGatewayV2Request::GetTags => dispatch_tags(p, req, path_params, query),
    }
}

} // verus!
