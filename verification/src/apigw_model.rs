//! API Gateway v2 responses whose fields are plain values.

use vstd::prelude::*;

verus! {

/// ApiGatewayV2 CreateApiMappingResponse.
#[derive(Debug, Clone, Default)]
pub struct CreateApiMappingResponse {
    pub api_id: Option<String>,
    pub api_mapping_id: Option<String>,
    pub api_mapping_key: Option<String>,
    pub stage: Option<String>,
}

/// ApiGatewayV2 GetApiMappingResponse.
#[derive(Debug, Clone, Default)]
pub struct GetApiMappingResponse {
    pub api_id: Option<String>,
    pub api_mapping_id: Option<String>,
    pub api_mapping_key: Option<String>,
    pub stage: Option<String>,
}

/// ApiGatewayV2 UpdateApiMappingResponse.
#[derive(Debug, Clone, Default)]
pub struct UpdateApiMappingResponse {
    pub api_id: Option<String>,
    pub api_mapping_id: Option<String>,
    pub api_mapping_key: Option<String>,
    pub stage: Option<String>,
}

/// ApiGatewayV2 CreateModelResponse.
#[derive(Debug, Clone, Default)]
pub struct CreateModelResponse {
    pub content_type: Option<String>,
    pub description: Option<String>,
    pub model_id: Option<String>,
    pub name: Option<String>,
    pub schema: Option<String>,
}

/// ApiGatewayV2 GetModelResponse.
#[derive(Debug, Clone, Default)]
pub struct GetModelResponse {
    pub content_type: Option<String>,
    pub description: Option<String>,
    pub model_id: Option<String>,
    pub name: Option<String>,
    pub schema: Option<String>,
}

/// ApiGatewayV2 UpdateModelResponse.
#[derive(Debug, Clone, Default)]
pub struct UpdateModelResponse {
    pub content_type: Option<String>,
    pub description: Option<String>,
    pub model_id: Option<String>,
    pub name: Option<String>,
    pub schema: Option<String>,
}

/// ApiGatewayV2 GetModelTemplateResponse.
#[derive(Debug, Clone, Default)]
pub struct GetModelTemplateResponse {
    pub value: Option<String>,
}

/// ApiGatewayV2 GetTagsResponse: the tags as (key, value) pairs.
#[derive(Debug, Clone, Default)]
pub struct GetTagsResponse {
    pub tags: Vec<(String, String)>,
}

/// ApiGatewayV2 DeleteVpcLinkResponse.
#[derive(Debug, Clone, Default)]
pub struct DeleteVpcLinkResponse {}

/// ApiGatewayV2 TagResourceResponse.
#[derive(Debug, Clone, Default)]
pub struct TagResourceResponse {}

} // verus!
