//! Verified core logic of a local AWS-compatible service emulator: DynamoDB
//! Streams storage and API, CloudWatch metric and dashboard stores, the
//! CloudFront XML request tree and the configurations read from it, the
//! CloudFront data plane's decisions, the gateway's request routing, the API
//! Gateway v2 control plane, and the Smithy-model code generator.

pub mod text;
pub mod streams_model;
pub mod dynamodb_stream;
pub mod streams_iterator;
pub mod seqs;
pub mod streams_store;
pub mod streams_config;
pub mod streams_provider;
pub mod streams_router;
pub mod cloudwatch_model;
pub mod cloudwatch_metrics;
pub mod cloudwatch_stores;
pub mod cloudwatch_router;
pub mod fields;
pub mod gateway;
pub mod routing;
pub mod apigw;
pub mod apigw_model;
pub mod apigw_json;
pub mod apigw_store;
pub mod apigw_records;
pub mod apigw_provider;
pub mod apigw_dispatch;
pub mod xml_tree;
pub mod cloudfront_model;
pub mod cloudfront_request;
pub mod cloudfront_query;
pub mod dataplane;
pub mod errors;
pub mod codegen_config;
pub mod codegen_model;
pub mod codegen_shapes;
pub mod codegen;
