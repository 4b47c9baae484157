//! CloudFront configuration values as request bodies carry them: the
//! distribution configuration with its origins and cache behaviors, and the
//! configurations of the other CloudFront resources.

use vstd::prelude::*;

verus! {

/// A header that CloudFront adds to requests to an origin.
#[derive(Clone, Debug, PartialEq, Eq)]
pub struct CustomHeader {
    pub header_name: String,
    pub header_value: String,
}

/// How CloudFront reaches an S3 origin.
#[derive(Clone, Debug, PartialEq, Eq)]
pub struct S3OriginConfig {
    pub origin_access_identity: String,
}

/// How CloudFront reaches a custom (HTTP) origin.
#[derive(Clone, Debug, PartialEq, Eq)]
pub struct CustomOriginConfig {
    pub http_port: i32,
    pub https_port: i32,
    pub origin_protocol_policy: String,
    pub origin_ssl_protocols: Vec<String>,
    pub origin_read_timeout: i32,
    pub origin_keepalive_timeout: i32,
}

/// The Origin Shield settings of an origin.
#[derive(Clone, Debug, PartialEq, Eq)]
pub struct OriginShield {
    pub enabled: bool,
    pub origin_shield_region: String,
}

/// An origin of a distribution.
#[derive(Clone, Debug, PartialEq, Eq)]
pub struct Origin {
    pub id: String,
    pub domain_name: String,
    pub origin_path: String,
    pub custom_headers: Vec<CustomHeader>,
    pub s3_origin_config: Option<S3OriginConfig>,
    pub custom_origin_config: Option<CustomOriginConfig>,
    pub connection_attempts: i32,
    pub connection_timeout: i32,
    pub origin_shield: Option<OriginShield>,
    pub origin_access_control_id: String,
}

/// A group of origins with failover between them.
#[derive(Clone, Debug, PartialEq, Eq)]
pub struct OriginGroup {
    pub id: String,
    pub failover_status_codes: Vec<i32>,
    pub member_origins: Vec<String>,
    pub selection_criteria: String,
}

/// A Lambda@Edge function attached to a cache behavior.
#[derive(Clone, Debug, PartialEq, Eq)]
pub struct LambdaFunctionAssociation {
    pub lambda_function_arn: String,
    pub event_type: String,
    pub include_body: bool,
}

/// A CloudFront function attached to a cache behavior.
#[derive(Clone, Debug, PartialEq, Eq)]
pub struct FunctionAssociation {
    pub function_arn: String,
    pub event_type: String,
}

/// Which cookies are forwarded to the origin.
#[derive(Clone, Debug, PartialEq, Eq)]
pub struct CookiePreference {
    pub forward: String,
    pub whitelisted_names: Vec<String>,
}

impl Default for CookiePreference {
    fn default() -> (r: Self)
        ensures
            r.forward@ == Seq::<char>::empty(),
            r.whitelisted_names@.len() == 0,
    {
        CookiePreference { forward: String::new(), whitelisted_names: Vec::new() }
    }
}

/// The legacy forwarding settings of a cache behavior.
#[derive(Clone, Debug, PartialEq, Eq)]
pub struct ForwardedValues {
    pub query_string: bool,
    pub cookies: CookiePreference,
    pub headers: Vec<String>,
    pub query_string_cache_keys: Vec<String>,
}

/// How CloudFront handles requests that match a path pattern.
#[derive(Clone, Debug, PartialEq, Eq)]
pub struct CacheBehavior {
    pub path_pattern: String,
    pub target_origin_id: String,
    pub viewer_protocol_policy: String,
    pub allowed_methods: Vec<String>,
    pub cached_methods: Vec<String>,
    pub smooth_streaming: bool,
    pub compress: bool,
    pub field_level_encryption_id: String,
    pub realtime_log_config_arn: String,
    pub cache_policy_id: String,
    pub origin_request_policy_id: String,
    pub response_headers_policy_id: String,
    pub grpc_enabled: bool,
    pub trusted_signers: Vec<String>,
    pub trusted_signers_enabled: bool,
    pub trusted_key_groups: Vec<String>,
    pub trusted_key_groups_enabled: bool,
    pub lambda_function_associations: Vec<LambdaFunctionAssociation>,
    pub function_associations: Vec<FunctionAssociation>,
    pub forwarded_values: Option<ForwardedValues>,
    pub min_ttl: i64,
    pub default_ttl: i64,
    pub max_ttl: i64,
}

/// A cache behavior with every field empty, false or zero.
pub open spec fn blank_cache_behavior(b: CacheBehavior) -> bool {
    &&& b.path_pattern@ == Seq::<char>::empty()
    &&& b.target_origin_id@ == Seq::<char>::empty()
    &&& b.viewer_protocol_policy@ == Seq::<char>::empty()
    &&& b.allowed_methods@.len() == 0
    &&& b.cached_methods@.len() == 0
    &&& !b.smooth_streaming
    &&& !b.compress
    &&& b.field_level_encryption_id@ == Seq::<char>::empty()
    &&& b.realtime_log_config_arn@ == Seq::<char>::empty()
    &&& b.cache_policy_id@ == Seq::<char>::empty()
    &&& b.origin_request_policy_id@ == Seq::<char>::empty()
    &&& b.response_headers_policy_id@ == Seq::<char>::empty()
    &&& !b.grpc_enabled
    &&& b.trusted_signers@.len() == 0
    &&& !b.trusted_signers_enabled
    &&& b.trusted_key_groups@.len() == 0
    &&& !b.trusted_key_groups_enabled
    &&& b.lambda_function_associations@.len() == 0
    &&& b.function_associations@.len() == 0
    &&& b.forwarded_values is None
    &&& b.min_ttl == 0
    &&& b.default_ttl == 0
    &&& b.max_ttl == 0
}

impl Default for CacheBehavior {
    fn default() -> (r: Self)
        ensures
            blank_cache_behavior(r),
    {
        CacheBehavior {
            path_pattern: String::new(),
            target_origin_id: String::new(),
            viewer_protocol_policy: String::new(),
            allowed_methods: Vec::new(),
            cached_methods: Vec::new(),
            smooth_streaming: false,
            compress: false,
            field_level_encryption_id: String::new(),
            realtime_log_config_arn: String::new(),
            cache_policy_id: String::new(),
            origin_request_policy_id: String::new(),
            response_headers_policy_id: String::new(),
            grpc_enabled: false,
            trusted_signers: Vec::new(),
            trusted_signers_enabled: false,
            trusted_key_groups: Vec::new(),
            trusted_key_groups_enabled: false,
            lambda_function_associations: Vec::new(),
            function_associations: Vec::new(),
            forwarded_values: None,
            min_ttl: 0,
            default_ttl: 0,
            max_ttl: 0,
        }
    }
}

/// A custom error page of a distribution.
#[derive(Clone, Debug, PartialEq, Eq)]
pub struct CustomErrorResponse {
    pub error_code: i32,
    pub response_page_path: String,
    pub response_code: String,
    pub error_caching_min_ttl: i64,
}

/// The access-log settings of a distribution.
#[derive(Clone, Debug, PartialEq, Eq)]
pub struct LoggingConfig {
    pub enabled: bool,
    pub include_cookies: bool,
    pub bucket: String,
    pub prefix: String,
}

impl Default for LoggingConfig {
    fn default() -> (r: Self)
        ensures
            !r.enabled,
            !r.include_cookies,
            r.bucket@ == Seq::<char>::empty(),
            r.prefix@ == Seq::<char>::empty(),
    {
        LoggingConfig {
            enabled: false,
            include_cookies: false,
            bucket: String::new(),
            prefix: String::new(),
        }
    }
}

/// The TLS certificate settings of a distribution.
#[derive(Clone, Debug, PartialEq, Eq)]
pub struct ViewerCertificate {
    pub cloud_front_default_certificate: bool,
    pub acm_certificate_arn: String,
    pub iam_certificate_id: String,
    pub minimum_protocol_version: String,
    pub ssl_support_method: String,
    pub certificate: String,
    pub certificate_source: String,
}

/// A viewer certificate with every field empty or false.
pub open spec fn blank_viewer_certificate(v: ViewerCertificate) -> bool {
    &&& !v.cloud_front_default_certificate
    &&& v.acm_certificate_arn@ == Seq::<char>::empty()
    &&& v.iam_certificate_id@ == Seq::<char>::empty()
    &&& v.minimum_protocol_version@ == Seq::<char>::empty()
    &&& v.ssl_support_method@ == Seq::<char>::empty()
    &&& v.certificate@ == Seq::<char>::empty()
    &&& v.certificate_source@ == Seq::<char>::empty()
}

impl Default for ViewerCertificate {
    fn default() -> (r: Self)
        ensures
            blank_viewer_certificate(r),
    {
        ViewerCertificate {
            cloud_front_default_certificate: false,
            acm_certificate_arn: String::new(),
            iam_certificate_id: String::new(),
            minimum_protocol_version: String::new(),
            ssl_support_method: String::new(),
            certificate: String::new(),
            certificate_source: String::new(),
        }
    }
}

/// Which countries may or may not receive content.
#[derive(Clone, Debug, PartialEq, Eq)]
pub struct GeoRestriction {
    pub restriction_type: String,
    pub locations: Vec<String>,
}

impl Default for GeoRestriction {
    fn default() -> (r: Self)
        ensures
            r.restriction_type@ == Seq::<char>::empty(),
            r.locations@.len() == 0,
    {
        GeoRestriction { restriction_type: String::new(), locations: Vec::new() }
    }
}

/// The restrictions of a distribution.
#[derive(Clone, Debug, PartialEq, Eq)]
pub struct Restrictions {
    pub geo_restriction: GeoRestriction,
}

impl Default for Restrictions {
    fn default() -> (r: Self)
        ensures
            r.geo_restriction.restriction_type@ == Seq::<char>::empty(),
            r.geo_restriction.locations@.len() == 0,
    {
        Restrictions { geo_restriction: GeoRestriction::default() }
    }
}

/// The configuration of a distribution.
#[derive(Clone, Debug, PartialEq, Eq)]
pub struct DistributionConfig {
    pub caller_reference: String,
    pub aliases: Vec<String>,
    pub default_root_object: String,
    pub origins: Vec<Origin>,
    pub origin_groups: Vec<OriginGroup>,
    pub default_cache_behavior: CacheBehavior,
    pub cache_behaviors: Vec<CacheBehavior>,
    pub custom_error_responses: Vec<CustomErrorResponse>,
    pub comment: String,
    pub logging: LoggingConfig,
    pub price_class: String,
    pub enabled: bool,
    pub viewer_certificate: ViewerCertificate,
    pub restrictions: Restrictions,
    pub web_acl_id: String,
    pub http_version: String,
    pub is_ipv6_enabled: bool,
    pub continuous_deployment_policy_id: String,
    pub staging: bool,
    pub anycast_ip_list_id: String,
    pub connection_mode: String,
}

/// The paths of an invalidation.
#[derive(Clone, Debug, PartialEq, Eq)]
pub struct InvalidationBatch {
    pub paths: Vec<String>,
    pub caller_reference: String,
}

/// The configuration of an origin access control.
#[derive(Clone, Debug, PartialEq, Eq)]
pub struct OriginAccessControlConfig {
    pub name: String,
    pub description: String,
    pub signing_protocol: String,
    pub signing_behavior: String,
    pub origin_access_control_origin_type: String,
}

/// The configuration of an origin access identity.
#[derive(Clone, Debug, PartialEq, Eq)]
pub struct CloudFrontOriginAccessIdentityConfig {
    pub caller_reference: String,
    pub comment: String,
}

/// Which headers a cache policy puts in the cache key.
#[derive(Clone, Debug, PartialEq, Eq)]
pub struct CachePolicyHeadersConfig {
    pub header_behavior: String,
    pub headers: Vec<String>,
}

impl Default for CachePolicyHeadersConfig {
    fn default() -> (r: Self)
        ensures
            r.header_behavior@ == Seq::<char>::empty(),
            r.headers@.len() == 0,
    {
        CachePolicyHeadersConfig { header_behavior: String::new(), headers: Vec::new() }
    }
}

/// Which cookies a cache policy puts in the cache key.
#[derive(Clone, Debug, PartialEq, Eq)]
pub struct CachePolicyCookiesConfig {
    pub cookie_behavior: String,
    pub cookies: Vec<String>,
}

impl Default for CachePolicyCookiesConfig {
    fn default() -> (r: Self)
        ensures
            r.cookie_behavior@ == Seq::<char>::empty(),
            r.cookies@.len() == 0,
    {
        CachePolicyCookiesConfig { cookie_behavior: String::new(), cookies: Vec::new() }
    }
}

/// Which query strings a cache policy puts in the cache key.
#[derive(Clone, Debug, PartialEq, Eq)]
pub struct CachePolicyQueryStringsConfig {
    pub query_string_behavior: String,
    pub query_strings: Vec<String>,
}

impl Default for CachePolicyQueryStringsConfig {
    fn default() -> (r: Self)
        ensures
            r.query_string_behavior@ == Seq::<char>::empty(),
            r.query_strings@.len() == 0,
    {
        CachePolicyQueryStringsConfig { query_string_behavior: String::new(), query_strings: Vec::new() }
    }
}

/// What a cache policy puts in the cache key and forwards to the origin.
#[derive(Clone, Debug, PartialEq, Eq)]
pub struct ParamsInCacheKey {
    pub enable_accept_encoding_gzip: bool,
    pub enable_accept_encoding_brotli: bool,
    pub headers_config: CachePolicyHeadersConfig,
    pub cookies_config: CachePolicyCookiesConfig,
    pub query_strings_config: CachePolicyQueryStringsConfig,
}

/// The configuration of a cache policy.
#[derive(Clone, Debug, PartialEq, Eq)]
pub struct CachePolicyConfig {
    pub comment: String,
    pub name: String,
    pub default_ttl: i64,
    pub max_ttl: i64,
    pub min_ttl: i64,
    pub parameters_in_cache_key_and_forwarded_to_origin: ParamsInCacheKey,
}

/// Which headers an origin request policy forwards.
#[derive(Clone, Debug, PartialEq, Eq)]
pub struct OriginRequestPolicyHeadersConfig {
    pub header_behavior: String,
    pub headers: Vec<String>,
}

impl Default for OriginRequestPolicyHeadersConfig {
    fn default() -> (r: Self)
        ensures
            r.header_behavior@ == Seq::<char>::empty(),
            r.headers@.len() == 0,
    {
        OriginRequestPolicyHeadersConfig { header_behavior: String::new(), headers: Vec::new() }
    }
}

/// Which cookies an origin request policy forwards.
#[derive(Clone, Debug, PartialEq, Eq)]
pub struct OriginRequestPolicyCookiesConfig {
    pub cookie_behavior: String,
    pub cookies: Vec<String>,
}

impl Default for OriginRequestPolicyCookiesConfig {
    fn default() -> (r: Self)
        ensures
            r.cookie_behavior@ == Seq::<char>::empty(),
            r.cookies@.len() == 0,
    {
        OriginRequestPolicyCookiesConfig { cookie_behavior: String::new(), cookies: Vec::new() }
    }
}

/// Which query strings an origin request policy forwards.
#[derive(Clone, Debug, PartialEq, Eq)]
pub struct OriginRequestPolicyQueryStringsConfig {
    pub query_string_behavior: String,
    pub query_strings: Vec<String>,
}

impl Default for OriginRequestPolicyQueryStringsConfig {
    fn default() -> (r: Self)
        ensures
            r.query_string_behavior@ == Seq::<char>::empty(),
            r.query_strings@.len() == 0,
    {
        OriginRequestPolicyQueryStringsConfig {
            query_string_behavior: String::new(),
            query_strings: Vec::new(),
        }
    }
}

/// The configuration of an origin request policy.
#[derive(Clone, Debug, PartialEq, Eq)]
pub struct OriginRequestPolicyConfig {
    pub comment: String,
    pub name: String,
    pub headers_config: OriginRequestPolicyHeadersConfig,
    pub cookies_config: OriginRequestPolicyCookiesConfig,
    pub query_strings_config: OriginRequestPolicyQueryStringsConfig,
}

/// The name and comment of a response headers policy.
#[derive(Clone, Debug, PartialEq, Eq)]
pub struct ResponseHeadersPolicyConfig {
    pub comment: String,
    pub name: String,
}

/// The configuration of a key group.
#[derive(Clone, Debug, PartialEq, Eq)]
pub struct KeyGroupConfig {
    pub name: String,
    pub items: Vec<String>,
    pub comment: String,
}

/// The configuration of a public key.
#[derive(Clone, Debug, PartialEq, Eq)]
pub struct PublicKeyConfig {
    pub caller_reference: String,
    pub name: String,
    pub encoded_key: String,
    pub comment: String,
}

/// The configuration of a CloudFront function.
#[derive(Clone, Debug, PartialEq, Eq)]
pub struct FunctionConfig {
    pub comment: String,
    pub runtime: String,
    pub key_value_store_associations: Vec<String>,
}

/// The configuration of field-level encryption.
#[derive(Clone, Debug, PartialEq, Eq)]
pub struct FieldLevelEncryptionConfig {
    pub caller_reference: String,
    pub comment: String,
    pub query_arg_profile_config_enabled: bool,
    pub content_type_profile_config_enabled: bool,
}

/// The configuration of a field-level encryption profile.
#[derive(Clone, Debug, PartialEq, Eq)]
pub struct FieldLevelEncryptionProfileConfig {
    pub name: String,
    pub caller_reference: String,
    pub comment: String,
}

/// The configuration of a real-time log.
#[derive(Clone, Debug, PartialEq, Eq)]
pub struct RealtimeLogConfig {
    pub arn: String,
    pub name: String,
    pub sampling_rate: i64,
    pub fields: Vec<String>,
}

/// A resource tag.
#[derive(Clone, Debug, PartialEq, Eq)]
pub struct Tag {
    pub key: String,
    pub value: String,
}

/// Why a request body was refused.
#[derive(Clone, Debug, PartialEq, Eq)]
pub enum CloudFrontError {
    /// The body is not well-formed XML.
    MalformedInput(String),
    /// A required argument is missing.
    MissingArgument(String),
}

} // verus!
