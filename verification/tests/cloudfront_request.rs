use rustack::cloudfront_model::CloudFrontError;
use rustack::cloudfront_request::{
    parse_cache_policy_config, parse_distribution_config, parse_fle_config,
    parse_function_config, parse_invalidation_batch, parse_key_group_config, parse_oac_config,
    parse_oai_config, parse_origin_request_policy_config, parse_public_key_config,
    parse_realtime_log_config, parse_response_headers_policy_config, parse_root, parse_tag_set,
    parse_fle_profile_config,
};

const DISTRIBUTION: &str = r#"<DistributionConfig>
  <CallerReference>ref-1</CallerReference>
  <Aliases><Quantity>2</Quantity><Items><CNAME>a.example.com</CNAME><CNAME>b.example.com</CNAME></Items></Aliases>
  <DefaultRootObject>index.html</DefaultRootObject>
  <Origins><Quantity>1</Quantity><Items>
    <Origin>
      <Id>o1</Id><DomainName>bucket.s3.amazonaws.com</DomainName><OriginPath>/static</OriginPath>
      <CustomHeaders><Quantity>1</Quantity><Items>
        <OriginCustomHeader><HeaderName>X-A</HeaderName><HeaderValue>1</HeaderValue></OriginCustomHeader>
      </Items></CustomHeaders>
      <S3OriginConfig><OriginAccessIdentity>origin-access-identity/cloudfront/E1</OriginAccessIdentity></S3OriginConfig>
      <ConnectionAttempts>3</ConnectionAttempts>
      <ConnectionTimeout>bad</ConnectionTimeout>
      <OriginShield><Enabled>true</Enabled><OriginShieldRegion>us-east-1</OriginShieldRegion></OriginShield>
    </Origin>
  </Items></Origins>
  <OriginGroups><Quantity>1</Quantity><Items>
    <OriginGroup>
      <Id>g1</Id>
      <FailoverCriteria><StatusCodes><Quantity>2</Quantity><Items><StatusCode>500</StatusCode><StatusCode>x</StatusCode></Items></StatusCodes></FailoverCriteria>
      <Members><Quantity>1</Quantity><Items><OriginGroupMember><OriginId>o1</OriginId></OriginGroupMember></Items></Members>
    </OriginGroup>
  </Items></OriginGroups>
  <DefaultCacheBehavior>
    <TargetOriginId>o1</TargetOriginId>
    <ViewerProtocolPolicy>redirect-to-https</ViewerProtocolPolicy>
    <AllowedMethods><Quantity>2</Quantity><Items><Method>GET</Method><Method>HEAD</Method></Items>
      <CachedMethods><Quantity>1</Quantity><Items><Method>GET</Method></Items></CachedMethods>
    </AllowedMethods>
    <Compress>True</Compress>
    <TrustedSigners><Enabled>1</Enabled><Quantity>1</Quantity><Items><AwsAccountNumber>123</AwsAccountNumber></Items></TrustedSigners>
    <FunctionAssociations><Quantity>1</Quantity><Items>
      <FunctionAssociation><FunctionARN>arn:fn</FunctionARN><EventType>viewer-request</EventType></FunctionAssociation>
    </Items></FunctionAssociations>
    <ForwardedValues><QueryString>false</QueryString><Cookies><Forward>none</Forward></Cookies></ForwardedValues>
    <MinTTL>0</MinTTL><DefaultTTL>86400</DefaultTTL><MaxTTL>31536000</MaxTTL>
  </DefaultCacheBehavior>
  <CacheBehaviors><Quantity>1</Quantity><Items>
    <CacheBehavior><PathPattern>/api/*</PathPattern><TargetOriginId>o1</TargetOriginId></CacheBehavior>
  </Items></CacheBehaviors>
  <CustomErrorResponses><Quantity>1</Quantity><Items>
    <CustomErrorResponse><ErrorCode>404</ErrorCode><ResponsePagePath>/404.html</ResponsePagePath><ResponseCode>200</ResponseCode><ErrorCachingMinTTL>10</ErrorCachingMinTTL></CustomErrorResponse>
  </Items></CustomErrorResponses>
  <Comment>hello</Comment>
  <Logging><Enabled>true</Enabled><IncludeCookies>false</IncludeCookies><Bucket>logs</Bucket><Prefix>p/</Prefix></Logging>
  <PriceClass>PriceClass_All</PriceClass>
  <Enabled>true</Enabled>
  <Restrictions><GeoRestriction><RestrictionType>whitelist</RestrictionType><Quantity>2</Quantity><Items><Location>US</Location><Location>CA</Location></Items></GeoRestriction></Restrictions>
  <HttpVersion>http2</HttpVersion>
  <IsIPV6Enabled>yes</IsIPV6Enabled>
</DistributionConfig>"#;

#[test]
fn distribution_config_is_read_field_by_field() {
    let root = parse_root(DISTRIBUTION.as_bytes()).unwrap();
    let cfg = parse_distribution_config(&root);
    assert_eq!(cfg.caller_reference, "ref-1");
    assert_eq!(cfg.aliases, vec!["a.example.com", "b.example.com"]);
    assert_eq!(cfg.default_root_object, "index.html");
    assert_eq!(cfg.origins.len(), 1);
    let o = &cfg.origins[0];
    assert_eq!(o.id, "o1");
    assert_eq!(o.origin_path, "/static");
    assert_eq!(o.custom_headers.len(), 1);
    assert_eq!(o.custom_headers[0].header_name, "X-A");
    assert_eq!(o.custom_headers[0].header_value, "1");
    assert_eq!(
        o.s3_origin_config.as_ref().unwrap().origin_access_identity,
        "origin-access-identity/cloudfront/E1"
    );
    assert!(o.custom_origin_config.is_none());
    assert_eq!(o.connection_attempts, 3);
    assert_eq!(o.connection_timeout, 0);
    let shield = o.origin_shield.as_ref().unwrap();
    assert!(shield.enabled);
    assert_eq!(shield.origin_shield_region, "us-east-1");
    assert_eq!(o.origin_access_control_id, "");
    let g = &cfg.origin_groups[0];
    assert_eq!(g.id, "g1");
    assert_eq!(g.failover_status_codes, vec![500, 0]);
    assert_eq!(g.member_origins, vec!["o1"]);
    let d = &cfg.default_cache_behavior;
    assert_eq!(d.target_origin_id, "o1");
    assert_eq!(d.viewer_protocol_policy, "redirect-to-https");
    assert_eq!(d.allowed_methods, vec!["GET", "HEAD"]);
    assert_eq!(d.cached_methods, vec!["GET"]);
    assert!(d.compress);
    assert!(!d.smooth_streaming);
    assert_eq!(d.trusted_signers, vec!["123"]);
    assert!(d.trusted_signers_enabled);
    assert!(!d.trusted_key_groups_enabled);
    assert_eq!(d.function_associations.len(), 1);
    assert_eq!(d.function_associations[0].function_arn, "arn:fn");
    assert_eq!(d.function_associations[0].event_type, "viewer-request");
    let fv = d.forwarded_values.as_ref().unwrap();
    assert!(!fv.query_string);
    assert_eq!(fv.cookies.forward, "none");
    assert!(fv.headers.is_empty());
    assert_eq!(d.min_ttl, 0);
    assert_eq!(d.default_ttl, 86400);
    assert_eq!(d.max_ttl, 31536000);
    assert_eq!(cfg.cache_behaviors.len(), 1);
    assert_eq!(cfg.cache_behaviors[0].path_pattern, "/api/*");
    assert!(cfg.cache_behaviors[0].forwarded_values.is_none());
    let e = &cfg.custom_error_responses[0];
    assert_eq!((e.error_code, e.response_code.as_str(), e.error_caching_min_ttl), (404, "200", 10));
    assert_eq!(cfg.comment, "hello");
    assert!(cfg.logging.enabled);
    assert_eq!(cfg.logging.bucket, "logs");
    assert_eq!(cfg.price_class, "PriceClass_All");
    assert!(cfg.enabled);
    assert!(!cfg.viewer_certificate.cloud_front_default_certificate);
    assert_eq!(cfg.restrictions.geo_restriction.restriction_type, "whitelist");
    assert_eq!(cfg.restrictions.geo_restriction.locations, vec!["US", "CA"]);
    assert_eq!(cfg.http_version, "http2");
    assert!(!cfg.is_ipv6_enabled);
    assert!(!cfg.staging);
}

#[test]
fn empty_distribution_config_gets_defaults() {
    let root = parse_root(b"<DistributionConfig/>").unwrap();
    let cfg = parse_distribution_config(&root);
    assert!(cfg.origins.is_empty());
    assert_eq!(cfg.default_cache_behavior.target_origin_id, "");
    assert!(cfg.default_cache_behavior.forwarded_values.is_none());
    assert!(!cfg.logging.enabled);
    assert_eq!(cfg.restrictions.geo_restriction.restriction_type, "");
    assert!(!cfg.enabled);
}

#[test]
fn malformed_body_is_malformed_input() {
    match parse_root(b"<a><b></a>") {
        Err(CloudFrontError::MalformedInput(msg)) => assert!(!msg.is_empty()),
        other => panic!("expected MalformedInput, got {other:?}"),
    }
}

#[test]
fn oac_config_defaults_empty_fields() {
    let root = parse_root(b"<OriginAccessControlConfig><Name>n</Name></OriginAccessControlConfig>").unwrap();
    let c = parse_oac_config(&root);
    assert_eq!(c.name, "n");
    assert_eq!(c.signing_protocol, "sigv4");
    assert_eq!(c.signing_behavior, "always");
    assert_eq!(c.origin_access_control_origin_type, "s3");
    let root = parse_root(
        b"<OriginAccessControlConfig><SigningBehavior>never</SigningBehavior><OriginAccessControlOriginType>mediastore</OriginAccessControlOriginType></OriginAccessControlConfig>",
    )
    .unwrap();
    let c = parse_oac_config(&root);
    assert_eq!(c.signing_behavior, "never");
    assert_eq!(c.origin_access_control_origin_type, "mediastore");
}

#[test]
fn cache_and_origin_request_policies() {
    let root = parse_root(
        br#"<CachePolicyConfig><Name>p</Name><MinTTL>1</MinTTL><DefaultTTL>2</DefaultTTL><MaxTTL>3</MaxTTL>
        <ParametersInCacheKeyAndForwardedToOrigin><EnableAcceptEncodingGzip>true</EnableAcceptEncodingGzip>
        <HeadersConfig><HeaderBehavior>whitelist</HeaderBehavior><Headers><Quantity>1</Quantity><Items><Name>Host</Name></Items></Headers></HeadersConfig>
        </ParametersInCacheKeyAndForwardedToOrigin></CachePolicyConfig>"#,
    )
    .unwrap();
    let c = parse_cache_policy_config(&root);
    assert_eq!((c.min_ttl, c.default_ttl, c.max_ttl), (1, 2, 3));
    let p = &c.parameters_in_cache_key_and_forwarded_to_origin;
    assert!(p.enable_accept_encoding_gzip);
    assert!(!p.enable_accept_encoding_brotli);
    assert_eq!(p.headers_config.header_behavior, "whitelist");
    assert_eq!(p.headers_config.headers, vec!["Host"]);
    assert_eq!(p.cookies_config.cookie_behavior, "");
    let root = parse_root(
        br#"<OriginRequestPolicyConfig><Comment>c</Comment><CookiesConfig><CookieBehavior>all</CookieBehavior></CookiesConfig></OriginRequestPolicyConfig>"#,
    )
    .unwrap();
    let o = parse_origin_request_policy_config(&root);
    assert_eq!(o.comment, "c");
    assert_eq!(o.cookies_config.cookie_behavior, "all");
    assert!(o.headers_config.headers.is_empty());
}

#[test]
fn small_configs() {
    let root = parse_root(b"<InvalidationBatch><Paths><Quantity>2</Quantity><Items><Path>/a</Path><Path>/b</Path></Items></Paths><CallerReference>r</CallerReference></InvalidationBatch>").unwrap();
    let b = parse_invalidation_batch(&root);
    assert_eq!(b.paths, vec!["/a", "/b"]);
    assert_eq!(b.caller_reference, "r");
    let root = parse_root(b"<X><CallerReference>r</CallerReference><Comment>c</Comment><Name>n</Name><EncodedKey>k</EncodedKey><Runtime>cloudfront-js-2.0</Runtime><ARN>arn</ARN><SamplingRate>50</SamplingRate><Fields><Items><Field>a</Field></Items></Fields><QueryArgProfileConfig/><Items><PublicKey>pk1</PublicKey></Items></X>").unwrap();
    let oai = parse_oai_config(&root);
    assert_eq!((oai.caller_reference.as_str(), oai.comment.as_str()), ("r", "c"));
    let rh = parse_response_headers_policy_config(&root);
    assert_eq!(rh.name, "n");
    let kg = parse_key_group_config(&root);
    assert_eq!(kg.items, vec!["pk1"]);
    let pk = parse_public_key_config(&root);
    assert_eq!(pk.encoded_key, "k");
    let f = parse_function_config(&root);
    assert_eq!(f.runtime, "cloudfront-js-2.0");
    assert!(f.key_value_store_associations.is_empty());
    let fle = parse_fle_config(&root);
    assert!(fle.query_arg_profile_config_enabled);
    assert!(!fle.content_type_profile_config_enabled);
    let prof = parse_fle_profile_config(&root);
    assert_eq!(prof.name, "n");
    let rl = parse_realtime_log_config(&root);
    assert_eq!(rl.sampling_rate, 50);
    assert_eq!(rl.fields, vec!["a"]);
}

#[test]
fn tag_sets_from_tag_set_or_tags() {
    let root = parse_root(b"<Tagging><TagSet><Tag><Key>k1</Key><Value>v1</Value></Tag><Tag><Key>k2</Key></Tag></TagSet></Tagging>").unwrap();
    let tags = parse_tag_set(&root);
    assert_eq!(tags.len(), 2);
    assert_eq!((tags[0].key.as_str(), tags[0].value.as_str()), ("k1", "v1"));
    assert_eq!((tags[1].key.as_str(), tags[1].value.as_str()), ("k2", ""));
    let root = parse_root(b"<X><Tags><Tag><Key>a</Key><Value>b</Value></Tag></Tags></X>").unwrap();
    assert_eq!(parse_tag_set(&root).len(), 1);
    let root = parse_root(b"<X/>").unwrap();
    assert!(parse_tag_set(&root).is_empty());
}

#[test]
fn distribution_config_with_tags_is_unwrapped() {
    let root = parse_root(
        b"<DistributionConfigWithTags><DistributionConfig><Comment>c</Comment></DistributionConfig><Tags><TagSet><Tag><Key>k</Key><Value>v</Value></Tag></TagSet></Tags></DistributionConfigWithTags>",
    )
    .unwrap();
    let (cfg, tags) = rustack::cloudfront_request::distribution_config_root(&root).unwrap();
    assert_eq!(cfg.name, "DistributionConfig");
    assert_eq!(parse_distribution_config(cfg).comment, "c");
    assert_eq!(tags.len(), 1);
    assert_eq!((tags[0].key.as_str(), tags[0].value.as_str()), ("k", "v"));
    let bare = parse_root(b"<DistributionConfig><Comment>d</Comment></DistributionConfig>").unwrap();
    let (cfg, tags) = rustack::cloudfront_request::distribution_config_root(&bare).unwrap();
    assert_eq!(cfg.name, "DistributionConfig");
    assert!(tags.is_empty());
    let broken = parse_root(b"<DistributionConfigWithTags><Tags/></DistributionConfigWithTags>").unwrap();
    match rustack::cloudfront_request::distribution_config_root(&broken) {
        Err(CloudFrontError::MalformedInput(m)) => {
            assert_eq!(m, "DistributionConfigWithTags missing DistributionConfig")
        }
        other => panic!("unexpected {other:?}"),
    }
}
