//! Reading CloudFront request bodies: the XML tree of a body turned into the
//! configuration values of `cloudfront_model`.

use vstd::prelude::*;
use crate::cloudfront_model::{
    blank_cache_behavior, blank_viewer_certificate, CacheBehavior, CachePolicyConfig,
    CachePolicyCookiesConfig, CachePolicyHeadersConfig, CachePolicyQueryStringsConfig,
    CloudFrontError, CloudFrontOriginAccessIdentityConfig, CookiePreference, CustomErrorResponse,
    CustomHeader, CustomOriginConfig, DistributionConfig, FieldLevelEncryptionConfig,
    FieldLevelEncryptionProfileConfig, ForwardedValues, FunctionAssociation, FunctionConfig,
    GeoRestriction, InvalidationBatch, KeyGroupConfig, LambdaFunctionAssociation, LoggingConfig,
    Origin, OriginAccessControlConfig, OriginGroup, OriginRequestPolicyConfig,
    OriginRequestPolicyCookiesConfig, OriginRequestPolicyHeadersConfig,
    OriginRequestPolicyQueryStringsConfig, OriginShield, ParamsInCacheKey, PublicKeyConfig,
    RealtimeLogConfig, ResponseHeadersPolicyConfig, Restrictions, S3OriginConfig, Tag,
    ViewerCertificate,
};
use crate::fields::trim;
use crate::seqs::{first_index, is_first, lemma_first_index_is, lemma_first_index_props};
use crate::text::{own, parse_i32, spec_parse_signed, str_eq};
use crate::xml_tree::{
    child_text_of, direct_items_of, first_named, items_of, models, node_named, parse, parse_result, texts,
    true_word, Node, NodeModel,
};

verus! {

// ---------------------------------------------------------------------------
// What a node says
// ---------------------------------------------------------------------------

/// The first child with the given name.
pub open spec fn child_of(n: Node, name: Seq<char>) -> Option<Node> {
    first_named(n.children@, name)
}

/// The `i32` value of a child's text, 0 when absent or not a number.
pub open spec fn int32_of(n: Node, name: Seq<char>) -> int {
    match spec_parse_signed(child_text_of(n, name), i32::MIN as int, i32::MAX as int) {
        Some(v) => v,
        None => 0,
    }
}

/// The `i64` value of a child's text, 0 when absent or not a number.
pub open spec fn int64_of(n: Node, name: Seq<char>) -> int {
    match spec_parse_signed(child_text_of(n, name), i64::MIN as int, i64::MAX as int) {
        Some(v) => v,
        None => 0,
    }
}

/// The flag a child's text spells.
pub open spec fn flag_of(n: Node, name: Seq<char>) -> bool {
    true_word(trim(child_text_of(n, name)))
}

/// The flag of a child of an optional node, false without the node.
pub open spec fn opt_flag(c: Option<Node>, name: Seq<char>) -> bool {
    match c {
        Some(x) => flag_of(x, name),
        None => false,
    }
}

/// The texts of `<Items><item/>...</Items>` under an optional node, none
/// without the node.
pub open spec fn opt_direct_texts(c: Option<Node>, item: Seq<char>) -> Seq<Seq<char>> {
    match c {
        Some(x) => texts(direct_items_of(x, item)),
        None => Seq::<Seq<char>>::empty(),
    }
}

/// The texts of a vector of strings.
pub open spec fn strs(v: Vec<String>) -> Seq<Seq<char>> {
    v@.map_values(|s: String| s@)
}

/// The nodes of a vector of node references.
pub open spec fn node_seq(v: Vec<&Node>) -> Seq<Node> {
    v@.map_values(|n: &Node| *n)
}

/// Apply a reader to each node, in order.
fn map_nodes<T, F: Fn(&Node) -> T>(nodes: &Vec<&Node>, f: F) -> (r: Vec<T>)
    requires
        forall|i: int| 0 <= i < nodes@.len() ==> f.requires((nodes@[i],)),
    ensures
        r@.len() == nodes@.len(),
        forall|i: int| 0 <= i < nodes@.len() ==> f.ensures((nodes@[i],), #[trigger] r@[i]),
{
    let mut out: Vec<T> = Vec::new();
    let mut i: usize = 0;
    while i < nodes.len()
        invariant
            i <= nodes@.len(),
            out@.len() == i,
            forall|k: int| 0 <= k < nodes@.len() ==> f.requires((nodes@[k],)),
            forall|k: int| 0 <= k < i ==> f.ensures((nodes@[k],), #[trigger] out@[k]),
        decreases nodes@.len() - i,
    {
        let v = f(nodes[i]);
        out.push(v);
        i = i + 1;
    }
    out
}

// ---------------------------------------------------------------------------
// Origins
// ---------------------------------------------------------------------------

/// `h` holds what `<OriginCustomHeader>` node `n` says.
pub open spec fn reads_custom_header(h: CustomHeader, n: Node) -> bool {
    &&& h.header_name@ == child_text_of(n, "HeaderName"@)
    &&& h.header_value@ == child_text_of(n, "HeaderValue"@)
}

fn parse_custom_header(n: &Node) -> (r: CustomHeader)
    ensures
        reads_custom_header(r, *n),
{
    CustomHeader {
        header_name: own(n.child_text("HeaderName")),
        header_value: own(n.child_text("HeaderValue")),
    }
}

/// `c` holds what `<CustomOriginConfig>` node `n` says.
pub open spec fn reads_custom_origin(c: CustomOriginConfig, n: Node) -> bool {
    &&& c.http_port == int32_of(n, "HTTPPort"@)
    &&& c.https_port == int32_of(n, "HTTPSPort"@)
    &&& c.origin_protocol_policy@ == child_text_of(n, "OriginProtocolPolicy"@)
    &&& strs(c.origin_ssl_protocols) == texts(items_of(n, "OriginSslProtocols"@, "SslProtocol"@))
    &&& c.origin_read_timeout == int32_of(n, "OriginReadTimeout"@)
    &&& c.origin_keepalive_timeout == int32_of(n, "OriginKeepaliveTimeout"@)
}

fn parse_custom_origin(n: &Node) -> (r: CustomOriginConfig)
    ensures
        reads_custom_origin(r, *n),
{
    CustomOriginConfig {
        http_port: n.child_i32("HTTPPort"),
        https_port: n.child_i32("HTTPSPort"),
        origin_protocol_policy: own(n.child_text("OriginProtocolPolicy")),
        origin_ssl_protocols: n.string_items("OriginSslProtocols", "SslProtocol"),
        origin_read_timeout: n.child_i32("OriginReadTimeout"),
        origin_keepalive_timeout: n.child_i32("OriginKeepaliveTimeout"),
    }
}

/// `o` holds what `<Origin>` node `n` says.
pub open spec fn reads_origin(o: Origin, n: Node) -> bool {
    &&& o.id@ == child_text_of(n, "Id"@)
    &&& o.domain_name@ == child_text_of(n, "DomainName"@)
    &&& o.origin_path@ == child_text_of(n, "OriginPath"@)
    &&& o.custom_headers@.len() == items_of(n, "CustomHeaders"@, "OriginCustomHeader"@).len()
    &&& forall|i: int|
        0 <= i < o.custom_headers@.len() ==> reads_custom_header(
            #[trigger] o.custom_headers@[i],
            items_of(n, "CustomHeaders"@, "OriginCustomHeader"@)[i],
        )
    &&& match child_of(n, "S3OriginConfig"@) {
        Some(s) => o.s3_origin_config matches Some(c) && c.origin_access_identity@ == child_text_of(
            s,
            "OriginAccessIdentity"@,
        ),
        None => o.s3_origin_config is None,
    }
    &&& match child_of(n, "CustomOriginConfig"@) {
        Some(c) => o.custom_origin_config matches Some(x) && reads_custom_origin(x, c),
        None => o.custom_origin_config is None,
    }
    &&& o.connection_attempts == int32_of(n, "ConnectionAttempts"@)
    &&& o.connection_timeout == int32_of(n, "ConnectionTimeout"@)
    &&& match child_of(n, "OriginShield"@) {
        Some(s) => o.origin_shield matches Some(x) && x.enabled == flag_of(s, "Enabled"@)
            && x.origin_shield_region@ == child_text_of(s, "OriginShieldRegion"@),
        None => o.origin_shield is None,
    }
    &&& o.origin_access_control_id@ == child_text_of(n, "OriginAccessControlId"@)
}

fn parse_origin(n: &Node) -> (r: Origin)
    ensures
        reads_origin(r, *n),
{
    let header_nodes = n.items_named("CustomHeaders", "OriginCustomHeader");
    let custom_headers = map_nodes(&header_nodes, parse_custom_header);
    assert forall|i: int| 0 <= i < custom_headers@.len() implies reads_custom_header(
        #[trigger] custom_headers@[i],
        items_of(*n, "CustomHeaders"@, "OriginCustomHeader"@)[i],
    ) by {
        assert(node_seq(header_nodes)[i] == *header_nodes@[i]);
    }
    let s3_origin_config = match n.child("S3OriginConfig") {
        Some(s) => Some(S3OriginConfig { origin_access_identity: own(s.child_text("OriginAccessIdentity")) }),
        None => None,
    };
    let custom_origin_config = match n.child("CustomOriginConfig") {
        Some(c) => Some(parse_custom_origin(c)),
        None => None,
    };
    let origin_shield = match n.child("OriginShield") {
        Some(s) => Some(
            OriginShield {
                enabled: s.child_bool("Enabled"),
                origin_shield_region: own(s.child_text("OriginShieldRegion")),
            },
        ),
        None => None,
    };
    Origin {
        id: own(n.child_text("Id")),
        domain_name: own(n.child_text("DomainName")),
        origin_path: own(n.child_text("OriginPath")),
        custom_headers,
        s3_origin_config,
        custom_origin_config,
        connection_attempts: n.child_i32("ConnectionAttempts"),
        connection_timeout: n.child_i32("ConnectionTimeout"),
        origin_shield,
        origin_access_control_id: own(n.child_text("OriginAccessControlId")),
    }
}

/// The status code a `<StatusCode>` node's text gives, 0 when not a number.
pub open spec fn status_code_of(n: Node) -> int {
    match spec_parse_signed(n.text@, i32::MIN as int, i32::MAX as int) {
        Some(v) => v,
        None => 0,
    }
}

fn parse_status_code(n: &Node) -> (r: i32)
    ensures
        r as int == status_code_of(*n),
{
    match parse_i32(n.text.as_str()) {
        Some(v) => v,
        None => 0,
    }
}

fn member_origin_id(n: &Node) -> (r: String)
    ensures
        r@ == child_text_of(*n, "OriginId"@),
{
    own(n.child_text("OriginId"))
}

/// `g` holds what `<OriginGroup>` node `n` says.
pub open spec fn reads_origin_group(g: OriginGroup, n: Node) -> bool {
    &&& g.id@ == child_text_of(n, "Id"@)
    &&& match child_of(n, "FailoverCriteria"@) {
        Some(f) => {
            let codes = items_of(f, "StatusCodes"@, "StatusCode"@);
            &&& g.failover_status_codes@.len() == codes.len()
            &&& forall|i: int|
                0 <= i < codes.len() ==> #[trigger] g.failover_status_codes@[i] as int
                    == status_code_of(codes[i])
        },
        None => g.failover_status_codes@.len() == 0,
    }
    &&& strs(g.member_origins) == items_of(n, "Members"@, "OriginGroupMember"@).map_values(
        |m: Node| child_text_of(m, "OriginId"@),
    )
    &&& g.selection_criteria@ == child_text_of(n, "SelectionCriteria"@)
}

fn parse_origin_group(n: &Node) -> (r: OriginGroup)
    ensures
        reads_origin_group(r, *n),
{
    let failover_status_codes = match n.child("FailoverCriteria") {
        Some(f) => {
            let code_nodes = f.items_named("StatusCodes", "StatusCode");
            let codes = map_nodes(&code_nodes, parse_status_code);
            assert forall|i: int| 0 <= i < code_nodes@.len() implies #[trigger] codes@[i] as int
                == status_code_of(items_of(*f, "StatusCodes"@, "StatusCode"@)[i]) by {
                assert(node_seq(code_nodes)[i] == *code_nodes@[i]);
            }
            codes
        },
        None => Vec::new(),
    };
    let member_nodes = n.items_named("Members", "OriginGroupMember");
    let member_origins = map_nodes(&member_nodes, member_origin_id);
    assert(strs(member_origins) =~= items_of(*n, "Members"@, "OriginGroupMember"@).map_values(
        |m: Node| child_text_of(m, "OriginId"@),
    )) by {
        assert forall|i: int| 0 <= i < member_nodes@.len() implies node_seq(member_nodes)[i]
            == *member_nodes@[i] by {}
    }
    OriginGroup {
        id: own(n.child_text("Id")),
        failover_status_codes,
        member_origins,
        selection_criteria: own(n.child_text("SelectionCriteria")),
    }
}

// ---------------------------------------------------------------------------
// Cache behaviors
// ---------------------------------------------------------------------------

/// `c` holds what `<Cookies>` node `n` says.
pub open spec fn reads_cookie_preference(c: CookiePreference, n: Node) -> bool {
    &&& c.forward@ == child_text_of(n, "Forward"@)
    &&& strs(c.whitelisted_names) == opt_direct_texts(child_of(n, "WhitelistedNames"@), "Name"@)
}

fn parse_cookie_preference(n: &Node) -> (r: CookiePreference)
    ensures
        reads_cookie_preference(r, *n),
{
    CookiePreference {
        forward: own(n.child_text("Forward")),
        whitelisted_names: direct_texts_of(n.child("WhitelistedNames"), "Name"),
    }
}

/// The texts of `<Items><item/>...</Items>` under an optional node.
fn direct_texts_of(c: Option<&Node>, item: &str) -> (r: Vec<String>)
    ensures
        strs(r) == opt_direct_texts(
            match c {
                Some(x) => Some(*x),
                None => None,
            },
            item@,
        ),
{
    match c {
        Some(x) => x.direct_string_items(item),
        None => {
            let v: Vec<String> = Vec::new();
            assert(strs(v) =~= Seq::<Seq<char>>::empty());
            v
        },
    }
}

/// The flag of a child of an optional node.
fn flag_in(c: Option<&Node>, name: &str) -> (r: bool)
    ensures
        r == opt_flag(
            match c {
                Some(x) => Some(*x),
                None => None,
            },
            name@,
        ),
{
    match c {
        Some(x) => x.child_bool(name),
        None => false,
    }
}

/// `l` holds what `<LambdaFunctionAssociation>` node `n` says.
pub open spec fn reads_lambda_association(l: LambdaFunctionAssociation, n: Node) -> bool {
    &&& l.lambda_function_arn@ == child_text_of(n, "LambdaFunctionARN"@)
    &&& l.event_type@ == child_text_of(n, "EventType"@)
    &&& l.include_body == flag_of(n, "IncludeBody"@)
}

fn parse_lambda_association(n: &Node) -> (r: LambdaFunctionAssociation)
    ensures
        reads_lambda_association(r, *n),
{
    LambdaFunctionAssociation {
        lambda_function_arn: own(n.child_text("LambdaFunctionARN")),
        event_type: own(n.child_text("EventType")),
        include_body: n.child_bool("IncludeBody"),
    }
}

/// `f` holds what `<FunctionAssociation>` node `n` says.
pub open spec fn reads_function_association(f: FunctionAssociation, n: Node) -> bool {
    &&& f.function_arn@ == child_text_of(n, "FunctionARN"@)
    &&& f.event_type@ == child_text_of(n, "EventType"@)
}

fn parse_function_association(n: &Node) -> (r: FunctionAssociation)
    ensures
        reads_function_association(r, *n),
{
    FunctionAssociation {
        function_arn: own(n.child_text("FunctionARN")),
        event_type: own(n.child_text("EventType")),
    }
}

/// `f` holds what `<ForwardedValues>` node `n` says.
pub open spec fn reads_forwarded_values(f: ForwardedValues, n: Node) -> bool {
    &&& f.query_string == flag_of(n, "QueryString"@)
    &&& match child_of(n, "Cookies"@) {
        Some(c) => reads_cookie_preference(f.cookies, c),
        None => f.cookies.forward@ == Seq::<char>::empty() && f.cookies.whitelisted_names@.len() == 0,
    }
    &&& strs(f.headers) == opt_direct_texts(child_of(n, "Headers"@), "Name"@)
    &&& strs(f.query_string_cache_keys) == opt_direct_texts(
        child_of(n, "QueryStringCacheKeys"@),
        "Name"@,
    )
}

fn parse_forwarded_values(n: &Node) -> (r: ForwardedValues)
    ensures
        reads_forwarded_values(r, *n),
{
    let cookies = match n.child("Cookies") {
        Some(c) => parse_cookie_preference(c),
        None => CookiePreference::default(),
    };
    ForwardedValues {
        query_string: n.child_bool("QueryString"),
        cookies,
        headers: direct_texts_of(n.child("Headers"), "Name"),
        query_string_cache_keys: direct_texts_of(n.child("QueryStringCacheKeys"), "Name"),
    }
}

/// `b` holds what `<CacheBehavior>` (or `<DefaultCacheBehavior>`) node `n`
/// says.
pub open spec fn reads_cache_behavior(b: CacheBehavior, n: Node) -> bool {
    &&& b.path_pattern@ == child_text_of(n, "PathPattern"@)
    &&& b.target_origin_id@ == child_text_of(n, "TargetOriginId"@)
    &&& b.viewer_protocol_policy@ == child_text_of(n, "ViewerProtocolPolicy"@)
    &&& strs(b.allowed_methods) == opt_direct_texts(child_of(n, "AllowedMethods"@), "Method"@)
    &&& strs(b.cached_methods) == match child_of(n, "AllowedMethods"@) {
        Some(a) => opt_direct_texts(child_of(a, "CachedMethods"@), "Method"@),
        None => Seq::<Seq<char>>::empty(),
    }
    &&& b.smooth_streaming == flag_of(n, "SmoothStreaming"@)
    &&& b.compress == flag_of(n, "Compress"@)
    &&& b.field_level_encryption_id@ == child_text_of(n, "FieldLevelEncryptionId"@)
    &&& b.realtime_log_config_arn@ == child_text_of(n, "RealtimeLogConfigArn"@)
    &&& b.cache_policy_id@ == child_text_of(n, "CachePolicyId"@)
    &&& b.origin_request_policy_id@ == child_text_of(n, "OriginRequestPolicyId"@)
    &&& b.response_headers_policy_id@ == child_text_of(n, "ResponseHeadersPolicyId"@)
    &&& b.grpc_enabled == opt_flag(child_of(n, "GrpcConfig"@), "Enabled"@)
    &&& strs(b.trusted_signers) == opt_direct_texts(child_of(n, "TrustedSigners"@), "AwsAccountNumber"@)
    &&& b.trusted_signers_enabled == opt_flag(child_of(n, "TrustedSigners"@), "Enabled"@)
    &&& strs(b.trusted_key_groups) == opt_direct_texts(child_of(n, "TrustedKeyGroups"@), "KeyGroup"@)
    &&& b.trusted_key_groups_enabled == opt_flag(child_of(n, "TrustedKeyGroups"@), "Enabled"@)
    &&& {
        let ls = items_of(n, "LambdaFunctionAssociations"@, "LambdaFunctionAssociation"@);
        &&& b.lambda_function_associations@.len() == ls.len()
        &&& forall|i: int|
            0 <= i < ls.len() ==> reads_lambda_association(
                #[trigger] b.lambda_function_associations@[i],
                ls[i],
            )
    }
    &&& {
        let fs = items_of(n, "FunctionAssociations"@, "FunctionAssociation"@);
        &&& b.function_associations@.len() == fs.len()
        &&& forall|i: int|
            0 <= i < fs.len() ==> reads_function_association(
                #[trigger] b.function_associations@[i],
                fs[i],
            )
    }
    &&& match child_of(n, "ForwardedValues"@) {
        Some(f) => b.forwarded_values matches Some(x) && reads_forwarded_values(x, f),
        None => b.forwarded_values is None,
    }
    &&& b.min_ttl == int64_of(n, "MinTTL"@)
    &&& b.default_ttl == int64_of(n, "DefaultTTL"@)
    &&& b.max_ttl == int64_of(n, "MaxTTL"@)
}

/// The `i32` value a text spells, 0 when it is not a number in range.
pub open spec fn int32_text(t: Seq<char>) -> int {
    match spec_parse_signed(t, i32::MIN as int, i32::MAX as int) {
        Some(v) => v,
        None => 0,
    }
}

/// The `i64` value a text spells, 0 when it is not a number in range.
pub open spec fn int64_text(t: Seq<char>) -> int {
    match spec_parse_signed(t, i64::MIN as int, i64::MAX as int) {
        Some(v) => v,
        None => 0,
    }
}

/// The settings of a custom header read from child elements are those elements'
/// texts: a field named after an element holds the text of the first child
/// of that name (as a flag or a number where the field is one).
pub proof fn lemma_custom_header_fields(h: CustomHeader, n: Node, k: int)
    requires
        reads_custom_header(h, n),
        0 <= k < n.children@.len(),
        forall|j: int| 0 <= j < k ==> (#[trigger] n.children@[j]).name@ != n.children@[k].name@,
    ensures
        n.children@[k].name@ == "HeaderName"@ ==> h.header_name@ == n.children@[k].text@,
        n.children@[k].name@ == "HeaderValue"@ ==> h.header_value@ == n.children@[k].text@,
{
    lemma_first_child_text(n, k);
}

/// The settings of a custom origin read from child elements are those elements'
/// texts: a field named after an element holds the text of the first child
/// of that name (as a flag or a number where the field is one).
pub proof fn lemma_custom_origin_fields(c: CustomOriginConfig, n: Node, k: int)
    requires
        reads_custom_origin(c, n),
        0 <= k < n.children@.len(),
        forall|j: int| 0 <= j < k ==> (#[trigger] n.children@[j]).name@ != n.children@[k].name@,
    ensures
        n.children@[k].name@ == "HTTPPort"@ ==> c.http_port == int32_text(n.children@[k].text@),
        n.children@[k].name@ == "HTTPSPort"@ ==> c.https_port == int32_text(n.children@[k].text@),
        n.children@[k].name@ == "OriginProtocolPolicy"@ ==> c.origin_protocol_policy@ == n.children@[k].text@,
        n.children@[k].name@ == "OriginReadTimeout"@ ==> c.origin_read_timeout == int32_text(n.children@[k].text@),
        n.children@[k].name@ == "OriginKeepaliveTimeout"@ ==> c.origin_keepalive_timeout == int32_text(n.children@[k].text@),
{
    lemma_first_child_text(n, k);
}

/// The settings of a origin read from child elements are those elements'
/// texts: a field named after an element holds the text of the first child
/// of that name (as a flag or a number where the field is one).
pub proof fn lemma_origin_fields(o: Origin, n: Node, k: int)
    requires
        reads_origin(o, n),
        0 <= k < n.children@.len(),
        forall|j: int| 0 <= j < k ==> (#[trigger] n.children@[j]).name@ != n.children@[k].name@,
    ensures
        n.children@[k].name@ == "Id"@ ==> o.id@ == n.children@[k].text@,
        n.children@[k].name@ == "DomainName"@ ==> o.domain_name@ == n.children@[k].text@,
        n.children@[k].name@ == "OriginPath"@ ==> o.origin_path@ == n.children@[k].text@,
        n.children@[k].name@ == "ConnectionAttempts"@ ==> o.connection_attempts == int32_text(n.children@[k].text@),
        n.children@[k].name@ == "ConnectionTimeout"@ ==> o.connection_timeout == int32_text(n.children@[k].text@),
        n.children@[k].name@ == "OriginAccessControlId"@ ==> o.origin_access_control_id@ == n.children@[k].text@,
{
    lemma_first_child_text(n, k);
}

/// The settings of a origin group read from child elements are those elements'
/// texts: a field named after an element holds the text of the first child
/// of that name (as a flag or a number where the field is one).
pub proof fn lemma_origin_group_fields(g: OriginGroup, n: Node, k: int)
    requires
        reads_origin_group(g, n),
        0 <= k < n.children@.len(),
        forall|j: int| 0 <= j < k ==> (#[trigger] n.children@[j]).name@ != n.children@[k].name@,
    ensures
        n.children@[k].name@ == "Id"@ ==> g.id@ == n.children@[k].text@,
        n.children@[k].name@ == "SelectionCriteria"@ ==> g.selection_criteria@ == n.children@[k].text@,
{
    lemma_first_child_text(n, k);
}

/// The settings of a cookie preference read from child elements are those elements'
/// texts: a field named after an element holds the text of the first child
/// of that name (as a flag or a number where the field is one).
pub proof fn lemma_cookie_preference_fields(c: CookiePreference, n: Node, k: int)
    requires
        reads_cookie_preference(c, n),
        0 <= k < n.children@.len(),
        forall|j: int| 0 <= j < k ==> (#[trigger] n.children@[j]).name@ != n.children@[k].name@,
    ensures
        n.children@[k].name@ == "Forward"@ ==> c.forward@ == n.children@[k].text@,
{
    lemma_first_child_text(n, k);
}

/// The settings of a lambda association read from child elements are those elements'
/// texts: a field named after an element holds the text of the first child
/// of that name (as a flag or a number where the field is one).
pub proof fn lemma_lambda_association_fields(l: LambdaFunctionAssociation, n: Node, k: int)
    requires
        reads_lambda_association(l, n),
        0 <= k < n.children@.len(),
        forall|j: int| 0 <= j < k ==> (#[trigger] n.children@[j]).name@ != n.children@[k].name@,
    ensures
        n.children@[k].name@ == "LambdaFunctionARN"@ ==> l.lambda_function_arn@ == n.children@[k].text@,
        n.children@[k].name@ == "EventType"@ ==> l.event_type@ == n.children@[k].text@,
        n.children@[k].name@ == "IncludeBody"@ ==> l.include_body == true_word(trim(n.children@[k].text@)),
{
    lemma_first_child_text(n, k);
}

/// The settings of a function association read from child elements are those elements'
/// texts: a field named after an element holds the text of the first child
/// of that name (as a flag or a number where the field is one).
pub proof fn lemma_function_association_fields(f: FunctionAssociation, n: Node, k: int)
    requires
        reads_function_association(f, n),
        0 <= k < n.children@.len(),
        forall|j: int| 0 <= j < k ==> (#[trigger] n.children@[j]).name@ != n.children@[k].name@,
    ensures
        n.children@[k].name@ == "FunctionARN"@ ==> f.function_arn@ == n.children@[k].text@,
        n.children@[k].name@ == "EventType"@ ==> f.event_type@ == n.children@[k].text@,
{
    lemma_first_child_text(n, k);
}

/// The settings of a forwarded values read from child elements are those elements'
/// texts: a field named after an element holds the text of the first child
/// of that name (as a flag or a number where the field is one).
pub proof fn lemma_forwarded_values_fields(f: ForwardedValues, n: Node, k: int)
    requires
        reads_forwarded_values(f, n),
        0 <= k < n.children@.len(),
        forall|j: int| 0 <= j < k ==> (#[trigger] n.children@[j]).name@ != n.children@[k].name@,
    ensures
        n.children@[k].name@ == "QueryString"@ ==> f.query_string == true_word(trim(n.children@[k].text@)),
{
    lemma_first_child_text(n, k);
}

/// The settings of a cache behavior read from child elements are those elements'
/// texts: a field named after an element holds the text of the first child
/// of that name (as a flag or a number where the field is one).
pub proof fn lemma_cache_behavior_fields(b: CacheBehavior, n: Node, k: int)
    requires
        reads_cache_behavior(b, n),
        0 <= k < n.children@.len(),
        forall|j: int| 0 <= j < k ==> (#[trigger] n.children@[j]).name@ != n.children@[k].name@,
    ensures
        n.children@[k].name@ == "PathPattern"@ ==> b.path_pattern@ == n.children@[k].text@,
        n.children@[k].name@ == "TargetOriginId"@ ==> b.target_origin_id@ == n.children@[k].text@,
        n.children@[k].name@ == "ViewerProtocolPolicy"@ ==> b.viewer_protocol_policy@ == n.children@[k].text@,
        n.children@[k].name@ == "SmoothStreaming"@ ==> b.smooth_streaming == true_word(trim(n.children@[k].text@)),
        n.children@[k].name@ == "Compress"@ ==> b.compress == true_word(trim(n.children@[k].text@)),
        n.children@[k].name@ == "FieldLevelEncryptionId"@ ==> b.field_level_encryption_id@ == n.children@[k].text@,
        n.children@[k].name@ == "RealtimeLogConfigArn"@ ==> b.realtime_log_config_arn@ == n.children@[k].text@,
        n.children@[k].name@ == "CachePolicyId"@ ==> b.cache_policy_id@ == n.children@[k].text@,
        n.children@[k].name@ == "OriginRequestPolicyId"@ ==> b.origin_request_policy_id@ == n.children@[k].text@,
        n.children@[k].name@ == "ResponseHeadersPolicyId"@ ==> b.response_headers_policy_id@ == n.children@[k].text@,
        n.children@[k].name@ == "MinTTL"@ ==> b.min_ttl == int64_text(n.children@[k].text@),
        n.children@[k].name@ == "DefaultTTL"@ ==> b.default_ttl == int64_text(n.children@[k].text@),
        n.children@[k].name@ == "MaxTTL"@ ==> b.max_ttl == int64_text(n.children@[k].text@),
{
    lemma_first_child_text(n, k);
}

/// The settings of a custom error response read from child elements are those elements'
/// texts: a field named after an element holds the text of the first child
/// of that name (as a flag or a number where the field is one).
pub proof fn lemma_custom_error_response_fields(e: CustomErrorResponse, n: Node, k: int)
    requires
        reads_custom_error_response(e, n),
        0 <= k < n.children@.len(),
        forall|j: int| 0 <= j < k ==> (#[trigger] n.children@[j]).name@ != n.children@[k].name@,
    ensures
        n.children@[k].name@ == "ErrorCode"@ ==> e.error_code == int32_text(n.children@[k].text@),
        n.children@[k].name@ == "ResponsePagePath"@ ==> e.response_page_path@ == n.children@[k].text@,
        n.children@[k].name@ == "ResponseCode"@ ==> e.response_code@ == n.children@[k].text@,
        n.children@[k].name@ == "ErrorCachingMinTTL"@ ==> e.error_caching_min_ttl == int64_text(n.children@[k].text@),
{
    lemma_first_child_text(n, k);
}

/// The settings of a logging read from child elements are those elements'
/// texts: a field named after an element holds the text of the first child
/// of that name (as a flag or a number where the field is one).
pub proof fn lemma_logging_fields(l: LoggingConfig, n: Node, k: int)
    requires
        reads_logging(l, n),
        0 <= k < n.children@.len(),
        forall|j: int| 0 <= j < k ==> (#[trigger] n.children@[j]).name@ != n.children@[k].name@,
    ensures
        n.children@[k].name@ == "Enabled"@ ==> l.enabled == true_word(trim(n.children@[k].text@)),
        n.children@[k].name@ == "IncludeCookies"@ ==> l.include_cookies == true_word(trim(n.children@[k].text@)),
        n.children@[k].name@ == "Bucket"@ ==> l.bucket@ == n.children@[k].text@,
        n.children@[k].name@ == "Prefix"@ ==> l.prefix@ == n.children@[k].text@,
{
    lemma_first_child_text(n, k);
}

/// The settings of a viewer certificate read from child elements are those elements'
/// texts: a field named after an element holds the text of the first child
/// of that name (as a flag or a number where the field is one).
pub proof fn lemma_viewer_certificate_fields(v: ViewerCertificate, n: Node, k: int)
    requires
        reads_viewer_certificate(v, n),
        0 <= k < n.children@.len(),
        forall|j: int| 0 <= j < k ==> (#[trigger] n.children@[j]).name@ != n.children@[k].name@,
    ensures
        n.children@[k].name@ == "CloudFrontDefaultCertificate"@ ==> v.cloud_front_default_certificate == true_word(trim(n.children@[k].text@)),
        n.children@[k].name@ == "ACMCertificateArn"@ ==> v.acm_certificate_arn@ == n.children@[k].text@,
        n.children@[k].name@ == "IAMCertificateId"@ ==> v.iam_certificate_id@ == n.children@[k].text@,
        n.children@[k].name@ == "MinimumProtocolVersion"@ ==> v.minimum_protocol_version@ == n.children@[k].text@,
        n.children@[k].name@ == "SSLSupportMethod"@ ==> v.ssl_support_method@ == n.children@[k].text@,
        n.children@[k].name@ == "Certificate"@ ==> v.certificate@ == n.children@[k].text@,
        n.children@[k].name@ == "CertificateSource"@ ==> v.certificate_source@ == n.children@[k].text@,
{
    lemma_first_child_text(n, k);
}

/// The settings of a distribution config read from child elements are those elements'
/// texts: a field named after an element holds the text of the first child
/// of that name (as a flag or a number where the field is one).
pub proof fn lemma_distribution_config_fields(c: DistributionConfig, n: Node, k: int)
    requires
        reads_distribution_config(c, n),
        0 <= k < n.children@.len(),
        forall|j: int| 0 <= j < k ==> (#[trigger] n.children@[j]).name@ != n.children@[k].name@,
    ensures
        n.children@[k].name@ == "CallerReference"@ ==> c.caller_reference@ == n.children@[k].text@,
        n.children@[k].name@ == "DefaultRootObject"@ ==> c.default_root_object@ == n.children@[k].text@,
        n.children@[k].name@ == "Comment"@ ==> c.comment@ == n.children@[k].text@,
        n.children@[k].name@ == "PriceClass"@ ==> c.price_class@ == n.children@[k].text@,
        n.children@[k].name@ == "Enabled"@ ==> c.enabled == true_word(trim(n.children@[k].text@)),
        n.children@[k].name@ == "WebACLId"@ ==> c.web_acl_id@ == n.children@[k].text@,
        n.children@[k].name@ == "HttpVersion"@ ==> c.http_version@ == n.children@[k].text@,
        n.children@[k].name@ == "IsIPV6Enabled"@ ==> c.is_ipv6_enabled == true_word(trim(n.children@[k].text@)),
        n.children@[k].name@ == "ContinuousDeploymentPolicyId"@ ==> c.continuous_deployment_policy_id@ == n.children@[k].text@,
        n.children@[k].name@ == "Staging"@ ==> c.staging == true_word(trim(n.children@[k].text@)),
        n.children@[k].name@ == "AnycastIpListId"@ ==> c.anycast_ip_list_id@ == n.children@[k].text@,
        n.children@[k].name@ == "ConnectionMode"@ ==> c.connection_mode@ == n.children@[k].text@,
{
    lemma_first_child_text(n, k);
}

/// The settings of a invalidation batch read from child elements are those elements'
/// texts: a field named after an element holds the text of the first child
/// of that name (as a number where the field is one, and its default where
/// the field has one and the text is empty).
pub proof fn lemma_invalidation_batch_fields(r: InvalidationBatch, n: Node, k: int)
    requires
        reads_invalidation_batch(r, n),
        0 <= k < n.children@.len(),
        forall|j: int| 0 <= j < k ==> (#[trigger] n.children@[j]).name@ != n.children@[k].name@,
    ensures
        n.children@[k].name@ == "CallerReference"@ ==> r.caller_reference@ == n.children@[k].text@,
{
    lemma_first_child_text(n, k);
}

/// The settings of a oac config read from child elements are those elements'
/// texts: a field named after an element holds the text of the first child
/// of that name (as a number where the field is one, and its default where
/// the field has one and the text is empty).
pub proof fn lemma_oac_config_fields(r: OriginAccessControlConfig, n: Node, k: int)
    requires
        reads_oac_config(r, n),
        0 <= k < n.children@.len(),
        forall|j: int| 0 <= j < k ==> (#[trigger] n.children@[j]).name@ != n.children@[k].name@,
    ensures
        n.children@[k].name@ == "Name"@ ==> r.name@ == n.children@[k].text@,
        n.children@[k].name@ == "Description"@ ==> r.description@ == n.children@[k].text@,
        n.children@[k].name@ == "SigningProtocol"@ && n.children@[k].text@.len() > 0 ==> r.signing_protocol@ == n.children@[k].text@,
        n.children@[k].name@ == "SigningProtocol"@ && n.children@[k].text@.len() == 0 ==> r.signing_protocol@ == "sigv4"@,
        n.children@[k].name@ == "SigningBehavior"@ && n.children@[k].text@.len() > 0 ==> r.signing_behavior@ == n.children@[k].text@,
        n.children@[k].name@ == "SigningBehavior"@ && n.children@[k].text@.len() == 0 ==> r.signing_behavior@ == "always"@,
        n.children@[k].name@ == "OriginAccessControlOriginType"@ && n.children@[k].text@.len() > 0 ==> r.origin_access_control_origin_type@ == n.children@[k].text@,
        n.children@[k].name@ == "OriginAccessControlOriginType"@ && n.children@[k].text@.len() == 0 ==> r.origin_access_control_origin_type@ == "s3"@,
{
    lemma_first_child_text(n, k);
}

/// The settings of a oai config read from child elements are those elements'
/// texts: a field named after an element holds the text of the first child
/// of that name (as a number where the field is one, and its default where
/// the field has one and the text is empty).
pub proof fn lemma_oai_config_fields(r: CloudFrontOriginAccessIdentityConfig, n: Node, k: int)
    requires
        reads_oai_config(r, n),
        0 <= k < n.children@.len(),
        forall|j: int| 0 <= j < k ==> (#[trigger] n.children@[j]).name@ != n.children@[k].name@,
    ensures
        n.children@[k].name@ == "CallerReference"@ ==> r.caller_reference@ == n.children@[k].text@,
        n.children@[k].name@ == "Comment"@ ==> r.comment@ == n.children@[k].text@,
{
    lemma_first_child_text(n, k);
}

/// The settings of a cache policy config read from child elements are those elements'
/// texts: a field named after an element holds the text of the first child
/// of that name (as a number where the field is one, and its default where
/// the field has one and the text is empty).
pub proof fn lemma_cache_policy_config_fields(r: CachePolicyConfig, n: Node, k: int)
    requires
        reads_cache_policy_config(r, n),
        0 <= k < n.children@.len(),
        forall|j: int| 0 <= j < k ==> (#[trigger] n.children@[j]).name@ != n.children@[k].name@,
    ensures
        n.children@[k].name@ == "Comment"@ ==> r.comment@ == n.children@[k].text@,
        n.children@[k].name@ == "Name"@ ==> r.name@ == n.children@[k].text@,
        n.children@[k].name@ == "DefaultTTL"@ ==> r.default_ttl == int64_text(n.children@[k].text@),
        n.children@[k].name@ == "MaxTTL"@ ==> r.max_ttl == int64_text(n.children@[k].text@),
        n.children@[k].name@ == "MinTTL"@ ==> r.min_ttl == int64_text(n.children@[k].text@),
{
    lemma_first_child_text(n, k);
}

/// The settings of a origin request policy config read from child elements are those elements'
/// texts: a field named after an element holds the text of the first child
/// of that name (as a number where the field is one, and its default where
/// the field has one and the text is empty).
pub proof fn lemma_origin_request_policy_config_fields(r: OriginRequestPolicyConfig, n: Node, k: int)
    requires
        reads_origin_request_policy_config(r, n),
        0 <= k < n.children@.len(),
        forall|j: int| 0 <= j < k ==> (#[trigger] n.children@[j]).name@ != n.children@[k].name@,
    ensures
        n.children@[k].name@ == "Comment"@ ==> r.comment@ == n.children@[k].text@,
        n.children@[k].name@ == "Name"@ ==> r.name@ == n.children@[k].text@,
{
    lemma_first_child_text(n, k);
}

/// The settings of a response headers policy config read from child elements are those elements'
/// texts: a field named after an element holds the text of the first child
/// of that name (as a number where the field is one, and its default where
/// the field has one and the text is empty).
pub proof fn lemma_response_headers_policy_config_fields(r: ResponseHeadersPolicyConfig, n: Node, k: int)
    requires
        reads_response_headers_policy_config(r, n),
        0 <= k < n.children@.len(),
        forall|j: int| 0 <= j < k ==> (#[trigger] n.children@[j]).name@ != n.children@[k].name@,
    ensures
        n.children@[k].name@ == "Comment"@ ==> r.comment@ == n.children@[k].text@,
        n.children@[k].name@ == "Name"@ ==> r.name@ == n.children@[k].text@,
{
    lemma_first_child_text(n, k);
}

/// The settings of a key group config read from child elements are those elements'
/// texts: a field named after an element holds the text of the first child
/// of that name (as a number where the field is one, and its default where
/// the field has one and the text is empty).
pub proof fn lemma_key_group_config_fields(r: KeyGroupConfig, n: Node, k: int)
    requires
        reads_key_group_config(r, n),
        0 <= k < n.children@.len(),
        forall|j: int| 0 <= j < k ==> (#[trigger] n.children@[j]).name@ != n.children@[k].name@,
    ensures
        n.children@[k].name@ == "Name"@ ==> r.name@ == n.children@[k].text@,
        n.children@[k].name@ == "Comment"@ ==> r.comment@ == n.children@[k].text@,
{
    lemma_first_child_text(n, k);
}

/// The settings of a public key config read from child elements are those elements'
/// texts: a field named after an element holds the text of the first child
/// of that name (as a number where the field is one, and its default where
/// the field has one and the text is empty).
pub proof fn lemma_public_key_config_fields(r: PublicKeyConfig, n: Node, k: int)
    requires
        reads_public_key_config(r, n),
        0 <= k < n.children@.len(),
        forall|j: int| 0 <= j < k ==> (#[trigger] n.children@[j]).name@ != n.children@[k].name@,
    ensures
        n.children@[k].name@ == "CallerReference"@ ==> r.caller_reference@ == n.children@[k].text@,
        n.children@[k].name@ == "Name"@ ==> r.name@ == n.children@[k].text@,
        n.children@[k].name@ == "EncodedKey"@ ==> r.encoded_key@ == n.children@[k].text@,
        n.children@[k].name@ == "Comment"@ ==> r.comment@ == n.children@[k].text@,
{
    lemma_first_child_text(n, k);
}

/// The settings of a function config read from child elements are those elements'
/// texts: a field named after an element holds the text of the first child
/// of that name (as a number where the field is one, and its default where
/// the field has one and the text is empty).
pub proof fn lemma_function_config_fields(r: FunctionConfig, n: Node, k: int)
    requires
        reads_function_config(r, n),
        0 <= k < n.children@.len(),
        forall|j: int| 0 <= j < k ==> (#[trigger] n.children@[j]).name@ != n.children@[k].name@,
    ensures
        n.children@[k].name@ == "Comment"@ ==> r.comment@ == n.children@[k].text@,
        n.children@[k].name@ == "Runtime"@ ==> r.runtime@ == n.children@[k].text@,
{
    lemma_first_child_text(n, k);
}

/// The settings of a fle config read from child elements are those elements'
/// texts: a field named after an element holds the text of the first child
/// of that name (as a number where the field is one, and its default where
/// the field has one and the text is empty).
pub proof fn lemma_fle_config_fields(r: FieldLevelEncryptionConfig, n: Node, k: int)
    requires
        reads_fle_config(r, n),
        0 <= k < n.children@.len(),
        forall|j: int| 0 <= j < k ==> (#[trigger] n.children@[j]).name@ != n.children@[k].name@,
    ensures
        n.children@[k].name@ == "CallerReference"@ ==> r.caller_reference@ == n.children@[k].text@,
        n.children@[k].name@ == "Comment"@ ==> r.comment@ == n.children@[k].text@,
{
    lemma_first_child_text(n, k);
}

/// The settings of a fle profile config read from child elements are those elements'
/// texts: a field named after an element holds the text of the first child
/// of that name (as a number where the field is one, and its default where
/// the field has one and the text is empty).
pub proof fn lemma_fle_profile_config_fields(r: FieldLevelEncryptionProfileConfig, n: Node, k: int)
    requires
        reads_fle_profile_config(r, n),
        0 <= k < n.children@.len(),
        forall|j: int| 0 <= j < k ==> (#[trigger] n.children@[j]).name@ != n.children@[k].name@,
    ensures
        n.children@[k].name@ == "Name"@ ==> r.name@ == n.children@[k].text@,
        n.children@[k].name@ == "CallerReference"@ ==> r.caller_reference@ == n.children@[k].text@,
        n.children@[k].name@ == "Comment"@ ==> r.comment@ == n.children@[k].text@,
{
    lemma_first_child_text(n, k);
}

/// The settings of a realtime log config read from child elements are those elements'
/// texts: a field named after an element holds the text of the first child
/// of that name (as a number where the field is one, and its default where
/// the field has one and the text is empty).
pub proof fn lemma_realtime_log_config_fields(r: RealtimeLogConfig, n: Node, k: int)
    requires
        reads_realtime_log_config(r, n),
        0 <= k < n.children@.len(),
        forall|j: int| 0 <= j < k ==> (#[trigger] n.children@[j]).name@ != n.children@[k].name@,
    ensures
        n.children@[k].name@ == "ARN"@ ==> r.arn@ == n.children@[k].text@,
        n.children@[k].name@ == "Name"@ ==> r.name@ == n.children@[k].text@,
        n.children@[k].name@ == "SamplingRate"@ ==> r.sampling_rate == int64_text(n.children@[k].text@),
{
    lemma_first_child_text(n, k);
}

/// The settings of a tag read from child elements are those elements'
/// texts: a field named after an element holds the text of the first child
/// of that name (as a number where the field is one, and its default where
/// the field has one and the text is empty).
pub proof fn lemma_tag_fields(r: Tag, n: Node, k: int)
    requires
        reads_tag(r, n),
        0 <= k < n.children@.len(),
        forall|j: int| 0 <= j < k ==> (#[trigger] n.children@[j]).name@ != n.children@[k].name@,
    ensures
        n.children@[k].name@ == "Key"@ ==> r.key@ == n.children@[k].text@,
        n.children@[k].name@ == "Value"@ ==> r.value@ == n.children@[k].text@,
{
    lemma_first_child_text(n, k);
}

/// The first child with a given name is what a lookup by that name finds.
pub proof fn lemma_first_child(n: Node, k: int)
    requires
        0 <= k < n.children@.len(),
        forall|j: int| 0 <= j < k ==> (#[trigger] n.children@[j]).name@ != n.children@[k].name@,
    ensures
        child_of(n, n.children@[k].name@) == Some(n.children@[k]),
{
    let p = node_named(n.children@[k].name@);
    assert(is_first(n.children@, p, k));
    lemma_first_index_is(n.children@, p, k);
}

/// The list and flag settings of a custom origin come from the child elements
/// they are named after: a list holds the texts of the named items inside the
/// `Items` child of its element (the first of each name), a nested flag the
/// first such child's flag text, and a presence flag is set by the element.
pub proof fn lemma_custom_origin_lists(c: CustomOriginConfig, n: Node, k: int, j: int)
    requires
        reads_custom_origin(c, n),
        0 <= k < n.children@.len(),
        forall|i: int| 0 <= i < k ==> (#[trigger] n.children@[i]).name@ != n.children@[k].name@,
        0 <= j < n.children@[k].children@.len(),
        forall|i: int|
            0 <= i < j ==> (#[trigger] n.children@[k].children@[i]).name@
                != n.children@[k].children@[j].name@,
    ensures
        n.children@[k].name@ == "OriginSslProtocols"@ && n.children@[k].children@[j].name@ == "Items"@ ==> strs(c.origin_ssl_protocols) == texts(n.children@[k].children@[j].children@.filter(node_named("SslProtocol"@))),
{
    lemma_first_child(n, k);
    lemma_first_child(n.children@[k], j);
}

/// The list and flag settings of a cookie preference come from the child elements
/// they are named after: a list holds the texts of the named items inside the
/// `Items` child of its element (the first of each name), a nested flag the
/// first such child's flag text, and a presence flag is set by the element.
pub proof fn lemma_cookie_preference_lists(c: CookiePreference, n: Node, k: int, j: int)
    requires
        reads_cookie_preference(c, n),
        0 <= k < n.children@.len(),
        forall|i: int| 0 <= i < k ==> (#[trigger] n.children@[i]).name@ != n.children@[k].name@,
        0 <= j < n.children@[k].children@.len(),
        forall|i: int|
            0 <= i < j ==> (#[trigger] n.children@[k].children@[i]).name@
                != n.children@[k].children@[j].name@,
    ensures
        n.children@[k].name@ == "WhitelistedNames"@ && n.children@[k].children@[j].name@ == "Items"@ ==> strs(c.whitelisted_names) == texts(n.children@[k].children@[j].children@.filter(node_named("Name"@))),
{
    lemma_first_child(n, k);
    lemma_first_child(n.children@[k], j);
}

/// The list and flag settings of a forwarded values come from the child elements
/// they are named after: a list holds the texts of the named items inside the
/// `Items` child of its element (the first of each name), a nested flag the
/// first such child's flag text, and a presence flag is set by the element.
pub proof fn lemma_forwarded_values_lists(f: ForwardedValues, n: Node, k: int, j: int)
    requires
        reads_forwarded_values(f, n),
        0 <= k < n.children@.len(),
        forall|i: int| 0 <= i < k ==> (#[trigger] n.children@[i]).name@ != n.children@[k].name@,
        0 <= j < n.children@[k].children@.len(),
        forall|i: int|
            0 <= i < j ==> (#[trigger] n.children@[k].children@[i]).name@
                != n.children@[k].children@[j].name@,
    ensures
        n.children@[k].name@ == "Headers"@ && n.children@[k].children@[j].name@ == "Items"@ ==> strs(f.headers) == texts(n.children@[k].children@[j].children@.filter(node_named("Name"@))),
        n.children@[k].name@ == "QueryStringCacheKeys"@ && n.children@[k].children@[j].name@ == "Items"@ ==> strs(f.query_string_cache_keys) == texts(n.children@[k].children@[j].children@.filter(node_named("Name"@))),
{
    lemma_first_child(n, k);
    lemma_first_child(n.children@[k], j);
}

/// The list and flag settings of a cache behavior come from the child elements
/// they are named after: a list holds the texts of the named items inside the
/// `Items` child of its element (the first of each name), a nested flag the
/// first such child's flag text, and a presence flag is set by the element.
pub proof fn lemma_cache_behavior_lists(b: CacheBehavior, n: Node, k: int, j: int)
    requires
        reads_cache_behavior(b, n),
        0 <= k < n.children@.len(),
        forall|i: int| 0 <= i < k ==> (#[trigger] n.children@[i]).name@ != n.children@[k].name@,
        0 <= j < n.children@[k].children@.len(),
        forall|i: int|
            0 <= i < j ==> (#[trigger] n.children@[k].children@[i]).name@
                != n.children@[k].children@[j].name@,
    ensures
        n.children@[k].name@ == "AllowedMethods"@ && n.children@[k].children@[j].name@ == "Items"@ ==> strs(b.allowed_methods) == texts(n.children@[k].children@[j].children@.filter(node_named("Method"@))),
        n.children@[k].name@ == "GrpcConfig"@ && n.children@[k].children@[j].name@ == "Enabled"@ ==> b.grpc_enabled == true_word(trim(n.children@[k].children@[j].text@)),
        n.children@[k].name@ == "TrustedSigners"@ && n.children@[k].children@[j].name@ == "Items"@ ==> strs(b.trusted_signers) == texts(n.children@[k].children@[j].children@.filter(node_named("AwsAccountNumber"@))),
        n.children@[k].name@ == "TrustedSigners"@ && n.children@[k].children@[j].name@ == "Enabled"@ ==> b.trusted_signers_enabled == true_word(trim(n.children@[k].children@[j].text@)),
        n.children@[k].name@ == "TrustedKeyGroups"@ && n.children@[k].children@[j].name@ == "Items"@ ==> strs(b.trusted_key_groups) == texts(n.children@[k].children@[j].children@.filter(node_named("KeyGroup"@))),
        n.children@[k].name@ == "TrustedKeyGroups"@ && n.children@[k].children@[j].name@ == "Enabled"@ ==> b.trusted_key_groups_enabled == true_word(trim(n.children@[k].children@[j].text@)),
{
    lemma_first_child(n, k);
    lemma_first_child(n.children@[k], j);
}

/// The list and flag settings of a distribution config come from the child elements
/// they are named after: a list holds the texts of the named items inside the
/// `Items` child of its element (the first of each name), a nested flag the
/// first such child's flag text, and a presence flag is set by the element.
pub proof fn lemma_distribution_config_lists(c: DistributionConfig, n: Node, k: int, j: int)
    requires
        reads_distribution_config(c, n),
        0 <= k < n.children@.len(),
        forall|i: int| 0 <= i < k ==> (#[trigger] n.children@[i]).name@ != n.children@[k].name@,
        0 <= j < n.children@[k].children@.len(),
        forall|i: int|
            0 <= i < j ==> (#[trigger] n.children@[k].children@[i]).name@
                != n.children@[k].children@[j].name@,
    ensures
        n.children@[k].name@ == "Aliases"@ && n.children@[k].children@[j].name@ == "Items"@ ==> strs(c.aliases) == texts(n.children@[k].children@[j].children@.filter(node_named("CNAME"@))),
{
    lemma_first_child(n, k);
    lemma_first_child(n.children@[k], j);
}

/// The list and flag settings of a invalidation batch come from the child elements
/// they are named after: a list holds the texts of the named items inside the
/// `Items` child of its element (the first of each name), a nested flag the
/// first such child's flag text, and a presence flag is set by the element.
pub proof fn lemma_invalidation_batch_lists(r: InvalidationBatch, n: Node, k: int, j: int)
    requires
        reads_invalidation_batch(r, n),
        0 <= k < n.children@.len(),
        forall|i: int| 0 <= i < k ==> (#[trigger] n.children@[i]).name@ != n.children@[k].name@,
        0 <= j < n.children@[k].children@.len(),
        forall|i: int|
            0 <= i < j ==> (#[trigger] n.children@[k].children@[i]).name@
                != n.children@[k].children@[j].name@,
    ensures
        n.children@[k].name@ == "Paths"@ && n.children@[k].children@[j].name@ == "Items"@ ==> strs(r.paths) == texts(n.children@[k].children@[j].children@.filter(node_named("Path"@))),
{
    lemma_first_child(n, k);
    lemma_first_child(n.children@[k], j);
}

/// The list and flag settings of a key group config come from the child elements
/// they are named after: a list holds the texts of the named items inside the
/// `Items` child of its element (the first of each name), a nested flag the
/// first such child's flag text, and a presence flag is set by the element.
pub proof fn lemma_key_group_config_lists(r: KeyGroupConfig, n: Node, k: int, j: int)
    requires
        reads_key_group_config(r, n),
        0 <= k < n.children@.len(),
        forall|i: int| 0 <= i < k ==> (#[trigger] n.children@[i]).name@ != n.children@[k].name@,
        0 <= j < n.children@[k].children@.len(),
        forall|i: int|
            0 <= i < j ==> (#[trigger] n.children@[k].children@[i]).name@
                != n.children@[k].children@[j].name@,
    ensures
        n.children@[k].name@ == "Items"@ ==> strs(r.items) == texts(n.children@[k].children@.filter(node_named("PublicKey"@))),
{
    lemma_first_child(n, k);
    lemma_first_child(n.children@[k], j);
}

/// The list and flag settings of a function config come from the child elements
/// they are named after: a list holds the texts of the named items inside the
/// `Items` child of its element (the first of each name), a nested flag the
/// first such child's flag text, and a presence flag is set by the element.
pub proof fn lemma_function_config_lists(r: FunctionConfig, n: Node, k: int, j: int)
    requires
        reads_function_config(r, n),
        0 <= k < n.children@.len(),
        forall|i: int| 0 <= i < k ==> (#[trigger] n.children@[i]).name@ != n.children@[k].name@,
        0 <= j < n.children@[k].children@.len(),
        forall|i: int|
            0 <= i < j ==> (#[trigger] n.children@[k].children@[i]).name@
                != n.children@[k].children@[j].name@,
    ensures
        n.children@[k].name@ == "KeyValueStoreAssociations"@ && n.children@[k].children@[j].name@ == "Items"@ ==> strs(r.key_value_store_associations) == texts(n.children@[k].children@[j].children@.filter(node_named("KeyValueStoreAssociation"@))),
{
    lemma_first_child(n, k);
    lemma_first_child(n.children@[k], j);
}

/// A field-level encryption config enables a profile configuration exactly
/// when it has an element of that name: `QueryArgProfileConfig` for query
/// arguments, `ContentTypeProfileConfig` for content types.
pub proof fn lemma_fle_config_profiles(r: FieldLevelEncryptionConfig, n: Node, k: int)
    requires
        reads_fle_config(r, n),
        0 <= k < n.children@.len(),
    ensures
        n.children@[k].name@ == "QueryArgProfileConfig"@ ==> r.query_arg_profile_config_enabled,
        n.children@[k].name@ == "ContentTypeProfileConfig"@ ==> r.content_type_profile_config_enabled,
        !has_child_named(n, "QueryArgProfileConfig"@) ==> !r.query_arg_profile_config_enabled,
        !has_child_named(n, "ContentTypeProfileConfig"@) ==> !r.content_type_profile_config_enabled,
{
    let q1 = node_named("QueryArgProfileConfig"@);
    let q2 = node_named("ContentTypeProfileConfig"@);
    lemma_first_index_props(n.children@, q1);
    lemma_first_index_props(n.children@, q2);
    if !has_child_named(n, "QueryArgProfileConfig"@) {
        let i = first_index(n.children@, q1) as int;
        if i < n.children@.len() {
            assert(q1(n.children@[i]));
        }
    }
    if !has_child_named(n, "ContentTypeProfileConfig"@) {
        let i = first_index(n.children@, q2) as int;
        if i < n.children@.len() {
            assert(q2(n.children@[i]));
        }
    }
}

/// The list and flag settings of a realtime log config come from the child elements
/// they are named after: a list holds the texts of the named items inside the
/// `Items` child of its element (the first of each name), a nested flag the
/// first such child's flag text, and a presence flag is set by the element.
pub proof fn lemma_realtime_log_config_lists(r: RealtimeLogConfig, n: Node, k: int, j: int)
    requires
        reads_realtime_log_config(r, n),
        0 <= k < n.children@.len(),
        forall|i: int| 0 <= i < k ==> (#[trigger] n.children@[i]).name@ != n.children@[k].name@,
        0 <= j < n.children@[k].children@.len(),
        forall|i: int|
            0 <= i < j ==> (#[trigger] n.children@[k].children@[i]).name@
                != n.children@[k].children@[j].name@,
    ensures
        n.children@[k].name@ == "Fields"@ && n.children@[k].children@[j].name@ == "Items"@ ==> strs(r.fields) == texts(n.children@[k].children@[j].children@.filter(node_named("Field"@))),
{
    lemma_first_child(n, k);
    lemma_first_child(n.children@[k], j);
}

/// The sections of a distribution config come from the elements they are
/// named after (the first of each name): the default cache behavior from
/// `DefaultCacheBehavior`, logging from `Logging`, the certificate from
/// `ViewerCertificate` and the restrictions from `Restrictions`.
pub proof fn lemma_distribution_config_sections(c: DistributionConfig, n: Node, k: int)
    requires
        reads_distribution_config(c, n),
        0 <= k < n.children@.len(),
        forall|i: int| 0 <= i < k ==> (#[trigger] n.children@[i]).name@ != n.children@[k].name@,
    ensures
        n.children@[k].name@ == "DefaultCacheBehavior"@ ==> reads_cache_behavior(c.default_cache_behavior, n.children@[k]),
        n.children@[k].name@ == "Logging"@ ==> reads_logging(c.logging, n.children@[k]),
        n.children@[k].name@ == "ViewerCertificate"@ ==> reads_viewer_certificate(c.viewer_certificate, n.children@[k]),
        n.children@[k].name@ == "Restrictions"@ ==> reads_restrictions(c.restrictions, n.children@[k]),
{
    lemma_first_child(n, k);
}

/// The lists of a distribution config come from the items inside the `Items`
/// child of the element named after them, one entry per item, in order:
/// origins from `Origins`/`Origin`, origin groups from
/// `OriginGroups`/`OriginGroup`, cache behaviors from
/// `CacheBehaviors`/`CacheBehavior` and error responses from
/// `CustomErrorResponses`/`CustomErrorResponse`.
pub proof fn lemma_distribution_config_items(c: DistributionConfig, n: Node, k: int, j: int)
    requires
        reads_distribution_config(c, n),
        0 <= k < n.children@.len(),
        forall|i: int| 0 <= i < k ==> (#[trigger] n.children@[i]).name@ != n.children@[k].name@,
        0 <= j < n.children@[k].children@.len(),
        forall|i: int|
            0 <= i < j ==> (#[trigger] n.children@[k].children@[i]).name@
                != n.children@[k].children@[j].name@,
        n.children@[k].children@[j].name@ == "Items"@,
    ensures
        n.children@[k].name@ == "Origins"@ ==> c.origins@.len() == n.children@[k].children@[j].children@.filter(node_named("Origin"@)).len() && forall|i: int|
            0 <= i < c.origins@.len() ==> reads_origin(
                #[trigger] c.origins@[i],
                n.children@[k].children@[j].children@.filter(node_named("Origin"@))[i],
            ),
        n.children@[k].name@ == "OriginGroups"@ ==> c.origin_groups@.len() == n.children@[k].children@[j].children@.filter(node_named("OriginGroup"@)).len()
            && forall|i: int|
            0 <= i < c.origin_groups@.len() ==> reads_origin_group(
                #[trigger] c.origin_groups@[i],
                n.children@[k].children@[j].children@.filter(node_named("OriginGroup"@))[i],
            ),
        n.children@[k].name@ == "CacheBehaviors"@ ==> c.cache_behaviors@.len() == n.children@[k].children@[j].children@.filter(node_named("CacheBehavior"@)).len()
            && forall|i: int|
            0 <= i < c.cache_behaviors@.len() ==> reads_cache_behavior(
                #[trigger] c.cache_behaviors@[i],
                n.children@[k].children@[j].children@.filter(node_named("CacheBehavior"@))[i],
            ),
        n.children@[k].name@ == "CustomErrorResponses"@ ==> c.custom_error_responses@.len() == n.children@[k].children@[j].children@.filter(node_named("CustomErrorResponse"@)).len()
            && forall|i: int|
            0 <= i < c.custom_error_responses@.len() ==> reads_custom_error_response(
                #[trigger] c.custom_error_responses@[i],
                n.children@[k].children@[j].children@.filter(node_named("CustomErrorResponse"@))[i],
            ),
{
    lemma_first_child(n, k);
    lemma_first_child(n.children@[k], j);
}

/// The parts of an origin come from the elements they are named after (the
/// first of each name): an S3 origin's access identity from
/// `S3OriginConfig`, the custom origin settings from `CustomOriginConfig`, and
/// the origin shield's flag and region from `OriginShield`; the custom headers
/// from the `OriginCustomHeader` items of `CustomHeaders`.
pub proof fn lemma_origin_sections(o: Origin, n: Node, k: int)
    requires
        reads_origin(o, n),
        0 <= k < n.children@.len(),
        forall|i: int| 0 <= i < k ==> (#[trigger] n.children@[i]).name@ != n.children@[k].name@,
    ensures
        n.children@[k].name@ == "S3OriginConfig"@ ==> o.s3_origin_config is Some
            && o.s3_origin_config.unwrap().origin_access_identity@ == child_text_of(
            n.children@[k],
            "OriginAccessIdentity"@,
        ),
        n.children@[k].name@ == "CustomOriginConfig"@ ==> o.custom_origin_config is Some && reads_custom_origin(
            o.custom_origin_config.unwrap(),
            n.children@[k],
        ),
        n.children@[k].name@ == "OriginShield"@ ==> o.origin_shield is Some
            && o.origin_shield.unwrap().enabled == flag_of(n.children@[k], "Enabled"@)
            && o.origin_shield.unwrap().origin_shield_region@ == child_text_of(
            n.children@[k],
            "OriginShieldRegion"@,
        ),
        n.children@[k].name@ == "CustomHeaders"@ ==> o.custom_headers@.len() == direct_items_of(
            n.children@[k],
            "OriginCustomHeader"@,
        ).len(),
{
    lemma_first_child(n, k);
}

/// The parts of a cache behavior come from the elements they are named after
/// (the first of each name): the forwarded values from `ForwardedValues`, the
/// Lambda@Edge associations from the `LambdaFunctionAssociation` items of
/// `LambdaFunctionAssociations`, the function associations from the
/// `FunctionAssociation` items of `FunctionAssociations`.
pub proof fn lemma_cache_behavior_sections(b: CacheBehavior, n: Node, k: int)
    requires
        reads_cache_behavior(b, n),
        0 <= k < n.children@.len(),
        forall|i: int| 0 <= i < k ==> (#[trigger] n.children@[i]).name@ != n.children@[k].name@,
    ensures
        n.children@[k].name@ == "ForwardedValues"@ ==> b.forwarded_values is Some && reads_forwarded_values(
            b.forwarded_values.unwrap(),
            n.children@[k],
        ),
        n.children@[k].name@ == "LambdaFunctionAssociations"@ ==> b.lambda_function_associations@.len()
            == direct_items_of(n.children@[k], "LambdaFunctionAssociation"@).len() && forall|i: int|
            0 <= i < b.lambda_function_associations@.len() ==> reads_lambda_association(
                #[trigger] b.lambda_function_associations@[i],
                direct_items_of(n.children@[k], "LambdaFunctionAssociation"@)[i],
            ),
        n.children@[k].name@ == "FunctionAssociations"@ ==> b.function_associations@.len() == direct_items_of(
            n.children@[k],
            "FunctionAssociation"@,
        ).len() && forall|i: int|
            0 <= i < b.function_associations@.len() ==> reads_function_association(
                #[trigger] b.function_associations@[i],
                direct_items_of(n.children@[k], "FunctionAssociation"@)[i],
            ),
{
    lemma_first_child(n, k);
}

/// Whether `n` has a child with the given name.
pub open spec fn has_child_named(n: Node, name: Seq<char>) -> bool {
    exists|j: int| 0 <= j < n.children@.len() && (#[trigger] n.children@[j]).name@ == name
}

/// The text of the first child with a name is what a lookup by that name gives.
pub proof fn lemma_first_child_text(n: Node, k: int)
    requires
        0 <= k < n.children@.len(),
        forall|j: int| 0 <= j < k ==> (#[trigger] n.children@[j]).name@ != n.children@[k].name@,
    ensures
        child_text_of(n, n.children@[k].name@) == n.children@[k].text@,
{
    let p = node_named(n.children@[k].name@);
    assert(is_first(n.children@, p, k));
    lemma_first_index_is(n.children@, p, k);
}

/// Without a child of that name, a lookup by the name gives empty text.
pub proof fn lemma_absent_child_text(n: Node, name: Seq<char>)
    requires
        !has_child_named(n, name),
    ensures
        child_text_of(n, name) == Seq::<char>::empty(),
{
    let p = node_named(name);
    assert forall|j: int| 0 <= j < n.children@.len() implies !p(#[trigger] n.children@[j]) by {
        if p(n.children@[j]) {
            assert(has_child_named(n, name));
        }
    }
    assert(is_first(n.children@, p, n.children@.len() as int));
    lemma_first_index_is(n.children@, p, n.children@.len() as int);
}

/// Each text setting of a cache behavior is the text of the first child
/// element of that name (`CachePolicyId` gives the cache policy, and so on),
/// and is empty when there is no such child.
pub proof fn lemma_cache_behavior_texts(b: CacheBehavior, n: Node, k: int)
    requires
        reads_cache_behavior(b, n),
        0 <= k < n.children@.len(),
        forall|j: int| 0 <= j < k ==> (#[trigger] n.children@[j]).name@ != n.children@[k].name@,
    ensures
        n.children@[k].name@ == "PathPattern"@ ==> b.path_pattern@ == n.children@[k].text@,
        n.children@[k].name@ == "TargetOriginId"@ ==> b.target_origin_id@ == n.children@[k].text@,
        n.children@[k].name@ == "ViewerProtocolPolicy"@ ==> b.viewer_protocol_policy@ == n.children@[k].text@,
        n.children@[k].name@ == "FieldLevelEncryptionId"@ ==> b.field_level_encryption_id@ == n.children@[k].text@,
        n.children@[k].name@ == "RealtimeLogConfigArn"@ ==> b.realtime_log_config_arn@ == n.children@[k].text@,
        n.children@[k].name@ == "CachePolicyId"@ ==> b.cache_policy_id@ == n.children@[k].text@,
        n.children@[k].name@ == "OriginRequestPolicyId"@ ==> b.origin_request_policy_id@ == n.children@[k].text@,
        n.children@[k].name@ == "ResponseHeadersPolicyId"@ ==> b.response_headers_policy_id@ == n.children@[k].text@,
        !has_child_named(n, "PathPattern"@) ==> b.path_pattern@ == Seq::<char>::empty(),
        !has_child_named(n, "TargetOriginId"@) ==> b.target_origin_id@ == Seq::<char>::empty(),
        !has_child_named(n, "ViewerProtocolPolicy"@) ==> b.viewer_protocol_policy@ == Seq::<char>::empty(),
        !has_child_named(n, "FieldLevelEncryptionId"@) ==> b.field_level_encryption_id@ == Seq::<char>::empty(),
        !has_child_named(n, "RealtimeLogConfigArn"@) ==> b.realtime_log_config_arn@ == Seq::<char>::empty(),
        !has_child_named(n, "CachePolicyId"@) ==> b.cache_policy_id@ == Seq::<char>::empty(),
        !has_child_named(n, "OriginRequestPolicyId"@) ==> b.origin_request_policy_id@ == Seq::<char>::empty(),
        !has_child_named(n, "ResponseHeadersPolicyId"@) ==> b.response_headers_policy_id@ == Seq::<char>::empty(),
{
    lemma_first_child_text(n, k);
    if !has_child_named(n, "PathPattern"@) {
        lemma_absent_child_text(n, "PathPattern"@);
    }
    if !has_child_named(n, "TargetOriginId"@) {
        lemma_absent_child_text(n, "TargetOriginId"@);
    }
    if !has_child_named(n, "ViewerProtocolPolicy"@) {
        lemma_absent_child_text(n, "ViewerProtocolPolicy"@);
    }
    if !has_child_named(n, "FieldLevelEncryptionId"@) {
        lemma_absent_child_text(n, "FieldLevelEncryptionId"@);
    }
    if !has_child_named(n, "RealtimeLogConfigArn"@) {
        lemma_absent_child_text(n, "RealtimeLogConfigArn"@);
    }
    if !has_child_named(n, "CachePolicyId"@) {
        lemma_absent_child_text(n, "CachePolicyId"@);
    }
    if !has_child_named(n, "OriginRequestPolicyId"@) {
        lemma_absent_child_text(n, "OriginRequestPolicyId"@);
    }
    if !has_child_named(n, "ResponseHeadersPolicyId"@) {
        lemma_absent_child_text(n, "ResponseHeadersPolicyId"@);
    }
}


#[verifier::rlimit(30)]
fn parse_cache_behavior(n: &Node) -> (r: CacheBehavior)
    ensures
        reads_cache_behavior(r, *n),
{
    let allowed = n.child("AllowedMethods");
    let allowed_methods = direct_texts_of(allowed, "Method");
    let cached_methods = match allowed {
        Some(a) => direct_texts_of(a.child("CachedMethods"), "Method"),
        None => {
            let v: Vec<String> = Vec::new();
            assert(strs(v) =~= Seq::<Seq<char>>::empty());
            v
        },
    };
    let trusted = n.child("TrustedSigners");
    let key_groups = n.child("TrustedKeyGroups");
    let lambda_nodes = n.items_named("LambdaFunctionAssociations", "LambdaFunctionAssociation");
    let lambda_function_associations = map_nodes(&lambda_nodes, parse_lambda_association);
    assert forall|i: int| 0 <= i < lambda_nodes@.len() implies reads_lambda_association(
        #[trigger] lambda_function_associations@[i],
        items_of(*n, "LambdaFunctionAssociations"@, "LambdaFunctionAssociation"@)[i],
    ) by {
        assert(node_seq(lambda_nodes)[i] == *lambda_nodes@[i]);
    }
    let function_nodes = n.items_named("FunctionAssociations", "FunctionAssociation");
    let function_associations = map_nodes(&function_nodes, parse_function_association);
    assert forall|i: int| 0 <= i < function_nodes@.len() implies reads_function_association(
        #[trigger] function_associations@[i],
        items_of(*n, "FunctionAssociations"@, "FunctionAssociation"@)[i],
    ) by {
        assert(node_seq(function_nodes)[i] == *function_nodes@[i]);
    }
    let forwarded_values = match n.child("ForwardedValues") {
        Some(f) => Some(parse_forwarded_values(f)),
        None => None,
    };
    CacheBehavior {
        path_pattern: own(n.child_text("PathPattern")),
        target_origin_id: own(n.child_text("TargetOriginId")),
        viewer_protocol_policy: own(n.child_text("ViewerProtocolPolicy")),
        allowed_methods,
        cached_methods,
        smooth_streaming: n.child_bool("SmoothStreaming"),
        compress: n.child_bool("Compress"),
        field_level_encryption_id: own(n.child_text("FieldLevelEncryptionId")),
        realtime_log_config_arn: own(n.child_text("RealtimeLogConfigArn")),
        cache_policy_id: own(n.child_text("CachePolicyId")),
        origin_request_policy_id: own(n.child_text("OriginRequestPolicyId")),
        response_headers_policy_id: own(n.child_text("ResponseHeadersPolicyId")),
        grpc_enabled: flag_in(n.child("GrpcConfig"), "Enabled"),
        trusted_signers: direct_texts_of(trusted, "AwsAccountNumber"),
        trusted_signers_enabled: flag_in(trusted, "Enabled"),
        trusted_key_groups: direct_texts_of(key_groups, "KeyGroup"),
        trusted_key_groups_enabled: flag_in(key_groups, "Enabled"),
        lambda_function_associations,
        function_associations,
        forwarded_values,
        min_ttl: n.child_i64("MinTTL"),
        default_ttl: n.child_i64("DefaultTTL"),
        max_ttl: n.child_i64("MaxTTL"),
    }
}

// ---------------------------------------------------------------------------
// Distributions
// ---------------------------------------------------------------------------

/// `e` holds what `<CustomErrorResponse>` node `n` says.
pub open spec fn reads_custom_error_response(e: CustomErrorResponse, n: Node) -> bool {
    &&& e.error_code == int32_of(n, "ErrorCode"@)
    &&& e.response_page_path@ == child_text_of(n, "ResponsePagePath"@)
    &&& e.response_code@ == child_text_of(n, "ResponseCode"@)
    &&& e.error_caching_min_ttl == int64_of(n, "ErrorCachingMinTTL"@)
}

fn parse_custom_error_response(n: &Node) -> (r: CustomErrorResponse)
    ensures
        reads_custom_error_response(r, *n),
{
    CustomErrorResponse {
        error_code: n.child_i32("ErrorCode"),
        response_page_path: own(n.child_text("ResponsePagePath")),
        response_code: own(n.child_text("ResponseCode")),
        error_caching_min_ttl: n.child_i64("ErrorCachingMinTTL"),
    }
}

/// `l` holds what `<Logging>` node `n` says.
pub open spec fn reads_logging(l: LoggingConfig, n: Node) -> bool {
    &&& l.enabled == flag_of(n, "Enabled"@)
    &&& l.include_cookies == flag_of(n, "IncludeCookies"@)
    &&& l.bucket@ == child_text_of(n, "Bucket"@)
    &&& l.prefix@ == child_text_of(n, "Prefix"@)
}

fn parse_logging(n: &Node) -> (r: LoggingConfig)
    ensures
        reads_logging(r, *n),
{
    LoggingConfig {
        enabled: n.child_bool("Enabled"),
        include_cookies: n.child_bool("IncludeCookies"),
        bucket: own(n.child_text("Bucket")),
        prefix: own(n.child_text("Prefix")),
    }
}

/// `v` holds what `<ViewerCertificate>` node `n` says.
pub open spec fn reads_viewer_certificate(v: ViewerCertificate, n: Node) -> bool {
    &&& v.cloud_front_default_certificate == flag_of(n, "CloudFrontDefaultCertificate"@)
    &&& v.acm_certificate_arn@ == child_text_of(n, "ACMCertificateArn"@)
    &&& v.iam_certificate_id@ == child_text_of(n, "IAMCertificateId"@)
    &&& v.minimum_protocol_version@ == child_text_of(n, "MinimumProtocolVersion"@)
    &&& v.ssl_support_method@ == child_text_of(n, "SSLSupportMethod"@)
    &&& v.certificate@ == child_text_of(n, "Certificate"@)
    &&& v.certificate_source@ == child_text_of(n, "CertificateSource"@)
}

fn parse_viewer_certificate(n: &Node) -> (r: ViewerCertificate)
    ensures
        reads_viewer_certificate(r, *n),
{
    ViewerCertificate {
        cloud_front_default_certificate: n.child_bool("CloudFrontDefaultCertificate"),
        acm_certificate_arn: own(n.child_text("ACMCertificateArn")),
        iam_certificate_id: own(n.child_text("IAMCertificateId")),
        minimum_protocol_version: own(n.child_text("MinimumProtocolVersion")),
        ssl_support_method: own(n.child_text("SSLSupportMethod")),
        certificate: own(n.child_text("Certificate")),
        certificate_source: own(n.child_text("CertificateSource")),
    }
}

/// `r` holds what `<Restrictions>` node `n` says.
pub open spec fn reads_restrictions(r: Restrictions, n: Node) -> bool {
    match child_of(n, "GeoRestriction"@) {
        Some(g) => r.geo_restriction.restriction_type@ == child_text_of(g, "RestrictionType"@)
            && strs(r.geo_restriction.locations) == texts(direct_items_of(g, "Location"@)),
        None => r.geo_restriction.restriction_type@ == Seq::<char>::empty()
            && r.geo_restriction.locations@.len() == 0,
    }
}

fn parse_restrictions(n: &Node) -> (r: Restrictions)
    ensures
        reads_restrictions(r, *n),
{
    let geo_restriction = match n.child("GeoRestriction") {
        Some(g) => GeoRestriction {
            restriction_type: own(g.child_text("RestrictionType")),
            locations: g.direct_string_items("Location"),
        },
        None => GeoRestriction::default(),
    };
    Restrictions { geo_restriction }
}

/// `c` holds what `<DistributionConfig>` node `n` says.
pub open spec fn reads_distribution_config(c: DistributionConfig, n: Node) -> bool {
    &&& c.caller_reference@ == child_text_of(n, "CallerReference"@)
    &&& strs(c.aliases) == texts(items_of(n, "Aliases"@, "CNAME"@))
    &&& c.default_root_object@ == child_text_of(n, "DefaultRootObject"@)
    &&& {
        let os = items_of(n, "Origins"@, "Origin"@);
        &&& c.origins@.len() == os.len()
        &&& forall|i: int| 0 <= i < os.len() ==> reads_origin(#[trigger] c.origins@[i], os[i])
    }
    &&& {
        let gs = items_of(n, "OriginGroups"@, "OriginGroup"@);
        &&& c.origin_groups@.len() == gs.len()
        &&& forall|i: int|
            0 <= i < gs.len() ==> reads_origin_group(#[trigger] c.origin_groups@[i], gs[i])
    }
    &&& match child_of(n, "DefaultCacheBehavior"@) {
        Some(d) => reads_cache_behavior(c.default_cache_behavior, d),
        None => blank_cache_behavior(c.default_cache_behavior),
    }
    &&& {
        let bs = items_of(n, "CacheBehaviors"@, "CacheBehavior"@);
        &&& c.cache_behaviors@.len() == bs.len()
        &&& forall|i: int|
            0 <= i < bs.len() ==> reads_cache_behavior(#[trigger] c.cache_behaviors@[i], bs[i])
    }
    &&& {
        let es = items_of(n, "CustomErrorResponses"@, "CustomErrorResponse"@);
        &&& c.custom_error_responses@.len() == es.len()
        &&& forall|i: int|
            0 <= i < es.len() ==> reads_custom_error_response(
                #[trigger] c.custom_error_responses@[i],
                es[i],
            )
    }
    &&& c.comment@ == child_text_of(n, "Comment"@)
    &&& match child_of(n, "Logging"@) {
        Some(l) => reads_logging(c.logging, l),
        None => !c.logging.enabled && !c.logging.include_cookies && c.logging.bucket@
            == Seq::<char>::empty() && c.logging.prefix@ == Seq::<char>::empty(),
    }
    &&& c.price_class@ == child_text_of(n, "PriceClass"@)
    &&& c.enabled == flag_of(n, "Enabled"@)
    &&& match child_of(n, "ViewerCertificate"@) {
        Some(v) => reads_viewer_certificate(c.viewer_certificate, v),
        None => blank_viewer_certificate(c.viewer_certificate),
    }
    &&& match child_of(n, "Restrictions"@) {
        Some(r) => reads_restrictions(c.restrictions, r),
        None => c.restrictions.geo_restriction.restriction_type@ == Seq::<char>::empty()
            && c.restrictions.geo_restriction.locations@.len() == 0,
    }
    &&& c.web_acl_id@ == child_text_of(n, "WebACLId"@)
    &&& c.http_version@ == child_text_of(n, "HttpVersion"@)
    &&& c.is_ipv6_enabled == flag_of(n, "IsIPV6Enabled"@)
    &&& c.continuous_deployment_policy_id@ == child_text_of(n, "ContinuousDeploymentPolicyId"@)
    &&& c.staging == flag_of(n, "Staging"@)
    &&& c.anycast_ip_list_id@ == child_text_of(n, "AnycastIpListId"@)
    &&& c.connection_mode@ == child_text_of(n, "ConnectionMode"@)
}

/// Parse `<DistributionConfig>`.
#[verifier::rlimit(40)]
pub fn parse_distribution_config(n: &Node) -> (r: DistributionConfig)
    ensures
        reads_distribution_config(r, *n),
{
    let origin_nodes = n.items_named("Origins", "Origin");
    let origins = map_nodes(&origin_nodes, parse_origin);
    assert forall|i: int| 0 <= i < origin_nodes@.len() implies reads_origin(
        #[trigger] origins@[i],
        items_of(*n, "Origins"@, "Origin"@)[i],
    ) by {
        assert(node_seq(origin_nodes)[i] == *origin_nodes@[i]);
    }
    let group_nodes = n.items_named("OriginGroups", "OriginGroup");
    let origin_groups = map_nodes(&group_nodes, parse_origin_group);
    assert forall|i: int| 0 <= i < group_nodes@.len() implies reads_origin_group(
        #[trigger] origin_groups@[i],
        items_of(*n, "OriginGroups"@, "OriginGroup"@)[i],
    ) by {
        assert(node_seq(group_nodes)[i] == *group_nodes@[i]);
    }
    let default_cache_behavior = match n.child("DefaultCacheBehavior") {
        Some(d) => parse_cache_behavior(d),
        None => CacheBehavior::default(),
    };
    let behavior_nodes = n.items_named("CacheBehaviors", "CacheBehavior");
    let cache_behaviors = map_nodes(&behavior_nodes, parse_cache_behavior);
    assert forall|i: int| 0 <= i < behavior_nodes@.len() implies reads_cache_behavior(
        #[trigger] cache_behaviors@[i],
        items_of(*n, "CacheBehaviors"@, "CacheBehavior"@)[i],
    ) by {
        assert(node_seq(behavior_nodes)[i] == *behavior_nodes@[i]);
    }
    let error_nodes = n.items_named("CustomErrorResponses", "CustomErrorResponse");
    let custom_error_responses = map_nodes(&error_nodes, parse_custom_error_response);
    assert forall|i: int| 0 <= i < error_nodes@.len() implies reads_custom_error_response(
        #[trigger] custom_error_responses@[i],
        items_of(*n, "CustomErrorResponses"@, "CustomErrorResponse"@)[i],
    ) by {
        assert(node_seq(error_nodes)[i] == *error_nodes@[i]);
    }
    let logging = match n.child("Logging") {
        Some(l) => parse_logging(l),
        None => LoggingConfig::default(),
    };
    let viewer_certificate = match n.child("ViewerCertificate") {
        Some(v) => parse_viewer_certificate(v),
        None => ViewerCertificate::default(),
    };
    let restrictions = match n.child("Restrictions") {
        Some(x) => parse_restrictions(x),
        None => Restrictions::default(),
    };
    DistributionConfig {
        caller_reference: own(n.child_text("CallerReference")),
        aliases: n.string_items("Aliases", "CNAME"),
        default_root_object: own(n.child_text("DefaultRootObject")),
        origins,
        origin_groups,
        default_cache_behavior,
        cache_behaviors,
        custom_error_responses,
        comment: own(n.child_text("Comment")),
        logging,
        price_class: own(n.child_text("PriceClass")),
        enabled: n.child_bool("Enabled"),
        viewer_certificate,
        restrictions,
        web_acl_id: own(n.child_text("WebACLId")),
        http_version: own(n.child_text("HttpVersion")),
        is_ipv6_enabled: n.child_bool("IsIPV6Enabled"),
        continuous_deployment_policy_id: own(n.child_text("ContinuousDeploymentPolicyId")),
        staging: n.child_bool("Staging"),
        anycast_ip_list_id: own(n.child_text("AnycastIpListId")),
        connection_mode: own(n.child_text("ConnectionMode")),
    }
}

// ---------------------------------------------------------------------------
// Request bodies of the other resources
// ---------------------------------------------------------------------------

/// Parse the incoming body into the root node; XML errors give
/// `MalformedInput` with the parser's message.
pub fn parse_root(body: &[u8]) -> (r: Result<Node, CloudFrontError>)
    ensures
        match r {
            Ok(n) => parse_result(body@) matches Ok(m) && models(n, m),
            Err(CloudFrontError::MalformedInput(e)) => parse_result(body@) == Err::<
                NodeModel,
                Seq<char>,
            >(e@),
            Err(_) => false,
        },
{
    match parse(body) {
        Ok(n) => Ok(n),
        Err(e) => Err(CloudFrontError::MalformedInput(e)),
    }
}

/// `r` holds what node `n` says.
pub open spec fn reads_invalidation_batch(r: InvalidationBatch, n: Node) -> bool {
    &&& strs(r.paths) == texts(items_of(n, "Paths"@, "Path"@))
    &&& r.caller_reference@ == child_text_of(n, "CallerReference"@)
}

/// Parse `<InvalidationBatch>`.
pub fn parse_invalidation_batch(n: &Node) -> (r: InvalidationBatch)
    ensures
        reads_invalidation_batch(r, *n),
{
    InvalidationBatch {
        paths: n.string_items("Paths", "Path"),
        caller_reference: own(n.child_text("CallerReference")),
    }
}

/// A child's text, or `fallback` when it is empty.
pub open spec fn text_or(n: Node, name: Seq<char>, fallback: Seq<char>) -> Seq<char> {
    if child_text_of(n, name).len() == 0 {
        fallback
    } else {
        child_text_of(n, name)
    }
}

fn child_text_or(n: &Node, name: &str, fallback: &str) -> (r: String)
    ensures
        r@ == text_or(*n, name@, fallback@),
{
    let s = n.child_text(name);
    if s.is_empty() {
        own(fallback)
    } else {
        own(s)
    }
}

/// `r` holds what node `n` says.
pub open spec fn reads_oac_config(r: OriginAccessControlConfig, n: Node) -> bool {
    &&& r.name@ == child_text_of(n, "Name"@)
    &&& r.description@ == child_text_of(n, "Description"@)
    &&& r.signing_protocol@ == text_or(n, "SigningProtocol"@, "sigv4"@)
    &&& r.signing_behavior@ == text_or(n, "SigningBehavior"@, "always"@)
    &&& r.origin_access_control_origin_type@ == text_or(
        n,
        "OriginAccessControlOriginType"@,
        "s3"@,
    )
}

/// Parse `<OriginAccessControlConfig>`; the signing protocol defaults to
/// `sigv4`, the signing behavior to `always` and the origin type to `s3`.
pub fn parse_oac_config(n: &Node) -> (r: OriginAccessControlConfig)
    ensures
        reads_oac_config(r, *n),
{
    OriginAccessControlConfig {
        name: own(n.child_text("Name")),
        description: own(n.child_text("Description")),
        signing_protocol: child_text_or(n, "SigningProtocol", "sigv4"),
        signing_behavior: child_text_or(n, "SigningBehavior", "always"),
        origin_access_control_origin_type: child_text_or(n, "OriginAccessControlOriginType", "s3"),
    }
}

/// `r` holds what node `n` says.
pub open spec fn reads_oai_config(r: CloudFrontOriginAccessIdentityConfig, n: Node) -> bool {
    &&& r.caller_reference@ == child_text_of(n, "CallerReference"@)
    &&& r.comment@ == child_text_of(n, "Comment"@)
}

/// Parse `<CloudFrontOriginAccessIdentityConfig>`.
pub fn parse_oai_config(n: &Node) -> (r: CloudFrontOriginAccessIdentityConfig)
    ensures
        reads_oai_config(r, *n),
{
    CloudFrontOriginAccessIdentityConfig {
        caller_reference: own(n.child_text("CallerReference")),
        comment: own(n.child_text("Comment")),
    }
}

/// The behavior text and the `<wrapper><Items><Name/>...` texts of an
/// optional headers, cookies or query-strings node; empty without the node.
pub open spec fn behavior_of(c: Option<Node>, behavior: Seq<char>, wrapper: Seq<char>) -> (
    Seq<char>,
    Seq<Seq<char>>,
) {
    match c {
        Some(x) => (child_text_of(x, behavior), texts(items_of(x, wrapper, "Name"@))),
        None => (Seq::<char>::empty(), Seq::<Seq<char>>::empty()),
    }
}

fn read_behavior(c: Option<&Node>, behavior: &str, wrapper: &str) -> (r: (String, Vec<String>))
    ensures
        (r.0@, strs(r.1)) == behavior_of(
            match c {
                Some(x) => Some(*x),
                None => None,
            },
            behavior@,
            wrapper@,
        ),
{
    proof {
        reveal_strlit("Name");
    }
    match c {
        Some(x) => (own(x.child_text(behavior)), x.string_items(wrapper, "Name")),
        None => {
            let v: Vec<String> = Vec::new();
            assert(strs(v) =~= Seq::<Seq<char>>::empty());
            (String::new(), v)
        },
    }
}

/// The child of an optional node.
pub open spec fn opt_child(c: Option<Node>, name: Seq<char>) -> Option<Node> {
    match c {
        Some(x) => child_of(x, name),
        None => None,
    }
}

fn child_in<'a>(c: Option<&'a Node>, name: &str) -> (r: Option<&'a Node>)
    ensures
        match r {
            Some(x) => opt_child(
                match c {
                    Some(y) => Some(*y),
                    None => None,
                },
                name@,
            ) == Some(*x),
            None => opt_child(
                match c {
                    Some(y) => Some(*y),
                    None => None,
                },
                name@,
            ) is None,
        },
{
    match c {
        Some(x) => x.child(name),
        None => None,
    }
}

/// `r` holds what node `n` says.
pub open spec fn reads_cache_policy_config(r: CachePolicyConfig, n: Node) -> bool {
    &&& r.comment@ == child_text_of(n, "Comment"@)
    &&& r.name@ == child_text_of(n, "Name"@)
    &&& r.default_ttl == int64_of(n, "DefaultTTL"@)
    &&& r.max_ttl == int64_of(n, "MaxTTL"@)
    &&& r.min_ttl == int64_of(n, "MinTTL"@)
    &&& ({
        let params = child_of(n, "ParametersInCacheKeyAndForwardedToOrigin"@);
        let p = r.parameters_in_cache_key_and_forwarded_to_origin;
        &&& p.enable_accept_encoding_gzip == opt_flag(params, "EnableAcceptEncodingGzip"@)
        &&& p.enable_accept_encoding_brotli == opt_flag(params, "EnableAcceptEncodingBrotli"@)
        &&& (p.headers_config.header_behavior@, strs(p.headers_config.headers)) == behavior_of(
            opt_child(params, "HeadersConfig"@),
            "HeaderBehavior"@,
            "Headers"@,
        )
        &&& (p.cookies_config.cookie_behavior@, strs(p.cookies_config.cookies)) == behavior_of(
            opt_child(params, "CookiesConfig"@),
            "CookieBehavior"@,
            "Cookies"@,
        )
        &&& (p.query_strings_config.query_string_behavior@, strs(
            p.query_strings_config.query_strings,
        )) == behavior_of(
            opt_child(params, "QueryStringsConfig"@),
            "QueryStringBehavior"@,
            "QueryStrings"@,
        )
    })
}

/// Parse `<CachePolicyConfig>`.
pub fn parse_cache_policy_config(n: &Node) -> (r: CachePolicyConfig)
    ensures
        reads_cache_policy_config(r, *n),
{
    let params = n.child("ParametersInCacheKeyAndForwardedToOrigin");
    let (header_behavior, headers) = read_behavior(
        child_in(params, "HeadersConfig"),
        "HeaderBehavior",
        "Headers",
    );
    let (cookie_behavior, cookies) = read_behavior(
        child_in(params, "CookiesConfig"),
        "CookieBehavior",
        "Cookies",
    );
    let (query_string_behavior, query_strings) = read_behavior(
        child_in(params, "QueryStringsConfig"),
        "QueryStringBehavior",
        "QueryStrings",
    );
    CachePolicyConfig {
        comment: own(n.child_text("Comment")),
        name: own(n.child_text("Name")),
        default_ttl: n.child_i64("DefaultTTL"),
        max_ttl: n.child_i64("MaxTTL"),
        min_ttl: n.child_i64("MinTTL"),
        parameters_in_cache_key_and_forwarded_to_origin: ParamsInCacheKey {
            enable_accept_encoding_gzip: flag_in(params, "EnableAcceptEncodingGzip"),
            enable_accept_encoding_brotli: flag_in(params, "EnableAcceptEncodingBrotli"),
            headers_config: CachePolicyHeadersConfig { header_behavior, headers },
            cookies_config: CachePolicyCookiesConfig { cookie_behavior, cookies },
            query_strings_config: CachePolicyQueryStringsConfig { query_string_behavior, query_strings },
        },
    }
}

/// `r` holds what node `n` says.
pub open spec fn reads_origin_request_policy_config(r: OriginRequestPolicyConfig, n: Node) -> bool {
    &&& r.comment@ == child_text_of(n, "Comment"@)
    &&& r.name@ == child_text_of(n, "Name"@)
    &&& (r.headers_config.header_behavior@, strs(r.headers_config.headers)) == behavior_of(
        child_of(n, "HeadersConfig"@),
        "HeaderBehavior"@,
        "Headers"@,
    )
    &&& (r.cookies_config.cookie_behavior@, strs(r.cookies_config.cookies)) == behavior_of(
        child_of(n, "CookiesConfig"@),
        "CookieBehavior"@,
        "Cookies"@,
    )
    &&& (r.query_strings_config.query_string_behavior@, strs(r.query_strings_config.query_strings))
        == behavior_of(
        child_of(n, "QueryStringsConfig"@),
        "QueryStringBehavior"@,
        "QueryStrings"@,
    )
}

/// Parse `<OriginRequestPolicyConfig>`.
pub fn parse_origin_request_policy_config(n: &Node) -> (r: OriginRequestPolicyConfig)
    ensures
        reads_origin_request_policy_config(r, *n),
{
    let (header_behavior, headers) = read_behavior(
        n.child("HeadersConfig"),
        "HeaderBehavior",
        "Headers",
    );
    let (cookie_behavior, cookies) = read_behavior(
        n.child("CookiesConfig"),
        "CookieBehavior",
        "Cookies",
    );
    let (query_string_behavior, query_strings) = read_behavior(
        n.child("QueryStringsConfig"),
        "QueryStringBehavior",
        "QueryStrings",
    );
    OriginRequestPolicyConfig {
        comment: own(n.child_text("Comment")),
        name: own(n.child_text("Name")),
        headers_config: OriginRequestPolicyHeadersConfig { header_behavior, headers },
        cookies_config: OriginRequestPolicyCookiesConfig { cookie_behavior, cookies },
        query_strings_config: OriginRequestPolicyQueryStringsConfig {
            query_string_behavior,
            query_strings,
        },
    }
}

/// `r` holds what node `n` says.
pub open spec fn reads_response_headers_policy_config(r: ResponseHeadersPolicyConfig, n: Node) -> bool {
    &&& r.comment@ == child_text_of(n, "Comment"@)
    &&& r.name@ == child_text_of(n, "Name"@)
}

/// Parse `<ResponseHeadersPolicyConfig>` (its name and comment).
pub fn parse_response_headers_policy_config(n: &Node) -> (r: ResponseHeadersPolicyConfig)
    ensures
        reads_response_headers_policy_config(r, *n),
{
    ResponseHeadersPolicyConfig {
        comment: own(n.child_text("Comment")),
        name: own(n.child_text("Name")),
    }
}

/// `r` holds what node `n` says.
pub open spec fn reads_key_group_config(r: KeyGroupConfig, n: Node) -> bool {
    &&& r.name@ == child_text_of(n, "Name"@)
    &&& strs(r.items) == texts(direct_items_of(n, "PublicKey"@))
    &&& r.comment@ == child_text_of(n, "Comment"@)
}

/// Parse `<KeyGroupConfig>`.
pub fn parse_key_group_config(n: &Node) -> (r: KeyGroupConfig)
    ensures
        reads_key_group_config(r, *n),
{
    KeyGroupConfig {
        name: own(n.child_text("Name")),
        items: n.direct_string_items("PublicKey"),
        comment: own(n.child_text("Comment")),
    }
}

/// `r` holds what node `n` says.
pub open spec fn reads_public_key_config(r: PublicKeyConfig, n: Node) -> bool {
    &&& r.caller_reference@ == child_text_of(n, "CallerReference"@)
    &&& r.name@ == child_text_of(n, "Name"@)
    &&& r.encoded_key@ == child_text_of(n, "EncodedKey"@)
    &&& r.comment@ == child_text_of(n, "Comment"@)
}

/// Parse `<PublicKeyConfig>`.
pub fn parse_public_key_config(n: &Node) -> (r: PublicKeyConfig)
    ensures
        reads_public_key_config(r, *n),
{
    PublicKeyConfig {
        caller_reference: own(n.child_text("CallerReference")),
        name: own(n.child_text("Name")),
        encoded_key: own(n.child_text("EncodedKey")),
        comment: own(n.child_text("Comment")),
    }
}

/// `r` holds what node `n` says.
pub open spec fn reads_function_config(r: FunctionConfig, n: Node) -> bool {
    &&& r.comment@ == child_text_of(n, "Comment"@)
    &&& r.runtime@ == child_text_of(n, "Runtime"@)
    &&& strs(r.key_value_store_associations) == opt_direct_texts(
        child_of(n, "KeyValueStoreAssociations"@),
        "KeyValueStoreAssociation"@,
    )
}

/// Parse `<FunctionConfig>`.
pub fn parse_function_config(n: &Node) -> (r: FunctionConfig)
    ensures
        reads_function_config(r, *n),
{
    FunctionConfig {
        comment: own(n.child_text("Comment")),
        runtime: own(n.child_text("Runtime")),
        key_value_store_associations: direct_texts_of(
            n.child("KeyValueStoreAssociations"),
            "KeyValueStoreAssociation",
        ),
    }
}

/// `r` holds what node `n` says.
pub open spec fn reads_fle_config(r: FieldLevelEncryptionConfig, n: Node) -> bool {
    &&& r.caller_reference@ == child_text_of(n, "CallerReference"@)
    &&& r.comment@ == child_text_of(n, "Comment"@)
    &&& r.query_arg_profile_config_enabled == child_of(n, "QueryArgProfileConfig"@) is Some
    &&& r.content_type_profile_config_enabled == child_of(n, "ContentTypeProfileConfig"@) is Some
}

/// Parse `<FieldLevelEncryptionConfig>`: a profile configuration is enabled
/// when its element is present.
pub fn parse_fle_config(n: &Node) -> (r: FieldLevelEncryptionConfig)
    ensures
        reads_fle_config(r, *n),
{
    FieldLevelEncryptionConfig {
        caller_reference: own(n.child_text("CallerReference")),
        comment: own(n.child_text("Comment")),
        query_arg_profile_config_enabled: n.child("QueryArgProfileConfig").is_some(),
        content_type_profile_config_enabled: n.child("ContentTypeProfileConfig").is_some(),
    }
}

/// `r` holds what node `n` says.
pub open spec fn reads_fle_profile_config(r: FieldLevelEncryptionProfileConfig, n: Node) -> bool {
    &&& r.name@ == child_text_of(n, "Name"@)
    &&& r.caller_reference@ == child_text_of(n, "CallerReference"@)
    &&& r.comment@ == child_text_of(n, "Comment"@)
}

/// Parse `<FieldLevelEncryptionProfileConfig>`.
pub fn parse_fle_profile_config(n: &Node) -> (r: FieldLevelEncryptionProfileConfig)
    ensures
        reads_fle_profile_config(r, *n),
{
    FieldLevelEncryptionProfileConfig {
        name: own(n.child_text("Name")),
        caller_reference: own(n.child_text("CallerReference")),
        comment: own(n.child_text("Comment")),
    }
}

/// `r` holds what node `n` says.
pub open spec fn reads_realtime_log_config(r: RealtimeLogConfig, n: Node) -> bool {
    &&& r.arn@ == child_text_of(n, "ARN"@)
    &&& r.name@ == child_text_of(n, "Name"@)
    &&& r.sampling_rate == int64_of(n, "SamplingRate"@)
    &&& strs(r.fields) == texts(items_of(n, "Fields"@, "Field"@))
}

/// Parse `<RealtimeLogConfig>` at creation.
pub fn parse_realtime_log_config(n: &Node) -> (r: RealtimeLogConfig)
    ensures
        reads_realtime_log_config(r, *n),
{
    RealtimeLogConfig {
        arn: own(n.child_text("ARN")),
        name: own(n.child_text("Name")),
        sampling_rate: n.child_i64("SamplingRate"),
        fields: n.string_items("Fields", "Field"),
    }
}

/// The tag node list of a tagging payload: the `<Tag>` children of its
/// `<TagSet>` child, else of its `<Tags>` child; none without either.
pub open spec fn tag_nodes(n: Node) -> Seq<Node> {
    match child_of(n, "TagSet"@) {
        Some(ts) => ts.children@.filter(node_named("Tag"@)),
        None => match child_of(n, "Tags"@) {
            Some(ts) => ts.children@.filter(node_named("Tag"@)),
            None => Seq::<Node>::empty(),
        },
    }
}

/// `r` holds what node `n` says.
pub open spec fn reads_tag(r: Tag, n: Node) -> bool {
    &&& r.key@ == child_text_of(n, "Key"@)
    &&& r.value@ == child_text_of(n, "Value"@)
}

fn parse_tag(n: &Node) -> (r: Tag)
    ensures
        reads_tag(r, *n),
{
    Tag { key: own(n.child_text("Key")), value: own(n.child_text("Value")) }
}

/// `tags` holds what the tagging payload `n` says: one tag per tag node, its
/// key and value read from the node.
pub open spec fn reads_tags(tags: Seq<Tag>, n: Node) -> bool {
    &&& tags.len() == tag_nodes(n).len()
    &&& forall|i: int|
        0 <= i < tags.len() ==> (#[trigger] tags[i]).key@ == child_text_of(tag_nodes(n)[i], "Key"@)
            && tags[i].value@ == child_text_of(tag_nodes(n)[i], "Value"@)
}

/// Parse a tagging payload: `<Tagging><TagSet><Tag>...</Tag></TagSet></Tagging>`.
pub fn parse_tag_set(n: &Node) -> (r: Vec<Tag>)
    ensures
        reads_tags(r@, *n),
{
    let set = match n.child("TagSet") {
        Some(ts) => Some(ts),
        None => n.child("Tags"),
    };
    match set {
        Some(ts) => {
            let nodes = ts.children_named("Tag");
            let tags = map_nodes(&nodes, parse_tag);
            assert forall|i: int| 0 <= i < tags@.len() implies (#[trigger] tags@[i]).key@
                == child_text_of(tag_nodes(*n)[i], "Key"@) && tags@[i].value@ == child_text_of(
                tag_nodes(*n)[i],
                "Value"@,
            ) by {
                assert(node_seq(nodes)[i] == *nodes@[i]);
            }
            tags
        },
        None => Vec::new(),
    }
}

/// The configuration node and tags of a CreateDistribution body: a
/// `<DistributionConfigWithTags>` root gives its `<DistributionConfig>`
/// child and the tags of its `<Tags>` child (none without one), and is
/// malformed without a `<DistributionConfig>` child; any other root is the
/// configuration itself, without tags.
pub fn distribution_config_root(root: &Node) -> (r: Result<(&Node, Vec<Tag>), CloudFrontError>)
    ensures
        root.name@ == "DistributionConfigWithTags"@ ==> (match child_of(*root, "DistributionConfig"@) {
            Some(c) => r matches Ok((n, tags)) && *n == c && match child_of(*root, "Tags"@) {
                Some(t) => reads_tags(tags@, t),
                None => tags@.len() == 0,
            },
            None => r matches Err(CloudFrontError::MalformedInput(m)) && m@
                == "DistributionConfigWithTags missing DistributionConfig"@,
        }),
        root.name@ != "DistributionConfigWithTags"@ ==> (r matches Ok((n, tags)) && *n == *root
            && tags@.len() == 0),
{
    if !str_eq(root.name.as_str(), "DistributionConfigWithTags") {
        return Ok((root, Vec::new()));
    }
    match root.child("DistributionConfig") {
        Some(cn) => {
            let tags = match root.child("Tags") {
                Some(t) => parse_tag_set(t),
                None => Vec::new(),
            };
            Ok((cn, tags))
        },
        None => Err(
            CloudFrontError::MalformedInput(own("DistributionConfigWithTags missing DistributionConfig")),
        ),
    }
}

} // verus!
