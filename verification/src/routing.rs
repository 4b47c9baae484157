//! Request routing in the gateway: which service router claims a request,
//! the order in which the routers are registered, and what the gateway does
//! with a request (answer a health probe, hand it to the first router that
//! claims it, or answer that no service matched).

use vstd::prelude::*;
use crate::fields::{find_sub, find_substring};
use crate::gateway::{
    extract_sigv4_service, health_paths, method_name, method_text, sigv4_service, is_health_check,
    is_lambda_path, lambda_path,
};
use crate::streams_router::{header_lookup, header_text, header_values, lower_header_name};
use crate::text::{push_str_chars, starts_with_chars, str_chars, str_eq, string_from_chars};

verus! {

/// The service routers of the gateway.
#[derive(Clone, Copy, Debug, PartialEq, Eq, Structural)]
pub enum RoutedService {
    S3,
    DynamoDB,
    Sqs,
    Ssm,
    Sns,
    Lambda,
    Events,
    Logs,
    Kms,
    Kinesis,
    SecretsManager,
    Ses,
    ApiGatewayV2Management,
    ApiGatewayV2Execution,
}

/// The name under which a router reports itself.
pub open spec fn router_name(s: RoutedService) -> Seq<char> {
    match s {
        RoutedService::S3 => "s3"@,
        RoutedService::DynamoDB => "dynamodb"@,
        RoutedService::Sqs => "sqs"@,
        RoutedService::Ssm => "ssm"@,
        RoutedService::Sns => "sns"@,
        RoutedService::Lambda => "lambda"@,
        RoutedService::Events => "events"@,
        RoutedService::Logs => "logs"@,
        RoutedService::Kms => "kms"@,
        RoutedService::Kinesis => "kinesis"@,
        RoutedService::SecretsManager => "secretsmanager"@,
        RoutedService::Ses => "ses"@,
        RoutedService::ApiGatewayV2Management => "apigatewayv2"@,
        RoutedService::ApiGatewayV2Execution => "apigatewayv2-execution"@,
    }
}

impl RoutedService {
    /// The name under which the router reports itself.
    pub fn name(&self) -> (r: &'static str)
        ensures
            r@ == router_name(*self),
    {
        match self {
            RoutedService::S3 => "s3",
            RoutedService::DynamoDB => "dynamodb",
            RoutedService::Sqs => "sqs",
            RoutedService::Ssm => "ssm",
            RoutedService::Sns => "sns",
            RoutedService::Lambda => "lambda",
            RoutedService::Events => "events",
            RoutedService::Logs => "logs",
            RoutedService::Kms => "kms",
            RoutedService::Kinesis => "kinesis",
            RoutedService::SecretsManager => "secretsmanager",
            RoutedService::Ses => "ses",
            RoutedService::ApiGatewayV2Management => "apigatewayv2",
            RoutedService::ApiGatewayV2Execution => "apigatewayv2-execution",
        }
    }
}

/// Whether `s` begins with `p`.
pub open spec fn begins_with(s: Seq<char>, p: Seq<char>) -> bool {
    p.len() <= s.len() && s.take(p.len() as int) == p
}

/// The first value of a header as text, when it is there and visible ASCII.
pub open spec fn header_str(headers: http::HeaderMap, name: Seq<char>) -> Option<Seq<char>> {
    match header_lookup(header_values(headers), name) {
        Some(Some(t)) => Some(t),
        _ => None,
    }
}

/// The SigV4 signing service of a request's `Authorization` header.
pub open spec fn request_signing(headers: http::HeaderMap) -> Option<Seq<char>> {
    match header_str(headers, "authorization"@) {
        Some(auth) => sigv4_service(auth),
        None => None,
    }
}

/// What a router looks at in a request: its method, its path, its
/// `X-Amz-Target` and `Content-Type` headers as text, and its signing service.
pub struct RequestFacts {
    pub method: Seq<char>,
    pub path: Seq<char>,
    pub target: Option<Seq<char>>,
    pub content_type: Option<Seq<char>>,
    pub signing: Option<Seq<char>>,
}

/// The facts of a request.
pub open spec fn request_facts(method: http::Method, path: Seq<char>, headers: http::HeaderMap) -> RequestFacts {
    RequestFacts {
        method: method_text(method),
        path,
        target: header_str(headers, "x-amz-target"@),
        content_type: header_str(headers, "content-type"@),
        signing: request_signing(headers),
    }
}

/// The request carries an `X-Amz-Target` that begins with `p`.
pub open spec fn target_begins(f: RequestFacts, p: Seq<char>) -> bool {
    f.target matches Some(t) && begins_with(t, p)
}

/// A form-encoded `POST`.
pub open spec fn form_post(f: RequestFacts) -> bool {
    &&& f.method == "POST"@
    &&& f.content_type matches Some(ct) && find_sub(ct, "x-www-form-urlencoded"@) is Some
}

/// Whether the router claims the request.
pub open spec fn claims(s: RoutedService, f: RequestFacts) -> bool {
    match s {
        RoutedService::S3 => true,
        RoutedService::DynamoDB => target_begins(f, "DynamoDB_"@),
        RoutedService::Sqs => target_begins(f, "AmazonSQS"@),
        RoutedService::Ssm => target_begins(f, "AmazonSSM."@),
        RoutedService::Sns => form_post(f),
        RoutedService::Lambda => lambda_path(f.path),
        RoutedService::Events => target_begins(f, "AWSEvents."@),
        RoutedService::Logs => target_begins(f, "Logs_20140328."@),
        RoutedService::Kms => target_begins(f, "TrentService."@),
        RoutedService::Kinesis => target_begins(f, "Kinesis_20131202."@),
        RoutedService::SecretsManager => target_begins(f, "secretsmanager."@),
        RoutedService::Ses => {
            ||| begins_with(f.path, "/v2/email/"@)
            ||| f.path == "/v2/email"@
            ||| f.path == "/_aws/ses"@
            ||| form_post(f) && (f.signing == Some("ses"@) || f.signing == Some("email"@))
        },
        RoutedService::ApiGatewayV2Management => {
            ||| begins_with(f.path, "/v2/apis"@)
            ||| begins_with(f.path, "/v2/domainnames"@)
            ||| begins_with(f.path, "/v2/vpclinks"@)
            ||| begins_with(f.path, "/v2/tags"@)
        },
        RoutedService::ApiGatewayV2Execution => begins_with(f.path, "/_aws/execute-api/"@),
    }
}

/// A header's first value as text, when it is there and visible ASCII.
fn header_string(headers: &http::HeaderMap, name: &str) -> (r: Option<String>)
    requires
        lower_header_name(name@),
    ensures
        match r {
            Some(s) => header_str(*headers, name@) == Some(s@),
            None => header_str(*headers, name@) is None,
        },
{
    match header_text(headers, name) {
        Some(Some(s)) => Some(s),
        _ => None,
    }
}

/// Whether `s` begins with `p`.
fn text_begins(s: &str, p: &str) -> (r: bool)
    ensures
        r == begins_with(s@, p@),
{
    let sc = str_chars(s);
    let pc = str_chars(p);
    starts_with_chars(&sc, &pc)
}

/// Whether the header text is there and begins with `p`.
fn opt_begins(t: &Option<String>, p: &str) -> (r: bool)
    ensures
        r == (t matches Some(s) && begins_with(s@, p@)),
{
    match t {
        Some(s) => text_begins(s.as_str(), p),
        None => false,
    }
}

/// Whether the request's `X-Amz-Target` is there and begins with `p`.
fn target_begins_with(headers: &http::HeaderMap, p: &str) -> (r: bool)
    ensures
        r == (header_str(*headers, "x-amz-target"@) matches Some(t) && begins_with(t, p@)),
{
    proof {
        reveal_strlit("x-amz-target");
        assert("x-amz-target"@.len() == 12);
    }
    let t = header_string(headers, "x-amz-target");
    opt_begins(&t, p)
}

/// Whether the content type is there and names form encoding.
fn is_form_type(ct: &Option<String>) -> (r: bool)
    ensures
        r == (ct matches Some(c) && find_sub(c@, "x-www-form-urlencoded"@) is Some),
{
    match ct {
        Some(c) => {
            let cc = str_chars(c.as_str());
            let pat = str_chars("x-www-form-urlencoded");
            find_substring(&cc, &pat).is_some()
        },
        None => false,
    }
}

/// Whether the router claims the request with this method, path and headers.
pub fn service_matches(
    service: RoutedService,
    method: &http::Method,
    path: &str,
    headers: &http::HeaderMap,
) -> (r: bool)
    ensures
        r == claims(service, request_facts(*method, path@, *headers)),
{
    proof {
        reveal_strlit("content-type");
        assert("content-type"@.len() == 12);
    }
    match service {
        RoutedService::S3 => true,
        RoutedService::Lambda => is_lambda_path(path),
        RoutedService::ApiGatewayV2Management => {
            text_begins(path, "/v2/apis") || text_begins(path, "/v2/domainnames") || text_begins(
                path,
                "/v2/vpclinks",
            ) || text_begins(path, "/v2/tags")
        },
        RoutedService::ApiGatewayV2Execution => text_begins(path, "/_aws/execute-api/"),
        RoutedService::Sns => {
            let ct = header_string(headers, "content-type");
            str_eq(method_name(method), "POST") && is_form_type(&ct)
        },
        RoutedService::Ses => {
            if text_begins(path, "/v2/email/") || str_eq(path, "/v2/email") || str_eq(
                path,
                "/_aws/ses",
            ) {
                return true;
            }
            if !str_eq(method_name(method), "POST") {
                return false;
            }
            let ct = header_string(headers, "content-type");
            if !is_form_type(&ct) {
                return false;
            }
            proof {
                reveal_strlit("authorization");
                assert("authorization"@.len() == 13);
            }
            match extract_sigv4_service(headers) {
                Some(svc) => str_eq(svc.as_str(), "ses") || str_eq(svc.as_str(), "email"),
                None => false,
            }
        },
        RoutedService::DynamoDB => target_begins_with(headers, "DynamoDB_"),
        RoutedService::Sqs => target_begins_with(headers, "AmazonSQS"),
        RoutedService::Ssm => target_begins_with(headers, "AmazonSSM."),
        RoutedService::Events => target_begins_with(headers, "AWSEvents."),
        RoutedService::Logs => target_begins_with(headers, "Logs_20140328."),
        RoutedService::Kms => target_begins_with(headers, "TrentService."),
        RoutedService::Kinesis => target_begins_with(headers, "Kinesis_20131202."),
        RoutedService::SecretsManager => target_begins_with(headers, "secretsmanager."),
    }
}

// ---------------------------------------------------------------------------
// Registration and dispatch
// ---------------------------------------------------------------------------

/// The router, as a one-element sequence when its service is enabled.
pub open spec fn when_enabled(s: RoutedService, enabled: Seq<Seq<char>>) -> Seq<RoutedService> {
    if enabled.contains(router_name(s)) {
        seq![s]
    } else {
        Seq::<RoutedService>::empty()
    }
}

/// The routers the gateway registers for the enabled service names: those of
/// DynamoDB, SQS, SSM, SNS, Lambda and S3 that are enabled, in that order,
/// so that S3, which claims every request, comes last.
pub open spec fn registered(enabled: Seq<Seq<char>>) -> Seq<RoutedService> {
    when_enabled(RoutedService::DynamoDB, enabled) + when_enabled(RoutedService::Sqs, enabled)
        + when_enabled(RoutedService::Ssm, enabled) + when_enabled(RoutedService::Sns, enabled)
        + when_enabled(RoutedService::Lambda, enabled) + when_enabled(RoutedService::S3, enabled)
}

/// Whether a name occurs among the names.
fn names_contain(names: &Vec<String>, name: &str) -> (r: bool)
    ensures
        r == names@.map_values(|s: String| s@).contains(name@),
{
    let ghost ns = names@.map_values(|s: String| s@);
    let mut i: usize = 0;
    while i < names.len()
        invariant
            i <= names.len(),
            ns == names@.map_values(|s: String| s@),
            forall|j: int| 0 <= j < i ==> ns[j] != name@,
        decreases names.len() - i,
    {
        if str_eq(names[i].as_str(), name) {
            assert(ns[i as int] == name@);
            return true;
        }
        i = i + 1;
    }
    false
}

/// Append the router when its service is enabled.
fn push_when_enabled(out: &mut Vec<RoutedService>, s: RoutedService, enabled: &Vec<String>)
    ensures
        final(out)@ == old(out)@ + when_enabled(s, enabled@.map_values(|x: String| x@)),
{
    let name = s.name();
    if names_contain(enabled, name) {
        out.push(s);
        assert(final(out)@ =~= old(out)@ + seq![s]);
    } else {
        assert(old(out)@ + Seq::<RoutedService>::empty() =~= old(out)@);
    }
}

/// The routers to register, in dispatch order, for the enabled service names.
pub fn registered_services(enabled: &Vec<String>) -> (r: Vec<RoutedService>)
    ensures
        r@ == registered(enabled@.map_values(|s: String| s@)),
{
    let mut out: Vec<RoutedService> = Vec::new();
    push_when_enabled(&mut out, RoutedService::DynamoDB, enabled);
    push_when_enabled(&mut out, RoutedService::Sqs, enabled);
    push_when_enabled(&mut out, RoutedService::Ssm, enabled);
    push_when_enabled(&mut out, RoutedService::Sns, enabled);
    push_when_enabled(&mut out, RoutedService::Lambda, enabled);
    push_when_enabled(&mut out, RoutedService::S3, enabled);
    assert(out@ =~= registered(enabled@.map_values(|s: String| s@)));
    out
}

/// No router before position `i` claims the request.
pub open spec fn none_claims_before(services: Seq<RoutedService>, f: RequestFacts, i: int) -> bool {
    forall|j: int| 0 <= j < i ==> !claims(#[trigger] services[j], f)
}

/// Whether a request is a health probe: a `GET` of one of the health paths.
pub open spec fn health_probe(f: RequestFacts) -> bool {
    f.method == "GET"@ && health_paths().contains(f.path)
}

/// What the gateway does with a request.
#[derive(Clone, Copy, Debug, PartialEq, Eq, Structural)]
pub enum GatewayAction {
    /// Answer with the health of the registered services.
    HealthCheck,
    /// Hand the request to the router at this position.
    Dispatch(usize),
    /// Answer 404: no router claims the request.
    NoMatch,
}

/// The body of the gateway's 404 answer.
pub const NO_MATCH_BODY: &'static str = "{\"error\":\"no service matched the request\"}";

/// The position of the first router that claims the request, if any.
pub fn route_request(
    services: &Vec<RoutedService>,
    method: &http::Method,
    path: &str,
    headers: &http::HeaderMap,
) -> (r: Option<usize>)
    ensures
        match r {
            Some(i) => i < services@.len() && claims(
                services@[i as int],
                request_facts(*method, path@, *headers),
            ) && none_claims_before(services@, request_facts(*method, path@, *headers), i as int),
            None => none_claims_before(
                services@,
                request_facts(*method, path@, *headers),
                services@.len() as int,
            ),
        },
{
    let ghost f = request_facts(*method, path@, *headers);
    let mut i: usize = 0;
    while i < services.len()
        invariant
            i <= services.len(),
            f == request_facts(*method, path@, *headers),
            none_claims_before(services@, f, i as int),
        decreases services.len() - i,
    {
        if service_matches(services[i], method, path, headers) {
            return Some(i);
        }
        i = i + 1;
    }
    None
}

/// What the gateway does with a request: a health probe is answered by the
/// gateway itself; any other request goes to the first router that claims
/// it, or gets the 404 answer when none does.
pub fn gateway_action(
    services: &Vec<RoutedService>,
    method: &http::Method,
    path: &str,
    headers: &http::HeaderMap,
) -> (r: GatewayAction)
    ensures
        ({
            let f = request_facts(*method, path@, *headers);
            if health_probe(f) {
                r == GatewayAction::HealthCheck
            } else {
                match r {
                    GatewayAction::Dispatch(i) => i < services@.len() && claims(services@[i as int], f)
                        && none_claims_before(services@, f, i as int),
                    GatewayAction::NoMatch => none_claims_before(services@, f, services@.len() as int),
                    GatewayAction::HealthCheck => false,
                }
            }
        }),
{
    if is_health_check(method, path) {
        return GatewayAction::HealthCheck;
    }
    match route_request(services, method, path, headers) {
        Some(i) => GatewayAction::Dispatch(i),
        None => GatewayAction::NoMatch,
    }
}

/// With S3 enabled, some registered router claims every request, so the
/// gateway never answers that no service matched.
pub proof fn lemma_s3_catches_all(enabled: Seq<Seq<char>>, f: RequestFacts)
    requires
        enabled.contains("s3"@),
    ensures
        !none_claims_before(registered(enabled), f, registered(enabled).len() as int),
{
    let reg = registered(enabled);
    let before = when_enabled(RoutedService::DynamoDB, enabled) + when_enabled(RoutedService::Sqs, enabled)
        + when_enabled(RoutedService::Ssm, enabled) + when_enabled(RoutedService::Sns, enabled)
        + when_enabled(RoutedService::Lambda, enabled);
    assert(when_enabled(RoutedService::S3, enabled) == seq![RoutedService::S3]);
    assert(reg == before.push(RoutedService::S3));
    assert(reg[reg.len() - 1] == RoutedService::S3);
    assert(claims(reg[reg.len() - 1], f));
}

/// S3, the catch-all, receives a request only when no other registered
/// router claims it.
pub proof fn lemma_catch_all_last(enabled: Seq<Seq<char>>, f: RequestFacts, i: int)
    requires
        0 <= i < registered(enabled).len(),
        registered(enabled)[i] == RoutedService::S3,
        none_claims_before(registered(enabled), f, i),
    ensures
        forall|j: int|
            0 <= j < registered(enabled).len() && registered(enabled)[j] != RoutedService::S3
                ==> !claims(#[trigger] registered(enabled)[j], f),
{
    let reg = registered(enabled);
    let before = when_enabled(RoutedService::DynamoDB, enabled) + when_enabled(RoutedService::Sqs, enabled)
        + when_enabled(RoutedService::Ssm, enabled) + when_enabled(RoutedService::Sns, enabled)
        + when_enabled(RoutedService::Lambda, enabled);
    assert(reg == before + when_enabled(RoutedService::S3, enabled));
    assert forall|k: int| 0 <= k < before.len() implies before[k] != RoutedService::S3 by {
        let a = when_enabled(RoutedService::DynamoDB, enabled);
        let b = when_enabled(RoutedService::Sqs, enabled);
        let c = when_enabled(RoutedService::Ssm, enabled);
        let d = when_enabled(RoutedService::Sns, enabled);
        let e = when_enabled(RoutedService::Lambda, enabled);
        assert(before == a + b + c + d + e);
        assert(a + b + c + d + e == (((a + b) + c) + d) + e);
    }
    assert(i == reg.len() - 1) by {
        if i < before.len() {
            assert(reg[i] == before[i]);
        }
    }
    assert forall|j: int|
        0 <= j < reg.len() && reg[j] != RoutedService::S3 implies !claims(#[trigger] reg[j], f) by {
        assert(j < i);
    }
}

// ---------------------------------------------------------------------------
// Replies of the API execution router
// ---------------------------------------------------------------------------

/// Why an API execution request failed.
#[derive(Debug, Clone)]
pub enum ExecutionFailure {
    /// The API, stage or route does not exist.
    NotFound(String),
    /// The request is malformed (its path, or its body could not be read).
    BadRequest(String),
    /// Anything else.
    Internal(String),
}

/// A lower-case hexadecimal digit.
pub open spec fn hex_char(d: nat) -> char {
    if d < 10 {
        (d + '0' as nat) as char
    } else {
        (d - 10 + 'a' as nat) as char
    }
}

/// How serde_json writes one character inside a string literal: `"` and
/// `\` backslash-escaped, the short escapes `\b`, `\t`, `\n`, `\f`, `\r`,
/// other control characters below U+0020 as `\u00XX` (lower-case hex), and
/// every other character as it is.
pub open spec fn json_escaped_char(c: char) -> Seq<char> {
    if c == '"' {
        seq!['\\', '"']
    } else if c == '\\' {
        seq!['\\', '\\']
    } else if c == '\u{8}' {
        seq!['\\', 'b']
    } else if c == '\t' {
        seq!['\\', 't']
    } else if c == '\n' {
        seq!['\\', 'n']
    } else if c == '\u{c}' {
        seq!['\\', 'f']
    } else if c == '\r' {
        seq!['\\', 'r']
    } else if (c as u32) < 0x20 {
        seq!['\\', 'u', '0', '0', hex_char((c as u32 / 16) as nat), hex_char((c as u32 % 16) as nat)]
    } else {
        seq![c]
    }
}

/// The escaped characters of a text.
pub open spec fn json_escaped(s: Seq<char>) -> Seq<char>
    decreases s.len(),
{
    if s.len() == 0 {
        Seq::<char>::empty()
    } else {
        json_escaped(s.drop_last()) + json_escaped_char(s.last())
    }
}

/// The JSON string literal of a text, as serde_json writes it: the escaped
/// characters between double quotes.
pub open spec fn json_string(s: Seq<char>) -> Seq<char> {
    seq!['"'] + json_escaped(s) + seq!['"']
}

/// The JSON string literal of a text.
///
/// Trusted: `serde_json::Value::String(..).to_string()`.  Its source
/// (`ser.rs`, `format_escaped_str` and the `ESCAPE` table) writes the text
/// between double quotes with the escapes `json_escaped_char` states.
#[verifier::external_body]
pub(crate) fn json_string_literal(s: &str) -> (r: String)
    ensures
        r@ == json_string(s@),
{
    serde_json::Value::String(s.to_owned()).to_string()
}

/// The HTTP status of a failure: 404 when something is not found, 400 for a
/// bad request, 500 otherwise.
pub open spec fn failure_status(f: ExecutionFailure) -> u16 {
    match f {
        ExecutionFailure::NotFound(_) => 404,
        ExecutionFailure::BadRequest(_) => 400,
        ExecutionFailure::Internal(_) => 500,
    }
}

/// The message of a failure.
pub open spec fn failure_message(f: ExecutionFailure) -> Seq<char> {
    match f {
        ExecutionFailure::NotFound(m) => m@,
        ExecutionFailure::BadRequest(m) => m@,
        ExecutionFailure::Internal(m) => m@,
    }
}

/// Each router reports itself under its service's name.
pub proof fn lemma_router_names()
    ensures
        router_name(RoutedService::S3) == "s3"@,
        router_name(RoutedService::DynamoDB) == "dynamodb"@,
        router_name(RoutedService::Sqs) == "sqs"@,
        router_name(RoutedService::Ssm) == "ssm"@,
        router_name(RoutedService::Sns) == "sns"@,
        router_name(RoutedService::Lambda) == "lambda"@,
        router_name(RoutedService::Events) == "events"@,
        router_name(RoutedService::Logs) == "logs"@,
        router_name(RoutedService::Kms) == "kms"@,
        router_name(RoutedService::Kinesis) == "kinesis"@,
        router_name(RoutedService::SecretsManager) == "secretsmanager"@,
        router_name(RoutedService::Ses) == "ses"@,
        router_name(RoutedService::ApiGatewayV2Management) == "apigatewayv2"@,
        router_name(RoutedService::ApiGatewayV2Execution) == "apigatewayv2-execution"@,
{
}

/// A failure that finds nothing answers 404, a bad request 400 and an
/// internal failure 500, each with the failure's own message.
pub proof fn lemma_failure_statuses(m: String)
    ensures
        failure_status(ExecutionFailure::NotFound(m)) == 404,
        failure_status(ExecutionFailure::BadRequest(m)) == 400,
        failure_status(ExecutionFailure::Internal(m)) == 500,
        failure_message(ExecutionFailure::NotFound(m)) == m@,
        failure_message(ExecutionFailure::BadRequest(m)) == m@,
        failure_message(ExecutionFailure::Internal(m)) == m@,
{
}

/// The reply of the execution router to a failure: its status and the JSON
/// body `{"message":...}` with the failure's message.
pub fn execution_error_reply(f: &ExecutionFailure) -> (r: (u16, String))
    ensures
        r.0 == failure_status(*f),
        r.1@ == "{\"message\":"@ + json_string(failure_message(*f)) + "}"@,
{
    let (status, message): (u16, &str) = match f {
        ExecutionFailure::NotFound(m) => (404, m.as_str()),
        ExecutionFailure::BadRequest(m) => (400, m.as_str()),
        ExecutionFailure::Internal(m) => (500, m.as_str()),
    };
    let quoted = json_string_literal(message);
    let mut body: Vec<char> = Vec::new();
    push_str_chars(&mut body, "{\"message\":");
    push_str_chars(&mut body, quoted.as_str());
    push_str_chars(&mut body, "}");
    (status, string_from_chars(&body))
}

} // verus!
