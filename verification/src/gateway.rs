//! Gateway decisions: which services are enabled, health-check probes and
//! their answer, Lambda API paths, the SigV4 signing service of a request,
//! and SQS queue URLs for queue ARNs.

use vstd::prelude::*;
use crate::dataplane::ascii_lower_char;
use crate::fields::{
    find_sub, find_substring, occurs_at, split_chars, split_on, trim, trim_chars,
};
use crate::streams_router::{ascii_text, header_lookup, header_text, header_values};
use crate::text::{
    decimal, find_char, find_char_exec, push_all as push_all_chars, push_decimal, push_str_chars,
    slice_chars,
    starts_with_chars, str_chars, str_eq, string_from_chars,
};

verus! {

// ---------------------------------------------------------------------------
// Enabled services
// ---------------------------------------------------------------------------

/// The services built into the gateway, in their canonical order.
pub open spec fn compiled_services() -> Seq<Seq<char>> {
    seq!["s3"@, "dynamodb"@, "sqs"@, "ssm"@, "sns"@, "lambda"@]
}

/// Check whether a service name was compiled into this binary.
pub fn is_compiled_in(name: &str) -> (r: bool)
    ensures
        r == compiled_services().contains(name@),
{
    let r = str_eq(name, "s3") || str_eq(name, "dynamodb") || str_eq(name, "sqs") || str_eq(
        name,
        "ssm",
    ) || str_eq(name, "sns") || str_eq(name, "lambda");
    proof {
        let c = compiled_services();
        if r {
            if name@ == "s3"@ {
                assert(c[0] == name@);
            } else if name@ == "dynamodb"@ {
                assert(c[1] == name@);
            } else if name@ == "sqs"@ {
                assert(c[2] == name@);
            } else if name@ == "ssm"@ {
                assert(c[3] == name@);
            } else if name@ == "sns"@ {
                assert(c[4] == name@);
            } else {
                assert(c[5] == name@);
            }
        } else {
            assert forall|i: int| 0 <= i < c.len() implies c[i] != name@ by {}
        }
    }
    r
}

/// The lower-case form of a text, as `str::to_lowercase` gives it.
pub uninterp spec fn lowercase(s: Seq<char>) -> Seq<char>;

/// Every character of the text is ASCII.
pub open spec fn all_ascii(s: Seq<char>) -> bool {
    forall|i: int| 0 <= i < s.len() ==> (#[trigger] s[i] as u32) < 128
}

/// The lower-case form of a text: for ASCII text, `A`-`Z` made `a`-`z`;
/// otherwise what `str::to_lowercase` gives.
pub open spec fn lower_text(s: Seq<char>) -> Seq<char> {
    if all_ascii(s) {
        s.map_values(|c: char| ascii_lower_char(c))
    } else {
        lowercase(s)
    }
}

/// The lower-case form of a text.
///
/// Trusted: `str::to_lowercase`, which maps each character to its Unicode
/// lower-case form.  The result is named; of it the documentation's ASCII
/// case is stated: on ASCII text, `A`-`Z` become `a`-`z` and every other
/// character stays.
#[verifier::external_body]
fn to_lowercase(s: &str) -> (r: String)
    ensures
        r@ == lowercase(s@),
        all_ascii(s@) ==> r@ == s@.map_values(|c: char| ascii_lower_char(c)),
{
    s.to_lowercase()
}

/// The services named by the value of `SERVICES`: all compiled-in services
/// when the value is blank, else the comma-separated names, trimmed and
/// lower-cased, without empty ones.
pub open spec fn services_of(raw: Seq<char>) -> Seq<Seq<char>> {
    let t = trim(raw);
    if t.len() == 0 {
        compiled_services()
    } else {
        split_on(t, ',').map_values(|f: Seq<char>| lower_text(trim(f))).filter(
            |x: Seq<char>| x.len() > 0,
        )
    }
}

/// Parse a comma-separated services string into a list of service names.
///
/// If the input is blank, returns all compiled-in services.
pub fn parse_services_value(raw: &str) -> (r: Vec<String>)
    ensures
        r@.map_values(|s: String| s@) == services_of(raw@),
{
    let chars = str_chars(raw);
    let trimmed = trim_chars(&chars);
    let mut out: Vec<String> = Vec::new();
    if trimmed.len() == 0 {
        out.push("s3".to_owned());
        out.push("dynamodb".to_owned());
        out.push("sqs".to_owned());
        out.push("ssm".to_owned());
        out.push("sns".to_owned());
        out.push("lambda".to_owned());
        assert(out@.map_values(|s: String| s@) =~= compiled_services());
        return out;
    }
    let parts = split_chars(&trimmed, ',');
    let ghost fs = parts@.map_values(|v: Vec<char>| v@);
    let ghost mapped = fs.map_values(|f: Seq<char>| lower_text(trim(f)));
    let ghost keep = |x: Seq<char>| x.len() > 0;
    let mut i: usize = 0;
    while i < parts.len()
        invariant
            i <= parts.len(),
            fs == parts@.map_values(|v: Vec<char>| v@),
            mapped == fs.map_values(|f: Seq<char>| lower_text(trim(f))),
            keep == (|x: Seq<char>| x.len() > 0),
            out@.map_values(|s: String| s@) == mapped.take(i as int).filter(keep),
        decreases parts.len() - i,
    {
        let field = trim_chars(&parts[i]);
        let text = string_from_chars(&field);
        let lower = to_lowercase(text.as_str());
        proof {
            reveal_with_fuel(Seq::filter, 1);
            assert(mapped.take(i + 1).drop_last() =~= mapped.take(i as int));
            assert(mapped.take(i + 1).last() == mapped[i as int]);
            assert(mapped[i as int] == lower@);
        }
        let ghost before = out@.map_values(|s: String| s@);
        if !lower.as_str().is_empty() {
            out.push(lower);
            assert(out@.map_values(|s: String| s@) =~= before.push(mapped[i as int]));
        }
        i = i + 1;
    }
    assert(mapped.take(parts.len() as int) =~= mapped);
    out
}

// ---------------------------------------------------------------------------
// Health checks
// ---------------------------------------------------------------------------

/// The HTTP method type of the `http` crate.
#[verifier::external_type_specification]
#[verifier::external_body]
pub struct ExMethod(http::Method);

/// The name of an HTTP method, as `Method::as_str` gives it.
pub uninterp spec fn method_text(m: http::Method) -> Seq<char>;

/// The name of an HTTP method.
///
/// Trusted: `http::Method::as_str`, which gives the method's name as sent on
/// the wire (`"GET"` for `Method::GET`); the result is named, not stated.
#[verifier::external_body]
pub(crate) fn method_name(m: &http::Method) -> (r: &str)
    ensures
        r@ == method_text(*m),
{
    m.as_str()
}

/// The paths that health probes use.
pub open spec fn health_paths() -> Seq<Seq<char>> {
    seq![
        "/_localstack/health"@,
        "/_health"@,
        "/health"@,
        "/minio/health/live"@,
        "/minio/health/ready"@,
        "/minio/health/cluster"@,
    ]
}

/// Check if the request is a health check probe: a `GET` of one of the
/// health paths.
pub fn is_health_check(method: &http::Method, path: &str) -> (r: bool)
    ensures
        r == (method_text(*method) == "GET"@ && health_paths().contains(path@)),
{
    let is_get = str_eq(method_name(method), "GET");
    let on_path = str_eq(path, "/_localstack/health") || str_eq(path, "/_health") || str_eq(
        path,
        "/health",
    ) || str_eq(path, "/minio/health/live") || str_eq(path, "/minio/health/ready") || str_eq(
        path,
        "/minio/health/cluster",
    );
    proof {
        let h = health_paths();
        if on_path {
            if path@ == "/_localstack/health"@ {
                assert(h[0] == path@);
            } else if path@ == "/_health"@ {
                assert(h[1] == path@);
            } else if path@ == "/health"@ {
                assert(h[2] == path@);
            } else if path@ == "/minio/health/live"@ {
                assert(h[3] == path@);
            } else if path@ == "/minio/health/ready"@ {
                assert(h[4] == path@);
            } else {
                assert(h[5] == path@);
            }
        } else {
            assert forall|i: int| 0 <= i < h.len() implies h[i] != path@ by {}
        }
    }
    is_get && on_path
}

/// The entries `"name":"running"` of the services, separated by commas.
pub open spec fn running_entries(names: Seq<Seq<char>>) -> Seq<char>
    decreases names.len(),
{
    if names.len() == 0 {
        Seq::<char>::empty()
    } else if names.len() == 1 {
        "\""@ + names[0] + "\":\"running\""@
    } else {
        running_entries(names.drop_last()) + ","@ + "\""@ + names.last() + "\":\"running\""@
    }
}

/// The body of the health-check answer: `{"services":{...}}` with one
/// `"name":"running"` entry per service.
pub open spec fn health_body(names: Seq<Seq<char>>) -> Seq<char> {
    "{\"services\":{"@ + running_entries(names) + "}}"@
}

/// With `SERVICES` blank every compiled-in service runs (`s3`, `dynamodb`,
/// `sqs`, `ssm`, `sns`, `lambda`), and no listed service name is empty; the
/// health body of one service reads `{"services":{"<name>":"running"}}`, and
/// each further service adds `,"<name>":"running"` before the closing braces.
pub proof fn lemma_services_and_health(raw: Seq<char>, names: Seq<Seq<char>>, x: Seq<char>)
    ensures
        trim(raw).len() == 0 ==> services_of(raw) == seq![
            "s3"@,
            "dynamodb"@,
            "sqs"@,
            "ssm"@,
            "sns"@,
            "lambda"@,
        ],
        forall|i: int| 0 <= i < services_of(raw).len() ==> (#[trigger] services_of(raw)[i]).len() > 0,
        health_body(seq![x]) == "{\"services\":{"@ + "\""@ + x + "\":\"running\""@ + "}}"@,
        names.len() > 0 ==> health_body(names.push(x)) == "{\"services\":{"@ + running_entries(names)
            + ","@ + "\""@ + x + "\":\"running\""@ + "}}"@,
{
    let t = trim(raw);
    if t.len() > 0 {
        let mapped = split_on(t, ',').map_values(|f: Seq<char>| lower_text(trim(f)));
        let nonempty = |y: Seq<char>| y.len() > 0;
        let kept = mapped.filter(nonempty);
        assert(services_of(raw) == kept);
        assert forall|i: int| 0 <= i < kept.len() implies (#[trigger] kept[i]).len() > 0 by {
            mapped.lemma_filter_pred(nonempty, i);
        }
    } else {
        reveal_strlit("s3");
        reveal_strlit("dynamodb");
        reveal_strlit("sqs");
        reveal_strlit("ssm");
        reveal_strlit("sns");
        reveal_strlit("lambda");
    }
    assert(names.push(x).drop_last() =~= names);
}

/// The health endpoint's answer: status 200, JSON content, and the body
/// listing the registered services as running.
pub fn health_check_response(service_names: &Vec<String>) -> (r: (u16, &'static str, String))
    ensures
        r.0 == 200,
        r.1@ == "application/json"@,
        r.2@ == health_body(service_names@.map_values(|s: String| s@)),
{
    (200, "application/json", health_check_body(service_names))
}

/// The JSON body listing the registered services as running.
pub fn health_check_body(service_names: &Vec<String>) -> (r: String)
    ensures
        r@ == health_body(service_names@.map_values(|s: String| s@)),
{
    let ghost names = service_names@.map_values(|s: String| s@);
    let mut entries: Vec<char> = Vec::new();
    let mut i: usize = 0;
    while i < service_names.len()
        invariant
            i <= service_names.len(),
            names == service_names@.map_values(|s: String| s@),
            entries@ == running_entries(names.take(i as int)),
        decreases service_names.len() - i,
    {
        proof {
            assert(names.take(i + 1).drop_last() =~= names.take(i as int));
            assert(names.take(i + 1).last() == names[i as int]);
            assert(names.take(1)[0] == names[0]);
        }
        if i > 0 {
            push_str_chars(&mut entries, ",");
        }
        push_str_chars(&mut entries, "\"");
        push_str_chars(&mut entries, service_names[i].as_str());
        push_str_chars(&mut entries, "\":\"running\"");
        proof {
            if i == 0 {
                assert(names.take(0) =~= Seq::<Seq<char>>::empty());
                assert(entries@ =~= "\""@ + names.take(1)[0] + "\":\"running\""@);
            } else {
                assert(entries@ =~= running_entries(names.take(i as int)) + ","@ + "\""@ + names[i as int]
                    + "\":\"running\""@);
            }
        }
        i = i + 1;
    }
    assert(names.take(service_names.len() as int) =~= names);
    let mut out: Vec<char> = Vec::new();
    push_str_chars(&mut out, "{\"services\":{");
    let mut k: usize = 0;
    while k < entries.len()
        invariant
            k <= entries.len(),
            out@ == "{\"services\":{"@ + entries@.take(k as int),
        decreases entries.len() - k,
    {
        out.push(entries[k]);
        assert(entries@.take(k + 1) =~= entries@.take(k as int).push(entries@[k as int]));
        k = k + 1;
    }
    assert(entries@.take(entries.len() as int) =~= entries@);
    push_str_chars(&mut out, "}}");
    string_from_chars(&out)
}

// ---------------------------------------------------------------------------
// Lambda paths
// ---------------------------------------------------------------------------

/// The number of UTF-8 bytes of a character.
pub open spec fn utf8_width(c: char) -> nat {
    let u = c as u32;
    if u < 0x80 {
        1
    } else if u < 0x800 {
        2
    } else if u < 0x10000 {
        3
    } else {
        4
    }
}

/// The number of UTF-8 bytes of a text (what `str::len` gives).
pub open spec fn utf8_len(s: Seq<char>) -> nat
    decreases s.len(),
{
    if s.len() == 0 {
        0
    } else {
        utf8_len(s.drop_last()) + utf8_width(s.last())
    }
}

proof fn lemma_utf8_len_prefix(s: Seq<char>, j: int)
    requires
        0 <= j <= s.len(),
    ensures
        utf8_len(s.take(j)) <= utf8_len(s),
    decreases s.len() - j,
{
    if j < s.len() {
        lemma_utf8_len_prefix(s, j + 1);
        assert(s.take(j + 1).drop_last() =~= s.take(j));
    } else {
        assert(s.take(j) =~= s);
    }
}

/// Whether the text takes exactly `n` UTF-8 bytes.
fn utf8_len_is(s: &Vec<char>, n: u64) -> (r: bool)
    ensures
        r == (utf8_len(s@) == n),
{
    let mut acc: u64 = 0;
    let mut i: usize = 0;
    while i < s.len()
        invariant
            i <= s.len(),
            acc == utf8_len(s@.take(i as int)),
            acc <= n,
        decreases s.len() - i,
    {
        let u = s[i] as u32;
        let w: u64 = if u < 0x80 {
            1
        } else if u < 0x800 {
            2
        } else if u < 0x10000 {
            3
        } else {
            4
        };
        proof {
            assert(s@.take(i + 1).drop_last() =~= s@.take(i as int));
            assert(s@.take(i + 1).last() == s@[i as int]);
        }
        if w > n - acc {
            proof {
                lemma_utf8_len_prefix(s@, i + 1);
            }
            return false;
        }
        acc = acc + w;
        i = i + 1;
    }
    assert(s@.take(s.len() as int) =~= s@);
    acc == n
}

/// A path of the Lambda API: `/{10-byte version}/functions...`,
/// `/{version}/tags/...`, `/{version}/account-settings`, or a function URL
/// path `/lambda-url/...`.
pub open spec fn lambda_path(path: Seq<char>) -> bool {
    let versioned = path.len() > 0 && path[0] == '/' && {
        let rest = path.drop_first();
        let i = find_char(rest, '/') as int;
        &&& i < rest.len()
        &&& utf8_len(rest.take(i)) == 10
        &&& {
            let tail = rest.skip(i + 1);
            ||| (9 <= tail.len() && tail.take(9) == "functions"@)
            ||| (5 <= tail.len() && tail.take(5) == "tags/"@)
            ||| tail == "account-settings"@
        }
    };
    versioned || (12 <= path.len() && path.take(12) == "/lambda-url/"@)
}

/// Whether the path belongs to the Lambda API.
pub fn is_lambda_path(path: &str) -> (r: bool)
    ensures
        r == lambda_path(path@),
{
    proof {
        reveal_strlit("functions");
        reveal_strlit("tags/");
        reveal_strlit("/lambda-url/");
        assert("functions"@.len() == 9);
        assert("tags/"@.len() == 5);
        assert("/lambda-url/"@.len() == 12);
    }
    let p = str_chars(path);
    let url_prefix = str_chars("/lambda-url/");
    let is_url = starts_with_chars(&p, &url_prefix);
    if p.len() == 0 || p[0] != '/' {
        return is_url;
    }
    let rest = slice_chars(&p, 1, p.len());
    assert(rest@ =~= p@.drop_first());
    let i = find_char_exec(&rest, '/');
    if i >= rest.len() {
        return is_url;
    }
    let version = slice_chars(&rest, 0, i);
    assert(version@ =~= rest@.take(i as int));
    let tail = slice_chars(&rest, i + 1, rest.len());
    assert(tail@ =~= rest@.skip(i + 1));
    let version_ok = utf8_len_is(&version, 10);
    let functions = str_chars("functions");
    let tags = str_chars("tags/");
    let tail_ok = starts_with_chars(&tail, &functions) || starts_with_chars(&tail, &tags) || str_eq(
        string_from_chars(&tail).as_str(),
        "account-settings",
    );
    (version_ok && tail_ok) || is_url
}

// ---------------------------------------------------------------------------
// SigV4 signing service
// ---------------------------------------------------------------------------

/// The signing service named in a SigV4 `Authorization` value: the fourth
/// `/`-separated part of the text after `Credential=` (up to the next comma).
pub open spec fn sigv4_service(auth: Seq<char>) -> Option<Seq<char>> {
    match find_sub(auth, "Credential="@) {
        Some(p) => {
            let rest = auth.skip(p + 11);
            let credential = rest.take(find_char(rest, ',') as int);
            let parts = split_on(credential, '/');
            if parts.len() >= 4 {
                Some(parts[3])
            } else {
                None
            }
        },
        None => None,
    }
}

/// Extract the SigV4 service name from the `Authorization` header, which
/// holds `Credential=AKID/date/region/SERVICE/aws4_request`.
pub fn extract_sigv4_service(headers: &http::HeaderMap) -> (r: Option<String>)
    ensures
        match header_lookup(header_values(*headers), "authorization"@) {
            Some(Some(auth)) => match sigv4_service(auth) {
                Some(svc) => r matches Some(x) && x@ == svc,
                None => r is None,
            },
            _ => r is None,
        },
{
    proof {
        reveal_strlit("authorization");
        assert("authorization"@.len() == 13);
    }
    let auth = match header_text(headers, "authorization") {
        Some(Some(a)) => a,
        _ => {
            return None;
        },
    };
    signing_service(auth.as_str())
}

/// The signing service named in a SigV4 `Authorization` value, if any.
#[verifier::rlimit(40)]
pub fn signing_service(auth: &str) -> (r: Option<String>)
    ensures
        match sigv4_service(auth@) {
            Some(svc) => r matches Some(x) && x@ == svc,
            None => r is None,
        },
{
    proof {
        reveal_strlit("Credential=");
        assert("Credential="@.len() == 11);
    }
    let chars = str_chars(auth);
    let key = str_chars("Credential=");
    let p = match find_substring(&chars, &key) {
        Some(p) => p,
        None => {
            return None;
        },
    };
    assert(occurs_at(chars@, key@, p as int));
    assert(p + key@.len() <= chars@.len());
    assert(chars@.len() == chars.len());
    let start = p + key.len();
    let rest = slice_chars(&chars, start, chars.len());
    assert(rest@ =~= chars@.skip(start as int));
    let e = find_char_exec(&rest, ',');
    let credential = slice_chars(&rest, 0, e);
    assert(credential@ =~= rest@.take(e as int));
    proof {
        assert(find_sub(auth@, "Credential="@) == Some(p as int));
        assert(credential@ == auth@.skip(p + 11).take(
            find_char(auth@.skip(p + 11), ',') as int,
        ));
    }
    let parts = split_chars(&credential, '/');
    let ghost pv = parts@.map_values(|v: Vec<char>| v@);
    assert(pv == split_on(credential@, '/'));
    assert(pv.len() == parts@.len());
    if parts.len() >= 4 {
        assert(pv[3] == parts@[3]@);
        Some(string_from_chars(&parts[3]))
    } else {
        None
    }
}

// ---------------------------------------------------------------------------
// SQS queue URLs
// ---------------------------------------------------------------------------

/// The URL of the queue with the given ARN: for
/// `arn:aws:sqs:{region}:{account}:{queue_name}` it is
/// `http://{host}:{port}/{account}/{queue_name}`; an ARN with fewer parts is
/// used whole after the default account.
pub open spec fn queue_url(host: Seq<char>, port: u16, account_id: Seq<char>, queue_arn: Seq<char>) -> Seq<char> {
    let parts = split_on(queue_arn, ':');
    let base = "http://"@ + host + ":"@ + decimal(port as nat) + "/"@;
    if parts.len() >= 6 {
        base + parts[4] + "/"@ + parts[5]
    } else {
        base + account_id + "/"@ + queue_arn
    }
}

/// Convert an SQS queue ARN to a queue URL on the gateway at `host:port`.
pub fn arn_to_queue_url(host: &str, port: u16, account_id: &str, queue_arn: &str) -> (r: String)
    ensures
        r@ == queue_url(host@, port, account_id@, queue_arn@),
{
    let arn = str_chars(queue_arn);
    let parts = split_chars(&arn, ':');
    let ghost pv = parts@.map_values(|v: Vec<char>| v@);
    let mut out: Vec<char> = Vec::new();
    push_str_chars(&mut out, "http://");
    push_str_chars(&mut out, host);
    push_str_chars(&mut out, ":");
    push_decimal(&mut out, port as u64);
    push_str_chars(&mut out, "/");
    if parts.len() >= 6 {
        assert(pv[4] == parts@[4]@ && pv[5] == parts@[5]@);
        push_all_chars(&mut out, &parts[4]);
        push_str_chars(&mut out, "/");
        push_all_chars(&mut out, &parts[5]);
    } else {
        push_str_chars(&mut out, account_id);
        push_str_chars(&mut out, "/");
        push_str_chars(&mut out, queue_arn);
    }
    string_from_chars(&out)
}

/// Whether a health probe's answer reports success: it is a `200 OK` that
/// names at least one running service.
pub open spec fn healthy_answer(response: Seq<char>) -> bool {
    (exists|k: int| occurs_at(response, "200 OK"@, k)) && (exists|k: int| occurs_at(
        response,
        "\"running\""@,
        k,
    ))
}

/// Whether the answer to a health probe reports success.
pub fn is_healthy_response(response: &str) -> (r: bool)
    ensures
        r == healthy_answer(response@),
{
    let text = str_chars(response);
    let ok = str_chars("200 OK");
    let running = str_chars("\"running\"");
    find_substring(&text, &ok).is_some() && find_substring(&text, &running).is_some()
}

} // verus!
