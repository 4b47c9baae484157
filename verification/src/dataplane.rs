//! CloudFront data-plane decisions: path-based distribution URLs, allowed
//! methods, XML escaping of error messages, rate-limited divergence warnings
//! for features that are not emulated, and the checks a request goes
//! through before its origin is asked.

use vstd::prelude::*;
use crate::cloudfront_model::{CacheBehavior, DistributionConfig, Origin};
use crate::gateway::{method_name, method_text};
use crate::streams_router::{header_lookup, header_text, header_values};
use crate::seqs::{first_index, is_first, lemma_first_index_is, lemma_first_index_props};
use crate::text::{
    find_char, find_char_exec, lemma_find_char_after_prefix, lemma_find_char_bounds, own, push_all,
    push_str_chars, slice_chars, starts_with_chars,
    str_chars, str_eq, string_from_chars,
};

verus! {

/// Data-plane errors.
#[derive(Debug, Clone)]
pub enum DataPlaneError {
    /// No distribution serves the request.
    NoSuchDistribution(String),
    /// The distribution is disabled.
    DistributionDisabled(String),
    /// The method is not allowed by the cache behavior.
    MethodNotAllowed(String),
    /// The cache behavior could not be applied.
    BehaviorResolution(String),
    /// A CloudFront function or Lambda@Edge association would have run.
    FunctionExecutionSkipped(String),
    /// The behavior requires signed URLs.
    SignedUrlRequired(String),
}

impl DataPlaneError {
    /// The error's message.
    pub open spec fn spec_message(&self) -> Seq<char> {
        match self {
            DataPlaneError::NoSuchDistribution(m) => m@,
            DataPlaneError::DistributionDisabled(m) => m@,
            DataPlaneError::MethodNotAllowed(m) => m@,
            DataPlaneError::BehaviorResolution(m) => m@,
            DataPlaneError::FunctionExecutionSkipped(m) => m@,
            DataPlaneError::SignedUrlRequired(m) => m@,
        }
    }

    /// The error's message.
    pub fn message(&self) -> (r: String)
        ensures
            r@ == self.spec_message(),
    {
        match self {
            DataPlaneError::NoSuchDistribution(m) => m.clone(),
            DataPlaneError::DistributionDisabled(m) => m.clone(),
            DataPlaneError::MethodNotAllowed(m) => m.clone(),
            DataPlaneError::BehaviorResolution(m) => m.clone(),
            DataPlaneError::FunctionExecutionSkipped(m) => m.clone(),
            DataPlaneError::SignedUrlRequired(m) => m.clone(),
        }
    }
}

// ---------------------------------------------------------------------------
// Path-based URLs
// ---------------------------------------------------------------------------

/// ASCII upper-casing, as `str::to_ascii_uppercase` does it.
pub open spec fn ascii_upper(s: Seq<char>) -> Seq<char> {
    s.map_values(|c: char| if 'a' <= c && c <= 'z' {
        ((c as u32) - 32) as char
    } else {
        c
    })
}

fn ascii_upper_char(c: char) -> (r: char)
    ensures
        r == (if 'a' <= c && c <= 'z' {
            ((c as u32) - 32) as char
        } else {
            c
        }),
{
    match c {
        'a' => 'A',
        'b' => 'B',
        'c' => 'C',
        'd' => 'D',
        'e' => 'E',
        'f' => 'F',
        'g' => 'G',
        'h' => 'H',
        'i' => 'I',
        'j' => 'J',
        'k' => 'K',
        'l' => 'L',
        'm' => 'M',
        'n' => 'N',
        'o' => 'O',
        'p' => 'P',
        'q' => 'Q',
        'r' => 'R',
        's' => 'S',
        't' => 'T',
        'u' => 'U',
        'v' => 'V',
        'w' => 'W',
        'x' => 'X',
        'y' => 'Y',
        'z' => 'Z',
        _ => c,
    }
}

fn to_ascii_upper(s: &Vec<char>) -> (r: Vec<char>)
    ensures
        r@ == ascii_upper(s@),
{
    let mut out: Vec<char> = Vec::new();
    let mut i: usize = 0;
    while i < s.len()
        invariant
            i <= s.len(),
            out@ == ascii_upper(s@.take(i as int)),
        decreases s.len() - i,
    {
        out.push(ascii_upper_char(s[i]));
        assert(ascii_upper(s@.take(i + 1)) =~= ascii_upper(s@.take(i as int)).push(
            ascii_upper(s@)[i as int],
        ));
        i = i + 1;
    }
    assert(s@.take(s.len() as int) =~= s@);
    out
}

/// The distribution ID (upper-cased) and object path of a path-based URL
/// `/_aws/cloudfront/{id}/{rest}`; the object path is `/{rest}`, or `/` when
/// there is no rest.
pub open spec fn path_based(path: Seq<char>) -> Option<(Seq<char>, Seq<char>)> {
    let prefix = "/_aws/cloudfront/"@;
    if prefix.len() <= path.len() && path.take(prefix.len() as int) == prefix {
        let rest = path.skip(prefix.len() as int);
        let i = find_char(rest, '/') as int;
        let (id, tail) = if i < rest.len() {
            (rest.take(i), rest.skip(i + 1))
        } else {
            (rest, Seq::<char>::empty())
        };
        if id.len() == 0 {
            None
        } else {
            Some(
                (
                    ascii_upper(id),
                    if tail.len() == 0 {
                        "/"@
                    } else {
                        "/"@ + tail
                    },
                ),
            )
        }
    } else {
        None
    }
}

/// A path-based URL `/_aws/cloudfront/{id}/{rest}` names the distribution
/// `{id}` in upper case and the object path `/{rest}` (`/` when the rest is
/// empty); without the `/` after the ID the object path is `/` too.
pub proof fn lemma_path_based_parts(id: Seq<char>, rest: Seq<char>)
    requires
        id.len() > 0,
        !id.contains('/'),
    ensures
        path_based("/_aws/cloudfront/"@ + id + "/"@ + rest) == Some(
            (
                ascii_upper(id),
                if rest.len() == 0 {
                    "/"@
                } else {
                    "/"@ + rest
                },
            ),
        ),
        path_based("/_aws/cloudfront/"@ + id) == Some((ascii_upper(id), "/"@)),
{
    reveal_strlit("/");
    let prefix = "/_aws/cloudfront/"@;
    let path = prefix + id + "/"@ + rest;
    assert(path.take(prefix.len() as int) =~= prefix);
    let r = path.skip(prefix.len() as int);
    assert(r =~= id + seq!['/'] + rest);
    lemma_find_char_after_prefix(id, '/', rest);
    assert(r.take(id.len() as int) =~= id);
    assert(r.skip(id.len() as int + 1) =~= rest);
    let path2 = prefix + id;
    assert(path2.take(prefix.len() as int) =~= prefix);
    assert(path2.skip(prefix.len() as int) =~= id);
    lemma_find_char_bounds(id, '/');
    if find_char(id, '/') < id.len() {
        assert(id.contains(id[find_char(id, '/') as int]));
    }
}

/// Without allowed methods listed, a behavior admits `GET` and `HEAD` and
/// nothing else; a listed method admits its own name in any ASCII case.
pub proof fn lemma_methods_allowed(allowed: Seq<String>, i: int)
    ensures
        method_allowed(Seq::<String>::empty(), "GET"@),
        method_allowed(Seq::<String>::empty(), "HEAD"@),
        !method_allowed(Seq::<String>::empty(), "POST"@),
        !method_allowed(Seq::<String>::empty(), "DELETE"@),
        0 <= i < allowed.len() ==> method_allowed(allowed, allowed[i]@) && method_allowed(
            allowed,
            allowed[i]@.map_values(|c: char| ascii_lower_char(c)),
        ),
{
    reveal_strlit("GET");
    reveal_strlit("HEAD");
    reveal_strlit("POST");
    reveal_strlit("DELETE");
    assert("POST"@[0] != "GET"@[0]);
    assert("POST"@[0] != "HEAD"@[0]);
    assert("DELETE"@.len() != "GET"@.len());
    assert("DELETE"@.len() != "HEAD"@.len());
    if 0 <= i < allowed.len() {
        let a = allowed[i]@;
        let l = a.map_values(|c: char| ascii_lower_char(c));
        assert(eq_ignore_ascii_case(a, a));
        assert(eq_ignore_ascii_case(a, l));
    }
}

/// Resolve a path-based URL (`/_aws/cloudfront/{id}/...`) to a distribution ID + path.
pub fn parse_path_based(path: &str) -> (r: Option<(String, String)>)
    ensures
        match path_based(path@) {
            Some((id, object_path)) => r matches Some((a, b)) && a@ == id && b@ == object_path,
            None => r is None,
        },
{
    let p = str_chars(path);
    let prefix = str_chars("/_aws/cloudfront/");
    if !starts_with_chars(&p, &prefix) {
        return None;
    }
    let rest = slice_chars(&p, prefix.len(), p.len());
    assert(rest@ =~= p@.skip(prefix@.len() as int));
    let i = find_char_exec(&rest, '/');
    let (id, tail) = if i < rest.len() {
        let a = slice_chars(&rest, 0, i);
        let b = slice_chars(&rest, i + 1, rest.len());
        assert(a@ =~= rest@.take(i as int));
        assert(b@ =~= rest@.skip(i + 1));
        (a, b)
    } else {
        let a = slice_chars(&rest, 0, rest.len());
        assert(a@ =~= rest@);
        (a, Vec::new())
    };
    if id.len() == 0 {
        return None;
    }
    let upper = to_ascii_upper(&id);
    let mut object_path: Vec<char> = Vec::new();
    push_str_chars(&mut object_path, "/");
    push_all(&mut object_path, &tail);
    proof {
        if tail@.len() == 0 {
            assert(object_path@ =~= "/"@);
        }
    }
    Some((string_from_chars(&upper), string_from_chars(&object_path)))
}

/// Where a data-plane request is sent.
#[derive(Debug, Clone)]
pub enum RequestTarget {
    /// A path-based URL named the distribution and the object path.
    Distribution { id: String, object_path: String },
    /// No path-based URL: the distribution is the one whose domain matches
    /// the `Host` header (looked up by the caller), and the object path is
    /// the request path.
    Host { host: String, object_path: String },
}

/// Resolve where a request goes: a path-based URL first, else the `Host`
/// header; with neither (or a `Host` value that is not visible ASCII), the
/// request names no distribution and gets `NoSuchDistribution` with its
/// path.
pub fn resolve_request(path: &str, headers: &http::HeaderMap) -> (r: Result<RequestTarget, DataPlaneError>)
    ensures
        match path_based(path@) {
            Some((id, object_path)) => r matches Ok(RequestTarget::Distribution { id: a, object_path: b })
                && a@ == id && b@ == object_path,
            None => match header_lookup(header_values(*headers), "host"@) {
                Some(Some(h)) => r matches Ok(RequestTarget::Host { host: x, object_path: b }) && x@
                    == h && b@ == path@,
                _ => r matches Err(DataPlaneError::NoSuchDistribution(m)) && m@ == path@,
            },
        },
{
    match parse_path_based(path) {
        Some((id, object_path)) => {
            return Ok(RequestTarget::Distribution { id, object_path });
        },
        None => {},
    }
    proof {
        reveal_strlit("host");
        assert("host"@.len() == 4);
    }
    match header_text(headers, "host") {
        Some(Some(h)) => Ok(RequestTarget::Host { host: h, object_path: own(path) }),
        _ => Err(DataPlaneError::NoSuchDistribution(own(path))),
    }
}

// ---------------------------------------------------------------------------
// Allowed methods
// ---------------------------------------------------------------------------

/// ASCII lower-casing of one character.
pub open spec fn ascii_lower_char(c: char) -> char {
    if 'A' <= c && c <= 'Z' {
        ((c as u32) + 32) as char
    } else {
        c
    }
}

/// ASCII case-insensitive equality, as `str::eq_ignore_ascii_case` decides it.
pub open spec fn eq_ignore_ascii_case(a: Seq<char>, b: Seq<char>) -> bool {
    a.len() == b.len() && forall|i: int| 0 <= i < a.len() ==> ascii_lower_char(#[trigger] a[i])
        == ascii_lower_char(b[i])
}

fn lower_char(c: char) -> (r: char)
    ensures
        r == ascii_lower_char(c),
{
    match c {
        'A' => 'a',
        'B' => 'b',
        'C' => 'c',
        'D' => 'd',
        'E' => 'e',
        'F' => 'f',
        'G' => 'g',
        'H' => 'h',
        'I' => 'i',
        'J' => 'j',
        'K' => 'k',
        'L' => 'l',
        'M' => 'm',
        'N' => 'n',
        'O' => 'o',
        'P' => 'p',
        'Q' => 'q',
        'R' => 'r',
        'S' => 's',
        'T' => 't',
        'U' => 'u',
        'V' => 'v',
        'W' => 'w',
        'X' => 'x',
        'Y' => 'y',
        'Z' => 'z',
        _ => c,
    }
}

fn equal_ignoring_ascii_case(a: &str, b: &str) -> (r: bool)
    ensures
        r == eq_ignore_ascii_case(a@, b@),
{
    let x = str_chars(a);
    let y = str_chars(b);
    if x.len() != y.len() {
        return false;
    }
    let mut i: usize = 0;
    while i < x.len()
        invariant
            i <= x.len(),
            x.len() == y.len(),
            x@ == a@,
            y@ == b@,
            forall|k: int| 0 <= k < i ==> ascii_lower_char(#[trigger] x@[k]) == ascii_lower_char(
                y@[k],
            ),
        decreases x.len() - i,
    {
        if lower_char(x[i]) != lower_char(y[i]) {
            assert(ascii_lower_char(a@[i as int]) != ascii_lower_char(b@[i as int]));
            return false;
        }
        i = i + 1;
    }
    true
}

/// Whether a cache behavior with these allowed methods admits the method:
/// `GET` and `HEAD` when none are listed, else any listed method matching
/// the method's name regardless of ASCII case.
pub open spec fn method_allowed(allowed: Seq<String>, method: Seq<char>) -> bool {
    if allowed.len() == 0 {
        method == "GET"@ || method == "HEAD"@
    } else {
        exists|i: int| 0 <= i < allowed.len() && eq_ignore_ascii_case(#[trigger] allowed[i]@, method)
    }
}

/// Whether the cache behavior's allowed methods admit the request method.
pub fn method_is_allowed(behavior: &CacheBehavior, method: &http::Method) -> (r: bool)
    ensures
        r == method_allowed(behavior.allowed_methods@, method_text(*method)),
{
    let name = method_name(method);
    if behavior.allowed_methods.len() == 0 {
        return str_eq(name, "GET") || str_eq(name, "HEAD");
    }
    let mut i: usize = 0;
    while i < behavior.allowed_methods.len()
        invariant
            i <= behavior.allowed_methods.len(),
            name@ == method_text(*method),
            forall|k: int| 0 <= k < i ==> !eq_ignore_ascii_case(
                #[trigger] behavior.allowed_methods@[k]@,
                name@,
            ),
        decreases behavior.allowed_methods.len() - i,
    {
        if equal_ignoring_ascii_case(behavior.allowed_methods[i].as_str(), name) {
            assert(eq_ignore_ascii_case(behavior.allowed_methods@[i as int]@, method_text(*method)));
            return true;
        }
        i = i + 1;
    }
    false
}

// ---------------------------------------------------------------------------
// XML escaping
// ---------------------------------------------------------------------------

/// `&`, `<` and `>` replaced by their entities.
pub open spec fn xml_escaped(s: Seq<char>) -> Seq<char>
    decreases s.len(),
{
    if s.len() == 0 {
        Seq::<char>::empty()
    } else {
        let c = s.last();
        xml_escaped(s.drop_last()) + if c == '&' {
            "&amp;"@
        } else if c == '<' {
            "&lt;"@
        } else if c == '>' {
            "&gt;"@
        } else {
            seq![c]
        }
    }
}

/// Escapes `&`, `<` and `>` for XML text.
pub fn xml_escape(s: &str) -> (r: String)
    ensures
        r@ == xml_escaped(s@),
{
    let cs = str_chars(s);
    let mut out: Vec<char> = Vec::new();
    let mut i: usize = 0;
    while i < cs.len()
        invariant
            i <= cs.len(),
            out@ == xml_escaped(cs@.take(i as int)),
        decreases cs.len() - i,
    {
        let c = cs[i];
        proof {
            assert(cs@.take(i + 1).drop_last() =~= cs@.take(i as int));
            assert(cs@.take(i + 1).last() == c);
        }
        if c == '&' {
            push_str_chars(&mut out, "&amp;");
        } else if c == '<' {
            push_str_chars(&mut out, "&lt;");
        } else if c == '>' {
            push_str_chars(&mut out, "&gt;");
        } else {
            out.push(c);
        }
        i = i + 1;
    }
    assert(cs@.take(cs.len() as int) =~= cs@);
    string_from_chars(&out)
}

// ---------------------------------------------------------------------------
// Divergence warnings
// ---------------------------------------------------------------------------

/// The monotonic clock's instants.
#[verifier::external_type_specification]
#[verifier::external_body]
pub struct ExInstant(std::time::Instant);

/// The concurrent hash map of the `dashmap` crate.
#[verifier::external_type_specification]
#[verifier::external_body]
#[verifier::reject_recursive_types(K)]
#[verifier::reject_recursive_types(V)]
#[verifier::reject_recursive_types(S)]
pub struct ExDashMap<K, V, S>(dashmap::DashMap<K, V, S>);

/// What a map of warning times holds: for each key (by its text) the time of
/// its last warning.
pub uninterp spec fn seen_times(m: dashmap::DashMap<String, u64>) -> Map<Seq<char>, u64>;

/// No warning times at all.
pub open spec fn no_times() -> Map<Seq<char>, u64> {
    Map::empty()
}

/// A new, empty map of warning times.
///
/// Trusted: `dashmap::DashMap::new`, which makes an empty map.
#[verifier::external_body]
fn seen_new() -> (r: dashmap::DashMap<String, u64>)
    ensures
        seen_times(r) == no_times(),
{
    dashmap::DashMap::new()
}

/// The time recorded for a key, if any.
///
/// Trusted: `dashmap::DashMap::get`, the value copied out of the entry it
/// finds (keys are compared as strings); `None` when the key has no entry.
#[verifier::external_body]
fn seen_get(m: &dashmap::DashMap<String, u64>, key: &str) -> (r: Option<u64>)
    ensures
        match r {
            Some(v) => seen_times(*m).contains_key(key@) && seen_times(*m)[key@] == v,
            None => !seen_times(*m).contains_key(key@),
        },
{
    m.get(key).map(|e| *e.value())
}

/// Record a time for a key, replacing any earlier one.
///
/// Trusted: `dashmap::DashMap::insert`, which sets the key's value and
/// leaves the other keys' values as they were.
#[verifier::external_body]
fn seen_insert(m: &mut dashmap::DashMap<String, u64>, key: String, v: u64)
    ensures
        seen_times(*final(m)) == seen_times(*old(m)).insert(key@, v),
{
    m.insert(key, v);
}

/// Tracks when each divergence warning was last emitted, to rate-limit
/// repeats.  Times are nanoseconds on the tracker's monotonic clock.
#[derive(Debug)]
pub struct DivergenceTracker {
    seen: dashmap::DashMap<String, u64>,
    interval: u64,
    origin: std::time::Instant,
}

impl View for DivergenceTracker {
    type V = Map<Seq<char>, u64>;

    closed spec fn view(&self) -> Map<Seq<char>, u64> {
        seen_times(self.seen)
    }
}

/// The time since `last`, or zero when `now` is earlier.
pub open spec fn elapsed(now: u64, last: u64) -> int {
    if now >= last {
        now - last
    } else {
        0
    }
}

/// The last time the key's warning was emitted, if ever.
pub open spec fn last_seen(seen: Map<Seq<char>, u64>, key: Seq<char>) -> Option<u64> {
    if seen.contains_key(key) {
        Some(seen[key])
    } else {
        None
    }
}

impl DivergenceTracker {
    /// The minimum time between two warnings with the same key.
    pub closed spec fn spec_interval(&self) -> u64 {
        self.interval
    }

    /// Returns true if the caller should emit the warning for `key` at time
    /// `now`: the key was never warned about, or its last warning is at least
    /// the interval ago; the warning time is then recorded.
    pub fn should_log_at(&mut self, key: &str, now: u64) -> (r: bool)
        ensures
            final(self).spec_interval() == old(self).spec_interval(),
            logged(old(self)@, old(self).spec_interval(), key@, now, r, final(self)@),
    {
        match seen_get(&self.seen, key) {
            Some(last) => {
                let since: u64 = if now >= last {
                    now - last
                } else {
                    0
                };
                if since < self.interval {
                    return false;
                }
                seen_insert(&mut self.seen, own(key), now);
                true
            },
            None => {
                seen_insert(&mut self.seen, own(key), now);
                true
            },
        }
    }
}

fn keyed_message(distribution_id: &str, suffix: &str) -> (r: String)
    ensures
        r@ == distribution_id@ + suffix@,
{
    let mut m: Vec<char> = Vec::new();
    push_str_chars(&mut m, distribution_id);
    push_str_chars(&mut m, suffix);
    string_from_chars(&m)
}

fn wrapped_message(head: &str, distribution_id: &str, tail: &str) -> (r: String)
    ensures
        r@ == head@ + distribution_id@ + tail@,
{
    let mut m: Vec<char> = Vec::new();
    push_str_chars(&mut m, head);
    push_str_chars(&mut m, distribution_id);
    push_str_chars(&mut m, tail);
    string_from_chars(&m)
}

/// What one rate-limited check did: `warn` tells whether the warning for
/// `key` is due at time `now` (never given, or last given at least
/// `interval` ago); when it is, `now` is recorded as the key's last warning,
/// and nothing else changes.
pub open spec fn logged(
    old_seen: Map<Seq<char>, u64>,
    interval: u64,
    key: Seq<char>,
    now: u64,
    warn: bool,
    new_seen: Map<Seq<char>, u64>,
) -> bool {
    &&& warn == match last_seen(old_seen, key) {
        Some(last) => elapsed(now, last) >= interval,
        None => true,
    }
    &&& last_seen(new_seen, key) == if warn {
        Some(now)
    } else {
        last_seen(old_seen, key)
    }
    &&& forall|other: Seq<char>|
        other != key ==> #[trigger] last_seen(new_seen, other) == last_seen(old_seen, other)
}

/// The nanoseconds elapsed on the monotonic clock since `origin`.
///
/// Trusted: `std::time::Instant::elapsed`, read as whole nanoseconds.
/// Nothing is stated of the result: it depends on the clock.
#[verifier::external_body]
fn elapsed_nanos(origin: &std::time::Instant) -> u128 {
    origin.elapsed().as_nanos()
}

/// The current instant of the monotonic clock.
///
/// Trusted: `std::time::Instant::now`.  Nothing is stated of the result.
#[verifier::external_body]
fn instant_now() -> std::time::Instant {
    std::time::Instant::now()
}

impl DivergenceTracker {
    /// Create a new tracker with the given minimum log interval
    /// (nanoseconds); its clock starts now.
    pub fn new(interval: u64) -> (r: Self)
        ensures
            r@ == no_times(),
            r.spec_interval() == interval,
    {
        DivergenceTracker { seen: seen_new(), interval, origin: instant_now() }
    }

    /// The time on the tracker's clock, in nanoseconds since it was made
    /// (saturating at `u64::MAX`).
    fn now(&self) -> u64 {
        let n = elapsed_nanos(&self.origin);
        if n > 0xffff_ffff_ffff_ffffu128 {
            0xffff_ffff_ffff_ffffu64
        } else {
            n as u64
        }
    }

    /// Returns true if the caller should emit the warning for `key` now.
    pub fn should_log(&mut self, key: &str) -> (r: bool)
        ensures
            final(self).spec_interval() == old(self).spec_interval(),
            exists|now: u64|
                logged(old(self)@, old(self).spec_interval(), key@, now, r, final(self)@),
    {
        let now = self.now();
        self.should_log_at(key, now)
    }
}

impl Default for DivergenceTracker {
    fn default() -> (r: Self)
        ensures
            r@ == no_times(),
            r.spec_interval() == 0,
    {
        DivergenceTracker::new(0)
    }
}

/// A divergence check that went to the rate limiter: `warn` is the warning
/// decision for `key` at some time, with the tracker updated.
pub open spec fn rate_limited(
    old_t: DivergenceTracker,
    new_t: DivergenceTracker,
    key: Seq<char>,
    warn: bool,
) -> bool {
    &&& new_t.spec_interval() == old_t.spec_interval()
    &&& exists|now: u64| #[trigger] logged(old_t@, old_t.spec_interval(), key, now, warn, new_t@)
}

/// Lambda@Edge association hit: an error when `fail` is set, else whether
/// to warn now (key `{distribution_id}:lambda-edge`).
pub fn handle_lambda_edge(tracker: &mut DivergenceTracker, fail: bool, distribution_id: &str) -> (r:
    Result<bool, DataPlaneError>)
    ensures
        fail ==> (r matches Err(DataPlaneError::FunctionExecutionSkipped(m)) && m@
            == "Lambda@Edge would have executed but CLOUDFRONT_FAIL_ON_FUNCTION=true ("@
            + distribution_id@ + ")"@ && *final(tracker) == *old(tracker)),
        !fail ==> (r matches Ok(w) && rate_limited(*old(tracker), *final(tracker), distribution_id@ + ":lambda-edge"@, w)),
{
    if fail {
        return Err(
            DataPlaneError::FunctionExecutionSkipped(
                wrapped_message(
                    "Lambda@Edge would have executed but CLOUDFRONT_FAIL_ON_FUNCTION=true (",
                    distribution_id,
                    ")",
                ),
            ),
        );
    }
    let key = keyed_message(distribution_id, ":lambda-edge");
    let warn = tracker.should_log(key.as_str());
    proof {
        let now = choose|now: u64|
            logged(old(tracker)@, old(tracker).spec_interval(), key@, now, warn, tracker@);
        assert(key@ == distribution_id@ + ":lambda-edge"@);
        assert(logged(old(tracker)@, old(tracker).spec_interval(), distribution_id@ + ":lambda-edge"@, now, warn, tracker@));
        assert(rate_limited(*old(tracker), *tracker, distribution_id@ + ":lambda-edge"@, warn));
    }
    Ok(warn)
}

/// CloudFront Function association hit: an error when `fail` is set, else
/// whether to warn now (key `{distribution_id}:cf-function`).
pub fn handle_function(tracker: &mut DivergenceTracker, fail: bool, distribution_id: &str) -> (r:
    Result<bool, DataPlaneError>)
    ensures
        fail ==> (r matches Err(DataPlaneError::FunctionExecutionSkipped(m)) && m@
            == "CloudFront Function would have executed but CLOUDFRONT_FAIL_ON_FUNCTION=true ("@
            + distribution_id@ + ")"@ && *final(tracker) == *old(tracker)),
        !fail ==> (r matches Ok(w) && rate_limited(*old(tracker), *final(tracker), distribution_id@ + ":cf-function"@, w)),
{
    if fail {
        return Err(
            DataPlaneError::FunctionExecutionSkipped(
                wrapped_message(
                    "CloudFront Function would have executed but CLOUDFRONT_FAIL_ON_FUNCTION=true (",
                    distribution_id,
                    ")",
                ),
            ),
        );
    }
    let key = keyed_message(distribution_id, ":cf-function");
    let warn = tracker.should_log(key.as_str());
    proof {
        let now = choose|now: u64|
            logged(old(tracker)@, old(tracker).spec_interval(), key@, now, warn, tracker@);
        assert(key@ == distribution_id@ + ":cf-function"@);
        assert(logged(old(tracker)@, old(tracker).spec_interval(), distribution_id@ + ":cf-function"@, now, warn, tracker@));
        assert(rate_limited(*old(tracker), *tracker, distribution_id@ + ":cf-function"@, warn));
    }
    Ok(warn)
}

/// Signed-URL protected behavior: an error when `fail` is set, else
/// whether to warn now (key `{distribution_id}:signed-url`).
pub fn handle_signed_url(tracker: &mut DivergenceTracker, fail: bool, distribution_id: &str) -> (r:
    Result<bool, DataPlaneError>)
    ensures
        fail ==> (r matches Err(DataPlaneError::SignedUrlRequired(m)) && m@
            == "Behavior requires signed URL but Rustack does not verify signatures ("@
            + distribution_id@ + ")"@ && *final(tracker) == *old(tracker)),
        !fail ==> (r matches Ok(w) && rate_limited(*old(tracker), *final(tracker), distribution_id@ + ":signed-url"@, w)),
{
    if fail {
        return Err(
            DataPlaneError::SignedUrlRequired(
                wrapped_message(
                    "Behavior requires signed URL but Rustack does not verify signatures (",
                    distribution_id,
                    ")",
                ),
            ),
        );
    }
    let key = keyed_message(distribution_id, ":signed-url");
    let warn = tracker.should_log(key.as_str());
    proof {
        let now = choose|now: u64|
            logged(old(tracker)@, old(tracker).spec_interval(), key@, now, warn, tracker@);
        assert(key@ == distribution_id@ + ":signed-url"@);
        assert(logged(old(tracker)@, old(tracker).spec_interval(), distribution_id@ + ":signed-url"@, now, warn, tracker@));
        assert(rate_limited(*old(tracker), *tracker, distribution_id@ + ":signed-url"@, warn));
    }
    Ok(warn)
}

/// A `ViewerProtocolPolicy` that requires HTTPS (the data plane serves
/// HTTP only): nothing for other policies; an error for `https-only` when
/// `fail` is set; else whether to warn now (key `{distribution_id}:vpp-{policy}`).
pub fn handle_viewer_protocol(
    tracker: &mut DivergenceTracker,
    fail: bool,
    distribution_id: &str,
    policy: &str,
) -> (r: Result<bool, DataPlaneError>)
    ensures
        !(policy@ == "https-only"@ || policy@ == "redirect-to-https"@) ==> (r == Ok::<
            bool,
            DataPlaneError,
        >(false) && *final(tracker) == *old(tracker)),
        (fail && policy@ == "https-only"@) ==> (r matches Err(
            DataPlaneError::BehaviorResolution(m),
        ) && m@ == "ViewerProtocolPolicy is 'https-only' but Rustack is HTTP-only ("
            @ + distribution_id@ + ")"@ && *final(tracker) == *old(tracker)),
        ((!fail && policy@ == "https-only"@) || policy@ == "redirect-to-https"@) ==> (r matches Ok(w)
            && rate_limited(*old(tracker), *final(tracker), distribution_id@ + ":vpp-"@ + policy@, w)),
{
    proof {
        reveal_strlit("https-only");
        reveal_strlit("redirect-to-https");
        assert("https-only"@.len() == 10);
        assert("redirect-to-https"@.len() == 17);
    }
    let requires_https = str_eq(policy, "https-only") || str_eq(policy, "redirect-to-https");
    if !requires_https {
        return Ok(false);
    }
    if fail && str_eq(policy, "https-only") {
        return Err(
            DataPlaneError::BehaviorResolution(
                wrapped_message(
                    "ViewerProtocolPolicy is 'https-only' but Rustack is HTTP-only (",
                    distribution_id,
                    ")",
                ),
            ),
        );
    }
    let key = wrapped_message("", distribution_id, "");
    let mut k: Vec<char> = str_chars(key.as_str());
    push_str_chars(&mut k, ":vpp-");
    push_str_chars(&mut k, policy);
    let key = string_from_chars(&k);
    proof {
        reveal_strlit("");
        assert(""@ =~= Seq::<char>::empty());
    }
    let warn = tracker.should_log(key.as_str());
    proof {
        let now = choose|now: u64|
            logged(old(tracker)@, old(tracker).spec_interval(), key@, now, warn, tracker@);
        assert(key@ == distribution_id@ + ":vpp-"@ + policy@);
        assert(logged(old(tracker)@, old(tracker).spec_interval(), distribution_id@ + ":vpp-"@ + policy@, now, warn, tracker@));
        assert(rate_limited(*old(tracker), *tracker, distribution_id@ + ":vpp-"@ + policy@, warn));
    }
    Ok(warn)
}

// ---------------------------------------------------------------------------
// Divergence checks of a cache behavior
// ---------------------------------------------------------------------------

/// The tracker went from `old_t` to `new_t` through one rate-limited check
/// per key, in order.
pub open spec fn checked_in_order(
    old_t: DivergenceTracker,
    new_t: DivergenceTracker,
    keys: Seq<Seq<char>>,
) -> bool
    decreases keys.len(),
{
    if keys.len() == 0 {
        new_t == old_t
    } else {
        exists|mid: DivergenceTracker, w: bool|
            #[trigger] rate_limited(old_t, mid, keys[0], w) && checked_in_order(
                mid,
                new_t,
                keys.drop_first(),
            )
    }
}

/// The behavior has Lambda@Edge associations.
pub open spec fn has_lambda_edge(b: CacheBehavior) -> bool {
    b.lambda_function_associations@.len() > 0
}

/// The behavior has CloudFront Function associations.
pub open spec fn has_functions(b: CacheBehavior) -> bool {
    b.function_associations@.len() > 0
}

/// The behavior restricts viewers to signed URLs.
pub open spec fn needs_signed_urls(b: CacheBehavior) -> bool {
    (b.trusted_key_groups_enabled && b.trusted_key_groups@.len() > 0) || (b.trusted_signers_enabled
        && b.trusted_signers@.len() > 0)
}

/// The viewer protocol policy asks for HTTPS.
pub open spec fn wants_https(b: CacheBehavior) -> bool {
    b.viewer_protocol_policy@ == "https-only"@ || b.viewer_protocol_policy@ == "redirect-to-https"@
}

/// The key, as a one-element sequence when the check applies.
pub open spec fn key_if(cond: bool, key: Seq<char>) -> Seq<Seq<char>> {
    if cond {
        seq![key]
    } else {
        Seq::<Seq<char>>::empty()
    }
}

/// The rate-limiter keys that the divergence checks of a behavior go
/// through, in order, when nothing fails.
pub open spec fn divergence_keys(id: Seq<char>, b: CacheBehavior) -> Seq<Seq<char>> {
    key_if(has_lambda_edge(b), id + ":lambda-edge"@) + key_if(has_functions(b), id + ":cf-function"@)
        + key_if(needs_signed_urls(b), id + ":signed-url"@) + key_if(
        wants_https(b),
        id + ":vpp-"@ + b.viewer_protocol_policy@,
    )
}

/// The policies `https-only` and `redirect-to-https` ask for HTTPS; a
/// behavior with none of the four features goes through no divergence check,
/// and one with Lambda@Edge associations goes through `{id}:lambda-edge` first.
pub proof fn lemma_divergence_keys(id: Seq<char>, b: CacheBehavior)
    ensures
        b.viewer_protocol_policy@ == "https-only"@ ==> wants_https(b),
        b.viewer_protocol_policy@ == "redirect-to-https"@ ==> wants_https(b),
        b.viewer_protocol_policy@ == "allow-all"@ ==> !wants_https(b),
        !has_lambda_edge(b) && !has_functions(b) && !needs_signed_urls(b) && !wants_https(b)
            ==> divergence_keys(id, b).len() == 0,
        has_lambda_edge(b) ==> divergence_keys(id, b)[0] == id + ":lambda-edge"@,
        !has_lambda_edge(b) && has_functions(b) ==> divergence_keys(id, b)[0] == id
            + ":cf-function"@,
        !has_lambda_edge(b) && !has_functions(b) && needs_signed_urls(b) ==> divergence_keys(
            id,
            b,
        )[0] == id + ":signed-url"@,
        !has_lambda_edge(b) && !has_functions(b) && !needs_signed_urls(b) && wants_https(b)
            ==> divergence_keys(id, b) == seq![id + ":vpp-"@ + b.viewer_protocol_policy@],
{
    reveal_strlit("https-only");
    reveal_strlit("redirect-to-https");
    reveal_strlit("allow-all");
    let k1 = key_if(has_lambda_edge(b), id + ":lambda-edge"@);
    let k2 = key_if(has_functions(b), id + ":cf-function"@);
    let k3 = key_if(needs_signed_urls(b), id + ":signed-url"@);
    let k4 = key_if(wants_https(b), id + ":vpp-"@ + b.viewer_protocol_policy@);
    assert(divergence_keys(id, b) == k1 + k2 + k3 + k4);
    if !has_lambda_edge(b) && !has_functions(b) && !needs_signed_urls(b) {
        assert(k1 + k2 + k3 + k4 =~= k4);
    }
}

proof fn lemma_checked_step(
    t0: DivergenceTracker,
    t1: DivergenceTracker,
    t2: DivergenceTracker,
    cond: bool,
    key: Seq<char>,
    rest: Seq<Seq<char>>,
)
    requires
        cond ==> exists|w: bool| rate_limited(t0, t1, key, w),
        !cond ==> t1 == t0,
        checked_in_order(t1, t2, rest),
    ensures
        checked_in_order(t0, t2, key_if(cond, key) + rest),
{
    if cond {
        let w = choose|w: bool| rate_limited(t0, t1, key, w);
        let ks = key_if(cond, key) + rest;
        assert(ks[0] == key);
        assert(ks.drop_first() =~= rest);
        assert(rate_limited(t0, t1, ks[0], w) && checked_in_order(t1, t2, ks.drop_first()));
    } else {
        assert(key_if(cond, key) + rest =~= rest);
    }
}

/// Run the divergence checks of a cache behavior, in order: Lambda@Edge
/// associations, CloudFront Function associations, signed URLs, and a
/// viewer protocol policy that asks for HTTPS.  With `fail` set, the first
/// check that applies (for the policy: `https-only`) gives its error.
/// What the divergence checks of behavior `b` gave (`r`) and did to the
/// tracker (from `old_t` to `new_t`).
pub open spec fn divergence_checked(
    fail: bool,
    id: Seq<char>,
    b: CacheBehavior,
    old_t: DivergenceTracker,
    new_t: DivergenceTracker,
    r: Result<(), DataPlaneError>,
) -> bool {
    &&& (!fail ==> r is Ok && checked_in_order(
            old_t,
            new_t,
            divergence_keys(id, b),
        ))
    &&& (fail && has_lambda_edge(b) ==> (r matches Err(
            DataPlaneError::FunctionExecutionSkipped(m),
        ) && m@ == "Lambda@Edge would have executed but CLOUDFRONT_FAIL_ON_FUNCTION=true ("@
            + id + ")"@ && new_t == old_t))
    &&& (fail && !has_lambda_edge(b) && has_functions(b) ==> (r matches Err(
            DataPlaneError::FunctionExecutionSkipped(m),
        ) && m@ == "CloudFront Function would have executed but CLOUDFRONT_FAIL_ON_FUNCTION=true ("@
            + id + ")"@ && new_t == old_t))
    &&& (fail && !has_lambda_edge(b) && !has_functions(b) && needs_signed_urls(
            b,
        ) ==> (r matches Err(DataPlaneError::SignedUrlRequired(m)) && m@
            == "Behavior requires signed URL but Rustack does not verify signatures ("@
            + id + ")"@ && new_t == old_t))
    &&& (fail && !has_lambda_edge(b) && !has_functions(b) && !needs_signed_urls(b) ==> {
        if b.viewer_protocol_policy@ == "https-only"@ {
            r matches Err(DataPlaneError::BehaviorResolution(m)) && m@
                == "ViewerProtocolPolicy is 'https-only' but Rustack is HTTP-only ("@ + id + ")"@
                && new_t == old_t
        } else {
            r is Ok && checked_in_order(
                old_t,
                new_t,
                key_if(wants_https(b), id + ":vpp-"@ + b.viewer_protocol_policy@),
            )
        }
    })
}

#[verifier::rlimit(40)]
pub fn check_divergence(
    tracker: &mut DivergenceTracker,
    fail: bool,
    distribution_id: &str,
    behavior: &CacheBehavior,
) -> (r: Result<(), DataPlaneError>)
    ensures
        divergence_checked(fail, distribution_id@, *behavior, *old(tracker), *final(tracker), r),
{
    let ghost t0 = *tracker;
    let ghost id = distribution_id@;
    let ghost b = *behavior;
    let lambda = behavior.lambda_function_associations.len() > 0;
    if lambda {
        match handle_lambda_edge(tracker, fail, distribution_id) {
            Err(e) => {
                return Err(e);
            },
            Ok(_) => {},
        }
    }
    let ghost t1 = *tracker;
    let functions = behavior.function_associations.len() > 0;
    if functions {
        match handle_function(tracker, fail, distribution_id) {
            Err(e) => {
                return Err(e);
            },
            Ok(_) => {},
        }
    }
    let ghost t2 = *tracker;
    let signed = (behavior.trusted_key_groups_enabled && behavior.trusted_key_groups.len() > 0) || (
    behavior.trusted_signers_enabled && behavior.trusted_signers.len() > 0);
    if signed {
        match handle_signed_url(tracker, fail, distribution_id) {
            Err(e) => {
                return Err(e);
            },
            Ok(_) => {},
        }
    }
    let ghost t3 = *tracker;
    proof {
        reveal_strlit("https-only");
        reveal_strlit("redirect-to-https");
    }
    if !behavior.viewer_protocol_policy.as_str().is_empty() {
        match handle_viewer_protocol(tracker, fail, distribution_id, behavior.viewer_protocol_policy.as_str()) {
            Err(e) => {
                return Err(e);
            },
            Ok(_) => {},
        }
    }
    proof {
        let t4 = *tracker;
        let k4 = key_if(wants_https(b), id + ":vpp-"@ + b.viewer_protocol_policy@);
        assert(checked_in_order(t4, t4, Seq::<Seq<char>>::empty()));
        if wants_https(b) {
            assert(b.viewer_protocol_policy@.len() > 0);
        }
        lemma_checked_step(t3, t4, t4, wants_https(b), id + ":vpp-"@ + b.viewer_protocol_policy@, Seq::<Seq<char>>::empty());
        assert(k4 + Seq::<Seq<char>>::empty() =~= k4);
        if !fail {
            let k3 = key_if(needs_signed_urls(b), id + ":signed-url"@);
            let k2 = key_if(has_functions(b), id + ":cf-function"@);
            let k1 = key_if(has_lambda_edge(b), id + ":lambda-edge"@);
            lemma_checked_step(t2, t3, t4, needs_signed_urls(b), id + ":signed-url"@, k4);
            lemma_checked_step(t1, t2, t4, has_functions(b), id + ":cf-function"@, k3 + k4);
            lemma_checked_step(t0, t1, t4, has_lambda_edge(b), id + ":lambda-edge"@, k2 + (k3 + k4));
            assert(divergence_keys(id, b) =~= k1 + (k2 + (k3 + k4)));
        }
    }
    Ok(())
}

/// A warning is given at most once per interval: once a key's warning was
/// given at `t1`, a later check of that key less than the interval after
/// `t1` gives none, as long as the key's entry was not touched in between
/// (checks of other keys leave it alone, as `logged` states).
pub proof fn lemma_warning_rate_limited(
    s0: Map<Seq<char>, u64>,
    s1: Map<Seq<char>, u64>,
    s2: Map<Seq<char>, u64>,
    s3: Map<Seq<char>, u64>,
    interval: u64,
    key: Seq<char>,
    t1: u64,
    t2: u64,
    w2: bool,
)
    requires
        logged(s0, interval, key, t1, true, s1),
        last_seen(s2, key) == last_seen(s1, key),
        logged(s2, interval, key, t2, w2, s3),
        t1 <= t2,
        t2 - t1 < interval,
    ensures
        !w2,
{
}

// ---------------------------------------------------------------------------
// Checks of a request before its origin is asked
// ---------------------------------------------------------------------------

/// Selects the origins with the given ID.
pub open spec fn origin_id_is(id: Seq<char>) -> spec_fn(Origin) -> bool {
    |o: Origin| o.id@ == id
}

/// The position of the first origin with the given ID (the length when none
/// has it).
pub open spec fn origin_index(origins: Seq<Origin>, id: Seq<char>) -> int {
    first_index(origins, origin_id_is(id)) as int
}

/// What the checks of a request give once the method is allowed and the
/// divergence checks passed: the behavior's target origin, or an error when
/// no origin has its ID.
pub open spec fn origin_outcome(
    config: DistributionConfig,
    behavior: CacheBehavior,
    r: Result<Origin, DataPlaneError>,
) -> bool {
    let k = origin_index(config.origins@, behavior.target_origin_id@);
    if k < config.origins@.len() {
        r == Ok::<Origin, DataPlaneError>(config.origins@[k])
    } else {
        r matches Err(DataPlaneError::BehaviorResolution(m)) && m@ == "TargetOriginId "@
            + behavior.target_origin_id@ + " does not match any Origin"@
    }
}

/// The origin a check gave, as a value.
pub open spec fn deref_result(r: Result<&Origin, DataPlaneError>) -> Result<Origin, DataPlaneError> {
    match r {
        Ok(o) => Ok(*o),
        Err(e) => Err(e),
    }
}

/// The checks that a request to a distribution goes through before its
/// origin is asked, in order: the distribution must be enabled, the cache
/// behavior must allow the method, the divergence checks must pass, and the
/// behavior's target origin must exist.  Gives that origin.
pub fn check_request<'a>(
    tracker: &mut DivergenceTracker,
    fail: bool,
    distribution_id: &str,
    config: &'a DistributionConfig,
    behavior: &CacheBehavior,
    method: &http::Method,
) -> (r: Result<&'a Origin, DataPlaneError>)
    ensures
        !config.enabled ==> (r matches Err(DataPlaneError::DistributionDisabled(m)) && m@
            == distribution_id@ && *final(tracker) == *old(tracker)),
        config.enabled && !method_allowed(behavior.allowed_methods@, method_text(*method)) ==> (
        r matches Err(DataPlaneError::MethodNotAllowed(m)) && m@ == method_text(*method)
            + " is not in AllowedMethods for behavior "@ + behavior.path_pattern@ && *final(tracker)
            == *old(tracker)),
        config.enabled && method_allowed(behavior.allowed_methods@, method_text(*method)) ==> exists|
            d: Result<(), DataPlaneError>,
        |
            #[trigger] divergence_checked(
                fail,
                distribution_id@,
                *behavior,
                *old(tracker),
                *final(tracker),
                d,
            ) && match d {
                Err(e) => deref_result(r) == Err::<Origin, DataPlaneError>(e),
                Ok(_) => origin_outcome(*config, *behavior, deref_result(r)),
            },
{
    if !config.enabled {
        return Err(DataPlaneError::DistributionDisabled(own(distribution_id)));
    }
    if !method_is_allowed(behavior, method) {
        return Err(
            DataPlaneError::MethodNotAllowed(
                wrapped_message(
                    method_name(method),
                    " is not in AllowedMethods for behavior ",
                    behavior.path_pattern.as_str(),
                ),
            ),
        );
    }
    let d = check_divergence(tracker, fail, distribution_id, behavior);
    match d {
        Err(e) => {
            return Err(e);
        },
        Ok(()) => {},
    }
    let ghost pred = origin_id_is(behavior.target_origin_id@);
    let mut i: usize = 0;
    while i < config.origins.len()
        invariant
            i <= config.origins@.len(),
            pred == origin_id_is(behavior.target_origin_id@),
            config.enabled,
            method_allowed(behavior.allowed_methods@, method_text(*method)),
            divergence_checked(
                fail,
                distribution_id@,
                *behavior,
                *old(tracker),
                *tracker,
                Ok::<(), DataPlaneError>(()),
            ),
            forall|k: int| 0 <= k < i ==> !pred(#[trigger] config.origins@[k]),
        decreases config.origins@.len() - i,
    {
        if str_eq(config.origins[i].id.as_str(), behavior.target_origin_id.as_str()) {
            proof {
                lemma_first_index_is(config.origins@, pred, i as int);
            }
            return Ok(&config.origins[i]);
        }
        i = i + 1;
    }
    proof {
        lemma_first_index_is(config.origins@, pred, i as int);
    }
    Err(
        DataPlaneError::BehaviorResolution(
            wrapped_message("TargetOriginId ", behavior.target_origin_id.as_str(), " does not match any Origin"),
        ),
    )
}

} // verus!
