//! Service configuration for config-driven code generation: the sections of
//! a service's TOML file and the runtime configuration derived from them.

use vstd::prelude::*;
use crate::text::{lex_less, lex_lt, lemma_lex_asymmetric, lemma_lex_total, lemma_lex_transitive, own, push_str_chars, str_chars, str_eq, string_from_chars};

verus! {

/// Service identification section.
#[derive(Debug, Clone, Default)]
pub struct ServiceSection {
    /// Short service name (e.g., "s3").
    pub name: String,
    /// Display name for doc comments (e.g., "S3").
    pub display_name: String,
    /// Rust type prefix (e.g., "S3" for S3Operation, S3Error).
    pub rust_prefix: String,
    /// Smithy namespace (e.g., "com.amazonaws.s3").
    pub namespace: String,
    /// Protocol identifier (e.g., "restXml").
    pub protocol: String,
}

/// Protocol-specific settings.
#[derive(Debug, Clone)]
pub struct ProtocolSection {
    /// Serde rename strategy (e.g., "PascalCase", "none").
    pub serde_rename: String,
    /// Target prefix for JSON protocols.
    pub target_prefix: Option<String>,
    /// Whether to emit HTTP binding comments on struct fields.
    pub emit_http_bindings: bool,
    /// Whether to derive Serialize/Deserialize on generated types.
    pub emit_serde_derives: bool,
    /// Whether to emit the request wrapper (S3Request, StreamingBlob, etc.).
    pub emit_request_wrapper: bool,
    /// Custom error type format string.
    pub error_type_format: Option<String>,
    /// Whether this service uses AWS Query compatible error mode.
    pub aws_query_compatible: bool,
}

impl Default for ProtocolSection {
    fn default() -> (r: Self)
        ensures
            r.serde_rename@ == Seq::<char>::empty(),
            r.target_prefix.is_none(),
            !r.emit_http_bindings,
            !r.emit_serde_derives,
            !r.emit_request_wrapper,
            r.error_type_format.is_none(),
            !r.aws_query_compatible,
    {
        ProtocolSection {
            serde_rename: String::new(),
            target_prefix: None,
            emit_http_bindings: false,
            emit_serde_derives: false,
            emit_request_wrapper: false,
            error_type_format: None,
            aws_query_compatible: false,
        }
    }
}

/// Operations to generate.
#[derive(Debug, Clone, Default)]
pub struct OperationsSection {
    /// Explicit ordered list of all operations (determines enum variant order).
    /// When present, this takes precedence over phase/category ordering.
    pub all: Vec<String>,
    /// Phase 0 operations.
    pub phase0: Vec<String>,
    /// Phase 1 operations.
    pub phase1: Vec<String>,
    /// Phase 2 operations.
    pub phase2: Vec<String>,
    /// Phase 3 operations.
    pub phase3: Vec<String>,
    /// Categorized operations (category name, operations), in order of category name.
    pub categories: Vec<(String, Vec<String>)>,
}

/// A custom error definition.
#[derive(Debug, Clone)]
pub struct CustomError {
    /// HTTP status code.
    pub status: u16,
    /// Default error message.
    pub message: String,
}

/// Custom error definitions.
#[derive(Debug, Clone, Default)]
pub struct ErrorsSection {
    /// Custom error codes with status and message, in order of code.
    pub custom: Vec<(String, CustomError)>,
}

/// Output settings.
#[derive(Debug, Clone)]
pub struct OutputSection {
    /// Output directory override.
    pub dir: Option<String>,
    /// File layout strategy: "flat" or "categorized".
    pub file_layout: String,
    /// Whether to always serialize arrays (even when empty).
    pub always_serialize_arrays: bool,
}

impl Default for OutputSection {
    fn default() -> (r: Self)
        ensures
            r.dir.is_none(),
            r.file_layout@ == Seq::<char>::empty(),
            !r.always_serialize_arrays,
    {
        OutputSection { dir: None, file_layout: String::new(), always_serialize_arrays: false }
    }
}

/// Overlay settings for preserving manual code.
#[derive(Debug, Clone, Default)]
pub struct OverlaySection {
    /// Files to preserve during regeneration.
    pub preserve: Vec<String>,
    /// Extra modules to include in lib.rs.
    pub extra_modules: Vec<String>,
}

/// Top-level configuration file structure.
#[derive(Debug, Clone)]
pub struct ServiceConfigFile {
    /// Service identification and protocol info.
    pub service: ServiceSection,
    /// Protocol-specific settings.
    pub protocol: ProtocolSection,
    /// Operations to generate code for.
    pub operations: OperationsSection,
    /// Custom error definitions.
    pub errors: ErrorsSection,
    /// Output settings.
    pub output: OutputSection,
    /// Overlay settings for preserving manual code.
    pub overlay: OverlaySection,
}

/// The default serde rename strategy of a protocol section that omits it.
pub fn default_serde_rename() -> (r: String)
    ensures
        r@ == "PascalCase"@,
{
    own("PascalCase")
}

/// The default of boolean settings that default to on.
pub fn default_true() -> (r: bool)
    ensures
        r,
{
    true
}

/// The default file layout of an output section that omits it.
pub fn default_file_layout() -> (r: String)
    ensures
        r@ == "flat"@,
{
    own("flat")
}

/// Supported protocol variants.
#[derive(Debug, Clone, Copy, PartialEq, Eq, Structural)]
pub enum Protocol {
    /// REST XML protocol (used by S3).
    RestXml,
    /// AWS JSON 1.0 protocol.
    AwsJson1_0,
    /// AWS JSON 1.1 protocol.
    AwsJson1_1,
    /// AWS Query protocol.
    AwsQuery,
    /// REST JSON 1 protocol.
    RestJson1,
}

/// The protocol named by a protocol identifier, if any.
pub open spec fn protocol_named(s: Seq<char>) -> Option<Protocol> {
    if s == "restXml"@ {
        Some(Protocol::RestXml)
    } else if s == "awsJson1_0"@ {
        Some(Protocol::AwsJson1_0)
    } else if s == "awsJson1_1"@ {
        Some(Protocol::AwsJson1_1)
    } else if s == "awsQuery"@ {
        Some(Protocol::AwsQuery)
    } else if s == "restJson1"@ {
        Some(Protocol::RestJson1)
    } else {
        None
    }
}

/// The protocol identifiers name the protocols: `restXml`, `awsJson1_0`,
/// `awsJson1_1`, `awsQuery` and `restJson1`; any other text names none.
pub proof fn lemma_protocol_names()
    ensures
        protocol_named("restXml"@) == Some(Protocol::RestXml),
        protocol_named("awsJson1_0"@) == Some(Protocol::AwsJson1_0),
        protocol_named("awsJson1_1"@) == Some(Protocol::AwsJson1_1),
        protocol_named("awsQuery"@) == Some(Protocol::AwsQuery),
        protocol_named("restJson1"@) == Some(Protocol::RestJson1),
        protocol_named("restJson"@) is None,
{
    reveal_strlit("restXml");
    reveal_strlit("awsJson1_0");
    reveal_strlit("awsJson1_1");
    reveal_strlit("awsQuery");
    reveal_strlit("restJson1");
    assert("awsJson1_0"@.len() != "restXml"@.len());
    assert("awsJson1_1"@.len() != "restXml"@.len());
    assert("awsJson1_1"@[9] != "awsJson1_0"@[9]);
    assert("awsQuery"@.len() != "restXml"@.len());
    assert("awsQuery"@.len() != "awsJson1_0"@.len());
    assert("awsQuery"@.len() != "awsJson1_1"@.len());
    assert("restJson1"@.len() != "restXml"@.len());
    assert("restJson1"@.len() != "awsJson1_0"@.len());
    assert("restJson1"@.len() != "awsJson1_1"@.len());
    assert("restJson1"@.len() != "awsQuery"@.len());
    reveal_strlit("restJson");
    assert("restJson"@.len() != "restJson1"@.len());
    assert("restJson"@[0] != "awsJson1_0"@[0]);
    assert("restJson"@[0] != "awsJson1_1"@[0]);
    assert("restJson"@[0] != "awsQuery"@[0]);
    assert("restJson"@[4] != "restXml"@[4]);
}

/// Derived runtime configuration used by the codegen pipeline.
#[derive(Debug)]
pub struct ServiceConfig {
    /// Short service name.
    pub name: String,
    /// Display name for doc comments.
    pub display_name: String,
    /// Rust type prefix.
    pub rust_prefix: String,
    /// Smithy namespace.
    pub namespace: String,
    /// Protocol variant.
    pub protocol: Protocol,
    /// Serde rename strategy (None means no rename).
    pub serde_rename: Option<String>,
    /// Whether to emit HTTP binding comments.
    pub emit_http_bindings: bool,
    /// Whether to derive Serialize/Deserialize.
    pub emit_serde_derives: bool,
    /// Whether to generate request wrapper types.
    pub emit_request_wrapper: bool,
    /// Ordered list of all operations to generate.
    pub all_operations: Vec<String>,
    /// Operation name to phase number, in order of operation name.
    pub operation_phases: Vec<(String, usize)>,
    /// Operation categories for file organization (if categorized layout).
    pub categories: Option<Vec<(String, Vec<String>)>>,
    /// File layout strategy.
    pub file_layout: String,
    /// Custom error definitions.
    pub custom_errors: Vec<(String, CustomError)>,
    /// Files to preserve during regeneration.
    pub overlay_preserve: Vec<String>,
    /// Extra modules for lib.rs.
    pub overlay_extra_modules: Vec<String>,
    /// Whether to always serialize arrays.
    pub always_serialize_arrays: bool,
}

/// The text of strings.
pub open spec fn texts(v: Seq<String>) -> Seq<Seq<char>> {
    v.map_values(|s: String| s@)
}

/// The operations of the four phases, each with its phase number, in order.
pub open spec fn phase_entries(o: OperationsSection) -> Seq<(Seq<char>, usize)> {
    texts(o.phase0@).map_values(|s: Seq<char>| (s, 0usize)) + texts(o.phase1@).map_values(
        |s: Seq<char>| (s, 1usize),
    ) + texts(o.phase2@).map_values(|s: Seq<char>| (s, 2usize)) + texts(o.phase3@).map_values(
        |s: Seq<char>| (s, 3usize),
    )
}

/// A map built by inserting the entries in order (later entries win).
pub open spec fn entries_map(es: Seq<(Seq<char>, usize)>) -> Map<Seq<char>, usize>
    decreases es.len(),
{
    if es.len() == 0 {
        Map::empty()
    } else {
        entries_map(es.drop_last()).insert(es.last().0, es.last().1)
    }
}

/// `s` with the elements of `t` appended, skipping those already present.
pub open spec fn append_new(s: Seq<Seq<char>>, t: Seq<Seq<char>>) -> Seq<Seq<char>>
    decreases t.len(),
{
    if t.len() == 0 {
        s
    } else {
        let prev = append_new(s, t.drop_last());
        if prev.contains(t.last()) {
            prev
        } else {
            prev.push(t.last())
        }
    }
}

/// The operations of the categories, in category order, each once.
pub open spec fn category_operations(cats: Seq<(String, Vec<String>)>) -> Seq<Seq<char>>
    decreases cats.len(),
{
    if cats.len() == 0 {
        Seq::<Seq<char>>::empty()
    } else {
        append_new(category_operations(cats.drop_last()), texts(cats.last().1@))
    }
}

/// The ordered list of operations: the explicit list when there is one, else
/// the phases' operations in phase order, else the categories' operations.
pub open spec fn all_operations_of(o: OperationsSection) -> Seq<Seq<char>> {
    if o.all@.len() > 0 {
        texts(o.all@)
    } else {
        let phased = phase_entries(o).map_values(|e: (Seq<char>, usize)| e.0);
        if phased.len() > 0 {
            phased
        } else {
            category_operations(o.categories@)
        }
    }
}

/// The phases of the operations: empty when there is an explicit list, else
/// each phase operation with the last phase that lists it.
pub open spec fn phases_of(o: OperationsSection) -> Map<Seq<char>, usize> {
    if o.all@.len() > 0 {
        Map::empty()
    } else {
        entries_map(phase_entries(o))
    }
}

/// The pairs of a name-ordered map, as a map.
pub open spec fn pairs_map(v: Seq<(String, usize)>) -> Map<Seq<char>, usize>
    decreases v.len(),
{
    if v.len() == 0 {
        Map::empty()
    } else {
        pairs_map(v.drop_last()).insert(v.last().0@, v.last().1)
    }
}

/// The names are in strictly increasing lexicographic order.
pub open spec fn names_increasing(v: Seq<(String, usize)>) -> bool {
    forall|i: int, j: int| 0 <= i < j < v.len() ==> lex_lt((#[trigger] v[i]).0@, (#[trigger] v[j]).0@)
}

proof fn lemma_pairs_map_index(v: Seq<(String, usize)>, i: int)
    requires
        names_increasing(v),
        0 <= i < v.len(),
    ensures
        pairs_map(v).contains_key(v[i].0@),
        pairs_map(v)[v[i].0@] == v[i].1,
    decreases v.len(),
{
    if i < v.len() - 1 {
        let w = v.drop_last();
        assert forall|a: int, b: int| 0 <= a < b < w.len() implies lex_lt(
            (#[trigger] w[a]).0@,
            (#[trigger] w[b]).0@,
        ) by {
            assert(w[a] == v[a] && w[b] == v[b]);
        }
        lemma_pairs_map_index(w, i);
        assert(w[i] == v[i]);
        assert(lex_lt(v[i].0@, v[v.len() - 1].0@));
        crate::text::lemma_lex_irreflexive(v[i].0@);
    }
}

proof fn lemma_pairs_map_dom(v: Seq<(String, usize)>, k: Seq<char>)
    ensures
        pairs_map(v).contains_key(k) <==> exists|i: int| 0 <= i < v.len() && (#[trigger] v[i]).0@ == k,
    decreases v.len(),
{
    if v.len() > 0 {
        lemma_pairs_map_dom(v.drop_last(), k);
        if pairs_map(v.drop_last()).contains_key(k) {
            let i = choose|i: int| 0 <= i < v.drop_last().len() && (#[trigger] v.drop_last()[i]).0@ == k;
            assert(v[i] == v.drop_last()[i]);
        }
        if exists|i: int| 0 <= i < v.len() && (#[trigger] v[i]).0@ == k {
            let i = choose|i: int| 0 <= i < v.len() && (#[trigger] v[i]).0@ == k;
            if i < v.len() - 1 {
                assert(v.drop_last()[i] == v[i]);
            }
        }
    }
}

fn find_name_slot(v: &Vec<(String, usize)>, name: &Vec<char>) -> (i: usize)
    ensures
        i <= v@.len(),
        forall|k: int| 0 <= k < i ==> lex_lt((#[trigger] v@[k]).0@, name@),
        i < v@.len() ==> !lex_lt(v@[i as int].0@, name@),
{
    let mut i: usize = 0;
    while i < v.len()
        invariant
            i <= v.len(),
            forall|k: int| 0 <= k < i ==> lex_lt((#[trigger] v@[k]).0@, name@),
        decreases v.len() - i,
    {
        let other = str_chars(v[i].0.as_str());
        if !lex_less(&other, name) {
            return i;
        }
        i = i + 1;
    }
    i
}

/// Inserting or updating `name` in a name-ordered list of pairs.
fn insert_phase(v: &mut Vec<(String, usize)>, name: &String, phase: usize)
    requires
        names_increasing(old(v)@),
    ensures
        names_increasing(final(v)@),
        pairs_map(final(v)@) == pairs_map(old(v)@).insert(name@, phase),
{
    let ghost o = v@;
    let nc = str_chars(name.as_str());
    let i = find_name_slot(v, &nc);
    let exact = i < v.len() && str_eq(v[i].0.as_str(), name.as_str());
    if exact {
        let _old = v.remove(i);
        v.insert(i, (name.clone(), phase));
    } else {
        v.insert(i, (name.clone(), phase));
    }
    proof {
        let f = v@;
        let n = name@;
        // The new list is ordered by name.
        assert forall|a: int, b: int| 0 <= a < b < f.len() implies lex_lt(
            (#[trigger] f[a]).0@,
            (#[trigger] f[b]).0@,
        ) by {
            if exact {
                if a != i && b != i {
                    assert(f[a] == o[a] && f[b] == o[b]);
                } else if a == i {
                    assert(f[b] == o[b]);
                    assert(lex_lt(o[i as int].0@, o[b].0@));
                } else {
                    assert(f[a] == o[a]);
                    assert(lex_lt(o[a].0@, o[i as int].0@));
                }
            } else {
                if i < o.len() {
                    lemma_lex_total(n, o[i as int].0@);
                }
                if a < i && b < i {
                    assert(f[a] == o[a] && f[b] == o[b]);
                } else if a < i && b == i {
                    assert(f[a] == o[a]);
                } else if a < i {
                    assert(f[a] == o[a] && f[b] == o[b - 1]);
                    assert(lex_lt(o[a].0@, n));
                    if b - 1 > i {
                        assert(lex_lt(o[i as int].0@, o[b - 1].0@));
                        lemma_lex_transitive(n, o[i as int].0@, o[b - 1].0@);
                    }
                    lemma_lex_transitive(o[a].0@, n, o[b - 1].0@);
                } else if a == i {
                    assert(f[b] == o[b - 1]);
                    if b - 1 > i {
                        assert(lex_lt(o[i as int].0@, o[b - 1].0@));
                        lemma_lex_transitive(n, o[i as int].0@, o[b - 1].0@);
                    }
                } else {
                    assert(f[a] == o[a - 1] && f[b] == o[b - 1]);
                }
            }
        }
        // The same pairs as the old list with `name` set to `phase`.
        let ins = pairs_map(o).insert(n, phase);
        assert forall|k: Seq<char>| #[trigger] pairs_map(f).contains_key(k) == ins.contains_key(k) by {
            lemma_pairs_map_dom(f, k);
            lemma_pairs_map_dom(o, k);
            if k != n {
                if exists|q: int| 0 <= q < o.len() && (#[trigger] o[q]).0@ == k {
                    let q = choose|q: int| 0 <= q < o.len() && (#[trigger] o[q]).0@ == k;
                    let fq = if exact || q < i {
                        q
                    } else {
                        q + 1
                    };
                    assert(f[fq] == o[q]);
                }
                if exists|q: int| 0 <= q < f.len() && (#[trigger] f[q]).0@ == k {
                    let q = choose|q: int| 0 <= q < f.len() && (#[trigger] f[q]).0@ == k;
                    if exact {
                        assert(q != i);
                        assert(f[q] == o[q]);
                    } else if q < i {
                        assert(f[q] == o[q]);
                    } else {
                        assert(q != i);
                        assert(f[q] == o[q - 1]);
                    }
                }
            } else {
                assert(f[i as int].0@ == n);
            }
        }
        assert forall|k: Seq<char>| pairs_map(f).contains_key(k) implies #[trigger] pairs_map(f)[k]
            == ins[k] by {
            lemma_pairs_map_dom(f, k);
            let q = choose|q: int| 0 <= q < f.len() && (#[trigger] f[q]).0@ == k;
            lemma_pairs_map_index(f, q);
            if k == n {
                assert(f[i as int].0@ == n);
                lemma_pairs_map_index(f, i as int);
            } else {
                let oq = if exact || q < i {
                    q
                } else {
                    q - 1
                };
                if !exact && q == i {
                    assert(f[q].0@ == n);
                }
                assert(f[q] == o[oq]);
                lemma_pairs_map_index(o, oq);
            }
        }
        assert(pairs_map(f) =~= ins);
    }
}

proof fn lemma_texts_push(v: Seq<String>, x: String)
    ensures
        texts(v.push(x)) == texts(v).push(x@),
{
    assert(texts(v.push(x)) =~= texts(v).push(x@));
}

proof fn lemma_texts_take_succ(v: Seq<String>, i: int)
    requires
        0 <= i < v.len(),
    ensures
        texts(v.take(i + 1)) == texts(v.take(i)).push(v[i]@),
{
    assert(v.take(i + 1) =~= v.take(i).push(v[i]));
    lemma_texts_push(v.take(i), v[i]);
}

/// Appends copies of `ops` to `all` and records each with `phase`.
fn add_phase(
    ops: &Vec<String>,
    phase: usize,
    all: &mut Vec<String>,
    phases: &mut Vec<(String, usize)>,
    Ghost(es): Ghost<Seq<(Seq<char>, usize)>>,
)
    requires
        names_increasing(old(phases)@),
        pairs_map(old(phases)@) == entries_map(es),
    ensures
        names_increasing(final(phases)@),
        texts(final(all)@) == texts(old(all)@) + texts(ops@),
        pairs_map(final(phases)@) == entries_map(
            es + texts(ops@).map_values(|s: Seq<char>| (s, phase)),
        ),
{
    let ghost a0 = all@;
    let mut i: usize = 0;
    while i < ops.len()
        invariant
            i <= ops.len(),
            names_increasing(phases@),
            texts(all@) == texts(a0) + texts(ops@.take(i as int)),
            pairs_map(phases@) == entries_map(
                es + texts(ops@.take(i as int)).map_values(|s: Seq<char>| (s, phase)),
            ),
        decreases ops.len() - i,
    {
        let ghost before = es + texts(ops@.take(i as int)).map_values(|s: Seq<char>| (s, phase));
        let ghost after = es + texts(ops@.take(i + 1)).map_values(|s: Seq<char>| (s, phase));
        assert(after =~= before.push((ops@[i as int]@, phase)));
        assert(after.drop_last() =~= before);
        let ghost old_all = all@;
        all.push(ops[i].clone());
        insert_phase(phases, &ops[i], phase);
        proof {
            lemma_texts_push(old_all, ops@[i as int]);
            lemma_texts_take_succ(ops@, i as int);
            assert(texts(all@) =~= texts(a0) + texts(ops@.take(i + 1)));
        }
        i = i + 1;
    }
    assert(ops@.take(ops.len() as int) =~= ops@);
}

/// Whether `v` holds a string with the text of `s`.
fn contains_string(v: &Vec<String>, s: &String) -> (r: bool)
    ensures
        r == texts(v@).contains(s@),
{
    let mut i: usize = 0;
    while i < v.len()
        invariant
            i <= v.len(),
            forall|k: int| 0 <= k < i ==> (#[trigger] v@[k])@ != s@,
        decreases v.len() - i,
    {
        if str_eq(v[i].as_str(), s.as_str()) {
            assert(texts(v@)[i as int] == s@);
            return true;
        }
        i = i + 1;
    }
    assert forall|k: int| 0 <= k < texts(v@).len() implies texts(v@)[k] != s@ by {
        assert(texts(v@)[k] == v@[k]@);
    }
    false
}

/// The operations of the categories, in category order, each once.
fn collect_category_operations(cats: &Vec<(String, Vec<String>)>) -> (r: Vec<String>)
    ensures
        texts(r@) == category_operations(cats@),
{
    let mut all: Vec<String> = Vec::new();
    let mut c: usize = 0;
    assert(texts(all@) =~= category_operations(cats@.take(0)));
    while c < cats.len()
        invariant
            c <= cats.len(),
            texts(all@) == category_operations(cats@.take(c as int)),
        decreases cats.len() - c,
    {
        let ops = &cats[c].1;
        let ghost base = category_operations(cats@.take(c as int));
        let mut j: usize = 0;
        assert(append_new(base, texts(ops@).take(0)) == base) by {
            assert(texts(ops@).take(0) =~= Seq::<Seq<char>>::empty());
        }
        while j < ops.len()
            invariant
                j <= ops.len(),
                texts(all@) == append_new(base, texts(ops@).take(j as int)),
            decreases ops.len() - j,
        {
            let ghost t = texts(ops@).take(j + 1);
            assert(t.drop_last() =~= texts(ops@).take(j as int));
            assert(t.last() == ops@[j as int]@);
            if !contains_string(&all, &ops[j]) {
                all.push(ops[j].clone());
                assert(texts(all@) =~= append_new(base, texts(ops@).take(j as int)).push(ops@[j as int]@));
            }
            j = j + 1;
        }
        proof {
            assert(texts(ops@).take(ops.len() as int) =~= texts(ops@));
            assert(cats@.take(c + 1).drop_last() =~= cats@.take(c as int));
            assert(cats@.take(c + 1).last() == cats@[c as int]);
        }
        c = c + 1;
    }
    assert(cats@.take(cats.len() as int) =~= cats@);
    all
}

/// The protocol a configuration names (`restXml`, `awsJson1_0`,
/// `awsJson1_1`, `awsQuery`, `restJson1`), or `None` for an unknown name,
/// which a configuration must not have.
pub fn parse_protocol(name: &str) -> (r: Option<Protocol>)
    ensures
        r == protocol_named(name@),
{
    if str_eq(name, "restXml") {
        Some(Protocol::RestXml)
    } else if str_eq(name, "awsJson1_0") {
        Some(Protocol::AwsJson1_0)
    } else if str_eq(name, "awsJson1_1") {
        Some(Protocol::AwsJson1_1)
    } else if str_eq(name, "awsQuery") {
        Some(Protocol::AwsQuery)
    } else if str_eq(name, "restJson1") {
        Some(Protocol::RestJson1)
    } else {
        None
    }
}

impl ServiceConfig {
    /// Build a `ServiceConfig` from a parsed configuration file.  The file's
    /// protocol must be one of the supported ones.
    pub fn from_file(config: ServiceConfigFile) -> (r: Self)
        requires
            protocol_named(config.service.protocol@).is_some(),
        ensures
            r.name == config.service.name,
            r.display_name == config.service.display_name,
            r.rust_prefix == config.service.rust_prefix,
            r.namespace == config.service.namespace,
            Some(r.protocol) == protocol_named(config.service.protocol@),
            r.serde_rename.is_none() <==> (config.protocol.serde_rename@ == "none"@
                || config.protocol.serde_rename@ == Seq::<char>::empty()),
            r.serde_rename matches Some(s) ==> s == config.protocol.serde_rename,
            r.emit_http_bindings == config.protocol.emit_http_bindings,
            r.emit_serde_derives == config.protocol.emit_serde_derives,
            r.emit_request_wrapper == config.protocol.emit_request_wrapper,
            texts(r.all_operations@) == all_operations_of(config.operations),
            names_increasing(r.operation_phases@),
            pairs_map(r.operation_phases@) == phases_of(config.operations),
            r.categories == if config.operations.categories@.len() == 0 {
                None
            } else {
                Some(config.operations.categories)
            },
            r.file_layout == config.output.file_layout,
            r.custom_errors == config.errors.custom,
            r.overlay_preserve == config.overlay.preserve,
            r.overlay_extra_modules == config.overlay.extra_modules,
            r.always_serialize_arrays == config.output.always_serialize_arrays,
    {
        let protocol = match parse_protocol(config.service.protocol.as_str()) {
            Some(p) => p,
            None => Protocol::RestJson1,
        };
        let sr = config.protocol.serde_rename.as_str();
        proof {
            reveal_strlit("");
            assert(""@ =~= Seq::<char>::empty());
        }
        let serde_rename = if str_eq(sr, "none") || str_eq(sr, "") {
            None
        } else {
            Some(config.protocol.serde_rename.clone())
        };
        let ops = &config.operations;
        let mut all_operations: Vec<String> = Vec::new();
        let mut operation_phases: Vec<(String, usize)> = Vec::new();
        if ops.all.len() > 0 {
            let mut i: usize = 0;
            while i < ops.all.len()
                invariant
                    i <= ops.all.len(),
                    texts(all_operations@) == texts(ops.all@.take(i as int)),
                decreases ops.all.len() - i,
            {
                let ghost old_all = all_operations@;
                all_operations.push(ops.all[i].clone());
                proof {
                    lemma_texts_push(old_all, ops.all@[i as int]);
                    lemma_texts_take_succ(ops.all@, i as int);
                }
                i = i + 1;
            }
            assert(ops.all@.take(ops.all.len() as int) =~= ops.all@);
        } else {
            let ghost m0 = texts(ops.phase0@).map_values(|s: Seq<char>| (s, 0usize));
            let ghost m1 = texts(ops.phase1@).map_values(|s: Seq<char>| (s, 1usize));
            let ghost m2 = texts(ops.phase2@).map_values(|s: Seq<char>| (s, 2usize));
            let ghost m3 = texts(ops.phase3@).map_values(|s: Seq<char>| (s, 3usize));
            assert(pairs_map(operation_phases@) == entries_map(Seq::<(Seq<char>, usize)>::empty()));
            add_phase(&ops.phase0, 0, &mut all_operations, &mut operation_phases, Ghost(Seq::empty()));
            assert(Seq::<(Seq<char>, usize)>::empty() + m0 =~= m0);
            add_phase(&ops.phase1, 1, &mut all_operations, &mut operation_phases, Ghost(m0));
            add_phase(&ops.phase2, 2, &mut all_operations, &mut operation_phases, Ghost(m0 + m1));
            add_phase(&ops.phase3, 3, &mut all_operations, &mut operation_phases, Ghost(m0 + m1 + m2));
            proof {
                let pe = phase_entries(config.operations);
                assert(pe =~= m0 + m1 + m2 + m3);
                let names = pe.map_values(|e: (Seq<char>, usize)| e.0);
                assert(names =~= texts(ops.phase0@) + texts(ops.phase1@) + texts(ops.phase2@) + texts(
                    ops.phase3@,
                ));
                assert(texts(all_operations@) =~= Seq::<Seq<char>>::empty() + texts(ops.phase0@)
                    + texts(ops.phase1@) + texts(ops.phase2@) + texts(ops.phase3@));
            }
            if all_operations.len() == 0 {
                all_operations = collect_category_operations(&ops.categories);
            }
        }
        let categories = if config.operations.categories.len() == 0 {
            None
        } else {
            Some(config.operations.categories)
        };
        ServiceConfig {
            name: config.service.name,
            display_name: config.service.display_name,
            rust_prefix: config.service.rust_prefix,
            namespace: config.service.namespace,
            protocol,
            serde_rename,
            emit_http_bindings: config.protocol.emit_http_bindings,
            emit_serde_derives: config.protocol.emit_serde_derives,
            emit_request_wrapper: config.protocol.emit_request_wrapper,
            all_operations,
            operation_phases,
            categories,
            file_layout: config.output.file_layout,
            custom_errors: config.errors.custom,
            overlay_preserve: config.overlay.preserve,
            overlay_extra_modules: config.overlay.extra_modules,
            always_serialize_arrays: config.output.always_serialize_arrays,
        }
    }

    /// Whether this service uses serde derives.
    pub fn uses_serde(&self) -> (r: bool)
        ensures
            r == self.emit_serde_derives,
    {
        self.emit_serde_derives
    }

    /// Returns the namespace prefix with trailing `#`.
    pub fn namespace_prefix(&self) -> (r: String)
        ensures
            r@ == self.namespace@ + "#"@,
    {
        let mut out = str_chars(self.namespace.as_str());
        push_str_chars(&mut out, "#");
        string_from_chars(&out)
    }
}

} // verus!
