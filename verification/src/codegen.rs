//! Rust source generation from a resolved model: the text of the types,
//! operations, error, request and library files, and of the per-category
//! input and output modules.

use vstd::prelude::*;
use crate::codegen_shapes::{EnumVariantInfo, FieldInfo, HttpBinding, ResolvedModel};
use crate::codegen_config::texts;
use crate::fields::{find_substring, is_white, is_whitespace_char, occurs_at};
use crate::seqs::{first_index, lemma_first_index_is, lemma_first_index_props};
use crate::text::{
    decimal, lemma_lex_irreflexive, lemma_lex_total, lemma_lex_transitive, lex_less, lex_lt, push_all, push_decimal, push_str_chars, slice_chars, str_chars, str_eq,
    string_from_chars,
};

verus! {

// ---------------------------------------------------------------------------
// Text building blocks
// ---------------------------------------------------------------------------

/// A line: its characters followed by a newline.
pub open spec fn ln(s: Seq<char>) -> Seq<char> {
    s + "\n"@
}

/// The text made by `f` for each element of `s` (with its index), in order.
pub open spec fn each<A>(s: Seq<A>, f: spec_fn(int, A) -> Seq<char>) -> Seq<char>
    decreases s.len(),
{
    if s.len() == 0 {
        Seq::<char>::empty()
    } else {
        each(s.drop_last(), f) + f(s.len() - 1, s.last())
    }
}

/// The text for the first `i + 1` elements extends that for the first `i`.
pub proof fn lemma_each_step<A>(s: Seq<A>, f: spec_fn(int, A) -> Seq<char>, i: int)
    requires
        0 <= i < s.len(),
    ensures
        each(s.take(i + 1), f) == each(s.take(i), f) + f(i, s[i]),
{
    assert(s.take(i + 1).drop_last() =~= s.take(i));
}

/// The text for all elements, reached by taking them all.
pub proof fn lemma_each_all<A>(s: Seq<A>, f: spec_fn(int, A) -> Seq<char>)
    ensures
        each(s.take(s.len() as int), f) == each(s, f),
        each(s.take(0), f) == Seq::<char>::empty(),
{
    assert(s.take(s.len() as int) =~= s);
}

/// `x` when `c` holds, else nothing.
pub open spec fn when(c: bool, x: Seq<char>) -> Seq<char> {
    if c {
        x
    } else {
        Seq::<char>::empty()
    }
}

/// The characters of `s` followed by a newline.
fn line(s: &str) -> (r: Vec<char>)
    ensures
        r@ == ln(s@),
{
    let mut r = str_chars(s);
    push_str_chars(&mut r, "\n");
    r
}

/// Appends `s` and a newline.
fn push_line(out: &mut Vec<char>, s: &str)
    ensures
        final(out)@ == old(out)@ + ln(s@),
{
    let l = line(s);
    push_all(out, &l);
}

/// Appends the characters of `l` and a newline.
fn push_line_chars(out: &mut Vec<char>, l: &Vec<char>)
    ensures
        final(out)@ == old(out)@ + ln(l@),
{
    let mut t = l.clone();
    assert(t@ == l@);
    push_str_chars(&mut t, "\n");
    push_all(out, &t);
}

/// Appends a newline.
fn push_newline(out: &mut Vec<char>)
    ensures
        final(out)@ == old(out)@ + "\n"@,
{
    push_str_chars(out, "\n");
}

// ---------------------------------------------------------------------------
// Structs
// ---------------------------------------------------------------------------

/// The doc comment of a field's HTTP binding.
pub open spec fn binding_comment(b: HttpBinding) -> Seq<char> {
    match b {
        HttpBinding::Label => "    /// HTTP label (URI path)."@,
        HttpBinding::Query(q) => "    /// HTTP query: `"@ + q@ + "`."@,
        HttpBinding::Header(h) => "    /// HTTP header: `"@ + h@ + "`."@,
        HttpBinding::Payload => "    /// HTTP payload body."@,
        HttpBinding::PrefixHeaders(p) => "    /// HTTP prefix headers: `"@ + p@ + "`."@,
    }
}

/// The lines of one struct field: its binding comment (when asked for and
/// present) and its declaration.
pub open spec fn field_text(f: FieldInfo, http_comments: bool) -> Seq<char> {
    when(
        http_comments && f.http_binding is Some,
        ln(binding_comment(f.http_binding->0)),
    ) + ln("    pub "@ + f.rust_name@ + ": "@ + f.rust_type@ + ","@)
}

/// `field_text` as a function of a field's position and value.
pub open spec fn field_fn(http_comments: bool) -> spec_fn(int, FieldInfo) -> Seq<char> {
    |i: int, f: FieldInfo| field_text(f, http_comments)
}

/// The declaration of a struct with the given fields.
pub open spec fn struct_text(name: Seq<char>, fields: Seq<FieldInfo>, http_comments: bool) -> Seq<
    char,
> {
    ln("/// S3 "@ + name + "."@) + ln("#[derive(Debug, Clone, Default)]"@) + ln(
        "pub struct "@ + name + " {"@,
    ) + each(fields, field_fn(http_comments)) + ln("}"@) + "\n"@
}

fn binding_comment_line(b: &HttpBinding) -> (r: Vec<char>)
    ensures
        r@ == binding_comment(*b),
{
    match b {
        HttpBinding::Label => str_chars("    /// HTTP label (URI path)."),
        HttpBinding::Query(q) => {
            let mut t = str_chars("    /// HTTP query: `");
            push_str_chars(&mut t, q.as_str());
            push_str_chars(&mut t, "`.");
            t
        },
        HttpBinding::Header(h) => {
            let mut t = str_chars("    /// HTTP header: `");
            push_str_chars(&mut t, h.as_str());
            push_str_chars(&mut t, "`.");
            t
        },
        HttpBinding::Payload => str_chars("    /// HTTP payload body."),
        HttpBinding::PrefixHeaders(p) => {
            let mut t = str_chars("    /// HTTP prefix headers: `");
            push_str_chars(&mut t, p.as_str());
            push_str_chars(&mut t, "`.");
            t
        },
    }
}

fn field_lines(f: &FieldInfo, http_comments: bool) -> (r: Vec<char>)
    ensures
        r@ == field_text(*f, http_comments),
{
    let mut t: Vec<char> = Vec::new();
    let ghost start = t@;
    if http_comments && f.http_binding.is_some() {
        match &f.http_binding {
            Some(b) => {
                let c = binding_comment_line(b);
                push_line_chars(&mut t, &c);
            },
            None => {},
        }
    }
    assert(t@ == start + when(http_comments && f.http_binding is Some, ln(binding_comment(f.http_binding->0))));
    let mut d = str_chars("    pub ");
    push_str_chars(&mut d, f.rust_name.as_str());
    push_str_chars(&mut d, ": ");
    push_str_chars(&mut d, f.rust_type.as_str());
    push_str_chars(&mut d, ",");
    push_line_chars(&mut t, &d);
    assert(start + when(http_comments && f.http_binding is Some, ln(binding_comment(f.http_binding->0)))
        =~= when(http_comments && f.http_binding is Some, ln(binding_comment(f.http_binding->0))));
    t
}

/// The text of the fields, one after the other.
fn fields_lines(fields: &Vec<FieldInfo>, http_comments: bool) -> (r: Vec<char>)
    ensures
        r@ == each(fields@, field_fn(http_comments)),
{
    let ghost f = field_fn(http_comments);
    let mut b: Vec<char> = Vec::new();
    proof {
        lemma_each_all(fields@, f);
    }
    let mut i: usize = 0;
    while i < fields.len()
        invariant
            i <= fields.len(),
            f == field_fn(http_comments),
            b@ == each(fields@.take(i as int), f),
        decreases fields.len() - i,
    {
        let item = field_lines(&fields[i], http_comments);
        push_all(&mut b, &item);
        proof {
            lemma_each_step(fields@, f, i as int);
        }
        i = i + 1;
    }
    proof {
        lemma_each_all(fields@, f);
    }
    b
}

/// Appends the declaration of a struct with all its fields, each with its
/// HTTP binding comment when `include_http_comments` is set.
pub fn write_struct(
    out: &mut Vec<char>,
    name: &str,
    fields: &Vec<FieldInfo>,
    include_http_comments: bool,
)
    ensures
        final(out)@ == old(out)@ + struct_text(name@, fields@, include_http_comments),
{
    let mut l = str_chars("/// S3 ");
    push_str_chars(&mut l, name);
    push_str_chars(&mut l, ".");
    let mut t = Vec::new();
    push_line_chars(&mut t, &l);
    assert(t@ =~= ln("/// S3 "@ + name@ + "."@));
    push_line(&mut t, "#[derive(Debug, Clone, Default)]");
    let mut l = str_chars("pub struct ");
    push_str_chars(&mut l, name);
    push_str_chars(&mut l, " {");
    push_line_chars(&mut t, &l);
    let b = fields_lines(fields, include_http_comments);
    push_all(&mut t, &b);
    push_line(&mut t, "}");
    push_newline(&mut t);
    push_all(out, &t);
}

// ---------------------------------------------------------------------------
// Enums
// ---------------------------------------------------------------------------

/// The declaration of one enum variant: the first is the default, and a
/// variant whose name differs from its string value is renamed for serde.
pub open spec fn variant_decl(i: int, v: EnumVariantInfo) -> Seq<char> {
    when(i == 0, ln("    /// Default variant."@) + ln("    #[default]"@)) + when(
        v.rust_name@ != v.string_value@,
        ln("    #[serde(rename = \""@ + v.string_value@ + "\")]"@),
    ) + ln("    "@ + v.rust_name@ + ","@)
}

/// `variant_decl` as a function.
pub open spec fn variant_decl_fn() -> spec_fn(int, EnumVariantInfo) -> Seq<char> {
    |i: int, v: EnumVariantInfo| variant_decl(i, v)
}

/// The `as_str` match arm of a variant.
pub open spec fn as_str_arm(v: EnumVariantInfo) -> Seq<char> {
    ln("            Self::"@ + v.rust_name@ + " => \""@ + v.string_value@ + "\","@)
}

/// `as_str_arm` as a function.
pub open spec fn as_str_arm_fn() -> spec_fn(int, EnumVariantInfo) -> Seq<char> {
    |i: int, v: EnumVariantInfo| as_str_arm(v)
}

/// The `From<&str>` match arm of a variant.
pub open spec fn from_arm(v: EnumVariantInfo) -> Seq<char> {
    ln("            \""@ + v.string_value@ + "\" => Self::"@ + v.rust_name@ + ","@)
}

/// `from_arm` as a function.
pub open spec fn from_arm_fn() -> spec_fn(int, EnumVariantInfo) -> Seq<char> {
    |i: int, v: EnumVariantInfo| from_arm(v)
}

/// The declaration of an enum with its `as_str`, `Display` and `From<&str>`
/// implementations.
pub open spec fn enum_text(name: Seq<char>, vs: Seq<EnumVariantInfo>) -> Seq<char> {
    ln("/// S3 "@ + name + " enum."@)
        + ln("#[derive(Debug, Clone, PartialEq, Eq, Hash, Default, Serialize, Deserialize)]"@)
        + ln("pub enum "@ + name + " {"@) + each(vs, variant_decl_fn()) + ln("}"@) + "\n"@
        + ln("impl "@ + name + " {"@)
        + ln("    /// Returns the string value of this enum variant."@)
        + ln("    #[must_use]"@)
        + ln("    pub fn as_str(&self) -> &'static str {"@)
        + ln("        match self {"@) + each(vs, as_str_arm_fn()) + ln("        }"@)
        + ln("    }"@) + ln("}"@) + "\n"@
        + ln("impl std::fmt::Display for "@ + name + " {"@)
        + ln("    fn fmt(&self, f: &mut std::fmt::Formatter<'_>) -> std::fmt::Result {"@)
        + ln("        f.write_str(self.as_str())"@) + ln("    }"@) + ln("}"@) + "\n"@
        + ln("impl From<&str> for "@ + name + " {"@)
        + ln("    fn from(s: &str) -> Self {"@) + ln("        match s {"@)
        + each(vs, from_arm_fn()) + ln("            _ => Self::default(),"@)
        + ln("        }"@) + ln("    }"@) + ln("}"@) + "\n"@
}

fn variant_decl_lines(i: usize, v: &EnumVariantInfo) -> (r: Vec<char>)
    ensures
        r@ == variant_decl(i as int, *v),
{
    let mut a: Vec<char> = Vec::new();
    if i == 0 {
        push_line(&mut a, "    /// Default variant.");
        push_line(&mut a, "    #[default]");
    }
    assert(a@ =~= when(i == 0, ln("    /// Default variant."@) + ln("    #[default]"@)));
    let mut b: Vec<char> = Vec::new();
    if !str_eq(v.rust_name.as_str(), v.string_value.as_str()) {
        let mut l = str_chars("    #[serde(rename = \"");
        push_str_chars(&mut l, v.string_value.as_str());
        push_str_chars(&mut l, "\")]");
        push_line_chars(&mut b, &l);
    }
    assert(b@ =~= when(
        v.rust_name@ != v.string_value@,
        ln("    #[serde(rename = \""@ + v.string_value@ + "\")]"@),
    ));
    push_all(&mut a, &b);
    let mut l = str_chars("    ");
    push_str_chars(&mut l, v.rust_name.as_str());
    push_str_chars(&mut l, ",");
    push_line_chars(&mut a, &l);
    a
}

fn as_str_arm_line(v: &EnumVariantInfo) -> (r: Vec<char>)
    ensures
        r@ == as_str_arm(*v),
{
    let mut l = str_chars("            Self::");
    push_str_chars(&mut l, v.rust_name.as_str());
    push_str_chars(&mut l, " => \"");
    push_str_chars(&mut l, v.string_value.as_str());
    push_str_chars(&mut l, "\",");
    let mut t = Vec::new();
    push_line_chars(&mut t, &l);
    assert(t@ =~= as_str_arm(*v));
    t
}

fn from_arm_line(v: &EnumVariantInfo) -> (r: Vec<char>)
    ensures
        r@ == from_arm(*v),
{
    let mut l = str_chars("            \"");
    push_str_chars(&mut l, v.string_value.as_str());
    push_str_chars(&mut l, "\" => Self::");
    push_str_chars(&mut l, v.rust_name.as_str());
    push_str_chars(&mut l, ",");
    let mut t = Vec::new();
    push_line_chars(&mut t, &l);
    assert(t@ =~= from_arm(*v));
    t
}

/// The text that `f` gives each variant, one after the other; `which`
/// selects the declaration (0), the `as_str` arm (1) or the `From` arm (2).
fn variants_lines(vs: &Vec<EnumVariantInfo>, which: u8) -> (r: Vec<char>)
    requires
        which <= 2,
    ensures
        r@ == each(
            vs@,
            if which == 0 {
                variant_decl_fn()
            } else if which == 1 {
                as_str_arm_fn()
            } else {
                from_arm_fn()
            },
        ),
{
    let ghost f = if which == 0 {
        variant_decl_fn()
    } else if which == 1 {
        as_str_arm_fn()
    } else {
        from_arm_fn()
    };
    let mut b: Vec<char> = Vec::new();
    proof {
        lemma_each_all(vs@, f);
    }
    let mut i: usize = 0;
    while i < vs.len()
        invariant
            i <= vs.len(),
            which <= 2,
            f == (if which == 0 {
                variant_decl_fn()
            } else if which == 1 {
                as_str_arm_fn()
            } else {
                from_arm_fn()
            }),
            b@ == each(vs@.take(i as int), f),
        decreases vs.len() - i,
    {
        let item = if which == 0 {
            variant_decl_lines(i, &vs[i])
        } else if which == 1 {
            as_str_arm_line(&vs[i])
        } else {
            from_arm_line(&vs[i])
        };
        assert(item@ == f(i as int, vs@[i as int]));
        push_all(&mut b, &item);
        proof {
            lemma_each_step(vs@, f, i as int);
        }
        i = i + 1;
    }
    proof {
        lemma_each_all(vs@, f);
    }
    b
}

/// Appends the declaration of an enum with its `as_str`, `Display` and
/// `From<&str>` implementations.
pub fn write_enum(out: &mut Vec<char>, name: &str, variants: &Vec<EnumVariantInfo>)
    ensures
        final(out)@ == old(out)@ + enum_text(name@, variants@),
{
    let mut l = str_chars("/// S3 ");
    push_str_chars(&mut l, name);
    push_str_chars(&mut l, " enum.");
    let mut t = Vec::new();
    push_line_chars(&mut t, &l);
    assert(t@ =~= ln("/// S3 "@ + name@ + " enum."@));
    push_line(&mut t, "#[derive(Debug, Clone, PartialEq, Eq, Hash, Default, Serialize, Deserialize)]");
    let mut l = str_chars("pub enum ");
    push_str_chars(&mut l, name);
    push_str_chars(&mut l, " {");
    push_line_chars(&mut t, &l);
    let b = variants_lines(variants, 0);
    push_all(&mut t, &b);
    push_line(&mut t, "}");
    push_newline(&mut t);
    let mut l = str_chars("impl ");
    push_str_chars(&mut l, name);
    push_str_chars(&mut l, " {");
    push_line_chars(&mut t, &l);
    push_line(&mut t, "    /// Returns the string value of this enum variant.");
    push_line(&mut t, "    #[must_use]");
    push_line(&mut t, "    pub fn as_str(&self) -> &'static str {");
    push_line(&mut t, "        match self {");
    let b = variants_lines(variants, 1);
    push_all(&mut t, &b);
    push_line(&mut t, "        }");
    push_line(&mut t, "    }");
    push_line(&mut t, "}");
    push_newline(&mut t);
    let mut l = str_chars("impl std::fmt::Display for ");
    push_str_chars(&mut l, name);
    push_str_chars(&mut l, " {");
    push_line_chars(&mut t, &l);
    push_line(&mut t, "    fn fmt(&self, f: &mut std::fmt::Formatter<'_>) -> std::fmt::Result {");
    push_line(&mut t, "        f.write_str(self.as_str())");
    push_line(&mut t, "    }");
    push_line(&mut t, "}");
    push_newline(&mut t);
    let mut l = str_chars("impl From<&str> for ");
    push_str_chars(&mut l, name);
    push_str_chars(&mut l, " {");
    push_line_chars(&mut t, &l);
    push_line(&mut t, "    fn from(s: &str) -> Self {");
    push_line(&mut t, "        match s {");
    let b = variants_lines(variants, 2);
    push_all(&mut t, &b);
    push_line(&mut t, "            _ => Self::default(),");
    push_line(&mut t, "        }");
    push_line(&mut t, "    }");
    push_line(&mut t, "}");
    push_newline(&mut t);
    push_all(out, &t);
}

// ---------------------------------------------------------------------------
// The types file
// ---------------------------------------------------------------------------

/// The first line of every generated file.
pub const FILE_HEADER: &'static str = "//! Auto-generated from AWS S3 Smithy model. DO NOT EDIT.";

/// Whether `pat` occurs in `s`.
pub open spec fn has_sub(s: Seq<char>, pat: Seq<char>) -> bool {
    exists|k: int| occurs_at(s, pat, k)
}

/// Whether the type of one of the fields mentions `pat`.
pub open spec fn fields_mention(fields: Seq<FieldInfo>, pat: Seq<char>) -> bool {
    exists|j: int| 0 <= j < fields.len() && has_sub((#[trigger] fields[j]).rust_type@, pat)
}

/// Whether a field type of one of the structs mentions `pat`.
pub open spec fn structs_mention(structs: Seq<(String, Vec<FieldInfo>)>, pat: Seq<char>) -> bool {
    exists|i: int| 0 <= i < structs.len() && fields_mention((#[trigger] structs[i]).1@, pat)
}

fn fields_mention_exec(fields: &Vec<FieldInfo>, pat: &Vec<char>) -> (r: bool)
    ensures
        r == fields_mention(fields@, pat@),
{
    let mut j: usize = 0;
    while j < fields.len()
        invariant
            j <= fields.len(),
            forall|q: int| 0 <= q < j ==> !has_sub((#[trigger] fields@[q]).rust_type@, pat@),
        decreases fields.len() - j,
    {
        let ty = str_chars(fields[j].rust_type.as_str());
        match find_substring(&ty, pat) {
            Some(k) => {
                assert(has_sub(fields@[j as int].rust_type@, pat@));
                return true;
            },
            None => {},
        }
        j = j + 1;
    }
    false
}

/// Whether a field type of one of the structs mentions `pat`.
fn structs_mention_exec(structs: &Vec<(String, Vec<FieldInfo>)>, pat: &str) -> (r: bool)
    ensures
        r == structs_mention(structs@, pat@),
{
    let p = str_chars(pat);
    let mut i: usize = 0;
    while i < structs.len()
        invariant
            i <= structs.len(),
            p@ == pat@,
            forall|q: int| 0 <= q < i ==> !fields_mention((#[trigger] structs@[q]).1@, pat@),
        decreases structs.len() - i,
    {
        if fields_mention_exec(&structs[i].1, &p) {
            assert(fields_mention(structs@[i as int].1@, pat@));
            return true;
        }
        i = i + 1;
    }
    false
}

/// An enum of the model as text.
pub open spec fn enum_item_fn() -> spec_fn(int, (String, Vec<EnumVariantInfo>)) -> Seq<char> {
    |i: int, e: (String, Vec<EnumVariantInfo>)| enum_text(e.0@, e.1@)
}

/// A struct of the model as text, with or without HTTP binding comments.
pub open spec fn struct_item_fn(http_comments: bool) -> spec_fn(int, (String, Vec<FieldInfo>)) -> Seq<
    char,
> {
    |i: int, e: (String, Vec<FieldInfo>)| struct_text(e.0@, e.1@, http_comments)
}

/// The text of `types.rs`: the imports its structs need, then every enum
/// and every shared struct.
#[verifier::opaque]
pub open spec fn types_text(m: ResolvedModel) -> Seq<char> {
    ln(FILE_HEADER@) + "\n"@ + when(
        structs_mention(m.shared_structs@, "HashMap"@),
        ln("use std::collections::HashMap;"@) + "\n"@,
    ) + ln("use serde::{Deserialize, Serialize};"@) + "\n"@ + when(
        structs_mention(m.shared_structs@, "StreamingBlob"@),
        ln("use crate::request::StreamingBlob;"@) + "\n"@,
    ) + each(m.enums@, enum_item_fn()) + each(m.shared_structs@, struct_item_fn(false))
}

fn enums_text(enums: &Vec<(String, Vec<EnumVariantInfo>)>) -> (r: Vec<char>)
    ensures
        r@ == each(enums@, enum_item_fn()),
{
    let ghost f = enum_item_fn();
    let mut b: Vec<char> = Vec::new();
    proof {
        lemma_each_all(enums@, f);
    }
    let mut i: usize = 0;
    while i < enums.len()
        invariant
            i <= enums.len(),
            f == enum_item_fn(),
            b@ == each(enums@.take(i as int), f),
        decreases enums.len() - i,
    {
        write_enum(&mut b, enums[i].0.as_str(), &enums[i].1);
        proof {
            lemma_each_step(enums@, f, i as int);
        }
        i = i + 1;
    }
    proof {
        lemma_each_all(enums@, f);
    }
    b
}

fn structs_text(structs: &Vec<(String, Vec<FieldInfo>)>, http_comments: bool) -> (r: Vec<char>)
    ensures
        r@ == each(structs@, struct_item_fn(http_comments)),
{
    let ghost f = struct_item_fn(http_comments);
    let mut b: Vec<char> = Vec::new();
    proof {
        lemma_each_all(structs@, f);
    }
    let mut i: usize = 0;
    while i < structs.len()
        invariant
            i <= structs.len(),
            f == struct_item_fn(http_comments),
            b@ == each(structs@.take(i as int), f),
        decreases structs.len() - i,
    {
        write_struct(&mut b, structs[i].0.as_str(), &structs[i].1, http_comments);
        proof {
            lemma_each_step(structs@, f, i as int);
        }
        i = i + 1;
    }
    proof {
        lemma_each_all(structs@, f);
    }
    b
}

/// The imports of a file: the given lines, each followed by a blank line,
/// when `c` holds.
fn optional_import(c: bool, l: &str) -> (r: Vec<char>)
    ensures
        r@ == when(c, ln(l@) + "\n"@),
{
    let mut t: Vec<char> = Vec::new();
    if c {
        push_line(&mut t, l);
        push_newline(&mut t);
        assert(t@ =~= ln(l@) + "\n"@);
    }
    assert(t@ =~= when(c, ln(l@) + "\n"@));
    t
}

/// Generate `types.rs` with all shared enums and structs.
pub fn generate_types(resolved: &ResolvedModel) -> (r: String)
    ensures
        r@ == types_text(*resolved),
{
    proof {
        reveal(types_text);
    }
    let mut t = line(FILE_HEADER);
    push_newline(&mut t);
    let needs_hashmap = structs_mention_exec(&resolved.shared_structs, "HashMap");
    let imp = optional_import(needs_hashmap, "use std::collections::HashMap;");
    push_all(&mut t, &imp);
    push_line(&mut t, "use serde::{Deserialize, Serialize};");
    push_newline(&mut t);
    let needs_blob = structs_mention_exec(&resolved.shared_structs, "StreamingBlob");
    let imp = optional_import(needs_blob, "use crate::request::StreamingBlob;");
    push_all(&mut t, &imp);
    let b = enums_text(&resolved.enums);
    push_all(&mut t, &b);
    let b = structs_text(&resolved.shared_structs, false);
    push_all(&mut t, &b);
    string_from_chars(&t)
}

// ---------------------------------------------------------------------------
// The operations file
// ---------------------------------------------------------------------------

/// The operations the generated code supports, in declaration order.
pub open spec fn target_operations() -> Seq<&'static str> {
    seq![
        "CreateBucket",
        "DeleteBucket",
        "HeadBucket",
        "ListBuckets",
        "GetBucketLocation",
        "GetBucketVersioning",
        "PutBucketVersioning",
        "GetBucketEncryption",
        "PutBucketEncryption",
        "DeleteBucketEncryption",
        "GetBucketCors",
        "PutBucketCors",
        "DeleteBucketCors",
        "GetBucketLifecycleConfiguration",
        "PutBucketLifecycleConfiguration",
        "DeleteBucketLifecycle",
        "GetBucketPolicy",
        "PutBucketPolicy",
        "DeleteBucketPolicy",
        "GetBucketTagging",
        "PutBucketTagging",
        "DeleteBucketTagging",
        "GetBucketNotificationConfiguration",
        "PutBucketNotificationConfiguration",
        "GetBucketLogging",
        "PutBucketLogging",
        "GetPublicAccessBlock",
        "PutPublicAccessBlock",
        "DeletePublicAccessBlock",
        "GetBucketOwnershipControls",
        "PutBucketOwnershipControls",
        "DeleteBucketOwnershipControls",
        "GetObjectLockConfiguration",
        "PutObjectLockConfiguration",
        "GetBucketAccelerateConfiguration",
        "PutBucketAccelerateConfiguration",
        "GetBucketRequestPayment",
        "PutBucketRequestPayment",
        "GetBucketWebsite",
        "PutBucketWebsite",
        "DeleteBucketWebsite",
        "GetBucketAcl",
        "PutBucketAcl",
        "GetBucketPolicyStatus",
        "PutObject",
        "GetObject",
        "HeadObject",
        "DeleteObject",
        "DeleteObjects",
        "CopyObject",
        "GetObjectTagging",
        "PutObjectTagging",
        "DeleteObjectTagging",
        "GetObjectAcl",
        "PutObjectAcl",
        "GetObjectRetention",
        "PutObjectRetention",
        "GetObjectLegalHold",
        "PutObjectLegalHold",
        "GetObjectAttributes",
        "CreateMultipartUpload",
        "UploadPart",
        "UploadPartCopy",
        "CompleteMultipartUpload",
        "AbortMultipartUpload",
        "ListParts",
        "ListMultipartUploads",
        "ListObjects",
        "ListObjectsV2",
        "ListObjectVersions",
    ]
}

/// The operations the generated code supports.
pub fn target_operation_list() -> (r: [&'static str; 70])
    ensures
        r@ == target_operations(),
{
    [
        "CreateBucket",
        "DeleteBucket",
        "HeadBucket",
        "ListBuckets",
        "GetBucketLocation",
        "GetBucketVersioning",
        "PutBucketVersioning",
        "GetBucketEncryption",
        "PutBucketEncryption",
        "DeleteBucketEncryption",
        "GetBucketCors",
        "PutBucketCors",
        "DeleteBucketCors",
        "GetBucketLifecycleConfiguration",
        "PutBucketLifecycleConfiguration",
        "DeleteBucketLifecycle",
        "GetBucketPolicy",
        "PutBucketPolicy",
        "DeleteBucketPolicy",
        "GetBucketTagging",
        "PutBucketTagging",
        "DeleteBucketTagging",
        "GetBucketNotificationConfiguration",
        "PutBucketNotificationConfiguration",
        "GetBucketLogging",
        "PutBucketLogging",
        "GetPublicAccessBlock",
        "PutPublicAccessBlock",
        "DeletePublicAccessBlock",
        "GetBucketOwnershipControls",
        "PutBucketOwnershipControls",
        "DeleteBucketOwnershipControls",
        "GetObjectLockConfiguration",
        "PutObjectLockConfiguration",
        "GetBucketAccelerateConfiguration",
        "PutBucketAccelerateConfiguration",
        "GetBucketRequestPayment",
        "PutBucketRequestPayment",
        "GetBucketWebsite",
        "PutBucketWebsite",
        "DeleteBucketWebsite",
        "GetBucketAcl",
        "PutBucketAcl",
        "GetBucketPolicyStatus",
        "PutObject",
        "GetObject",
        "HeadObject",
        "DeleteObject",
        "DeleteObjects",
        "CopyObject",
        "GetObjectTagging",
        "PutObjectTagging",
        "DeleteObjectTagging",
        "GetObjectAcl",
        "PutObjectAcl",
        "GetObjectRetention",
        "PutObjectRetention",
        "GetObjectLegalHold",
        "PutObjectLegalHold",
        "GetObjectAttributes",
        "CreateMultipartUpload",
        "UploadPart",
        "UploadPartCopy",
        "CompleteMultipartUpload",
        "AbortMultipartUpload",
        "ListParts",
        "ListMultipartUploads",
        "ListObjects",
        "ListObjectsV2",
        "ListObjectVersions",
    ]
}

/// The declaration of an operation variant.
pub open spec fn op_variant(op: &'static str) -> Seq<char> {
    ln("    /// The "@ + op@ + " operation."@) + ln("    "@ + op@ + ","@)
}

/// The `as_str` arm of an operation.
pub open spec fn op_as_str_arm(op: &'static str) -> Seq<char> {
    ln("            Self::"@ + op@ + " => \""@ + op@ + "\","@)
}

/// The `from_name` arm of an operation.
pub open spec fn op_from_name_arm(op: &'static str) -> Seq<char> {
    ln("            \""@ + op@ + "\" => Some(Self::"@ + op@ + "),"@)
}

/// The text of one operation in the declaration (0), the `as_str` match (1)
/// or the `from_name` match (2).
pub open spec fn op_fn(which: u8) -> spec_fn(int, &'static str) -> Seq<char> {
    |i: int, op: &'static str|
        if which == 0 {
            op_variant(op)
        } else if which == 1 {
            op_as_str_arm(op)
        } else {
            op_from_name_arm(op)
        }
}

/// The text of `operations.rs`: the operation enum with its `as_str`,
/// `from_name` and `Display`.
#[verifier::opaque]
pub open spec fn operations_text() -> Seq<char> {
    let ops = target_operations();
    ln(FILE_HEADER@) + "\n"@ + ln("/// All supported S3 operations."@)
        + ln("#[derive(Debug, Clone, Copy, PartialEq, Eq, Hash)]"@)
        + ln("pub enum S3Operation {"@) + each(ops, op_fn(0)) + ln("}"@) + "\n"@
        + ln("impl S3Operation {"@) + ln("    /// Returns the AWS operation name string."@)
        + ln("    #[must_use]"@) + ln("    pub fn as_str(&self) -> &'static str {"@)
        + ln("        match self {"@) + each(ops, op_fn(1)) + ln("        }"@) + ln("    }"@)
        + "\n"@ + ln("    /// Parse an operation name string into an S3Operation."@)
        + ln("    #[must_use]"@) + ln("    pub fn from_name(name: &str) -> Option<Self> {"@)
        + ln("        match name {"@) + each(ops, op_fn(2)) + ln("            _ => None,"@)
        + ln("        }"@) + ln("    }"@) + ln("}"@) + "\n"@
        + ln("impl std::fmt::Display for S3Operation {"@)
        + ln("    fn fmt(&self, f: &mut std::fmt::Formatter<'_>) -> std::fmt::Result {"@)
        + ln("        f.write_str(self.as_str())"@) + ln("    }"@) + ln("}"@)
}

fn op_lines(op: &'static str, which: u8) -> (r: Vec<char>)
    ensures
        r@ == op_fn(which)(0, op),
{
    let mut t: Vec<char> = Vec::new();
    if which == 0 {
        let mut l = str_chars("    /// The ");
        push_str_chars(&mut l, op);
        push_str_chars(&mut l, " operation.");
        push_line_chars(&mut t, &l);
        let mut l = str_chars("    ");
        push_str_chars(&mut l, op);
        push_str_chars(&mut l, ",");
        push_line_chars(&mut t, &l);
        assert(t@ =~= op_variant(op));
    } else if which == 1 {
        let mut l = str_chars("            Self::");
        push_str_chars(&mut l, op);
        push_str_chars(&mut l, " => \"");
        push_str_chars(&mut l, op);
        push_str_chars(&mut l, "\",");
        push_line_chars(&mut t, &l);
        assert(t@ =~= op_as_str_arm(op));
    } else {
        let mut l = str_chars("            \"");
        push_str_chars(&mut l, op);
        push_str_chars(&mut l, "\" => Some(Self::");
        push_str_chars(&mut l, op);
        push_str_chars(&mut l, "),");
        push_line_chars(&mut t, &l);
        assert(t@ =~= op_from_name_arm(op));
    }
    t
}

fn ops_lines(ops: &[&'static str], which: u8) -> (r: Vec<char>)
    ensures
        r@ == each(ops@, op_fn(which)),
{
    let ghost f = op_fn(which);
    let mut b: Vec<char> = Vec::new();
    proof {
        lemma_each_all(ops@, f);
    }
    let mut i: usize = 0;
    while i < ops.len()
        invariant
            i <= ops.len(),
            f == op_fn(which),
            b@ == each(ops@.take(i as int), f),
        decreases ops.len() - i,
    {
        let item = op_lines(ops[i], which);
        push_all(&mut b, &item);
        proof {
            lemma_each_step(ops@, f, i as int);
        }
        i = i + 1;
    }
    proof {
        lemma_each_all(ops@, f);
    }
    b
}

/// Generate `operations.rs` with the operation enum.
pub fn generate_operations() -> (r: String)
    ensures
        r@ == operations_text(),
{
    proof {
        reveal(operations_text);
    }
    let ops = target_operation_list();
    let mut t = line(FILE_HEADER);
    push_newline(&mut t);
    push_line(&mut t, "/// All supported S3 operations.");
    push_line(&mut t, "#[derive(Debug, Clone, Copy, PartialEq, Eq, Hash)]");
    push_line(&mut t, "pub enum S3Operation {");
    let b = ops_lines(&ops, 0);
    push_all(&mut t, &b);
    push_line(&mut t, "}");
    push_newline(&mut t);
    push_line(&mut t, "impl S3Operation {");
    push_line(&mut t, "    /// Returns the AWS operation name string.");
    push_line(&mut t, "    #[must_use]");
    push_line(&mut t, "    pub fn as_str(&self) -> &'static str {");
    push_line(&mut t, "        match self {");
    let b = ops_lines(&ops, 1);
    push_all(&mut t, &b);
    push_line(&mut t, "        }");
    push_line(&mut t, "    }");
    push_newline(&mut t);
    push_line(&mut t, "    /// Parse an operation name string into an S3Operation.");
    push_line(&mut t, "    #[must_use]");
    push_line(&mut t, "    pub fn from_name(name: &str) -> Option<Self> {");
    push_line(&mut t, "        match name {");
    let b = ops_lines(&ops, 2);
    push_all(&mut t, &b);
    push_line(&mut t, "            _ => None,");
    push_line(&mut t, "        }");
    push_line(&mut t, "    }");
    push_line(&mut t, "}");
    push_newline(&mut t);
    push_line(&mut t, "impl std::fmt::Display for S3Operation {");
    push_line(&mut t, "    fn fmt(&self, f: &mut std::fmt::Formatter<'_>) -> std::fmt::Result {");
    push_line(&mut t, "        f.write_str(self.as_str())");
    push_line(&mut t, "    }");
    push_line(&mut t, "}");
    string_from_chars(&t)
}

// ---------------------------------------------------------------------------
// The error file
// ---------------------------------------------------------------------------

/// The well-known error codes with their default messages and HTTP
/// statuses, in declaration order.
pub open spec fn error_codes() -> Seq<(&'static str, &'static str, u16)> {
    seq![
        ("AccessDenied", "Access Denied", 403u16),
        ("AccountProblem", "There is a problem with the account", 403u16),
        ("BucketAlreadyExists", "The requested bucket name is not available", 409u16),
        ("BucketAlreadyOwnedByYou", "The bucket is already owned by you", 409u16),
        ("BucketNotEmpty", "The bucket you tried to delete is not empty", 409u16),
        ("EntityTooLarge", "Your proposed upload exceeds the maximum allowed size", 400u16),
        ("EntityTooSmall", "Your proposed upload is smaller than the minimum allowed size", 400u16),
        ("InternalError", "Internal server error", 500u16),
        ("InvalidArgument", "Invalid Argument", 400u16),
        ("InvalidBucketName", "The specified bucket is not valid", 400u16),
        ("InvalidBucketState", "The request is not valid with the current state of the bucket", 409u16),
        ("InvalidDigest", "The Content-MD5 you specified is not valid", 400u16),
        ("InvalidLocationConstraint", "The specified location constraint is not valid", 400u16),
        ("InvalidObjectState", "The operation is not valid for the current state of the object", 403u16),
        ("InvalidPart", "One or more of the specified parts could not be found", 400u16),
        ("InvalidPartOrder", "The list of parts was not in ascending order", 400u16),
        ("InvalidRange", "The requested range cannot be satisfied", 416u16),
        ("InvalidRequest", "Invalid Request", 400u16),
        ("InvalidStorageClass", "The storage class you specified is not valid", 400u16),
        ("KeyTooLongError", "Your key is too long", 400u16),
        ("MalformedXML", "The XML you provided was not well-formed", 400u16),
        ("MetadataTooLarge", "Your metadata headers exceed the maximum allowed metadata size", 400u16),
        ("MethodNotAllowed", "The specified method is not allowed against this resource", 405u16),
        ("MissingContentLength", "You must provide the Content-Length HTTP header", 411u16),
        ("NoSuchBucket", "The specified bucket does not exist", 404u16),
        ("NoSuchBucketPolicy", "The specified bucket does not have a bucket policy", 404u16),
        ("NoSuchCORSConfiguration", "The CORS configuration does not exist", 404u16),
        ("NoSuchKey", "The specified key does not exist", 404u16),
        ("NoSuchLifecycleConfiguration", "The lifecycle configuration does not exist", 404u16),
        ("NoSuchUpload", "The specified multipart upload does not exist", 404u16),
        ("NoSuchVersion", "The specified version does not exist", 404u16),
        ("NoSuchTagSet", "The TagSet does not exist", 404u16),
        ("NoSuchWebsiteConfiguration", "The website configuration does not exist", 404u16),
        ("NotImplemented", "The functionality is not implemented", 501u16),
        ("ObjectNotInActiveTierError", "The source object of the COPY operation is not in the active tier", 403u16),
        ("PreconditionFailed", "At least one of the preconditions you specified did not hold", 412u16),
        ("SignatureDoesNotMatch", "The request signature does not match", 403u16),
        ("TooManyBuckets", "You have attempted to create more buckets than allowed", 400u16),
        ("XAmzContentSHA256Mismatch", "The provided x-amz-content-sha256 header does not match", 400u16),
    ]
}

/// The well-known error codes with their default messages and statuses.
pub fn error_code_list() -> (r: [(&'static str, &'static str, u16); 39])
    ensures
        r@ == error_codes(),
{
    [
        ("AccessDenied", "Access Denied", 403u16),
        ("AccountProblem", "There is a problem with the account", 403u16),
        ("BucketAlreadyExists", "The requested bucket name is not available", 409u16),
        ("BucketAlreadyOwnedByYou", "The bucket is already owned by you", 409u16),
        ("BucketNotEmpty", "The bucket you tried to delete is not empty", 409u16),
        ("EntityTooLarge", "Your proposed upload exceeds the maximum allowed size", 400u16),
        ("EntityTooSmall", "Your proposed upload is smaller than the minimum allowed size", 400u16),
        ("InternalError", "Internal server error", 500u16),
        ("InvalidArgument", "Invalid Argument", 400u16),
        ("InvalidBucketName", "The specified bucket is not valid", 400u16),
        ("InvalidBucketState", "The request is not valid with the current state of the bucket", 409u16),
        ("InvalidDigest", "The Content-MD5 you specified is not valid", 400u16),
        ("InvalidLocationConstraint", "The specified location constraint is not valid", 400u16),
        ("InvalidObjectState", "The operation is not valid for the current state of the object", 403u16),
        ("InvalidPart", "One or more of the specified parts could not be found", 400u16),
        ("InvalidPartOrder", "The list of parts was not in ascending order", 400u16),
        ("InvalidRange", "The requested range cannot be satisfied", 416u16),
        ("InvalidRequest", "Invalid Request", 400u16),
        ("InvalidStorageClass", "The storage class you specified is not valid", 400u16),
        ("KeyTooLongError", "Your key is too long", 400u16),
        ("MalformedXML", "The XML you provided was not well-formed", 400u16),
        ("MetadataTooLarge", "Your metadata headers exceed the maximum allowed metadata size", 400u16),
        ("MethodNotAllowed", "The specified method is not allowed against this resource", 405u16),
        ("MissingContentLength", "You must provide the Content-Length HTTP header", 411u16),
        ("NoSuchBucket", "The specified bucket does not exist", 404u16),
        ("NoSuchBucketPolicy", "The specified bucket does not have a bucket policy", 404u16),
        ("NoSuchCORSConfiguration", "The CORS configuration does not exist", 404u16),
        ("NoSuchKey", "The specified key does not exist", 404u16),
        ("NoSuchLifecycleConfiguration", "The lifecycle configuration does not exist", 404u16),
        ("NoSuchUpload", "The specified multipart upload does not exist", 404u16),
        ("NoSuchVersion", "The specified version does not exist", 404u16),
        ("NoSuchTagSet", "The TagSet does not exist", 404u16),
        ("NoSuchWebsiteConfiguration", "The website configuration does not exist", 404u16),
        ("NotImplemented", "The functionality is not implemented", 501u16),
        ("ObjectNotInActiveTierError", "The source object of the COPY operation is not in the active tier", 403u16),
        ("PreconditionFailed", "At least one of the preconditions you specified did not hold", 412u16),
        ("SignatureDoesNotMatch", "The request signature does not match", 403u16),
        ("TooManyBuckets", "You have attempted to create more buckets than allowed", 400u16),
        ("XAmzContentSHA256Mismatch", "The provided x-amz-content-sha256 header does not match", 400u16),
    ]
}

/// The convenience constructors of the error type: function name, error
/// code and parameter name.
pub open spec fn convenience_constructors() -> Seq<(&'static str, &'static str, &'static str)> {
    seq![
        ("no_such_bucket", "NoSuchBucket", "bucket_name"),
        ("no_such_key", "NoSuchKey", "key"),
        ("no_such_upload", "NoSuchUpload", "upload_id"),
        ("no_such_version", "NoSuchVersion", "version_id"),
        ("bucket_already_exists", "BucketAlreadyExists", "bucket_name"),
        ("bucket_already_owned_by_you", "BucketAlreadyOwnedByYou", "bucket_name"),
        ("bucket_not_empty", "BucketNotEmpty", "bucket_name"),
        ("access_denied", "AccessDenied", "resource"),
        ("internal_error", "InternalError", "message"),
        ("invalid_argument", "InvalidArgument", "message"),
        ("invalid_bucket_name", "InvalidBucketName", "bucket_name"),
        ("invalid_range", "InvalidRange", "range"),
        ("invalid_part", "InvalidPart", "part_info"),
        ("invalid_part_order", "InvalidPartOrder", "detail"),
        ("malformed_xml", "MalformedXML", "detail"),
        ("method_not_allowed", "MethodNotAllowed", "method"),
        ("not_implemented", "NotImplemented", "detail"),
        ("precondition_failed", "PreconditionFailed", "condition"),
        ("signature_does_not_match", "SignatureDoesNotMatch", "detail"),
    ]
}

/// The convenience constructors of the error type.
pub fn convenience_constructor_list() -> (r: [(&'static str, &'static str, &'static str); 19])
    ensures
        r@ == convenience_constructors(),
{
    [
        ("no_such_bucket", "NoSuchBucket", "bucket_name"),
        ("no_such_key", "NoSuchKey", "key"),
        ("no_such_upload", "NoSuchUpload", "upload_id"),
        ("no_such_version", "NoSuchVersion", "version_id"),
        ("bucket_already_exists", "BucketAlreadyExists", "bucket_name"),
        ("bucket_already_owned_by_you", "BucketAlreadyOwnedByYou", "bucket_name"),
        ("bucket_not_empty", "BucketNotEmpty", "bucket_name"),
        ("access_denied", "AccessDenied", "resource"),
        ("internal_error", "InternalError", "message"),
        ("invalid_argument", "InvalidArgument", "message"),
        ("invalid_bucket_name", "InvalidBucketName", "bucket_name"),
        ("invalid_range", "InvalidRange", "range"),
        ("invalid_part", "InvalidPart", "part_info"),
        ("invalid_part_order", "InvalidPartOrder", "detail"),
        ("malformed_xml", "MalformedXML", "detail"),
        ("method_not_allowed", "MethodNotAllowed", "method"),
        ("not_implemented", "NotImplemented", "detail"),
        ("precondition_failed", "PreconditionFailed", "condition"),
        ("signature_does_not_match", "SignatureDoesNotMatch", "detail"),
    ]
}

/// The name of the `http::StatusCode` constant for a status.
pub open spec fn status_const(s: u16) -> Seq<char> {
    if false {
        Seq::<char>::empty()
    } else if s == 400 {
        "http::StatusCode::BAD_REQUEST"@
    } else if s == 403 {
        "http::StatusCode::FORBIDDEN"@
    } else if s == 404 {
        "http::StatusCode::NOT_FOUND"@
    } else if s == 405 {
        "http::StatusCode::METHOD_NOT_ALLOWED"@
    } else if s == 409 {
        "http::StatusCode::CONFLICT"@
    } else if s == 411 {
        "http::StatusCode::LENGTH_REQUIRED"@
    } else if s == 412 {
        "http::StatusCode::PRECONDITION_FAILED"@
    } else if s == 416 {
        "http::StatusCode::RANGE_NOT_SATISFIABLE"@
    } else if s == 500 {
        "http::StatusCode::INTERNAL_SERVER_ERROR"@
    } else if s == 501 {
        "http::StatusCode::NOT_IMPLEMENTED"@
    } else {
        "http::StatusCode::INTERNAL_SERVER_ERROR"@
    }
}

/// Each HTTP status names its `http::StatusCode` constant (400
/// `BAD_REQUEST`, 404 `NOT_FOUND`, and so on); a status without a constant of
/// its own is an internal server error.
pub proof fn lemma_status_constants(s: u16)
    ensures
        status_const(400) == "http::StatusCode::BAD_REQUEST"@,
        status_const(403) == "http::StatusCode::FORBIDDEN"@,
        status_const(404) == "http::StatusCode::NOT_FOUND"@,
        status_const(405) == "http::StatusCode::METHOD_NOT_ALLOWED"@,
        status_const(409) == "http::StatusCode::CONFLICT"@,
        status_const(411) == "http::StatusCode::LENGTH_REQUIRED"@,
        status_const(412) == "http::StatusCode::PRECONDITION_FAILED"@,
        status_const(416) == "http::StatusCode::RANGE_NOT_SATISFIABLE"@,
        status_const(500) == "http::StatusCode::INTERNAL_SERVER_ERROR"@,
        status_const(501) == "http::StatusCode::NOT_IMPLEMENTED"@,
        s != 400 && s != 403 && s != 404 && s != 405 && s != 409 && s != 411 && s != 412 && s != 416
            && s != 501 ==> status_const(s) == "http::StatusCode::INTERNAL_SERVER_ERROR"@,
{
}

fn status_const_name(s: u16) -> (r: &'static str)
    ensures
        r@ == status_const(s),
{
    if false {
        ""
    } else if s == 400 {
        "http::StatusCode::BAD_REQUEST"
    } else if s == 403 {
        "http::StatusCode::FORBIDDEN"
    } else if s == 404 {
        "http::StatusCode::NOT_FOUND"
    } else if s == 405 {
        "http::StatusCode::METHOD_NOT_ALLOWED"
    } else if s == 409 {
        "http::StatusCode::CONFLICT"
    } else if s == 411 {
        "http::StatusCode::LENGTH_REQUIRED"
    } else if s == 412 {
        "http::StatusCode::PRECONDITION_FAILED"
    } else if s == 416 {
        "http::StatusCode::RANGE_NOT_SATISFIABLE"
    } else if s == 500 {
        "http::StatusCode::INTERNAL_SERVER_ERROR"
    } else if s == 501 {
        "http::StatusCode::NOT_IMPLEMENTED"
    } else {
        "http::StatusCode::INTERNAL_SERVER_ERROR"
    }
}

/// The start of `error.rs`, up to the error code variants.
pub open spec fn error_head() -> Seq<char> {
    ln(FILE_HEADER@)
        + "\n"@
        + ln("use std::fmt;"@)
        + "\n"@
        + ln("/// Well-known S3 error codes."@)
        + ln("#[derive(Debug, Clone, Copy, PartialEq, Eq, Hash, Default)]"@)
        + ln("#[non_exhaustive]"@)
        + ln("pub enum S3ErrorCode {"@)
}

fn error_head_lines() -> (r: Vec<char>)
    ensures
        r@ == error_head(),
{
    let mut t = line(FILE_HEADER);
    push_newline(&mut t);
    push_line(&mut t, "use std::fmt;");
    push_newline(&mut t);
    push_line(&mut t, "/// Well-known S3 error codes.");
    push_line(&mut t, "#[derive(Debug, Clone, Copy, PartialEq, Eq, Hash, Default)]");
    push_line(&mut t, "#[non_exhaustive]");
    push_line(&mut t, "pub enum S3ErrorCode {");
    t
}

/// The end of the error code enum and the start of its `as_str` match.
pub open spec fn error_after_variants() -> Seq<char> {
    ln("    /// A custom error code not in the standard set."@)
        + ln("    Custom(&'static str),"@)
        + ln("}"@)
        + "\n"@
        + ln("impl S3ErrorCode {"@)
        + ln("    /// Returns the error code as a string."@)
        + ln("    #[must_use]"@)
        + ln("    pub fn as_str(&self) -> &'static str {"@)
        + ln("        match self {"@)
}

fn error_after_variants_lines() -> (r: Vec<char>)
    ensures
        r@ == error_after_variants(),
{
    let mut t = line("    /// A custom error code not in the standard set.");
    push_line(&mut t, "    Custom(&'static str),");
    push_line(&mut t, "}");
    push_newline(&mut t);
    push_line(&mut t, "impl S3ErrorCode {");
    push_line(&mut t, "    /// Returns the error code as a string.");
    push_line(&mut t, "    #[must_use]");
    push_line(&mut t, "    pub fn as_str(&self) -> &'static str {");
    push_line(&mut t, "        match self {");
    t
}

/// The end of `as_str` and the start of the `default_status_code` match.
pub open spec fn error_before_statuses() -> Seq<char> {
    ln("            Self::Custom(s) => s,"@)
        + ln("        }"@)
        + ln("    }"@)
        + "\n"@
        + ln("    /// Returns the default HTTP status code for this error."@)
        + ln("    #[must_use]"@)
        + ln("    #[allow(clippy::match_same_arms)]"@)
        + ln("    pub fn default_status_code(&self) -> http::StatusCode {"@)
        + ln("        match self {"@)
}

fn error_before_statuses_lines() -> (r: Vec<char>)
    ensures
        r@ == error_before_statuses(),
{
    let mut t = line("            Self::Custom(s) => s,");
    push_line(&mut t, "        }");
    push_line(&mut t, "    }");
    push_newline(&mut t);
    push_line(&mut t, "    /// Returns the default HTTP status code for this error.");
    push_line(&mut t, "    #[must_use]");
    push_line(&mut t, "    #[allow(clippy::match_same_arms)]");
    push_line(&mut t, "    pub fn default_status_code(&self) -> http::StatusCode {");
    push_line(&mut t, "        match self {");
    t
}

/// The end of `default_status_code` and the start of the `default_message` match.
pub open spec fn error_before_messages() -> Seq<char> {
    ln("            Self::Custom(_) => http::StatusCode::INTERNAL_SERVER_ERROR,"@)
        + ln("        }"@)
        + ln("    }"@)
        + "\n"@
        + ln("    /// Returns the default message for this error."@)
        + ln("    #[must_use]"@)
        + ln("    pub fn default_message(&self) -> &'static str {"@)
        + ln("        match self {"@)
}

fn error_before_messages_lines() -> (r: Vec<char>)
    ensures
        r@ == error_before_messages(),
{
    let mut t = line("            Self::Custom(_) => http::StatusCode::INTERNAL_SERVER_ERROR,");
    push_line(&mut t, "        }");
    push_line(&mut t, "    }");
    push_newline(&mut t);
    push_line(&mut t, "    /// Returns the default message for this error.");
    push_line(&mut t, "    #[must_use]");
    push_line(&mut t, "    pub fn default_message(&self) -> &'static str {");
    push_line(&mut t, "        match self {");
    t
}

/// The rest of the error code impl, its `Display`, and the error type with its constructors.
pub open spec fn error_body() -> Seq<char> {
    ln("            Self::Custom(s) => s,"@)
        + ln("        }"@)
        + ln("    }"@)
        + ln("}"@)
        + "\n"@
        + ln("impl fmt::Display for S3ErrorCode {"@)
        + ln("    fn fmt(&self, f: &mut fmt::Formatter<'_>) -> fmt::Result {"@)
        + ln("        f.write_str(self.as_str())"@)
        + ln("    }"@)
        + ln("}"@)
        + "\n"@
        + ln("/// An S3 error response."@)
        + ln("#[derive(Debug)]"@)
        + ln("pub struct S3Error {"@)
        + ln("    /// The error code."@)
        + ln("    pub code: S3ErrorCode,"@)
        + ln("    /// A human-readable error message."@)
        + ln("    pub message: String,"@)
        + ln("    /// The resource that caused the error."@)
        + ln("    pub resource: Option<String>,"@)
        + ln("    /// The request ID."@)
        + ln("    pub request_id: Option<String>,"@)
        + ln("    /// The HTTP status code."@)
        + ln("    pub status_code: http::StatusCode,"@)
        + ln("    /// The underlying source error, if any."@)
        + ln("    pub source: Option<Box<dyn std::error::Error + Send + Sync>>,"@)
        + ln("}"@)
        + "\n"@
        + ln("impl fmt::Display for S3Error {"@)
        + ln("    fn fmt(&self, f: &mut fmt::Formatter<'_>) -> fmt::Result {"@)
        + ln("        write!(f, \"S3Error({}): {}\", self.code, self.message)"@)
        + ln("    }"@)
        + ln("}"@)
        + "\n"@
        + ln("impl std::error::Error for S3Error {"@)
        + ln("    fn source(&self) -> Option<&(dyn std::error::Error + 'static)> {"@)
        + ln("        self.source.as_ref().map(|e| e.as_ref() as &(dyn std::error::Error + 'static))"@)
        + ln("    }"@)
        + ln("}"@)
        + "\n"@
        + ln("impl S3Error {"@)
        + ln("    /// Create a new S3Error from an error code."@)
        + ln("    #[must_use]"@)
        + ln("    pub fn new(code: S3ErrorCode) -> Self {"@)
        + ln("        let status_code = code.default_status_code();"@)
        + ln("        let message = code.default_message().to_owned();"@)
        + ln("        Self {"@)
        + ln("            code,"@)
        + ln("            message,"@)
        + ln("            resource: None,"@)
        + ln("            request_id: None,"@)
        + ln("            status_code,"@)
        + ln("            source: None,"@)
        + ln("        }"@)
        + ln("    }"@)
        + "\n"@
        + ln("    /// Create a new S3Error with a custom message."@)
        + ln("    #[must_use]"@)
        + ln("    pub fn with_message(code: S3ErrorCode, message: impl Into<String>) -> Self {"@)
        + ln("        Self {"@)
        + ln("            status_code: code.default_status_code(),"@)
        + ln("            message: message.into(),"@)
        + ln("            code,"@)
        + ln("            resource: None,"@)
        + ln("            request_id: None,"@)
        + ln("            source: None,"@)
        + ln("        }"@)
        + ln("    }"@)
        + "\n"@
        + ln("    /// Set the resource that caused this error."@)
        + ln("    #[must_use]"@)
        + ln("    pub fn with_resource(mut self, resource: impl Into<String>) -> Self {"@)
        + ln("        self.resource = Some(resource.into());"@)
        + ln("        self"@)
        + ln("    }"@)
        + "\n"@
        + ln("    /// Set the request ID."@)
        + ln("    #[must_use]"@)
        + ln("    pub fn with_request_id(mut self, request_id: impl Into<String>) -> Self {"@)
        + ln("        self.request_id = Some(request_id.into());"@)
        + ln("        self"@)
        + ln("    }"@)
        + "\n"@
        + ln("    /// Set the source error."@)
        + ln("    #[must_use]"@)
        + ln("    pub fn with_source(mut self, source: impl std::error::Error + Send + Sync + 'static) -> Self {"@)
        + ln("        self.source = Some(Box::new(source));"@)
        + ln("        self"@)
        + ln("    }"@)
        + "\n"@
}

fn error_body_lines() -> (r: Vec<char>)
    ensures
        r@ == error_body(),
{
    let mut t = line("            Self::Custom(s) => s,");
    push_line(&mut t, "        }");
    push_line(&mut t, "    }");
    push_line(&mut t, "}");
    push_newline(&mut t);
    push_line(&mut t, "impl fmt::Display for S3ErrorCode {");
    push_line(&mut t, "    fn fmt(&self, f: &mut fmt::Formatter<'_>) -> fmt::Result {");
    push_line(&mut t, "        f.write_str(self.as_str())");
    push_line(&mut t, "    }");
    push_line(&mut t, "}");
    push_newline(&mut t);
    push_line(&mut t, "/// An S3 error response.");
    push_line(&mut t, "#[derive(Debug)]");
    push_line(&mut t, "pub struct S3Error {");
    push_line(&mut t, "    /// The error code.");
    push_line(&mut t, "    pub code: S3ErrorCode,");
    push_line(&mut t, "    /// A human-readable error message.");
    push_line(&mut t, "    pub message: String,");
    push_line(&mut t, "    /// The resource that caused the error.");
    push_line(&mut t, "    pub resource: Option<String>,");
    push_line(&mut t, "    /// The request ID.");
    push_line(&mut t, "    pub request_id: Option<String>,");
    push_line(&mut t, "    /// The HTTP status code.");
    push_line(&mut t, "    pub status_code: http::StatusCode,");
    push_line(&mut t, "    /// The underlying source error, if any.");
    push_line(&mut t, "    pub source: Option<Box<dyn std::error::Error + Send + Sync>>,");
    push_line(&mut t, "}");
    push_newline(&mut t);
    push_line(&mut t, "impl fmt::Display for S3Error {");
    push_line(&mut t, "    fn fmt(&self, f: &mut fmt::Formatter<'_>) -> fmt::Result {");
    push_line(&mut t, "        write!(f, \"S3Error({}): {}\", self.code, self.message)");
    push_line(&mut t, "    }");
    push_line(&mut t, "}");
    push_newline(&mut t);
    push_line(&mut t, "impl std::error::Error for S3Error {");
    push_line(&mut t, "    fn source(&self) -> Option<&(dyn std::error::Error + 'static)> {");
    push_line(&mut t, "        self.source.as_ref().map(|e| e.as_ref() as &(dyn std::error::Error + 'static))");
    push_line(&mut t, "    }");
    push_line(&mut t, "}");
    push_newline(&mut t);
    push_line(&mut t, "impl S3Error {");
    push_line(&mut t, "    /// Create a new S3Error from an error code.");
    push_line(&mut t, "    #[must_use]");
    push_line(&mut t, "    pub fn new(code: S3ErrorCode) -> Self {");
    push_line(&mut t, "        let status_code = code.default_status_code();");
    push_line(&mut t, "        let message = code.default_message().to_owned();");
    push_line(&mut t, "        Self {");
    push_line(&mut t, "            code,");
    push_line(&mut t, "            message,");
    push_line(&mut t, "            resource: None,");
    push_line(&mut t, "            request_id: None,");
    push_line(&mut t, "            status_code,");
    push_line(&mut t, "            source: None,");
    push_line(&mut t, "        }");
    push_line(&mut t, "    }");
    push_newline(&mut t);
    push_line(&mut t, "    /// Create a new S3Error with a custom message.");
    push_line(&mut t, "    #[must_use]");
    push_line(&mut t, "    pub fn with_message(code: S3ErrorCode, message: impl Into<String>) -> Self {");
    push_line(&mut t, "        Self {");
    push_line(&mut t, "            status_code: code.default_status_code(),");
    push_line(&mut t, "            message: message.into(),");
    push_line(&mut t, "            code,");
    push_line(&mut t, "            resource: None,");
    push_line(&mut t, "            request_id: None,");
    push_line(&mut t, "            source: None,");
    push_line(&mut t, "        }");
    push_line(&mut t, "    }");
    push_newline(&mut t);
    push_line(&mut t, "    /// Set the resource that caused this error.");
    push_line(&mut t, "    #[must_use]");
    push_line(&mut t, "    pub fn with_resource(mut self, resource: impl Into<String>) -> Self {");
    push_line(&mut t, "        self.resource = Some(resource.into());");
    push_line(&mut t, "        self");
    push_line(&mut t, "    }");
    push_newline(&mut t);
    push_line(&mut t, "    /// Set the request ID.");
    push_line(&mut t, "    #[must_use]");
    push_line(&mut t, "    pub fn with_request_id(mut self, request_id: impl Into<String>) -> Self {");
    push_line(&mut t, "        self.request_id = Some(request_id.into());");
    push_line(&mut t, "        self");
    push_line(&mut t, "    }");
    push_newline(&mut t);
    push_line(&mut t, "    /// Set the source error.");
    push_line(&mut t, "    #[must_use]");
    push_line(&mut t, "    pub fn with_source(mut self, source: impl std::error::Error + Send + Sync + 'static) -> Self {");
    push_line(&mut t, "        self.source = Some(Box::new(source));");
    push_line(&mut t, "        self");
    push_line(&mut t, "    }");
    push_newline(&mut t);
    t
}

/// The end of the error type impl and the error macro.
pub open spec fn error_tail() -> Seq<char> {
    ln("}"@)
        + "\n"@
        + ln("/// Create an S3Error from an error code."@)
        + ln("///"@)
        + ln("/// # Examples"@)
        + ln("///"@)
        + ln("/// ```"@)
        + ln("/// use ruststack_s3_model::s3_error;"@)
        + ln("/// use ruststack_s3_model::error::S3ErrorCode;"@)
        + ln("///"@)
        + ln("/// let err = s3_error!(NoSuchBucket);"@)
        + ln("/// assert_eq!(err.code, S3ErrorCode::NoSuchBucket);"@)
        + ln("///"@)
        + ln("/// let err = s3_error!(NoSuchKey, \"The key does not exist\");"@)
        + ln("/// assert_eq!(err.message, \"The key does not exist\");"@)
        + ln("/// ```"@)
        + ln("#[macro_export]"@)
        + ln("macro_rules! s3_error {"@)
        + ln("    ($code:ident) => {"@)
        + ln("        $crate::error::S3Error::new($crate::error::S3ErrorCode::$code)"@)
        + ln("    };"@)
        + ln("    ($code:ident, $msg:expr) => {"@)
        + ln("        $crate::error::S3Error::with_message($crate::error::S3ErrorCode::$code, $msg)"@)
        + ln("    };"@)
        + ln("}"@)
}

fn error_tail_lines() -> (r: Vec<char>)
    ensures
        r@ == error_tail(),
{
    let mut t = line("}");
    push_newline(&mut t);
    push_line(&mut t, "/// Create an S3Error from an error code.");
    push_line(&mut t, "///");
    push_line(&mut t, "/// # Examples");
    push_line(&mut t, "///");
    push_line(&mut t, "/// ```");
    push_line(&mut t, "/// use ruststack_s3_model::s3_error;");
    push_line(&mut t, "/// use ruststack_s3_model::error::S3ErrorCode;");
    push_line(&mut t, "///");
    push_line(&mut t, "/// let err = s3_error!(NoSuchBucket);");
    push_line(&mut t, "/// assert_eq!(err.code, S3ErrorCode::NoSuchBucket);");
    push_line(&mut t, "///");
    push_line(&mut t, "/// let err = s3_error!(NoSuchKey, \"The key does not exist\");");
    push_line(&mut t, "/// assert_eq!(err.message, \"The key does not exist\");");
    push_line(&mut t, "/// ```");
    push_line(&mut t, "#[macro_export]");
    push_line(&mut t, "macro_rules! s3_error {");
    push_line(&mut t, "    ($code:ident) => {");
    push_line(&mut t, "        $crate::error::S3Error::new($crate::error::S3ErrorCode::$code)");
    push_line(&mut t, "    };");
    push_line(&mut t, "    ($code:ident, $msg:expr) => {");
    push_line(&mut t, "        $crate::error::S3Error::with_message($crate::error::S3ErrorCode::$code, $msg)");
    push_line(&mut t, "    };");
    push_line(&mut t, "}");
    t
}

/// The text of one error code in the enum declaration (0), the `as_str`
/// match (1) or the `default_message` match (2).
pub open spec fn code_fn(which: u8) -> spec_fn(int, (&'static str, &'static str, u16)) -> Seq<char> {
    |i: int, c: (&'static str, &'static str, u16)|
        if which == 0 {
            when(i == 0, ln("    /// Default error code."@) + ln("    #[default]"@)) + ln(
                "    /// "@ + c.0@ + " error."@,
            ) + ln("    "@ + c.0@ + ","@)
        } else if which == 1 {
            ln("            Self::"@ + c.0@ + " => \""@ + c.0@ + "\","@)
        } else {
            ln("            Self::"@ + c.0@ + " => \""@ + c.1@ + "\","@)
        }
}

fn code_lines(i: usize, c: (&'static str, &'static str, u16), which: u8) -> (r: Vec<char>)
    ensures
        r@ == code_fn(which)(i as int, c),
{
    let mut t: Vec<char> = Vec::new();
    if which == 0 {
        if i == 0 {
            push_line(&mut t, "    /// Default error code.");
            push_line(&mut t, "    #[default]");
        }
        assert(t@ =~= when(i == 0, ln("    /// Default error code."@) + ln("    #[default]"@)));
        let mut l = str_chars("    /// ");
        push_str_chars(&mut l, c.0);
        push_str_chars(&mut l, " error.");
        push_line_chars(&mut t, &l);
        let mut l = str_chars("    ");
        push_str_chars(&mut l, c.0);
        push_str_chars(&mut l, ",");
        push_line_chars(&mut t, &l);
    } else {
        let mut l = str_chars("            Self::");
        push_str_chars(&mut l, c.0);
        push_str_chars(&mut l, " => \"");
        push_str_chars(&mut l, if which == 1 { c.0 } else { c.1 });
        push_str_chars(&mut l, "\",");
        push_line_chars(&mut t, &l);
        assert(t@ =~= code_fn(which)(i as int, c));
    }
    t
}

fn codes_lines(codes: &[(&'static str, &'static str, u16)], which: u8) -> (r: Vec<char>)
    ensures
        r@ == each(codes@, code_fn(which)),
{
    let ghost f = code_fn(which);
    let mut b: Vec<char> = Vec::new();
    proof {
        lemma_each_all(codes@, f);
    }
    let mut i: usize = 0;
    while i < codes.len()
        invariant
            i <= codes.len(),
            f == code_fn(which),
            b@ == each(codes@.take(i as int), f),
        decreases codes.len() - i,
    {
        let item = code_lines(i, codes[i], which);
        push_all(&mut b, &item);
        proof {
            lemma_each_step(codes@, f, i as int);
        }
        i = i + 1;
    }
    proof {
        lemma_each_all(codes@, f);
    }
    b
}

/// The error codes grouped by status: the statuses in increasing order, each
/// with its codes in table order.
pub open spec fn status_groups(codes: Seq<(&'static str, &'static str, u16)>) -> Seq<
    (u16, Seq<&'static str>),
>
    decreases codes.len(),
{
    if codes.len() == 0 {
        Seq::empty()
    } else {
        group_add(status_groups(codes.drop_last()), codes.last().2, codes.last().0)
    }
}

/// Selects the groups whose status is at least `s`.
pub open spec fn status_at_least(s: u16) -> spec_fn((u16, Seq<&'static str>)) -> bool {
    |g: (u16, Seq<&'static str>)| g.0 >= s
}

/// Adds a code with status `s` to the groups: to the group of `s` when
/// there is one, else as a new group placed before the first group of a
/// higher status.
pub open spec fn group_add(gs: Seq<(u16, Seq<&'static str>)>, s: u16, code: &'static str) -> Seq<
    (u16, Seq<&'static str>),
> {
    let j = first_index(gs, status_at_least(s)) as int;
    if j < gs.len() && gs[j].0 == s {
        gs.update(j, (s, gs[j].1.push(code)))
    } else {
        gs.insert(j, (s, seq![code]))
    }
}

/// The groups of a group list.
pub open spec fn groups_view(v: Seq<(u16, Vec<&'static str>)>) -> Seq<(u16, Seq<&'static str>)> {
    v.map_values(|g: (u16, Vec<&'static str>)| (g.0, g.1@))
}

fn group_add_exec(groups: &mut Vec<(u16, Vec<&'static str>)>, s: u16, code: &'static str)
    ensures
        groups_view(final(groups)@) == group_add(groups_view(old(groups)@), s, code),
{
    let ghost gv = groups_view(groups@);
    let ghost pred = status_at_least(s);
    let mut j: usize = 0;
    while j < groups.len() && groups[j].0 < s
        invariant
            j <= groups.len(),
            gv == groups_view(groups@),
            pred == status_at_least(s),
            forall|k: int| 0 <= k < j ==> !pred(#[trigger] gv[k]),
        decreases groups.len() - j,
    {
        j = j + 1;
    }
    proof {
        if j < groups.len() {
            assert(pred(gv[j as int]));
        }
        lemma_first_index_is(gv, pred, j as int);
    }
    if j < groups.len() && groups[j].0 == s {
        let mut g = groups.remove(j);
        g.1.push(code);
        groups.insert(j, g);
        assert(groups_view(groups@) =~= gv.update(j as int, (s, gv[j as int].1.push(code))));
    } else {
        let mut cs: Vec<&'static str> = Vec::new();
        cs.push(code);
        groups.insert(j, (s, cs));
        assert(groups_view(groups@) =~= gv.insert(j as int, (s, seq![code])));
    }
}

/// The error codes grouped by status.
fn status_groups_exec(codes: &[(&'static str, &'static str, u16)]) -> (r: Vec<(u16, Vec<&'static str>)>)
    ensures
        groups_view(r@) == status_groups(codes@),
{
    let mut groups: Vec<(u16, Vec<&'static str>)> = Vec::new();
    assert(groups_view(groups@) =~= status_groups(codes@.take(0)));
    let mut i: usize = 0;
    while i < codes.len()
        invariant
            i <= codes.len(),
            groups_view(groups@) == status_groups(codes@.take(i as int)),
        decreases codes.len() - i,
    {
        group_add_exec(&mut groups, codes[i].2, codes[i].0);
        assert(codes@.take(i + 1).drop_last() =~= codes@.take(i as int));
        i = i + 1;
    }
    assert(codes@.take(codes.len() as int) =~= codes@);
    groups
}

/// The match patterns of codes: `Self::{code}` joined by ` | `.
pub open spec fn alternatives(cs: Seq<&'static str>) -> Seq<char> {
    each(cs, |i: int, c: &'static str| when(i > 0, " | "@) + "Self::"@ + c@)
}

/// The `default_status_code` arm of a group.
pub open spec fn group_fn() -> spec_fn(int, (u16, Seq<&'static str>)) -> Seq<char> {
    |i: int, g: (u16, Seq<&'static str>)|
        ln("            "@ + alternatives(g.1) + " => "@ + status_const(g.0) + ","@)
}

fn alternatives_exec(cs: &Vec<&'static str>) -> (r: Vec<char>)
    ensures
        r@ == alternatives(cs@),
{
    let ghost f = |i: int, c: &'static str| when(i > 0, " | "@) + "Self::"@ + c@;
    let mut b: Vec<char> = Vec::new();
    proof {
        lemma_each_all(cs@, f);
    }
    let mut i: usize = 0;
    while i < cs.len()
        invariant
            i <= cs.len(),
            f == (|i: int, c: &'static str| when(i > 0, " | "@) + "Self::"@ + c@),
            b@ == each(cs@.take(i as int), f),
        decreases cs.len() - i,
    {
        let mut item: Vec<char> = Vec::new();
        if i > 0 {
            push_str_chars(&mut item, " | ");
        }
        assert(item@ =~= when(i > 0, " | "@));
        push_str_chars(&mut item, "Self::");
        push_str_chars(&mut item, cs[i]);
        push_all(&mut b, &item);
        proof {
            lemma_each_step(cs@, f, i as int);
        }
        i = i + 1;
    }
    proof {
        lemma_each_all(cs@, f);
    }
    b
}

fn groups_lines(groups: &Vec<(u16, Vec<&'static str>)>) -> (r: Vec<char>)
    ensures
        r@ == each(groups_view(groups@), group_fn()),
{
    let ghost gv = groups_view(groups@);
    let ghost f = group_fn();
    let mut b: Vec<char> = Vec::new();
    proof {
        lemma_each_all(gv, f);
    }
    let mut i: usize = 0;
    while i < groups.len()
        invariant
            i <= groups.len(),
            gv == groups_view(groups@),
            f == group_fn(),
            b@ == each(gv.take(i as int), f),
        decreases groups.len() - i,
    {
        let mut l = str_chars("            ");
        let alts = alternatives_exec(&groups[i].1);
        push_all(&mut l, &alts);
        push_str_chars(&mut l, " => ");
        push_str_chars(&mut l, status_const_name(groups[i].0));
        push_str_chars(&mut l, ",");
        let mut item: Vec<char> = Vec::new();
        push_line_chars(&mut item, &l);
        assert(item@ =~= f(i as int, gv[i as int]));
        push_all(&mut b, &item);
        proof {
            lemma_each_step(gv, f, i as int);
        }
        i = i + 1;
    }
    proof {
        lemma_each_all(gv, f);
    }
    b
}

/// A convenience constructor: `message` parameters give a custom message,
/// others name the resource.
pub open spec fn convenience_fn() -> spec_fn(int, (&'static str, &'static str, &'static str)) -> Seq<char> {
    |i: int, c: (&'static str, &'static str, &'static str)|
        ln("    /// Create a "@ + c.1@ + " error."@) + ln("    #[must_use]"@) + ln(
            "    pub fn "@ + c.0@ + "("@ + c.2@ + ": impl Into<String>) -> Self {"@,
        ) + (if c.2@ == "message"@ {
            ln("        Self::with_message(S3ErrorCode::"@ + c.1@ + ", "@ + c.2@ + ")"@)
        } else {
            ln("        Self::new(S3ErrorCode::"@ + c.1@ + ").with_resource("@ + c.2@ + ")"@)
        }) + ln("    }"@) + "\n"@
}

fn convenience_lines(cs: &[(&'static str, &'static str, &'static str)]) -> (r: Vec<char>)
    ensures
        r@ == each(cs@, convenience_fn()),
{
    let ghost f = convenience_fn();
    let mut b: Vec<char> = Vec::new();
    proof {
        lemma_each_all(cs@, f);
    }
    let mut i: usize = 0;
    while i < cs.len()
        invariant
            i <= cs.len(),
            f == convenience_fn(),
            b@ == each(cs@.take(i as int), f),
        decreases cs.len() - i,
    {
        let c = cs[i];
        let mut l = str_chars("    /// Create a ");
        push_str_chars(&mut l, c.1);
        push_str_chars(&mut l, " error.");
        let mut item: Vec<char> = Vec::new();
        push_line_chars(&mut item, &l);
        push_line(&mut item, "    #[must_use]");
        let mut l = str_chars("    pub fn ");
        push_str_chars(&mut l, c.0);
        push_str_chars(&mut l, "(");
        push_str_chars(&mut l, c.2);
        push_str_chars(&mut l, ": impl Into<String>) -> Self {");
        push_line_chars(&mut item, &l);
        let mut l: Vec<char> = Vec::new();
        if str_eq(c.2, "message") {
            l = str_chars("        Self::with_message(S3ErrorCode::");
            push_str_chars(&mut l, c.1);
            push_str_chars(&mut l, ", ");
            push_str_chars(&mut l, c.2);
            push_str_chars(&mut l, ")");
        } else {
            l = str_chars("        Self::new(S3ErrorCode::");
            push_str_chars(&mut l, c.1);
            push_str_chars(&mut l, ").with_resource(");
            push_str_chars(&mut l, c.2);
            push_str_chars(&mut l, ")");
        }
        push_line_chars(&mut item, &l);
        push_line(&mut item, "    }");
        push_newline(&mut item);
        assert(item@ =~= f(i as int, cs@[i as int]));
        push_all(&mut b, &item);
        proof {
            lemma_each_step(cs@, f, i as int);
        }
        i = i + 1;
    }
    proof {
        lemma_each_all(cs@, f);
    }
    b
}

/// The text of `error.rs`: the error code enum with its status codes and
/// messages, and the error type with its constructors and macro.
#[verifier::opaque]
pub open spec fn error_text() -> Seq<char> {
    let codes = error_codes();
    error_head() + each(codes, code_fn(0)) + error_after_variants() + each(codes, code_fn(1))
        + error_before_statuses() + each(status_groups(codes), group_fn())
        + error_before_messages() + each(codes, code_fn(2)) + error_body() + each(
        convenience_constructors(),
        convenience_fn(),
    ) + error_tail()
}

/// Generate `error.rs` with the error code enum and the error type.
pub fn generate_error() -> (r: String)
    ensures
        r@ == error_text(),
{
    proof {
        reveal(error_text);
    }
    let codes = error_code_list();
    let mut t = error_head_lines();
    let b = codes_lines(&codes, 0);
    push_all(&mut t, &b);
    let b = error_after_variants_lines();
    push_all(&mut t, &b);
    let b = codes_lines(&codes, 1);
    push_all(&mut t, &b);
    let b = error_before_statuses_lines();
    push_all(&mut t, &b);
    let groups = status_groups_exec(&codes);
    let b = groups_lines(&groups);
    push_all(&mut t, &b);
    let b = error_before_messages_lines();
    push_all(&mut t, &b);
    let b = codes_lines(&codes, 2);
    push_all(&mut t, &b);
    let b = error_body_lines();
    push_all(&mut t, &b);
    let conv = convenience_constructor_list();
    let b = convenience_lines(&conv);
    push_all(&mut t, &b);
    let b = error_tail_lines();
    push_all(&mut t, &b);
    string_from_chars(&t)
}

// ---------------------------------------------------------------------------
// The request and library files
// ---------------------------------------------------------------------------

/// The text of `request.rs`: the streaming blob, credential and request wrapper types.
#[verifier::opaque]
pub open spec fn request_text() -> Seq<char> {
    ln(FILE_HEADER@)
        + "\n"@
        + ln("/// A wrapper around `bytes::Bytes` for streaming blob data."@)
        + ln("///"@)
        + ln("/// In the future, this may be replaced with an actual streaming type."@)
        + ln("#[derive(Debug, Clone, Default)]"@)
        + ln("pub struct StreamingBlob {"@)
        + ln("    /// The underlying bytes data."@)
        + ln("    pub data: bytes::Bytes,"@)
        + ln("}"@)
        + "\n"@
        + ln("impl StreamingBlob {"@)
        + ln("    /// Create a new `StreamingBlob` from bytes."@)
        + ln("    #[must_use]"@)
        + ln("    pub fn new(data: impl Into<bytes::Bytes>) -> Self {"@)
        + ln("        Self { data: data.into() }"@)
        + ln("    }"@)
        + "\n"@
        + ln("    /// Returns true if the blob is empty."@)
        + ln("    #[must_use]"@)
        + ln("    pub fn is_empty(&self) -> bool {"@)
        + ln("        self.data.is_empty()"@)
        + ln("    }"@)
        + "\n"@
        + ln("    /// Returns the length of the blob."@)
        + ln("    #[must_use]"@)
        + ln("    pub fn len(&self) -> usize {"@)
        + ln("        self.data.len()"@)
        + ln("    }"@)
        + ln("}"@)
        + "\n"@
        + ln("impl From<bytes::Bytes> for StreamingBlob {"@)
        + ln("    fn from(data: bytes::Bytes) -> Self {"@)
        + ln("        Self { data }"@)
        + ln("    }"@)
        + ln("}"@)
        + "\n"@
        + ln("impl From<Vec<u8>> for StreamingBlob {"@)
        + ln("    fn from(data: Vec<u8>) -> Self {"@)
        + ln("        Self { data: data.into() }"@)
        + ln("    }"@)
        + ln("}"@)
        + "\n"@
        + ln("impl From<&[u8]> for StreamingBlob {"@)
        + ln("    fn from(data: &[u8]) -> Self {"@)
        + ln("        Self {"@)
        + ln("            data: bytes::Bytes::copy_from_slice(data),"@)
        + ln("        }"@)
        + ln("    }"@)
        + ln("}"@)
        + "\n"@
        + ln("/// AWS credentials for request authentication."@)
        + ln("#[derive(Clone, Default)]"@)
        + ln("pub struct Credentials {"@)
        + ln("    /// The AWS access key ID."@)
        + ln("    pub access_key_id: String,"@)
        + ln("    /// The AWS secret access key."@)
        + ln("    pub secret_access_key: String,"@)
        + ln("    /// Optional session token for temporary credentials."@)
        + ln("    pub session_token: Option<String>,"@)
        + ln("}"@)
        + "\n"@
        + ln("impl std::fmt::Debug for Credentials {"@)
        + ln("    fn fmt(&self, f: &mut std::fmt::Formatter<'_>) -> std::fmt::Result {"@)
        + ln("        f.debug_struct(\"Credentials\")"@)
        + ln("            .field(\"access_key_id\", &self.access_key_id)"@)
        + ln("            .field(\"secret_access_key\", &\"[REDACTED]\")"@)
        + ln("            .field(\"session_token\", &self.session_token.as_ref().map(|_| \"[REDACTED]\"))"@)
        + ln("            .finish()"@)
        + ln("    }"@)
        + ln("}"@)
        + "\n"@
        + ln("/// An S3 request wrapping an input type with credentials and headers."@)
        + ln("#[derive(Debug, Clone)]"@)
        + ln("pub struct S3Request<T> {"@)
        + ln("    /// The input payload."@)
        + ln("    pub input: T,"@)
        + ln("    /// Optional credentials for the request."@)
        + ln("    pub credentials: Option<Credentials>,"@)
        + ln("    /// Additional HTTP headers."@)
        + ln("    pub headers: http::HeaderMap,"@)
        + ln("}"@)
        + "\n"@
        + ln("impl<T: Default> Default for S3Request<T> {"@)
        + ln("    fn default() -> Self {"@)
        + ln("        Self {"@)
        + ln("            input: T::default(),"@)
        + ln("            credentials: None,"@)
        + ln("            headers: http::HeaderMap::new(),"@)
        + ln("        }"@)
        + ln("    }"@)
        + ln("}"@)
        + "\n"@
        + ln("impl<T> S3Request<T> {"@)
        + ln("    /// Create a new S3Request with the given input."@)
        + ln("    #[must_use]"@)
        + ln("    pub fn new(input: T) -> Self {"@)
        + ln("        Self {"@)
        + ln("            input,"@)
        + ln("            credentials: None,"@)
        + ln("            headers: http::HeaderMap::new(),"@)
        + ln("        }"@)
        + ln("    }"@)
        + "\n"@
        + ln("    /// Set the credentials for this request."@)
        + ln("    #[must_use]"@)
        + ln("    pub fn with_credentials(mut self, credentials: Credentials) -> Self {"@)
        + ln("        self.credentials = Some(credentials);"@)
        + ln("        self"@)
        + ln("    }"@)
        + "\n"@
        + ln("    /// Map the input type to a different type."@)
        + ln("    pub fn map_input<U>(self, f: impl FnOnce(T) -> U) -> S3Request<U> {"@)
        + ln("        S3Request {"@)
        + ln("            input: f(self.input),"@)
        + ln("            credentials: self.credentials,"@)
        + ln("            headers: self.headers,"@)
        + ln("        }"@)
        + ln("    }"@)
        + ln("}"@)
}

fn request_text_lines() -> (r: Vec<char>)
    ensures
        r@ == request_text(),
{
    proof {
        reveal(request_text);
    }
    let mut t = line(FILE_HEADER);
    push_newline(&mut t);
    push_line(&mut t, "/// A wrapper around `bytes::Bytes` for streaming blob data.");
    push_line(&mut t, "///");
    push_line(&mut t, "/// In the future, this may be replaced with an actual streaming type.");
    push_line(&mut t, "#[derive(Debug, Clone, Default)]");
    push_line(&mut t, "pub struct StreamingBlob {");
    push_line(&mut t, "    /// The underlying bytes data.");
    push_line(&mut t, "    pub data: bytes::Bytes,");
    push_line(&mut t, "}");
    push_newline(&mut t);
    push_line(&mut t, "impl StreamingBlob {");
    push_line(&mut t, "    /// Create a new `StreamingBlob` from bytes.");
    push_line(&mut t, "    #[must_use]");
    push_line(&mut t, "    pub fn new(data: impl Into<bytes::Bytes>) -> Self {");
    push_line(&mut t, "        Self { data: data.into() }");
    push_line(&mut t, "    }");
    push_newline(&mut t);
    push_line(&mut t, "    /// Returns true if the blob is empty.");
    push_line(&mut t, "    #[must_use]");
    push_line(&mut t, "    pub fn is_empty(&self) -> bool {");
    push_line(&mut t, "        self.data.is_empty()");
    push_line(&mut t, "    }");
    push_newline(&mut t);
    push_line(&mut t, "    /// Returns the length of the blob.");
    push_line(&mut t, "    #[must_use]");
    push_line(&mut t, "    pub fn len(&self) -> usize {");
    push_line(&mut t, "        self.data.len()");
    push_line(&mut t, "    }");
    push_line(&mut t, "}");
    push_newline(&mut t);
    push_line(&mut t, "impl From<bytes::Bytes> for StreamingBlob {");
    push_line(&mut t, "    fn from(data: bytes::Bytes) -> Self {");
    push_line(&mut t, "        Self { data }");
    push_line(&mut t, "    }");
    push_line(&mut t, "}");
    push_newline(&mut t);
    push_line(&mut t, "impl From<Vec<u8>> for StreamingBlob {");
    push_line(&mut t, "    fn from(data: Vec<u8>) -> Self {");
    push_line(&mut t, "        Self { data: data.into() }");
    push_line(&mut t, "    }");
    push_line(&mut t, "}");
    push_newline(&mut t);
    push_line(&mut t, "impl From<&[u8]> for StreamingBlob {");
    push_line(&mut t, "    fn from(data: &[u8]) -> Self {");
    push_line(&mut t, "        Self {");
    push_line(&mut t, "            data: bytes::Bytes::copy_from_slice(data),");
    push_line(&mut t, "        }");
    push_line(&mut t, "    }");
    push_line(&mut t, "}");
    push_newline(&mut t);
    push_line(&mut t, "/// AWS credentials for request authentication.");
    push_line(&mut t, "#[derive(Clone, Default)]");
    push_line(&mut t, "pub struct Credentials {");
    push_line(&mut t, "    /// The AWS access key ID.");
    push_line(&mut t, "    pub access_key_id: String,");
    push_line(&mut t, "    /// The AWS secret access key.");
    push_line(&mut t, "    pub secret_access_key: String,");
    push_line(&mut t, "    /// Optional session token for temporary credentials.");
    push_line(&mut t, "    pub session_token: Option<String>,");
    push_line(&mut t, "}");
    push_newline(&mut t);
    push_line(&mut t, "impl std::fmt::Debug for Credentials {");
    push_line(&mut t, "    fn fmt(&self, f: &mut std::fmt::Formatter<'_>) -> std::fmt::Result {");
    push_line(&mut t, "        f.debug_struct(\"Credentials\")");
    push_line(&mut t, "            .field(\"access_key_id\", &self.access_key_id)");
    push_line(&mut t, "            .field(\"secret_access_key\", &\"[REDACTED]\")");
    push_line(&mut t, "            .field(\"session_token\", &self.session_token.as_ref().map(|_| \"[REDACTED]\"))");
    push_line(&mut t, "            .finish()");
    push_line(&mut t, "    }");
    push_line(&mut t, "}");
    push_newline(&mut t);
    push_line(&mut t, "/// An S3 request wrapping an input type with credentials and headers.");
    push_line(&mut t, "#[derive(Debug, Clone)]");
    push_line(&mut t, "pub struct S3Request<T> {");
    push_line(&mut t, "    /// The input payload.");
    push_line(&mut t, "    pub input: T,");
    push_line(&mut t, "    /// Optional credentials for the request.");
    push_line(&mut t, "    pub credentials: Option<Credentials>,");
    push_line(&mut t, "    /// Additional HTTP headers.");
    push_line(&mut t, "    pub headers: http::HeaderMap,");
    push_line(&mut t, "}");
    push_newline(&mut t);
    push_line(&mut t, "impl<T: Default> Default for S3Request<T> {");
    push_line(&mut t, "    fn default() -> Self {");
    push_line(&mut t, "        Self {");
    push_line(&mut t, "            input: T::default(),");
    push_line(&mut t, "            credentials: None,");
    push_line(&mut t, "            headers: http::HeaderMap::new(),");
    push_line(&mut t, "        }");
    push_line(&mut t, "    }");
    push_line(&mut t, "}");
    push_newline(&mut t);
    push_line(&mut t, "impl<T> S3Request<T> {");
    push_line(&mut t, "    /// Create a new S3Request with the given input.");
    push_line(&mut t, "    #[must_use]");
    push_line(&mut t, "    pub fn new(input: T) -> Self {");
    push_line(&mut t, "        Self {");
    push_line(&mut t, "            input,");
    push_line(&mut t, "            credentials: None,");
    push_line(&mut t, "            headers: http::HeaderMap::new(),");
    push_line(&mut t, "        }");
    push_line(&mut t, "    }");
    push_newline(&mut t);
    push_line(&mut t, "    /// Set the credentials for this request.");
    push_line(&mut t, "    #[must_use]");
    push_line(&mut t, "    pub fn with_credentials(mut self, credentials: Credentials) -> Self {");
    push_line(&mut t, "        self.credentials = Some(credentials);");
    push_line(&mut t, "        self");
    push_line(&mut t, "    }");
    push_newline(&mut t);
    push_line(&mut t, "    /// Map the input type to a different type.");
    push_line(&mut t, "    pub fn map_input<U>(self, f: impl FnOnce(T) -> U) -> S3Request<U> {");
    push_line(&mut t, "        S3Request {");
    push_line(&mut t, "            input: f(self.input),");
    push_line(&mut t, "            credentials: self.credentials,");
    push_line(&mut t, "            headers: self.headers,");
    push_line(&mut t, "        }");
    push_line(&mut t, "    }");
    push_line(&mut t, "}");
    t
}

/// Generate `request.rs` with the streaming blob, credential and request
/// wrapper types.
pub fn generate_request() -> (r: String)
    ensures
        r@ == request_text(),
{
    let t = request_text_lines();
    string_from_chars(&t)
}

/// The start of `lib.rs`: its attributes, modules and re-exports.
pub open spec fn lib_head() -> Seq<char> {
    ln(FILE_HEADER@)
        + ln("#![allow(clippy::too_many_lines)]"@)
        + ln("#![allow(clippy::struct_excessive_bools)]"@)
        + ln("#![allow(missing_docs)]"@)
        + "\n"@
        + ln("pub mod error;"@)
        + ln("pub mod input;"@)
        + ln("pub mod operations;"@)
        + ln("pub mod output;"@)
        + ln("pub mod request;"@)
        + ln("pub mod types;"@)
        + "\n"@
        + ln("pub use error::{S3Error, S3ErrorCode};"@)
        + ln("pub use operations::S3Operation;"@)
        + ln("pub use request::{Credentials, S3Request, StreamingBlob};"@)
        + "\n"@
}

fn lib_head_lines() -> (r: Vec<char>)
    ensures
        r@ == lib_head(),
{
    let mut t = line(FILE_HEADER);
    push_line(&mut t, "#![allow(clippy::too_many_lines)]");
    push_line(&mut t, "#![allow(clippy::struct_excessive_bools)]");
    push_line(&mut t, "#![allow(missing_docs)]");
    push_newline(&mut t);
    push_line(&mut t, "pub mod error;");
    push_line(&mut t, "pub mod input;");
    push_line(&mut t, "pub mod operations;");
    push_line(&mut t, "pub mod output;");
    push_line(&mut t, "pub mod request;");
    push_line(&mut t, "pub mod types;");
    push_newline(&mut t);
    push_line(&mut t, "pub use error::{S3Error, S3ErrorCode};");
    push_line(&mut t, "pub use operations::S3Operation;");
    push_line(&mut t, "pub use request::{Credentials, S3Request, StreamingBlob};");
    push_newline(&mut t);
    t
}

/// The text of `lib.rs`: modules, re-exports and a count of what was
/// generated.
#[verifier::opaque]
pub open spec fn lib_text(m: ResolvedModel) -> Seq<char> {
    lib_head() + ln(
        "// Generated: "@ + decimal(m.operations@.len()) + " operations, "@ + decimal(m.enums@.len())
            + " enums, "@ + decimal(m.shared_structs@.len()) + " shared structs, "@ + decimal(
            m.input_structs@.len(),
        ) + " input structs, "@ + decimal(m.output_structs@.len()) + " output structs"@,
    )
}

/// Generate `lib.rs` that re-exports all modules.
pub fn generate_lib(resolved: &ResolvedModel) -> (r: String)
    ensures
        r@ == lib_text(*resolved),
{
    proof {
        reveal(lib_text);
    }
    let mut t = lib_head_lines();
    let mut l = str_chars("// Generated: ");
    push_decimal(&mut l, resolved.operations.len() as u64);
    push_str_chars(&mut l, " operations, ");
    push_decimal(&mut l, resolved.enums.len() as u64);
    push_str_chars(&mut l, " enums, ");
    push_decimal(&mut l, resolved.shared_structs.len() as u64);
    push_str_chars(&mut l, " shared structs, ");
    push_decimal(&mut l, resolved.input_structs.len() as u64);
    push_str_chars(&mut l, " input structs, ");
    push_decimal(&mut l, resolved.output_structs.len() as u64);
    push_str_chars(&mut l, " output structs");
    push_line_chars(&mut t, &l);
    string_from_chars(&t)
}

// ---------------------------------------------------------------------------
// Type references
// ---------------------------------------------------------------------------

/// `s` with every occurrence of `pat` (found left to right, without
/// overlaps) replaced by `rep`, as `str::replace` does.
pub open spec fn replace_all(s: Seq<char>, pat: Seq<char>, rep: Seq<char>) -> Seq<char>
    recommends
        pat.len() > 0,
    decreases s.len(),
{
    if s.len() == 0 || pat.len() == 0 {
        s
    } else if pat.len() <= s.len() && s.take(pat.len() as int) == pat {
        rep + replace_all(s.skip(pat.len() as int), pat, rep)
    } else {
        seq![s[0]] + replace_all(s.drop_first(), pat, rep)
    }
}

fn replace_all_exec(s: &Vec<char>, pat: &str, rep: &str) -> (r: Vec<char>)
    requires
        pat@.len() > 0,
    ensures
        r@ == replace_all(s@, pat@, rep@),
{
    let p = str_chars(pat);
    let mut out: Vec<char> = Vec::new();
    let mut i: usize = 0;
    assert(s@.skip(0) =~= s@);
    while i < s.len()
        invariant
            i <= s.len(),
            p@ == pat@,
            p@.len() > 0,
            out@ + replace_all(s@.skip(i as int), pat@, rep@) == replace_all(s@, pat@, rep@),
        decreases s.len() - i,
    {
        let ghost rest = s@.skip(i as int);
        let mut matched = p.len() <= s.len() - i;
        let mut k: usize = 0;
        while matched && k < p.len()
            invariant
                p@ == pat@,
                i < s.len(),
                k <= p.len(),
                matched ==> p.len() <= s.len() - i,
                matched ==> forall|q: int| 0 <= q < k ==> s@[i + q] == p@[q],
                !matched ==> !(pat@.len() <= rest.len() && rest.take(pat@.len() as int) == pat@),
                rest == s@.skip(i as int),
            decreases p.len() - k + (if matched {
            1int
        } else {
            0int
        }),
        {
            if s[i + k] != p[k] {
                assert(rest.take(pat@.len() as int)[k as int] != pat@[k as int]);
                matched = false;
            } else {
                k = k + 1;
            }
        }
        if matched {
            assert(rest.take(pat@.len() as int) =~= pat@);
            let ghost before = out@;
            push_str_chars(&mut out, rep);
            assert(rest.skip(pat@.len() as int) =~= s@.skip(i + p.len()));
            assert(out@ + replace_all(s@.skip(i + p.len()), pat@, rep@) =~= before + (rep@
                + replace_all(s@.skip(i + p.len()), pat@, rep@)));
            i = i + p.len();
        } else {
            let ghost before = out@;
            out.push(s[i]);
            assert(rest.drop_first() =~= s@.skip(i + 1));
            assert(out@ + replace_all(s@.skip(i + 1), pat@, rep@) =~= before + (seq![s@[i as int]]
                + replace_all(s@.skip(i + 1), pat@, rep@)));
            i = i + 1;
        }
    }
    assert(s@.skip(s.len() as int) =~= Seq::<char>::empty());
    assert(out@ + Seq::<char>::empty() =~= out@);
    out
}

/// The number of leading characters of `s` that are not white space.
pub open spec fn word_len(s: Seq<char>) -> nat
    decreases s.len(),
{
    if s.len() == 0 || is_white(s[0]) {
        0
    } else {
        1 + word_len(s.drop_first())
    }
}

/// The white-space separated words of `s`, as `str::split_whitespace` gives
/// them.
pub open spec fn words(s: Seq<char>) -> Seq<Seq<char>>
    decreases s.len(),
{
    if s.len() == 0 {
        Seq::empty()
    } else if is_white(s[0]) {
        words(s.drop_first())
    } else {
        let n = word_len(s);
        if 0 < n <= s.len() {
            seq![s.take(n as int)] + words(s.skip(n as int))
        } else {
            Seq::empty()
        }
    }
}

proof fn lemma_word_len(s: Seq<char>)
    ensures
        word_len(s) <= s.len(),
        forall|q: int| 0 <= q < word_len(s) ==> !is_white(#[trigger] s[q]),
        word_len(s) < s.len() ==> is_white(s[word_len(s) as int]),
    decreases s.len(),
{
    if s.len() > 0 && !is_white(s[0]) {
        lemma_word_len(s.drop_first());
        assert forall|q: int| 0 <= q < word_len(s) implies !is_white(#[trigger] s[q]) by {
            if q > 0 {
                assert(s[q] == s.drop_first()[q - 1]);
            }
        }
    }
}

proof fn lemma_word_len_is(s: Seq<char>, n: int)
    requires
        0 <= n <= s.len(),
        forall|q: int| 0 <= q < n ==> !is_white(#[trigger] s[q]),
        n < s.len() ==> is_white(s[n]),
    ensures
        word_len(s) == n,
    decreases n,
{
    if n > 0 {
        assert(s.drop_first().len() == s.len() - 1);
        assert forall|q: int| 0 <= q < n - 1 implies !is_white(#[trigger] s.drop_first()[q]) by {
            assert(s.drop_first()[q] == s[q + 1]);
        }
        if n - 1 < s.drop_first().len() {
            assert(s.drop_first()[n - 1] == s[n]);
        }
        lemma_word_len_is(s.drop_first(), n - 1);
    }
}

/// The words of `s`.
fn words_exec(s: &Vec<char>) -> (r: Vec<Vec<char>>)
    ensures
        r@.map_values(|w: Vec<char>| w@) == words(s@),
{
    let mut out: Vec<Vec<char>> = Vec::new();
    let mut i: usize = 0;
    assert(s@.skip(0) =~= s@);
    assert(out@.map_values(|w: Vec<char>| w@) =~= Seq::<Seq<char>>::empty());
    while i < s.len()
        invariant
            i <= s.len(),
            out@.map_values(|w: Vec<char>| w@) + words(s@.skip(i as int)) == words(s@),
        decreases s.len() - i,
    {
        let ghost rest = s@.skip(i as int);
        let ghost ov = out@.map_values(|w: Vec<char>| w@);
        if is_whitespace_char(s[i]) {
            assert(rest[0] == s@[i as int]);
            assert(rest.drop_first() =~= s@.skip(i + 1));
            i = i + 1;
        } else {
            let mut j: usize = i;
            while j < s.len() && !is_whitespace_char(s[j])
                invariant
                    i <= j <= s.len(),
                    forall|q: int| i <= q < j ==> !is_white(#[trigger] s@[q]),
                decreases s.len() - j,
            {
                j = j + 1;
            }
            proof {
                assert forall|q: int| 0 <= q < j - i implies !is_white(#[trigger] rest[q]) by {
                    assert(rest[q] == s@[i + q]);
                }
                if j < s.len() {
                    assert(rest[j - i] == s@[j as int]);
                }
                lemma_word_len_is(rest, j - i);
                assert(rest[0] == s@[i as int]);
            }
            let w = slice_chars(s, i, j);
            assert(w@ =~= rest.take(j - i));
            assert(rest.skip(j - i) =~= s@.skip(j as int));
            out.push(w);
            assert(out@.map_values(|w: Vec<char>| w@) =~= ov.push(w@));
            assert(ov.push(w@) + words(s@.skip(j as int)) =~= ov + (seq![w@] + words(
                s@.skip(j as int),
            )));
            i = j;
        }
    }
    assert(s@.skip(s.len() as int) =~= Seq::<char>::empty());
    assert(out@.map_values(|w: Vec<char>| w@) + Seq::<Seq<char>>::empty() =~= out@.map_values(
        |w: Vec<char>| w@,
    ));
    out
}

/// Type names that never refer to generated types.
pub open spec fn builtin_type_name(t: Seq<char>) -> bool {
    t == "String"@ || t == "bool"@ || t == "i32"@ || t == "i64"@ || t == "f32"@ || t == "f64"@
        || t == "u8"@ || t == "u16"@ || t == "u32"@ || t == "u64"@ || t == "bytes::Bytes"@
        || t == "chrono::DateTime<chrono::Utc"@ || t == "chrono::DateTime"@ || t
        == "chrono::Utc"@ || t == "serde_json::Value"@ || t == "StreamingBlob"@
}

fn is_builtin_type_name(t: &str) -> (r: bool)
    ensures
        r == builtin_type_name(t@),
{
    str_eq(t, "String") || str_eq(t, "bool") || str_eq(t, "i32") || str_eq(t, "i64") || str_eq(
        t,
        "f32",
    ) || str_eq(t, "f64") || str_eq(t, "u8") || str_eq(t, "u16") || str_eq(t, "u32") || str_eq(
        t,
        "u64",
    ) || str_eq(t, "bytes::Bytes") || str_eq(t, "chrono::DateTime<chrono::Utc") || str_eq(
        t,
        "chrono::DateTime",
    ) || str_eq(t, "chrono::Utc") || str_eq(t, "serde_json::Value") || str_eq(t, "StreamingBlob")
}

/// Whether one of the entries has the key `k`.
pub open spec fn has_key<V>(entries: Seq<(String, V)>, k: Seq<char>) -> bool {
    exists|i: int| 0 <= i < entries.len() && (#[trigger] entries[i]).0@ == k
}

fn contains_key<V>(entries: &Vec<(String, V)>, k: &str) -> (r: bool)
    ensures
        r == has_key(entries@, k@),
{
    let mut i: usize = 0;
    while i < entries.len()
        invariant
            i <= entries.len(),
            forall|q: int| 0 <= q < i ==> (#[trigger] entries@[q]).0@ != k@,
        decreases entries.len() - i,
    {
        if str_eq(entries[i].0.as_str(), k) {
            return true;
        }
        i = i + 1;
    }
    false
}

/// The text of a type expression with its wrappers and punctuation blanked:
/// `Option<`, `Vec<`, `HashMap<`, `Box<`, `>` and `,` become spaces.
pub open spec fn type_skeleton(t: Seq<char>) -> Seq<char> {
    replace_all(
        replace_all(
            replace_all(
                replace_all(
                    replace_all(replace_all(t, "Option<"@, " "@), "Vec<"@, " "@),
                    "HashMap<"@,
                    " "@,
                ),
                "Box<"@,
                " "@,
            ),
            ">"@,
            " "@,
        ),
        ","@,
        " "@,
    )
}

/// Whether a word of a type names a generated enum or shared struct.
pub open spec fn names_model_type(w: Seq<char>, m: ResolvedModel) -> bool {
    !builtin_type_name(w) && (has_key(m.enums@, w) || has_key(m.shared_structs@, w))
}

/// The generated types a type expression refers to, in order of appearance.
pub open spec fn type_refs(t: Seq<char>, m: ResolvedModel) -> Seq<Seq<char>> {
    words(type_skeleton(t)).filter(|w: Seq<char>| names_model_type(w, m))
}

/// Selects the names that do not come before `x`.
pub open spec fn not_before(x: Seq<char>) -> spec_fn(Seq<char>) -> bool {
    |y: Seq<char>| !lex_lt(y, x)
}

/// Adds `x` to an ordered list of names: nothing changes when it is there,
/// else it goes before the first name that does not come before it.
pub open spec fn add_name(names: Seq<Seq<char>>, x: Seq<char>) -> Seq<Seq<char>> {
    let k = first_index(names, not_before(x)) as int;
    if k < names.len() && names[k] == x {
        names
    } else {
        names.insert(k, x)
    }
}

/// Adds the names `xs`, in order.
pub open spec fn add_names(names: Seq<Seq<char>>, xs: Seq<Seq<char>>) -> Seq<Seq<char>>
    decreases xs.len(),
{
    if xs.len() == 0 {
        names
    } else {
        add_name(add_names(names, xs.drop_last()), xs.last())
    }
}

pub(crate) fn add_name_exec(names: &mut Vec<String>, x: &Vec<char>)
    ensures
        texts(final(names)@) == add_name(texts(old(names)@), x@),
{
    let ghost nv = texts(names@);
    let ghost pred = not_before(x@);
    let mut k: usize = 0;
    while k < names.len() && lex_less(&str_chars(names[k].as_str()), x)
        invariant
            k <= names.len(),
            nv == texts(names@),
            pred == not_before(x@),
            forall|q: int| 0 <= q < k ==> !pred(#[trigger] nv[q]),
        decreases names.len() - k,
    {
        k = k + 1;
    }
    proof {
        lemma_first_index_is(nv, pred, k as int);
    }
    if k < names.len() && str_eq(names[k].as_str(), string_from_chars(x).as_str()) {
        return;
    }
    names.insert(k, string_from_chars(x));
    assert(texts(names@) =~= nv.insert(k as int, x@));
}

/// Adds to `refs` the generated types that `rust_type` refers to.
pub fn collect_type_references(rust_type: &str, resolved: &ResolvedModel, refs: &mut Vec<String>)
    ensures
        texts(final(refs)@) == add_names(texts(old(refs)@), type_refs(rust_type@, *resolved)),
{
    proof {
        reveal_strlit("Option<");
        reveal_strlit("Vec<");
        reveal_strlit("HashMap<");
        reveal_strlit("Box<");
        reveal_strlit(">");
        reveal_strlit(",");
    }
    let t = str_chars(rust_type);
    let t = replace_all_exec(&t, "Option<", " ");
    let t = replace_all_exec(&t, "Vec<", " ");
    let t = replace_all_exec(&t, "HashMap<", " ");
    let t = replace_all_exec(&t, "Box<", " ");
    let t = replace_all_exec(&t, ">", " ");
    let t = replace_all_exec(&t, ",", " ");
    let ws = words_exec(&t);
    let ghost wv = ws@.map_values(|w: Vec<char>| w@);
    let ghost keep = |w: Seq<char>| names_model_type(w, *resolved);
    let ghost start = texts(refs@);
    let mut i: usize = 0;
    proof {
        reveal(Seq::filter);
    }
    assert(wv.take(0).filter(keep) =~= Seq::<Seq<char>>::empty());
    while i < ws.len()
        invariant
            i <= ws.len(),
            wv == ws@.map_values(|w: Vec<char>| w@),
            keep == (|w: Seq<char>| names_model_type(w, *resolved)),
            texts(refs@) == add_names(start, wv.take(i as int).filter(keep)),
        decreases ws.len() - i,
    {
        let w = string_from_chars(&ws[i]);
        proof {
            reveal(Seq::filter);
        }
        assert(wv.take(i + 1).drop_last() =~= wv.take(i as int));
        assert(wv.take(i + 1).last() == wv[i as int]);
        if !is_builtin_type_name(w.as_str()) && (contains_key(&resolved.enums, w.as_str())
            || contains_key(&resolved.shared_structs, w.as_str())) {
            let ghost prev = wv.take(i as int).filter(keep);
            assert(prev.push(wv[i as int]).drop_last() =~= prev);
            assert(ws@[i as int]@ == wv[i as int]);
            add_name_exec(refs, &ws[i]);
            assert(wv.take(i + 1).filter(keep) =~= wv.take(i as int).filter(keep).push(wv[i as int]));
        } else {
            assert(wv.take(i + 1).filter(keep) =~= wv.take(i as int).filter(keep));
        }
        i = i + 1;
    }
    assert(wv.take(ws.len() as int) =~= wv);
}

// ---------------------------------------------------------------------------
// Input and output modules
// ---------------------------------------------------------------------------

/// The generated types that the fields refer to, in order of appearance.
pub open spec fn fields_refs(fields: Seq<FieldInfo>, m: ResolvedModel) -> Seq<Seq<char>>
    decreases fields.len(),
{
    if fields.len() == 0 {
        Seq::empty()
    } else {
        fields_refs(fields.drop_last(), m) + type_refs(fields.last().rust_type@, m)
    }
}

/// The generated types that the structs' fields refer to, in order.
pub open spec fn structs_refs(structs: Seq<(String, Vec<FieldInfo>)>, m: ResolvedModel) -> Seq<
    Seq<char>,
>
    decreases structs.len(),
{
    if structs.len() == 0 {
        Seq::empty()
    } else {
        structs_refs(structs.drop_last(), m) + fields_refs(structs.last().1@, m)
    }
}

/// The generated types that the structs refer to, ordered by name, each once.
pub open spec fn needed_types(structs: Seq<(String, Vec<FieldInfo>)>, m: ResolvedModel) -> Seq<
    Seq<char>,
> {
    add_names(Seq::empty(), structs_refs(structs, m))
}

/// Adding two lists of names one after the other is adding their
/// concatenation.
pub proof fn lemma_add_names_concat(s: Seq<Seq<char>>, a: Seq<Seq<char>>, b: Seq<Seq<char>>)
    ensures
        add_names(add_names(s, a), b) == add_names(s, a + b),
    decreases b.len(),
{
    if b.len() == 0 {
        assert(a + b =~= a);
    } else {
        lemma_add_names_concat(s, a, b.drop_last());
        assert((a + b).drop_last() =~= a + b.drop_last());
        assert((a + b).last() == b.last());
    }
}

/// The entries of a list of (name, struct) references.
pub open spec fn derefs(v: Seq<(&String, &Vec<FieldInfo>)>) -> Seq<(String, Vec<FieldInfo>)> {
    v.map_values(|p: (&String, &Vec<FieldInfo>)| (*p.0, *p.1))
}

/// Determine which generated types the structs of a category refer to,
/// ordered by name.
pub fn category_needs_types(structs: &[(&String, &Vec<FieldInfo>)], resolved: &ResolvedModel) -> (r:
    Vec<String>)
    ensures
        texts(r@) == needed_types(derefs(structs@), *resolved),
{
    let ghost sv = derefs(structs@);
    let mut needed: Vec<String> = Vec::new();
    assert(texts(needed@) =~= Seq::<Seq<char>>::empty());
    let mut i: usize = 0;
    while i < structs.len()
        invariant
            i <= structs.len(),
            sv == derefs(structs@),
            texts(needed@) == add_names(Seq::empty(), structs_refs(sv.take(i as int), *resolved)),
        decreases structs.len() - i,
    {
        let fields = structs[i].1;
        let ghost before = structs_refs(sv.take(i as int), *resolved);
        let mut j: usize = 0;
        assert(fields@.take(0) =~= Seq::<FieldInfo>::empty());
        assert(before + fields_refs(fields@.take(0), *resolved) =~= before);
        while j < fields.len()
            invariant
                j <= fields.len(),
                texts(needed@) == add_names(
                    Seq::empty(),
                    before + fields_refs(fields@.take(j as int), *resolved),
                ),
            decreases fields.len() - j,
        {
            let ghost prev = texts(needed@);
            collect_type_references(fields[j].rust_type.as_str(), resolved, &mut needed);
            proof {
                let a = before + fields_refs(fields@.take(j as int), *resolved);
                let b = type_refs(fields@[j as int].rust_type@, *resolved);
                lemma_add_names_concat(Seq::empty(), a, b);
                assert(fields@.take(j + 1).drop_last() =~= fields@.take(j as int));
                assert(a + b =~= before + fields_refs(fields@.take(j + 1), *resolved));
            }
            j = j + 1;
        }
        proof {
            assert(fields@.take(fields.len() as int) =~= fields@);
            assert(sv.take(i + 1).drop_last() =~= sv.take(i as int));
            assert(sv.take(i + 1).last() == sv[i as int]);
        }
        i = i + 1;
    }
    assert(sv.take(structs.len() as int) =~= sv);
    needed
}

/// Whether a field type of one of the referenced structs mentions `pat`.
fn ref_structs_mention(structs: &[(&String, &Vec<FieldInfo>)], pat: &str) -> (r: bool)
    ensures
        r == structs_mention(derefs(structs@), pat@),
{
    let ghost sv = derefs(structs@);
    let p = str_chars(pat);
    let mut i: usize = 0;
    while i < structs.len()
        invariant
            i <= structs.len(),
            sv == derefs(structs@),
            p@ == pat@,
            forall|q: int| 0 <= q < i ==> !fields_mention((#[trigger] sv[q]).1@, pat@),
        decreases structs.len() - i,
    {
        if fields_mention_exec(structs[i].1, &p) {
            assert(fields_mention(sv[i as int].1@, pat@));
            return true;
        }
        i = i + 1;
    }
    false
}

fn ref_structs_text(structs: &[(&String, &Vec<FieldInfo>)], http_comments: bool) -> (r: Vec<char>)
    ensures
        r@ == each(derefs(structs@), struct_item_fn(http_comments)),
{
    let ghost sv = derefs(structs@);
    let ghost f = struct_item_fn(http_comments);
    let mut b: Vec<char> = Vec::new();
    proof {
        lemma_each_all(sv, f);
    }
    let mut i: usize = 0;
    while i < structs.len()
        invariant
            i <= structs.len(),
            sv == derefs(structs@),
            f == struct_item_fn(http_comments),
            b@ == each(sv.take(i as int), f),
        decreases structs.len() - i,
    {
        write_struct(&mut b, structs[i].0.as_str(), structs[i].1, http_comments);
        proof {
            lemma_each_step(sv, f, i as int);
        }
        i = i + 1;
    }
    proof {
        lemma_each_all(sv, f);
    }
    b
}

/// The part of a shape ID after its last `#` (the whole ID when it has none).
pub open spec fn short_name_of(id: Seq<char>) -> Seq<char>
    decreases id.len(),
{
    if id.len() == 0 {
        id
    } else if id.last() == '#' {
        Seq::empty()
    } else {
        short_name_of(id.drop_last()).push(id.last())
    }
}

/// The short name of a shape ID: the part after its last `#`.
pub fn short_name(shape_id: &str) -> (r: String)
    ensures
        r@ == short_name_of(shape_id@),
{
    let s = str_chars(shape_id);
    let mut k: usize = s.len();
    proof {
        assert(s@.take(s.len() as int) =~= s@);
        assert(s@.skip(s.len() as int) =~= Seq::<char>::empty());
        assert(short_name_of(s@) + Seq::<char>::empty() =~= short_name_of(s@));
    }
    while k > 0 && s[k - 1] != '#'
        invariant
            k <= s.len(),
            short_name_of(s@) == short_name_of(s@.take(k as int)) + s@.skip(k as int),
        decreases k,
    {
        proof {
            let t = s@.take(k as int);
            assert(t.drop_last() =~= s@.take(k - 1));
            assert(t.last() == s@[k - 1]);
            let x = short_name_of(s@.take(k - 1));
            assert(x.push(s@[k - 1]) + s@.skip(k as int) =~= x + s@.skip(k - 1));
        }
        k = k - 1;
    }
    let tail = slice_chars(&s, k, s.len());
    proof {
        assert(tail@ =~= s@.skip(k as int));
        if k > 0 {
            assert(s@.take(k as int).last() == '#');
        }
        assert(short_name_of(s@.take(k as int)) =~= Seq::<char>::empty());
        assert(Seq::<char>::empty() + tail@ =~= tail@);
    }
    string_from_chars(&tail)
}

/// Selects the operations with the given name.
pub open spec fn op_named(name: Seq<char>) -> spec_fn(crate::codegen_shapes::OperationInfo) -> bool {
    |o: crate::codegen_shapes::OperationInfo| o.name@ == name
}

/// The struct name for an input shape: `...Request` becomes `...Input`.
pub open spec fn input_struct_name(short: Seq<char>) -> Seq<char> {
    if short.len() >= 7 && short.skip(short.len() - 7) == "Request"@ {
        short.take(short.len() - 7) + "Input"@
    } else {
        short
    }
}

/// The struct of an operation's input (`kind` is `input`) or output shape,
/// when the operation is known, has such a shape, and its struct is in
/// `structs`.
pub open spec fn op_struct_name(
    op_name: Seq<char>,
    kind: Seq<char>,
    m: ResolvedModel,
    structs: Seq<(String, Vec<FieldInfo>)>,
) -> Option<Seq<char>> {
    let i = first_index(m.operations@, op_named(op_name)) as int;
    if i < m.operations@.len() {
        let info = m.operations@[i];
        let sid = if kind == "input"@ {
            info.input_shape
        } else {
            info.output_shape
        };
        match sid {
            Some(id) => {
                let short = short_name_of(id@);
                let name = if kind == "input"@ {
                    input_struct_name(short)
                } else {
                    short
                };
                if has_key(structs, name) {
                    Some(name)
                } else {
                    None
                }
            },
            None => None,
        }
    } else {
        None
    }
}

/// The struct names of a category's operations, in operation order.
pub open spec fn category_candidates(
    ops: Seq<String>,
    kind: Seq<char>,
    m: ResolvedModel,
    structs: Seq<(String, Vec<FieldInfo>)>,
) -> Seq<Seq<char>>
    decreases ops.len(),
{
    if ops.len() == 0 {
        Seq::empty()
    } else {
        let prev = category_candidates(ops.drop_last(), kind, m, structs);
        match op_struct_name(ops.last()@, kind, m, structs) {
            Some(n) => prev.push(n),
            None => prev,
        }
    }
}

/// Selects the entries with the given key.
pub open spec fn keyed_struct(name: Seq<char>) -> spec_fn((String, Vec<FieldInfo>)) -> bool {
    |e: (String, Vec<FieldInfo>)| e.0@ == name
}

/// The entries of the named structs (the first entry of each name).
pub open spec fn named_entries(structs: Seq<(String, Vec<FieldInfo>)>, names: Seq<Seq<char>>) -> Seq<
    (String, Vec<FieldInfo>),
> {
    names.map_values(
        |n: Seq<char>| structs[first_index(structs, keyed_struct(n)) as int],
    )
}

/// The structs of a category, ordered by name, each once.
pub open spec fn category_structs(
    ops: Seq<String>,
    kind: Seq<char>,
    m: ResolvedModel,
    structs: Seq<(String, Vec<FieldInfo>)>,
) -> Seq<(String, Vec<FieldInfo>)> {
    named_entries(structs, add_names(Seq::empty(), category_candidates(ops, kind, m, structs)))
}

/// Names joined by `, `.
pub open spec fn comma_joined(names: Seq<Seq<char>>) -> Seq<char> {
    each(names, |i: int, n: Seq<char>| when(i > 0, ", "@) + n)
}

/// The text of a category's module: the imports its structs need, then the
/// structs with their HTTP binding comments.
pub open spec fn category_text(
    kind: Seq<char>,
    ops: Seq<String>,
    structs: Seq<(String, Vec<FieldInfo>)>,
    m: ResolvedModel,
) -> Seq<char> {
    let cs = category_structs(ops, kind, m, structs);
    let needed = needed_types(cs, m);
    ln(FILE_HEADER@) + "\n"@ + when(
        structs_mention(cs, "HashMap"@),
        ln("use std::collections::HashMap;"@) + "\n"@,
    ) + when(
        structs_mention(cs, "StreamingBlob"@),
        ln("use crate::request::StreamingBlob;"@) + "\n"@,
    ) + when(
        needed.len() > 0,
        ln("use crate::types::{"@ + comma_joined(needed) + "};"@) + "\n"@,
    ) + each(cs, struct_item_fn(true))
}

/// The text of a kind's `mod.rs`: a module and a re-export per category.
pub open spec fn mod_text(cats: Seq<(String, Vec<String>)>) -> Seq<char> {
    ln(FILE_HEADER@) + "\n"@ + each(
        cats,
        |i: int, c: (String, Vec<String>)| ln("mod "@ + c.0@ + ";"@),
    ) + "\n"@ + each(cats, |i: int, c: (String, Vec<String>)| ln("pub use "@ + c.0@ + "::*;"@))
}

/// Every name that adding names gives was there before or was added.
pub proof fn lemma_add_names_members(s: Seq<Seq<char>>, xs: Seq<Seq<char>>, y: Seq<char>)
    requires
        add_names(s, xs).contains(y),
    ensures
        s.contains(y) || xs.contains(y),
    decreases xs.len(),
{
    if xs.len() > 0 {
        let prev = add_names(s, xs.drop_last());
        let x = xs.last();
        let k = first_index(prev, not_before(x)) as int;
        lemma_first_index_props(prev, not_before(x));
        if prev.contains(y) {
            lemma_add_names_members(s, xs.drop_last(), y);
            if xs.drop_last().contains(y) {
                let j = choose|j: int| 0 <= j < xs.drop_last().len() && xs.drop_last()[j] == y;
                assert(xs[j] == y);
            }
        } else {
            let r = add_name(prev, x);
            let j = choose|j: int| 0 <= j < r.len() && r[j] == y;
            if !(k < prev.len() && prev[k] == x) {
                if j < k {
                    assert(prev[j] == y);
                } else if j > k {
                    assert(prev[j - 1] == y);
                }
            } else {
                assert(prev[j] == y);
            }
            assert(xs[xs.len() - 1] == x);
        }
    }
}

/// Every candidate struct name of a category is a key of `structs`.
proof fn lemma_candidates_are_keys(
    ops: Seq<String>,
    kind: Seq<char>,
    m: ResolvedModel,
    structs: Seq<(String, Vec<FieldInfo>)>,
    y: Seq<char>,
)
    requires
        category_candidates(ops, kind, m, structs).contains(y),
    ensures
        has_key(structs, y),
    decreases ops.len(),
{
    if ops.len() > 0 {
        let prev = category_candidates(ops.drop_last(), kind, m, structs);
        if prev.contains(y) {
            lemma_candidates_are_keys(ops.drop_last(), kind, m, structs, y);
        } else {
            let c = category_candidates(ops, kind, m, structs);
            let j = choose|j: int| 0 <= j < c.len() && c[j] == y;
            match op_struct_name(ops.last()@, kind, m, structs) {
                Some(n) => {
                    if j < prev.len() {
                        assert(prev[j] == y);
                    }
                },
                None => {
                    assert(prev[j] == y);
                },
            }
        }
    }
}

fn ends_with_request(s: &Vec<char>) -> (r: bool)
    ensures
        r == (s@.len() >= 7 && s@.skip(s@.len() - 7) == "Request"@),
{
    proof {
        reveal_strlit("Request");
    }
    if s.len() < 7 {
        return false;
    }
    let tail = slice_chars(s, s.len() - 7, s.len());
    assert(tail@ =~= s@.skip(s@.len() - 7));
    str_eq(string_from_chars(&tail).as_str(), "Request")
}

/// The struct of an operation's input or output shape, when there is one.
fn op_struct_name_exec(
    op_name: &str,
    kind: &str,
    resolved: &ResolvedModel,
    structs: &Vec<(String, Vec<FieldInfo>)>,
) -> (r: Option<String>)
    ensures
        match r {
            Some(n) => op_struct_name(op_name@, kind@, *resolved, structs@) == Some(n@),
            None => op_struct_name(op_name@, kind@, *resolved, structs@) is None,
        },
{
    let ops = &resolved.operations;
    let ghost pred = op_named(op_name@);
    let mut i: usize = 0;
    while i < ops.len() && !str_eq(ops[i].name.as_str(), op_name)
        invariant
            i <= ops.len(),
            pred == op_named(op_name@),
            forall|q: int| 0 <= q < i ==> !pred(#[trigger] ops@[q]),
        decreases ops.len() - i,
    {
        i = i + 1;
    }
    proof {
        lemma_first_index_is(ops@, pred, i as int);
    }
    if i >= ops.len() {
        return None;
    }
    let is_input = str_eq(kind, "input");
    let sid = if is_input {
        &ops[i].input_shape
    } else {
        &ops[i].output_shape
    };
    match sid {
        Some(id) => {
            let short = short_name(id.as_str());
            let name = if is_input {
                let cs = str_chars(short.as_str());
                if ends_with_request(&cs) {
                    let mut base = slice_chars(&cs, 0, cs.len() - 7);
                    assert(base@ =~= short@.take(short@.len() - 7));
                    push_str_chars(&mut base, "Input");
                    string_from_chars(&base)
                } else {
                    short
                }
            } else {
                short
            };
            if contains_key(structs, name.as_str()) {
                Some(name)
            } else {
                None
            }
        },
        None => None,
    }
}

/// The first entry with the given key; it is there.
fn find_struct(structs: &Vec<(String, Vec<FieldInfo>)>, name: &str) -> (r: usize)
    requires
        has_key(structs@, name@),
    ensures
        r == first_index(structs@, keyed_struct(name@)),
        r < structs@.len(),
{
    let ghost pred = keyed_struct(name@);
    let mut i: usize = 0;
    while i < structs.len() && !str_eq(structs[i].0.as_str(), name)
        invariant
            i <= structs.len(),
            pred == keyed_struct(name@),
            forall|q: int| 0 <= q < i ==> !pred(#[trigger] structs@[q]),
        decreases structs.len() - i,
    {
        i = i + 1;
    }
    proof {
        lemma_first_index_is(structs@, pred, i as int);
        if i == structs.len() {
            let j = choose|j: int| 0 <= j < structs@.len() && (#[trigger] structs@[j]).0@ == name@;
            assert(pred(structs@[j]));
        }
    }
    i
}

fn comma_joined_exec(names: &Vec<String>) -> (r: Vec<char>)
    ensures
        r@ == comma_joined(texts(names@)),
{
    let ghost nv = texts(names@);
    let ghost f = |i: int, n: Seq<char>| when(i > 0, ", "@) + n;
    let mut b: Vec<char> = Vec::new();
    proof {
        lemma_each_all(nv, f);
    }
    let mut i: usize = 0;
    while i < names.len()
        invariant
            i <= names.len(),
            nv == texts(names@),
            f == (|i: int, n: Seq<char>| when(i > 0, ", "@) + n),
            b@ == each(nv.take(i as int), f),
        decreases names.len() - i,
    {
        let mut item: Vec<char> = Vec::new();
        if i > 0 {
            push_str_chars(&mut item, ", ");
        }
        assert(item@ =~= when(i > 0, ", "@));
        push_str_chars(&mut item, names[i].as_str());
        push_all(&mut b, &item);
        proof {
            lemma_each_step(nv, f, i as int);
        }
        i = i + 1;
    }
    proof {
        lemma_each_all(nv, f);
    }
    b
}

/// The text of a category's module.
fn category_file(
    kind: &str,
    ops: &Vec<String>,
    structs: &Vec<(String, Vec<FieldInfo>)>,
    resolved: &ResolvedModel,
) -> (r: Vec<char>)
    ensures
        r@ == category_text(kind@, ops@, structs@, *resolved),
{
    let ghost cands = category_candidates(ops@, kind@, *resolved, structs@);
    let mut names: Vec<String> = Vec::new();
    let mut j: usize = 0;
    assert(texts(names@) =~= Seq::<Seq<char>>::empty());
    while j < ops.len()
        invariant
            j <= ops.len(),
            cands == category_candidates(ops@, kind@, *resolved, structs@),
            texts(names@) == add_names(
                Seq::empty(),
                category_candidates(ops@.take(j as int), kind@, *resolved, structs@),
            ),
        decreases ops.len() - j,
    {
        assert(ops@.take(j + 1).drop_last() =~= ops@.take(j as int));
        assert(ops@.take(j + 1).last() == ops@[j as int]);
        match op_struct_name_exec(ops[j].as_str(), kind, resolved, structs) {
            Some(n) => {
                let ghost prev = category_candidates(ops@.take(j as int), kind@, *resolved, structs@);
                assert(prev.push(n@).drop_last() =~= prev);
                add_name_exec(&mut names, &str_chars(n.as_str()));
            },
            None => {},
        }
        j = j + 1;
    }
    assert(ops@.take(ops.len() as int) =~= ops@);
    let ghost nv = texts(names@);
    let mut cs: Vec<(&String, &Vec<FieldInfo>)> = Vec::new();
    let mut i: usize = 0;
    while i < names.len()
        invariant
            i <= names.len(),
            nv == texts(names@),
            nv == add_names(Seq::empty(), cands),
            cands == category_candidates(ops@, kind@, *resolved, structs@),
            derefs(cs@) == named_entries(structs@, nv.take(i as int)),
        decreases names.len() - i,
    {
        proof {
            assert(nv.contains(nv[i as int]));
            lemma_add_names_members(Seq::empty(), cands, nv[i as int]);
            lemma_candidates_are_keys(ops@, kind@, *resolved, structs@, nv[i as int]);
        }
        let k = find_struct(structs, names[i].as_str());
        let ghost before = derefs(cs@);
        cs.push((&structs[k].0, &structs[k].1));
        proof {
            let e = structs@[k as int];
            assert(names@[i as int]@ == nv[i as int]);
            assert((e.0, e.1) == e);
            assert(derefs(cs@) =~= before.push(e));
            assert(named_entries(structs@, nv.take(i + 1)) =~= named_entries(structs@, nv.take(i as int)).push(e));
        }
        i = i + 1;
    }
    assert(nv.take(names.len() as int) =~= nv);
    let mut t = line(FILE_HEADER);
    push_newline(&mut t);
    let needs_hashmap = ref_structs_mention(&cs, "HashMap");
    let imp = optional_import(needs_hashmap, "use std::collections::HashMap;");
    push_all(&mut t, &imp);
    let needs_blob = ref_structs_mention(&cs, "StreamingBlob");
    let imp = optional_import(needs_blob, "use crate::request::StreamingBlob;");
    push_all(&mut t, &imp);
    let needed = category_needs_types(&cs, resolved);
    let mut imp: Vec<char> = Vec::new();
    if needed.len() > 0 {
        let mut l = str_chars("use crate::types::{");
        let joined = comma_joined_exec(&needed);
        push_all(&mut l, &joined);
        push_str_chars(&mut l, "};");
        push_line_chars(&mut imp, &l);
        push_newline(&mut imp);
    }
    assert(imp@ =~= when(
        texts(needed@).len() > 0,
        ln("use crate::types::{"@ + comma_joined(texts(needed@)) + "};"@) + "\n"@,
    ));
    push_all(&mut t, &imp);
    let b = ref_structs_text(&cs, true);
    push_all(&mut t, &b);
    t
}

/// The text of a kind's `mod.rs`.
fn mod_file(cats: &Vec<(String, Vec<String>)>) -> (r: Vec<char>)
    ensures
        r@ == mod_text(cats@),
{
    let ghost f = |i: int, c: (String, Vec<String>)| ln("mod "@ + c.0@ + ";"@);
    let ghost g = |i: int, c: (String, Vec<String>)| ln("pub use "@ + c.0@ + "::*;"@);
    let mut a: Vec<char> = Vec::new();
    let mut b: Vec<char> = Vec::new();
    proof {
        lemma_each_all(cats@, f);
        lemma_each_all(cats@, g);
    }
    let mut i: usize = 0;
    while i < cats.len()
        invariant
            i <= cats.len(),
            f == (|i: int, c: (String, Vec<String>)| ln("mod "@ + c.0@ + ";"@)),
            g == (|i: int, c: (String, Vec<String>)| ln("pub use "@ + c.0@ + "::*;"@)),
            a@ == each(cats@.take(i as int), f),
            b@ == each(cats@.take(i as int), g),
        decreases cats.len() - i,
    {
        let mut l = str_chars("mod ");
        push_str_chars(&mut l, cats[i].0.as_str());
        push_str_chars(&mut l, ";");
        push_line_chars(&mut a, &l);
        let mut l = str_chars("pub use ");
        push_str_chars(&mut l, cats[i].0.as_str());
        push_str_chars(&mut l, "::*;");
        push_line_chars(&mut b, &l);
        proof {
            lemma_each_step(cats@, f, i as int);
            lemma_each_step(cats@, g, i as int);
        }
        i = i + 1;
    }
    proof {
        lemma_each_all(cats@, f);
        lemma_each_all(cats@, g);
    }
    let mut t = line(FILE_HEADER);
    push_newline(&mut t);
    push_all(&mut t, &a);
    push_newline(&mut t);
    push_all(&mut t, &b);
    t
}

// ---------------------------------------------------------------------------
// Files
// ---------------------------------------------------------------------------

/// The files as (path, text) pairs.
pub open spec fn files_view(v: Seq<(String, String)>) -> Seq<(Seq<char>, Seq<char>)> {
    v.map_values(|e: (String, String)| (e.0@, e.1@))
}

/// Selects the files whose path does not come before `p`.
pub open spec fn path_not_before(p: Seq<char>) -> spec_fn((Seq<char>, Seq<char>)) -> bool {
    |e: (Seq<char>, Seq<char>)| !lex_lt(e.0, p)
}

/// Stores a file in a path-ordered file list: the text of an existing path
/// is replaced, a new path goes before the first path that does not come
/// before it.
pub open spec fn file_put(fs: Seq<(Seq<char>, Seq<char>)>, path: Seq<char>, text: Seq<char>) -> Seq<
    (Seq<char>, Seq<char>),
> {
    let k = first_index(fs, path_not_before(path)) as int;
    if k < fs.len() && fs[k].0 == path {
        fs.update(k, (path, text))
    } else {
        fs.insert(k, (path, text))
    }
}

/// Stores a file.
pub fn put_file(files: &mut Vec<(String, String)>, path: String, text: String)
    ensures
        files_view(final(files)@) == file_put(files_view(old(files)@), path@, text@),
{
    let ghost fv = files_view(files@);
    let ghost pred = path_not_before(path@);
    let p = str_chars(path.as_str());
    let mut k: usize = 0;
    while k < files.len() && lex_less(&str_chars(files[k].0.as_str()), &p)
        invariant
            k <= files.len(),
            p@ == path@,
            fv == files_view(files@),
            pred == path_not_before(path@),
            forall|q: int| 0 <= q < k ==> !pred(#[trigger] fv[q]),
        decreases files.len() - k,
    {
        k = k + 1;
    }
    proof {
        lemma_first_index_is(fv, pred, k as int);
    }
    if k < files.len() && str_eq(files[k].0.as_str(), path.as_str()) {
        files.remove(k);
        files.insert(k, (path, text));
        assert(files_view(files@) =~= fv.update(k as int, (path@, text@)));
    } else {
        files.insert(k, (path, text));
        assert(files_view(files@) =~= fv.insert(k as int, (path@, text@)));
    }
}

/// Stores the module of each category, in category order.
pub open spec fn category_files(
    fs: Seq<(Seq<char>, Seq<char>)>,
    kind: Seq<char>,
    cats: Seq<(String, Vec<String>)>,
    structs: Seq<(String, Vec<FieldInfo>)>,
    m: ResolvedModel,
) -> Seq<(Seq<char>, Seq<char>)>
    decreases cats.len(),
{
    if cats.len() == 0 {
        fs
    } else {
        file_put(
            category_files(fs, kind, cats.drop_last(), structs, m),
            kind + "/"@ + cats.last().0@ + ".rs"@,
            category_text(kind, cats.last().1@, structs, m),
        )
    }
}

/// Stores the input or output modules: `{kind}/mod.rs`, then one file per
/// category.
pub open spec fn io_files(
    fs: Seq<(Seq<char>, Seq<char>)>,
    kind: Seq<char>,
    cats: Seq<(String, Vec<String>)>,
    structs: Seq<(String, Vec<FieldInfo>)>,
    m: ResolvedModel,
) -> Seq<(Seq<char>, Seq<char>)> {
    category_files(file_put(fs, kind + "/mod.rs"@, mod_text(cats)), kind, cats, structs, m)
}

/// Generate the input or output module files.
pub fn generate_io_modules(
    files: &mut Vec<(String, String)>,
    kind: &str,
    categories: &Vec<(String, Vec<String>)>,
    structs: &Vec<(String, Vec<FieldInfo>)>,
    resolved: &ResolvedModel,
)
    ensures
        files_view(final(files)@) == io_files(
            files_view(old(files)@),
            kind@,
            categories@,
            structs@,
            *resolved,
        ),
{
    let mut p = str_chars(kind);
    push_str_chars(&mut p, "/mod.rs");
    let m = mod_file(categories);
    put_file(files, string_from_chars(&p), string_from_chars(&m));
    let ghost start = files_view(files@);
    let mut i: usize = 0;
    assert(categories@.take(0) =~= Seq::<(String, Vec<String>)>::empty());
    while i < categories.len()
        invariant
            i <= categories.len(),
            files_view(files@) == category_files(
                start,
                kind@,
                categories@.take(i as int),
                structs@,
                *resolved,
            ),
        decreases categories.len() - i,
    {
        let text = category_file(kind, &categories[i].1, structs, resolved);
        let mut p = str_chars(kind);
        push_str_chars(&mut p, "/");
        push_str_chars(&mut p, categories[i].0.as_str());
        push_str_chars(&mut p, ".rs");
        put_file(files, string_from_chars(&p), string_from_chars(&text));
        assert(categories@.take(i + 1).drop_last() =~= categories@.take(i as int));
        assert(categories@.take(i + 1).last() == categories@[i as int]);
        i = i + 1;
    }
    assert(categories@.take(categories.len() as int) =~= categories@);
}

/// All generated files, by path.
pub open spec fn all_files(m: ResolvedModel) -> Seq<(Seq<char>, Seq<char>)> {
    let fs = file_put(
        file_put(
            file_put(
                file_put(
                    file_put(Seq::empty(), "types.rs"@, types_text(m)),
                    "operations.rs"@,
                    operations_text(),
                ),
                "error.rs"@,
                error_text(),
            ),
            "request.rs"@,
            request_text(),
        ),
        "lib.rs"@,
        lib_text(m),
    );
    io_files(
        io_files(fs, "input"@, m.input_categories@, m.input_structs@, m),
        "output"@,
        m.output_categories@,
        m.output_structs@,
        m,
    )
}

/// Generate all source files: (path, content) pairs in path order.
pub fn generate_all(resolved: &ResolvedModel) -> (r: Vec<(String, String)>)
    ensures
        files_view(r@) == all_files(*resolved),
{
    let mut files: Vec<(String, String)> = Vec::new();
    assert(files_view(files@) =~= Seq::<(Seq<char>, Seq<char>)>::empty());
    put_file(&mut files, String::from_str("types.rs"), generate_types(resolved));
    put_file(&mut files, String::from_str("operations.rs"), generate_operations());
    put_file(&mut files, String::from_str("error.rs"), generate_error());
    put_file(&mut files, String::from_str("request.rs"), generate_request());
    put_file(&mut files, String::from_str("lib.rs"), generate_lib(resolved));
    generate_io_modules(
        &mut files,
        "input",
        &resolved.input_categories,
        &resolved.input_structs,
        resolved,
    );
    generate_io_modules(
        &mut files,
        "output",
        &resolved.output_categories,
        &resolved.output_structs,
        resolved,
    );
    files
}

// ---------------------------------------------------------------------------
// Laws
// ---------------------------------------------------------------------------

/// The names are in strictly increasing lexicographic order.
pub open spec fn strictly_sorted(s: Seq<Seq<char>>) -> bool {
    forall|i: int, j: int| 0 <= i < j < s.len() ==> lex_lt(#[trigger] s[i], #[trigger] s[j])
}

/// Adding a name to a strictly sorted list keeps it strictly sorted and adds
/// exactly that name: the list stays the sorted, duplicate-free set of what
/// was added.
pub proof fn lemma_add_name_sorted(names: Seq<Seq<char>>, x: Seq<char>)
    requires
        strictly_sorted(names),
    ensures
        strictly_sorted(add_name(names, x)),
        add_name(names, x).to_set() == names.to_set().insert(x),
{
    let k = first_index(names, not_before(x)) as int;
    lemma_first_index_props(names, not_before(x));
    let r = add_name(names, x);
    if k < names.len() && names[k] == x {
        assert(names.to_set().insert(x) =~= names.to_set());
    } else {
        if k < names.len() {
            lemma_lex_total(names[k], x);
        }
        assert forall|i: int, j: int| 0 <= i < j < r.len() implies lex_lt(#[trigger] r[i], #[trigger] r[j]) by {
            if j < k {
                assert(r[i] == names[i] && r[j] == names[j]);
            } else if j == k {
                assert(r[j] == x && r[i] == names[i]);
            } else if i == k {
                assert(r[i] == x && r[j] == names[j - 1]);
                if j - 1 > k {
                    lemma_lex_transitive(x, names[k], names[j - 1]);
                }
            } else if i < k {
                assert(r[i] == names[i] && r[j] == names[j - 1]);
                if j - 1 >= k {
                    assert(lex_lt(names[i], x));
                    if j - 1 == k {
                        lemma_lex_transitive(names[i], x, names[k]);
                    } else {
                        lemma_lex_transitive(names[i], names[k], names[j - 1]);
                    }
                }
            } else {
                assert(r[i] == names[i - 1] && r[j] == names[j - 1]);
            }
        }
        assert forall|y: Seq<char>| #[trigger] r.to_set().contains(y) <==> names.to_set().insert(
            x,
        ).contains(y) by {
            if r.to_set().contains(y) {
                let j = choose|j: int| 0 <= j < r.len() && r[j] == y;
                if j < k {
                    assert(names[j] == y);
                } else if j > k {
                    assert(names[j - 1] == y);
                }
            }
            if names.to_set().contains(y) {
                let j = choose|j: int| 0 <= j < names.len() && names[j] == y;
                if j < k {
                    assert(r[j] == y);
                } else {
                    assert(r[j + 1] == y);
                }
            }
            if y == x {
                assert(r[k] == x);
            }
        }
        assert(r.to_set() =~= names.to_set().insert(x));
    }
}

/// Adding names one by one to a strictly sorted list gives the strictly
/// sorted list of the union: the sorted, de-duplicated names.
pub proof fn lemma_add_names_sorted(names: Seq<Seq<char>>, xs: Seq<Seq<char>>)
    requires
        strictly_sorted(names),
    ensures
        strictly_sorted(add_names(names, xs)),
        add_names(names, xs).to_set() == names.to_set() + xs.to_set(),
    decreases xs.len(),
{
    if xs.len() == 0 {
        assert(names.to_set() + xs.to_set() =~= names.to_set());
    } else {
        lemma_add_names_sorted(names, xs.drop_last());
        lemma_add_name_sorted(add_names(names, xs.drop_last()), xs.last());
        assert forall|y: Seq<char>| #[trigger] xs.to_set().contains(y) <==> xs.drop_last().to_set().insert(
            xs.last(),
        ).contains(y) by {
            if xs.to_set().contains(y) && y != xs.last() {
                let j = choose|j: int| 0 <= j < xs.len() && xs[j] == y;
                assert(j < xs.len() - 1);
                assert(xs.drop_last()[j] == y);
            }
            if xs.drop_last().to_set().contains(y) {
                let j = choose|j: int| 0 <= j < xs.drop_last().len() && xs.drop_last()[j] == y;
                assert(xs[j] == y);
            }
            if y == xs.last() {
                assert(xs[xs.len() - 1] == y);
            }
        }
        assert(add_names(names, xs).to_set() =~= names.to_set() + xs.to_set());
    }
}

/// Selects the files with the given path.
pub open spec fn path_is(p: Seq<char>) -> spec_fn((Seq<char>, Seq<char>)) -> bool {
    |e: (Seq<char>, Seq<char>)| e.0 == p
}

/// The text stored under a path, if any.
pub open spec fn file_at(fs: Seq<(Seq<char>, Seq<char>)>, p: Seq<char>) -> Option<Seq<char>> {
    let i = first_index(fs, path_is(p)) as int;
    if i < fs.len() {
        Some(fs[i].1)
    } else {
        None
    }
}

/// The paths are in strictly increasing order.
pub open spec fn paths_sorted(fs: Seq<(Seq<char>, Seq<char>)>) -> bool {
    forall|i: int, j: int| 0 <= i < j < fs.len() ==> lex_lt((#[trigger] fs[i]).0, (#[trigger] fs[j]).0)
}

/// Storing a file: reading its path gives the text stored, reading any other
/// path gives what it gave before, and the paths stay in strictly
/// increasing order.
pub proof fn lemma_file_put(fs: Seq<(Seq<char>, Seq<char>)>, p: Seq<char>, t: Seq<char>, q: Seq<char>)
    requires
        paths_sorted(fs),
    ensures
        file_at(file_put(fs, p, t), q) == if q == p {
            Some(t)
        } else {
            file_at(fs, q)
        },
        paths_sorted(file_put(fs, p, t)),
{
    let k = first_index(fs, path_not_before(p)) as int;
    lemma_first_index_props(fs, path_not_before(p));
    let r = file_put(fs, p, t);
    let replaced = k < fs.len() && fs[k].0 == p;
    if !replaced && k < fs.len() {
        lemma_lex_total(fs[k].0, p);
    }
    assert forall|i: int, j: int| 0 <= i < j < r.len() implies lex_lt((#[trigger] r[i]).0, (#[trigger] r[j]).0) by {
        if replaced {
            assert(r[i].0 == fs[i].0 && r[j].0 == fs[j].0);
        } else if j < k {
            assert(r[i] == fs[i] && r[j] == fs[j]);
        } else if j == k {
            assert(r[j].0 == p && r[i] == fs[i]);
        } else if i == k {
            assert(r[i].0 == p && r[j] == fs[j - 1]);
            if j - 1 > k {
                lemma_lex_transitive(p, fs[k].0, fs[j - 1].0);
            }
        } else if i < k {
            assert(r[i] == fs[i] && r[j] == fs[j - 1]);
            if j - 1 == k {
                lemma_lex_transitive(fs[i].0, p, fs[k].0);
            } else {
                lemma_lex_transitive(fs[i].0, fs[k].0, fs[j - 1].0);
            }
        } else {
            assert(r[i] == fs[i - 1] && r[j] == fs[j - 1]);
        }
    }
    // Reading back.
    assert forall|i: int| 0 <= i < k implies lex_lt((#[trigger] fs[i]).0, p) by {
        assert(!path_not_before(p)(fs[i]));
    }
    if q == p {
        assert forall|i: int| 0 <= i < k implies !path_is(p)(#[trigger] r[i]) by {
            assert(r[i] == fs[i]);
            assert(lex_lt(fs[i].0, p));
            lemma_lex_irreflexive(p);
        }
        assert(path_is(p)(r[k]));
        lemma_first_index_is(r, path_is(p), k);
    } else {
        let j = first_index(fs, path_is(q)) as int;
        lemma_first_index_props(fs, path_is(q));
        if replaced {
            assert forall|i: int| 0 <= i < j implies !path_is(q)(#[trigger] r[i]) by {
                assert(r[i].0 == fs[i].0);
            }
            if j < fs.len() {
                assert(r[j].0 == fs[j].0);
                if j == k {
                    assert(fs[k].0 == q);
                }
                assert(r[j] == fs[j]);
            }
            lemma_first_index_is(r, path_is(q), j);
        } else if j < k {
            assert forall|i: int| 0 <= i < j implies !path_is(q)(#[trigger] r[i]) by {
                assert(r[i] == fs[i]);
            }
            assert(r[j] == fs[j]);
            lemma_first_index_is(r, path_is(q), j);
        } else {
            assert forall|i: int| 0 <= i < j + 1 && i < r.len() implies !path_is(q)(#[trigger] r[i]) by {
                if i < k {
                    assert(r[i] == fs[i]);
                } else if i > k {
                    assert(r[i] == fs[i - 1]);
                }
            }
            if j < fs.len() {
                assert(r[j + 1] == fs[j]);
                lemma_first_index_is(r, path_is(q), j + 1);
            } else {
                lemma_first_index_is(r, path_is(q), r.len() as int);
            }
        }
    }
}

proof fn lemma_category_files_sorted(
    fs: Seq<(Seq<char>, Seq<char>)>,
    kind: Seq<char>,
    cats: Seq<(String, Vec<String>)>,
    structs: Seq<(String, Vec<FieldInfo>)>,
    m: ResolvedModel,
)
    requires
        paths_sorted(fs),
    ensures
        paths_sorted(category_files(fs, kind, cats, structs, m)),
    decreases cats.len(),
{
    if cats.len() > 0 {
        lemma_category_files_sorted(fs, kind, cats.drop_last(), structs, m);
        let prev = category_files(fs, kind, cats.drop_last(), structs, m);
        let p = kind + "/"@ + cats.last().0@ + ".rs"@;
        lemma_file_put(prev, p, category_text(kind, cats.last().1@, structs, m), p);
    }
}

proof fn lemma_io_files_sorted(
    fs: Seq<(Seq<char>, Seq<char>)>,
    kind: Seq<char>,
    cats: Seq<(String, Vec<String>)>,
    structs: Seq<(String, Vec<FieldInfo>)>,
    m: ResolvedModel,
)
    requires
        paths_sorted(fs),
    ensures
        paths_sorted(io_files(fs, kind, cats, structs, m)),
{
    let p = kind + "/mod.rs"@;
    lemma_file_put(fs, p, mod_text(cats), p);
    lemma_category_files_sorted(file_put(fs, p, mod_text(cats)), kind, cats, structs, m);
}

proof fn lemma_put_sorted(fs: Seq<(Seq<char>, Seq<char>)>, p: Seq<char>, t: Seq<char>)
    requires
        paths_sorted(fs),
    ensures
        paths_sorted(file_put(fs, p, t)),
{
    lemma_file_put(fs, p, t, p);
}

/// The generated files come in strictly increasing order of path, each path
/// once.
pub proof fn lemma_all_files_sorted(m: ResolvedModel)
    ensures
        paths_sorted(all_files(m)),
{
    let e = Seq::<(Seq<char>, Seq<char>)>::empty();
    let (t1, t2, t3, t4, t5) = (types_text(m), operations_text(), error_text(), request_text(), lib_text(m));
    let f1 = file_put(e, "types.rs"@, t1);
    lemma_put_sorted(e, "types.rs"@, t1);
    let f2 = file_put(f1, "operations.rs"@, t2);
    lemma_put_sorted(f1, "operations.rs"@, t2);
    let f3 = file_put(f2, "error.rs"@, t3);
    lemma_put_sorted(f2, "error.rs"@, t3);
    let f4 = file_put(f3, "request.rs"@, t4);
    lemma_put_sorted(f3, "request.rs"@, t4);
    let f5 = file_put(f4, "lib.rs"@, t5);
    lemma_put_sorted(f4, "lib.rs"@, t5);
    lemma_io_files_sorted(f5, "input"@, m.input_categories@, m.input_structs@, m);
    let f6 = io_files(f5, "input"@, m.input_categories@, m.input_structs@, m);
    lemma_io_files_sorted(f6, "output"@, m.output_categories@, m.output_structs@, m);
}

/// The value after a named argument (`--config path` gives `path`): the
/// argument after the first one equal to `flag`, if there is one.
pub fn find_arg(args: &[String], flag: &str) -> (r: Option<String>)
    ensures
        ({
            let i = first_index(args@, |a: String| a@ == flag@) as int;
            if i + 1 < args@.len() {
                r matches Some(v) && v@ == args@[i + 1]@
            } else {
                r is None
            }
        }),
{
    let ghost pred = |a: String| a@ == flag@;
    let mut i: usize = 0;
    while i < args.len() && !str_eq(args[i].as_str(), flag)
        invariant
            i <= args.len(),
            pred == (|a: String| a@ == flag@),
            forall|q: int| 0 <= q < i ==> !pred(#[trigger] args@[q]),
        decreases args.len() - i,
    {
        i = i + 1;
    }
    proof {
        lemma_first_index_is(args@, pred, i as int);
    }
    if i < args.len() && i + 1 < args.len() {
        Some(args[i + 1].clone())
    } else {
        None
    }
}

} // verus!
