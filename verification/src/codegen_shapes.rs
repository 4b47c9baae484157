//! Resolved shape information that drives code generation.

use vstd::prelude::*;
use heck::{ToPascalCase, ToSnakeCase};
use crate::codegen::{
    add_name, add_name_exec, input_struct_name, short_name, short_name_of, target_operation_list,
    target_operations,
};
use crate::codegen_config::texts;
use crate::codegen_model::SimpleShape;
use crate::codegen_model::{
    has_trait, key_is, lookup, trait_present, trait_string, trait_text, EnumShape, MemberShape,
    Shape, ShapeRef, SmithyModel, StructureShape, UnionShape,
};
use crate::seqs::{first_index, lemma_first_index_is};
use crate::text::{
    lex_less, lex_lt, own, push_str_chars, slice_chars, starts_with_chars, str_chars, str_eq,
    string_from_chars,
};

verus! {

/// Information about an operation needed for code generation.
#[derive(Debug, Clone)]
pub struct OperationInfo {
    /// Short operation name (e.g., "PutObject").
    pub name: String,
    /// Fully qualified input shape ID.
    pub input_shape: Option<String>,
    /// Fully qualified output shape ID.
    pub output_shape: Option<String>,
}

/// HTTP binding information for a struct member.
#[derive(Debug, Clone)]
pub enum HttpBinding {
    /// Field comes from a URI path label.
    Label,
    /// Field comes from a query string parameter.
    Query(String),
    /// Field comes from an HTTP header.
    Header(String),
    /// Field is the HTTP payload body.
    Payload,
    /// Field comes from headers with a prefix.
    PrefixHeaders(String),
}

/// Information about a struct member field for code generation.
#[derive(Debug, Clone)]
pub struct FieldInfo {
    /// Original Smithy member name (PascalCase).
    pub smithy_name: String,
    /// Rust field name (snake_case).
    pub rust_name: String,
    /// Rust type expression (e.g., `Option<String>`, `Vec<Tag>`).
    pub rust_type: String,
    /// Whether this field is required.
    pub required: bool,
    /// HTTP binding annotation if any.
    pub http_binding: Option<HttpBinding>,
}

/// Enum variant information for code generation.
#[derive(Debug, Clone)]
pub struct EnumVariantInfo {
    /// Rust variant name (PascalCase).
    pub rust_name: String,
    /// The string value from `@enumValue`.
    pub string_value: String,
}

/// Resolved information about all shapes needed for code generation; the
/// maps are (name, value) pairs in order of name.
#[derive(Debug)]
pub struct ResolvedModel {
    /// All operations we are generating.
    pub operations: Vec<OperationInfo>,
    /// Operation categories of the input modules.
    pub input_categories: Vec<(String, Vec<String>)>,
    /// Operation categories of the output modules.
    pub output_categories: Vec<(String, Vec<String>)>,
    /// All enum shapes needed (short name -> variants).
    pub enums: Vec<(String, Vec<EnumVariantInfo>)>,
    /// All shared struct shapes (short name -> fields).
    pub shared_structs: Vec<(String, Vec<FieldInfo>)>,
    /// Input struct shapes (short name -> fields).
    pub input_structs: Vec<(String, Vec<FieldInfo>)>,
    /// Output struct shapes (short name -> fields).
    pub output_structs: Vec<(String, Vec<FieldInfo>)>,
}

/// The operations of the `bucket` category.
pub open spec fn bucket_operations() -> Seq<&'static str> {
    seq!["CreateBucket", "DeleteBucket", "HeadBucket", "ListBuckets", "GetBucketLocation"]
}

fn bucket_operation_list() -> (r: [&'static str; 5])
    ensures
        r@ == bucket_operations(),
{
    ["CreateBucket", "DeleteBucket", "HeadBucket", "ListBuckets", "GetBucketLocation"]
}

/// The operations of the `object` category.
pub open spec fn object_operations() -> Seq<&'static str> {
    seq!["PutObject", "GetObject", "HeadObject", "DeleteObject", "DeleteObjects", "CopyObject"]
}

fn object_operation_list() -> (r: [&'static str; 6])
    ensures
        r@ == object_operations(),
{
    ["PutObject", "GetObject", "HeadObject", "DeleteObject", "DeleteObjects", "CopyObject"]
}

/// The operations of the `multipart` category.
pub open spec fn multipart_operations() -> Seq<&'static str> {
    seq!["CreateMultipartUpload", "UploadPart", "UploadPartCopy", "CompleteMultipartUpload", "AbortMultipartUpload", "ListParts", "ListMultipartUploads"]
}

fn multipart_operation_list() -> (r: [&'static str; 7])
    ensures
        r@ == multipart_operations(),
{
    ["CreateMultipartUpload", "UploadPart", "UploadPartCopy", "CompleteMultipartUpload", "AbortMultipartUpload", "ListParts", "ListMultipartUploads"]
}

/// The operations of the `list` category.
pub open spec fn list_operations() -> Seq<&'static str> {
    seq!["ListObjects", "ListObjectsV2", "ListObjectVersions"]
}

fn list_operation_list() -> (r: [&'static str; 3])
    ensures
        r@ == list_operations(),
{
    ["ListObjects", "ListObjectsV2", "ListObjectVersions"]
}

/// The operations of the `config` category.
pub open spec fn config_operations() -> Seq<&'static str> {
    seq!["GetBucketVersioning", "PutBucketVersioning", "GetBucketEncryption", "PutBucketEncryption", "DeleteBucketEncryption", "GetBucketCors", "PutBucketCors", "DeleteBucketCors", "GetBucketLifecycleConfiguration", "PutBucketLifecycleConfiguration", "DeleteBucketLifecycle", "GetBucketPolicy", "PutBucketPolicy", "DeleteBucketPolicy", "GetBucketTagging", "PutBucketTagging", "DeleteBucketTagging", "GetBucketNotificationConfiguration", "PutBucketNotificationConfiguration", "GetBucketLogging", "PutBucketLogging", "GetPublicAccessBlock", "PutPublicAccessBlock", "DeletePublicAccessBlock", "GetBucketOwnershipControls", "PutBucketOwnershipControls", "DeleteBucketOwnershipControls", "GetObjectLockConfiguration", "PutObjectLockConfiguration", "GetBucketAccelerateConfiguration", "PutBucketAccelerateConfiguration", "GetBucketRequestPayment", "PutBucketRequestPayment", "GetBucketWebsite", "PutBucketWebsite", "DeleteBucketWebsite", "GetBucketAcl", "PutBucketAcl", "GetBucketPolicyStatus", "GetObjectTagging", "PutObjectTagging", "DeleteObjectTagging", "GetObjectAcl", "PutObjectAcl", "GetObjectRetention", "PutObjectRetention", "GetObjectLegalHold", "PutObjectLegalHold", "GetObjectAttributes"]
}

fn config_operation_list() -> (r: [&'static str; 49])
    ensures
        r@ == config_operations(),
{
    ["GetBucketVersioning", "PutBucketVersioning", "GetBucketEncryption", "PutBucketEncryption", "DeleteBucketEncryption", "GetBucketCors", "PutBucketCors", "DeleteBucketCors", "GetBucketLifecycleConfiguration", "PutBucketLifecycleConfiguration", "DeleteBucketLifecycle", "GetBucketPolicy", "PutBucketPolicy", "DeleteBucketPolicy", "GetBucketTagging", "PutBucketTagging", "DeleteBucketTagging", "GetBucketNotificationConfiguration", "PutBucketNotificationConfiguration", "GetBucketLogging", "PutBucketLogging", "GetPublicAccessBlock", "PutPublicAccessBlock", "DeletePublicAccessBlock", "GetBucketOwnershipControls", "PutBucketOwnershipControls", "DeleteBucketOwnershipControls", "GetObjectLockConfiguration", "PutObjectLockConfiguration", "GetBucketAccelerateConfiguration", "PutBucketAccelerateConfiguration", "GetBucketRequestPayment", "PutBucketRequestPayment", "GetBucketWebsite", "PutBucketWebsite", "DeleteBucketWebsite", "GetBucketAcl", "PutBucketAcl", "GetBucketPolicyStatus", "GetObjectTagging", "PutObjectTagging", "DeleteObjectTagging", "GetObjectAcl", "PutObjectAcl", "GetObjectRetention", "PutObjectRetention", "GetObjectLegalHold", "PutObjectLegalHold", "GetObjectAttributes"]
}

/// The text of string slices.
pub open spec fn names_of(a: Seq<&'static str>) -> Seq<Seq<char>> {
    a.map_values(|s: &'static str| s@)
}

/// Owned copies of string slices.
fn strings(a: &[&'static str]) -> (r: Vec<String>)
    ensures
        texts(r@) == names_of(a@),
{
    let mut v: Vec<String> = Vec::new();
    let mut i: usize = 0;
    while i < a.len()
        invariant
            i <= a.len(),
            texts(v@) == names_of(a@.take(i as int)),
        decreases a.len() - i,
    {
        let ghost before = v@;
        let x = own(a[i]);
        v.push(x);
        assert(v@ == before.push(x));
        assert(texts(v@) =~= texts(before).push(a@[i as int]@));
        assert(names_of(a@.take(i + 1)) =~= names_of(a@.take(i as int)).push(a@[i as int]@));
        i = i + 1;
    }
    assert(a@.take(a.len() as int) =~= a@);
    v
}

/// Operation categories as (name, operation names) pairs.
pub open spec fn categories_view(v: Seq<(String, Vec<String>)>) -> Seq<(Seq<char>, Seq<Seq<char>>)> {
    v.map_values(|c: (String, Vec<String>)| (c.0@, texts(c.1@)))
}

/// The operation categories, in order of category name.
pub open spec fn operation_categories() -> Seq<(Seq<char>, Seq<Seq<char>>)> {
    seq![("bucket"@, names_of(bucket_operations()))] + seq![("config"@, names_of(config_operations()))] + seq![("list"@, names_of(list_operations()))] + seq![("multipart"@, names_of(multipart_operations()))] + seq![("object"@, names_of(object_operations()))]
}

fn category_list() -> (r: Vec<(String, Vec<String>)>)
    ensures
        categories_view(r@) == operation_categories(),
{
    let mut cats: Vec<(String, Vec<String>)> = Vec::new();
    let a = bucket_operation_list();
    cats.push((own("bucket"), strings(&a)));
    let a = config_operation_list();
    cats.push((own("config"), strings(&a)));
    let a = list_operation_list();
    cats.push((own("list"), strings(&a)));
    let a = multipart_operation_list();
    cats.push((own("multipart"), strings(&a)));
    let a = object_operation_list();
    cats.push((own("object"), strings(&a)));
    assert(categories_view(cats@) =~= operation_categories());
    cats
}

/// The operation categories of the input and of the output modules (the
/// same), in order of category name.
pub fn categorize_operations() -> (r: (Vec<(String, Vec<String>)>, Vec<(String, Vec<String>)>))
    ensures
        categories_view(r.0@) == operation_categories(),
        categories_view(r.1@) == operation_categories(),
{
    (category_list(), category_list())
}

/// The Rust type of a built-in Smithy shape, if the target is one.
pub open spec fn builtin_rust_type(target: Seq<char>) -> Option<Seq<char>> {
    if target == "smithy.api#String"@ {
        Some("String"@)
    } else if target == "smithy.api#Boolean"@ || target == "smithy.api#PrimitiveBoolean"@ {
        Some("bool"@)
    } else if target == "smithy.api#Integer"@ || target == "smithy.api#PrimitiveInteger"@ {
        Some("i32"@)
    } else if target == "smithy.api#Long"@ || target == "smithy.api#PrimitiveLong"@ {
        Some("i64"@)
    } else if target == "smithy.api#Float"@ || target == "smithy.api#PrimitiveFloat"@ {
        Some("f32"@)
    } else if target == "smithy.api#Double"@ || target == "smithy.api#PrimitiveDouble"@ {
        Some("f64"@)
    } else if target == "smithy.api#Blob"@ {
        Some("bytes::Bytes"@)
    } else if target == "smithy.api#Timestamp"@ {
        Some("chrono::DateTime<chrono::Utc>"@)
    } else if target == "smithy.api#Unit"@ {
        Some("()"@)
    } else if target == "smithy.api#Document"@ {
        Some("serde_json::Value"@)
    } else {
        None
    }
}

/// Resolve built-in `smithy.api` types.
pub fn resolve_builtin_type(target: &str) -> (r: Option<&'static str>)
    ensures
        match r {
            Some(t) => builtin_rust_type(target@) == Some(t@),
            None => builtin_rust_type(target@) is None,
        },
{
    if str_eq(target, "smithy.api#String") {
        Some("String")
    } else if str_eq(target, "smithy.api#Boolean") || str_eq(target, "smithy.api#PrimitiveBoolean") {
        Some("bool")
    } else if str_eq(target, "smithy.api#Integer") || str_eq(target, "smithy.api#PrimitiveInteger") {
        Some("i32")
    } else if str_eq(target, "smithy.api#Long") || str_eq(target, "smithy.api#PrimitiveLong") {
        Some("i64")
    } else if str_eq(target, "smithy.api#Float") || str_eq(target, "smithy.api#PrimitiveFloat") {
        Some("f32")
    } else if str_eq(target, "smithy.api#Double") || str_eq(target, "smithy.api#PrimitiveDouble") {
        Some("f64")
    } else if str_eq(target, "smithy.api#Blob") {
        Some("bytes::Bytes")
    } else if str_eq(target, "smithy.api#Timestamp") {
        Some("chrono::DateTime<chrono::Utc>")
    } else if str_eq(target, "smithy.api#Unit") {
        Some("()")
    } else if str_eq(target, "smithy.api#Document") {
        Some("serde_json::Value")
    } else {
        None
    }
}

/// Whether a type is a collection type that is not wrapped in `Option`.
pub fn is_collection_type(ty: &str) -> (r: bool)
    ensures
        r == ((4 <= ty@.len() && ty@.take(4) == "Vec<"@) || (8 <= ty@.len() && ty@.take(8)
            == "HashMap<"@)),
{
    proof {
        reveal_strlit("Vec<");
        reveal_strlit("HashMap<");
    }
    let t = str_chars(ty);
    let v = str_chars("Vec<");
    let h = str_chars("HashMap<");
    starts_with_chars(&t, &v) || starts_with_chars(&t, &h)
}

// ---------------------------------------------------------------------------
// Names and types
// ---------------------------------------------------------------------------

/// The snake-case form of a name, as `heck::ToSnakeCase` gives it.
pub uninterp spec fn snake_cased(s: Seq<char>) -> Seq<char>;

/// The upper-camel-case form of a name, as `heck::ToPascalCase` gives it.
pub uninterp spec fn pascal_cased(s: Seq<char>) -> Seq<char>;

/// Snake case.
///
/// Trusted: `heck::ToSnakeCase::to_snake_case`, which splits the name into
/// words (at non-alphanumeric characters and case changes) and joins them
/// lower-cased with `_`; the result depends on the name alone and is named,
/// not stated.
#[verifier::external_body]
fn heck_snake(s: &str) -> (r: String)
    ensures
        r@ == snake_cased(s@),
{
    s.to_snake_case()
}

/// Upper camel case.
///
/// Trusted: `heck::ToPascalCase::to_pascal_case`, which splits the name into
/// words as above and joins them capitalized; the result depends on the name
/// alone and is named, not stated.
#[verifier::external_body]
fn heck_pascal(s: &str) -> (r: String)
    ensures
        r@ == pascal_cased(s@),
{
    s.to_pascal_case()
}

/// The Rust field name of a member: its snake case, with the keywords
/// `type`, `match`, `return` and `use` written as raw identifiers.
pub open spec fn field_name_of(name: Seq<char>) -> Seq<char> {
    let s = snake_cased(name);
    if s == "type"@ {
        "r#type"@
    } else if s == "match"@ {
        "r#match"@
    } else if s == "return"@ {
        "r#return"@
    } else if s == "use"@ {
        "r#use"@
    } else {
        s
    }
}

/// A field name is the member name in snake case, except that the keywords
/// `type`, `match`, `return` and `use` become the raw identifiers `r#type`,
/// `r#match`, `r#return` and `r#use`.
pub proof fn lemma_field_names(name: Seq<char>)
    ensures
        snake_cased(name) == "type"@ ==> field_name_of(name) == "r#type"@,
        snake_cased(name) == "match"@ ==> field_name_of(name) == "r#match"@,
        snake_cased(name) == "return"@ ==> field_name_of(name) == "r#return"@,
        snake_cased(name) == "use"@ ==> field_name_of(name) == "r#use"@,
        snake_cased(name) != "type"@ && snake_cased(name) != "match"@ && snake_cased(name)
            != "return"@ && snake_cased(name) != "use"@ ==> field_name_of(name) == snake_cased(name),
{
    reveal_strlit("type");
    reveal_strlit("match");
    reveal_strlit("return");
    reveal_strlit("use");
    assert("match"@.len() != "type"@.len());
    assert("return"@.len() != "type"@.len());
    assert("return"@.len() != "match"@.len());
    assert("use"@.len() != "type"@.len());
}

/// Convert a Smithy PascalCase member name to a Rust snake_case field name.
pub fn to_snake_case(name: &str) -> (r: String)
    ensures
        r@ == field_name_of(name@),
{
    let snake = heck_snake(name);
    if str_eq(snake.as_str(), "type") {
        own("r#type")
    } else if str_eq(snake.as_str(), "match") {
        own("r#match")
    } else if str_eq(snake.as_str(), "return") {
        own("r#return")
    } else if str_eq(snake.as_str(), "use") {
        own("r#use")
    } else {
        snake
    }
}

/// Convert a Smithy enum variant name to Rust PascalCase.
pub fn to_pascal_case(name: &str) -> (r: String)
    ensures
        r@ == pascal_cased(name@),
{
    heck_pascal(name)
}

/// The Rust type of a simple shape: string aliases (streaming ones as bytes),
/// booleans, numbers, timestamps and blobs (streaming ones as a streaming
/// blob); any other shape by its short name.
pub open spec fn simple_rust_type(shape: Shape, target: Seq<char>) -> Seq<char> {
    match shape {
        Shape::String(s) => if has_trait(s.traits@, "smithy.api#streaming"@) {
            "bytes::Bytes"@
        } else {
            "String"@
        },
        Shape::Boolean(_) => "bool"@,
        Shape::Integer(_) => "i32"@,
        Shape::Long(_) => "i64"@,
        Shape::Timestamp(_) => "chrono::DateTime<chrono::Utc>"@,
        Shape::Blob(b) => if has_trait(b.traits@, "smithy.api#streaming"@) {
            "StreamingBlob"@
        } else {
            "bytes::Bytes"@
        },
        Shape::Double(_) => "f64"@,
        Shape::Float(_) => "f32"@,
        _ => short_name_of(target),
    }
}

/// Number and boolean shapes resolve to the Rust types of the matching
/// built-in Smithy types: `long` to `i64`, `integer` to `i32`, `boolean` to
/// `bool`, `double` to `f64`, `float` to `f32`.
pub proof fn lemma_simple_number_types(s: SimpleShape, target: Seq<char>)
    ensures
        simple_rust_type(Shape::Long(s), target) == "i64"@,
        simple_rust_type(Shape::Integer(s), target) == "i32"@,
        simple_rust_type(Shape::Boolean(s), target) == "bool"@,
        simple_rust_type(Shape::Double(s), target) == "f64"@,
        simple_rust_type(Shape::Float(s), target) == "f32"@,
        builtin_rust_type("smithy.api#Long"@) == Some(simple_rust_type(Shape::Long(s), target)),
        builtin_rust_type("smithy.api#Integer"@) == Some(simple_rust_type(Shape::Integer(s), target)),
{
    reveal_strlit("smithy.api#Long");
    reveal_strlit("smithy.api#Integer");
    reveal_strlit("smithy.api#String");
    reveal_strlit("smithy.api#Boolean");
    reveal_strlit("smithy.api#PrimitiveBoolean");
    reveal_strlit("smithy.api#PrimitiveInteger");
    assert("smithy.api#Long"@ != "smithy.api#String"@) by {
        assert("smithy.api#Long"@[11] != "smithy.api#String"@[11]);
    }
    assert("smithy.api#Long"@ != "smithy.api#Boolean"@) by {
        assert("smithy.api#Long"@[11] != "smithy.api#Boolean"@[11]);
    }
    assert("smithy.api#Long"@ != "smithy.api#PrimitiveBoolean"@) by {
        assert("smithy.api#Long"@[11] != "smithy.api#PrimitiveBoolean"@[11]);
    }
    assert("smithy.api#Long"@ != "smithy.api#Integer"@) by {
        assert("smithy.api#Long"@[11] != "smithy.api#Integer"@[11]);
    }
    assert("smithy.api#Long"@ != "smithy.api#PrimitiveInteger"@) by {
        assert("smithy.api#Long"@[11] != "smithy.api#PrimitiveInteger"@[11]);
    }
    assert("smithy.api#Integer"@ != "smithy.api#String"@) by {
        assert("smithy.api#Integer"@[11] != "smithy.api#String"@[11]);
    }
    assert("smithy.api#Integer"@ != "smithy.api#Boolean"@) by {
        assert("smithy.api#Integer"@[11] != "smithy.api#Boolean"@[11]);
    }
    assert("smithy.api#Integer"@ != "smithy.api#PrimitiveBoolean"@) by {
        assert("smithy.api#Integer"@[11] != "smithy.api#PrimitiveBoolean"@[11]);
    }
}

/// Text, time and binary shapes: a string is a Rust `String` (bytes when it
/// streams), a timestamp a UTC date-time, a blob bytes (a streaming blob when
/// it streams).
pub proof fn lemma_simple_text_types(s: SimpleShape, target: Seq<char>)
    ensures
        !has_trait(s.traits@, "smithy.api#streaming"@) ==> simple_rust_type(Shape::String(s), target)
            == "String"@,
        has_trait(s.traits@, "smithy.api#streaming"@) ==> simple_rust_type(Shape::String(s), target)
            == "bytes::Bytes"@,
        simple_rust_type(Shape::Timestamp(s), target) == "chrono::DateTime<chrono::Utc>"@,
        !has_trait(s.traits@, "smithy.api#streaming"@) ==> simple_rust_type(Shape::Blob(s), target)
            == "bytes::Bytes"@,
        has_trait(s.traits@, "smithy.api#streaming"@) ==> simple_rust_type(Shape::Blob(s), target)
            == "StreamingBlob"@,
{
}

/// The built-in Smithy types and their Rust types: string `String`, boolean
/// `bool`, integer `i32`, long `i64`, float `f32`, double `f64`, blob bytes,
/// timestamp a UTC date-time, unit `()` and document a JSON value.
pub proof fn lemma_builtin_types()
    ensures
        builtin_rust_type("smithy.api#String"@) == Some("String"@),
        builtin_rust_type("smithy.api#Boolean"@) == Some("bool"@),
        builtin_rust_type("smithy.api#PrimitiveBoolean"@) == Some("bool"@),
        builtin_rust_type("smithy.api#Integer"@) == Some("i32"@),
        builtin_rust_type("smithy.api#PrimitiveInteger"@) == Some("i32"@),
        builtin_rust_type("smithy.api#Long"@) == Some("i64"@),
        builtin_rust_type("smithy.api#PrimitiveLong"@) == Some("i64"@),
        builtin_rust_type("smithy.api#Float"@) == Some("f32"@),
        builtin_rust_type("smithy.api#PrimitiveFloat"@) == Some("f32"@),
        builtin_rust_type("smithy.api#Double"@) == Some("f64"@),
        builtin_rust_type("smithy.api#PrimitiveDouble"@) == Some("f64"@),
        builtin_rust_type("smithy.api#Blob"@) == Some("bytes::Bytes"@),
        builtin_rust_type("smithy.api#Timestamp"@) == Some("chrono::DateTime<chrono::Utc>"@),
        builtin_rust_type("smithy.api#Unit"@) == Some("()"@),
        builtin_rust_type("smithy.api#Document"@) == Some("serde_json::Value"@),
{
    reveal_strlit("smithy.api#String");
    reveal_strlit("smithy.api#Boolean");
    reveal_strlit("smithy.api#PrimitiveBoolean");
    reveal_strlit("smithy.api#Integer");
    reveal_strlit("smithy.api#PrimitiveInteger");
    reveal_strlit("smithy.api#Long");
    reveal_strlit("smithy.api#PrimitiveLong");
    reveal_strlit("smithy.api#Float");
    reveal_strlit("smithy.api#PrimitiveFloat");
    reveal_strlit("smithy.api#Double");
    reveal_strlit("smithy.api#PrimitiveDouble");
    reveal_strlit("smithy.api#Blob");
    reveal_strlit("smithy.api#Timestamp");
    reveal_strlit("smithy.api#Unit");
    reveal_strlit("smithy.api#Document");
    assert("smithy.api#Boolean"@.len() != "smithy.api#String"@.len());
    assert("smithy.api#PrimitiveBoolean"@.len() != "smithy.api#String"@.len());
    assert("smithy.api#PrimitiveBoolean"@.len() != "smithy.api#Boolean"@.len());
    assert("smithy.api#Integer"@.len() != "smithy.api#String"@.len());
    assert("smithy.api#Integer"@[11] != "smithy.api#Boolean"@[11]);
    assert("smithy.api#Integer"@.len() != "smithy.api#PrimitiveBoolean"@.len());
    assert("smithy.api#PrimitiveInteger"@.len() != "smithy.api#String"@.len());
    assert("smithy.api#PrimitiveInteger"@.len() != "smithy.api#Boolean"@.len());
    assert("smithy.api#PrimitiveInteger"@[20] != "smithy.api#PrimitiveBoolean"@[20]);
    assert("smithy.api#PrimitiveInteger"@.len() != "smithy.api#Integer"@.len());
    assert("smithy.api#Long"@.len() != "smithy.api#String"@.len());
    assert("smithy.api#Long"@.len() != "smithy.api#Boolean"@.len());
    assert("smithy.api#Long"@.len() != "smithy.api#PrimitiveBoolean"@.len());
    assert("smithy.api#Long"@.len() != "smithy.api#Integer"@.len());
    assert("smithy.api#Long"@.len() != "smithy.api#PrimitiveInteger"@.len());
    assert("smithy.api#PrimitiveLong"@.len() != "smithy.api#String"@.len());
    assert("smithy.api#PrimitiveLong"@.len() != "smithy.api#Boolean"@.len());
    assert("smithy.api#PrimitiveLong"@.len() != "smithy.api#PrimitiveBoolean"@.len());
    assert("smithy.api#PrimitiveLong"@.len() != "smithy.api#Integer"@.len());
    assert("smithy.api#PrimitiveLong"@.len() != "smithy.api#PrimitiveInteger"@.len());
    assert("smithy.api#PrimitiveLong"@.len() != "smithy.api#Long"@.len());
    assert("smithy.api#Float"@.len() != "smithy.api#String"@.len());
    assert("smithy.api#Float"@.len() != "smithy.api#Boolean"@.len());
    assert("smithy.api#Float"@.len() != "smithy.api#PrimitiveBoolean"@.len());
    assert("smithy.api#Float"@.len() != "smithy.api#Integer"@.len());
    assert("smithy.api#Float"@.len() != "smithy.api#PrimitiveInteger"@.len());
    assert("smithy.api#Float"@.len() != "smithy.api#Long"@.len());
    assert("smithy.api#Float"@.len() != "smithy.api#PrimitiveLong"@.len());
    assert("smithy.api#PrimitiveFloat"@.len() != "smithy.api#String"@.len());
    assert("smithy.api#PrimitiveFloat"@.len() != "smithy.api#Boolean"@.len());
    assert("smithy.api#PrimitiveFloat"@.len() != "smithy.api#PrimitiveBoolean"@.len());
    assert("smithy.api#PrimitiveFloat"@.len() != "smithy.api#Integer"@.len());
    assert("smithy.api#PrimitiveFloat"@.len() != "smithy.api#PrimitiveInteger"@.len());
    assert("smithy.api#PrimitiveFloat"@.len() != "smithy.api#Long"@.len());
    assert("smithy.api#PrimitiveFloat"@.len() != "smithy.api#PrimitiveLong"@.len());
    assert("smithy.api#PrimitiveFloat"@.len() != "smithy.api#Float"@.len());
    assert("smithy.api#Double"@[11] != "smithy.api#String"@[11]);
    assert("smithy.api#Double"@.len() != "smithy.api#Boolean"@.len());
    assert("smithy.api#Double"@.len() != "smithy.api#PrimitiveBoolean"@.len());
    assert("smithy.api#Double"@.len() != "smithy.api#Integer"@.len());
    assert("smithy.api#Double"@.len() != "smithy.api#PrimitiveInteger"@.len());
    assert("smithy.api#Double"@.len() != "smithy.api#Long"@.len());
    assert("smithy.api#Double"@.len() != "smithy.api#PrimitiveLong"@.len());
    assert("smithy.api#Double"@.len() != "smithy.api#Float"@.len());
    assert("smithy.api#Double"@.len() != "smithy.api#PrimitiveFloat"@.len());
    assert("smithy.api#PrimitiveDouble"@.len() != "smithy.api#String"@.len());
    assert("smithy.api#PrimitiveDouble"@.len() != "smithy.api#Boolean"@.len());
    assert("smithy.api#PrimitiveDouble"@.len() != "smithy.api#PrimitiveBoolean"@.len());
    assert("smithy.api#PrimitiveDouble"@.len() != "smithy.api#Integer"@.len());
    assert("smithy.api#PrimitiveDouble"@.len() != "smithy.api#PrimitiveInteger"@.len());
    assert("smithy.api#PrimitiveDouble"@.len() != "smithy.api#Long"@.len());
    assert("smithy.api#PrimitiveDouble"@.len() != "smithy.api#PrimitiveLong"@.len());
    assert("smithy.api#PrimitiveDouble"@.len() != "smithy.api#Float"@.len());
    assert("smithy.api#PrimitiveDouble"@.len() != "smithy.api#PrimitiveFloat"@.len());
    assert("smithy.api#PrimitiveDouble"@.len() != "smithy.api#Double"@.len());
    assert("smithy.api#Blob"@.len() != "smithy.api#String"@.len());
    assert("smithy.api#Blob"@.len() != "smithy.api#Boolean"@.len());
    assert("smithy.api#Blob"@.len() != "smithy.api#PrimitiveBoolean"@.len());
    assert("smithy.api#Blob"@.len() != "smithy.api#Integer"@.len());
    assert("smithy.api#Blob"@.len() != "smithy.api#PrimitiveInteger"@.len());
    assert("smithy.api#Blob"@[11] != "smithy.api#Long"@[11]);
    assert("smithy.api#Blob"@.len() != "smithy.api#PrimitiveLong"@.len());
    assert("smithy.api#Blob"@.len() != "smithy.api#Float"@.len());
    assert("smithy.api#Blob"@.len() != "smithy.api#PrimitiveFloat"@.len());
    assert("smithy.api#Blob"@.len() != "smithy.api#Double"@.len());
    assert("smithy.api#Blob"@.len() != "smithy.api#PrimitiveDouble"@.len());
    assert("smithy.api#Timestamp"@.len() != "smithy.api#String"@.len());
    assert("smithy.api#Timestamp"@.len() != "smithy.api#Boolean"@.len());
    assert("smithy.api#Timestamp"@.len() != "smithy.api#PrimitiveBoolean"@.len());
    assert("smithy.api#Timestamp"@.len() != "smithy.api#Integer"@.len());
    assert("smithy.api#Timestamp"@.len() != "smithy.api#PrimitiveInteger"@.len());
    assert("smithy.api#Timestamp"@.len() != "smithy.api#Long"@.len());
    assert("smithy.api#Timestamp"@.len() != "smithy.api#PrimitiveLong"@.len());
    assert("smithy.api#Timestamp"@.len() != "smithy.api#Float"@.len());
    assert("smithy.api#Timestamp"@.len() != "smithy.api#PrimitiveFloat"@.len());
    assert("smithy.api#Timestamp"@.len() != "smithy.api#Double"@.len());
    assert("smithy.api#Timestamp"@.len() != "smithy.api#PrimitiveDouble"@.len());
    assert("smithy.api#Timestamp"@.len() != "smithy.api#Blob"@.len());
    assert("smithy.api#Unit"@.len() != "smithy.api#String"@.len());
    assert("smithy.api#Unit"@.len() != "smithy.api#Boolean"@.len());
    assert("smithy.api#Unit"@.len() != "smithy.api#PrimitiveBoolean"@.len());
    assert("smithy.api#Unit"@.len() != "smithy.api#Integer"@.len());
    assert("smithy.api#Unit"@.len() != "smithy.api#PrimitiveInteger"@.len());
    assert("smithy.api#Unit"@[11] != "smithy.api#Long"@[11]);
    assert("smithy.api#Unit"@.len() != "smithy.api#PrimitiveLong"@.len());
    assert("smithy.api#Unit"@.len() != "smithy.api#Float"@.len());
    assert("smithy.api#Unit"@.len() != "smithy.api#PrimitiveFloat"@.len());
    assert("smithy.api#Unit"@.len() != "smithy.api#Double"@.len());
    assert("smithy.api#Unit"@.len() != "smithy.api#PrimitiveDouble"@.len());
    assert("smithy.api#Unit"@[11] != "smithy.api#Blob"@[11]);
    assert("smithy.api#Unit"@.len() != "smithy.api#Timestamp"@.len());
    assert("smithy.api#Document"@.len() != "smithy.api#String"@.len());
    assert("smithy.api#Document"@.len() != "smithy.api#Boolean"@.len());
    assert("smithy.api#Document"@.len() != "smithy.api#PrimitiveBoolean"@.len());
    assert("smithy.api#Document"@.len() != "smithy.api#Integer"@.len());
    assert("smithy.api#Document"@.len() != "smithy.api#PrimitiveInteger"@.len());
    assert("smithy.api#Document"@.len() != "smithy.api#Long"@.len());
    assert("smithy.api#Document"@.len() != "smithy.api#PrimitiveLong"@.len());
    assert("smithy.api#Document"@.len() != "smithy.api#Float"@.len());
    assert("smithy.api#Document"@.len() != "smithy.api#PrimitiveFloat"@.len());
    assert("smithy.api#Document"@.len() != "smithy.api#Double"@.len());
    assert("smithy.api#Document"@.len() != "smithy.api#PrimitiveDouble"@.len());
    assert("smithy.api#Document"@.len() != "smithy.api#Blob"@.len());
    assert("smithy.api#Document"@.len() != "smithy.api#Timestamp"@.len());
    assert("smithy.api#Document"@.len() != "smithy.api#Unit"@.len());
}

/// A member whose target is a model's `long` shape (not a built-in type) has
/// the Rust type `i64`; one whose target is an `integer` shape, `i32`.
pub proof fn lemma_number_targets_resolve(
    m: SmithyModel,
    target: Seq<char>,
    enums: Seq<Seq<char>>,
    fuel: nat,
    s: SimpleShape,
)
    requires
        builtin_rust_type(target) is None,
    ensures
        m.shape(target) == Some(Shape::Long(s)) ==> rust_type_within(m, target, enums, fuel) == Some(
            "i64"@,
        ),
        m.shape(target) == Some(Shape::Integer(s)) ==> rust_type_within(m, target, enums, fuel)
            == Some("i32"@),
{
}

/// Resolve simple type shapes (string aliases, boolean, integer, etc.) to Rust types.
pub fn resolve_simple_rust_type(shape: &Shape, target: &str) -> (r: String)
    ensures
        r@ == simple_rust_type(*shape, target@),
{
    match shape {
        Shape::String(s) => if trait_present(&s.traits, "smithy.api#streaming") {
            own("bytes::Bytes")
        } else {
            own("String")
        },
        Shape::Boolean(_) => own("bool"),
        Shape::Integer(_) => own("i32"),
        Shape::Long(_) => own("i64"),
        Shape::Timestamp(_) => own("chrono::DateTime<chrono::Utc>"),
        Shape::Blob(b) => if trait_present(&b.traits, "smithy.api#streaming") {
            own("StreamingBlob")
        } else {
            own("bytes::Bytes")
        },
        Shape::Double(_) => own("f64"),
        Shape::Float(_) => own("f32"),
        _ => short_name(target),
    }
}

/// The Rust type of a shape reference, following list and map nesting at
/// most `fuel` levels deep (`None` when that is not enough): built-in types,
/// then the model's shapes (unknown ones are `String`); enums are named only
/// when they are among the needed enums.
pub open spec fn rust_type_within(
    m: SmithyModel,
    target: Seq<char>,
    enums: Seq<Seq<char>>,
    fuel: nat,
) -> Option<Seq<char>>
    decreases fuel,
{
    match builtin_rust_type(target) {
        Some(b) => Some(b),
        None => match m.shape(target) {
            None => Some("String"@),
            Some(shape) => {
                let short = short_name_of(target);
                match shape {
                    Shape::String(_) | Shape::Boolean(_) | Shape::Integer(_) | Shape::Long(_)
                    | Shape::Timestamp(_) | Shape::Blob(_) | Shape::Double(_) | Shape::Float(
                        _,
                    ) => Some(simple_rust_type(shape, target)),
                    Shape::Enum(_) => Some(
                        if enums.contains(short) {
                            short
                        } else {
                            "String"@
                        },
                    ),
                    Shape::List(l) => if fuel == 0 {
                        None
                    } else {
                        match rust_type_within(m, l.member.target@, enums, (fuel - 1) as nat) {
                            Some(inner) => Some("Vec<"@ + inner + ">"@),
                            None => None,
                        }
                    },
                    Shape::Mapping(mp) => if fuel == 0 {
                        None
                    } else {
                        match (
                            rust_type_within(m, mp.key.target@, enums, (fuel - 1) as nat),
                            rust_type_within(m, mp.value.target@, enums, (fuel - 1) as nat),
                        ) {
                            (Some(k), Some(v)) => Some("HashMap<"@ + k + ", "@ + v + ">"@),
                            _ => None,
                        }
                    },
                    Shape::Structure(_) | Shape::Union(_) => Some(short),
                    _ => Some("String"@),
                }
            },
        },
    }
}

/// Whether the type of `target` can be resolved: its list and map nesting
/// does not go round in a cycle (it is at most as deep as there are shapes).
pub open spec fn type_resolves(m: SmithyModel, target: Seq<char>) -> bool {
    rust_type_within(m, target, Seq::empty(), m.shapes@.len()) is Some
}

/// The Rust type of a shape reference.
pub open spec fn rust_type_of(m: SmithyModel, target: Seq<char>, enums: Seq<Seq<char>>) -> Seq<char> {
    rust_type_within(m, target, enums, m.shapes@.len())->0
}

/// Whether type resolution succeeds does not depend on the needed enums.
proof fn lemma_rust_type_fuel(m: SmithyModel, t: Seq<char>, a: Seq<Seq<char>>, b: Seq<Seq<char>>, fuel: nat)
    ensures
        (rust_type_within(m, t, a, fuel) is Some) == (rust_type_within(m, t, b, fuel) is Some),
    decreases fuel,
{
    if fuel > 0 {
        match m.shape(t) {
            Some(Shape::List(l)) => {
                lemma_rust_type_fuel(m, l.member.target@, a, b, (fuel - 1) as nat);
            },
            Some(Shape::Mapping(mp)) => {
                lemma_rust_type_fuel(m, mp.key.target@, a, b, (fuel - 1) as nat);
                lemma_rust_type_fuel(m, mp.value.target@, a, b, (fuel - 1) as nat);
            },
            _ => {},
        }
    }
}

/// Whether a needed-enum list holds `name`.
fn names_contain(names: &Vec<String>, name: &str) -> (r: bool)
    ensures
        r == texts(names@).contains(name@),
{
    let mut i: usize = 0;
    while i < names.len()
        invariant
            i <= names.len(),
            forall|q: int| 0 <= q < i ==> (#[trigger] names@[q])@ != name@,
        decreases names.len() - i,
    {
        if str_eq(names[i].as_str(), name) {
            assert(texts(names@)[i as int] == name@);
            return true;
        }
        i = i + 1;
    }
    proof {
        if texts(names@).contains(name@) {
            let j = choose|j: int| 0 <= j < texts(names@).len() && texts(names@)[j] == name@;
            assert(names@[j]@ == name@);
        }
    }
    false
}

fn rust_type_fuel(model: &SmithyModel, target: &str, needed_enums: &Vec<String>, fuel: usize) -> (r:
    String)
    requires
        rust_type_within(*model, target@, texts(needed_enums@), fuel as nat) is Some,
    ensures
        r@ == rust_type_within(*model, target@, texts(needed_enums@), fuel as nat)->0,
    decreases fuel,
{
    match resolve_builtin_type(target) {
        Some(b) => {
            return own(b);
        },
        None => {},
    }
    let shape = match model.get_shape(target) {
        Some(s) => s,
        None => {
            return own("String");
        },
    };
    let short = short_name(target);
    match shape {
        Shape::String(_) | Shape::Boolean(_) | Shape::Integer(_) | Shape::Long(_)
        | Shape::Timestamp(_) | Shape::Blob(_) | Shape::Double(_) | Shape::Float(_) => {
            resolve_simple_rust_type(shape, target)
        },
        Shape::Enum(_) => {
            if names_contain(needed_enums, short.as_str()) {
                short
            } else {
                own("String")
            }
        },
        Shape::List(l) => {
            let inner = rust_type_fuel(model, l.member.target.as_str(), needed_enums, fuel - 1);
            let mut t = str_chars("Vec<");
            push_str_chars(&mut t, inner.as_str());
            push_str_chars(&mut t, ">");
            string_from_chars(&t)
        },
        Shape::Mapping(mp) => {
            let k = rust_type_fuel(model, mp.key.target.as_str(), needed_enums, fuel - 1);
            let v = rust_type_fuel(model, mp.value.target.as_str(), needed_enums, fuel - 1);
            let mut t = str_chars("HashMap<");
            push_str_chars(&mut t, k.as_str());
            push_str_chars(&mut t, ", ");
            push_str_chars(&mut t, v.as_str());
            push_str_chars(&mut t, ">");
            string_from_chars(&t)
        },
        Shape::Structure(_) | Shape::Union(_) => short,
        _ => own("String"),
    }
}

/// Resolve a Smithy shape target to a Rust type string.  The target's list
/// and map nesting must not go round in a cycle.
pub fn resolve_rust_type(model: &SmithyModel, target: &str, needed_enums: &Vec<String>) -> (r: String)
    requires
        type_resolves(*model, target@),
    ensures
        r@ == rust_type_of(*model, target@, texts(needed_enums@)),
{
    proof {
        lemma_rust_type_fuel(*model, target@, Seq::empty(), texts(needed_enums@), model.shapes@.len());
    }
    rust_type_fuel(model, target, needed_enums, model.shapes.len())
}

// ---------------------------------------------------------------------------
// HTTP bindings
// ---------------------------------------------------------------------------

/// An HTTP binding as a tag (label, query, header, payload, prefix headers
/// are 0 to 4) and its name (empty for labels and payloads).
pub open spec fn binding_view(b: Option<HttpBinding>) -> Option<(u8, Seq<char>)> {
    match b {
        Some(HttpBinding::Label) => Some((0u8, Seq::empty())),
        Some(HttpBinding::Query(q)) => Some((1u8, q@)),
        Some(HttpBinding::Header(h)) => Some((2u8, h@)),
        Some(HttpBinding::Payload) => Some((3u8, Seq::empty())),
        Some(HttpBinding::PrefixHeaders(p)) => Some((4u8, p@)),
        None => None,
    }
}

/// The HTTP binding of a member's traits, checked in this order: a label; a
/// query, a header (when the trait's value is a string); a payload; prefix
/// headers (when a string).
pub open spec fn binding_of(traits: Seq<(String, Option<String>)>) -> Option<(u8, Seq<char>)> {
    if has_trait(traits, "smithy.api#httpLabel"@) {
        Some((0u8, Seq::empty()))
    } else if trait_text(traits, "smithy.api#httpQuery"@) is Some {
        Some((1u8, trait_text(traits, "smithy.api#httpQuery"@)->0))
    } else if trait_text(traits, "smithy.api#httpHeader"@) is Some {
        Some((2u8, trait_text(traits, "smithy.api#httpHeader"@)->0))
    } else if has_trait(traits, "smithy.api#httpPayload"@) {
        Some((3u8, Seq::empty()))
    } else if trait_text(traits, "smithy.api#httpPrefixHeaders"@) is Some {
        Some((4u8, trait_text(traits, "smithy.api#httpPrefixHeaders"@)->0))
    } else {
        None
    }
}

/// A member's field keeps its Smithy name and is required exactly when the
/// member has the `required` trait; an optional member's Rust type is its
/// target's type inside `Option<..>`, unless that type is a `Vec` or a
/// `HashMap`; a required one's type is its target's type.
pub proof fn lemma_member_field_type(m: SmithyModel, enums: Seq<Seq<char>>, e: (String, MemberShape))
    ensures
        member_field(m, enums, e).0 == e.0@,
        member_field(m, enums, e).3 == has_trait(e.1.traits@, "smithy.api#required"@),
        has_trait(e.1.traits@, "smithy.api#required"@) ==> member_field(m, enums, e).2 == rust_type_of(
            m,
            e.1.target@,
            enums,
        ),
        !has_trait(e.1.traits@, "smithy.api#required"@) && !collection_type(
            rust_type_of(m, e.1.target@, enums),
        ) ==> member_field(m, enums, e).2 == "Option<"@ + rust_type_of(m, e.1.target@, enums) + ">"@,
        collection_type(rust_type_of(m, e.1.target@, enums)) ==> member_field(m, enums, e).2
            == rust_type_of(m, e.1.target@, enums),
        member_field(m, enums, e).4 == binding_of(e.1.traits@),
{
}

/// The HTTP binding of a member: a label when it has `httpLabel`; else the
/// query parameter its `httpQuery` names; else the header its `httpHeader`
/// names; else the payload when it has `httpPayload`; else the prefix its
/// `httpPrefixHeaders` names; the tags of these bindings are 0 to 4.
pub proof fn lemma_http_bindings(t: Seq<(String, Option<String>)>, x: String)
    ensures
        binding_view(Some(HttpBinding::Label)) == Some((0u8, Seq::<char>::empty())),
        binding_view(Some(HttpBinding::Query(x))) == Some((1u8, x@)),
        binding_view(Some(HttpBinding::Header(x))) == Some((2u8, x@)),
        binding_view(Some(HttpBinding::Payload)) == Some((3u8, Seq::<char>::empty())),
        binding_view(Some(HttpBinding::PrefixHeaders(x))) == Some((4u8, x@)),
        has_trait(t, "smithy.api#httpLabel"@) ==> binding_of(t) == binding_view(
            Some(HttpBinding::Label),
        ),
        !has_trait(t, "smithy.api#httpLabel"@) && trait_text(t, "smithy.api#httpQuery"@) == Some(x@)
            ==> binding_of(t) == binding_view(Some(HttpBinding::Query(x))),
        !has_trait(t, "smithy.api#httpLabel"@) && trait_text(t, "smithy.api#httpQuery"@) is None
            && trait_text(t, "smithy.api#httpHeader"@) == Some(x@) ==> binding_of(t) == binding_view(
            Some(HttpBinding::Header(x)),
        ),
        !has_trait(t, "smithy.api#httpLabel"@) && trait_text(t, "smithy.api#httpQuery"@) is None
            && trait_text(t, "smithy.api#httpHeader"@) is None && has_trait(
            t,
            "smithy.api#httpPayload"@,
        ) ==> binding_of(t) == binding_view(Some(HttpBinding::Payload)),
        !has_trait(t, "smithy.api#httpLabel"@) && trait_text(t, "smithy.api#httpQuery"@) is None
            && trait_text(t, "smithy.api#httpHeader"@) is None && !has_trait(
            t,
            "smithy.api#httpPayload"@,
        ) && trait_text(t, "smithy.api#httpPrefixHeaders"@) == Some(x@) ==> binding_of(t)
            == binding_view(Some(HttpBinding::PrefixHeaders(x))),
{
}

/// Extract HTTP binding info from a member's traits.
pub fn extract_http_binding(member: &MemberShape) -> (r: Option<HttpBinding>)
    ensures
        binding_view(r) == binding_of(member.traits@),
{
    let t = &member.traits;
    if trait_present(t, "smithy.api#httpLabel") {
        return Some(HttpBinding::Label);
    }
    match trait_string(t, "smithy.api#httpQuery") {
        Some(s) => {
            return Some(HttpBinding::Query(s.clone()));
        },
        None => {},
    }
    match trait_string(t, "smithy.api#httpHeader") {
        Some(s) => {
            return Some(HttpBinding::Header(s.clone()));
        },
        None => {},
    }
    if trait_present(t, "smithy.api#httpPayload") {
        return Some(HttpBinding::Payload);
    }
    match trait_string(t, "smithy.api#httpPrefixHeaders") {
        Some(s) => {
            return Some(HttpBinding::PrefixHeaders(s.clone()));
        },
        None => {},
    }
    None
}

// ---------------------------------------------------------------------------
// Struct fields and enum variants
// ---------------------------------------------------------------------------

/// A field as plain values: Smithy name, Rust name, Rust type, whether it is
/// required, and its HTTP binding.
pub open spec fn field_view(f: FieldInfo) -> (Seq<char>, Seq<char>, Seq<char>, bool, Option<(u8, Seq<char>)>) {
    (f.smithy_name@, f.rust_name@, f.rust_type@, f.required, binding_view(f.http_binding))
}

/// The fields as plain values.
pub open spec fn fields_view(v: Seq<FieldInfo>) -> Seq<(Seq<char>, Seq<char>, Seq<char>, bool, Option<(u8, Seq<char>)>)> {
    v.map_values(|f: FieldInfo| field_view(f))
}

/// Whether a Rust type is a `Vec` or a `HashMap`.
pub open spec fn collection_type(ty: Seq<char>) -> bool {
    (4 <= ty.len() && ty.take(4) == "Vec<"@) || (8 <= ty.len() && ty.take(8) == "HashMap<"@)
}

/// The field of a structure member: required ones, and collections, are not
/// wrapped in `Option`.
pub open spec fn member_field(m: SmithyModel, enums: Seq<Seq<char>>, e: (String, MemberShape)) -> (
    Seq<char>,
    Seq<char>,
    Seq<char>,
    bool,
    Option<(u8, Seq<char>)>,
) {
    let required = has_trait(e.1.traits@, "smithy.api#required"@);
    let base = rust_type_of(m, e.1.target@, enums);
    (
        e.0@,
        field_name_of(e.0@),
        if required || collection_type(base) {
            base
        } else {
            "Option<"@ + base + ">"@
        },
        required,
        binding_of(e.1.traits@),
    )
}

/// Selects the members whose name does not come before `k`.
pub open spec fn member_not_before(k: Seq<char>) -> spec_fn((String, MemberShape)) -> bool {
    |e: (String, MemberShape)| !lex_lt(e.0@, k)
}

/// Puts a member into a name-ordered member list: it replaces a member of
/// the same name, else goes before the first name that does not come before
/// its own.
pub open spec fn member_put(s: Seq<(String, MemberShape)>, e: (String, MemberShape)) -> Seq<
    (String, MemberShape),
> {
    let k = first_index(s, member_not_before(e.0@)) as int;
    if k < s.len() && s[k].0@ == e.0@ {
        s.update(k, e)
    } else {
        s.insert(k, e)
    }
}

/// The members in order of name, the last of each name winning.
pub open spec fn sorted_members(ms: Seq<(String, MemberShape)>) -> Seq<(String, MemberShape)>
    decreases ms.len(),
{
    if ms.len() == 0 {
        Seq::empty()
    } else {
        member_put(sorted_members(ms.drop_last()), ms.last())
    }
}

/// Every member target of a list resolves to a type.
pub open spec fn members_resolve(m: SmithyModel, ms: Seq<(String, MemberShape)>) -> bool {
    forall|i: int| 0 <= i < ms.len() ==> type_resolves(m, (#[trigger] ms[i]).1.target@)
}

/// The entries at the given positions.
pub open spec fn picked<V>(s: Seq<V>, idx: Seq<usize>) -> Seq<V> {
    idx.map_values(|i: usize| s[i as int])
}

/// The field of a member.
fn member_to_field(
    model: &SmithyModel,
    name: &String,
    member: &MemberShape,
    needed_enums: &Vec<String>,
) -> (r: FieldInfo)
    requires
        type_resolves(*model, member.target@),
    ensures
        field_view(r) == member_field(*model, texts(needed_enums@), (*name, *member)),
{
    let required = trait_present(&member.traits, "smithy.api#required");
    let base = resolve_rust_type(model, member.target.as_str(), needed_enums);
    let http_binding = extract_http_binding(member);
    let rust_type = if required || is_collection_type(base.as_str()) {
        base
    } else {
        let mut t = str_chars("Option<");
        push_str_chars(&mut t, base.as_str());
        push_str_chars(&mut t, ">");
        string_from_chars(&t)
    };
    FieldInfo {
        smithy_name: name.clone(),
        rust_name: to_snake_case(name.as_str()),
        rust_type,
        required,
        http_binding,
    }
}

/// Resolve the fields of a structure shape, in order of member name.  Every
/// member's type must resolve.
pub fn resolve_struct_fields(
    model: &SmithyModel,
    structure: &StructureShape,
    needed_enums: &Vec<String>,
) -> (r: Vec<FieldInfo>)
    requires
        members_resolve(*model, structure.members@),
    ensures
        fields_view(r@) == sorted_members(structure.members@).map_values(
            |e: (String, MemberShape)| member_field(*model, texts(needed_enums@), e),
        ),
{
    let ms = &structure.members;
    let mut idx: Vec<usize> = Vec::new();
    let mut i: usize = 0;
    assert(picked(ms@, idx@) =~= sorted_members(ms@.take(0)));
    while i < ms.len()
        invariant
            i <= ms.len(),
            forall|q: int| 0 <= q < idx@.len() ==> (#[trigger] idx@[q]) < ms@.len(),
            picked(ms@, idx@) == sorted_members(ms@.take(i as int)),
        decreases ms.len() - i,
    {
        let ghost s = picked(ms@, idx@);
        let ghost pred = member_not_before(ms@[i as int].0@);
        let key = str_chars(ms[i].0.as_str());
        let mut k: usize = 0;
        while k < idx.len() && lex_less(&str_chars(ms[idx[k]].0.as_str()), &key)
            invariant
                k <= idx.len(),
                i < ms.len(),
                key@ == ms@[i as int].0@,
                s == picked(ms@, idx@),
                pred == member_not_before(ms@[i as int].0@),
                forall|q: int| 0 <= q < idx@.len() ==> (#[trigger] idx@[q]) < ms@.len(),
                forall|q: int| 0 <= q < k ==> !pred(#[trigger] s[q]),
            decreases idx.len() - k,
        {
            k = k + 1;
        }
        proof {
            lemma_first_index_is(s, pred, k as int);
            assert(ms@.take(i + 1).drop_last() =~= ms@.take(i as int));
            assert(ms@.take(i + 1).last() == ms@[i as int]);
        }
        if k < idx.len() && str_eq(ms[idx[k]].0.as_str(), ms[i].0.as_str()) {
            idx.set(k, i);
            assert(picked(ms@, idx@) =~= s.update(k as int, ms@[i as int]));
        } else {
            idx.insert(k, i);
            assert(picked(ms@, idx@) =~= s.insert(k as int, ms@[i as int]));
        }
        i = i + 1;
    }
    assert(ms@.take(ms.len() as int) =~= ms@);
    let ghost sorted = picked(ms@, idx@);
    let ghost f = |e: (String, MemberShape)| member_field(*model, texts(needed_enums@), e);
    let mut out: Vec<FieldInfo> = Vec::new();
    let mut j: usize = 0;
    while j < idx.len()
        invariant
            j <= idx.len(),
            sorted == picked(ms@, idx@),
            sorted == sorted_members(ms@),
            members_resolve(*model, ms@),
            f == (|e: (String, MemberShape)| member_field(*model, texts(needed_enums@), e)),
            forall|q: int| 0 <= q < idx@.len() ==> (#[trigger] idx@[q]) < ms@.len(),
            fields_view(out@) == sorted.take(j as int).map_values(f),
        decreases idx.len() - j,
    {
        let e = &ms[idx[j]];
        assert(type_resolves(*model, ms@[idx@[j as int] as int].1.target@));
        let fi = member_to_field(model, &e.0, &e.1, needed_enums);
        let ghost before = out@;
        out.push(fi);
        assert(fields_view(out@) =~= sorted.take(j + 1).map_values(f)) by {
            assert(fields_view(out@) =~= fields_view(before).push(field_view(fi)));
            assert(sorted[j as int] == ms@[idx@[j as int] as int]);
            assert(sorted.take(j + 1).map_values(f) =~= sorted.take(j as int).map_values(f).push(
                f(sorted[j as int]),
            ));
        }
        j = j + 1;
    }
    assert(sorted.take(idx.len() as int) =~= sorted);
    out
}

/// The field of a union member: always optional, never bound to HTTP.
pub open spec fn union_field(m: SmithyModel, enums: Seq<Seq<char>>, e: (String, MemberShape)) -> (
    Seq<char>,
    Seq<char>,
    Seq<char>,
    bool,
    Option<(u8, Seq<char>)>,
) {
    (
        e.0@,
        field_name_of(e.0@),
        "Option<"@ + rust_type_of(m, e.1.target@, enums) + ">"@,
        false,
        None,
    )
}

/// The fields of a union shape, in member order.  Every member's type must
/// resolve.
pub fn resolve_union_fields(model: &SmithyModel, union_shape: &UnionShape, needed_enums: &Vec<String>) -> (r:
    Vec<FieldInfo>)
    requires
        members_resolve(*model, union_shape.members@),
    ensures
        fields_view(r@) == union_shape.members@.map_values(
            |e: (String, MemberShape)| union_field(*model, texts(needed_enums@), e),
        ),
{
    let ms = &union_shape.members;
    let ghost f = |e: (String, MemberShape)| union_field(*model, texts(needed_enums@), e);
    let mut out: Vec<FieldInfo> = Vec::new();
    let mut j: usize = 0;
    while j < ms.len()
        invariant
            j <= ms.len(),
            members_resolve(*model, ms@),
            f == (|e: (String, MemberShape)| union_field(*model, texts(needed_enums@), e)),
            fields_view(out@) == ms@.take(j as int).map_values(f),
        decreases ms.len() - j,
    {
        assert(type_resolves(*model, ms@[j as int].1.target@));
        let base = resolve_rust_type(model, ms[j].1.target.as_str(), needed_enums);
        let mut t = str_chars("Option<");
        push_str_chars(&mut t, base.as_str());
        push_str_chars(&mut t, ">");
        let fi = FieldInfo {
            smithy_name: ms[j].0.clone(),
            rust_name: to_snake_case(ms[j].0.as_str()),
            rust_type: string_from_chars(&t),
            required: false,
            http_binding: None,
        };
        let ghost before = out@;
        out.push(fi);
        assert(fields_view(out@) =~= ms@.take(j + 1).map_values(f)) by {
            assert(fields_view(out@) =~= fields_view(before).push(field_view(fi)));
            assert(ms@.take(j + 1).map_values(f) =~= ms@.take(j as int).map_values(f).push(
                f(ms@[j as int]),
            ));
        }
        j = j + 1;
    }
    assert(ms@.take(ms.len() as int) =~= ms@);
    out
}

/// A variant as plain values: Rust name and string value.
pub open spec fn variant_view(v: EnumVariantInfo) -> (Seq<char>, Seq<char>) {
    (v.rust_name@, v.string_value@)
}

/// The variant of an enum member: its name in upper camel case, and its
/// `enumValue` trait when that is a string, else its name.
pub open spec fn member_variant(e: (String, MemberShape)) -> (Seq<char>, Seq<char>) {
    (
        pascal_cased(e.0@),
        match trait_text(e.1.traits@, "smithy.api#enumValue"@) {
            Some(v) => v,
            None => e.0@,
        },
    )
}

/// Selects the variants whose name comes after `k`.
pub open spec fn variant_after(k: Seq<char>) -> spec_fn((Seq<char>, Seq<char>)) -> bool {
    |v: (Seq<char>, Seq<char>)| lex_lt(k, v.0)
}

/// Stable sorting by name, one variant at a time: a variant goes after
/// every variant whose name does not come after its own.
pub open spec fn stable_sorted(vs: Seq<(Seq<char>, Seq<char>)>) -> Seq<(Seq<char>, Seq<char>)>
    decreases vs.len(),
{
    if vs.len() == 0 {
        Seq::empty()
    } else {
        let s = stable_sorted(vs.drop_last());
        s.insert(first_index(s, variant_after(vs.last().0)) as int, vs.last())
    }
}

/// The variants of an enum shape, sorted by Rust name (members with equal
/// names keep their order).
pub fn resolve_enum_variants(enum_shape: &EnumShape) -> (r: Vec<EnumVariantInfo>)
    ensures
        r@.map_values(|v: EnumVariantInfo| variant_view(v)) == stable_sorted(
            enum_shape.members@.map_values(|e: (String, MemberShape)| member_variant(e)),
        ),
{
    let ms = &enum_shape.members;
    let ghost mv = ms@.map_values(|e: (String, MemberShape)| member_variant(e));
    let mut out: Vec<EnumVariantInfo> = Vec::new();
    let mut i: usize = 0;
    assert(out@.map_values(|v: EnumVariantInfo| variant_view(v)) =~= stable_sorted(mv.take(0)));
    while i < ms.len()
        invariant
            i <= ms.len(),
            mv == ms@.map_values(|e: (String, MemberShape)| member_variant(e)),
            out@.map_values(|v: EnumVariantInfo| variant_view(v)) == stable_sorted(mv.take(i as int)),
        decreases ms.len() - i,
    {
        let string_value = match trait_string(&ms[i].1.traits, "smithy.api#enumValue") {
            Some(v) => v.clone(),
            None => ms[i].0.clone(),
        };
        let v = EnumVariantInfo { rust_name: to_pascal_case(ms[i].0.as_str()), string_value };
        let ghost s = out@.map_values(|v: EnumVariantInfo| variant_view(v));
        let ghost pred = variant_after(v.rust_name@);
        let key = str_chars(v.rust_name.as_str());
        let mut k: usize = 0;
        while k < out.len() && !lex_less(&key, &str_chars(out[k].rust_name.as_str()))
            invariant
                k <= out.len(),
                key@ == v.rust_name@,
                s == out@.map_values(|v: EnumVariantInfo| variant_view(v)),
                pred == variant_after(v.rust_name@),
                forall|q: int| 0 <= q < k ==> !pred(#[trigger] s[q]),
            decreases out.len() - k,
        {
            k = k + 1;
        }
        proof {
            lemma_first_index_is(s, pred, k as int);
            assert(mv.take(i + 1).drop_last() =~= mv.take(i as int));
            assert(mv.take(i + 1).last() == mv[i as int]);
            assert(variant_view(v) == mv[i as int]);
        }
        out.insert(k, v);
        assert(out@.map_values(|v: EnumVariantInfo| variant_view(v)) =~= s.insert(k as int, variant_view(v)));
        i = i + 1;
    }
    assert(mv.take(ms.len() as int) =~= mv);
    out
}

// ---------------------------------------------------------------------------
// Referenced shapes
// ---------------------------------------------------------------------------

/// How deep the search for referenced shapes goes.
pub const MAX_RESOLVE_DEPTH: usize = 15;

/// Whether a shape ID is one of Smithy's built-in shapes.
pub open spec fn smithy_builtin(id: Seq<char>) -> bool {
    11 <= id.len() && id.take(11) == "smithy.api#"@
}

/// The shapes reachable from `id` added to `visited`, depth first in member
/// order: a shape is skipped when the search is deeper than the maximum
/// depth, when it was visited already, or when it is built in; structures
/// and unions lead to their members, lists to their member, maps to their
/// key and then their value.
pub open spec fn refs_from(m: SmithyModel, id: Seq<char>, visited: Seq<Seq<char>>, depth: nat) -> Seq<
    Seq<char>,
>
    decreases 16 - depth, 0int,
{
    if depth > 15 || visited.contains(id) || smithy_builtin(id) {
        visited
    } else {
        let v = add_name(visited, id);
        match m.shape(id) {
            Some(Shape::Structure(s)) => refs_from_members(m, s.members@, v, depth + 1),
            Some(Shape::List(l)) => refs_from(m, l.member.target@, v, depth + 1),
            Some(Shape::Mapping(mp)) => refs_from(
                m,
                mp.value.target@,
                refs_from(m, mp.key.target@, v, depth + 1),
                depth + 1,
            ),
            Some(Shape::Union(u)) => refs_from_members(m, u.members@, v, depth + 1),
            _ => v,
        }
    }
}

/// The shapes reachable from the members' targets, member by member.
pub open spec fn refs_from_members(
    m: SmithyModel,
    ms: Seq<(String, MemberShape)>,
    visited: Seq<Seq<char>>,
    depth: nat,
) -> Seq<Seq<char>>
    decreases 16 - depth, ms.len(),
{
    if ms.len() == 0 {
        visited
    } else {
        refs_from(m, ms.last().1.target@, refs_from_members(m, ms.drop_last(), visited, depth), depth)
    }
}

/// Collect all shape IDs transitively referenced from a given shape into
/// `visited`.
pub fn collect_referenced_shapes(
    model: &SmithyModel,
    shape_id: &str,
    visited: &mut Vec<String>,
    depth: usize,
)
    ensures
        texts(final(visited)@) == refs_from(*model, shape_id@, texts(old(visited)@), depth as nat),
    decreases 2 * (16 - depth),
{
    proof {
        reveal_strlit("smithy.api#");
    }
    let id = str_chars(shape_id);
    let prefix = str_chars("smithy.api#");
    if depth > MAX_RESOLVE_DEPTH || names_contain(visited, shape_id) || starts_with_chars(&id, &prefix) {
        return;
    }
    add_name_exec(visited, &id);
    match model.get_shape(shape_id) {
        Some(Shape::Structure(s)) => {
            collect_from_members(model, &s.members, visited, depth + 1);
        },
        Some(Shape::List(l)) => {
            collect_referenced_shapes(model, l.member.target.as_str(), visited, depth + 1);
        },
        Some(Shape::Mapping(mp)) => {
            collect_referenced_shapes(model, mp.key.target.as_str(), visited, depth + 1);
            collect_referenced_shapes(model, mp.value.target.as_str(), visited, depth + 1);
        },
        Some(Shape::Union(u)) => {
            collect_from_members(model, &u.members, visited, depth + 1);
        },
        _ => {},
    }
}

fn collect_from_members(
    model: &SmithyModel,
    ms: &Vec<(String, MemberShape)>,
    visited: &mut Vec<String>,
    depth: usize,
)
    requires
        1 <= depth <= 16,
    ensures
        texts(final(visited)@) == refs_from_members(*model, ms@, texts(old(visited)@), depth as nat),
    decreases 2 * (16 - depth) + 1,
{
    let ghost start = texts(visited@);
    let mut j: usize = 0;
    assert(ms@.take(0) =~= Seq::<(String, MemberShape)>::empty());
    while j < ms.len()
        invariant
            j <= ms.len(),
            1 <= depth <= 16,
            texts(visited@) == refs_from_members(*model, ms@.take(j as int), start, depth as nat),
        decreases ms.len() - j,
    {
        collect_referenced_shapes(model, ms[j].1.target.as_str(), visited, depth);
        assert(ms@.take(j + 1).drop_last() =~= ms@.take(j as int));
        assert(ms@.take(j + 1).last() == ms@[j as int]);
        j = j + 1;
    }
    assert(ms@.take(ms.len() as int) =~= ms@);
}

// ---------------------------------------------------------------------------
// Resolving the model
// ---------------------------------------------------------------------------

/// Selects the entries whose key does not come before `k`.
pub open spec fn entry_not_before<W>(k: Seq<char>) -> spec_fn((Seq<char>, W)) -> bool {
    |e: (Seq<char>, W)| !lex_lt(e.0, k)
}

/// Puts an entry into a key-ordered list: it replaces the value of an
/// existing key, else goes before the first key that does not come before
/// it.
pub open spec fn put_view<W>(s: Seq<(Seq<char>, W)>, k: Seq<char>, v: W) -> Seq<(Seq<char>, W)> {
    let i = first_index(s, entry_not_before::<W>(k)) as int;
    if i < s.len() && s[i].0 == k {
        s.update(i, (k, v))
    } else {
        s.insert(i, (k, v))
    }
}

/// The entries as plain values, each value seen through `f`.
pub open spec fn pairs_view<V, W>(s: Seq<(String, V)>, f: spec_fn(V) -> W) -> Seq<(Seq<char>, W)> {
    s.map_values(|e: (String, V)| (e.0@, f(e.1)))
}

/// Puts an entry into a key-ordered list.
fn put_entry<V, W>(entries: &mut Vec<(String, V)>, key: String, value: V, Ghost(f): Ghost<spec_fn(V) -> W>)
    ensures
        pairs_view(final(entries)@, f) == put_view(pairs_view(old(entries)@, f), key@, f(value)),
{
    let ghost pv = pairs_view(entries@, f);
    let ghost pred = entry_not_before::<W>(key@);
    let k = str_chars(key.as_str());
    let mut i: usize = 0;
    while i < entries.len() && lex_less(&str_chars(entries[i].0.as_str()), &k)
        invariant
            i <= entries.len(),
            k@ == key@,
            pv == pairs_view(entries@, f),
            pred == entry_not_before::<W>(key@),
            forall|q: int| 0 <= q < i ==> !pred(#[trigger] pv[q]),
        decreases entries.len() - i,
    {
        i = i + 1;
    }
    proof {
        lemma_first_index_is(pv, pred, i as int);
    }
    let ghost fv = f(value);
    if i < entries.len() && str_eq(entries[i].0.as_str(), key.as_str()) {
        entries.remove(i);
        entries.insert(i, (key, value));
        assert(pairs_view(entries@, f) =~= pv.update(i as int, (key@, fv)));
    } else {
        entries.insert(i, (key, value));
        assert(pairs_view(entries@, f) =~= pv.insert(i as int, (key@, fv)));
    }
}

/// An operation as plain values: name, input shape, output shape.
pub open spec fn op_view(o: OperationInfo) -> (Seq<char>, Option<Seq<char>>, Option<Seq<char>>) {
    (
        o.name@,
        match o.input_shape {
            Some(s) => Some(s@),
            None => None,
        },
        match o.output_shape {
            Some(s) => Some(s@),
            None => None,
        },
    )
}

/// A shape reference's target, unless it is the unit shape.
pub open spec fn non_unit(r: Option<ShapeRef>) -> Option<Seq<char>> {
    match r {
        Some(x) => if x.target@ != "smithy.api#Unit"@ {
            Some(x.target@)
        } else {
            None
        },
        None => None,
    }
}

/// What the scan of the operations has found: the referenced shapes, the
/// input and output shapes (name-ordered sets), and the operations.
pub struct ScanState {
    pub refs: Seq<Seq<char>>,
    pub inputs: Seq<Seq<char>>,
    pub outputs: Seq<Seq<char>>,
    pub ops: Seq<(Seq<char>, Option<Seq<char>>, Option<Seq<char>>)>,
}

/// The scan of one operation: its shape must be an operation shape; its
/// input and output shapes (other than the unit shape) are recorded with
/// everything they reference.
pub open spec fn scan_op(m: SmithyModel, st: ScanState, op: &'static str) -> Result<ScanState, Seq<char>> {
    match m.shape("com.amazonaws.s3#"@ + op@) {
        None => Err("Operation "@ + op@ + " not found in model"@),
        Some(Shape::Operation(o)) => {
            let i = non_unit(o.input);
            let out = non_unit(o.output);
            let refs1 = match i {
                Some(t) => refs_from(m, t, st.refs, 0),
                None => st.refs,
            };
            let refs2 = match out {
                Some(t) => refs_from(m, t, refs1, 0),
                None => refs1,
            };
            Ok(
                ScanState {
                    refs: refs2,
                    inputs: match i {
                        Some(t) => add_name(st.inputs, t),
                        None => st.inputs,
                    },
                    outputs: match out {
                        Some(t) => add_name(st.outputs, t),
                        None => st.outputs,
                    },
                    ops: st.ops.push((op@, i, out)),
                },
            )
        },
        Some(_) => Err(op@ + " is not an operation shape"@),
    }
}

/// The scan of the operations in order; the first failure ends it.
pub open spec fn scan_ops(m: SmithyModel, ops: Seq<&'static str>) -> Result<ScanState, Seq<char>>
    decreases ops.len(),
{
    if ops.len() == 0 {
        Ok(
            ScanState {
                refs: Seq::empty(),
                inputs: Seq::empty(),
                outputs: Seq::empty(),
                ops: Seq::empty(),
            },
        )
    } else {
        match scan_ops(m, ops.drop_last()) {
            Err(e) => Err(e),
            Ok(st) => scan_op(m, st, ops.last()),
        }
    }
}

/// The short names of the enum shapes among `ids`, name-ordered.
pub open spec fn enum_names_of(m: SmithyModel, ids: Seq<Seq<char>>) -> Seq<Seq<char>>
    decreases ids.len(),
{
    if ids.len() == 0 {
        Seq::empty()
    } else {
        let prev = enum_names_of(m, ids.drop_last());
        match m.shape(ids.last()) {
            Some(Shape::Enum(_)) => add_name(prev, short_name_of(ids.last())),
            _ => prev,
        }
    }
}

/// The enums among `ids` with their sorted variants, by short name.
pub open spec fn enums_of(m: SmithyModel, ids: Seq<Seq<char>>) -> Seq<(Seq<char>, Seq<(Seq<char>, Seq<char>)>)>
    decreases ids.len(),
{
    if ids.len() == 0 {
        Seq::empty()
    } else {
        let prev = enums_of(m, ids.drop_last());
        match m.shape(ids.last()) {
            Some(Shape::Enum(e)) => put_view(
                prev,
                short_name_of(ids.last()),
                stable_sorted(e.members@.map_values(|e: (String, MemberShape)| member_variant(e))),
            ),
            _ => prev,
        }
    }
}

/// The shapes reachable from each of `ids`, in order.
pub open spec fn tree_refs(m: SmithyModel, ids: Seq<Seq<char>>) -> Seq<Seq<char>>
    decreases ids.len(),
{
    if ids.len() == 0 {
        Seq::empty()
    } else {
        refs_from(m, ids.last(), tree_refs(m, ids.drop_last()), 0)
    }
}

/// The fields of a struct, as plain values.
pub type FieldsView = Seq<(Seq<char>, Seq<char>, Seq<char>, bool, Option<(u8, Seq<char>)>)>;

/// Structs by name, with their fields.
pub type StructsView = Seq<(Seq<char>, FieldsView)>;

/// Shared, input and output structs.
pub struct StructSets {
    pub shared: StructsView,
    pub inputs: StructsView,
    pub outputs: StructsView,
}

/// Classifies the (non-error) structures among `ids`: inputs (renamed
/// `...Input`) and outputs are kept apart, except a shape that is both, or an
/// output that inputs also reference, which is shared; every other structure
/// is shared.
pub open spec fn structs_of(
    m: SmithyModel,
    ids: Seq<Seq<char>>,
    enums: Seq<Seq<char>>,
    ins: Seq<Seq<char>>,
    outs: Seq<Seq<char>>,
    in_tree: Seq<Seq<char>>,
) -> StructSets
    decreases ids.len(),
{
    if ids.len() == 0 {
        StructSets { shared: Seq::empty(), inputs: Seq::empty(), outputs: Seq::empty() }
    } else {
        let prev = structs_of(m, ids.drop_last(), enums, ins, outs, in_tree);
        let id = ids.last();
        match m.shape(id) {
            Some(Shape::Structure(s)) => if has_trait(s.traits@, "smithy.api#error"@) {
                prev
            } else {
                let short = short_name_of(id);
                let fields = sorted_members(s.members@).map_values(
                    |e: (String, MemberShape)| member_field(m, enums, e),
                );
                if ins.contains(id) && outs.contains(id) {
                    StructSets { shared: put_view(prev.shared, short, fields), ..prev }
                } else if ins.contains(id) {
                    StructSets { inputs: put_view(prev.inputs, input_struct_name(short), fields), ..prev }
                } else if outs.contains(id) && !in_tree.contains(id) {
                    StructSets { outputs: put_view(prev.outputs, short, fields), ..prev }
                } else {
                    StructSets { shared: put_view(prev.shared, short, fields), ..prev }
                }
            },
            _ => prev,
        }
    }
}

/// The shared structs with the unions among `ids` added, by short name.
pub open spec fn unions_of(
    m: SmithyModel,
    ids: Seq<Seq<char>>,
    enums: Seq<Seq<char>>,
    shared: StructsView,
) -> StructsView
    decreases ids.len(),
{
    if ids.len() == 0 {
        shared
    } else {
        let prev = unions_of(m, ids.drop_last(), enums, shared);
        match m.shape(ids.last()) {
            Some(Shape::Union(u)) => put_view(
                prev,
                short_name_of(ids.last()),
                u.members@.map_values(|e: (String, MemberShape)| union_field(m, enums, e)),
            ),
            _ => prev,
        }
    }
}

/// The resolution of a model: the operations, enums and structs (shared,
/// input, output) that code is generated for, or the first operation that
/// the model lacks.
pub open spec fn resolution(m: SmithyModel) -> Result<
    (Seq<(Seq<char>, Option<Seq<char>>, Option<Seq<char>>)>, Seq<(Seq<char>, Seq<(Seq<char>, Seq<char>)>)>, StructSets),
    Seq<char>,
> {
    match scan_ops(m, target_operations()) {
        Err(e) => Err(e),
        Ok(st) => {
            let en = enum_names_of(m, st.refs);
            let ss = structs_of(m, st.refs, en, st.inputs, st.outputs, tree_refs(m, st.inputs));
            Ok(
                (
                    st.ops,
                    enums_of(m, st.refs),
                    StructSets { shared: unions_of(m, st.refs, en, ss.shared), ..ss },
                ),
            )
        },
    }
}

/// The shape with this ID has member types that resolve, where resolving
/// the model resolves them: a structure that is not an error shape, or a
/// union.
pub open spec fn shape_members_resolve(m: SmithyModel, id: Seq<char>) -> bool {
    match m.shape(id) {
        Some(Shape::Structure(s)) => has_trait(s.traits@, "smithy.api#error"@) || members_resolve(
            m,
            s.members@,
        ),
        Some(Shape::Union(u)) => members_resolve(m, u.members@),
        _ => true,
    }
}

/// Each shape among `ids` has member types that resolve.
pub open spec fn refs_resolve(m: SmithyModel, ids: Seq<Seq<char>>) -> bool {
    forall|i: int| 0 <= i < ids.len() ==> shape_members_resolve(m, #[trigger] ids[i])
}

/// Resolving the model terminates: when the target operations are all
/// there, every non-error structure and every union that they reach has
/// member types that resolve (no list or map nesting among them goes round
/// in a cycle).  Shapes that the operations do not reach are not looked at.
pub open spec fn model_types_resolve(m: SmithyModel) -> bool {
    match scan_ops(m, target_operations()) {
        Ok(st) => refs_resolve(m, st.refs),
        Err(_) => true,
    }
}

/// The enum short names of the model's enums among `ids`.
fn enum_names_exec(model: &SmithyModel, ids: &Vec<String>) -> (r: Vec<String>)
    ensures
        texts(r@) == enum_names_of(*model, texts(ids@)),
{
    let ghost iv = texts(ids@);
    let mut names: Vec<String> = Vec::new();
    let mut i: usize = 0;
    assert(texts(names@) =~= enum_names_of(*model, iv.take(0)));
    while i < ids.len()
        invariant
            i <= ids.len(),
            iv == texts(ids@),
            texts(names@) == enum_names_of(*model, iv.take(i as int)),
        decreases ids.len() - i,
    {
        assert(iv.take(i + 1).drop_last() =~= iv.take(i as int));
        assert(iv.take(i + 1).last() == iv[i as int]);
        match model.get_shape(ids[i].as_str()) {
            Some(Shape::Enum(_)) => {
                let short = short_name(ids[i].as_str());
                add_name_exec(&mut names, &str_chars(short.as_str()));
            },
            _ => {},
        }
        i = i + 1;
    }
    assert(iv.take(ids.len() as int) =~= iv);
    names
}

/// The view of a variant list.
pub open spec fn variants_view_fn() -> spec_fn(Vec<EnumVariantInfo>) -> Seq<(Seq<char>, Seq<char>)> {
    |v: Vec<EnumVariantInfo>| v@.map_values(|x: EnumVariantInfo| variant_view(x))
}

/// The view of a field list.
pub open spec fn fields_view_fn() -> spec_fn(Vec<FieldInfo>) -> FieldsView {
    |v: Vec<FieldInfo>| fields_view(v@)
}

fn enums_exec(model: &SmithyModel, ids: &Vec<String>) -> (r: Vec<(String, Vec<EnumVariantInfo>)>)
    ensures
        pairs_view(r@, variants_view_fn()) == enums_of(*model, texts(ids@)),
{
    let ghost iv = texts(ids@);
    let mut enums: Vec<(String, Vec<EnumVariantInfo>)> = Vec::new();
    let mut i: usize = 0;
    assert(pairs_view(enums@, variants_view_fn()) =~= enums_of(*model, iv.take(0)));
    while i < ids.len()
        invariant
            i <= ids.len(),
            iv == texts(ids@),
            pairs_view(enums@, variants_view_fn()) == enums_of(*model, iv.take(i as int)),
        decreases ids.len() - i,
    {
        assert(iv.take(i + 1).drop_last() =~= iv.take(i as int));
        assert(iv.take(i + 1).last() == iv[i as int]);
        match model.get_shape(ids[i].as_str()) {
            Some(Shape::Enum(e)) => {
                let short = short_name(ids[i].as_str());
                let variants = resolve_enum_variants(e);
                put_entry::<Vec<EnumVariantInfo>, Seq<(Seq<char>, Seq<char>)>>(
                    &mut enums,
                    short,
                    variants,
                    Ghost(variants_view_fn()),
                );
            },
            _ => {},
        }
        i = i + 1;
    }
    assert(iv.take(ids.len() as int) =~= iv);
    enums
}

fn tree_refs_exec(model: &SmithyModel, ids: &Vec<String>) -> (r: Vec<String>)
    ensures
        texts(r@) == tree_refs(*model, texts(ids@)),
{
    let ghost iv = texts(ids@);
    let mut visited: Vec<String> = Vec::new();
    let mut i: usize = 0;
    assert(texts(visited@) =~= tree_refs(*model, iv.take(0)));
    while i < ids.len()
        invariant
            i <= ids.len(),
            iv == texts(ids@),
            texts(visited@) == tree_refs(*model, iv.take(i as int)),
        decreases ids.len() - i,
    {
        assert(iv.take(i + 1).drop_last() =~= iv.take(i as int));
        assert(iv.take(i + 1).last() == iv[i as int]);
        collect_referenced_shapes(model, ids[i].as_str(), &mut visited, 0);
        i = i + 1;
    }
    assert(iv.take(ids.len() as int) =~= iv);
    visited
}

/// The struct name of an input shape.
fn input_name(short: &String) -> (r: String)
    ensures
        r@ == input_struct_name(short@),
{
    proof {
        reveal_strlit("Request");
    }
    let cs = str_chars(short.as_str());
    if cs.len() >= 7 {
        let tail = slice_chars(&cs, cs.len() - 7, cs.len());
        assert(tail@ =~= short@.skip(short@.len() - 7));
        if str_eq(string_from_chars(&tail).as_str(), "Request") {
            let mut base = slice_chars(&cs, 0, cs.len() - 7);
            assert(base@ =~= short@.take(short@.len() - 7));
            push_str_chars(&mut base, "Input");
            return string_from_chars(&base);
        }
    }
    short.clone()
}

/// What the scan of the target operations gives: the operations, and the
/// IDs of the referenced, input and output shapes.
pub struct ScannedOperations {
    pub operations: Vec<OperationInfo>,
    pub referenced: Vec<String>,
    pub inputs: Vec<String>,
    pub outputs: Vec<String>,
}

/// The scan of the target operations: each must be an operation shape of
/// the model; their inputs and outputs are recorded with the shapes they
/// reference.
pub fn scan_target_operations(model: &SmithyModel) -> (r: Result<ScannedOperations, String>)
    ensures
        match r {
            Ok(so) => scan_ops(*model, target_operations()) == Ok::<ScanState, Seq<char>>(
                ScanState {
                    refs: texts(so.referenced@),
                    inputs: texts(so.inputs@),
                    outputs: texts(so.outputs@),
                    ops: so.operations@.map_values(|o: OperationInfo| op_view(o)),
                },
            ),
            Err(e) => scan_ops(*model, target_operations()) == Err::<ScanState, Seq<char>>(e@),
        },
{
    let target = target_operation_list();
    let mut operations: Vec<OperationInfo> = Vec::new();
    let mut all_referenced: Vec<String> = Vec::new();
    let mut input_ids: Vec<String> = Vec::new();
    let mut output_ids: Vec<String> = Vec::new();
    let mut k: usize = 0;
    proof {
        assert(target@.take(0) =~= Seq::<&'static str>::empty());
        assert(texts(all_referenced@) =~= Seq::<Seq<char>>::empty());
        assert(operations@.map_values(|o: OperationInfo| op_view(o)) =~= Seq::<
            (Seq<char>, Option<Seq<char>>, Option<Seq<char>>),
        >::empty());
    }
    while k < target.len()
        invariant
            k <= target.len(),
            target@ == crate::codegen::target_operations(),
            scan_ops(*model, target@.take(k as int)) == Ok::<ScanState, Seq<char>>(
                ScanState {
                    refs: texts(all_referenced@),
                    inputs: texts(input_ids@),
                    outputs: texts(output_ids@),
                    ops: operations@.map_values(|o: OperationInfo| op_view(o)),
                },
            ),
        decreases target.len() - k,
    {
        let op_name = target[k];
        let ghost st = ScanState {
            refs: texts(all_referenced@),
            inputs: texts(input_ids@),
            outputs: texts(output_ids@),
            ops: operations@.map_values(|o: OperationInfo| op_view(o)),
        };
        proof {
            assert(target@.take(k + 1).drop_last() =~= target@.take(k as int));
            assert(target@.take(k + 1).last() == op_name);
        }
        let mut full = str_chars("com.amazonaws.s3#");
        push_str_chars(&mut full, op_name);
        let full = string_from_chars(&full);
        let shape = match model.get_shape(full.as_str()) {
            Some(s) => s,
            None => {
                let mut e = str_chars("Operation ");
                push_str_chars(&mut e, op_name);
                push_str_chars(&mut e, " not found in model");
                proof {
                    lemma_scan_fails_on(*model, target@, k as int);
                }
                return Err(string_from_chars(&e));
            },
        };
        let op = match shape {
            Shape::Operation(o) => o,
            _ => {
                let mut e = str_chars(op_name);
                push_str_chars(&mut e, " is not an operation shape");
                proof {
                    lemma_scan_fails_on(*model, target@, k as int);
                }
                return Err(string_from_chars(&e));
            },
        };
        let input_target = match &op.input {
            Some(r) => if str_eq(r.target.as_str(), "smithy.api#Unit") {
                None
            } else {
                Some(r.target.clone())
            },
            None => None,
        };
        let output_target = match &op.output {
            Some(r) => if str_eq(r.target.as_str(), "smithy.api#Unit") {
                None
            } else {
                Some(r.target.clone())
            },
            None => None,
        };
        match &input_target {
            Some(inp) => {
                collect_referenced_shapes(model, inp.as_str(), &mut all_referenced, 0);
                add_name_exec(&mut input_ids, &str_chars(inp.as_str()));
            },
            None => {},
        }
        match &output_target {
            Some(out) => {
                collect_referenced_shapes(model, out.as_str(), &mut all_referenced, 0);
                add_name_exec(&mut output_ids, &str_chars(out.as_str()));
            },
            None => {},
        }
        let ghost before = operations@;
        let info = OperationInfo {
            name: own(op_name),
            input_shape: input_target,
            output_shape: output_target,
        };
        operations.push(info);
        proof {
            assert(operations@.map_values(|o: OperationInfo| op_view(o)) =~= st.ops.push(op_view(info)));
        }
        k = k + 1;
    }
    proof {
        assert(target@.take(target.len() as int) =~= target@);
    }
    Ok(ScannedOperations { operations, referenced: all_referenced, inputs: input_ids, outputs: output_ids })
}

/// Resolve all needed shapes from the Smithy model: the target operations
/// (each must be an operation shape of the model), the shapes they
/// reference, and the enums and structs among them.  The structures and
/// unions it reaches must have member types that resolve (the resolution of
/// a list or map nesting cycle never ends).
#[verifier::rlimit(40)]
pub fn resolve_model(model: &SmithyModel) -> (r: Result<ResolvedModel, String>)
    requires
        model_types_resolve(*model),
    ensures
        match r {
            Ok(rm) => resolution(*model) matches Ok(x) && rm.operations@.map_values(
                |o: OperationInfo| op_view(o),
            ) == x.0 && categories_view(rm.input_categories@) == operation_categories()
                && categories_view(rm.output_categories@) == operation_categories() && pairs_view(
                rm.enums@,
                variants_view_fn(),
            ) == x.1 && pairs_view(rm.shared_structs@, fields_view_fn()) == x.2.shared
                && pairs_view(rm.input_structs@, fields_view_fn()) == x.2.inputs && pairs_view(
                rm.output_structs@,
                fields_view_fn(),
            ) == x.2.outputs,
            Err(e) => resolution(*model) == Err::<
                (
                    Seq<(Seq<char>, Option<Seq<char>>, Option<Seq<char>>)>,
                    Seq<(Seq<char>, Seq<(Seq<char>, Seq<char>)>)>,
                    StructSets,
                ),
                Seq<char>,
            >(e@),
        },
{
    let (input_categories, output_categories) = categorize_operations();
    let scanned = match scan_target_operations(model) {
        Ok(so) => so,
        Err(e) => {
            return Err(e);
        },
    };
    let operations = scanned.operations;
    let all_referenced = scanned.referenced;
    let input_ids = scanned.inputs;
    let output_ids = scanned.outputs;
    let needed_enum_names = enum_names_exec(model, &all_referenced);
    let enums = enums_exec(model, &all_referenced);
    let input_referenced = tree_refs_exec(model, &input_ids);
    let mut shared_structs: Vec<(String, Vec<FieldInfo>)> = Vec::new();
    let mut input_structs: Vec<(String, Vec<FieldInfo>)> = Vec::new();
    let mut output_structs: Vec<(String, Vec<FieldInfo>)> = Vec::new();
    let ghost refs = texts(all_referenced@);
    let ghost en = texts(needed_enum_names@);
    let ghost ins = texts(input_ids@);
    let ghost outs = texts(output_ids@);
    let ghost tree = texts(input_referenced@);
    let mut i: usize = 0;
    proof {
        assert(pairs_view(shared_structs@, fields_view_fn()) =~= Seq::<(Seq<char>, FieldsView)>::empty());
        assert(pairs_view(input_structs@, fields_view_fn()) =~= Seq::<(Seq<char>, FieldsView)>::empty());
        assert(pairs_view(output_structs@, fields_view_fn()) =~= Seq::<(Seq<char>, FieldsView)>::empty());
        assert(refs.take(0) =~= Seq::<Seq<char>>::empty());
    }
    while i < all_referenced.len()
        invariant
            i <= all_referenced.len(),
            refs_resolve(*model, refs),
            refs == texts(all_referenced@),
            en == texts(needed_enum_names@),
            ins == texts(input_ids@),
            outs == texts(output_ids@),
            tree == texts(input_referenced@),
            structs_of(*model, refs.take(i as int), en, ins, outs, tree) == (StructSets {
                shared: pairs_view(shared_structs@, fields_view_fn()),
                inputs: pairs_view(input_structs@, fields_view_fn()),
                outputs: pairs_view(output_structs@, fields_view_fn()),
            }),
        decreases all_referenced.len() - i,
    {
        let id = &all_referenced[i];
        proof {
            assert(refs.take(i + 1).drop_last() =~= refs.take(i as int));
            assert(refs.take(i + 1).last() == refs[i as int]);
            assert(shape_members_resolve(*model, refs[i as int]));
        }
        match model.get_shape(id.as_str()) {
            Some(Shape::Structure(s)) => {
                if !trait_present(&s.traits, "smithy.api#error") {
                    let short = short_name(id.as_str());
                    let fields = resolve_struct_fields(model, s, &needed_enum_names);
                    let is_input = names_contain(&input_ids, id.as_str());
                    let is_output = names_contain(&output_ids, id.as_str());
                    let in_input_tree = names_contain(&input_referenced, id.as_str());
                    if is_input && is_output {
                        put_entry::<Vec<FieldInfo>, FieldsView>(&mut shared_structs, short, fields, Ghost(fields_view_fn()));
                    } else if is_input {
                        let name = input_name(&short);
                        put_entry::<Vec<FieldInfo>, FieldsView>(&mut input_structs, name, fields, Ghost(fields_view_fn()));
                    } else if is_output && !in_input_tree {
                        put_entry::<Vec<FieldInfo>, FieldsView>(&mut output_structs, short, fields, Ghost(fields_view_fn()));
                    } else {
                        put_entry::<Vec<FieldInfo>, FieldsView>(&mut shared_structs, short, fields, Ghost(fields_view_fn()));
                    }
                }
            },
            _ => {},
        }
        i = i + 1;
    }
    proof {
        assert(refs.take(all_referenced.len() as int) =~= refs);
    }
    let ghost after_structs = pairs_view(shared_structs@, fields_view_fn());
    let mut j: usize = 0;
    proof {
        assert(refs.take(0) =~= Seq::<Seq<char>>::empty());
    }
    while j < all_referenced.len()
        invariant
            j <= all_referenced.len(),
            refs_resolve(*model, refs),
            refs == texts(all_referenced@),
            en == texts(needed_enum_names@),
            unions_of(*model, refs.take(j as int), en, after_structs) == pairs_view(
                shared_structs@,
                fields_view_fn(),
            ),
        decreases all_referenced.len() - j,
    {
        let id = &all_referenced[j];
        proof {
            assert(refs.take(j + 1).drop_last() =~= refs.take(j as int));
            assert(refs.take(j + 1).last() == refs[j as int]);
            assert(shape_members_resolve(*model, refs[j as int]));
        }
        match model.get_shape(id.as_str()) {
            Some(Shape::Union(u)) => {
                let short = short_name(id.as_str());
                let fields = resolve_union_fields(model, u, &needed_enum_names);
                put_entry::<Vec<FieldInfo>, FieldsView>(&mut shared_structs, short, fields, Ghost(fields_view_fn()));
            },
            _ => {},
        }
        j = j + 1;
    }
    proof {
        assert(refs.take(all_referenced.len() as int) =~= refs);
    }
    Ok(
        ResolvedModel {
            operations,
            input_categories,
            output_categories,
            enums,
            shared_structs,
            input_structs,
            output_structs,
        },
    )
}

/// When the scan of the first `k` operations succeeded and the next fails,
/// the whole scan fails the same way.
proof fn lemma_scan_fails_on(m: SmithyModel, ops: Seq<&'static str>, k: int)
    requires
        0 <= k < ops.len(),
        scan_ops(m, ops.take(k)) is Ok,
        scan_op(m, scan_ops(m, ops.take(k))->Ok_0, ops[k]) is Err,
    ensures
        scan_ops(m, ops) == scan_op(m, scan_ops(m, ops.take(k))->Ok_0, ops[k]),
    decreases ops.len() - k,
{
    assert(ops.take(k + 1).drop_last() =~= ops.take(k));
    assert(ops.take(k + 1).last() == ops[k]);
    lemma_scan_stays_failed(m, ops, k + 1);
}

/// Once the scan has failed, scanning more operations keeps its error.
proof fn lemma_scan_stays_failed(m: SmithyModel, ops: Seq<&'static str>, j: int)
    requires
        0 < j <= ops.len(),
        scan_ops(m, ops.take(j)) is Err,
    ensures
        scan_ops(m, ops) == scan_ops(m, ops.take(j)),
    decreases ops.len() - j,
{
    if j == ops.len() {
        assert(ops.take(j) =~= ops);
    } else {
        assert(ops.take(j + 1).drop_last() =~= ops.take(j));
        lemma_scan_stays_failed(m, ops, j + 1);
    }
}

fn resolves_within(model: &SmithyModel, target: &str, fuel: usize) -> (r: bool)
    ensures
        r == (rust_type_within(*model, target@, Seq::empty(), fuel as nat) is Some),
    decreases fuel,
{
    if resolve_builtin_type(target).is_some() {
        return true;
    }
    match model.get_shape(target) {
        Some(Shape::List(l)) => fuel > 0 && resolves_within(model, l.member.target.as_str(), fuel - 1),
        Some(Shape::Mapping(mp)) => fuel > 0 && resolves_within(model, mp.key.target.as_str(), fuel - 1)
            && resolves_within(model, mp.value.target.as_str(), fuel - 1),
        _ => true,
    }
}

fn members_resolve_exec(model: &SmithyModel, ms: &Vec<(String, MemberShape)>) -> (r: bool)
    ensures
        r == members_resolve(*model, ms@),
{
    let mut i: usize = 0;
    while i < ms.len()
        invariant
            i <= ms.len(),
            forall|q: int| 0 <= q < i ==> type_resolves(*model, (#[trigger] ms@[q]).1.target@),
        decreases ms.len() - i,
    {
        if !resolves_within(model, ms[i].1.target.as_str(), model.shapes.len()) {
            return false;
        }
        i = i + 1;
    }
    true
}

/// Whether resolving the model terminates: when the target operations are
/// all there, whether every non-error structure and every union that they
/// reach has member types that resolve (no list or map nesting cycle), as
/// `resolve_model` requires.
pub fn model_types_resolve_check(model: &SmithyModel) -> (r: bool)
    ensures
        r == model_types_resolve(*model),
{
    let scanned = match scan_target_operations(model) {
        Ok(so) => so,
        Err(_) => {
            return true;
        },
    };
    let refs = &scanned.referenced;
    let ghost rv = texts(refs@);
    let ghost st = scan_ops(*model, target_operations())->Ok_0;
    let mut i: usize = 0;
    while i < refs.len()
        invariant
            i <= refs.len(),
            rv == texts(refs@),
            scan_ops(*model, target_operations()) == Ok::<ScanState, Seq<char>>(st),
            st.refs == rv,
            forall|q: int| 0 <= q < i ==> shape_members_resolve(*model, #[trigger] rv[q]),
        decreases refs.len() - i,
    {
        assert(rv[i as int] == refs@[i as int]@);
        let ok = match model.get_shape(refs[i].as_str()) {
            Some(Shape::Structure(st)) => trait_present(&st.traits, "smithy.api#error")
                || members_resolve_exec(model, &st.members),
            Some(Shape::Union(u)) => members_resolve_exec(model, &u.members),
            _ => true,
        };
        if !ok {
            assert(!shape_members_resolve(*model, rv[i as int]));
            return false;
        }
        i = i + 1;
    }
    true
}

} // verus!
