use rustack::codegen::{
    category_needs_types, collect_type_references, generate_all, generate_error, generate_lib,
    generate_operations, generate_request, generate_types, short_name, write_enum, write_struct,
    FILE_HEADER,
};
use rustack::codegen_shapes::{
    categorize_operations, is_collection_type, resolve_builtin_type, EnumVariantInfo, FieldInfo,
    HttpBinding, OperationInfo, ResolvedModel,
};

fn field(name: &str, ty: &str, binding: Option<HttpBinding>) -> FieldInfo {
    FieldInfo {
        smithy_name: name.to_owned(),
        rust_name: name.to_lowercase(),
        rust_type: ty.to_owned(),
        required: false,
        http_binding: binding,
    }
}

fn variant(rust: &str, value: &str) -> EnumVariantInfo {
    EnumVariantInfo { rust_name: rust.to_owned(), string_value: value.to_owned() }
}

fn text(v: &[char]) -> String {
    v.iter().collect()
}

fn model() -> ResolvedModel {
    ResolvedModel {
        operations: vec![
            OperationInfo {
                name: "GetObject".to_owned(),
                input_shape: Some("com.amazonaws.s3#GetObjectRequest".to_owned()),
                output_shape: Some("com.amazonaws.s3#GetObjectOutput".to_owned()),
            },
            OperationInfo { name: "ListBuckets".to_owned(), input_shape: None, output_shape: None },
        ],
        input_categories: vec![("object".to_owned(), vec!["GetObject".to_owned(), "Missing".to_owned()])],
        output_categories: vec![("object".to_owned(), vec!["GetObject".to_owned()])],
        enums: vec![("StorageClass".to_owned(), vec![variant("Standard", "STANDARD")])],
        shared_structs: vec![("Tag".to_owned(), vec![field("Key", "String", None)])],
        input_structs: vec![(
            "GetObjectInput".to_owned(),
            vec![
                field("Bucket", "String", Some(HttpBinding::Label)),
                field("Class", "Option<StorageClass>", Some(HttpBinding::Header("x-amz-storage-class".to_owned()))),
                field("Tags", "Vec<Tag>", None),
            ],
        )],
        output_structs: vec![(
            "GetObjectOutput".to_owned(),
            vec![field("Meta", "HashMap<String, String>", Some(HttpBinding::PrefixHeaders("x-amz-meta-".to_owned())))],
        )],
    }
}

#[test]
fn enum_text_has_default_rename_and_conversions() {
    let mut out = Vec::new();
    write_enum(&mut out, "Mode", &vec![variant("On", "on"), variant("Off", "Off")]);
    let expected: Vec<&str> = vec![
        "/// S3 Mode enum.",
        "#[derive(Debug, Clone, PartialEq, Eq, Hash, Default, Serialize, Deserialize)]",
        "pub enum Mode {",
        "    /// Default variant.",
        "    #[default]",
        "    #[serde(rename = \"on\")]",
        "    On,",
        "    Off,",
        "}",
        "",
        "impl Mode {",
        "    /// Returns the string value of this enum variant.",
        "    #[must_use]",
        "    pub fn as_str(&self) -> &'static str {",
        "        match self {",
        "            Self::On => \"on\",",
        "            Self::Off => \"Off\",",
        "        }",
        "    }",
        "}",
        "",
        "impl std::fmt::Display for Mode {",
        "    fn fmt(&self, f: &mut std::fmt::Formatter<'_>) -> std::fmt::Result {",
        "        f.write_str(self.as_str())",
        "    }",
        "}",
        "",
        "impl From<&str> for Mode {",
        "    fn from(s: &str) -> Self {",
        "        match s {",
        "            \"on\" => Self::On,",
        "            \"Off\" => Self::Off,",
        "            _ => Self::default(),",
        "        }",
        "    }",
        "}",
        "",
    ];
    let mut want = String::new();
    for l in expected {
        want.push_str(l);
        want.push('\n');
    }
    assert_eq!(text(&out), want);
}

#[test]
fn struct_text_with_binding_comments() {
    let fields = vec![
        field("Bucket", "String", Some(HttpBinding::Label)),
        field("Key", "String", Some(HttpBinding::Query("key".to_owned()))),
        field("Body", "StreamingBlob", Some(HttpBinding::Payload)),
        field("Plain", "i32", None),
    ];
    let mut out = Vec::new();
    write_struct(&mut out, "Req", &fields, true);
    assert_eq!(
        text(&out),
        "/// S3 Req.\n#[derive(Debug, Clone, Default)]\npub struct Req {\n    /// HTTP label (URI path).\n    pub bucket: String,\n    /// HTTP query: `key`.\n    pub key: String,\n    /// HTTP payload body.\n    pub body: StreamingBlob,\n    pub plain: i32,\n}\n\n"
    );
    let mut plain = Vec::new();
    write_struct(&mut plain, "Req", &fields, false);
    assert!(!text(&plain).contains("HTTP"));
}

#[test]
fn types_file_imports_what_it_needs() {
    let mut m = model();
    let t = generate_types(&m);
    assert!(t.starts_with(&format!("{FILE_HEADER}\n\nuse serde::{{Deserialize, Serialize}};\n\n/// S3 StorageClass enum.")));
    m.shared_structs[0].1.push(field("Map", "HashMap<String, String>", None));
    m.shared_structs[0].1.push(field("Blob", "StreamingBlob", None));
    let t = generate_types(&m);
    assert!(t.starts_with(&format!(
        "{FILE_HEADER}\n\nuse std::collections::HashMap;\n\nuse serde::{{Deserialize, Serialize}};\n\nuse crate::request::StreamingBlob;\n\n"
    )));
}

#[test]
fn operations_file_lists_every_operation() {
    let t = generate_operations();
    assert!(t.contains("pub enum S3Operation {\n    /// The CreateBucket operation.\n    CreateBucket,\n"));
    assert!(t.contains("            Self::ListObjectVersions => \"ListObjectVersions\",\n"));
    assert!(t.contains("            \"PutObject\" => Some(Self::PutObject),\n"));
    assert!(t.ends_with("        f.write_str(self.as_str())\n    }\n}\n"));
    assert_eq!(t.matches(" => Some(Self::").count(), 70);
}

#[test]
fn error_file_groups_statuses() {
    let t = generate_error();
    assert!(t.starts_with(&format!("{FILE_HEADER}\n\nuse std::fmt;\n\n/// Well-known S3 error codes.\n")));
    assert!(t.contains("    /// Default error code.\n    #[default]\n    /// AccessDenied error.\n    AccessDenied,\n"));
    assert!(t.contains("            Self::MethodNotAllowed => http::StatusCode::METHOD_NOT_ALLOWED,\n"));
    assert!(t.contains("            Self::NotImplemented => http::StatusCode::NOT_IMPLEMENTED,\n"));
    assert!(t.contains("            Self::AccessDenied | Self::AccountProblem | Self::InvalidObjectState | Self::ObjectNotInActiveTierError | Self::SignatureDoesNotMatch => http::StatusCode::FORBIDDEN,\n"));
    let bad = t.find("http::StatusCode::BAD_REQUEST,").unwrap();
    let forbidden = t.find("http::StatusCode::FORBIDDEN,").unwrap();
    let not_impl = t.find("http::StatusCode::NOT_IMPLEMENTED,").unwrap();
    assert!(bad < forbidden && forbidden < not_impl);
    assert!(t.contains("    pub fn internal_error(message: impl Into<String>) -> Self {\n        Self::with_message(S3ErrorCode::InternalError, message)\n    }\n"));
    assert!(t.contains("    pub fn no_such_key(key: impl Into<String>) -> Self {\n        Self::new(S3ErrorCode::NoSuchKey).with_resource(key)\n    }\n"));
    assert!(t.ends_with("    ($code:ident, $msg:expr) => {\n        $crate::error::S3Error::with_message($crate::error::S3ErrorCode::$code, $msg)\n    };\n}\n"));
}

#[test]
fn request_and_lib_files() {
    let r = generate_request();
    assert!(r.contains("pub struct StreamingBlob {\n    /// The underlying bytes data.\n    pub data: bytes::Bytes,\n}\n"));
    assert!(r.ends_with("            headers: self.headers,\n        }\n    }\n}\n"));
    let l = generate_lib(&model());
    assert!(l.starts_with(&format!("{FILE_HEADER}\n#![allow(clippy::too_many_lines)]\n")));
    assert!(l.ends_with("// Generated: 2 operations, 1 enums, 1 shared structs, 1 input structs, 1 output structs\n"));
}

#[test]
fn all_files_in_path_order() {
    let files = generate_all(&model());
    let paths: Vec<&str> = files.iter().map(|f| f.0.as_str()).collect();
    assert_eq!(
        paths,
        vec![
            "error.rs",
            "input/mod.rs",
            "input/object.rs",
            "lib.rs",
            "operations.rs",
            "output/mod.rs",
            "output/object.rs",
            "request.rs",
            "types.rs",
        ]
    );
    let input_mod = &files[1].1;
    assert_eq!(input_mod, &format!("{FILE_HEADER}\n\nmod object;\n\npub use object::*;\n"));
    let input_object = &files[2].1;
    assert!(input_object.starts_with(&format!(
        "{FILE_HEADER}\n\nuse crate::types::{{StorageClass, Tag}};\n\n/// S3 GetObjectInput.\n"
    )));
    assert!(input_object.contains("    /// HTTP header: `x-amz-storage-class`.\n    pub class: Option<StorageClass>,\n"));
    let output_object = &files[6].1;
    assert!(output_object.starts_with(&format!("{FILE_HEADER}\n\nuse std::collections::HashMap;\n\n/// S3 GetObjectOutput.\n")));
    assert!(output_object.contains("    /// HTTP prefix headers: `x-amz-meta-`.\n"));
}

#[test]
fn type_references_are_sorted_and_unique() {
    let m = model();
    let mut refs = Vec::new();
    collect_type_references("HashMap<Tag, Vec<StorageClass>>", &m, &mut refs);
    collect_type_references("Option<Tag>", &m, &mut refs);
    collect_type_references("String", &m, &mut refs);
    assert_eq!(refs, vec!["StorageClass".to_owned(), "Tag".to_owned()]);
    let fields = vec![field("A", "Vec<Tag>", None), field("B", "Unknown", None)];
    let name = "X".to_owned();
    let needed = category_needs_types(&[(&name, &fields)], &m);
    assert_eq!(needed, vec!["Tag".to_owned()]);
}

#[test]
fn shape_helpers() {
    assert_eq!(short_name("com.amazonaws.s3#GetObjectRequest"), "GetObjectRequest");
    assert_eq!(short_name("a#b#c"), "c");
    assert_eq!(short_name("plain"), "plain");
    assert_eq!(resolve_builtin_type("smithy.api#PrimitiveLong"), Some("i64"));
    assert_eq!(resolve_builtin_type("smithy.api#Timestamp"), Some("chrono::DateTime<chrono::Utc>"));
    assert_eq!(resolve_builtin_type("com.amazonaws.s3#Tag"), None);
    assert!(is_collection_type("Vec<Tag>"));
    assert!(is_collection_type("HashMap<String, String>"));
    assert!(!is_collection_type("Option<Vec<Tag>>"));
}

#[test]
fn operation_categories_in_name_order() {
    let (input, output) = categorize_operations();
    let names: Vec<&str> = input.iter().map(|c| c.0.as_str()).collect();
    assert_eq!(names, vec!["bucket", "config", "list", "multipart", "object"]);
    assert_eq!(input[0].1[0], "CreateBucket");
    assert_eq!(input[2].1, vec!["ListObjects", "ListObjectsV2", "ListObjectVersions"]);
    assert_eq!(output.len(), 5);
    let total: usize = input.iter().map(|c| c.1.len()).sum();
    assert_eq!(total, 70);
}
