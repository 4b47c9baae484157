use rustack::codegen::target_operation_list;
use rustack::codegen_model::{
    EnumShape, ListShape, MapShape, MemberShape, OperationShape, Shape, ShapeRef, SimpleShape,
    SmithyModel, StructureShape, UnionShape,
};
use rustack::codegen_shapes::{
    collect_referenced_shapes, extract_http_binding, model_types_resolve_check, resolve_model,
    resolve_rust_type, resolve_simple_rust_type, to_pascal_case, to_snake_case, HttpBinding,
};

const NS: &str = "com.amazonaws.s3#";

fn sref(t: &str) -> ShapeRef {
    ShapeRef { target: t.to_owned() }
}

fn member(target: &str, traits: &[(&str, Option<&str>)]) -> MemberShape {
    MemberShape {
        target: target.to_owned(),
        traits: traits.iter().map(|(k, v)| (k.to_string(), v.map(|s| s.to_string()))).collect(),
    }
}

fn simple() -> SimpleShape {
    SimpleShape { traits: vec![] }
}

fn op(input: Option<&str>, output: Option<&str>) -> Shape {
    Shape::Operation(OperationShape { input: input.map(sref), output: output.map(sref), traits: vec![] })
}

/// A model where every supported operation exists; `GetObject` and
/// `PutObject` have real shapes.
fn model() -> SmithyModel {
    let mut shapes: Vec<(String, Shape)> = Vec::new();
    for name in target_operation_list() {
        let shape = match name {
            "GetObject" => op(Some("com.amazonaws.s3#GetObjectRequest"), Some("com.amazonaws.s3#GetObjectOutput")),
            "PutObject" => op(Some("com.amazonaws.s3#PutObjectRequest"), Some("smithy.api#Unit")),
            _ => op(None, Some("smithy.api#Unit")),
        };
        shapes.push((format!("{NS}{name}"), shape));
    }
    shapes.push((
        format!("{NS}GetObjectRequest"),
        Shape::Structure(StructureShape {
            members: vec![
                ("Key".to_owned(), member(&format!("{NS}ObjectKey"), &[("smithy.api#required", None), ("smithy.api#httpLabel", None)])),
                ("Bucket".to_owned(), member("smithy.api#String", &[("smithy.api#httpQuery", Some("bucket"))])),
                ("Tags".to_owned(), member(&format!("{NS}TagList"), &[])),
                ("Class".to_owned(), member(&format!("{NS}StorageClass"), &[("smithy.api#httpHeader", Some("x-amz-storage-class"))])),
            ],
            traits: vec![],
        }),
    ));
    shapes.push((
        format!("{NS}PutObjectRequest"),
        Shape::Structure(StructureShape {
            members: vec![("Body".to_owned(), member(&format!("{NS}Body"), &[("smithy.api#httpPayload", None)]))],
            traits: vec![],
        }),
    ));
    shapes.push((
        format!("{NS}GetObjectOutput"),
        Shape::Structure(StructureShape {
            members: vec![
                ("Meta".to_owned(), member(&format!("{NS}Metadata"), &[("smithy.api#httpPrefixHeaders", Some("x-amz-meta-"))])),
                ("Choice".to_owned(), member(&format!("{NS}Choice"), &[])),
            ],
            traits: vec![],
        }),
    ));
    shapes.push((format!("{NS}ObjectKey"), Shape::String(simple())));
    shapes.push((format!("{NS}Body"), Shape::Blob(SimpleShape { traits: vec![("smithy.api#streaming".to_owned(), None)] })));
    shapes.push((format!("{NS}TagList"), Shape::List(ListShape { member: sref(&format!("{NS}Tag")), traits: vec![] })));
    shapes.push((
        format!("{NS}Tag"),
        Shape::Structure(StructureShape {
            members: vec![("Value".to_owned(), member("smithy.api#String", &[("smithy.api#required", None)]))],
            traits: vec![],
        }),
    ));
    shapes.push((
        format!("{NS}StorageClass"),
        Shape::Enum(EnumShape {
            members: vec![
                ("STANDARD_IA".to_owned(), member("smithy.api#Unit", &[("smithy.api#enumValue", Some("STANDARD_IA"))])),
                ("GLACIER".to_owned(), member("smithy.api#Unit", &[])),
            ],
            traits: vec![],
        }),
    ));
    shapes.push((
        format!("{NS}Metadata"),
        Shape::Mapping(MapShape { key: sref("smithy.api#String"), value: sref(&format!("{NS}ObjectKey")), traits: vec![] }),
    ));
    shapes.push((
        format!("{NS}Choice"),
        Shape::Union(UnionShape {
            members: vec![("Count".to_owned(), member("smithy.api#Integer", &[]))],
            traits: vec![],
        }),
    ));
    SmithyModel { smithy: "2.0".to_owned(), shapes }
}

#[test]
fn resolve_reports_missing_operation() {
    let m = SmithyModel { smithy: "2.0".to_owned(), shapes: vec![] };
    assert_eq!(resolve_model(&m).unwrap_err(), "Operation CreateBucket not found in model");
    let m = SmithyModel {
        smithy: "2.0".to_owned(),
        shapes: vec![(format!("{NS}CreateBucket"), Shape::String(simple()))],
    };
    assert_eq!(resolve_model(&m).unwrap_err(), "CreateBucket is not an operation shape");
}

#[test]
fn resolve_collects_operations_and_shapes() {
    let m = model();
    assert!(model_types_resolve_check(&m));
    let r = resolve_model(&m).unwrap();
    assert_eq!(r.operations.len(), 70);
    let get = r.operations.iter().find(|o| o.name == "GetObject").unwrap();
    assert_eq!(get.input_shape.as_deref(), Some("com.amazonaws.s3#GetObjectRequest"));
    let put = r.operations.iter().find(|o| o.name == "PutObject").unwrap();
    assert_eq!(put.output_shape, None);
    assert_eq!(r.input_categories.len(), 5);

    let input_names: Vec<&str> = r.input_structs.iter().map(|s| s.0.as_str()).collect();
    assert_eq!(input_names, vec!["GetObjectInput", "PutObjectInput"]);
    let output_names: Vec<&str> = r.output_structs.iter().map(|s| s.0.as_str()).collect();
    assert_eq!(output_names, vec!["GetObjectOutput"]);
    let shared_names: Vec<&str> = r.shared_structs.iter().map(|s| s.0.as_str()).collect();
    assert_eq!(shared_names, vec!["Choice", "Tag"]);

    let fields = &r.input_structs[0].1;
    let names: Vec<&str> = fields.iter().map(|f| f.rust_name.as_str()).collect();
    assert_eq!(names, vec!["bucket", "class", "key", "tags"]);
    assert_eq!(fields[0].rust_type, "Option<String>");
    assert!(matches!(&fields[0].http_binding, Some(HttpBinding::Query(q)) if q == "bucket"));
    assert_eq!(fields[1].rust_type, "Option<StorageClass>");
    assert_eq!(fields[2].rust_type, "String");
    assert!(fields[2].required);
    assert!(matches!(fields[2].http_binding, Some(HttpBinding::Label)));
    assert_eq!(fields[3].rust_type, "Vec<Tag>");

    let body = &r.input_structs[1].1[0];
    assert_eq!(body.rust_type, "Option<StreamingBlob>");
    assert!(matches!(body.http_binding, Some(HttpBinding::Payload)));

    let out = &r.output_structs[0].1;
    assert_eq!(out[1].rust_type, "HashMap<String, String>");
    assert!(matches!(&out[1].http_binding, Some(HttpBinding::PrefixHeaders(p)) if p == "x-amz-meta-"));
    assert_eq!(out[0].rust_type, "Option<Choice>");

    let choice = &r.shared_structs[0].1;
    assert_eq!(choice[0].rust_type, "Option<i32>");
    assert!(choice[0].http_binding.is_none());

    assert_eq!(r.enums.len(), 1);
    assert_eq!(r.enums[0].0, "StorageClass");
    let variants: Vec<(&str, &str)> =
        r.enums[0].1.iter().map(|v| (v.rust_name.as_str(), v.string_value.as_str())).collect();
    assert_eq!(variants, vec![("Glacier", "GLACIER"), ("StandardIa", "STANDARD_IA")]);
}

#[test]
fn error_shapes_are_skipped_and_cycles_detected() {
    let mut m = model();
    for s in m.shapes.iter_mut() {
        if s.0 == format!("{NS}Tag") {
            if let Shape::Structure(st) = &mut s.1 {
                st.traits.push(("smithy.api#error".to_owned(), Some("client".to_owned())));
            }
        }
    }
    let r = resolve_model(&m).unwrap();
    assert!(r.shared_structs.iter().all(|s| s.0 != "Tag"));

    let mut cyclic = model();
    cyclic.shapes.push((format!("{NS}Loop"), Shape::List(ListShape { member: sref(&format!("{NS}Loop")), traits: vec![] })));
    cyclic.shapes.push((
        format!("{NS}Holder"),
        Shape::Structure(StructureShape { members: vec![("L".to_owned(), member(&format!("{NS}Loop"), &[]))], traits: vec![] }),
    ));
    // A cycle that no target operation reaches is not looked at.
    assert!(model_types_resolve_check(&cyclic));
    assert!(resolve_model(&cyclic).is_ok());
    // Once a reached structure refers to it, the model cannot be resolved.
    for s in cyclic.shapes.iter_mut() {
        if s.0 == format!("{NS}GetObjectRequest") {
            if let Shape::Structure(st) = &mut s.1 {
                st.members.push(("Holder".to_owned(), member(&format!("{NS}Holder"), &[])));
            }
        }
    }
    assert!(!model_types_resolve_check(&cyclic));
    // A model without the target operations needs no check.
    let empty = SmithyModel { smithy: "2.0".to_owned(), shapes: vec![] };
    assert!(model_types_resolve_check(&empty));
}

#[test]
fn referenced_shapes_are_collected_once_and_sorted() {
    let m = model();
    let mut visited = Vec::new();
    collect_referenced_shapes(&m, "com.amazonaws.s3#GetObjectRequest", &mut visited, 0);
    assert_eq!(
        visited,
        vec![
            "com.amazonaws.s3#GetObjectRequest".to_owned(),
            "com.amazonaws.s3#ObjectKey".to_owned(),
            "com.amazonaws.s3#StorageClass".to_owned(),
            "com.amazonaws.s3#Tag".to_owned(),
            "com.amazonaws.s3#TagList".to_owned(),
        ]
    );
    let mut deep = Vec::new();
    collect_referenced_shapes(&m, "com.amazonaws.s3#TagList", &mut deep, 16);
    assert!(deep.is_empty());
}

#[test]
fn type_and_name_helpers() {
    let m = model();
    let enums = vec!["StorageClass".to_owned()];
    assert_eq!(resolve_rust_type(&m, "com.amazonaws.s3#Metadata", &enums), "HashMap<String, String>");
    assert_eq!(resolve_rust_type(&m, "com.amazonaws.s3#StorageClass", &enums), "StorageClass");
    assert_eq!(resolve_rust_type(&m, "com.amazonaws.s3#StorageClass", &vec![]), "String");
    assert_eq!(resolve_rust_type(&m, "com.amazonaws.s3#Unknown", &enums), "String");
    assert_eq!(resolve_rust_type(&m, "smithy.api#Timestamp", &enums), "chrono::DateTime<chrono::Utc>");
    assert_eq!(resolve_simple_rust_type(&Shape::Service(simple()), "a#Svc"), "Svc");
    assert_eq!(to_snake_case("ContentMD5"), "content_md5");
    assert_eq!(to_snake_case("Type"), "r#type");
    assert_eq!(to_snake_case("Use"), "r#use");
    assert_eq!(to_pascal_case("STANDARD_IA"), "StandardIa");
    let b = extract_http_binding(&member("x", &[("smithy.api#httpQuery", None), ("smithy.api#httpHeader", Some("h"))]));
    assert!(matches!(b, Some(HttpBinding::Header(h)) if h == "h"));
    assert!(extract_http_binding(&member("x", &[])).is_none());
}
