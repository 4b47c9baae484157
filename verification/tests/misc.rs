use rustack::codegen_config::{
    default_file_layout, parse_protocol, default_serde_rename, default_true, CustomError, ErrorsSection,
    OperationsSection, OutputSection, OverlaySection, Protocol, ProtocolSection, ServiceConfig,
    ServiceConfigFile, ServiceSection,
};
use rustack::errors::{AuthError, RustackError};

fn strings(v: &[&str]) -> Vec<String> {
    v.iter().map(|s| s.to_string()).collect()
}

fn config_file(protocol: &str, serde_rename: &str, operations: OperationsSection) -> ServiceConfigFile {
    ServiceConfigFile {
        service: ServiceSection {
            name: "sqs".to_owned(),
            display_name: "SQS".to_owned(),
            rust_prefix: "Sqs".to_owned(),
            namespace: "com.amazonaws.sqs".to_owned(),
            protocol: protocol.to_owned(),
        },
        protocol: ProtocolSection {
            serde_rename: serde_rename.to_owned(),
            emit_serde_derives: true,
            ..ProtocolSection::default()
        },
        operations,
        errors: ErrorsSection {
            custom: vec![("QueueDoesNotExist".to_owned(), CustomError { status: 400, message: "m".to_owned() })],
        },
        output: OutputSection { dir: None, file_layout: default_file_layout(), always_serialize_arrays: true },
        overlay: OverlaySection { preserve: strings(&["a.rs"]), extra_modules: vec![] },
    }
}

#[test]
fn defaults_of_config_sections() {
    assert_eq!(default_serde_rename(), "PascalCase");
    assert_eq!(default_file_layout(), "flat");
    assert!(default_true());
}

#[test]
fn config_uses_explicit_operation_list_first() {
    let ops = OperationsSection {
        all: strings(&["B", "A"]),
        phase0: strings(&["X"]),
        ..OperationsSection::default()
    };
    let c = ServiceConfig::from_file(config_file("awsJson1_0", "PascalCase", ops));
    assert_eq!(c.protocol, Protocol::AwsJson1_0);
    assert_eq!(c.all_operations, strings(&["B", "A"]));
    assert!(c.operation_phases.is_empty());
    assert_eq!(c.serde_rename, Some("PascalCase".to_owned()));
    assert!(c.uses_serde());
    assert_eq!(c.namespace_prefix(), "com.amazonaws.sqs#");
    assert!(c.categories.is_none());
    assert_eq!(c.file_layout, "flat");
    assert!(c.always_serialize_arrays);
    assert_eq!(c.custom_errors.len(), 1);
    assert_eq!(c.overlay_preserve, strings(&["a.rs"]));
}

#[test]
fn config_builds_operations_from_phases() {
    let ops = OperationsSection {
        phase0: strings(&["Send", "Receive"]),
        phase2: strings(&["Delete"]),
        phase3: strings(&["Alpha"]),
        ..OperationsSection::default()
    };
    let c = ServiceConfig::from_file(config_file("awsQuery", "none", ops));
    assert_eq!(c.protocol, Protocol::AwsQuery);
    assert_eq!(c.serde_rename, None);
    assert_eq!(c.all_operations, strings(&["Send", "Receive", "Delete", "Alpha"]));
    assert_eq!(
        c.operation_phases,
        vec![
            ("Alpha".to_owned(), 3),
            ("Delete".to_owned(), 2),
            ("Receive".to_owned(), 0),
            ("Send".to_owned(), 0),
        ]
    );
}

#[test]
fn config_builds_operations_from_categories_without_repeats() {
    let ops = OperationsSection {
        categories: vec![
            ("a".to_owned(), strings(&["X", "Y"])),
            ("b".to_owned(), strings(&["Y", "Z"])),
        ],
        ..OperationsSection::default()
    };
    let c = ServiceConfig::from_file(config_file("restXml", "", ops));
    assert_eq!(c.protocol, Protocol::RestXml);
    assert_eq!(c.serde_rename, None);
    assert_eq!(c.all_operations, strings(&["X", "Y", "Z"]));
    assert_eq!(c.categories.as_ref().map(|v| v.len()), Some(2));
}

#[test]
fn config_protocols() {
    let c = ServiceConfig::from_file(config_file("restJson1", "camelCase", OperationsSection::default()));
    assert_eq!(c.protocol, Protocol::RestJson1);
    assert!(c.all_operations.is_empty());
    let c = ServiceConfig::from_file(config_file("awsJson1_1", "camelCase", OperationsSection::default()));
    assert_eq!(c.protocol, Protocol::AwsJson1_1);
}

#[test]
fn rustack_error_messages() {
    assert_eq!(
        RustackError::InvalidAccountId("12".to_owned()).message(),
        "invalid AWS account ID: 12 (must be 12-digit numeric string)"
    );
    assert_eq!(RustackError::Config("bad".to_owned()).message(), "configuration error: bad");
    assert_eq!(RustackError::Internal("boom".to_owned()).message(), "boom");
}

#[test]
fn auth_error_messages() {
    assert_eq!(AuthError::MissingAuthHeader.message(), "Missing Authorization header");
    assert_eq!(AuthError::UnsupportedAlgorithm("X".to_owned()).message(), "Unsupported algorithm: X");
    assert_eq!(AuthError::MissingHeader("host".to_owned()).message(), "Missing required header: host");
    assert_eq!(AuthError::AccessKeyNotFound("AK".to_owned()).message(), "Access key not found: AK");
    assert_eq!(AuthError::SignatureDoesNotMatch.message(), "Signature does not match");
    assert_eq!(AuthError::RequestExpired.message(), "Request has expired");
    assert_eq!(AuthError::MissingQueryParam("p".to_owned()).message(), "Missing required query parameter: p");
    assert_eq!(AuthError::InvalidCredential.message(), "Invalid credential format");
    assert_eq!(AuthError::InvalidAuthHeader.message(), "Invalid Authorization header format");
}

#[test]
fn protocols_are_named() {
    assert_eq!(parse_protocol("restXml"), Some(Protocol::RestXml));
    assert_eq!(parse_protocol("awsJson1_0"), Some(Protocol::AwsJson1_0));
    assert_eq!(parse_protocol("awsJson1_1"), Some(Protocol::AwsJson1_1));
    assert_eq!(parse_protocol("awsQuery"), Some(Protocol::AwsQuery));
    assert_eq!(parse_protocol("restJson1"), Some(Protocol::RestJson1));
    assert_eq!(parse_protocol("RestXml"), None);
    assert_eq!(parse_protocol(""), None);
}
