use qubit_fs_testkit::S3ContractConfig;
use qubit_fs_testkit::s3::config::ConfigVariables;
use qubit_fs_testkit::s3::error_mapper::StoreErrorClass;
use qubit_fs_testkit::s3::error_mapper::StoreFailureKind;
use qubit_fs_testkit::s3::error_mapper::failure_kind;
use qubit_fs_testkit::s3::path_mapper::PathMapError;
use qubit_fs_testkit::s3::path_mapper::PathSemantics;
use qubit_fs_testkit::s3::path_mapper::ProviderPath;
use qubit_fs_testkit::s3::test_control::ControlState;
use qubit_fs_testkit::s3::test_control::GatePoll;
use qubit_fs_testkit::TestStage;
use qubit_fs_testkit::validate_key;

fn literal(text: &str) -> ProviderPath {
    ProviderPath {
        semantics: PathSemantics::ObjectKey,
        text: text.to_owned(),
    }
}

#[test]
fn object_keys_are_preserved_and_prefixed() {
    let config = S3ContractConfig {
        endpoint: "https://example.invalid".into(),
        bucket: "bucket".into(),
        region: "us-east-1".into(),
        access_key_id: "secret-id".into(),
        secret_access_key: "secret-value".into(),
        prefix: "run-1".into(),
        allow_http: false,
    };
    let path = literal("a b/%E4/文件");
    assert_eq!(
        qubit_fs_testkit::s3::path_mapper::map(&config, &path).unwrap(),
        "run-1/a b/%E4/文件"
    );
}

#[test]
fn dot_segments_are_rejected() {
    assert!(validate_key("a/../b").is_err());
    assert!(validate_key("a/./b").is_err());
    assert!(validate_key("a/%2e%2e/b").is_ok());
}

#[test]
fn invalid_prefix_is_rejected_without_normalizing_object_keys() {
    let config = S3ContractConfig {
        prefix: "run/../bad".into(),
        endpoint: "https://example.invalid".into(),
        bucket: "bucket".into(),
        region: "us-east-1".into(),
        access_key_id: "id".into(),
        secret_access_key: "secret".into(),
        allow_http: false,
    };
    let path = literal("a/%2e%2e/b");
    assert!(qubit_fs_testkit::s3::path_mapper::map(&config, &path).is_err());
    let config = S3ContractConfig {
        prefix: "run".into(),
        ..config
    };
    assert_eq!(
        qubit_fs_testkit::s3::path_mapper::map(&config, &path).unwrap(),
        "run/a/%2e%2e/b"
    );
}

#[test]
fn configuration_debug_does_not_expose_credentials() {
    let config = S3ContractConfig {
        endpoint: "https://example.invalid".into(),
        bucket: "bucket".into(),
        region: "us-east-1".into(),
        access_key_id: "secret-id".into(),
        secret_access_key: "secret-value".into(),
        prefix: "run-1".into(),
        allow_http: false,
    };
    let debug = config.redacted_text();
    assert!(!debug.contains("secret-id"));
    assert!(!debug.contains("secret-value"));
}

#[test]
fn ambiguous_sdk_resource_keys_are_rejected() {
    for key in ["a/", "/a", "a//b", "a/./b", "a/../b"] {
        assert!(validate_key(key).is_err(), "{key}");
    }
}

#[test]
fn key_rejection_reasons_are_exact() {
    assert_eq!(validate_key(""), Err("invalid object key"));
    assert_eq!(validate_key("a\0b"), Err("invalid object key"));
    assert_eq!(validate_key("a//b"), Err("invalid object key"));
    assert_eq!(validate_key("/a"), Err("object key is not preserved by the SDK"));
    assert_eq!(validate_key("a/"), Err("object key is not preserved by the SDK"));
    assert_eq!(validate_key("plain/key"), Ok(()));
}

#[test]
fn hierarchical_paths_have_no_object_key() {
    let config = S3ContractConfig {
        endpoint: "https://example.invalid".into(),
        bucket: "bucket".into(),
        region: "us-east-1".into(),
        access_key_id: "id".into(),
        secret_access_key: "secret".into(),
        prefix: "run".into(),
        allow_http: false,
    };
    let path = ProviderPath {
        semantics: PathSemantics::Hierarchical,
        text: "a/b".to_owned(),
    };
    let error = qubit_fs_testkit::s3::path_mapper::map(&config, &path).unwrap_err();
    assert_eq!(error, PathMapError::InvalidPath);
    assert_eq!(error.message(), "S3 path must be a non-empty object key");
    let rooted = S3ContractConfig {
        prefix: "/run".into(),
        ..config
    };
    let error = qubit_fs_testkit::s3::path_mapper::map(&rooted, &literal("a")).unwrap_err();
    assert_eq!(error, PathMapError::InvalidPrefix);
    assert_eq!(error.message(), "S3 prefix must be a non-empty relative object key");
}

fn variables() -> ConfigVariables {
    ConfigVariables {
        endpoint: Some("https://s3.example.invalid".to_owned()),
        bucket: Some("bucket".to_owned()),
        region: Some("us-east-1".to_owned()),
        access_key_id: Some("id".to_owned()),
        secret_access_key: Some("secret".to_owned()),
        prefix: Some("run".to_owned()),
        allow_http: None,
    }
}

#[test]
fn configuration_requires_every_variable() {
    let config = S3ContractConfig::from_variables(variables()).unwrap();
    assert_eq!(config.prefix, "run");
    assert!(!config.allow_http);
    let missing = ConfigVariables {
        region: None,
        ..variables()
    };
    assert_eq!(
        S3ContractConfig::from_variables(missing).err().unwrap(),
        "missing required variable RS_FS_S3_REGION"
    );
}

#[test]
fn configuration_rejects_unrepresentable_prefix() {
    let bad = ConfigVariables {
        prefix: Some("run/../x".to_owned()),
        ..variables()
    };
    assert_eq!(
        S3ContractConfig::from_variables(bad).err().unwrap(),
        "RS_FS_S3_PREFIX must be a non-empty, exactly representable relative key"
    );
}

#[test]
fn http_endpoint_needs_explicit_permission() {
    let http = ConfigVariables {
        endpoint: Some("http://127.0.0.1:9000".to_owned()),
        ..variables()
    };
    assert_eq!(
        S3ContractConfig::from_variables(http).err().unwrap(),
        "RS_FS_S3_ALLOW_HTTP=true is required for an HTTP endpoint"
    );
    let allowed = ConfigVariables {
        endpoint: Some("http://127.0.0.1:9000".to_owned()),
        allow_http: Some("true".to_owned()),
        ..variables()
    };
    assert!(S3ContractConfig::from_variables(allowed).unwrap().allow_http);
    let not_true = ConfigVariables {
        endpoint: Some("http://127.0.0.1:9000".to_owned()),
        allow_http: Some("yes".to_owned()),
        ..variables()
    };
    assert!(S3ContractConfig::from_variables(not_true).is_err());
}

#[test]
fn redacted_text_is_exact() {
    let config = S3ContractConfig::from_variables(variables()).unwrap();
    assert_eq!(
        config.redacted_text(),
        "S3ContractConfig { endpoint: \"https://s3.example.invalid\", bucket: \"bucket\", \
         region: \"us-east-1\", prefix: \"run\", allow_http: false }"
    );
}

#[test]
fn store_errors_map_to_facade_kinds() {
    assert_eq!(failure_kind(StoreErrorClass::NotFound), StoreFailureKind::NotFound);
    assert_eq!(failure_kind(StoreErrorClass::Precondition), StoreFailureKind::PreconditionFailed);
    assert_eq!(failure_kind(StoreErrorClass::AlreadyExists), StoreFailureKind::AlreadyExists);
    assert_eq!(failure_kind(StoreErrorClass::Unauthenticated), StoreFailureKind::AuthenticationFailed);
    assert_eq!(failure_kind(StoreErrorClass::Other), StoreFailureKind::Io);
}

#[test]
fn sdk_errors_are_classified_through_the_facade() {
    let error = object_store::Error::NotFound {
        path: "key".into(),
        source: Box::new(std::io::Error::other("missing")),
    };
    let mapped = qubit_fs_testkit::s3::error_mapper::map(error, qubit_fs::error::FsOperation::Stat);
    assert_eq!(mapped.kind(), qubit_fs::error::FsErrorKind::NotFound);
    let error = object_store::Error::Precondition {
        path: "key".into(),
        source: Box::new(std::io::Error::other("stale")),
    };
    let mapped = qubit_fs_testkit::s3::error_mapper::map(error, qubit_fs::error::FsOperation::Read);
    assert_eq!(mapped.kind(), qubit_fs::error::FsErrorKind::PreconditionFailed);
    assert!(mapped.to_string().ends_with("S3 operation failed"));
    let source = std::error::Error::source(&mapped).unwrap();
    assert!(matches!(
        source.downcast_ref::<object_store::Error>(),
        Some(object_store::Error::Precondition { .. })
    ));
}

#[test]
fn armed_gate_parks_only_its_stage() {
    let mut state = ControlState::new();
    assert!(state.arm(TestStage::Flush));
    assert!(!state.poll_reached());
    assert_eq!(state.poll_gate(TestStage::Write), GatePoll::Ready);
    assert!(!state.poll_reached());
    assert_eq!(state.poll_gate(TestStage::Flush), GatePoll::Parked);
    assert!(state.poll_reached());
    assert!(!state.arm(TestStage::Open));
    state.release();
    assert_eq!(state.poll_gate(TestStage::Flush), GatePoll::Ready);
    assert!(state.arm(TestStage::Open));
}

#[test]
fn arming_resets_accepted_bytes() {
    let mut state = ControlState::new();
    state.record_write(5);
    state.record_write(7);
    assert_eq!(state.accepted_bytes(), 12);
    assert!(state.arm(TestStage::BeforePut));
    assert_eq!(state.accepted_bytes(), 0);
    state.record_put();
    state.record_put();
    assert_eq!(state.put_calls(), 2);
}

#[test]
fn abort_failure_is_one_shot() {
    let mut state = ControlState::new();
    assert!(!state.begin_abort());
    state.fail_next_abort();
    assert!(state.begin_abort());
    assert!(!state.begin_abort());
    assert_eq!(state.abort_calls(), 3);
}

#[test]
fn configured_prefix_parses_the_namespace() {
    let config = S3ContractConfig::from_variables(variables()).unwrap();
    assert_eq!(qubit_fs_testkit::s3::path_mapper::configured_prefix(&config), Ok("run".to_owned()));
    let mut dotted = config.clone();
    dotted.prefix = "run/../other".to_owned();
    assert_eq!(
        qubit_fs_testkit::s3::path_mapper::configured_prefix(&dotted),
        Err("invalid object key")
    );
    let mut trailing = config.clone();
    trailing.prefix = "run/".to_owned();
    assert_eq!(
        qubit_fs_testkit::s3::path_mapper::configured_prefix(&trailing),
        Err("object key is not preserved by the SDK")
    );
}

#[test]
fn mapped_errors_keep_operation_and_kind_per_variant() {
    let cases = [
        (
            object_store::Error::AlreadyExists {
                path: "key".into(),
                source: Box::new(std::io::Error::other("exists")),
            },
            qubit_fs::error::FsErrorKind::AlreadyExists,
        ),
        (
            object_store::Error::Unauthenticated {
                path: "key".into(),
                source: Box::new(std::io::Error::other("denied")),
            },
            qubit_fs::error::FsErrorKind::AuthenticationFailed,
        ),
        (
            object_store::Error::Generic {
                store: "memory",
                source: Box::new(std::io::Error::other("broken")),
            },
            qubit_fs::error::FsErrorKind::Io,
        ),
    ];
    for (error, kind) in cases {
        let mapped = qubit_fs_testkit::s3::error_mapper::map(error, qubit_fs::error::FsOperation::List);
        assert_eq!(mapped.kind(), kind);
        assert_eq!(mapped.operation(), qubit_fs::error::FsOperation::List);
    }
}

#[test]
fn redacted_text_escapes_quotes() {
    let mut config = S3ContractConfig::from_variables(variables()).unwrap();
    config.bucket = "b\"x\\y".to_owned();
    assert_eq!(
        config.redacted_text(),
        "S3ContractConfig { endpoint: \"https://s3.example.invalid\", bucket: \"b\\\"x\\\\y\", \
         region: \"us-east-1\", prefix: \"run\", allow_http: false }"
    );
}

#[test]
fn gate_is_reached_only_by_a_poll_of_its_stage_since_arming() {
    let mut state = ControlState::new();
    assert!(state.arm(TestStage::BeforePut));
    state.record_write(3);
    state.record_put();
    assert_eq!(state.poll_gate(TestStage::Flush), GatePoll::Ready);
    state.fail_next_abort();
    assert!(state.begin_abort());
    assert!(!state.poll_reached());
    assert_eq!(state.poll_gate(TestStage::BeforePut), GatePoll::Parked);
    state.record_write(1);
    assert!(state.poll_reached());
    state.release();
    assert!(state.arm(TestStage::Abort));
    assert!(!state.poll_reached());
}

#[test]
fn control_characters_and_dot_segments_are_refused() {
    assert_eq!(validate_key("run\u{1}x"), Err("invalid object key"));
    assert_eq!(validate_key("run/./x"), Err("invalid object key"));
    assert_eq!(validate_key("run/.x"), Ok(()));
    assert_eq!(validate_key("/run"), Err("object key is not preserved by the SDK"));
}
