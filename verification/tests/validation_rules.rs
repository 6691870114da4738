use herdr_harness_coordinator::{
    contract::{
        AttachmentId, RepositoryAccess, SessionReusePolicy, TaskId, TaskRepositoryAuthorityV1,
        TaskRole, TaskSubmissionV1, ValidationError, WriteScopeV1, field_error,
    },
    validation::{
        Validate, validate_absolute_path, validate_optional_text, validate_relative_path,
        validate_request_key, validate_sha256, validate_string_items, validate_text,
        validate_unique_limit, validate_version,
    },
};

fn submission() -> TaskSubmissionV1 {
    TaskSubmissionV1 {
        schema_version: 1,
        request_key: Some("create-1".to_owned()),
        worker_id: "worker".parse().expect("valid ID"),
        related_task_id: Some(TaskId::new()),
        depends_on: Vec::new(),
        task_role: TaskRole::Implementation,
        session_reuse: SessionReusePolicy::Auto,
        preferred_session_id: None,
        title: "Fix the parser".to_owned(),
        instructions: "Make the parser accept empty input.".to_owned(),
        attachments: vec![AttachmentId(1)],
        repository: TaskRepositoryAuthorityV1 {
            root: "/repo".to_owned(),
            access: RepositoryAccess::Mutating,
            write_scopes: vec![WriteScopeV1::Subtree {
                path: "src/parser".to_owned(),
            }],
        },
    }
}

#[test]
fn a_well_formed_submission_validates() {
    assert!(submission().validate().is_ok());
}

#[test]
fn invalid_task_path_is_rejected_by_typed_validation() {
    let mut task = submission();
    task.repository.write_scopes = vec![WriteScopeV1::ExactFile {
        path: "../outside.rs".to_owned(),
    }];
    let error = task.validate().expect_err("escaping path must fail");
    assert_eq!(
        error,
        field_error(
            "repository.write_scopes.path",
            "must be a normalized repository-relative UTF-8 path"
        )
    );
}

#[test]
fn repository_authority_rules() {
    let mut task = submission();
    task.repository.access = RepositoryAccess::ReadOnly;
    assert_eq!(
        task.validate().expect_err("read-only with scopes").to_text(),
        "invalid `repository.write_scopes`: must be empty for read_only"
    );
    task.repository.access = RepositoryAccess::Mutating;
    task.repository.write_scopes.clear();
    assert_eq!(
        task.validate().expect_err("mutating without scopes").to_text(),
        "invalid `repository.write_scopes`: must not be empty for mutating"
    );
    task.repository.write_scopes = vec![
        WriteScopeV1::ExactFile { path: "a.rs".to_owned() },
        WriteScopeV1::ExactFile { path: "a.rs".to_owned() },
    ];
    assert_eq!(
        task.validate().expect_err("duplicate scopes").to_text(),
        "invalid `repository.write_scopes`: contains duplicates"
    );
    task.repository.root = "repo".to_owned();
    assert_eq!(
        task.validate().expect_err("relative root").to_text(),
        "invalid `repository.root`: must be an absolute path of at most 4096 bytes"
    );
}

#[test]
fn submission_rules_report_the_first_failure() {
    let mut task = submission();
    task.title = String::new();
    task.schema_version = 3;
    assert_eq!(
        task.validate().expect_err("version first").to_text(),
        "invalid `schema_version`: must equal 1"
    );
    task.schema_version = 1;
    assert_eq!(
        task.validate().expect_err("empty title").to_text(),
        "invalid `title`: is empty or exceeds the v1 length limit"
    );
    task.title = "ok".to_owned();
    task.attachments = vec![AttachmentId(1), AttachmentId(1)];
    assert_eq!(
        task.validate().expect_err("duplicate attachments").to_text(),
        "invalid `attachments`: contains duplicates or exceeds the item limit"
    );
}

#[test]
fn field_rules_check_each_shape() {
    assert!(validate_version(1).is_ok());
    assert!(validate_version(0).is_err());
    assert!(validate_text("title", "é", 1, 2).is_ok());
    assert!(validate_text("title", "é", 1, 1).is_err());
    assert!(validate_text("title", "ab", 1, 8).is_err());
    assert!(validate_optional_text("model", &None, 1).is_ok());
    assert!(validate_optional_text("model", &Some(String::new()), 1).is_err());
    assert!(validate_request_key(&Some("k".repeat(128))).is_ok());
    assert!(validate_request_key(&Some("k".repeat(129))).is_err());
    assert!(validate_absolute_path("cwd", &"/tmp/project".to_owned()).is_ok());
    assert!(validate_absolute_path("cwd", &"tmp/project".to_owned()).is_err());
    assert!(validate_relative_path("path", &"src/lib.rs".to_owned()).is_ok());
    for bad in ["", "/abs", "a/../b", "a//b", "a/", "./a", "a\\b"] {
        assert!(
            validate_relative_path("path", &bad.to_owned()).is_err(),
            "{bad:?} must be refused"
        );
    }
    assert!(validate_unique_limit("attachments", &vec![AttachmentId(1), AttachmentId(2)], 2).is_ok());
    assert!(validate_unique_limit("attachments", &vec![AttachmentId(1), AttachmentId(2)], 1).is_err());
    assert!(validate_string_items("risks", &vec!["x".to_owned()], 4).is_ok());
    assert!(validate_string_items("risks", &vec![String::new()], 4).is_err());
    assert!(validate_sha256("digest", &"a".repeat(64)).is_ok());
    assert_eq!(
        validate_sha256("digest", &"A".repeat(64)),
        Err(ValidationError::Field {
            field: "digest",
            message: "must be a lowercase SHA-256 digest".to_owned(),
        })
    );
}

#[test]
fn ids_render_as_hyphenated_uuids() {
    let id = TaskId(0x019f7606_a26b_7a41_87dd_95f3a072a226);
    assert_eq!(id.to_text(), "019f7606-a26b-7a41-87dd-95f3a072a226");
    assert_eq!(TaskId(0).to_text(), "00000000-0000-0000-0000-000000000000");
    let fresh = TaskId::new();
    assert_ne!(fresh, TaskId::new());
    assert_eq!(
        uuid::Uuid::from_u128(fresh.0).get_version_num(),
        7
    );
    assert_eq!(
        uuid::Uuid::from_u128(fresh.0).get_variant(),
        uuid::Variant::RFC4122
    );
}
