//! Typed validation of public values beyond what JSON Schema alone expresses.
use vstd::prelude::*;
use vstd::string::*;
use crate::contract::{
    field_error, field_failure, AttachmentId, DeliveryReceiptV1, HarnessDefinitionV1,
    HarnessKind, HarnessLaunchProfileV1, HarnessLaunchProfileV2, HarnessTier, MessageKind, MessageSubmissionV1,
    RepositoryAccess, RepositoryObservationV1, ResultManifestV1, TaskRepositoryAuthorityV1,
    TaskSubmissionV1, ValidationError, ValidationErrorView, WriteScopeV1, SCHEMA_VERSION,
};
use crate::text::{
    absolute_path_ok, bare_executable_ok, env_name_ok, is_absolute_path, is_bare_executable,
    is_env_name, is_relative_path,
    is_sha256_hex, relative_path_ok, sha256_hex_ok, text_is_within, text_within, utf8_bytes,
};

verus! {

/// The first of two possible failures.
pub open spec fn or_else(
    first: Option<ValidationErrorView>,
    then: Option<ValidationErrorView>,
) -> Option<ValidationErrorView> {
    if first is Some {
        first
    } else {
        then
    }
}

/// `result` reports exactly the failure `failure`: success when there is none.
pub open spec fn reports(
    result: Result<(), ValidationError>,
    failure: Option<ValidationErrorView>,
) -> bool {
    match result {
        Ok(_) => failure is None,
        Err(e) => failure == Some(e@),
    }
}

/// Failure of the `schema_version` rule.
pub open spec fn version_failure(version: u32) -> Option<ValidationErrorView> {
    if version == 1 {
        None
    } else {
        Some(field_failure("schema_version"@, "must equal 1"@))
    }
}

/// Failure of a bounded text rule.
pub open spec fn text_failure(
    field: Seq<char>,
    value: Seq<char>,
    max_scalars: int,
    max_bytes: int,
) -> Option<ValidationErrorView> {
    if text_within(value, max_scalars, max_bytes) {
        None
    } else {
        Some(field_failure(field, "is empty or exceeds the v1 length limit"@))
    }
}

/// Failure of an optional bounded text rule; absence always passes.
pub open spec fn optional_text_failure(
    field: Seq<char>,
    value: Option<String>,
    max_scalars: int,
) -> Option<ValidationErrorView> {
    match value {
        Some(text) => text_failure(field, text@, max_scalars, usize::MAX as int),
        None => None,
    }
}

/// Failure of the optional idempotency key rule.
pub open spec fn request_key_failure(value: Option<String>) -> Option<ValidationErrorView> {
    match value {
        Some(key) => text_failure("request_key"@, key@, 128, 512),
        None => None,
    }
}

/// Failure of an absolute path rule.
pub open spec fn absolute_path_failure(field: Seq<char>, path: Seq<char>) -> Option<
    ValidationErrorView,
> {
    if is_absolute_path(utf8_bytes(path)) {
        None
    } else {
        Some(field_failure(field, "must be an absolute path of at most 4096 bytes"@))
    }
}

/// Every path is a normalized repository-relative path.
pub open spec fn all_relative(paths: Seq<String>) -> bool {
    forall|i: int| 0 <= i < paths.len() ==> is_relative_path(utf8_bytes(#[trigger] paths[i]@))
}

/// Failure of the relative path rule over a list of paths.
pub open spec fn relative_paths_failure(field: Seq<char>, paths: Seq<String>) -> Option<
    ValidationErrorView,
> {
    if all_relative(paths) {
        None
    } else {
        Some(field_failure(field, "must be a normalized repository-relative UTF-8 path"@))
    }
}

/// Failure of a single relative path rule.
pub open spec fn relative_path_failure(field: Seq<char>, path: Seq<char>) -> Option<
    ValidationErrorView,
> {
    if is_relative_path(utf8_bytes(path)) {
        None
    } else {
        Some(field_failure(field, "must be a normalized repository-relative UTF-8 path"@))
    }
}

/// No two texts are equal.
pub open spec fn texts_distinct(values: Seq<String>) -> bool {
    forall|i: int, j: int| 0 <= i < j < values.len() ==> values[i]@ != values[j]@
}

/// Failure of the uniqueness-and-limit rule over identities.
pub open spec fn ids_failure(field: Seq<char>, ids: Seq<AttachmentId>, max: int) -> Option<
    ValidationErrorView,
> {
    if ids.len() > max || !ids.no_duplicates() {
        Some(field_failure(field, "contains duplicates or exceeds the item limit"@))
    } else {
        None
    }
}

/// Failure of the uniqueness-and-limit rule over texts.
pub open spec fn texts_failure(field: Seq<char>, values: Seq<String>, max: int) -> Option<
    ValidationErrorView,
> {
    if values.len() > max || !texts_distinct(values) {
        Some(field_failure(field, "contains duplicates or exceeds the item limit"@))
    } else {
        None
    }
}

/// Failure of a bounded text rule applied to every item of a list.
pub open spec fn text_items_failure(
    field: Seq<char>,
    values: Seq<String>,
    max_scalars: int,
) -> Option<ValidationErrorView> {
    if forall|i: int|
        0 <= i < values.len() ==> text_within(
            #[trigger] values[i]@,
            max_scalars,
            usize::MAX as int,
        ) {
        None
    } else {
        Some(field_failure(field, "is empty or exceeds the v1 length limit"@))
    }
}

/// Failure of the lowercase SHA-256 digest rule.
pub open spec fn sha256_failure(field: Seq<char>, value: Seq<char>) -> Option<
    ValidationErrorView,
> {
    if is_sha256_hex(utf8_bytes(value)) {
        None
    } else {
        Some(field_failure(field, "must be a lowercase SHA-256 digest"@))
    }
}

/// Checks the `schema_version` rule.
pub fn validate_version(version: u32) -> (result: Result<(), ValidationError>)
    ensures
        reports(result, version_failure(version)),
{
    if version == SCHEMA_VERSION {
        Ok(())
    } else {
        Err(field_error("schema_version", "must equal 1"))
    }
}

/// Checks that `value` holds 1 to `max_scalars` Unicode scalar values and at most
/// `max_bytes` UTF-8 bytes.
pub fn validate_text(field: &'static str, value: &str, max_scalars: usize, max_bytes: usize) -> (result: Result<(), ValidationError>)
    ensures
        reports(result, text_failure(field@, value@, max_scalars as int, max_bytes as int)),
{
    if text_is_within(value, max_scalars, max_bytes) {
        Ok(())
    } else {
        Err(field_error(field, "is empty or exceeds the v1 length limit"))
    }
}

/// Checks a bounded text rule when the value is present.
pub fn validate_optional_text(field: &'static str, value: &Option<String>, max_scalars: usize) -> (result: Result<(), ValidationError>)
    ensures
        reports(result, optional_text_failure(field@, *value, max_scalars as int)),
{
    match value {
        Some(text) => validate_text(field, text.as_str(), max_scalars, usize::MAX),
        None => Ok(()),
    }
}

/// Checks the optional idempotency key.
pub fn validate_request_key(value: &Option<String>) -> (result: Result<(), ValidationError>)
    ensures
        reports(result, request_key_failure(*value)),
{
    match value {
        Some(key) => validate_text("request_key", key.as_str(), 128, 512),
        None => Ok(()),
    }
}

/// Checks that a path is absolute and at most 4096 bytes.
pub fn validate_absolute_path(field: &'static str, path: &String) -> (result: Result<(), ValidationError>)
    ensures
        reports(result, absolute_path_failure(field@, path@)),
{
    if absolute_path_ok(path.as_str()) {
        Ok(())
    } else {
        Err(field_error(field, "must be an absolute path of at most 4096 bytes"))
    }
}

/// Checks that a path is a normalized repository-relative path.
pub fn validate_relative_path(field: &'static str, path: &String) -> (result: Result<(), ValidationError>)
    ensures
        reports(result, relative_path_failure(field@, path@)),
{
    if relative_path_ok(path.as_str()) {
        Ok(())
    } else {
        Err(field_error(field, "must be a normalized repository-relative UTF-8 path"))
    }
}

/// Checks every path of a list against the relative path rule.
pub fn validate_relative_paths(field: &'static str, paths: &Vec<String>) -> (result: Result<(), ValidationError>)
    ensures
        reports(result, relative_paths_failure(field@, paths@)),
{
    let mut i: usize = 0;
    while i < paths.len()
        invariant
            i <= paths@.len(),
            forall|k: int| 0 <= k < i ==> is_relative_path(utf8_bytes(#[trigger] paths@[k]@)),
        decreases paths@.len() - i,
    {
        if !relative_path_ok(paths[i].as_str()) {
            return Err(field_error(field, "must be a normalized repository-relative UTF-8 path"));
        }
        i = i + 1;
    }
    Ok(())
}

/// Whether no identity occurs twice.
pub fn ids_distinct(ids: &Vec<AttachmentId>) -> (distinct: bool)
    ensures
        distinct == ids@.no_duplicates(),
{
    let n = ids.len();
    let mut i: usize = 0;
    while i < n
        invariant
            n == ids@.len(),
            i <= n,
            forall|a: int, b: int| 0 <= a < i && 0 <= b < i && a != b ==> ids@[a] != ids@[b],
        decreases n - i,
    {
        let mut j: usize = 0;
        while j < i
            invariant
                n == ids@.len(),
                j <= i < n,
                forall|a: int, b: int| 0 <= a < i && 0 <= b < i && a != b ==> ids@[a] != ids@[b],
                forall|b: int| 0 <= b < j ==> ids@[b] != ids@[i as int],
            decreases i - j,
        {
            if ids[j].0 == ids[i].0 {
                assert(ids@[j as int] == ids@[i as int]);
                return false;
            }
            j = j + 1;
        }
        i = i + 1;
    }
    true
}

/// Whether no text occurs twice.
pub fn texts_are_distinct(values: &Vec<String>) -> (distinct: bool)
    ensures
        distinct == texts_distinct(values@),
{
    let n = values.len();
    let mut i: usize = 0;
    while i < n
        invariant
            n == values@.len(),
            i <= n,
            forall|a: int, b: int| 0 <= a < b < i ==> values@[a]@ != values@[b]@,
        decreases n - i,
    {
        let mut j: usize = 0;
        while j < i
            invariant
                n == values@.len(),
                j <= i < n,
                forall|a: int, b: int| 0 <= a < b < i ==> values@[a]@ != values@[b]@,
                forall|b: int| 0 <= b < j ==> values@[b]@ != values@[i as int]@,
            decreases i - j,
        {
            if values[j] == values[i] {
                return false;
            }
            j = j + 1;
        }
        i = i + 1;
    }
    true
}

/// Checks that a list of identities holds no duplicate and at most `max` items.
pub fn validate_unique_limit(field: &'static str, values: &Vec<AttachmentId>, max: usize) -> (result: Result<(), ValidationError>)
    ensures
        reports(result, ids_failure(field@, values@, max as int)),
{
    if values.len() > max || !ids_distinct(values) {
        Err(field_error(field, "contains duplicates or exceeds the item limit"))
    } else {
        Ok(())
    }
}

/// Checks that a list of texts holds no duplicate and at most `max` items.
pub fn validate_unique_texts(field: &'static str, values: &Vec<String>, max: usize) -> (result: Result<(), ValidationError>)
    ensures
        reports(result, texts_failure(field@, values@, max as int)),
{
    if values.len() > max || !texts_are_distinct(values) {
        Err(field_error(field, "contains duplicates or exceeds the item limit"))
    } else {
        Ok(())
    }
}

/// Checks a bounded text rule on every item of a list.
pub fn validate_string_items(field: &'static str, values: &Vec<String>, max_scalars: usize) -> (result: Result<(), ValidationError>)
    ensures
        reports(result, text_items_failure(field@, values@, max_scalars as int)),
{
    let mut i: usize = 0;
    while i < values.len()
        invariant
            i <= values@.len(),
            forall|k: int|
                0 <= k < i ==> text_within(#[trigger] values@[k]@, max_scalars as int, usize::MAX as int),
        decreases values@.len() - i,
    {
        if !text_is_within(values[i].as_str(), max_scalars, usize::MAX) {
            return Err(field_error(field, "is empty or exceeds the v1 length limit"));
        }
        i = i + 1;
    }
    Ok(())
}

/// Checks the lowercase SHA-256 digest rule.
pub fn validate_sha256(field: &'static str, value: &String) -> (result: Result<(), ValidationError>)
    ensures
        reports(result, sha256_failure(field@, value@)),
{
    if sha256_hex_ok(value.as_str()) {
        Ok(())
    } else {
        Err(field_error(field, "must be a lowercase SHA-256 digest"))
    }
}


/// Performs typed validation not expressible by JSON Schema alone.
pub trait Validate {
    /// The first v1 rule this value violates, in the order the rules are checked.
    spec fn failure(&self) -> Option<ValidationErrorView>;

    /// Validates this value against the v1 contract, reporting the first violated rule.
    fn validate(&self) -> (result: Result<(), ValidationError>)
        ensures
            reports(result, self.failure()),
    ;
}

/// Every inherited environment name is valid.
pub open spec fn all_env_names(names: Seq<String>) -> bool {
    forall|i: int| 0 <= i < names.len() ==> is_env_name(utf8_bytes(#[trigger] names[i]@))
}

/// Every path is absolute.
pub open spec fn all_absolute(paths: Seq<String>) -> bool {
    forall|i: int| 0 <= i < paths.len() ==> is_absolute_path(utf8_bytes(#[trigger] paths[i]@))
}

impl Validate for HarnessLaunchProfileV1 {
    open spec fn failure(&self) -> Option<ValidationErrorView> {
        or_else(
            version_failure(self.schema_version),
            or_else(
                absolute_path_failure("executable"@, self.executable@),
                or_else(
                    text_failure("provider_profile"@, self.provider_profile@, 128, 512),
                    or_else(
                        optional_text_failure("model"@, self.model, 256),
                        or_else(
                            texts_failure("inherit_env"@, self.inherit_env@, 128),
                            or_else(
                                if all_env_names(self.inherit_env@) {
                                    None
                                } else {
                                    Some(
                                        field_failure(
                                            "inherit_env"@,
                                            "contains an invalid environment name"@,
                                        ),
                                    )
                                },
                                or_else(
                                    if all_absolute(self.config_overlays@) {
                                        None
                                    } else {
                                        Some(
                                            field_failure(
                                                "config_overlays"@,
                                                "must be an absolute path of at most 4096 bytes"@,
                                            ),
                                        )
                                    },
                                    if self.kind == HarnessKind::Codex
                                        && self.config_overlays@.len() > 0 {
                                        Some(
                                            field_failure(
                                                "config_overlays"@,
                                                "is supported only for OMP profiles"@,
                                            ),
                                        )
                                    } else {
                                        None
                                    },
                                ),
                            ),
                        ),
                    ),
                ),
            ),
        )
    }

    #[verifier::loop_isolation(false)]
    fn validate(&self) -> (result: Result<(), ValidationError>) {
        if let Err(e) = validate_version(self.schema_version) {
            return Err(e);
        }
        if let Err(e) = validate_absolute_path("executable", &self.executable) {
            return Err(e);
        }
        if let Err(e) = validate_text("provider_profile", self.provider_profile.as_str(), 128, 512) {
            return Err(e);
        }
        if let Err(e) = validate_optional_text("model", &self.model, 256) {
            return Err(e);
        }
        if let Err(e) = validate_unique_texts("inherit_env", &self.inherit_env, 128) {
            return Err(e);
        }
        let mut i: usize = 0;
        while i < self.inherit_env.len()
            invariant
                i <= self.inherit_env@.len(),
                forall|k: int|
                    0 <= k < i ==> is_env_name(utf8_bytes(#[trigger] self.inherit_env@[k]@)),
            decreases self.inherit_env@.len() - i,
        {
            if !env_name_ok(self.inherit_env[i].as_str()) {
                assert(!all_env_names(self.inherit_env@));
                return Err(field_error("inherit_env", "contains an invalid environment name"));
            }
            i = i + 1;
        }
        let mut j: usize = 0;
        while j < self.config_overlays.len()
            invariant
                j <= self.config_overlays@.len(),
                forall|k: int|
                    0 <= k < j ==> is_absolute_path(utf8_bytes(#[trigger] self.config_overlays@[k]@)),
            decreases self.config_overlays@.len() - j,
        {
            if let Err(e) = validate_absolute_path("config_overlays", &self.config_overlays[j]) {
                assert(!all_absolute(self.config_overlays@));
                return Err(e);
            }
            j = j + 1;
        }
        if self.kind == HarnessKind::Codex && self.config_overlays.len() > 0 {
            return Err(field_error("config_overlays", "is supported only for OMP profiles"));
        }
        Ok(())
    }
}

/// Failure of the profile `schema_version` rule: 1 or 2.
pub open spec fn profile_version_failure(version: u32) -> Option<ValidationErrorView> {
    if version == 1 || version == 2 {
        None
    } else {
        Some(field_failure("schema_version"@, "must equal 1 or 2"@))
    }
}

/// Failure of the executable rule: an absolute path, or under schema 2 also a bare name.
pub open spec fn executable_failure(version: u32, executable: Seq<char>) -> Option<
    ValidationErrorView,
> {
    if version == 1 {
        absolute_path_failure("executable"@, executable)
    } else if is_absolute_path(utf8_bytes(executable)) || is_bare_executable(utf8_bytes(executable)) {
        None
    } else {
        Some(field_failure("executable"@, "must be an absolute path or a bare executable name"@))
    }
}

/// Failure of the provider profile rule: bounded text when present, required by schema 1.
pub open spec fn provider_profile_failure(version: u32, provider_profile: Option<String>) -> Option<
    ValidationErrorView,
> {
    match provider_profile {
        Some(p) => text_failure("provider_profile"@, p@, 128, 512),
        None => if version == 1 {
            Some(field_failure("provider_profile"@, "is required by schema_version 1"@))
        } else {
            None
        },
    }
}

impl Validate for HarnessLaunchProfileV2 {
    open spec fn failure(&self) -> Option<ValidationErrorView> {
        or_else(
            profile_version_failure(self.schema_version),
            or_else(
                executable_failure(self.schema_version, self.executable@),
                or_else(
                    provider_profile_failure(self.schema_version, self.provider_profile),
                    or_else(
                        optional_text_failure("model"@, self.model, 256),
                        or_else(
                            texts_failure("inherit_env"@, self.inherit_env@, 128),
                            or_else(
                                if all_env_names(self.inherit_env@) {
                                    None
                                } else {
                                    Some(
                                        field_failure(
                                            "inherit_env"@,
                                            "contains an invalid environment name"@,
                                        ),
                                    )
                                },
                                or_else(
                                    if all_absolute(self.config_overlays@) {
                                        None
                                    } else {
                                        Some(
                                            field_failure(
                                                "config_overlays"@,
                                                "must be an absolute path of at most 4096 bytes"@,
                                            ),
                                        )
                                    },
                                    if self.kind == HarnessKind::Codex
                                        && self.config_overlays@.len() > 0 {
                                        Some(
                                            field_failure(
                                                "config_overlays"@,
                                                "is supported only for OMP profiles"@,
                                            ),
                                        )
                                    } else {
                                        None
                                    },
                                ),
                            ),
                        ),
                    ),
                ),
            ),
        )
    }

    #[verifier::loop_isolation(false)]
    fn validate(&self) -> (result: Result<(), ValidationError>) {
        if self.schema_version != 1 && self.schema_version != 2 {
            return Err(field_error("schema_version", "must equal 1 or 2"));
        }
        if self.schema_version == 1 {
            if let Err(e) = validate_absolute_path("executable", &self.executable) {
                return Err(e);
            }
        } else if !absolute_path_ok(self.executable.as_str()) && !bare_executable_ok(
            self.executable.as_str(),
        ) {
            return Err(field_error("executable", "must be an absolute path or a bare executable name"));
        }
        match &self.provider_profile {
            Some(p) => {
                if let Err(e) = validate_text("provider_profile", p.as_str(), 128, 512) {
                    return Err(e);
                }
            },
            None => {
                if self.schema_version == 1 {
                    return Err(field_error("provider_profile", "is required by schema_version 1"));
                }
            },
        }
        if let Err(e) = validate_optional_text("model", &self.model, 256) {
            return Err(e);
        }
        if let Err(e) = validate_unique_texts("inherit_env", &self.inherit_env, 128) {
            return Err(e);
        }
        let mut i: usize = 0;
        while i < self.inherit_env.len()
            invariant
                i <= self.inherit_env@.len(),
                forall|k: int|
                    0 <= k < i ==> is_env_name(utf8_bytes(#[trigger] self.inherit_env@[k]@)),
            decreases self.inherit_env@.len() - i,
        {
            if !env_name_ok(self.inherit_env[i].as_str()) {
                assert(!all_env_names(self.inherit_env@));
                return Err(field_error("inherit_env", "contains an invalid environment name"));
            }
            i = i + 1;
        }
        let mut j: usize = 0;
        while j < self.config_overlays.len()
            invariant
                j <= self.config_overlays@.len(),
                forall|k: int|
                    0 <= k < j ==> is_absolute_path(utf8_bytes(#[trigger] self.config_overlays@[k]@)),
            decreases self.config_overlays@.len() - j,
        {
            if let Err(e) = validate_absolute_path("config_overlays", &self.config_overlays[j]) {
                assert(!all_absolute(self.config_overlays@));
                return Err(e);
            }
            j = j + 1;
        }
        if self.kind == HarnessKind::Codex && self.config_overlays.len() > 0 {
            return Err(field_error("config_overlays", "is supported only for OMP profiles"));
        }
        Ok(())
    }
}

impl Validate for HarnessDefinitionV1 {
    open spec fn failure(&self) -> Option<ValidationErrorView> {
        or_else(
            version_failure(self.schema_version),
            or_else(
                absolute_path_failure("cwd"@, self.cwd@),
                or_else(
                    optional_text_failure("launch_profile"@, self.launch_profile, 128),
                    or_else(
                        optional_text_failure("model"@, self.model, 256),
                        if self.tier == HarnessTier::Worker && self.launch_profile is None {
                            Some(field_failure("launch_profile"@, "is required for a Worker"@))
                        } else {
                            None
                        },
                    ),
                ),
            ),
        )
    }

    #[verifier::loop_isolation(false)]
    fn validate(&self) -> (result: Result<(), ValidationError>) {
        if let Err(e) = validate_version(self.schema_version) {
            return Err(e);
        }
        if let Err(e) = validate_absolute_path("cwd", &self.cwd) {
            return Err(e);
        }
        if let Err(e) = validate_optional_text("launch_profile", &self.launch_profile, 128) {
            return Err(e);
        }
        if let Err(e) = validate_optional_text("model", &self.model, 256) {
            return Err(e);
        }
        if self.tier == HarnessTier::Worker && self.launch_profile.is_none() {
            return Err(field_error("launch_profile", "is required for a Worker"));
        }
        Ok(())
    }
}

/// No two write scopes are equal.
pub open spec fn scopes_distinct(scopes: Seq<WriteScopeV1>) -> bool {
    forall|i: int, j: int| 0 <= i < j < scopes.len() ==> scopes[i]@ != scopes[j]@
}

/// Every write scope names a normalized repository-relative path.
pub open spec fn scope_paths_relative(scopes: Seq<WriteScopeV1>) -> bool {
    forall|i: int|
        0 <= i < scopes.len() ==> is_relative_path(utf8_bytes(#[trigger] scopes[i].path_of()))
}

/// Whether two write scopes are equal.
fn same_scope(a: &WriteScopeV1, b: &WriteScopeV1) -> (same: bool)
    ensures
        same == (a@ == b@),
{
    match (a, b) {
        (WriteScopeV1::ExactFile { path: x }, WriteScopeV1::ExactFile { path: y }) => *x == *y,
        (WriteScopeV1::Subtree { path: x }, WriteScopeV1::Subtree { path: y }) => *x == *y,
        _ => false,
    }
}

impl Validate for TaskRepositoryAuthorityV1 {
    open spec fn failure(&self) -> Option<ValidationErrorView> {
        or_else(
            absolute_path_failure("repository.root"@, self.root@),
            or_else(
                if scope_paths_relative(self.write_scopes@) {
                    None
                } else {
                    Some(
                        field_failure(
                            "repository.write_scopes.path"@,
                            "must be a normalized repository-relative UTF-8 path"@,
                        ),
                    )
                },
                or_else(
                    if scopes_distinct(self.write_scopes@) {
                        None
                    } else {
                        Some(field_failure("repository.write_scopes"@, "contains duplicates"@))
                    },
                    match self.access {
                        RepositoryAccess::ReadOnly => if self.write_scopes@.len() > 0 {
                            Some(
                                field_failure(
                                    "repository.write_scopes"@,
                                    "must be empty for read_only"@,
                                ),
                            )
                        } else {
                            None
                        },
                        RepositoryAccess::Mutating => if self.write_scopes@.len() == 0 {
                            Some(
                                field_failure(
                                    "repository.write_scopes"@,
                                    "must not be empty for mutating"@,
                                ),
                            )
                        } else {
                            None
                        },
                    },
                ),
            ),
        )
    }

    #[verifier::loop_isolation(false)]
    fn validate(&self) -> (result: Result<(), ValidationError>) {
        if let Err(e) = validate_absolute_path("repository.root", &self.root) {
            return Err(e);
        }
        let n = self.write_scopes.len();
        let mut i: usize = 0;
        while i < n
            invariant
                n == self.write_scopes@.len(),
                i <= n,
                forall|k: int|
                    0 <= k < i ==> is_relative_path(
                        utf8_bytes(#[trigger] self.write_scopes@[k].path_of()),
                    ),
            decreases n - i,
        {
            if let Err(e) = validate_relative_path(
                "repository.write_scopes.path",
                self.write_scopes[i].path(),
            ) {
                assert(!scope_paths_relative(self.write_scopes@));
                return Err(e);
            }
            i = i + 1;
        }
        let mut a: usize = 0;
        while a < n
            invariant
                n == self.write_scopes@.len(),
                a <= n,
                forall|x: int, y: int|
                    0 <= x < y < a ==> self.write_scopes@[x]@ != self.write_scopes@[y]@,
            decreases n - a,
        {
            let mut b: usize = 0;
            while b < a
                invariant
                    n == self.write_scopes@.len(),
                    b <= a < n,
                    forall|x: int, y: int|
                        0 <= x < y < a ==> self.write_scopes@[x]@ != self.write_scopes@[y]@,
                    forall|x: int| 0 <= x < b ==> self.write_scopes@[x]@ != self.write_scopes@[a as int]@,
                decreases a - b,
            {
                if same_scope(&self.write_scopes[b], &self.write_scopes[a]) {
                    assert(!scopes_distinct(self.write_scopes@));
                    return Err(field_error("repository.write_scopes", "contains duplicates"));
                }
                b = b + 1;
            }
            a = a + 1;
        }
        match self.access {
            RepositoryAccess::ReadOnly => if n > 0 {
                Err(field_error("repository.write_scopes", "must be empty for read_only"))
            } else {
                Ok(())
            },
            RepositoryAccess::Mutating => if n == 0 {
                Err(field_error("repository.write_scopes", "must not be empty for mutating"))
            } else {
                Ok(())
            },
        }
    }
}

impl Validate for TaskSubmissionV1 {
    open spec fn failure(&self) -> Option<ValidationErrorView> {
        or_else(
            version_failure(self.schema_version),
            or_else(
                request_key_failure(self.request_key),
                or_else(
                    text_failure("title"@, self.title@, 160, usize::MAX as int),
                    or_else(
                        text_failure("instructions"@, self.instructions@, 16384, 65536),
                        or_else(
                            ids_failure("attachments"@, self.attachments@, 32),
                            self.repository.failure(),
                        ),
                    ),
                ),
            ),
        )
    }

    #[verifier::loop_isolation(false)]
    fn validate(&self) -> (result: Result<(), ValidationError>) {
        if let Err(e) = validate_version(self.schema_version) {
            return Err(e);
        }
        if let Err(e) = validate_request_key(&self.request_key) {
            return Err(e);
        }
        if let Err(e) = validate_text("title", self.title.as_str(), 160, usize::MAX) {
            return Err(e);
        }
        if let Err(e) = validate_text("instructions", self.instructions.as_str(), 16384, 65536) {
            return Err(e);
        }
        if let Err(e) = validate_unique_limit("attachments", &self.attachments, 32) {
            return Err(e);
        }
        self.repository.validate()
    }
}

impl Validate for MessageSubmissionV1 {
    open spec fn failure(&self) -> Option<ValidationErrorView> {
        or_else(
            version_failure(self.schema_version),
            or_else(
                request_key_failure(self.request_key),
                or_else(
                    text_failure("text"@, self.text@, 16384, 65536),
                    or_else(
                        ids_failure("attachments"@, self.attachments@, 32),
                        or_else(
                            if self.kind != MessageKind::Notification && self.task_id is None {
                                Some(
                                    field_failure(
                                        "task_id"@,
                                        "is required for this Message Kind"@,
                                    ),
                                )
                            } else {
                                None
                            },
                            if (self.kind == MessageKind::Reply) != (self.reply_to is Some) {
                                Some(field_failure("reply_to"@, "is required only for Reply"@))
                            } else {
                                None
                            },
                        ),
                    ),
                ),
            ),
        )
    }

    #[verifier::loop_isolation(false)]
    fn validate(&self) -> (result: Result<(), ValidationError>) {
        if let Err(e) = validate_version(self.schema_version) {
            return Err(e);
        }
        if let Err(e) = validate_request_key(&self.request_key) {
            return Err(e);
        }
        if let Err(e) = validate_text("text", self.text.as_str(), 16384, 65536) {
            return Err(e);
        }
        if let Err(e) = validate_unique_limit("attachments", &self.attachments, 32) {
            return Err(e);
        }
        if self.kind != MessageKind::Notification && self.task_id.is_none() {
            return Err(field_error("task_id", "is required for this Message Kind"));
        }
        if (self.kind == MessageKind::Reply) != self.reply_to.is_some() {
            return Err(field_error("reply_to", "is required only for Reply"));
        }
        Ok(())
    }
}

impl Validate for ResultManifestV1 {
    open spec fn failure(&self) -> Option<ValidationErrorView> {
        or_else(
            version_failure(self.schema_version),
            or_else(
                text_failure("summary"@, self.summary@, 16384, 65536),
                or_else(
                    texts_failure("changed_files"@, self.changed_files@, usize::MAX as int),
                    or_else(
                        relative_paths_failure("changed_files"@, self.changed_files@),
                        or_else(
                            if self.verification@.len() == 0 {
                                Some(field_failure("verification"@, "must not be empty"@))
                            } else {
                                None
                            },
                            or_else(
                                if forall|i: int|
                                    0 <= i < self.verification@.len() ==> text_within(
                                        #[trigger] self.verification@[i].command@,
                                        8192,
                                        usize::MAX as int,
                                    ) {
                                    None
                                } else {
                                    Some(
                                        field_failure(
                                            "verification.command"@,
                                            "is empty or exceeds the v1 length limit"@,
                                        ),
                                    )
                                },
                                or_else(
                                    text_items_failure("deviations"@, self.deviations@, 4096),
                                    or_else(
                                        text_items_failure("risks"@, self.risks@, 4096),
                                        ids_failure("attachments"@, self.attachments@, 32),
                                    ),
                                ),
                            ),
                        ),
                    ),
                ),
            ),
        )
    }

    #[verifier::loop_isolation(false)]
    fn validate(&self) -> (result: Result<(), ValidationError>) {
        if let Err(e) = validate_version(self.schema_version) {
            return Err(e);
        }
        if let Err(e) = validate_text("summary", self.summary.as_str(), 16384, 65536) {
            return Err(e);
        }
        if let Err(e) = validate_unique_texts("changed_files", &self.changed_files, usize::MAX) {
            return Err(e);
        }
        if let Err(e) = validate_relative_paths("changed_files", &self.changed_files) {
            return Err(e);
        }
        if self.verification.len() == 0 {
            return Err(field_error("verification", "must not be empty"));
        }
        let mut i: usize = 0;
        while i < self.verification.len()
            invariant
                i <= self.verification@.len(),
                forall|k: int|
                    0 <= k < i ==> text_within(
                        #[trigger] self.verification@[k].command@,
                        8192,
                        usize::MAX as int,
                    ),
            decreases self.verification@.len() - i,
        {
            if let Err(e) = validate_text(
                "verification.command",
                self.verification[i].command.as_str(),
                8192,
                usize::MAX,
            ) {
                assert(!text_within(self.verification@[i as int].command@, 8192, usize::MAX as int));
                return Err(e);
            }
            i = i + 1;
        }
        if let Err(e) = validate_string_items("deviations", &self.deviations, 4096) {
            return Err(e);
        }
        if let Err(e) = validate_string_items("risks", &self.risks, 4096) {
            return Err(e);
        }
        validate_unique_limit("attachments", &self.attachments, 32)
    }
}

impl Validate for DeliveryReceiptV1 {
    open spec fn failure(&self) -> Option<ValidationErrorView> {
        or_else(
            version_failure(self.schema_version),
            or_else(
                optional_text_failure("native_correlation"@, self.native_correlation, 512),
                or_else(
                    optional_text_failure("error_code"@, self.error_code, 128),
                    optional_text_failure("error_message"@, self.error_message, 4096),
                ),
            ),
        )
    }

    #[verifier::loop_isolation(false)]
    fn validate(&self) -> (result: Result<(), ValidationError>) {
        if let Err(e) = validate_version(self.schema_version) {
            return Err(e);
        }
        if let Err(e) = validate_optional_text("native_correlation", &self.native_correlation, 512) {
            return Err(e);
        }
        if let Err(e) = validate_optional_text("error_code", &self.error_code, 128) {
            return Err(e);
        }
        validate_optional_text("error_message", &self.error_message, 4096)
    }
}

impl Validate for RepositoryObservationV1 {
    open spec fn failure(&self) -> Option<ValidationErrorView> {
        or_else(
            version_failure(self.schema_version),
            or_else(
                absolute_path_failure("worktree_root"@, self.worktree_root@),
                or_else(
                    absolute_path_failure("git_common_dir"@, self.git_common_dir@),
                    or_else(
                        sha256_failure("index_digest"@, self.index_digest@),
                        or_else(
                            sha256_failure("digest"@, self.digest@),
                            or_else(
                                if self.command_evidence@.len() == 0 {
                                    Some(field_failure("command_evidence"@, "must not be empty"@))
                                } else {
                                    None
                                },
                                relative_paths_failure(
                                    "repository path"@,
                                    self.ignored_paths@ + self.changed_paths@,
                                ),
                            ),
                        ),
                    ),
                ),
            ),
        )
    }

    #[verifier::loop_isolation(false)]
    fn validate(&self) -> (result: Result<(), ValidationError>) {
        if let Err(e) = validate_version(self.schema_version) {
            return Err(e);
        }
        if let Err(e) = validate_absolute_path("worktree_root", &self.worktree_root) {
            return Err(e);
        }
        if let Err(e) = validate_absolute_path("git_common_dir", &self.git_common_dir) {
            return Err(e);
        }
        if let Err(e) = validate_sha256("index_digest", &self.index_digest) {
            return Err(e);
        }
        if let Err(e) = validate_sha256("digest", &self.digest) {
            return Err(e);
        }
        if self.command_evidence.len() == 0 {
            return Err(field_error("command_evidence", "must not be empty"));
        }
        let ghost all = self.ignored_paths@ + self.changed_paths@;
        if let Err(e) = validate_relative_paths("repository path", &self.ignored_paths) {
            proof {
                let k = choose|k: int|
                    0 <= k < self.ignored_paths@.len() && !is_relative_path(
                        utf8_bytes(#[trigger] self.ignored_paths@[k]@),
                    );
                assert(all[k] == self.ignored_paths@[k]);
            }
            return Err(e);
        }
        let result = validate_relative_paths("repository path", &self.changed_paths);
        proof {
            if result is Ok {
                assert forall|k: int| 0 <= k < all.len() implies is_relative_path(
                    utf8_bytes(#[trigger] all[k]@),
                ) by {
                    if k < self.ignored_paths@.len() {
                        assert(all[k] == self.ignored_paths@[k]);
                    } else {
                        assert(all[k] == self.changed_paths@[k - self.ignored_paths@.len()]);
                    }
                }
            } else {
                let k = choose|k: int|
                    0 <= k < self.changed_paths@.len() && !is_relative_path(
                        utf8_bytes(#[trigger] self.changed_paths@[k]@),
                    );
                assert(all[k + self.ignored_paths@.len()] == self.changed_paths@[k]);
            }
        }
        result
    }
}

} // verus!
