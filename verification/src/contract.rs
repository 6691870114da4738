//! Versioned public values shared by every Coordinator transport.
use vstd::prelude::*;
use vstd::string::*;
use vstd::arithmetic::power::pow;
use crate::text::{is_digit, is_lower, is_slug_byte, utf8_bytes};

verus! {

/// The public contract version implemented by this crate.
pub const SCHEMA_VERSION: u32 = 1;

/// An error raised when a public value violates v1 semantics.
#[derive(Debug, Clone, PartialEq, Eq)]
pub enum ValidationError {
    /// A Harness ID was not a lowercase slug.
    HarnessId(String),
    /// A field failed a contract rule.
    Field {
        /// Public field name.
        field: &'static str,
        /// Human-readable rule violation.
        message: String,
    },
}

/// The mathematical value of a [`ValidationError`].
pub enum ValidationErrorView {
    HarnessId(Seq<char>),
    Field { field: Seq<char>, message: Seq<char> },
}

impl View for ValidationError {
    type V = ValidationErrorView;

    open spec fn view(&self) -> ValidationErrorView {
        match self {
            ValidationError::HarnessId(value) => ValidationErrorView::HarnessId(value@),
            ValidationError::Field { field, message } => ValidationErrorView::Field {
                field: field@,
                message: message@,
            },
        }
    }
}

/// A field failure with the given public field name and diagnostic.
pub open spec fn field_failure(field: Seq<char>, message: Seq<char>) -> ValidationErrorView {
    ValidationErrorView::Field { field, message }
}

/// The human-readable rendering of a validation error.
pub open spec fn validation_text(e: ValidationErrorView) -> Seq<char> {
    match e {
        ValidationErrorView::HarnessId(value) => "invalid Harness ID `"@ + value + "`"@,
        ValidationErrorView::Field { field, message } => "invalid `"@ + field + "`: "@ + message,
    }
}

impl ValidationError {
    /// The human-readable rendering of this error.
    pub open spec fn text(self) -> Seq<char> {
        validation_text(self@)
    }

    /// Renders this error as human-readable text.
    pub fn to_text(&self) -> (rendered: String)
        ensures
            rendered@ == self.text(),
    {
        match self {
            ValidationError::HarnessId(value) => {
                let mut out = String::from_str("invalid Harness ID `");
                out.append(value.as_str());
                out.append("`");
                out
            },
            ValidationError::Field { field, message } => {
                let mut out = String::from_str("invalid `");
                out.append(field);
                out.append("`: ");
                out.append(message.as_str());
                out
            },
        }
    }
}

/// Builds the error for a failed field rule.
pub fn field_error(field: &'static str, message: &str) -> (error: ValidationError)
    ensures
        error@ == field_failure(field@, message@),
{
    ValidationError::Field { field, message: message.to_owned() }
}

/// A valid Harness ID: 1 to 64 bytes, beginning with `a-z`, continuing with `a-z`, `0-9`, or
/// single `-` separators, and ending with a letter or digit.
pub open spec fn is_harness_slug(b: Seq<u8>) -> bool {
    &&& 1 <= b.len() <= 64
    &&& is_lower(b[0])
    &&& (is_lower(b.last()) || is_digit(b.last()))
    &&& forall|i: int| 0 <= i < b.len() ==> is_slug_byte(#[trigger] b[i])
    &&& forall|i: int| 0 <= i < b.len() - 1 ==> !(#[trigger] b[i] == 45 && b[i + 1] == 45)
}

/// A durable, user-selected Harness address.
#[derive(Debug, PartialEq, Eq, Hash, PartialOrd, Ord)]
pub struct HarnessId(String);

impl Clone for HarnessId {
    fn clone(&self) -> (copy: Self)
        ensures
            copy == *self,
    {
        self.duplicate()
    }
}

impl View for HarnessId {
    type V = Seq<char>;

    closed spec fn view(&self) -> Seq<char> {
        self.0@
    }
}

impl HarnessId {
    #[verifier::type_invariant]
    spec fn well_formed(self) -> bool {
        is_harness_slug(utf8_bytes(self.0@))
    }

    /// Parses a Harness ID, rejecting any text that is not a valid slug.
    pub fn parse(value: &str) -> (parsed: Result<HarnessId, ValidationError>)
        ensures
            parsed is Ok <==> is_harness_slug(utf8_bytes(value@)),
            parsed matches Ok(id) ==> id@ == value@,
            parsed matches Err(e) ==> e@ == ValidationErrorView::HarnessId(value@),
    {
        let bytes = value.as_bytes();
        let n = bytes.len();
        let mut valid = 1 <= n && n <= 64;
        if valid {
            valid = 97 <= bytes[0] && bytes[0] <= 122;
        }
        if valid {
            let last = bytes[n - 1];
            valid = (97 <= last && last <= 122) || (48 <= last && last <= 57);
        }
        let mut i: usize = 0;
        while valid && i < n
            invariant
                bytes@ == utf8_bytes(value@),
                n == bytes@.len(),
                i <= n,
                valid ==> forall|k: int| 0 <= k < i ==> is_slug_byte(#[trigger] bytes@[k]),
                valid ==> forall|k: int|
                    0 <= k < i && k + 1 < n ==> !(#[trigger] bytes@[k] == 45 && bytes@[k + 1]
                        == 45),
                !valid ==> !is_harness_slug(bytes@),
                valid ==> 1 <= n <= 64 && is_lower(bytes@[0]) && (is_lower(bytes@[n - 1])
                    || is_digit(bytes@[n - 1])),
            decreases n - i,
        {
            let b = bytes[i];
            if !((97 <= b && b <= 122) || (48 <= b && b <= 57) || b == 45) {
                valid = false;
                assert(!is_slug_byte(bytes@[i as int]));
            } else if b == 45 && i + 1 < n && bytes[i + 1] == 45 {
                valid = false;
                assert(bytes@[i as int] == 45 && bytes@[i + 1] == 45);
            }
            i = i + 1;
        }
        if valid {
            Ok(HarnessId(value.to_owned()))
        } else {
            Err(ValidationError::HarnessId(value.to_owned()))
        }
    }

    /// Returns the slug as text.
    pub fn as_str(&self) -> (text: &str)
        ensures
            text@ == self@,
            is_harness_slug(utf8_bytes(text@)),
    {
        proof {
            use_type_invariant(self);
        }
        self.0.as_str()
    }

    /// Whether two Harness IDs are the same slug.
    pub fn same_as(&self, other: &HarnessId) -> (same: bool)
        ensures
            same == (self@ == other@),
    {
        self.0 == other.0
    }

    /// A copy of this Harness ID with the same slug.
    pub fn duplicate(&self) -> (copy: HarnessId)
        ensures
            copy == *self,
    {
        proof {
            use_type_invariant(self);
        }
        HarnessId(self.0.clone())
    }
}

impl std::str::FromStr for HarnessId {
    type Err = ValidationError;

    fn from_str(value: &str) -> (parsed: Result<Self, Self::Err>)
        ensures
            parsed is Ok <==> is_harness_slug(utf8_bytes(value@)),
            parsed matches Ok(id) ==> id@ == value@,
            parsed matches Err(e) ==> e@ == ValidationErrorView::HarnessId(value@),
    {
        HarnessId::parse(value)
    }
}


/// The `k`-th hexadecimal digit (most significant first) of a 128-bit value.
pub open spec fn uuid_nibble(value: u128, k: int) -> int {
    (value as int / pow(16, (31 - k) as nat)) % 16
}

/// A lowercase hexadecimal digit character.
pub open spec fn hex_char(d: int) -> char {
    if d < 10 {
        (48 + d) as char
    } else {
        (87 + d) as char
    }
}

/// The index of the hexadecimal digit shown at position `i` of the hyphenated form.
pub open spec fn uuid_digit_index(i: int) -> int {
    if i < 8 {
        i
    } else if i < 13 {
        i - 1
    } else if i < 18 {
        i - 2
    } else if i < 23 {
        i - 3
    } else {
        i - 4
    }
}

/// The hyphenated lowercase form of a UUID: 32 hexadecimal digits, most significant first,
/// grouped 8-4-4-4-12.
pub open spec fn uuid_text(value: u128) -> Seq<char> {
    Seq::new(
        36,
        |i: int|
            if i == 8 || i == 13 || i == 18 || i == 23 {
                '-'
            } else {
                hex_char(uuid_nibble(value, uuid_digit_index(i)))
            },
    )
}

/// Formats a UUID with `uuid::Uuid`'s hyphenated form, which prints the 16 bytes of the value
/// in big-endian order as lowercase hexadecimal grouped 8-4-4-4-12.
#[verifier::external_body]
fn uuid_hyphenated(value: u128) -> (text: String)
    ensures
        text@ == uuid_text(value),
{
    uuid::Uuid::from_u128(value).hyphenated().to_string()
}

/// A version 7 UUID of the RFC 9562 variant: its version digit (the 13th hexadecimal digit)
/// is 7, and its variant digit (the 17th) is one of 8, 9, a, b.
pub open spec fn is_uuid_v7(value: u128) -> bool {
    &&& uuid_nibble(value, 12) == 7
    &&& 8 <= uuid_nibble(value, 16) <= 11
}

/// Generates a fresh time-ordered UUID with `uuid::Uuid::now_v7`, which builds a version 7
/// UUID of the RFC 9562 variant. The rest of its value depends on the clock and a random
/// source, and is not stated.
#[verifier::external_body]
fn fresh_uuid_v7() -> (value: u128)
    ensures
        is_uuid_v7(value),
{
    uuid::Uuid::now_v7().as_u128()
}

/// A fresh time-ordered UUIDv7 in hyphenated lowercase text, for request correlation.
pub fn fresh_uuid_text() -> (text: String)
    ensures
        exists|value: u128| is_uuid_v7(value) && text@ == #[trigger] uuid_text(value),
{
    let value = fresh_uuid_v7();
    let text = uuid_hyphenated(value);
    assert(is_uuid_v7(value) && text@ == uuid_text(value));
    text
}

/// One live activation of a durable Harness.
#[derive(Debug, Clone, Copy, PartialEq, Eq, Structural, Hash, PartialOrd, Ord)]
pub struct HarnessSessionId(pub u128);

impl HarnessSessionId {
    /// Generates a time-ordered UUIDv7 identity.
    pub fn new() -> (id: Self)
        ensures
            is_uuid_v7(id.0),
    {
        HarnessSessionId(fresh_uuid_v7())
    }

    /// The hyphenated lowercase UUID text of this identity.
    pub fn to_text(&self) -> (text: String)
        ensures
            text@ == uuid_text(self.0),
    {
        uuid_hyphenated(self.0)
    }
}

/// A bounded assignment to one Worker Harness.
#[derive(Debug, Clone, Copy, PartialEq, Eq, Structural, Hash, PartialOrd, Ord)]
pub struct TaskId(pub u128);

impl TaskId {
    /// Generates a time-ordered UUIDv7 identity.
    pub fn new() -> (id: Self)
        ensures
            is_uuid_v7(id.0),
    {
        TaskId(fresh_uuid_v7())
    }

    /// The hyphenated lowercase UUID text of this identity.
    pub fn to_text(&self) -> (text: String)
        ensures
            text@ == uuid_text(self.0),
    {
        uuid_hyphenated(self.0)
    }
}

/// A durable Bus Message identity.
#[derive(Debug, Clone, Copy, PartialEq, Eq, Structural, Hash, PartialOrd, Ord)]
pub struct MessageId(pub u128);

impl MessageId {
    /// Generates a time-ordered UUIDv7 identity.
    pub fn new() -> (id: Self)
        ensures
            is_uuid_v7(id.0),
    {
        MessageId(fresh_uuid_v7())
    }

    /// The hyphenated lowercase UUID text of this identity.
    pub fn to_text(&self) -> (text: String)
        ensures
            text@ == uuid_text(self.0),
    {
        uuid_hyphenated(self.0)
    }
}

/// One native delivery attempt.
#[derive(Debug, Clone, Copy, PartialEq, Eq, Structural, Hash, PartialOrd, Ord)]
pub struct DeliveryAttemptId(pub u128);

impl DeliveryAttemptId {
    /// Generates a time-ordered UUIDv7 identity.
    pub fn new() -> (id: Self)
        ensures
            is_uuid_v7(id.0),
    {
        DeliveryAttemptId(fresh_uuid_v7())
    }

    /// The hyphenated lowercase UUID text of this identity.
    pub fn to_text(&self) -> (text: String)
        ensures
            text@ == uuid_text(self.0),
    {
        uuid_hyphenated(self.0)
    }
}

/// An immutable admitted file identity.
#[derive(Debug, Clone, Copy, PartialEq, Eq, Structural, Hash, PartialOrd, Ord)]
pub struct AttachmentId(pub u128);

impl AttachmentId {
    /// Generates a time-ordered UUIDv7 identity.
    pub fn new() -> (id: Self)
        ensures
            is_uuid_v7(id.0),
    {
        AttachmentId(fresh_uuid_v7())
    }

    /// The hyphenated lowercase UUID text of this identity.
    pub fn to_text(&self) -> (text: String)
        ensures
            text@ == uuid_text(self.0),
    {
        uuid_hyphenated(self.0)
    }
}

/// An immutable Git checkpoint identity.
#[derive(Debug, Clone, Copy, PartialEq, Eq, Structural, Hash, PartialOrd, Ord)]
pub struct RepositoryObservationId(pub u128);

impl RepositoryObservationId {
    /// Generates a time-ordered UUIDv7 identity.
    pub fn new() -> (id: Self)
        ensures
            is_uuid_v7(id.0),
    {
        RepositoryObservationId(fresh_uuid_v7())
    }

    /// The hyphenated lowercase UUID text of this identity.
    pub fn to_text(&self) -> (text: String)
        ensures
            text@ == uuid_text(self.0),
    {
        uuid_hyphenated(self.0)
    }
}

/// A durable repository scheduling block identity.
#[derive(Debug, Clone, Copy, PartialEq, Eq, Structural, Hash, PartialOrd, Ord)]
pub struct WorktreeHoldId(pub u128);

impl WorktreeHoldId {
    /// Generates a time-ordered UUIDv7 identity.
    pub fn new() -> (id: Self)
        ensures
            is_uuid_v7(id.0),
    {
        WorktreeHoldId(fresh_uuid_v7())
    }

    /// The hyphenated lowercase UUID text of this identity.
    pub fn to_text(&self) -> (text: String)
        ensures
            text@ == uuid_text(self.0),
    {
        uuid_hyphenated(self.0)
    }
}

/// Native Harness implementation.
#[derive(Debug, Clone, Copy, PartialEq, Eq, Structural)]
pub enum HarnessKind {
    /// Oh My Pi RPC Harness.
    Omp,
    /// Codex App Server Harness.
    Codex,
}

/// Coordination authority assigned to a Harness.
#[derive(Debug, Clone, Copy, PartialEq, Eq, Structural)]
pub enum HarnessTier {
    /// Sole semantic authority.
    Supervisor,
    /// Bounded Task executor.
    Worker,
}

/// Repository access granted to a Task.
#[derive(Debug, Clone, Copy, PartialEq, Eq, Structural)]
pub enum RepositoryAccess {
    /// Observe without authorizing changes.
    ReadOnly,
    /// Authorize changes inside declared scopes.
    Mutating,
}

/// Declared semantic purpose of a Task.
#[derive(Debug, Clone, Copy, PartialEq, Eq, Structural)]
pub enum TaskRole {
    Implementation,
    Investigation,
    Review,
    Verification,
    Other,
}

/// Requested relationship between a Task and a native Worker Session.
#[derive(Debug, Clone, Copy, PartialEq, Eq, Structural)]
pub enum SessionReusePolicy {
    Required,
    Prefer,
    Fresh,
    Auto,
}

/// Provider-neutral evidence about a native conversation.
#[derive(Debug, Clone, Copy, PartialEq, Eq, Structural)]
pub enum NativeSessionHealth {
    Healthy,
    ContextPressure,
    Compacted,
    Ambiguous,
    Failed,
}

/// Condition under which an upstream Task satisfies a dependency.
#[derive(Debug, Clone, Copy, PartialEq, Eq, Structural)]
pub enum DependencyCondition {
    /// A valid Result awaits review.
    ResultReady,
    /// The Supervisor approved the upstream Result.
    Approved,
}

/// What happens to an undispatched dependent when its upstream Task fails.
#[derive(Debug, Clone, Copy, PartialEq, Eq, Structural)]
pub enum DependencyFailurePolicy {
    /// Cancel the dependent.
    Cancel,
    /// Keep the dependent blocked for Supervisor reconciliation.
    KeepBlocked,
}

/// Purpose of a public Bus Message submission.
#[derive(Debug, Clone, Copy, PartialEq, Eq, Structural)]
pub enum MessageKind {
    /// Blocking Worker request.
    Question,
    /// Correlated Supervisor answer.
    Reply,
    /// Supervisor revision request.
    Correction,
    /// Non-structural information.
    Notification,
}

/// Explicit native delivery behavior.
#[derive(Debug, Clone, Copy, PartialEq, Eq, Structural)]
pub enum DeliveryIntent {
    /// Deliver in a later eligible turn.
    FollowUp,
    /// Append to a verified active turn.
    Steer,
}

impl Default for DeliveryIntent {
    fn default() -> (intent: Self)
        ensures
            intent == DeliveryIntent::FollowUp,
    {
        DeliveryIntent::FollowUp
    }
}

/// Current delivery state projected from immutable attempts.
#[derive(Debug, Clone, Copy, PartialEq, Eq, Structural)]
pub enum DeliveryState {
    /// Awaiting eligibility or an online target.
    Pending,
    /// Persisted and being written to the provider.
    Dispatching,
    /// Natively accepted.
    Accepted,
    /// Failed before provider bytes and eligible for retry.
    RetryableFailed,
    /// Definitively failed.
    PermanentFailed,
    /// Provider acceptance cannot be proved or disproved.
    Unknown,
    /// Delivery was cancelled.
    Cancelled,
}

/// Repository checkpoint kind.
#[derive(Debug, Clone, Copy, PartialEq, Eq, Structural)]
pub enum ObservationCheckpoint {
    /// Immediately before native dispatch.
    BeforeDispatch,
    /// After a candidate Result.
    Result,
    /// During cancellation.
    Cancel,
    /// After failure.
    Failure,
    /// During Supervisor Approval.
    Approval,
    /// During Hold reconciliation.
    HoldClear,
}

/// Observed filesystem kind for an untracked path.
#[derive(Debug, Clone, Copy, PartialEq, Eq, Structural)]
pub enum ObservedFileType {
    /// Regular file with size and digest.
    Regular,
    /// Symbolic link.
    Symlink,
    /// Any other filesystem object.
    Other,
}

/// Advisory scope classification.
#[derive(Debug, Clone, Copy, PartialEq, Eq, Structural)]
pub enum ScopeClassification {
    /// Path is authorized by a declared scope.
    InScope,
    /// Path is outside declared scopes.
    OutOfScope,
}

/// A UTC instant: whole seconds since the Unix epoch and the nanoseconds within that second.
#[derive(Debug, Clone, Copy, PartialEq, Eq, Structural)]
pub struct UtcTimestamp {
    pub unix_seconds: i64,
    pub nanoseconds: u32,
}


/// Durable Harness launch identity.
#[derive(Debug, Clone, PartialEq, Eq)]
pub struct HarnessDefinitionV1 {
    /// Must equal one.
    pub schema_version: u32,
    /// Immutable durable address.
    pub id: HarnessId,
    /// Native Harness implementation.
    pub kind: HarnessKind,
    /// Coordination tier.
    pub tier: HarnessTier,
    /// Canonical working directory.
    pub cwd: String,
    /// Explicit Worker launch profile.
    pub launch_profile: Option<String>,
    /// Recorded model selection.
    pub model: Option<String>,
}

/// Coordinator-owned, provider-native Worker launch selection.
#[derive(Debug, PartialEq, Eq)]
pub struct HarnessLaunchProfileV1 {
    /// Must equal one.
    pub schema_version: u32,
    /// Immutable profile identifier.
    pub id: HarnessId,
    /// Harness Kind accepted by this profile.
    pub kind: HarnessKind,
    /// Absolute provider executable path.
    pub executable: String,
    /// Provider-native isolated profile name.
    pub provider_profile: String,
    /// Model recorded for the Harness Session.
    pub model: Option<String>,
    /// Environment variable names explicitly inherited by the Worker.
    pub inherit_env: Vec<String>,
    /// OMP configuration overlays, applied in order.
    pub config_overlays: Vec<String>,
}

/// Coordinator-owned Worker launch selection, schema 1 or 2. Schema 2 also accepts a bare
/// executable name found through the inherited `PATH`, and makes `provider_profile` optional.
#[derive(Debug, PartialEq, Eq)]
pub struct HarnessLaunchProfileV2 {
    /// 1 or 2.
    pub schema_version: u32,
    /// Immutable profile identifier.
    pub id: HarnessId,
    /// Harness Kind accepted by this profile.
    pub kind: HarnessKind,
    /// Absolute executable path, or (schema 2) a bare executable name.
    pub executable: String,
    /// Provider-native isolated profile name; required by schema 1.
    pub provider_profile: Option<String>,
    /// Model recorded for the Harness Session.
    pub model: Option<String>,
    /// Environment variable names explicitly inherited by the Worker.
    pub inherit_env: Vec<String>,
    /// OMP configuration overlays, applied in order.
    pub config_overlays: Vec<String>,
}

/// Two schema 1 or 2 profiles hold the same values.
pub open spec fn same_profile(a: HarnessLaunchProfileV2, b: HarnessLaunchProfileV2) -> bool {
    &&& a.schema_version == b.schema_version
    &&& a.id == b.id
    &&& a.kind == b.kind
    &&& a.executable == b.executable
    &&& a.provider_profile == b.provider_profile
    &&& a.model == b.model
    &&& a.inherit_env@ == b.inherit_env@
    &&& a.config_overlays@ == b.config_overlays@
}

impl Clone for HarnessLaunchProfileV2 {
    fn clone(&self) -> (copy: Self)
        ensures
            same_profile(copy, *self),
    {
        HarnessLaunchProfileV2 {
            schema_version: self.schema_version,
            id: self.id.duplicate(),
            kind: self.kind,
            executable: self.executable.clone(),
            provider_profile: match &self.provider_profile {
                Some(p) => Some(p.clone()),
                None => None,
            },
            model: match &self.model {
                Some(m) => Some(m.clone()),
                None => None,
            },
            inherit_env: copy_texts(&self.inherit_env),
            config_overlays: copy_texts(&self.config_overlays),
        }
    }
}

impl HarnessLaunchProfileV2 {
    /// The same selection as a schema 1 profile.
    pub fn from_v1(profile: HarnessLaunchProfileV1) -> (converted: HarnessLaunchProfileV2)
        ensures
            converted.schema_version == profile.schema_version,
            converted.id == profile.id,
            converted.kind == profile.kind,
            converted.executable == profile.executable,
            converted.provider_profile == Some(profile.provider_profile),
            converted.model == profile.model,
            converted.inherit_env == profile.inherit_env,
            converted.config_overlays == profile.config_overlays,
    {
        HarnessLaunchProfileV2 {
            schema_version: profile.schema_version,
            id: profile.id,
            kind: profile.kind,
            executable: profile.executable,
            provider_profile: Some(profile.provider_profile),
            model: profile.model,
            inherit_env: profile.inherit_env,
            config_overlays: profile.config_overlays,
        }
    }
}

/// One lexical repository write scope.
#[derive(Debug, Clone, PartialEq, Eq, Hash)]
pub enum WriteScopeV1 {
    /// Authorize exactly one path.
    ExactFile { path: String },
    /// Authorize a directory and descendants.
    Subtree { path: String },
}

/// The mathematical value of a [`WriteScopeV1`].
pub enum WriteScopeView {
    ExactFile(Seq<char>),
    Subtree(Seq<char>),
}

impl View for WriteScopeV1 {
    type V = WriteScopeView;

    open spec fn view(&self) -> WriteScopeView {
        match self {
            WriteScopeV1::ExactFile { path } => WriteScopeView::ExactFile(path@),
            WriteScopeV1::Subtree { path } => WriteScopeView::Subtree(path@),
        }
    }
}

impl WriteScopeV1 {
    /// The repository-relative path of a scope.
    pub open spec fn path_of(self) -> Seq<char> {
        match self {
            WriteScopeV1::ExactFile { path } => path@,
            WriteScopeV1::Subtree { path } => path@,
        }
    }

    /// Returns the normalized repository-relative path.
    pub fn path(&self) -> (path: &String)
        ensures
            path@ == self.path_of(),
    {
        match self {
            WriteScopeV1::ExactFile { path } => path,
            WriteScopeV1::Subtree { path } => path,
        }
    }
}

/// Repository authority attached to one Task.
#[derive(Debug, Clone, PartialEq, Eq)]
pub struct TaskRepositoryAuthorityV1 {
    /// Canonical worktree root.
    pub root: String,
    /// Read-only or mutating authority.
    pub access: RepositoryAccess,
    /// Normalized write scopes.
    pub write_scopes: Vec<WriteScopeV1>,
}

/// One immutable scheduling dependency of a Task.
#[derive(Debug, Clone, PartialEq, Eq)]
pub struct TaskDependencyV1 {
    /// Existing upstream Task.
    pub task_id: TaskId,
    /// Condition the upstream Task must reach.
    pub condition: DependencyCondition,
    /// Behavior when the upstream Task fails or is cancelled.
    pub failure_policy: DependencyFailurePolicy,
}

/// Public bounded Task request.
#[derive(Debug, Clone, PartialEq, Eq)]
pub struct TaskSubmissionV1 {
    /// Must equal one.
    pub schema_version: u32,
    /// Optional idempotency key.
    pub request_key: Option<String>,
    /// Selected Worker Harness.
    pub worker_id: HarnessId,
    /// Optional related Task context.
    pub related_task_id: Option<TaskId>,
    /// Immutable scheduling dependencies.
    pub depends_on: Vec<TaskDependencyV1>,
    /// Declared semantic purpose.
    pub task_role: TaskRole,
    /// Requested Session reuse policy.
    pub session_reuse: SessionReusePolicy,
    /// Existing Harness Session preferred for reuse.
    pub preferred_session_id: Option<HarnessSessionId>,
    /// Short Task title.
    pub title: String,
    /// Full bounded instructions.
    pub instructions: String,
    /// Immutable input Attachments.
    pub attachments: Vec<AttachmentId>,
    /// Explicit repository authority.
    pub repository: TaskRepositoryAuthorityV1,
}

/// Public message intent; sender identity is derived from the Session.
#[derive(Debug, Clone, PartialEq, Eq)]
pub struct MessageSubmissionV1 {
    /// Must equal one.
    pub schema_version: u32,
    /// Optional idempotency key.
    pub request_key: Option<String>,
    /// Destination Harness.
    pub to: HarnessId,
    /// Associated Task, absent only for network Notifications.
    pub task_id: Option<TaskId>,
    /// Message purpose.
    pub kind: MessageKind,
    /// Human-readable content.
    pub text: String,
    /// Immutable Attachments.
    pub attachments: Vec<AttachmentId>,
    /// Question answered by a Reply.
    pub reply_to: Option<MessageId>,
    /// Explicit delivery intent.
    pub delivery: DeliveryIntent,
}

/// Verification command evidence supplied by a Worker.
#[derive(Debug, Clone, PartialEq, Eq)]
pub struct VerificationResultV1 {
    /// Exact command executed.
    pub command: String,
    /// Process exit status.
    pub exit_code: i32,
    /// Worker assessment of success.
    pub passed: bool,
    /// Immutable output evidence.
    pub evidence: AttachmentId,
}

/// Consolidated Worker completion candidate.
#[derive(Debug, Clone, PartialEq, Eq)]
pub struct ResultManifestV1 {
    /// Must equal one.
    pub schema_version: u32,
    /// Matching Task identity.
    pub task_id: TaskId,
    /// Human-readable summary.
    pub summary: String,
    /// Worker-reported changed paths.
    pub changed_files: Vec<String>,
    /// One or more verification results.
    pub verification: Vec<VerificationResultV1>,
    /// Declared deviations.
    pub deviations: Vec<String>,
    /// Declared risks.
    pub risks: Vec<String>,
    /// Additional immutable evidence.
    pub attachments: Vec<AttachmentId>,
}

/// Current durable native-delivery evidence.
#[derive(Debug, Clone, PartialEq, Eq)]
pub struct DeliveryReceiptV1 {
    /// Must equal one.
    pub schema_version: u32,
    /// Delivered Bus Message.
    pub message_id: MessageId,
    /// Current receipt state.
    pub state: DeliveryState,
    /// Number of immutable attempts.
    pub attempt_count: u32,
    /// Last state update.
    pub updated_at: UtcTimestamp,
    /// Native request correlation.
    pub native_correlation: Option<String>,
    /// Stable diagnostic code.
    pub error_code: Option<String>,
    /// Bounded diagnostic message.
    pub error_message: Option<String>,
}

/// Evidence for one untracked path.
#[derive(Debug, Clone, PartialEq, Eq)]
pub struct UntrackedPathV1 {
    /// Repository-relative path.
    pub path: String,
    /// Filesystem object kind.
    pub file_type: ObservedFileType,
    /// Byte size for regular files.
    pub size: Option<u64>,
    /// SHA-256 for regular files.
    pub digest: Option<String>,
}

/// One normalized Git status entry.
#[derive(Debug, Clone, PartialEq, Eq)]
pub struct GitStatusEntryV1 {
    /// Current path.
    pub path: String,
    /// Git index status code.
    pub index_status: String,
    /// Git worktree status code.
    pub worktree_status: String,
    /// Rename or copy source.
    pub original_path: Option<String>,
}

/// Classification evidence for one changed path.
#[derive(Debug, Clone, PartialEq, Eq)]
pub struct ScopeClassificationV1 {
    /// Changed repository-relative path.
    pub path: String,
    /// Advisory classification.
    pub classification: ScopeClassification,
    /// Scope authorizing the path, when present.
    pub matched_scope: Option<WriteScopeV1>,
}

/// Evidence from one Git CLI command.
#[derive(Debug, Clone, PartialEq, Eq)]
pub struct CommandEvidenceV1 {
    /// Sanitized command description.
    pub command: String,
    /// Tool version.
    pub version: String,
    /// Process exit status.
    pub exit_code: i32,
    /// Bounded diagnostics.
    pub diagnostics: String,
}

/// Immutable digest-addressed Git checkpoint.
#[derive(Debug, Clone, PartialEq, Eq)]
pub struct RepositoryObservationV1 {
    /// Must equal one.
    pub schema_version: u32,
    /// Observation identity.
    pub id: RepositoryObservationId,
    /// Associated Task.
    pub task_id: TaskId,
    /// Checkpoint purpose.
    pub checkpoint: ObservationCheckpoint,
    /// Canonical worktree root.
    pub worktree_root: String,
    /// Canonical Git common directory.
    pub git_common_dir: String,
    /// HEAD object or unborn state.
    pub head: Option<String>,
    /// Current branch or detached state.
    pub branch: Option<String>,
    /// SHA-256 of index metadata.
    pub index_digest: String,
    /// Binary staged diff Attachment.
    pub staged_diff: Option<AttachmentId>,
    /// Binary unstaged diff Attachment.
    pub unstaged_diff: Option<AttachmentId>,
    /// Untracked path evidence.
    pub untracked: Vec<UntrackedPathV1>,
    /// Visible ignored paths.
    pub ignored_paths: Vec<String>,
    /// Normalized Git status.
    pub status_entries: Vec<GitStatusEntryV1>,
    /// Paths changed relative to the Task baseline.
    pub changed_paths: Vec<String>,
    /// Per-path advisory scope evidence.
    pub scope_classifications: Vec<ScopeClassificationV1>,
    /// Commands used to gather evidence.
    pub command_evidence: Vec<CommandEvidenceV1>,
    /// Capture time.
    pub captured_at: UtcTimestamp,
    /// Canonical SHA-256 digest.
    pub digest: String,
}


/// A copy of a list of texts.
pub fn copy_texts(values: &Vec<String>) -> (copy: Vec<String>)
    ensures
        copy@ == values@,
{
    let mut out: Vec<String> = Vec::new();
    let mut i: usize = 0;
    while i < values.len()
        invariant
            i <= values@.len(),
            out@ == values@.take(i as int),
        decreases values@.len() - i,
    {
        out.push(values[i].clone());
        assert(values@.take(i + 1) == values@.take(i as int).push(values@[i as int]));
        i = i + 1;
    }
    assert(values@.take(values@.len() as int) == values@);
    out
}

/// Two launch profiles hold the same values.
pub open spec fn same_launch_profile(a: HarnessLaunchProfileV1, b: HarnessLaunchProfileV1) -> bool {
    &&& a.schema_version == b.schema_version
    &&& a.id == b.id
    &&& a.kind == b.kind
    &&& a.executable == b.executable
    &&& a.provider_profile == b.provider_profile
    &&& a.model == b.model
    &&& a.inherit_env@ == b.inherit_env@
    &&& a.config_overlays@ == b.config_overlays@
}

impl Clone for HarnessLaunchProfileV1 {
    fn clone(&self) -> (copy: Self)
        ensures
            same_launch_profile(copy, *self),
    {
        HarnessLaunchProfileV1 {
            schema_version: self.schema_version,
            id: self.id.duplicate(),
            kind: self.kind,
            executable: self.executable.clone(),
            provider_profile: self.provider_profile.clone(),
            model: match &self.model {
                Some(m) => Some(m.clone()),
                None => None,
            },
            inherit_env: copy_texts(&self.inherit_env),
            config_overlays: copy_texts(&self.config_overlays),
        }
    }
}

} // verus!
