//! Versioned JSONL broker envelope: framing limits, request admission, and response shaping.
//!
//! The transport itself (a local Unix socket) and JSON encoding stand outside this module; it
//! decides what each frame is answered with.
use vstd::prelude::*;
use vstd::string::*;
use crate::coordinator::{ActorContext, CoordinatorCommand, CoordinatorQuery, ErrorCategory};
use crate::host::opt_text;

verus! {

/// Maximum accepted request or emitted response frame, in bytes.
pub const MAX_BROKER_FRAME_BYTES: usize = 1024 * 1024;

/// The first broker envelope version: the first operation set.
pub const BROKER_SCHEMA_V1: u32 = 1;

/// The second broker envelope version: adds the Dashboard query and pane location recording.
pub const BROKER_SCHEMA_V2: u32 = 2;

/// Maximum length of a diagnostic carried by an error response, in Unicode scalars.
pub const MAX_DIAGNOSTIC_CHARS: usize = 4096;

/// One versioned broker request.
#[derive(Debug, Clone)]
pub struct BrokerRequest {
    /// Must equal the public contract version.
    pub schema_version: u32,
    /// Caller-selected correlation returned unchanged.
    pub request_id: String,
    /// Authenticated Core operation.
    pub operation: BrokerOperation,
}

/// Operations transported without exposing storage or provider protocols.
#[derive(Debug, Clone)]
pub enum BrokerOperation {
    /// Execute one state-changing Core command.
    Execute { actor: ActorContext, command: CoordinatorCommand },
    /// Execute one read-only Core query.
    Query { actor: ActorContext, query: CoordinatorQuery },
}

/// Serializable stable Core or transport failure.
#[derive(Debug, Clone)]
pub struct BrokerErrorBody {
    /// Stable category shared with the Core.
    pub category: ErrorCategory,
    /// Bounded human-readable diagnostic.
    pub message: String,
}

/// One versioned broker response. The result is the JSON text of the Core's value.
#[derive(Debug, Clone)]
pub struct BrokerResponse {
    /// Public contract version.
    pub schema_version: u32,
    /// Correlation copied from the request when decodable.
    pub request_id: Option<String>,
    /// Successful command or query value, as JSON text.
    pub result: Option<String>,
    /// Stable error, absent on success.
    pub error: Option<BrokerErrorBody>,
}

/// The mathematical value of a [`BrokerResponse`].
pub struct ResponseView {
    pub schema_version: u32,
    pub request_id: Option<Seq<char>>,
    pub result: Option<Seq<char>>,
    pub error: Option<(ErrorCategory, Seq<char>)>,
}

impl View for BrokerResponse {
    type V = ResponseView;

    open spec fn view(&self) -> ResponseView {
        ResponseView {
            schema_version: self.schema_version,
            request_id: opt_text(self.request_id),
            result: opt_text(self.result),
            error: match self.error {
                Some(body) => Some((body.category, body.message@)),
                None => None,
            },
        }
    }
}

/// A diagnostic cut to its first [`MAX_DIAGNOSTIC_CHARS`] Unicode scalars.
pub open spec fn bounded_diagnostic(message: Seq<char>) -> Seq<char> {
    if message.len() <= MAX_DIAGNOSTIC_CHARS {
        message
    } else {
        message.subrange(0, MAX_DIAGNOSTIC_CHARS as int)
    }
}

/// The error response, under an envelope version, for a request correlation, category, and
/// diagnostic.
pub open spec fn error_response(
    schema_version: u32,
    request_id: Option<Seq<char>>,
    category: ErrorCategory,
    message: Seq<char>,
) -> ResponseView {
    ResponseView {
        schema_version,
        request_id,
        result: None,
        error: Some((category, bounded_diagnostic(message))),
    }
}

/// The success response, under an envelope version, for a request correlation and result.
pub open spec fn success_response(
    schema_version: u32,
    request_id: Option<Seq<char>>,
    result: Seq<char>,
) -> ResponseView {
    ResponseView { schema_version, request_id, result: Some(result), error: None }
}

/// A diagnostic carried by a response never exceeds [`MAX_DIAGNOSTIC_CHARS`] Unicode scalars,
/// is a prefix of the message, and is the whole message when that fits.
pub proof fn diagnostics_are_bounded_prefixes(message: Seq<char>)
    ensures
        bounded_diagnostic(message).len() <= MAX_DIAGNOSTIC_CHARS,
        message.take(bounded_diagnostic(message).len() as int) == bounded_diagnostic(message),
        message.len() <= MAX_DIAGNOSTIC_CHARS ==> bounded_diagnostic(message) == message,
{
    assert(message.take(bounded_diagnostic(message).len() as int) =~= bounded_diagnostic(message));
}

/// Cuts a diagnostic to its first [`MAX_DIAGNOSTIC_CHARS`] Unicode scalars.
pub fn bound_diagnostic(message: &str) -> (bounded: String)
    ensures
        bounded@ == bounded_diagnostic(message@),
{
    if message.unicode_len() <= MAX_DIAGNOSTIC_CHARS {
        message.to_owned()
    } else {
        message.substring_char(0, MAX_DIAGNOSTIC_CHARS).to_owned()
    }
}

impl BrokerResponse {
    /// An error response under the first envelope version, with a bounded diagnostic.
    pub fn error(request_id: Option<String>, category: ErrorCategory, message: &str) -> (response: BrokerResponse)
        ensures
            response@ == error_response(BROKER_SCHEMA_V1, opt_text(request_id), category, message@),
    {
        BrokerResponse::versioned_error(BROKER_SCHEMA_V1, request_id, category, message)
    }

    /// An error response under the given envelope version, with a bounded diagnostic.
    pub fn versioned_error(
        schema_version: u32,
        request_id: Option<String>,
        category: ErrorCategory,
        message: &str,
    ) -> (response: BrokerResponse)
        ensures
            response@ == error_response(schema_version, opt_text(request_id), category, message@),
    {
        BrokerResponse {
            schema_version,
            request_id,
            result: None,
            error: Some(BrokerErrorBody { category, message: bound_diagnostic(message) }),
        }
    }

    /// A success response under the given envelope version, carrying the JSON text of a Core
    /// value.
    pub fn success(schema_version: u32, request_id: Option<String>, result: String) -> (response: BrokerResponse)
        ensures
            response@ == success_response(schema_version, opt_text(request_id), result@),
    {
        BrokerResponse { schema_version, request_id, result: Some(result), error: None }
    }
}

/// Whether a frame of the given length is within the framing limit.
pub fn frame_fits(len: usize) -> (fits: bool)
    ensures
        fits == (len <= MAX_BROKER_FRAME_BYTES),
{
    len <= MAX_BROKER_FRAME_BYTES
}

/// The answer to a request frame over the limit; the connection closes after it is written.
pub fn oversized_frame_response() -> (response: BrokerResponse)
    ensures
        response@ == error_response(
            BROKER_SCHEMA_V1,
            None,
            ErrorCategory::InvalidInput,
            "broker frame exceeds 1 MiB"@,
        ),
{
    BrokerResponse::error(None, ErrorCategory::InvalidInput, "broker frame exceeds 1 MiB")
}

/// The answer to a frame that does not decode as a request, given the decoder's diagnostic.
pub fn undecodable_frame_response(diagnostic: &str) -> (response: BrokerResponse)
    ensures
        response@ == error_response(BROKER_SCHEMA_V1, None, ErrorCategory::InvalidInput, diagnostic@),
{
    BrokerResponse::error(None, ErrorCategory::InvalidInput, diagnostic)
}

/// The operations that exist only from envelope version 2: the Dashboard query and pane
/// location recording.
pub open spec fn needs_v2(operation: BrokerOperation) -> bool {
    match operation {
        BrokerOperation::Query { query, .. } => query == CoordinatorQuery::Dashboard,
        BrokerOperation::Execute { command, .. } => command is RecordPaneLocation,
    }
}

/// Whether an envelope version carries an operation: version 2 carries every operation,
/// version 1 the first operation set.
pub open spec fn version_carries(schema_version: u32, operation: BrokerOperation) -> bool {
    schema_version == BROKER_SCHEMA_V2 || (schema_version == BROKER_SCHEMA_V1 && !needs_v2(operation))
}

/// The diagnostic for a request whose envelope version does not carry its operation.
pub open spec fn version_refusal(schema_version: u32) -> Seq<char> {
    if schema_version == BROKER_SCHEMA_V1 {
        "Dashboard and RecordPaneLocation require broker schema_version 2"@
    } else {
        "broker schema_version must be 1 or 2"@
    }
}

/// Whether an operation exists only from envelope version 2.
pub fn operation_needs_v2(operation: &BrokerOperation) -> (needed: bool)
    ensures
        needed == needs_v2(*operation),
{
    match operation {
        BrokerOperation::Query { query, .. } => *query == CoordinatorQuery::Dashboard,
        BrokerOperation::Execute { command, .. } => match command {
            CoordinatorCommand::RecordPaneLocation { .. } => true,
            _ => false,
        },
    }
}

/// The envelope version a client sends an operation under: the first version that carries it.
pub fn request_version(operation: &BrokerOperation) -> (schema_version: u32)
    ensures
        schema_version == if needs_v2(*operation) {
            BROKER_SCHEMA_V2
        } else {
            BROKER_SCHEMA_V1
        },
        version_carries(schema_version, *operation),
{
    if operation_needs_v2(operation) {
        BROKER_SCHEMA_V2
    } else {
        BROKER_SCHEMA_V1
    }
}

/// Admits a decoded request for execution: its envelope version must carry its operation.
/// Returns the version, correlation, and operation, or the response that refuses the request
/// with the correlation kept.
pub fn admit_request(request: BrokerRequest) -> (admitted: Result<(u32, String, BrokerOperation), BrokerResponse>)
    ensures
        match admitted {
            Ok((version, request_id, _operation)) => version_carries(
                request.schema_version,
                request.operation,
            ) && version == request.schema_version && request_id@ == request.request_id@,
            Err(response) => !version_carries(request.schema_version, request.operation)
                && response@ == error_response(
                BROKER_SCHEMA_V1,
                Some(request.request_id@),
                ErrorCategory::UnsupportedVersion,
                version_refusal(request.schema_version),
            ),
        },
        admitted matches Ok((_, _, operation)) ==> operation == request.operation,
{
    let v2_only = operation_needs_v2(&request.operation);
    if request.schema_version == BROKER_SCHEMA_V2 || (request.schema_version == BROKER_SCHEMA_V1
        && !v2_only) {
        return Ok((request.schema_version, request.request_id, request.operation));
    }
    let message = if request.schema_version == BROKER_SCHEMA_V1 {
        "Dashboard and RecordPaneLocation require broker schema_version 2"
    } else {
        "broker schema_version must be 1 or 2"
    };
    Err(BrokerResponse::error(Some(request.request_id), ErrorCategory::UnsupportedVersion, message))
}

/// The response, under the request's envelope version, for the outcome of an admitted
/// request: the Core's value as JSON text, or its stable error.
pub fn outcome_response(
    schema_version: u32,
    request_id: String,
    outcome: Result<String, (ErrorCategory, String)>,
) -> (response: BrokerResponse)
    ensures
        response@ == match outcome {
            Ok(result) => success_response(schema_version, Some(request_id@), result@),
            Err((category, message)) => error_response(
                schema_version,
                Some(request_id@),
                category,
                message@,
            ),
        },
{
    match outcome {
        Ok(result) => BrokerResponse::success(schema_version, Some(request_id), result),
        Err((category, message)) => BrokerResponse::versioned_error(
            schema_version,
            Some(request_id),
            category,
            message.as_str(),
        ),
    }
}

/// The response actually written for an encoded response of `encoded_len` bytes: one that
/// would not fit a frame together with its newline is replaced by a storage failure that keeps
/// the correlation and the envelope version.
pub fn bounded_response(response: BrokerResponse, encoded_len: usize) -> (written: BrokerResponse)
    ensures
        written@ == if encoded_len < MAX_BROKER_FRAME_BYTES {
            response@
        } else {
            error_response(
                response@.schema_version,
                response@.request_id,
                ErrorCategory::StorageFailure,
                "broker response exceeds 1 MiB"@,
            )
        },
{
    if encoded_len < MAX_BROKER_FRAME_BYTES {
        response
    } else {
        BrokerResponse::versioned_error(
            response.schema_version,
            response.request_id,
            ErrorCategory::StorageFailure,
            "broker response exceeds 1 MiB",
        )
    }
}

/// Every response the broker writes for an admitted request carries the request's
/// correlation and envelope version, and exactly one of a result or an error.
pub proof fn responses_keep_correlation(
    schema_version: u32,
    request_id: Seq<char>,
    outcome: Result<Seq<char>, (ErrorCategory, Seq<char>)>,
    encoded_len: nat,
)
    ensures
        ({
            let response = match outcome {
                Ok(result) => success_response(schema_version, Some(request_id), result),
                Err((category, message)) => error_response(
                    schema_version,
                    Some(request_id),
                    category,
                    message,
                ),
            };
            let written = if encoded_len < MAX_BROKER_FRAME_BYTES {
                response
            } else {
                error_response(
                    response.schema_version,
                    response.request_id,
                    ErrorCategory::StorageFailure,
                    "broker response exceeds 1 MiB"@,
                )
            };
            &&& written.request_id == Some(request_id)
            &&& written.schema_version == schema_version
            &&& (written.result is Some) != (written.error is Some)
        }),
{
}

/// A client sends every operation under a version that the broker admits it under.
pub proof fn client_versions_are_admitted(operation: BrokerOperation)
    ensures
        version_carries(
            if needs_v2(operation) {
                BROKER_SCHEMA_V2
            } else {
                BROKER_SCHEMA_V1
            },
            operation,
        ),
{
}

/// Broker bind, framing, or connection failure.
#[derive(Debug, Clone, PartialEq, Eq)]
pub enum BrokerError {
    /// A socket operation failed.
    Io {
        /// Socket path.
        path: String,
        /// Diagnostic of the underlying I/O failure.
        message: String,
    },
    /// A frame exceeded the public framing limit.
    ResponseTooLarge,
    /// Connecting to the socket failed, before any request byte was written.
    Connect {
        /// Socket path.
        path: String,
        /// Diagnostic of the underlying I/O failure.
        message: String,
    },
}

/// The mathematical value of a [`BrokerError`].
pub enum BrokerErrorView {
    Io { path: Seq<char>, message: Seq<char> },
    ResponseTooLarge,
    Connect { path: Seq<char>, message: Seq<char> },
}

impl View for BrokerError {
    type V = BrokerErrorView;

    open spec fn view(&self) -> BrokerErrorView {
        match self {
            BrokerError::Io { path, message } => BrokerErrorView::Io { path: path@, message: message@ },
            BrokerError::ResponseTooLarge => BrokerErrorView::ResponseTooLarge,
            BrokerError::Connect { path, message } => BrokerErrorView::Connect {
                path: path@,
                message: message@,
            },
        }
    }
}

/// The human-readable rendering of a broker error.
pub open spec fn broker_error_text(error: BrokerErrorView) -> Seq<char> {
    match error {
        BrokerErrorView::Io { path, message } => "broker socket `"@ + path + "` failed: "@ + message,
        BrokerErrorView::ResponseTooLarge => "broker response exceeds the 1048576-byte limit"@,
        BrokerErrorView::Connect { path, message } => "broker socket `"@ + path + "` failed: "@
            + message,
    }
}

/// Whether a failed call may be repeated without risk of a second effect: only a failure to
/// connect, which happens before any request byte is written.
pub open spec fn retry_safe(error: BrokerErrorView) -> bool {
    error is Connect
}

impl BrokerError {
    /// A socket failure at `path`.
    pub fn io(path: &str, message: &str) -> (error: BrokerError)
        ensures
            error@ == (BrokerErrorView::Io { path: path@, message: message@ }),
    {
        BrokerError::Io { path: path.to_owned(), message: message.to_owned() }
    }

    /// A failure to connect to the socket at `path`.
    pub fn connect(path: &str, message: &str) -> (error: BrokerError)
        ensures
            error@ == (BrokerErrorView::Connect { path: path@, message: message@ }),
    {
        BrokerError::Connect { path: path.to_owned(), message: message.to_owned() }
    }

    /// Whether the failed call may be repeated: true only when connecting failed, before any
    /// request byte was written.
    pub fn is_retry_safe_connect(&self) -> (safe: bool)
        ensures
            safe == retry_safe(self@),
    {
        match self {
            BrokerError::Connect { .. } => true,
            _ => false,
        }
    }

    /// Renders this error as human-readable text.
    pub fn to_text(&self) -> (text: String)
        ensures
            text@ == broker_error_text(self@),
    {
        match self {
            BrokerError::Io { path, message } => {
                let mut out = String::from_str("broker socket `");
                out.append(path.as_str());
                out.append("` failed: ");
                out.append(message.as_str());
                out
            },
            BrokerError::ResponseTooLarge => String::from_str("broker response exceeds the 1048576-byte limit"),
            BrokerError::Connect { path, message } => {
                let mut out = String::from_str("broker socket `");
                out.append(path.as_str());
                out.append("` failed: ");
                out.append(message.as_str());
                out
            },
        }
    }
}

/// Checks a client frame (request or response) against the framing limit.
pub fn check_frame(len: usize) -> (checked: Result<(), BrokerError>)
    ensures
        match checked {
            Ok(()) => len <= MAX_BROKER_FRAME_BYTES,
            Err(error) => len > MAX_BROKER_FRAME_BYTES && error@ == BrokerErrorView::ResponseTooLarge,
        },
{
    if len > MAX_BROKER_FRAME_BYTES {
        Err(BrokerError::ResponseTooLarge)
    } else {
        Ok(())
    }
}

} // verus!
