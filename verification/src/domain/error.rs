//! The error taxonomy and its two wire forms: HTTP status with a JSON body,
//! and gRPC status with a message.

use vstd::prelude::*;
use vstd::string::*;

verus! {

/// What a user repository reports.
#[derive(Debug)]
pub enum DomainError {
    UserNotFound,
    Validation(String),
    PostNotFound,
    Forbidden,
    Internal(String),
}

/// A `DomainError` with its texts as sequences of characters.
pub enum DomainErrorView {
    UserNotFound,
    Validation(Seq<char>),
    PostNotFound,
    Forbidden,
    Internal(Seq<char>),
}

impl View for DomainError {
    type V = DomainErrorView;

    open spec fn view(&self) -> DomainErrorView {
        match self {
            DomainError::UserNotFound => DomainErrorView::UserNotFound,
            DomainError::Validation(m) => DomainErrorView::Validation(m@),
            DomainError::PostNotFound => DomainErrorView::PostNotFound,
            DomainError::Forbidden => DomainErrorView::Forbidden,
            DomainError::Internal(m) => DomainErrorView::Internal(m@),
        }
    }
}

/// The protocol-independent classification of every server-side failure.
#[derive(Debug)]
pub enum BlogError {
    Validation(String),
    Forbidden,
    NotFound(String),
    Unautorized,
    Internal(String),
}

/// A `BlogError` with its texts as sequences of characters.
pub enum BlogErrorView {
    Validation(Seq<char>),
    Forbidden,
    NotFound(Seq<char>),
    Unautorized,
    Internal(Seq<char>),
}

impl View for BlogError {
    type V = BlogErrorView;

    open spec fn view(&self) -> BlogErrorView {
        match self {
            BlogError::Validation(m) => BlogErrorView::Validation(m@),
            BlogError::Forbidden => BlogErrorView::Forbidden,
            BlogError::NotFound(m) => BlogErrorView::NotFound(m@),
            BlogError::Unautorized => BlogErrorView::Unautorized,
            BlogError::Internal(m) => BlogErrorView::Internal(m@),
        }
    }
}

/// The `details` object of an HTTP error body.
#[derive(Debug)]
pub struct DetailsError {
    pub resource: String,
}

/// The JSON body of an HTTP error: `{error, details?: {resource}}`.
#[derive(Debug)]
pub struct ErrorResponse {
    pub error: String,
    pub details: Option<DetailsError>,
}

/// An `ErrorResponse` as plain sequences.
pub struct ErrorResponseView {
    pub error: Seq<char>,
    pub resource: Option<Seq<char>>,
}

impl View for ErrorResponse {
    type V = ErrorResponseView;

    open spec fn view(&self) -> ErrorResponseView {
        ErrorResponseView {
            error: self.error@,
            resource: match self.details {
                Some(d) => Some(d.resource@),
                None => None,
            },
        }
    }
}

/// The gRPC status codes of a failed call, as far as the service tells them apart.
#[derive(Clone, Copy, Debug, PartialEq, Eq, Structural)]
pub enum GrpcCode {
    InvalidArgument,
    NotFound,
    PermissionDenied,
    Unauthenticated,
    Internal,
    Unknown,
}

/// A gRPC status: a code and its message.
#[derive(Debug)]
pub struct GrpcStatus {
    pub code: GrpcCode,
    pub message: String,
}

impl GrpcStatus {
    /// A status with the given code and message.
    pub fn new(code: GrpcCode, message: &str) -> (r: GrpcStatus)
        ensures
            r.code == code,
            r.message@ == message@,
    {
        GrpcStatus { code, message: message.to_owned() }
    }
}

/// The message that callers see for an internal failure. It is the same
/// whatever went wrong, so that no detail of the backing store leaves the
/// server.
pub open spec fn internal_public_text() -> Seq<char> {
    "Internal server error"@
}

impl DomainErrorView {
    /// The classification of a repository error.
    pub open spec fn to_blog(self) -> BlogErrorView {
        match self {
            DomainErrorView::UserNotFound => BlogErrorView::NotFound("user not found"@),
            DomainErrorView::Validation(m) => BlogErrorView::Validation(m),
            DomainErrorView::PostNotFound => BlogErrorView::NotFound("Post not found"@),
            DomainErrorView::Forbidden => BlogErrorView::Forbidden,
            DomainErrorView::Internal(m) => BlogErrorView::Internal(m),
        }
    }

    /// The full text of the error, for the server's log.
    pub open spec fn message(self) -> Seq<char> {
        match self {
            DomainErrorView::UserNotFound => "User not found"@,
            DomainErrorView::Validation(m) => "Validation error: "@ + m,
            DomainErrorView::PostNotFound => "Post not found"@,
            DomainErrorView::Forbidden => "Forbidden"@,
            DomainErrorView::Internal(m) => "Internal server error: "@ + m,
        }
    }
}

impl DomainError {
    /// The full text of the error, for the server's log.
    pub fn message(&self) -> (r: String)
        ensures
            r@ == self@.message(),
    {
        match self {
            DomainError::UserNotFound => "User not found".to_owned(),
            DomainError::Validation(m) => crate::text::join2("Validation error: ", m.as_str()),
            DomainError::PostNotFound => "Post not found".to_owned(),
            DomainError::Forbidden => "Forbidden".to_owned(),
            DomainError::Internal(m) => crate::text::join2("Internal server error: ", m.as_str()),
        }
    }
}

impl BlogErrorView {
    /// The HTTP status of the error.
    pub open spec fn status_code(self) -> u16 {
        match self {
            BlogErrorView::Validation(_) => 400,
            BlogErrorView::Unautorized => 401,
            BlogErrorView::Forbidden => 403,
            BlogErrorView::NotFound(_) => 404,
            BlogErrorView::Internal(_) => 500,
        }
    }

    /// The full text of the error, for the server's log.
    pub open spec fn message(self) -> Seq<char> {
        match self {
            BlogErrorView::Validation(m) => "Validation error: "@ + m,
            BlogErrorView::Forbidden => "Forbidden"@,
            BlogErrorView::NotFound(m) => "Not found: "@ + m,
            BlogErrorView::Unautorized => "Unauthorized"@,
            BlogErrorView::Internal(m) => "Internal: "@ + m,
        }
    }

    /// The text that callers see: the full text, but for an internal
    /// failure, of which they see `internal_public_text`.
    pub open spec fn public_message(self) -> Seq<char> {
        match self {
            BlogErrorView::Internal(_) => internal_public_text(),
            _ => self.message(),
        }
    }

    /// The HTTP body of the error: the public text, and the resource for a
    /// validation or a not-found error.
    pub open spec fn body(self) -> ErrorResponseView {
        ErrorResponseView {
            error: self.public_message(),
            resource: match self {
                BlogErrorView::Validation(m) => Some(m),
                BlogErrorView::NotFound(m) => Some(m),
                _ => None,
            },
        }
    }

    /// The gRPC status code of the error.
    pub open spec fn grpc_code(self) -> GrpcCode {
        match self {
            BlogErrorView::Validation(_) => GrpcCode::InvalidArgument,
            BlogErrorView::Forbidden => GrpcCode::PermissionDenied,
            BlogErrorView::NotFound(_) => GrpcCode::NotFound,
            BlogErrorView::Unautorized => GrpcCode::Unauthenticated,
            BlogErrorView::Internal(_) => GrpcCode::Internal,
        }
    }

    /// The message of the gRPC status of the error: the text that the HTTP
    /// body carries as `error`.
    pub open spec fn grpc_message(self) -> Seq<char> {
        self.public_message()
    }
}

impl BlogError {
    /// Classifies a repository error: a missing user or post is `NotFound`
    /// with a text that names the resource, the rest keeps its kind.
    pub fn from_domain(value: DomainError) -> (r: BlogError)
        ensures
            r@ == value@.to_blog(),
    {
        match value {
            DomainError::UserNotFound => BlogError::NotFound("user not found".to_owned()),
            DomainError::Validation(e) => BlogError::Validation(e),
            DomainError::PostNotFound => BlogError::NotFound("Post not found".to_owned()),
            DomainError::Forbidden => BlogError::Forbidden,
            DomainError::Internal(e) => BlogError::Internal(e),
        }
    }

    /// The HTTP status of the error: 400 validation, 401 unauthenticated,
    /// 403 forbidden, 404 not found, 500 internal.
    pub fn status_code(&self) -> (r: u16)
        ensures
            r == self@.status_code(),
    {
        match self {
            BlogError::Forbidden => 403,
            BlogError::NotFound(_) => 404,
            BlogError::Unautorized => 401,
            BlogError::Internal(_) => 500,
            BlogError::Validation(_) => 400,
        }
    }

    /// The full text of the error, for the server's log.
    pub fn message(&self) -> (r: String)
        ensures
            r@ == self@.message(),
    {
        match self {
            BlogError::Validation(m) => crate::text::join2("Validation error: ", m.as_str()),
            BlogError::Forbidden => "Forbidden".to_owned(),
            BlogError::NotFound(m) => crate::text::join2("Not found: ", m.as_str()),
            BlogError::Unautorized => "Unauthorized".to_owned(),
            BlogError::Internal(m) => crate::text::join2("Internal: ", m.as_str()),
        }
    }

    /// The text of the error that callers see, on both wire forms.
    pub fn public_text(&self) -> (r: String)
        ensures
            r@ == self@.public_message(),
    {
        match self {
            BlogError::Internal(_) => "Internal server error".to_owned(),
            _ => self.message(),
        }
    }

    /// The HTTP body of the error.
    pub fn error_response(&self) -> (r: ErrorResponse)
        ensures
            r@ == self@.body(),
    {
        let error = self.public_text();
        let details = match self {
            BlogError::Validation(msg) => Some(DetailsError { resource: msg.clone() }),
            BlogError::Forbidden => None,
            BlogError::NotFound(res) => Some(DetailsError { resource: res.clone() }),
            BlogError::Unautorized => None,
            BlogError::Internal(_) => None,
        };
        ErrorResponse { error, details }
    }

    /// The gRPC status of the error.
    pub fn grpc_status(self) -> (r: GrpcStatus)
        ensures
            r.code == self@.grpc_code(),
            r.message@ == self@.grpc_message(),
    {
        let message = self.public_text();
        let code = match self {
            BlogError::Validation(_) => GrpcCode::InvalidArgument,
            BlogError::Forbidden => GrpcCode::PermissionDenied,
            BlogError::NotFound(_) => GrpcCode::NotFound,
            BlogError::Unautorized => GrpcCode::Unauthenticated,
            BlogError::Internal(_) => GrpcCode::Internal,
        };
        GrpcStatus { code, message }
    }
}

/// Both wire forms of an error carry the same message text.
pub proof fn lemma_same_message_on_both_wires(e: BlogErrorView)
    ensures
        e.grpc_message() == e.body().error,
{
}

/// No detail of an internal failure reaches the caller: whatever went
/// wrong, the HTTP status, the HTTP body and the gRPC status are the same.
pub proof fn lemma_internal_detail_stays_inside(one: Seq<char>, other: Seq<char>)
    ensures
        BlogErrorView::Internal(one).status_code() == BlogErrorView::Internal(other).status_code(),
        BlogErrorView::Internal(one).body() == BlogErrorView::Internal(other).body(),
        BlogErrorView::Internal(one).grpc_code() == BlogErrorView::Internal(other).grpc_code(),
        BlogErrorView::Internal(one).grpc_message() == BlogErrorView::Internal(
            other,
        ).grpc_message(),
{
}

} // verus!
