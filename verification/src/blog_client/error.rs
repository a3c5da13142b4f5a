//! What a command of the client can fail with: the decoded taxonomy of the
//! server, whichever transport carried it, and the failures of the
//! transport itself.

use vstd::prelude::*;

use crate::application::blog_service::{lemma_missing_post_is_not_read, lookup};
use crate::data::post_repository::has_post;
use crate::domain::error::{BlogErrorView, ErrorResponse, ErrorResponseView, GrpcCode, GrpcStatus};
use crate::domain::post::PostView;
use crate::text::{decimal_int, format_i64, join2, strip_prefix, stripped};

verus! {

/// The failure of a client command.
#[derive(Debug)]
pub enum AppError {
    /// The gRPC transport failed before any response; its message.
    GrpcError(String),
    /// The HTTP transport failed before any response; its message.
    HttpError(String),
    /// The token cannot be written as metadata; the reason.
    InvalidMetadataValue(String),
    /// The server rejected the input; the detail.
    Validation(String),
    /// The actor does not own the resource.
    Forbidden,
    /// The server failed, or its answer was not understood; the text.
    Internal(String),
    /// No token is stored, or the server did not accept the credentials.
    Unauthorized,
    /// The resource does not exist.
    NotFound,
}

/// An `AppError` with its texts as sequences of characters.
pub enum AppErrorView {
    GrpcError(Seq<char>),
    HttpError(Seq<char>),
    InvalidMetadataValue(Seq<char>),
    Validation(Seq<char>),
    Forbidden,
    Internal(Seq<char>),
    Unauthorized,
    NotFound,
}

impl View for AppError {
    type V = AppErrorView;

    open spec fn view(&self) -> AppErrorView {
        match self {
            AppError::GrpcError(m) => AppErrorView::GrpcError(m@),
            AppError::HttpError(m) => AppErrorView::HttpError(m@),
            AppError::InvalidMetadataValue(m) => AppErrorView::InvalidMetadataValue(m@),
            AppError::Validation(m) => AppErrorView::Validation(m@),
            AppError::Forbidden => AppErrorView::Forbidden,
            AppError::Internal(m) => AppErrorView::Internal(m@),
            AppError::Unauthorized => AppErrorView::Unauthorized,
            AppError::NotFound => AppErrorView::NotFound,
        }
    }
}

/// The text that stands for an HTTP status in an error.
pub open spec fn status_text(status: u16) -> Seq<char> {
    "Server responce: "@ + decimal_int(status as int)
}

/// The error that the client decodes from the status and the error body of
/// an HTTP response that is no success: 400 is a validation error with the
/// resource of the body, 401 unauthorized, 403 forbidden, 404 not found,
/// everything else internal with the text of the body.
pub open spec fn decoded_http(status: u16, body: Option<ErrorResponseView>) -> AppErrorView {
    if status == 400 {
        AppErrorView::Validation(
            match body {
                Some(b) => match b.resource {
                    Some(resource) => resource,
                    None => b.error,
                },
                None => status_text(status),
            },
        )
    } else if status == 401 {
        AppErrorView::Unauthorized
    } else if status == 403 {
        AppErrorView::Forbidden
    } else if status == 404 {
        AppErrorView::NotFound
    } else {
        AppErrorView::Internal(
            match body {
                Some(b) => b.error,
                None => status_text(status),
            },
        )
    }
}

/// The words with which the text of a validation error begins.
pub open spec fn validation_prefix() -> Seq<char> {
    "Validation error: "@
}

/// The detail of a validation error with the text `message`: what follows
/// the words `Validation error: `, or the whole text where it does not
/// begin with them.
pub open spec fn validation_detail(message: Seq<char>) -> Seq<char> {
    match stripped(message, validation_prefix()) {
        Some(detail) => detail,
        None => message,
    }
}

/// The error that the client decodes from a gRPC status: the code gives the
/// kind, the message the detail.
pub open spec fn decoded_grpc(code: GrpcCode, message: Seq<char>) -> AppErrorView {
    match code {
        GrpcCode::InvalidArgument => AppErrorView::Validation(validation_detail(message)),
        GrpcCode::Unauthenticated => AppErrorView::Unauthorized,
        GrpcCode::PermissionDenied => AppErrorView::Forbidden,
        GrpcCode::NotFound => AppErrorView::NotFound,
        GrpcCode::Internal => AppErrorView::Internal(message),
        GrpcCode::Unknown => AppErrorView::Internal(message),
    }
}

/// What the client makes of each error of the server's taxonomy.
pub open spec fn surfaced(e: BlogErrorView) -> AppErrorView {
    match e {
        BlogErrorView::Validation(m) => AppErrorView::Validation(m),
        BlogErrorView::Forbidden => AppErrorView::Forbidden,
        BlogErrorView::NotFound(_) => AppErrorView::NotFound,
        BlogErrorView::Unautorized => AppErrorView::Unauthorized,
        BlogErrorView::Internal(_) => AppErrorView::Internal(
            crate::domain::error::internal_public_text(),
        ),
    }
}

/// The text that stands for the HTTP status `status` in an error.
pub fn status_message(status: u16) -> (r: String)
    ensures
        r@ == status_text(status),
{
    let code = format_i64(status as i64);
    join2("Server responce: ", code.as_str())
}

impl AppError {
    /// Decodes the status and the error body, if it was one, of an HTTP
    /// response that is no success.
    pub fn from_http(status: u16, body: Option<ErrorResponse>) -> (r: AppError)
        ensures
            r@ == decoded_http(
                status,
                match body {
                    Some(b) => Some(b@),
                    None => None,
                },
            ),
    {
        if status == 400 {
            AppError::Validation(
                match body {
                    Some(b) => match b.details {
                        Some(d) => d.resource,
                        None => b.error,
                    },
                    None => status_message(status),
                },
            )
        } else if status == 401 {
            AppError::Unauthorized
        } else if status == 403 {
            AppError::Forbidden
        } else if status == 404 {
            AppError::NotFound
        } else {
            AppError::Internal(
                match body {
                    Some(b) => b.error,
                    None => status_message(status),
                },
            )
        }
    }

    /// Decodes a gRPC status.
    pub fn from_grpc(status: GrpcStatus) -> (r: AppError)
        ensures
            r@ == decoded_grpc(status.code, status.message@),
    {
        match status.code {
            GrpcCode::InvalidArgument => AppError::Validation(
                match strip_prefix(status.message.as_str(), "Validation error: ") {
                    Some(detail) => detail,
                    None => status.message,
                },
            ),
            GrpcCode::Unauthenticated => AppError::Unauthorized,
            GrpcCode::PermissionDenied => AppError::Forbidden,
            GrpcCode::NotFound => AppError::NotFound,
            GrpcCode::Internal => AppError::Internal(status.message),
            GrpcCode::Unknown => AppError::Internal(status.message),
        }
    }

    /// The text of the error.
    pub fn message(&self) -> (r: String)
        ensures
            r@ == (match self@ {
                AppErrorView::GrpcError(m) => "Grpc error: "@ + m,
                AppErrorView::HttpError(m) => "Http error: "@ + m,
                AppErrorView::InvalidMetadataValue(m) => "Invalid Metadata Value: "@ + m,
                AppErrorView::Validation(m) => "Validation error: "@ + m,
                AppErrorView::Forbidden => "Forbidden"@,
                AppErrorView::Internal(m) => "Internal error: "@ + m,
                AppErrorView::Unauthorized => "Unauthorized"@,
                AppErrorView::NotFound => "Not found"@,
            }),
    {
        match self {
            AppError::GrpcError(m) => join2("Grpc error: ", m.as_str()),
            AppError::HttpError(m) => join2("Http error: ", m.as_str()),
            AppError::InvalidMetadataValue(m) => join2("Invalid Metadata Value: ", m.as_str()),
            AppError::Validation(m) => join2("Validation error: ", m.as_str()),
            AppError::Forbidden => "Forbidden".to_owned(),
            AppError::Internal(m) => join2("Internal error: ", m.as_str()),
            AppError::Unauthorized => "Unauthorized".to_owned(),
            AppError::NotFound => "Not found".to_owned(),
        }
    }
}

/// Every error of the server's taxonomy reaches the caller of the client as
/// the same error, whether HTTP or gRPC carried it: the error decoded from
/// the HTTP status and body is the one decoded from the gRPC status, and
/// its kind is the kind that the server meant.
pub proof fn lemma_one_taxonomy(e: BlogErrorView)
    ensures
        decoded_http(e.status_code(), Some(e.body())) == surfaced(e),
        decoded_grpc(e.grpc_code(), e.grpc_message()) == surfaced(e),
{
    if let BlogErrorView::Validation(m) = e {
        let text = validation_prefix() + m;
        assert(text.subrange(0, validation_prefix().len() as int) =~= validation_prefix());
        assert(text.skip(validation_prefix().len() as int) =~= m);
    }
}

/// Reading a post that does not exist reaches the caller of the client as
/// `NotFound` over HTTP and over gRPC alike; only where the store failed,
/// which a dependable store does not, is it `Internal`, again over both.
pub proof fn lemma_missing_post_is_not_found_over_both_transports(
    dependable: bool,
    posts: Seq<PostView>,
    id: i64,
    read: Result<PostView, BlogErrorView>,
)
    requires
        lookup(dependable, posts, id, read),
        !has_post(posts, id),
    ensures
        read matches Err(e) && {
            &&& decoded_http(e.status_code(), Some(e.body())) == decoded_grpc(
                e.grpc_code(),
                e.grpc_message(),
            )
            &&& decoded_http(e.status_code(), Some(e.body())) == AppErrorView::NotFound || e
                is Internal
            &&& dependable ==> decoded_http(e.status_code(), Some(e.body()))
                == AppErrorView::NotFound
        },
{
    lemma_missing_post_is_not_read(dependable, posts, id, read);
    lemma_one_taxonomy(read->Err_0);
}

} // verus!
