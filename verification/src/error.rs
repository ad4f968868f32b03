//! What can go wrong with a request, and how a failure is put into words.

use crate::text::join;
use vstd::prelude::*;
use vstd::string::StringExecFns;

verus! {

/// The two backends of the pipeline, in the order in which they are called:
/// `DeepSeek` reasons, `Anthropic` answers.
#[derive(Clone, Copy, Debug, PartialEq, Eq)]
pub enum Backend {
    DeepSeek,
    Anthropic,
}

/// A failure as a backend reports it.
#[derive(Clone, Debug, PartialEq, Eq)]
pub struct BackendError {
    pub message: String,
    pub type_: String,
    pub param: Option<String>,
    pub code: Option<String>,
}

/// A `BackendError`, as a value.
pub struct BackendErrorView {
    pub message: Seq<char>,
    pub type_: Seq<char>,
    pub param: Option<Seq<char>>,
    pub code: Option<Seq<char>>,
}

impl DeepView for BackendError {
    type V = BackendErrorView;

    open spec fn deep_view(&self) -> BackendErrorView {
        BackendErrorView {
            message: self.message@,
            type_: self.type_@,
            param: self.param.deep_view(),
            code: self.code.deep_view(),
        }
    }
}

/// Why a request was not answered.
#[derive(Clone, Debug, PartialEq, Eq)]
pub enum ApiError {
    /// The request carries no credential in the header named.
    MissingCredential { header: String },
    /// The credential cannot be read as text.
    MalformedCredential { message: String },
    /// The request's system prompt was refused before the pipeline ran.
    InvalidSystemPrompt,
    /// The reasoning backend failed.
    DeepSeekError { error: BackendError },
    /// The answering backend failed.
    AnthropicError { error: BackendError },
    /// A backend answered, and its answer holds no text.
    MissingContent { backend: Backend },
}

/// An `ApiError`, as a value.
pub enum ApiErrorView {
    MissingCredential { header: Seq<char> },
    MalformedCredential { message: Seq<char> },
    InvalidSystemPrompt,
    DeepSeekError { error: BackendErrorView },
    AnthropicError { error: BackendErrorView },
    MissingContent { backend: Backend },
}

impl DeepView for ApiError {
    type V = ApiErrorView;

    open spec fn deep_view(&self) -> ApiErrorView {
        match self {
            ApiError::MissingCredential { header } => ApiErrorView::MissingCredential {
                header: header@,
            },
            ApiError::MalformedCredential { message } => ApiErrorView::MalformedCredential {
                message: message@,
            },
            ApiError::InvalidSystemPrompt => ApiErrorView::InvalidSystemPrompt,
            ApiError::DeepSeekError { error } => ApiErrorView::DeepSeekError {
                error: error.deep_view(),
            },
            ApiError::AnthropicError { error } => ApiErrorView::AnthropicError {
                error: error.deep_view(),
            },
            ApiError::MissingContent { backend } => ApiErrorView::MissingContent {
                backend: *backend,
            },
        }
    }
}

/// A `Result`, with both sides as values.
pub open spec fn result_view<T: DeepView, E: DeepView>(r: Result<T, E>) -> Result<T::V, E::V> {
    match r {
        Ok(value) => Ok(value.deep_view()),
        Err(error) => Err(error.deep_view()),
    }
}

/// The failure of `backend`, as an error of the request.
pub open spec fn backend_failure(backend: Backend, error: BackendErrorView) -> ApiErrorView {
    match backend {
        Backend::DeepSeek => ApiErrorView::DeepSeekError { error },
        Backend::Anthropic => ApiErrorView::AnthropicError { error },
    }
}

/// What is said when `backend` answered without text.
pub open spec fn missing_content_text(backend: Backend) -> Seq<char> {
    match backend {
        Backend::DeepSeek => "No reasoning content in response"@,
        Backend::Anthropic => "No content in Anthropic response"@,
    }
}

/// What is said when the stream of `backend` broke off with `message`.
pub open spec fn stream_error_text(backend: Backend, message: Seq<char>) -> Seq<char> {
    match backend {
        Backend::DeepSeek => "DeepSeek stream error: "@ + message,
        Backend::Anthropic => "Anthropic stream error: "@ + message,
    }
}

/// The code that every failure inside a stream is reported with.
pub const STREAM_ERROR_CODE: u16 = 500;

impl Backend {
    /// The sentence for an answer without text.
    pub fn missing_content_message(self) -> (message: String)
        ensures
            message@ == missing_content_text(self),
    {
        match self {
            Backend::DeepSeek => String::from_str("No reasoning content in response"),
            Backend::Anthropic => String::from_str("No content in Anthropic response"),
        }
    }

    /// The sentence for a stream that broke off: which backend, then the
    /// backend's own message.
    pub fn stream_error_message(self, error: &BackendError) -> (message: String)
        ensures
            message@ == stream_error_text(self, error.message@),
    {
        match self {
            Backend::DeepSeek => join("DeepSeek stream error: ", error.message.as_str()),
            Backend::Anthropic => join("Anthropic stream error: ", error.message.as_str()),
        }
    }

    /// The failure of this backend, as an error of the request.
    pub fn failure(self, error: BackendError) -> (failure: ApiError)
        ensures
            failure.deep_view() == backend_failure(self, error.deep_view()),
    {
        match self {
            Backend::DeepSeek => ApiError::DeepSeekError { error },
            Backend::Anthropic => ApiError::AnthropicError { error },
        }
    }
}

} // verus!
