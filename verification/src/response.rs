//! The answer to a request that does not stream.

use crate::clock::Timestamp;
use crate::message::{ContentBlock, ContentBlockView};
use crate::usage::{CombinedUsage, CombinedUsageView};
use serde_json::Value;
use vstd::prelude::*;

verus! {

/// What a backend sent, shown to a caller who asked for it.
#[derive(Debug, PartialEq, Eq)]
pub struct ExternalApiResponse {
    pub status: u16,
    pub headers: Vec<(String, String)>,
    pub body: Value,
}

/// An `ExternalApiResponse`, as a value.
pub struct ExternalApiResponseView {
    pub status: u16,
    pub headers: Seq<(Seq<char>, Seq<char>)>,
    pub body: Value,
}

impl DeepView for ExternalApiResponse {
    type V = ExternalApiResponseView;

    open spec fn deep_view(&self) -> ExternalApiResponseView {
        ExternalApiResponseView {
            status: self.status,
            headers: self.headers.deep_view(),
            body: self.body,
        }
    }
}

/// The whole answer: the reasoning, then the reply, and what both cost.
#[derive(Debug, PartialEq, Eq)]
pub struct ApiResponse {
    pub created: Timestamp,
    pub content: Vec<ContentBlock>,
    pub deepseek_response: Option<ExternalApiResponse>,
    pub anthropic_response: Option<ExternalApiResponse>,
    pub combined_usage: CombinedUsage,
}

/// An `ApiResponse`, as a value.
pub struct ApiResponseView {
    pub created: Timestamp,
    pub content: Seq<ContentBlockView>,
    pub deepseek_response: Option<ExternalApiResponseView>,
    pub anthropic_response: Option<ExternalApiResponseView>,
    pub combined_usage: CombinedUsageView,
}

impl DeepView for ApiResponse {
    type V = ApiResponseView;

    open spec fn deep_view(&self) -> ApiResponseView {
        ApiResponseView {
            created: self.created,
            content: self.content.deep_view(),
            deepseek_response: self.deepseek_response.deep_view(),
            anthropic_response: self.anthropic_response.deep_view(),
            combined_usage: self.combined_usage.deep_view(),
        }
    }
}

/// The status under which a backend's answer is shown.
pub const BACKEND_STATUS: u16 = 200;

/// A backend's answer as it is shown: the status of a call that succeeded,
/// no headers, and the body as it came.
pub open spec fn shown_spec(verbose: bool, raw: Value) -> Option<ExternalApiResponseView> {
    if verbose {
        Some(ExternalApiResponseView { status: BACKEND_STATUS, headers: Seq::empty(), body: raw })
    } else {
        None
    }
}

/// Shows a backend's answer to a caller who asked for it, and to no other.
pub fn shown(verbose: bool, raw: Value) -> (shown: Option<ExternalApiResponse>)
    ensures
        shown.deep_view() == shown_spec(verbose, raw),
{
    if verbose {
        let headers: Vec<(String, String)> = Vec::new();
        assert(headers.deep_view() =~= Seq::empty());
        Some(ExternalApiResponse { status: BACKEND_STATUS, headers, body: raw })
    } else {
        None
    }
}

} // verus!
