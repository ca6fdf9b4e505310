//! The envelope in which a snapshot is reported.

use crate::stat::{SystemInfo, SystemInfoView};
use vstd::prelude::*;

verus! {

/// The code of a response that reports full success.
pub const CODE_SUCCESS: u16 = 200;

/// The code of a response that reports a failure.
pub const CODE_FAILURE: u16 = 500;

/// A report: a code, the snapshot it carries and an error message.
///
/// A body of `None` stands for the empty text that a response without a snapshot has
/// as its body.
#[derive(Debug, Clone, PartialEq, Eq)]
pub struct HttpResponse {
    pub code: u16,
    pub body: Option<SystemInfo>,
    pub error: String,
}

/// What an `HttpResponse` says.
pub struct HttpResponseView {
    pub code: u16,
    pub body: Option<SystemInfoView>,
    pub error: Seq<char>,
}

impl View for HttpResponse {
    type V = HttpResponseView;

    open spec fn view(&self) -> HttpResponseView {
        HttpResponseView { code: self.code, body: body_view(self.body), error: self.error@ }
    }
}

/// What a body says.
pub open spec fn body_view(body: Option<SystemInfo>) -> Option<SystemInfoView> {
    match body {
        Some(info) => Some(info@),
        None => None,
    }
}

/// What a successful response with the given body says.
pub open spec fn success_of(body: Option<SystemInfoView>) -> HttpResponseView {
    HttpResponseView { code: CODE_SUCCESS, body, error: Seq::empty() }
}

/// What a failed response with the given body and message says.
pub open spec fn failure_of(body: Option<SystemInfoView>, error: Seq<char>) -> HttpResponseView {
    HttpResponseView { code: CODE_FAILURE, body, error }
}

/// A response that reports success: code 200, the given body, no error message.
pub fn get_success_response(body: Option<SystemInfo>) -> (response: HttpResponse)
    ensures
        response@ == success_of(body_view(body)),
{
    HttpResponse { code: CODE_SUCCESS, body, error: String::new() }
}

/// A response that reports a failure: code 500, an empty body, the given message.
pub fn get_error_response(error: &str) -> (response: HttpResponse)
    ensures
        response@ == failure_of(None, error@),
{
    HttpResponse { code: CODE_FAILURE, body: None, error: error.to_owned() }
}

/// Takes the snapshot out of a response; a response without one gives the default
/// snapshot.
pub fn convert_response(response: HttpResponse) -> (info: SystemInfo)
    ensures
        info@ == match response@.body {
            Some(body) => body,
            None => SystemInfoView::empty(),
        },
{
    match response.body {
        Some(body) => body,
        None => SystemInfo::default(),
    }
}

} // verus!
