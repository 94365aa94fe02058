//! Questions API: listing and answering interactive question requests.

use vstd::prelude::*;
use crate::http::HttpClient;
use crate::text::to_owned_string;
use vstd::string::StringExecFns;

verus! {

/// Questions API client.
#[derive(Clone)]
pub struct QuestionsApi {
    http: HttpClient,
}

/// Path of the pending question list.
pub fn list_path() -> (r: String)
    ensures
        r@ == "/question"@,
{
    to_owned_string("/question")
}

/// Path for replying to the question request `request_id`.
pub fn reply_path(request_id: &str) -> (r: String)
    ensures
        r@ == "/question/"@ + request_id@ + "/reply"@,
{
    to_owned_string("/question/").concat(request_id).concat("/reply")
}

/// Path for rejecting the question request `request_id`.
pub fn reject_path(request_id: &str) -> (r: String)
    ensures
        r@ == "/question/"@ + request_id@ + "/reject"@,
{
    to_owned_string("/question/").concat(request_id).concat("/reject")
}

impl QuestionsApi {
    /// The HTTP client that requests go through.
    pub closed spec fn spec_http(self) -> HttpClient {
        self.http
    }

    /// Creates a Questions API client.
    pub fn new(http: HttpClient) -> (r: Self)
        ensures
            r.spec_http() == http,
    {
        Self { http }
    }

    /// The HTTP client that requests go through.
    pub fn http(&self) -> (r: &HttpClient)
        ensures
            *r == self.spec_http(),
    {
        &self.http
    }
}

} // verus!
