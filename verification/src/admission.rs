//! Job admission: what the ingress adapters decide.
//!
//! Both ingress paths — the HTTP endpoint and the queue consumer — validate
//! the job description, hand a `Job` to an executor run they do not wait
//! for, and acknowledge at once. The acknowledgement and the not-found
//! answer are fixed here; the transport that carries them is the caller's
//! business.

use crate::executor::Job;
use crate::Error;
use vstd::prelude::*;

verus! {

/// A job description is admissible when both its fields are present and
/// non-empty.
pub open spec fn valid_job_description(slug: Seq<char>, callback_url: Seq<char>) -> bool {
    slug.len() > 0 && callback_url.len() > 0
}

/// An ingress answer: HTTP status, outcome flag and message.
#[derive(Clone, Debug)]
pub struct ApiResponse {
    pub status: u16,
    pub success: bool,
    pub message: String,
}

/// The immediate acknowledgement a valid scrape request gets, sent before
/// the background job has done any work.
pub fn accepted_response() -> (r: ApiResponse)
    ensures
        r.status == 200,
        r.success,
        r.message@ == "Manga was sent successfully"@,
{
    ApiResponse {
        status: 200,
        success: true,
        message: String::from_str("Manga was sent successfully"),
    }
}

/// The answer for a route the server does not serve.
pub fn not_found_response() -> (r: ApiResponse)
    ensures
        r.status == 404,
        !r.success,
        r.message@ == "Route not found"@,
{
    ApiResponse { status: 404, success: false, message: String::from_str("Route not found") }
}

/// Admits a job description or rejects it: a `Job` is created exactly when
/// slug and callback URL are both non-empty, and carries them unchanged.
pub fn validate_job(slug: String, callback_url: String) -> (r: Result<Job, Error>)
    ensures
        match r {
            Ok(j) => valid_job_description(slug@, callback_url@) && j.slug@ == slug@
                && j.callback_url@ == callback_url@,
            Err(e) => e == Error::AdmissionRejected && !valid_job_description(
                slug@,
                callback_url@,
            ),
        },
{
    if slug.as_str().is_empty() || callback_url.as_str().is_empty() {
        Err(Error::AdmissionRejected)
    } else {
        Ok(Job { slug, callback_url })
    }
}

} // verus!
