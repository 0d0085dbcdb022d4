//! Bounded-concurrency scrape-job engine.
//!
//! A job names a publication by slug and a callback endpoint. The engine
//! discovers the publication's ordered chapter list, fetches per-chapter
//! image URLs under a fixed-capacity resource pool with a bounded retry
//! policy, reassembles the results into discovery order, and produces the
//! document that is delivered to the callback.

use vstd::prelude::*;

pub mod aggregate;
pub mod admission;
pub mod chapter;
pub mod config;
pub mod executor;
pub mod pool;
pub mod results;
pub mod retry;

verus! {

/// The errors a job can end with, by the phase that failed.
#[derive(Clone, Copy, Debug, PartialEq, Eq, Structural)]
pub enum Error {
    /// The job description at ingress was malformed.
    AdmissionRejected,
    /// A configuration argument could not be parsed.
    BadArgument,
    /// The chapter list could not be obtained; terminal for the job.
    DiscoveryFailed,
    /// A chapter's fetch retries were exhausted; terminal for the job.
    ChapterFetchExhausted,
    /// The callback POST failed; logged, the job still counts as done.
    DeliveryFailed,
}

impl Error {
    /// A human-readable description of the error.
    pub fn message(&self) -> (r: String)
        ensures
            r@ == self.message_spec(),
    {
        match self {
            Error::AdmissionRejected => String::from_str("Malformed job description"),
            Error::BadArgument => String::from_str("Failed to parse argument"),
            Error::DiscoveryFailed => String::from_str("Failed to discover chapter list"),
            Error::ChapterFetchExhausted => String::from_str("Chapter fetch retries exhausted"),
            Error::DeliveryFailed => String::from_str("Failed to deliver to callback"),
        }
    }

    /// What `message` returns for each variant.
    pub open spec fn message_spec(&self) -> Seq<char> {
        match self {
            Error::AdmissionRejected => "Malformed job description"@,
            Error::BadArgument => "Failed to parse argument"@,
            Error::DiscoveryFailed => "Failed to discover chapter list"@,
            Error::ChapterFetchExhausted => "Chapter fetch retries exhausted"@,
            Error::DeliveryFailed => "Failed to deliver to callback"@,
        }
    }
}

} // verus!
