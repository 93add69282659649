//! Request routing decisions.
//!
//! For each inbound request the service decides: refuse the method, answer
//! not-found, serve the unconverted source, or try the derivative
//! pipeline. The transport hands in what it saw (method, file existence,
//! user agent); the decision is pure.

use vstd::prelude::*;

use crate::cache::CacheOutcome;
use crate::text::contains_str;
use crate::text::contains_substring;

verus! {

/// What to do with one request.
#[derive(Clone, Copy, Debug, PartialEq, Eq, Structural)]
pub enum RequestPlan {
    /// Only GET is served.
    MethodNotAllowed,
    /// The source asset does not exist or is not a regular file.
    NotFound,
    /// Serve the source unconverted, without touching the cache.
    ServeOriginal,
    /// Run the derivative pipeline: lookup, regeneration, collection.
    TryDerivative,
}

/// A Safari user agent: Safari announces itself, while Chrome and Firefox
/// both also claim `Safari` and must be ruled out. Safari does not accept
/// WebP, so such a client gets the unconverted source.
pub open spec fn spec_is_safari_ua(ua: Seq<char>) -> bool {
    contains_substring(ua, "Safari"@) && !contains_substring(ua, "Chrome"@)
        && !contains_substring(ua, "Firefox"@)
}

pub fn is_safari_ua(ua: &str) -> (r: bool)
    ensures
        r == spec_is_safari_ua(ua@),
{
    contains_str(ua, "Safari") && !contains_str(ua, "Chrome") && !contains_str(ua, "Firefox")
}

pub open spec fn spec_route_request(
    is_get: bool,
    source_exists: bool,
    source_is_file: bool,
    safari: bool,
) -> RequestPlan {
    if !is_get {
        RequestPlan::MethodNotAllowed
    } else if !source_exists || !source_is_file {
        RequestPlan::NotFound
    } else if safari {
        RequestPlan::ServeOriginal
    } else {
        RequestPlan::TryDerivative
    }
}

/// Routes one request, given what the transport observed about it and the
/// source file it names.
pub fn route_request(is_get: bool, source_exists: bool, source_is_file: bool, safari: bool) -> (r:
    RequestPlan)
    ensures
        r == spec_route_request(is_get, source_exists, source_is_file, safari),
{
    if !is_get {
        RequestPlan::MethodNotAllowed
    } else if !source_exists || !source_is_file {
        RequestPlan::NotFound
    } else if safari {
        RequestPlan::ServeOriginal
    } else {
        RequestPlan::TryDerivative
    }
}

/// After the pipeline ran, whether the derivative file is the one to
/// serve; on a directory or encode failure the caller falls back to the
/// unconverted source.
pub fn serve_derivative(outcome: CacheOutcome) -> (r: bool)
    ensures
        r == (outcome is Hit || outcome is Regenerated),
{
    match outcome {
        CacheOutcome::Hit => true,
        CacheOutcome::Regenerated => true,
        CacheOutcome::DirectoryError => false,
        CacheOutcome::EncodeError => false,
    }
}

} // verus!
