//! Error taxonomy of the service core.

use vstd::prelude::*;

verus! {

/// Outcome of a failed request, surfaced to the caller.
///
/// `NotFound` is a domain-level miss (the requested comment id does not
/// exist); `RequestTimeout` means the admission deadline elapsed before the
/// request finished; `InternalError` covers any other unhandled failure of
/// the request path. None of these stops the service.
#[derive(Clone, Copy, PartialEq, Eq, Structural, Debug)]
pub enum RequestError {
    NotFound,
    RequestTimeout,
    InternalError,
}

} // verus!
