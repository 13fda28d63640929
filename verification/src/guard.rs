//! What resolving a value from a request can yield.

use vstd::prelude::*;
use crate::http::Status;

verus! {

/// The result of an attempt to obtain something from a request.
///
/// `Success` carries what was obtained.  `Failure` ends the request with a
/// hard error.  `Forward` declares the request not applicable here, so that
/// the next candidate route may try it.
#[derive(Clone, Debug, PartialEq, Eq, Hash)]
pub enum Outcome<S, E, F> {
    Success(S),
    Failure(E),
    Forward(F),
}

/// What resolving a value from the request alone yields: the value, the
/// status of a hard error, or the status to forward with.
pub type GuardOutcome<S> = Outcome<S, Status, Status>;

/// What decoding the request body yields.  A forward hands the body back
/// undecoded, together with the status to forward with.
pub type DataOutcome<S, D> = Outcome<S, Status, (D, Status)>;

/// How a handler ends a request: with a response, with the status of a
/// failure, or by forwarding the body and a status to the next candidate.
pub type HandlerOutcome<R, D> = Outcome<R, Status, (D, Status)>;

/// Why no identifier could be read from the request path.
#[derive(Clone, Copy, Debug, PartialEq, Eq, Hash)]
pub enum ParamError {
    /// The path has no segment at the position asked for.
    Missing,
    /// The segment is there and does not parse as an identifier.
    Malformed,
}

} // verus!
