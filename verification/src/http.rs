//! The parts of HTTP that the handlers and the route table speak of.

use vstd::prelude::*;

verus! {

/// Rocket's content type.  The handlers pass the negotiated format through to
/// the resource without looking inside it.
#[verifier::external_type_specification]
#[verifier::external_body]
pub struct ExContentType(rocket::http::ContentType);

/// An HTTP status, identified by its numeric code.
#[derive(Clone, Copy, Debug, PartialEq, Eq, Hash)]
pub struct Status {
    pub code: u16,
}

/// The HTTP verbs through which a resource is reached.
#[derive(Clone, Copy, Debug, PartialEq, Eq, Hash)]
pub enum Method {
    Get,
    Put,
    Post,
    Delete,
    Patch,
}

/// The code of "400 Bad Request".
pub open spec fn bad_request_code() -> u16 {
    400
}

/// The status with which a request fails when its identifier cannot be read
/// from the path.
///
/// Trusted: the body reads `rocket::http::Status::BadRequest`, which Rocket
/// declares as the status with code 400.  Nothing else is claimed of it.
#[verifier::external_body]
pub(crate) fn bad_request() -> (status: Status)
    ensures
        status.code == bad_request_code(),
{
    Status { code: rocket::http::Status::BadRequest.code }
}

} // verus!
