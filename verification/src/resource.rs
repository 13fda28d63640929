//! The interface of a resource.

use vstd::prelude::*;
use rocket::http::ContentType;
use crate::guard::DataOutcome;
use crate::guard::Outcome;

verus! {

/// A RESTful resource: four operations, each of which receives what the
/// handlers gathered from a request and returns what is to be rendered as the
/// response.
///
/// Nothing is promised of what an implementation returns.  The handlers only
/// promise which arguments an operation is invoked with.
///
/// The associated types are unconstrained here.  How an identifier is parsed,
/// how requirements are resolved, how an input is decoded and how a response
/// is rendered is for the driver of a handler to ask of them.
pub trait RocketResource {
    /// Identifies one item of the resource; parsed from the request path.
    type Id;

    /// What every operation needs from the request, such as a database handle.
    type Requirements;

    /// What a create returns, to be rendered as the response.
    type CreateResponse;

    /// What a read returns, to be rendered as the response.
    type ReadResponse;

    /// What an update returns, to be rendered as the response.
    type UpdateResponse;

    /// What a delete returns, to be rendered as the response.
    type DeleteResponse;

    /// The decoded request body of a create.
    type InputCreate;

    /// The decoded request body of an update.
    type InputUpdate;

    /// `POST /`
    fn create(
        input: Self::InputCreate,
        format: ContentType,
        requirements: Self::Requirements,
    ) -> Self::CreateResponse;

    /// `GET /<id>`
    fn read(id: Self::Id, format: ContentType, requirements: Self::Requirements)
        -> Self::ReadResponse;

    /// `PATCH /<id>` and `PUT /<id>`
    fn update(
        input: Self::InputUpdate,
        id: Self::Id,
        format: ContentType,
        requirements: Self::Requirements,
    ) -> Self::UpdateResponse;

    /// `DELETE /<id>`
    fn delete(id: Self::Id, format: ContentType, requirements: Self::Requirements)
        -> Self::DeleteResponse;
}

/// What the create of `T` may return: `(input, format, requirements,
/// response)` holds where `response` is a possible result of `T::create` on
/// the three arguments.
pub open spec fn may_create<T: RocketResource>() -> spec_fn(
    T::InputCreate,
    ContentType,
    T::Requirements,
    T::CreateResponse,
) -> bool {
    |
        input: T::InputCreate,
        format: ContentType,
        requirements: T::Requirements,
        response: T::CreateResponse,
    |
        call_ensures(T::create, (input, format, requirements), response)
}

/// What the read of `T` may return.
pub open spec fn may_read<T: RocketResource>() -> spec_fn(
    T::Id,
    ContentType,
    T::Requirements,
    T::ReadResponse,
) -> bool {
    |id: T::Id, format: ContentType, requirements: T::Requirements, response: T::ReadResponse|
        call_ensures(T::read, (id, format, requirements), response)
}

/// What the update of `T` may return.
pub open spec fn may_update<T: RocketResource>() -> spec_fn(
    T::InputUpdate,
    T::Id,
    ContentType,
    T::Requirements,
    T::UpdateResponse,
) -> bool {
    |
        input: T::InputUpdate,
        id: T::Id,
        format: ContentType,
        requirements: T::Requirements,
        response: T::UpdateResponse,
    |
        call_ensures(T::update, (input, id, format, requirements), response)
}

/// What the delete of `T` may return.
pub open spec fn may_delete<T: RocketResource>() -> spec_fn(
    T::Id,
    ContentType,
    T::Requirements,
    T::DeleteResponse,
) -> bool {
    |id: T::Id, format: ContentType, requirements: T::Requirements, response: T::DeleteResponse|
        call_ensures(T::delete, (id, format, requirements), response)
}

/// The input of an operation that reads nothing from the request body.
#[derive(Clone, Copy, Debug, PartialEq, Eq, Hash)]
pub struct NothingInput;

impl NothingInput {
    /// Decodes a body of any content into `NothingInput`.  This always
    /// succeeds; the body is dropped unread.
    pub fn from_data<D>(_data: D) -> (outcome: DataOutcome<NothingInput, D>)
        ensures
            outcome == DataOutcome::<NothingInput, D>::Success(NothingInput),
    {
        Outcome::Success(NothingInput)
    }
}

} // verus!
