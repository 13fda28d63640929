//! The handler of `PATCH /<id>` and `PUT /<id>`.

use vstd::prelude::*;
use rocket::http::ContentType;
use crate::guard::DataOutcome;
use crate::guard::GuardOutcome;
use crate::guard::HandlerOutcome;
use crate::guard::Outcome;
use crate::guard::ParamError;
use crate::http::bad_request;
use crate::http::bad_request_code;
use crate::http::Status;
use crate::resource::may_update;
use crate::resource::RocketResource;

verus! {

/// What the update handler is told: that a request has arrived, or what the
/// resolution it asked for has yielded.  Each event but the first hands back
/// what the action it answers held.
#[allow(inconsistent_fields)]
#[derive(Debug, PartialEq, Eq)]
pub enum UpdateEvent<Q, I, P, D, R> {
    /// A request has arrived with the body `data`.
    Begin { data: D },
    /// Answers [`UpdateAction::ResolveRequirements`].
    Requirements { data: D, outcome: GuardOutcome<Q> },
    /// Answers [`UpdateAction::ResolveFormat`].
    Format { data: D, requirements: Q, outcome: GuardOutcome<ContentType> },
    /// Answers [`UpdateAction::ParseId`].
    Id { data: D, requirements: Q, format: ContentType, parsed: Result<I, ParamError> },
    /// Answers [`UpdateAction::DecodeInput`]: `outcome` is what decoding the
    /// body yielded.
    Input { requirements: Q, format: ContentType, id: I, outcome: DataOutcome<P, D> },
    /// Answers [`UpdateAction::Respond`].
    Responded { result: Result<R, Status> },
}

/// What the update handler wants done next.
#[derive(Debug, PartialEq, Eq)]
pub enum UpdateAction<Q, I, X, D, R> {
    /// Resolve the resource's requirements from the request.
    ResolveRequirements { data: D },
    /// Resolve the negotiated content format from the request.
    ResolveFormat { data: D, requirements: Q },
    /// Parse the identifier from the path segment at position `segment`.
    ParseId { segment: usize, data: D, requirements: Q, format: ContentType },
    /// Decode the body `data` into the input of the operation.
    DecodeInput { data: D, requirements: Q, format: ContentType, id: I },
    /// The operation has run: render `response` as the protocol response.
    Respond { response: X },
    /// The request is over.
    Finish { outcome: HandlerOutcome<R, D> },
}

/// The steps of an update handler: whether `action` may follow `event`, where
/// `invoked(input, id, format, requirements, response)` says that the
/// operation may return `response` on these arguments.
///
/// Requirements, format, identifier and input are resolved in this order.  The
/// first that does not succeed ends the request: a failure with its status; a
/// forward with its status and the body, which is untouched unless the decoder
/// was the one that forwarded; an identifier that is missing or malformed with
/// "400 Bad Request".  The identifier is the first segment of the path.  Once
/// all four are there the operation is invoked on them, and whatever it
/// returns is to be rendered.  The rendered response, or the status that
/// rendering failed with, ends the request.
pub open spec fn update_step<Q, I, P, X, D, R>(
    event: UpdateEvent<Q, I, P, D, R>,
    action: UpdateAction<Q, I, X, D, R>,
    invoked: spec_fn(P, I, ContentType, Q, X) -> bool,
) -> bool {
    match event {
        UpdateEvent::Begin { data } => {
            action == UpdateAction::<Q, I, X, D, R>::ResolveRequirements { data }
        },
        UpdateEvent::Requirements { data, outcome } => match outcome {
            Outcome::Success(requirements) => {
                action == UpdateAction::<Q, I, X, D, R>::ResolveFormat { data, requirements }
            },
            Outcome::Forward(status) => {
                action == UpdateAction::<Q, I, X, D, R>::Finish {
                    outcome: Outcome::Forward((data, status)),
                }
            },
            Outcome::Failure(status) => {
                action == UpdateAction::<Q, I, X, D, R>::Finish {
                    outcome: Outcome::Failure(status),
                }
            },
        },
        UpdateEvent::Format { data, requirements, outcome } => match outcome {
            Outcome::Success(format) => {
                action == UpdateAction::<Q, I, X, D, R>::ParseId {
                    segment: 0,
                    data,
                    requirements,
                    format,
                }
            },
            Outcome::Forward(status) => {
                action == UpdateAction::<Q, I, X, D, R>::Finish {
                    outcome: Outcome::Forward((data, status)),
                }
            },
            Outcome::Failure(status) => {
                action == UpdateAction::<Q, I, X, D, R>::Finish {
                    outcome: Outcome::Failure(status),
                }
            },
        },
        UpdateEvent::Id { data, requirements, format, parsed } => match parsed {
            Ok(id) => {
                action == UpdateAction::<Q, I, X, D, R>::DecodeInput {
                    data,
                    requirements,
                    format,
                    id,
                }
            },
            Err(_) => {
                action == UpdateAction::<Q, I, X, D, R>::Finish {
                    outcome: Outcome::Failure(Status { code: bad_request_code() }),
                }
            },
        },
        UpdateEvent::Input { requirements, format, id, outcome } => match outcome {
            Outcome::Success(input) => {
                action matches UpdateAction::Respond { response } && invoked(
                    input,
                    id,
                    format,
                    requirements,
                    response,
                )
            },
            Outcome::Forward(forward) => {
                action == UpdateAction::<Q, I, X, D, R>::Finish {
                    outcome: Outcome::Forward(forward),
                }
            },
            Outcome::Failure(status) => {
                action == UpdateAction::<Q, I, X, D, R>::Finish {
                    outcome: Outcome::Failure(status),
                }
            },
        },
        UpdateEvent::Responded { result } => match result {
            Ok(response) => {
                action == UpdateAction::<Q, I, X, D, R>::Finish {
                    outcome: Outcome::Success(response),
                }
            },
            Err(status) => {
                action == UpdateAction::<Q, I, X, D, R>::Finish {
                    outcome: Outcome::Failure(status),
                }
            },
        },
    }
}

/// Handles `PATCH /<id>` and `PUT /<id>` for resource `T`, one step at a time.
pub fn update_handler<T: RocketResource, D, R>(
    event: UpdateEvent<T::Requirements, T::Id, T::InputUpdate, D, R>,
) -> (action: UpdateAction<T::Requirements, T::Id, T::UpdateResponse, D, R>)
    ensures
        update_step(event, action, may_update::<T>()),
{
    match event {
        UpdateEvent::Begin { data } => UpdateAction::ResolveRequirements { data },
        UpdateEvent::Requirements { data, outcome } => match outcome {
            Outcome::Success(requirements) => UpdateAction::ResolveFormat { data, requirements },
            Outcome::Forward(status) => UpdateAction::Finish {
                outcome: Outcome::Forward((data, status)),
            },
            Outcome::Failure(status) => UpdateAction::Finish { outcome: Outcome::Failure(status) },
        },
        UpdateEvent::Format { data, requirements, outcome } => match outcome {
            Outcome::Success(format) => UpdateAction::ParseId {
                segment: 0,
                data,
                requirements,
                format,
            },
            Outcome::Forward(status) => UpdateAction::Finish {
                outcome: Outcome::Forward((data, status)),
            },
            Outcome::Failure(status) => UpdateAction::Finish { outcome: Outcome::Failure(status) },
        },
        UpdateEvent::Id { data, requirements, format, parsed } => match parsed {
            Ok(id) => UpdateAction::DecodeInput { data, requirements, format, id },
            Err(_) => UpdateAction::Finish { outcome: Outcome::Failure(bad_request()) },
        },
        UpdateEvent::Input { requirements, format, id, outcome } => match outcome {
            Outcome::Success(input) => UpdateAction::Respond {
                response: T::update(input, id, format, requirements),
            },
            Outcome::Forward(forward) => UpdateAction::Finish {
                outcome: Outcome::Forward(forward),
            },
            Outcome::Failure(status) => UpdateAction::Finish { outcome: Outcome::Failure(status) },
        },
        UpdateEvent::Responded { result } => match result {
            Ok(response) => UpdateAction::Finish { outcome: Outcome::Success(response) },
            Err(status) => UpdateAction::Finish { outcome: Outcome::Failure(status) },
        },
    }
}

/// A request as the driver of an update handler meets it: what each
/// resolution yields.  This is a model to state [`lemma_update_exchange`]
/// with; no executable code holds one.
#[verifier::reject_recursive_types(X)]
#[verifier::reject_recursive_types(D)]
pub struct UpdateRequest<Q, I, P, X, D, R> {
    /// What resolving the requirements yields.
    pub requirements: GuardOutcome<Q>,
    /// What resolving the format yields.
    pub format: GuardOutcome<ContentType>,
    /// What parsing the path segment at a position yields.
    pub parse: spec_fn(usize) -> Result<I, ParamError>,
    /// What decoding a body yields.
    pub decode: spec_fn(D) -> DataOutcome<P, D>,
    /// What rendering a response yields.
    pub render: spec_fn(X) -> Result<R, Status>,
}

/// The event with which a faithful driver answers `action`: it performs the
/// resolution asked for and hands back what the action held.
pub open spec fn update_answer<Q, I, P, X, D, R>(
    request: UpdateRequest<Q, I, P, X, D, R>,
    action: UpdateAction<Q, I, X, D, R>,
) -> UpdateEvent<Q, I, P, D, R>
    recommends
        !(action is Finish),
{
    match action {
        UpdateAction::ResolveRequirements { data } => UpdateEvent::Requirements {
            data,
            outcome: request.requirements,
        },
        UpdateAction::ResolveFormat { data, requirements } => UpdateEvent::Format {
            data,
            requirements,
            outcome: request.format,
        },
        UpdateAction::ParseId { segment, data, requirements, format } => UpdateEvent::Id {
            data,
            requirements,
            format,
            parsed: (request.parse)(segment),
        },
        UpdateAction::DecodeInput { data, requirements, format, id } => UpdateEvent::Input {
            requirements,
            format,
            id,
            outcome: (request.decode)(data),
        },
        UpdateAction::Respond { response } => UpdateEvent::Responded {
            result: (request.render)(response),
        },
        UpdateAction::Finish { .. } => arbitrary(),
    }
}

/// Whether `actions` are the actions of a whole exchange: the handler is told
/// of a request with the body `data`, a faithful driver answers every action,
/// and the last action, and no earlier one, ends the request.
pub open spec fn update_exchange<Q, I, P, X, D, R>(
    request: UpdateRequest<Q, I, P, X, D, R>,
    data: D,
    invoked: spec_fn(P, I, ContentType, Q, X) -> bool,
    actions: Seq<UpdateAction<Q, I, X, D, R>>,
) -> bool {
    &&& actions.len() > 0
    &&& update_step(UpdateEvent::Begin { data }, actions[0], invoked)
    &&& forall|i: int|
        1 <= i < actions.len() ==> {
            &&& !(actions[i - 1] is Finish)
            &&& update_step(update_answer(request, actions[i - 1]), #[trigger] actions[i], invoked)
        }
    &&& actions.last() is Finish
}

/// How an update request ends, said at once: whether `outcome` may end the
/// request with the body `data`.
///
/// The first of requirements, format, identifier and input that does not
/// succeed decides.  Where all succeed, the outcome is what rendering yields
/// for some response that the operation may return on them.
pub open spec fn update_outcome<Q, I, P, X, D, R>(
    request: UpdateRequest<Q, I, P, X, D, R>,
    data: D,
    invoked: spec_fn(P, I, ContentType, Q, X) -> bool,
    outcome: HandlerOutcome<R, D>,
) -> bool {
    match request.requirements {
        Outcome::Forward(status) => outcome == HandlerOutcome::<R, D>::Forward((data, status)),
        Outcome::Failure(status) => outcome == HandlerOutcome::<R, D>::Failure(status),
        Outcome::Success(requirements) => match request.format {
            Outcome::Forward(status) => outcome == HandlerOutcome::<R, D>::Forward((data, status)),
            Outcome::Failure(status) => outcome == HandlerOutcome::<R, D>::Failure(status),
            Outcome::Success(format) => match (request.parse)(0) {
                Err(_) => outcome == HandlerOutcome::<R, D>::Failure(
                    Status { code: bad_request_code() },
                ),
                Ok(id) => match (request.decode)(data) {
                    Outcome::Forward(forward) => outcome == HandlerOutcome::<R, D>::Forward(
                        forward,
                    ),
                    Outcome::Failure(status) => outcome == HandlerOutcome::<R, D>::Failure(status),
                    Outcome::Success(input) => exists|response: X|
                        {
                            &&& #[trigger] invoked(input, id, format, requirements, response)
                            &&& outcome == match (request.render)(response) {
                                Ok(rendered) => HandlerOutcome::<R, D>::Success(rendered),
                                Err(status) => HandlerOutcome::<R, D>::Failure(status),
                            }
                        },
                },
            },
        },
    }
}

/// Every whole exchange has at most six actions, and ends the request as
/// [`update_outcome`] says.
pub proof fn lemma_update_exchange<Q, I, P, X, D, R>(
    request: UpdateRequest<Q, I, P, X, D, R>,
    data: D,
    invoked: spec_fn(P, I, ContentType, Q, X) -> bool,
    actions: Seq<UpdateAction<Q, I, X, D, R>>,
)
    requires
        update_exchange(request, data, invoked, actions),
    ensures
        actions.len() <= 6,
        actions.last() matches UpdateAction::Finish { outcome } && update_outcome(
            request,
            data,
            invoked,
            outcome,
        ),
{
    // Unrolled: told of the request the handler asks for the requirements,
    // and every answer takes it one resolution further or makes it finish.
    // After the rendering nothing is left to ask for.
    let follows = |i: int|
        update_step(update_answer(request, actions[i - 1]), actions[i], invoked);
    assert(!(actions[0] is Finish));
    assert(actions.len() > 1 ==> follows(1));
    assert(actions.len() > 2 ==> follows(2));
    assert(actions.len() > 3 ==> follows(3));
    assert(actions.len() > 4 ==> follows(4));
    assert(actions.len() > 5 ==> follows(5));
    assert(actions.len() > 6 ==> !(actions[5] is Finish));
}

} // verus!
