//! The handler of `POST /`.

use vstd::prelude::*;
use rocket::http::ContentType;
use crate::guard::DataOutcome;
use crate::guard::GuardOutcome;
use crate::guard::HandlerOutcome;
use crate::guard::Outcome;
use crate::http::Status;
use crate::resource::may_create;
use crate::resource::RocketResource;

verus! {

/// What the create handler is told: that a request has arrived, or what the
/// resolution it asked for has yielded.  Each event but the first hands back
/// what the action it answers held.
#[allow(inconsistent_fields)]
#[derive(Debug, PartialEq, Eq)]
pub enum CreateEvent<Q, P, D, R> {
    /// A request has arrived with the body `data`.
    Begin { data: D },
    /// Answers [`CreateAction::ResolveRequirements`].
    Requirements { data: D, outcome: GuardOutcome<Q> },
    /// Answers [`CreateAction::ResolveFormat`].
    Format { data: D, requirements: Q, outcome: GuardOutcome<ContentType> },
    /// Answers [`CreateAction::DecodeInput`]: `outcome` is what decoding the
    /// body yielded.
    Input { requirements: Q, format: ContentType, outcome: DataOutcome<P, D> },
    /// Answers [`CreateAction::Respond`].
    Responded { result: Result<R, Status> },
}

/// What the create handler wants done next.
#[derive(Debug, PartialEq, Eq)]
pub enum CreateAction<Q, X, D, R> {
    /// Resolve the resource's requirements from the request.
    ResolveRequirements { data: D },
    /// Resolve the negotiated content format from the request.
    ResolveFormat { data: D, requirements: Q },
    /// Decode the body `data` into the input of the operation.
    DecodeInput { data: D, requirements: Q, format: ContentType },
    /// The operation has run: render `response` as the protocol response.
    Respond { response: X },
    /// The request is over.
    Finish { outcome: HandlerOutcome<R, D> },
}

/// The steps of a create handler: whether `action` may follow `event`, where
/// `invoked(input, format, requirements, response)` says that the operation
/// may return `response` on these arguments.
///
/// Requirements, format and input are resolved in this order.  The first that
/// does not succeed ends the request: a failure with its status; a forward
/// with its status and the body, which is untouched unless the decoder was the
/// one that forwarded.  Once all three are there the operation is invoked on
/// them, and whatever it returns is to be rendered.  The rendered response, or
/// the status that rendering failed with, ends the request.
pub open spec fn create_step<Q, P, X, D, R>(
    event: CreateEvent<Q, P, D, R>,
    action: CreateAction<Q, X, D, R>,
    invoked: spec_fn(P, ContentType, Q, X) -> bool,
) -> bool {
    match event {
        CreateEvent::Begin { data } => {
            action == CreateAction::<Q, X, D, R>::ResolveRequirements { data }
        },
        CreateEvent::Requirements { data, outcome } => match outcome {
            Outcome::Success(requirements) => {
                action == CreateAction::<Q, X, D, R>::ResolveFormat { data, requirements }
            },
            Outcome::Forward(status) => {
                action == CreateAction::<Q, X, D, R>::Finish {
                    outcome: Outcome::Forward((data, status)),
                }
            },
            Outcome::Failure(status) => {
                action == CreateAction::<Q, X, D, R>::Finish { outcome: Outcome::Failure(status) }
            },
        },
        CreateEvent::Format { data, requirements, outcome } => match outcome {
            Outcome::Success(format) => {
                action == CreateAction::<Q, X, D, R>::DecodeInput { data, requirements, format }
            },
            Outcome::Forward(status) => {
                action == CreateAction::<Q, X, D, R>::Finish {
                    outcome: Outcome::Forward((data, status)),
                }
            },
            Outcome::Failure(status) => {
                action == CreateAction::<Q, X, D, R>::Finish { outcome: Outcome::Failure(status) }
            },
        },
        CreateEvent::Input { requirements, format, outcome } => match outcome {
            Outcome::Success(input) => {
                action matches CreateAction::Respond { response } && invoked(
                    input,
                    format,
                    requirements,
                    response,
                )
            },
            Outcome::Forward(forward) => {
                action == CreateAction::<Q, X, D, R>::Finish { outcome: Outcome::Forward(forward) }
            },
            Outcome::Failure(status) => {
                action == CreateAction::<Q, X, D, R>::Finish { outcome: Outcome::Failure(status) }
            },
        },
        CreateEvent::Responded { result } => match result {
            Ok(response) => {
                action == CreateAction::<Q, X, D, R>::Finish { outcome: Outcome::Success(response) }
            },
            Err(status) => {
                action == CreateAction::<Q, X, D, R>::Finish { outcome: Outcome::Failure(status) }
            },
        },
    }
}

/// Handles `POST /` for resource `T`, one step at a time.
pub fn create_handler<T: RocketResource, D, R>(
    event: CreateEvent<T::Requirements, T::InputCreate, D, R>,
) -> (action: CreateAction<T::Requirements, T::CreateResponse, D, R>)
    ensures
        create_step(event, action, may_create::<T>()),
{
    match event {
        CreateEvent::Begin { data } => CreateAction::ResolveRequirements { data },
        CreateEvent::Requirements { data, outcome } => match outcome {
            Outcome::Success(requirements) => CreateAction::ResolveFormat { data, requirements },
            Outcome::Forward(status) => CreateAction::Finish {
                outcome: Outcome::Forward((data, status)),
            },
            Outcome::Failure(status) => CreateAction::Finish { outcome: Outcome::Failure(status) },
        },
        CreateEvent::Format { data, requirements, outcome } => match outcome {
            Outcome::Success(format) => CreateAction::DecodeInput { data, requirements, format },
            Outcome::Forward(status) => CreateAction::Finish {
                outcome: Outcome::Forward((data, status)),
            },
            Outcome::Failure(status) => CreateAction::Finish { outcome: Outcome::Failure(status) },
        },
        CreateEvent::Input { requirements, format, outcome } => match outcome {
            Outcome::Success(input) => CreateAction::Respond {
                response: T::create(input, format, requirements),
            },
            Outcome::Forward(forward) => CreateAction::Finish {
                outcome: Outcome::Forward(forward),
            },
            Outcome::Failure(status) => CreateAction::Finish { outcome: Outcome::Failure(status) },
        },
        CreateEvent::Responded { result } => match result {
            Ok(response) => CreateAction::Finish { outcome: Outcome::Success(response) },
            Err(status) => CreateAction::Finish { outcome: Outcome::Failure(status) },
        },
    }
}

/// A request as the driver of a create handler meets it: what each resolution
/// yields.  This is a model to state [`lemma_create_exchange`] with; no
/// executable code holds one.
#[verifier::reject_recursive_types(X)]
#[verifier::reject_recursive_types(D)]
pub struct CreateRequest<Q, P, X, D, R> {
    /// What resolving the requirements yields.
    pub requirements: GuardOutcome<Q>,
    /// What resolving the format yields.
    pub format: GuardOutcome<ContentType>,
    /// What decoding a body yields.
    pub decode: spec_fn(D) -> DataOutcome<P, D>,
    /// What rendering a response yields.
    pub render: spec_fn(X) -> Result<R, Status>,
}

/// The event with which a faithful driver answers `action`: it performs the
/// resolution asked for and hands back what the action held.
pub open spec fn create_answer<Q, P, X, D, R>(
    request: CreateRequest<Q, P, X, D, R>,
    action: CreateAction<Q, X, D, R>,
) -> CreateEvent<Q, P, D, R>
    recommends
        !(action is Finish),
{
    match action {
        CreateAction::ResolveRequirements { data } => CreateEvent::Requirements {
            data,
            outcome: request.requirements,
        },
        CreateAction::ResolveFormat { data, requirements } => CreateEvent::Format {
            data,
            requirements,
            outcome: request.format,
        },
        CreateAction::DecodeInput { data, requirements, format } => CreateEvent::Input {
            requirements,
            format,
            outcome: (request.decode)(data),
        },
        CreateAction::Respond { response } => CreateEvent::Responded {
            result: (request.render)(response),
        },
        CreateAction::Finish { .. } => arbitrary(),
    }
}

/// Whether `actions` are the actions of a whole exchange: the handler is told
/// of a request with the body `data`, a faithful driver answers every action,
/// and the last action, and no earlier one, ends the request.
pub open spec fn create_exchange<Q, P, X, D, R>(
    request: CreateRequest<Q, P, X, D, R>,
    data: D,
    invoked: spec_fn(P, ContentType, Q, X) -> bool,
    actions: Seq<CreateAction<Q, X, D, R>>,
) -> bool {
    &&& actions.len() > 0
    &&& create_step(CreateEvent::Begin { data }, actions[0], invoked)
    &&& forall|i: int|
        1 <= i < actions.len() ==> {
            &&& !(actions[i - 1] is Finish)
            &&& create_step(create_answer(request, actions[i - 1]), #[trigger] actions[i], invoked)
        }
    &&& actions.last() is Finish
}

/// How a create request ends, said at once: whether `outcome` may end the
/// request with the body `data`.
///
/// The first of requirements, format and input that does not succeed decides.
/// Where all succeed, the outcome is what rendering yields for some response
/// that the operation may return on them.
pub open spec fn create_outcome<Q, P, X, D, R>(
    request: CreateRequest<Q, P, X, D, R>,
    data: D,
    invoked: spec_fn(P, ContentType, Q, X) -> bool,
    outcome: HandlerOutcome<R, D>,
) -> bool {
    match request.requirements {
        Outcome::Forward(status) => outcome == HandlerOutcome::<R, D>::Forward((data, status)),
        Outcome::Failure(status) => outcome == HandlerOutcome::<R, D>::Failure(status),
        Outcome::Success(requirements) => match request.format {
            Outcome::Forward(status) => outcome == HandlerOutcome::<R, D>::Forward((data, status)),
            Outcome::Failure(status) => outcome == HandlerOutcome::<R, D>::Failure(status),
            Outcome::Success(format) => match (request.decode)(data) {
                Outcome::Forward(forward) => outcome == HandlerOutcome::<R, D>::Forward(forward),
                Outcome::Failure(status) => outcome == HandlerOutcome::<R, D>::Failure(status),
                Outcome::Success(input) => exists|response: X|
                    {
                        &&& #[trigger] invoked(input, format, requirements, response)
                        &&& outcome == match (request.render)(response) {
                            Ok(rendered) => HandlerOutcome::<R, D>::Success(rendered),
                            Err(status) => HandlerOutcome::<R, D>::Failure(status),
                        }
                    },
            },
        },
    }
}

/// Every whole exchange has at most five actions, and ends the request as
/// [`create_outcome`] says.
pub proof fn lemma_create_exchange<Q, P, X, D, R>(
    request: CreateRequest<Q, P, X, D, R>,
    data: D,
    invoked: spec_fn(P, ContentType, Q, X) -> bool,
    actions: Seq<CreateAction<Q, X, D, R>>,
)
    requires
        create_exchange(request, data, invoked, actions),
    ensures
        actions.len() <= 5,
        actions.last() matches CreateAction::Finish { outcome } && create_outcome(
            request,
            data,
            invoked,
            outcome,
        ),
{
    // Unrolled: told of the request the handler asks for the requirements,
    // and every answer takes it one resolution further or makes it finish.
    // After the rendering nothing is left to ask for.
    let follows = |i: int|
        create_step(create_answer(request, actions[i - 1]), actions[i], invoked);
    assert(!(actions[0] is Finish));
    assert(actions.len() > 1 ==> follows(1));
    assert(actions.len() > 2 ==> follows(2));
    assert(actions.len() > 3 ==> follows(3));
    assert(actions.len() > 4 ==> follows(4));
    assert(actions.len() > 5 ==> !(actions[4] is Finish));
}

} // verus!
