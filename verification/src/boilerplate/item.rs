//! The handlers of `GET /<id>` and `DELETE /<id>`.

use vstd::prelude::*;
use rocket::http::ContentType;
use crate::guard::GuardOutcome;
use crate::guard::HandlerOutcome;
use crate::guard::Outcome;
use crate::guard::ParamError;
use crate::http::bad_request;
use crate::http::bad_request_code;
use crate::http::Status;
use crate::resource::may_delete;
use crate::resource::may_read;
use crate::resource::RocketResource;

verus! {

/// What a handler of one item is told: that a request has arrived, or what
/// the resolution it asked for has yielded.  Each event but the first hands
/// back what the action it answers held.
#[allow(inconsistent_fields)]
#[derive(Debug, PartialEq, Eq)]
pub enum ItemEvent<Q, I, D, R> {
    /// A request has arrived with the body `data`.
    Begin { data: D },
    /// Answers [`ItemAction::ResolveRequirements`].
    Requirements { data: D, outcome: GuardOutcome<Q> },
    /// Answers [`ItemAction::ResolveFormat`].
    Format { data: D, requirements: Q, outcome: GuardOutcome<ContentType> },
    /// Answers [`ItemAction::ParseId`].
    Id { requirements: Q, format: ContentType, parsed: Result<I, ParamError> },
    /// Answers [`ItemAction::Respond`].
    Responded { result: Result<R, Status> },
}

/// What a handler of one item wants done next.
#[derive(Debug, PartialEq, Eq)]
pub enum ItemAction<Q, X, D, R> {
    /// Resolve the resource's requirements from the request.
    ResolveRequirements { data: D },
    /// Resolve the negotiated content format from the request.
    ResolveFormat { data: D, requirements: Q },
    /// Parse the identifier from the path segment at position `segment`.
    ParseId { segment: usize, requirements: Q, format: ContentType },
    /// The operation has run: render `response` as the protocol response.
    Respond { response: X },
    /// The request is over.
    Finish { outcome: HandlerOutcome<R, D> },
}

/// The steps of a handler of one item: whether `action` may follow `event`,
/// where `invoked(id, format, requirements, response)` says that the operation
/// may return `response` on these arguments.
///
/// Requirements, format and identifier are resolved in this order.  The first
/// that does not succeed ends the request: a failure with its status; a
/// forward with its status and the untouched body; an identifier that is
/// missing or malformed with "400 Bad Request".  The body is read by nobody:
/// it is dropped once the format is there.  The identifier is the first
/// segment of the path.  Once all three are there the operation is invoked on
/// them, and whatever it returns is to be rendered.  The rendered response, or
/// the status that rendering failed with, ends the request.
pub open spec fn item_step<Q, I, X, D, R>(
    event: ItemEvent<Q, I, D, R>,
    action: ItemAction<Q, X, D, R>,
    invoked: spec_fn(I, ContentType, Q, X) -> bool,
) -> bool {
    match event {
        ItemEvent::Begin { data } => {
            action == ItemAction::<Q, X, D, R>::ResolveRequirements { data }
        },
        ItemEvent::Requirements { data, outcome } => match outcome {
            Outcome::Success(requirements) => {
                action == ItemAction::<Q, X, D, R>::ResolveFormat { data, requirements }
            },
            Outcome::Forward(status) => {
                action == ItemAction::<Q, X, D, R>::Finish {
                    outcome: Outcome::Forward((data, status)),
                }
            },
            Outcome::Failure(status) => {
                action == ItemAction::<Q, X, D, R>::Finish { outcome: Outcome::Failure(status) }
            },
        },
        ItemEvent::Format { data, requirements, outcome } => match outcome {
            Outcome::Success(format) => {
                action == ItemAction::<Q, X, D, R>::ParseId { segment: 0, requirements, format }
            },
            Outcome::Forward(status) => {
                action == ItemAction::<Q, X, D, R>::Finish {
                    outcome: Outcome::Forward((data, status)),
                }
            },
            Outcome::Failure(status) => {
                action == ItemAction::<Q, X, D, R>::Finish { outcome: Outcome::Failure(status) }
            },
        },
        ItemEvent::Id { requirements, format, parsed } => match parsed {
            Ok(id) => {
                action matches ItemAction::Respond { response } && invoked(
                    id,
                    format,
                    requirements,
                    response,
                )
            },
            Err(_) => {
                action == ItemAction::<Q, X, D, R>::Finish {
                    outcome: Outcome::Failure(Status { code: bad_request_code() }),
                }
            },
        },
        ItemEvent::Responded { result } => match result {
            Ok(response) => {
                action == ItemAction::<Q, X, D, R>::Finish { outcome: Outcome::Success(response) }
            },
            Err(status) => {
                action == ItemAction::<Q, X, D, R>::Finish { outcome: Outcome::Failure(status) }
            },
        },
    }
}

/// One step of a handler of one item whose operation is `operation`.
fn item_handler<Q, I, X, D, R, F: FnOnce(I, ContentType, Q) -> X>(
    event: ItemEvent<Q, I, D, R>,
    operation: F,
) -> (action: ItemAction<Q, X, D, R>)
    requires
        forall|id: I, format: ContentType, requirements: Q|
            call_requires(operation, (id, format, requirements)),
    ensures
        item_step(
            event,
            action,
            |id: I, format: ContentType, requirements: Q, response: X|
                call_ensures(operation, (id, format, requirements), response),
        ),
{
    match event {
        ItemEvent::Begin { data } => ItemAction::ResolveRequirements { data },
        ItemEvent::Requirements { data, outcome } => match outcome {
            Outcome::Success(requirements) => ItemAction::ResolveFormat { data, requirements },
            Outcome::Forward(status) => ItemAction::Finish {
                outcome: Outcome::Forward((data, status)),
            },
            Outcome::Failure(status) => ItemAction::Finish { outcome: Outcome::Failure(status) },
        },
        ItemEvent::Format { data, requirements, outcome } => match outcome {
            Outcome::Success(format) => ItemAction::ParseId { segment: 0, requirements, format },
            Outcome::Forward(status) => ItemAction::Finish {
                outcome: Outcome::Forward((data, status)),
            },
            Outcome::Failure(status) => ItemAction::Finish { outcome: Outcome::Failure(status) },
        },
        ItemEvent::Id { requirements, format, parsed } => match parsed {
            Ok(id) => ItemAction::Respond { response: operation(id, format, requirements) },
            Err(_) => ItemAction::Finish { outcome: Outcome::Failure(bad_request()) },
        },
        ItemEvent::Responded { result } => match result {
            Ok(response) => ItemAction::Finish { outcome: Outcome::Success(response) },
            Err(status) => ItemAction::Finish { outcome: Outcome::Failure(status) },
        },
    }
}

/// Handles `GET /<id>` for resource `T`, one step at a time.
pub fn read_handler<T: RocketResource, D, R>(
    event: ItemEvent<T::Requirements, T::Id, D, R>,
) -> (action: ItemAction<T::Requirements, T::ReadResponse, D, R>)
    ensures
        item_step(event, action, may_read::<T>()),
{
    item_handler(event, T::read)
}

/// Handles `DELETE /<id>` for resource `T`, one step at a time.
pub fn delete_handler<T: RocketResource, D, R>(
    event: ItemEvent<T::Requirements, T::Id, D, R>,
) -> (action: ItemAction<T::Requirements, T::DeleteResponse, D, R>)
    ensures
        item_step(event, action, may_delete::<T>()),
{
    item_handler(event, T::delete)
}

/// A request as the driver of a handler of one item meets it: what each
/// resolution yields.  This is a model to state [`lemma_item_exchange`] with;
/// no executable code holds one.
#[verifier::reject_recursive_types(X)]
pub struct ItemRequest<Q, I, X, R> {
    /// What resolving the requirements yields.
    pub requirements: GuardOutcome<Q>,
    /// What resolving the format yields.
    pub format: GuardOutcome<ContentType>,
    /// What parsing the path segment at a position yields.
    pub parse: spec_fn(usize) -> Result<I, ParamError>,
    /// What rendering a response yields.
    pub render: spec_fn(X) -> Result<R, Status>,
}

/// The event with which a faithful driver answers `action`: it performs the
/// resolution asked for and hands back what the action held.
pub open spec fn item_answer<Q, I, X, D, R>(
    request: ItemRequest<Q, I, X, R>,
    action: ItemAction<Q, X, D, R>,
) -> ItemEvent<Q, I, D, R>
    recommends
        !(action is Finish),
{
    match action {
        ItemAction::ResolveRequirements { data } => ItemEvent::Requirements {
            data,
            outcome: request.requirements,
        },
        ItemAction::ResolveFormat { data, requirements } => ItemEvent::Format {
            data,
            requirements,
            outcome: request.format,
        },
        ItemAction::ParseId { segment, requirements, format } => ItemEvent::Id {
            requirements,
            format,
            parsed: (request.parse)(segment),
        },
        ItemAction::Respond { response } => ItemEvent::Responded {
            result: (request.render)(response),
        },
        ItemAction::Finish { .. } => arbitrary(),
    }
}

/// Whether `actions` are the actions of a whole exchange: the handler is told
/// of a request with the body `data`, a faithful driver answers every action,
/// and the last action, and no earlier one, ends the request.
pub open spec fn item_exchange<Q, I, X, D, R>(
    request: ItemRequest<Q, I, X, R>,
    data: D,
    invoked: spec_fn(I, ContentType, Q, X) -> bool,
    actions: Seq<ItemAction<Q, X, D, R>>,
) -> bool {
    &&& actions.len() > 0
    &&& item_step(ItemEvent::Begin { data }, actions[0], invoked)
    &&& forall|i: int|
        1 <= i < actions.len() ==> {
            &&& !(actions[i - 1] is Finish)
            &&& item_step(item_answer(request, actions[i - 1]), #[trigger] actions[i], invoked)
        }
    &&& actions.last() is Finish
}

/// How a request for one item ends, said at once: whether `outcome` may end
/// the request with the body `data`.
///
/// The first of requirements, format and identifier that does not succeed
/// decides.  Where all succeed, the outcome is what rendering yields for some
/// response that the operation may return on them.
pub open spec fn item_outcome<Q, I, X, D, R>(
    request: ItemRequest<Q, I, X, R>,
    data: D,
    invoked: spec_fn(I, ContentType, Q, X) -> bool,
    outcome: HandlerOutcome<R, D>,
) -> bool {
    match request.requirements {
        Outcome::Forward(status) => outcome == HandlerOutcome::<R, D>::Forward((data, status)),
        Outcome::Failure(status) => outcome == HandlerOutcome::<R, D>::Failure(status),
        Outcome::Success(requirements) => match request.format {
            Outcome::Forward(status) => outcome == HandlerOutcome::<R, D>::Forward((data, status)),
            Outcome::Failure(status) => outcome == HandlerOutcome::<R, D>::Failure(status),
            Outcome::Success(format) => match (request.parse)(0) {
                Err(_) => outcome == HandlerOutcome::<R, D>::Failure(
                    Status { code: bad_request_code() },
                ),
                Ok(id) => exists|response: X|
                    {
                        &&& #[trigger] invoked(id, format, requirements, response)
                        &&& outcome == match (request.render)(response) {
                            Ok(rendered) => HandlerOutcome::<R, D>::Success(rendered),
                            Err(status) => HandlerOutcome::<R, D>::Failure(status),
                        }
                    },
            },
        },
    }
}

/// Every whole exchange has at most five actions, and ends the request as
/// [`item_outcome`] says.
pub proof fn lemma_item_exchange<Q, I, X, D, R>(
    request: ItemRequest<Q, I, X, R>,
    data: D,
    invoked: spec_fn(I, ContentType, Q, X) -> bool,
    actions: Seq<ItemAction<Q, X, D, R>>,
)
    requires
        item_exchange(request, data, invoked, actions),
    ensures
        actions.len() <= 5,
        actions.last() matches ItemAction::Finish { outcome } && item_outcome(
            request,
            data,
            invoked,
            outcome,
        ),
{
    // Unrolled: told of the request the handler asks for the requirements,
    // and every answer takes it one resolution further or makes it finish.
    // After the rendering nothing is left to ask for.
    let follows = |i: int|
        item_step(item_answer(request, actions[i - 1]), actions[i], invoked);
    assert(!(actions[0] is Finish));
    assert(actions.len() > 1 ==> follows(1));
    assert(actions.len() > 2 ==> follows(2));
    assert(actions.len() > 3 ==> follows(3));
    assert(actions.len() > 4 ==> follows(4));
    assert(actions.len() > 5 ==> !(actions[4] is Finish));
}

} // verus!
