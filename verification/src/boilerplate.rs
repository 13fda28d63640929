//! The handlers, one per operation.
//!
//! A handler gathers from a request what its operation needs, in a fixed
//! order, invokes the operation, and has the result rendered.  It does none of
//! the gathering itself: it is a step function, one side of an exchange with
//! the driver that owns the request.
//!
//! * The driver tells the handler that a request has arrived.
//! * The handler answers with an action: something to resolve, or the outcome
//!   that ends the request.
//! * The driver performs the resolution and tells the handler what came of it,
//!   handing back what the action held.  The handler answers with the next
//!   action, and so on.
//!
//! An action holds all that has been gathered so far, so a handler keeps
//! nothing between two steps.
//!
//! Every handler comes with the relation that its steps satisfy, with the
//! outcome of a request said at once, and with the proof that every exchange
//! with a faithful driver ends in that outcome.
//!
//! The type parameters mean the same throughout: `Q` is what the resource
//! requires of every request, `I` identifies an item, `P` is the decoded
//! input, `X` is what the operation returns, `D` is the request body and `R`
//! the rendered response.

pub mod create;
pub mod item;
pub mod update;

pub use create::create_handler;
pub use create::CreateAction;
pub use create::CreateEvent;
pub use item::delete_handler;
pub use item::read_handler;
pub use item::ItemAction;
pub use item::ItemEvent;
pub use update::update_handler;
pub use update::UpdateAction;
pub use update::UpdateEvent;
