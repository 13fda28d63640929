//! RESTful resources for Rocket.
//!
//! A resource answers four operations (create, read, update and delete), each
//! reached through one HTTP verb.  This crate holds the interface a resource
//! implements ([`RocketResource`]), the table that maps verbs and paths to the
//! operations ([`route::routes`]), and the handlers that gather what an
//! operation needs from a request before invoking it ([`boilerplate`]).
//!
//! The handlers never touch a request themselves.  Each is a step function:
//! it is told what the last resolution yielded and answers with what is to be
//! resolved next, or with the outcome of the request.  Whoever owns the
//! request performs the resolutions.

pub mod boilerplate;
pub mod guard;
pub mod http;
pub mod resource;
pub mod route;

pub use resource::NothingInput;
pub use resource::RocketResource;
