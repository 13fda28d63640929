//! The route table of a resource: which verb, at which path, reaches which
//! operation.

use vstd::prelude::*;
use crate::http::Method;

verus! {

/// The operations of a resource.
#[derive(Clone, Copy, Debug, PartialEq, Eq, Hash)]
pub enum Operation {
    Create,
    Read,
    Update,
    Delete,
}

/// One route of a resource, relative to where the resource is mounted.
#[derive(Clone, Copy, Debug, PartialEq, Eq, Hash)]
pub struct RouteInfo {
    pub method: Method,
    pub path: &'static str,
    pub operation: Operation,
}

/// The operation that a verb reaches: `POST` creates, `GET` reads, `PATCH`
/// and `PUT` update, `DELETE` deletes.
pub open spec fn operation_of(method: Method) -> Operation {
    match method {
        Method::Post => Operation::Create,
        Method::Get => Operation::Read,
        Method::Patch => Operation::Update,
        Method::Put => Operation::Update,
        Method::Delete => Operation::Delete,
    }
}

/// The path at which an operation is reached: a create at the collection,
/// `/`; every other operation at one item, `/<id>`.
pub open spec fn path_of(operation: Operation) -> &'static str {
    match operation {
        Operation::Create => "/",
        _ => "/<id>",
    }
}

/// The route of a verb.
pub open spec fn route_of(method: Method) -> RouteInfo {
    RouteInfo { method, path: path_of(operation_of(method)), operation: operation_of(method) }
}

/// The route table: one route for each verb.
pub open spec fn route_table() -> Seq<RouteInfo> {
    seq![
        route_of(Method::Post),
        route_of(Method::Patch),
        route_of(Method::Put),
        route_of(Method::Delete),
        route_of(Method::Get),
    ]
}

impl Method {
    /// The operation that this verb reaches.
    pub fn operation(self) -> (operation: Operation)
        ensures
            operation == operation_of(self),
    {
        match self {
            Method::Post => Operation::Create,
            Method::Get => Operation::Read,
            Method::Patch => Operation::Update,
            Method::Put => Operation::Update,
            Method::Delete => Operation::Delete,
        }
    }

    /// The route of this verb.
    pub fn route(self) -> (route: RouteInfo)
        ensures
            route == route_of(self),
    {
        let operation = self.operation();
        RouteInfo { method: self, path: operation.path(), operation }
    }
}

impl Operation {
    /// The path at which this operation is reached.
    pub fn path(self) -> (path: &'static str)
        ensures
            path == path_of(self),
    {
        match self {
            Operation::Create => "/",
            _ => "/<id>",
        }
    }
}

/// The routes of a resource, in the order in which they are to be registered.
pub fn routes() -> (table: Vec<RouteInfo>)
    ensures
        table@ == route_table(),
{
    vec![
        Method::Post.route(),
        Method::Patch.route(),
        Method::Put.route(),
        Method::Delete.route(),
        Method::Get.route(),
    ]
}

/// The table holds the route of every verb, and for no verb a second one.
pub proof fn lemma_one_route_per_verb()
    ensures
        forall|method: Method| route_table().contains(#[trigger] route_of(method)),
        forall|i: int, j: int|
            0 <= i < j < route_table().len() ==> route_table()[i].method != route_table()[j].method,
{
    assert forall|method: Method| route_table().contains(#[trigger] route_of(method)) by {
        match method {
            Method::Post => assert(route_table()[0] == route_of(method)),
            Method::Patch => assert(route_table()[1] == route_of(method)),
            Method::Put => assert(route_table()[2] == route_of(method)),
            Method::Delete => assert(route_table()[3] == route_of(method)),
            Method::Get => assert(route_table()[4] == route_of(method)),
        }
    }
}

} // verus!
