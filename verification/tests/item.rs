use rocket::http::ContentType;
use rocket_resources::boilerplate::{delete_handler, read_handler, ItemAction, ItemEvent};
use rocket_resources::guard::{GuardOutcome, HandlerOutcome, Outcome, ParamError};
use rocket_resources::http::Status;
use rocket_resources::{NothingInput, RocketResource};

/// A resource whose responses spell out what its operations were invoked with.
struct Notes;

impl RocketResource for Notes {
    type Id = i32;
    type Requirements = &'static str;
    type CreateResponse = String;
    type ReadResponse = String;
    type UpdateResponse = String;
    type DeleteResponse = Result<String, String>;
    type InputCreate = String;
    type InputUpdate = NothingInput;

    fn create(input: String, format: ContentType, requirements: &'static str) -> String {
        format!("create {} as {} on {}", input, format, requirements)
    }

    fn read(id: i32, format: ContentType, requirements: &'static str) -> String {
        format!("read {} as {} on {}", id, format, requirements)
    }

    fn update(_: NothingInput, id: i32, format: ContentType, requirements: &'static str) -> String {
        format!("update {} as {} on {}", id, format, requirements)
    }

    fn delete(id: i32, format: ContentType, requirements: &'static str) -> Result<String, String> {
        if id > 0 {
            Ok(format!("delete {} as {} on {}", id, format, requirements))
        } else {
            Err(format!("no item {}", id))
        }
    }
}

type Event = ItemEvent<&'static str, i32, Vec<u8>, String>;
type ReadAction = ItemAction<&'static str, String, Vec<u8>, String>;
type DeleteAction = ItemAction<&'static str, Result<String, String>, Vec<u8>, String>;

fn read(event: Event) -> ReadAction {
    read_handler::<Notes, Vec<u8>, String>(event)
}

fn delete(event: Event) -> DeleteAction {
    delete_handler::<Notes, Vec<u8>, String>(event)
}

fn body() -> Vec<u8> {
    b"ignored".to_vec()
}

/// What each resolution yields for one request.
struct Request {
    requirements: GuardOutcome<&'static str>,
    format: GuardOutcome<ContentType>,
    segments: Vec<&'static str>,
    render: fn(String) -> Result<String, Status>,
}

fn parse(segments: &[&'static str], segment: usize) -> Result<i32, ParamError> {
    match segments.get(segment) {
        None => Err(ParamError::Missing),
        Some(text) => text.parse().map_err(|_| ParamError::Malformed),
    }
}

fn render_ok(response: String) -> Result<String, Status> {
    Ok(format!("<{}>", response))
}

fn render_err(_: String) -> Result<String, Status> {
    Err(Status { code: 500 })
}

fn well_formed() -> Request {
    Request {
        requirements: Outcome::Success("db"),
        format: Outcome::Success(ContentType::HTML),
        segments: vec!["17", "comments"],
        render: render_ok,
    }
}

/// Answers every action of the read handler as the request says, and counts
/// the actions.
fn drive(request: &Request, data: Vec<u8>) -> (usize, HandlerOutcome<String, Vec<u8>>) {
    let mut actions = 0;
    let mut event = ItemEvent::Begin { data };
    loop {
        actions += 1;
        event = match read(event) {
            ItemAction::ResolveRequirements { data } => ItemEvent::Requirements {
                data,
                outcome: request.requirements.clone(),
            },
            ItemAction::ResolveFormat { data, requirements } => ItemEvent::Format {
                data,
                requirements,
                outcome: request.format.clone(),
            },
            ItemAction::ParseId { segment, requirements, format } => ItemEvent::Id {
                requirements,
                format,
                parsed: parse(&request.segments, segment),
            },
            ItemAction::Respond { response } => ItemEvent::Responded {
                result: (request.render)(response),
            },
            ItemAction::Finish { outcome } => return (actions, outcome),
        };
    }
}

#[test]
fn read_begins_by_resolving_requirements() {
    assert_eq!(
        read(ItemEvent::Begin { data: body() }),
        ItemAction::ResolveRequirements { data: body() }
    );
}

#[test]
fn read_resolves_format_after_requirements() {
    assert_eq!(
        read(ItemEvent::Requirements { data: body(), outcome: Outcome::Success("db") }),
        ItemAction::ResolveFormat { data: body(), requirements: "db" }
    );
}

#[test]
fn read_forwards_body_when_requirements_forward() {
    assert_eq!(
        read(ItemEvent::Requirements {
            data: body(),
            outcome: Outcome::Forward(Status { code: 404 }),
        }),
        ItemAction::Finish { outcome: Outcome::Forward((body(), Status { code: 404 })) }
    );
}

#[test]
fn read_fails_when_requirements_fail() {
    assert_eq!(
        read(ItemEvent::Requirements {
            data: body(),
            outcome: Outcome::Failure(Status { code: 503 }),
        }),
        ItemAction::Finish { outcome: Outcome::Failure(Status { code: 503 }) }
    );
}

#[test]
fn read_parses_first_segment_after_format() {
    assert_eq!(
        read(ItemEvent::Format {
            data: body(),
            requirements: "db",
            outcome: Outcome::Success(ContentType::HTML),
        }),
        ItemAction::ParseId { segment: 0, requirements: "db", format: ContentType::HTML }
    );
}

#[test]
fn read_forwards_body_when_format_forwards() {
    assert_eq!(
        read(ItemEvent::Format {
            data: body(),
            requirements: "db",
            outcome: Outcome::Forward(Status { code: 500 }),
        }),
        ItemAction::Finish { outcome: Outcome::Forward((body(), Status { code: 500 })) }
    );
}

#[test]
fn read_fails_when_format_fails() {
    assert_eq!(
        read(ItemEvent::Format {
            data: body(),
            requirements: "db",
            outcome: Outcome::Failure(Status { code: 406 }),
        }),
        ItemAction::Finish { outcome: Outcome::Failure(Status { code: 406 }) }
    );
}

#[test]
fn read_invokes_operation_on_what_was_resolved() {
    assert_eq!(
        read(ItemEvent::Id { requirements: "db", format: ContentType::HTML, parsed: Ok(17) }),
        ItemAction::Respond { response: "read 17 as text/html; charset=utf-8 on db".to_string() }
    );
}

#[test]
fn read_answers_bad_request_to_malformed_id() {
    assert_eq!(
        read(ItemEvent::Id {
            requirements: "db",
            format: ContentType::HTML,
            parsed: Err(ParamError::Malformed),
        }),
        ItemAction::Finish { outcome: Outcome::Failure(Status { code: 400 }) }
    );
}

#[test]
fn read_answers_bad_request_to_missing_id() {
    assert_eq!(
        read(ItemEvent::Id {
            requirements: "db",
            format: ContentType::HTML,
            parsed: Err(ParamError::Missing),
        }),
        ItemAction::Finish { outcome: Outcome::Failure(Status { code: 400 }) }
    );
}

#[test]
fn read_succeeds_with_rendered_response() {
    assert_eq!(
        read(ItemEvent::Responded { result: Ok("<note>".to_string()) }),
        ItemAction::Finish { outcome: Outcome::Success("<note>".to_string()) }
    );
}

#[test]
fn read_fails_with_status_of_rendering() {
    assert_eq!(
        read(ItemEvent::Responded { result: Err(Status { code: 501 }) }),
        ItemAction::Finish { outcome: Outcome::Failure(Status { code: 501 }) }
    );
}

#[test]
fn read_exchange_runs_operation_when_all_resolve() {
    let (actions, outcome) = drive(&well_formed(), body());
    assert_eq!(actions, 5);
    assert_eq!(
        outcome,
        Outcome::Success("<read 17 as text/html; charset=utf-8 on db>".to_string())
    );
}

#[test]
fn read_exchange_ends_at_requirements() {
    let request = Request {
        requirements: Outcome::Failure(Status { code: 401 }),
        format: Outcome::Forward(Status { code: 500 }),
        segments: vec![],
        render: render_err,
    };
    let (actions, outcome) = drive(&request, body());
    assert_eq!(actions, 2);
    assert_eq!(outcome, Outcome::Failure(Status { code: 401 }));
}

#[test]
fn read_exchange_ends_at_format() {
    let request = Request {
        format: Outcome::Forward(Status { code: 500 }),
        segments: vec![],
        render: render_err,
        ..well_formed()
    };
    let (actions, outcome) = drive(&request, body());
    assert_eq!(actions, 3);
    assert_eq!(outcome, Outcome::Forward((body(), Status { code: 500 })));
}

#[test]
fn read_exchange_ends_at_malformed_id() {
    let request = Request { segments: vec!["seventeen"], render: render_err, ..well_formed() };
    let (actions, outcome) = drive(&request, body());
    assert_eq!(actions, 4);
    assert_eq!(outcome, Outcome::Failure(Status { code: 400 }));
}

#[test]
fn read_exchange_ends_at_missing_id() {
    let request = Request { segments: vec![], ..well_formed() };
    let (actions, outcome) = drive(&request, body());
    assert_eq!(actions, 4);
    assert_eq!(outcome, Outcome::Failure(Status { code: 400 }));
}

#[test]
fn read_exchange_fails_when_rendering_fails() {
    let request = Request { render: render_err, ..well_formed() };
    let (actions, outcome) = drive(&request, body());
    assert_eq!(actions, 5);
    assert_eq!(outcome, Outcome::Failure(Status { code: 500 }));
}

#[test]
fn delete_begins_by_resolving_requirements() {
    assert_eq!(
        delete(ItemEvent::Begin { data: body() }),
        ItemAction::ResolveRequirements { data: body() }
    );
}

#[test]
fn delete_forwards_body_when_requirements_forward() {
    assert_eq!(
        delete(ItemEvent::Requirements {
            data: body(),
            outcome: Outcome::Forward(Status { code: 404 }),
        }),
        ItemAction::Finish { outcome: Outcome::Forward((body(), Status { code: 404 })) }
    );
}

#[test]
fn delete_parses_first_segment_after_format() {
    assert_eq!(
        delete(ItemEvent::Format {
            data: body(),
            requirements: "db",
            outcome: Outcome::Success(ContentType::JSON),
        }),
        ItemAction::ParseId { segment: 0, requirements: "db", format: ContentType::JSON }
    );
}

#[test]
fn delete_invokes_its_own_operation() {
    assert_eq!(
        delete(ItemEvent::Id { requirements: "db", format: ContentType::JSON, parsed: Ok(17) }),
        ItemAction::Respond { response: Ok("delete 17 as application/json on db".to_string()) }
    );
    assert_eq!(
        delete(ItemEvent::Id { requirements: "db", format: ContentType::JSON, parsed: Ok(0) }),
        ItemAction::Respond { response: Err("no item 0".to_string()) }
    );
}

#[test]
fn delete_answers_bad_request_to_unparsed_id() {
    assert_eq!(
        delete(ItemEvent::Id {
            requirements: "db",
            format: ContentType::JSON,
            parsed: Err(ParamError::Malformed),
        }),
        ItemAction::Finish { outcome: Outcome::Failure(Status { code: 400 }) }
    );
    assert_eq!(
        delete(ItemEvent::Id {
            requirements: "db",
            format: ContentType::JSON,
            parsed: Err(ParamError::Missing),
        }),
        ItemAction::Finish { outcome: Outcome::Failure(Status { code: 400 }) }
    );
}

#[test]
fn delete_ends_with_what_rendering_yields() {
    assert_eq!(
        delete(ItemEvent::Responded { result: Ok("<gone>".to_string()) }),
        ItemAction::Finish { outcome: Outcome::Success("<gone>".to_string()) }
    );
    assert_eq!(
        delete(ItemEvent::Responded { result: Err(Status { code: 500 }) }),
        ItemAction::Finish { outcome: Outcome::Failure(Status { code: 500 }) }
    );
}
