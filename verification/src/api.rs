//! The control interface: which request means what, and the answer to each.
//!
//! The transport is not here. Its caller hands over the method and the path of a
//! request and gets back the status, the body and what to do besides; orders to
//! the supervisor are queued on the control channel, never carried out here.

use crate::json::{json_registry, json_unit};
use crate::signals::{ControlChannel, Message};
use crate::text::{fields, same_text, split, texts};
use crate::units::{lookup, AllUnits};
use vstd::prelude::*;
use vstd::string::StringExecFns;

verus! {

/// The method of a request.
#[derive(Debug, Clone, Copy, PartialEq, Eq, Structural)]
pub enum Method {
    Get,
    Post,
    Other,
}

/// What a request asks for.
#[derive(Debug)]
pub enum Route {
    /// Anything that is no other route: the banner.
    Banner,
    /// `GET /units`: the registry.
    Units,
    /// `GET /unit/<name>`: one unit.
    Unit(String),
    /// `POST /unit/<name>/start`.
    Start(String),
    /// `POST /unit/<name>/stop`.
    Stop(String),
    /// `POST /reload`: look for new unit files.
    Reload,
    /// `POST /shutdown`.
    Shutdown,
}

/// The kind of a body.
#[derive(Debug, Clone, Copy, PartialEq, Eq, Structural)]
pub enum ContentType {
    /// No content type is set.
    Unset,
    /// `text/plain`.
    Text,
    /// `application/json`.
    Json,
}

/// The answer to a request.
#[derive(Debug)]
pub struct Response {
    pub status: u16,
    pub content_type: ContentType,
    pub body: String,
    /// Whether the caller has to read the unit directory again.
    pub reload: bool,
}

/// Whether the parts of a path are `/unit/<name>` followed by `rest` more parts.
pub open spec fn names_unit(parts: Seq<Seq<char>>, rest: int) -> bool {
    &&& parts.len() == 3 + rest
    &&& parts[0].len() == 0
    &&& parts[1] == "unit"@
}

/// `route` is what the request with this method and path asks for.
pub open spec fn is_route(method: Method, path: Seq<char>, route: Route) -> bool {
    let parts = fields(path, '/');
    if method is Get && path == "/units"@ {
        route is Units
    } else if method is Post && path == "/shutdown"@ {
        route is Shutdown
    } else if method is Post && path == "/reload"@ {
        route is Reload
    } else if method is Get && names_unit(parts, 0) {
        route matches Route::Unit(name) && name@ == parts[2]
    } else if method is Post && names_unit(parts, 1) && parts[3] == "start"@ {
        route matches Route::Start(name) && name@ == parts[2]
    } else if method is Post && names_unit(parts, 1) && parts[3] == "stop"@ {
        route matches Route::Stop(name) && name@ == parts[2]
    } else {
        route is Banner
    }
}

/// Whether the parts of a path are `/unit/<name>` followed by `rest` more parts.
fn is_unit_path(parts: &Vec<String>, rest: usize) -> (r: bool)
    requires
        rest <= 1,
    ensures
        r == names_unit(texts(parts@), rest as int),
{
    parts.len() == 3 + rest && parts[0].as_str().is_empty() && same_text(
        parts[1].as_str(),
        "unit",
    )
}

/// Finds what a request asks for. The path is matched exactly and with case; a
/// request that fits no route gets the banner.
pub fn router(method: Method, path: &str) -> (route: Route)
    ensures
        is_route(method, path@, route),
{
    let parts = split(path, '/');
    let get = method == Method::Get;
    let post = method == Method::Post;
    if get && same_text(path, "/units") {
        Route::Units
    } else if post && same_text(path, "/shutdown") {
        Route::Shutdown
    } else if post && same_text(path, "/reload") {
        Route::Reload
    } else if get && is_unit_path(&parts, 0) {
        Route::Unit(parts[2].clone())
    } else if post && is_unit_path(&parts, 1) && same_text(parts[3].as_str(), "start") {
        Route::Start(parts[2].clone())
    } else if post && is_unit_path(&parts, 1) && same_text(parts[3].as_str(), "stop") {
        Route::Stop(parts[2].clone())
    } else {
        Route::Banner
    }
}

/// An answer without a body.
fn empty(status: u16) -> (r: Response)
    ensures
        r.status == status,
        r.content_type == ContentType::Unset,
        r.body@.len() == 0,
        !r.reload,
{
    Response { status, content_type: ContentType::Unset, body: String::new(), reload: false }
}

/// The answer to a request for a unit that is not there.
fn unknown_service(name: &str) -> (r: Response)
    ensures
        r.status == 404,
        r.content_type == ContentType::Unset,
        r.body@ == "Unknown service "@ + name@,
        !r.reload,
{
    let mut body = String::new();
    body.append("Unknown service ");
    body.append(name);
    assert(body@ =~= "Unknown service "@ + name@);
    Response { status: 404, content_type: ContentType::Unset, body, reload: false }
}

/// The answer that `respond` gives to `route`, and what it queues.
pub open spec fn is_response(
    units: Seq<crate::units::Unit>,
    waiting: Seq<Message>,
    route: Route,
    response: Response,
    queued: Seq<Message>,
) -> bool {
    match route {
        Route::Banner => {
            &&& response.status == 200
            &&& response.content_type == ContentType::Text
            &&& response.body@ == "Try GET to /units"@
            &&& !response.reload
            &&& queued == waiting
        },
        Route::Units => {
            &&& response.status == 200
            &&& response.content_type == ContentType::Json
            &&& response.body@ == json_registry(units)
            &&& !response.reload
            &&& queued == waiting
        },
        Route::Unit(name) => {
            &&& !response.reload
            &&& queued == waiting
            &&& match lookup(units, name@) {
                Some(i) => {
                    &&& response.status == 200
                    &&& response.content_type == ContentType::Json
                    &&& response.body@ == json_unit(units[i])
                },
                None => {
                    &&& response.status == 404
                    &&& response.content_type == ContentType::Unset
                    &&& response.body@.len() == 0
                },
            }
        },
        Route::Start(name) => {
            &&& !response.reload
            &&& response.content_type == ContentType::Unset
            &&& match lookup(units, name@) {
                Some(_) => {
                    &&& response.status == 200
                    &&& response.body@.len() == 0
                    &&& queued == waiting.push(Message::Start(name))
                },
                None => {
                    &&& response.status == 404
                    &&& response.body@ == "Unknown service "@ + name@
                    &&& queued == waiting
                },
            }
        },
        Route::Stop(name) => {
            &&& !response.reload
            &&& response.content_type == ContentType::Unset
            &&& match lookup(units, name@) {
                Some(_) => {
                    &&& response.status == 200
                    &&& response.body@.len() == 0
                    &&& queued == waiting.push(Message::Stop(name))
                },
                None => {
                    &&& response.status == 404
                    &&& response.body@ == "Unknown service "@ + name@
                    &&& queued == waiting
                },
            }
        },
        Route::Reload => {
            &&& response.status == 200
            &&& response.content_type == ContentType::Unset
            &&& response.body@.len() == 0
            &&& response.reload
            &&& queued == waiting
        },
        Route::Shutdown => {
            &&& response.status == 200
            &&& response.content_type == ContentType::Unset
            &&& response.body@.len() == 0
            &&& !response.reload
            &&& queued == waiting.push(Message::Shutdown)
        },
    }
}

/// Answers a request. The registry is read and never changed: a start, a stop
/// and a shutdown are queued for the supervisor and answered at once; a request
/// that names no unit is answered with 404 and queues nothing.
pub fn respond(registry: &AllUnits, channel: &mut ControlChannel, route: Route) -> (response:
    Response)
    ensures
        is_response(registry@, old(channel)@, route, response, final(channel)@),
{
    match route {
        Route::Banner => {
            let mut body = String::new();
            body.append("Try GET to /units");
            assert(body@ =~= "Try GET to /units"@);
            Response { status: 200, content_type: ContentType::Text, body, reload: false }
        },
        Route::Units => Response {
            status: 200,
            content_type: ContentType::Json,
            body: registry.to_string(),
            reload: false,
        },
        Route::Unit(name) => match registry.get_by_name(name.as_str()) {
            Some(unit) => Response {
                status: 200,
                content_type: ContentType::Json,
                body: unit.to_string(),
                reload: false,
            },
            None => empty(404),
        },
        Route::Start(name) => match registry.find(name.as_str()) {
            Some(_) => {
                channel.send(Message::Start(name));
                empty(200)
            },
            None => unknown_service(name.as_str()),
        },
        Route::Stop(name) => match registry.find(name.as_str()) {
            Some(_) => {
                channel.send(Message::Stop(name));
                empty(200)
            },
            None => unknown_service(name.as_str()),
        },
        Route::Reload => Response {
            status: 200,
            content_type: ContentType::Unset,
            body: String::new(),
            reload: true,
        },
        Route::Shutdown => {
            channel.send(Message::Shutdown);
            empty(200)
        },
    }
}

/// A command of the control utility.
#[derive(Debug, Clone, Copy, PartialEq, Eq, Structural)]
pub enum Command {
    Units,
    Shutdown,
    Reload,
}

/// The command that a name names, if it names one.
pub open spec fn command_of(name: Seq<char>) -> Option<Command> {
    if name == "units"@ {
        Some(Command::Units)
    } else if name == "shutdown"@ {
        Some(Command::Shutdown)
    } else if name == "reload"@ {
        Some(Command::Reload)
    } else {
        None
    }
}

/// The command that the control utility was given: `units`, `shutdown` or
/// `reload`.
pub fn command_named(name: &str) -> (command: Option<Command>)
    ensures
        command == command_of(name@),
{
    if same_text(name, "units") {
        Some(Command::Units)
    } else if same_text(name, "shutdown") {
        Some(Command::Shutdown)
    } else if same_text(name, "reload") {
        Some(Command::Reload)
    } else {
        None
    }
}

/// The request that carries a command out: its method and its path.
pub fn request_for(command: Command) -> (request: (Method, &'static str))
    ensures
        request.0 == (match command {
            Command::Units => Method::Get,
            _ => Method::Post,
        }),
        request.1@ == (match command {
            Command::Units => "/units"@,
            Command::Shutdown => "/shutdown"@,
            Command::Reload => "/reload"@,
        }),
{
    match command {
        Command::Units => (Method::Get, "/units"),
        Command::Shutdown => (Method::Post, "/shutdown"),
        Command::Reload => (Method::Post, "/reload"),
    }
}

/// The control utility and the daemon agree: the request of every command is
/// routed to what the command asks for.
pub proof fn lemma_commands_reach_their_routes(command: Command, route: Route)
    requires
        is_route(
            match command {
                Command::Units => Method::Get,
                _ => Method::Post,
            },
            match command {
                Command::Units => "/units"@,
                Command::Shutdown => "/shutdown"@,
                Command::Reload => "/reload"@,
            },
            route,
        ),
    ensures
        match command {
            Command::Units => route is Units,
            Command::Shutdown => route is Shutdown,
            Command::Reload => route is Reload,
        },
{
    reveal_strlit("/units");
    reveal_strlit("/shutdown");
    reveal_strlit("/reload");
    assert("/units"@.len() != "/shutdown"@.len());
    assert("/shutdown"@.len() != "/reload"@.len());
}

} // verus!
