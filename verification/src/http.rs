//! The web server: its routes, what their handlers answer, and the middleware that
//! turns failures into answers.
use vstd::prelude::*;

use crate::text;

verus! {

/// What a handler does with a request.
#[derive(Debug, Clone, Copy, PartialEq, Eq, Structural)]
pub enum Handler {
    /// Answers with a greeting and no reason phrase.
    Hello,
    /// Answers with a greeting and the reason phrase of success.
    HelloOk,
    /// Fails before it answers.
    Boo,
    /// Refuses.
    Forbidden,
    /// Panics.
    Panic,
    /// Answers from behind two middlewares.
    Layered,
}

/// The method of a request.
#[derive(Debug, Clone, Copy, PartialEq, Eq, Structural)]
pub enum Method {
    Get,
    Head,
    Post,
    Put,
    Delete,
}

/// What stands between the server and a handler.
#[derive(Debug, Clone, Copy, PartialEq, Eq, Structural)]
pub enum Middleware {
    /// Answers for a handler that failed before it answered.
    Sample,
    /// Hands everything on.
    Sample2,
}

/// A path and a method with what serves them. The first middleware stands outermost.
#[derive(Debug)]
pub struct Route {
    pub uri: String,
    pub method: Method,
    pub layers: Vec<Middleware>,
    pub handler: Handler,
}

/// An answer.
#[derive(Debug)]
pub struct Response {
    pub status: u16,
    pub message: Option<String>,
    pub body: String,
}

/// The connection that a request came on, with the answer, once there is one.
#[derive(Debug)]
pub struct Connection {
    pub response: Option<Response>,
}

/// A route by its plain values.
pub struct RouteView {
    pub uri: Seq<char>,
    pub method: Method,
    pub layers: Seq<Middleware>,
    pub handler: Handler,
}

/// An answer by its plain values.
pub struct ResponseView {
    pub status: u16,
    pub message: Option<Seq<char>>,
    pub body: Seq<char>,
}

/// A connection after it was served: the answer, if one was begun, and the error
/// that is handed to the server, if there is one.
pub struct Served {
    pub response: Option<ResponseView>,
    pub error: Option<Seq<char>>,
}

impl View for Route {
    type V = RouteView;

    open spec fn view(&self) -> RouteView {
        RouteView {
            uri: self.uri@,
            method: self.method,
            layers: self.layers@,
            handler: self.handler,
        }
    }
}

impl View for Response {
    type V = ResponseView;

    open spec fn view(&self) -> ResponseView {
        ResponseView {
            status: self.status,
            message: match self.message {
                Some(message) => Some(message@),
                None => None,
            },
            body: self.body@,
        }
    }
}

/// A connection and what its handler returned, by their plain values.
pub open spec fn served_view(connection: Connection, result: Result<(), String>) -> Served {
    Served {
        response: match connection.response {
            Some(response) => Some(response@),
            None => None,
        },
        error: match result {
            Ok(()) => None,
            Err(error) => Some(error@),
        },
    }
}

/// An answer and nothing to report.
pub open spec fn answered(status: u16, message: Option<Seq<char>>, body: Seq<char>) -> Served {
    Served { response: Some(ResponseView { status, message, body }), error: None }
}

/// What a handler does with a fresh connection.
pub open spec fn handled(handler: Handler) -> Served
    recommends
        handler != Handler::Panic,
{
    match handler {
        Handler::Hello => answered(200, None, "Hello from Rust!"@),
        Handler::HelloOk => answered(200, Some("OK"@), "Hello from Rust!"@),
        Handler::Boo => Served { response: None, error: Some("Boo, something happened!"@) },
        Handler::Forbidden => answered(
            403,
            Some("No permissions"@),
            "You have no permissions to access this page"@,
        ),
        Handler::Layered => answered(200, Some("OK"@), "Middleware2 handler called"@),
        Handler::Panic => Served { response: None, error: None },
    }
}

/// What a middleware makes of what lies behind it: an error that came before an
/// answer was begun becomes an answer, and anything else is handed on.
pub open spec fn through(layer: Middleware, served: Served) -> Served {
    match (layer, served.response, served.error) {
        (Middleware::Sample, None, Some(error)) => answered(500, None, "ERROR: "@ + error),
        _ => served,
    }
}

/// What a handler does, with its failure in the words of the server.
pub open spec fn worded(served: Served, words: Seq<char>) -> Served {
    Served {
        error: match served.error {
            Some(_) => Some(words),
            None => None,
        },
        ..served
    }
}

/// What a handler behind some middlewares does with a fresh connection. A server
/// has an error type of its own, and shows the handler's failure as `words`.
pub open spec fn served(layers: Seq<Middleware>, handler: Handler, words: Seq<char>) -> Served
    decreases layers.len(),
{
    if layers.len() == 0 {
        worded(handled(handler), words)
    } else {
        through(layers[0], served(layers.drop_first(), handler, words))
    }
}

/// A route for GET.
pub open spec fn get(uri: Seq<char>, layers: Seq<Middleware>, handler: Handler) -> RouteView {
    RouteView { uri, method: Method::Get, layers, handler }
}

/// The four routes that are always there; `hello` serves the root.
pub open spec fn base_table(hello: Handler) -> Seq<RouteView> {
    seq![
        get("/"@, Seq::empty(), hello),
        get("/foo"@, Seq::empty(), Handler::Boo),
        get("/bar"@, Seq::empty(), Handler::Forbidden),
        get("/panic"@, Seq::empty(), Handler::Panic),
    ]
}

/// The routes that show middleware at work.
pub open spec fn middleware_table() -> Seq<RouteView> {
    seq![
        get("/middleware"@, seq![Middleware::Sample], Handler::Boo),
        get("/middleware2"@, seq![Middleware::Sample2, Middleware::Sample], Handler::Layered),
    ]
}

/// The routes of the server, in the order in which they are registered. The
/// experimental server names a reason for success, the other one does not.
pub open spec fn table(experimental: bool) -> Seq<RouteView> {
    if experimental {
        base_table(Handler::HelloOk) + middleware_table()
    } else {
        base_table(Handler::Hello)
    }
}

/// An answer with that body.
fn response(status: u16, message: Option<String>, body: &str) -> (answer: Option<Response>)
    ensures
        answer matches Some(answer) && answer.status == status && answer.message == message
            && answer.body@ == body@,
{
    Some(Response { status, message, body: body.to_string() })
}

/// A route for GET without middleware.
fn plain_route(uri: &str, handler: Handler) -> (route: Route)
    ensures
        route@ == get(uri@, Seq::empty(), handler),
{
    Route { uri: uri.to_string(), method: Method::Get, layers: Vec::new(), handler }
}

/// The routes of the server, in the order in which they are registered. The
/// experimental server has two more.
pub fn httpd(experimental: bool) -> (routes: Vec<Route>)
    ensures
        routes@.len() == table(experimental).len(),
        forall|i: int| 0 <= i < routes@.len() ==> (#[trigger] routes@[i])@ == table(experimental)[i],
{
    let mut routes: Vec<Route> = Vec::new();
    let hello = if experimental {
        Handler::HelloOk
    } else {
        Handler::Hello
    };
    routes.push(plain_route("/", hello));
    routes.push(plain_route("/foo", Handler::Boo));
    routes.push(plain_route("/bar", Handler::Forbidden));
    routes.push(plain_route("/panic", Handler::Panic));
    if experimental {
        let mut one = plain_route("/middleware", Handler::Boo);
        one.layers.push(Middleware::Sample);
        assert(one.layers@ =~= seq![Middleware::Sample]);
        routes.push(one);
        let mut two = plain_route("/middleware2", Handler::Layered);
        two.layers.push(Middleware::Sample2);
        two.layers.push(Middleware::Sample);
        assert(two.layers@ =~= seq![Middleware::Sample2, Middleware::Sample]);
        routes.push(two);
    }
    routes
}

/// What a handler panics with, if it does.
pub open spec fn panics_with(handler: Handler) -> Option<Seq<char>> {
    if handler is Panic {
        Some("User requested a panic!"@)
    } else {
        None
    }
}

/// What a handler panics with, if it does.
pub fn panic_message(handler: Handler) -> (message: Option<String>)
    ensures
        message is Some <==> handler == Handler::Panic,
        message matches Some(message) ==> message@ == "User requested a panic!"@,
        match panics_with(handler) {
            Some(text) => message matches Some(message) && message@ == text,
            None => message is None,
        },
{
    match handler {
        Handler::Panic => Some("User requested a panic!".to_string()),
        _ => None,
    }
}

/// What a handler itself fails with, if it does.
pub fn failure(handler: Handler) -> (message: Option<String>)
    ensures
        match handled(handler).error {
            Some(error) => message matches Some(message) && message@ == error,
            None => message is None,
        },
{
    match handler {
        Handler::Boo => Some("Boo, something happened!".to_string()),
        _ => None,
    }
}

/// Runs a handler on a fresh connection. An error is what the handler itself fails
/// with.
pub fn handle(handler: Handler, connection: &mut Connection) -> (result: Result<(), String>)
    requires
        handler != Handler::Panic,
        old(connection).response is None,
    ensures
        served_view(*final(connection), result) == handled(handler),
{
    if let Some(error) = failure(handler) {
        return Err(error);
    }
    match handler {
        Handler::Hello => {
            connection.response = response(200, None, "Hello from Rust!");
            Ok(())
        },
        Handler::HelloOk => {
            connection.response = response(200, Some("OK".to_string()), "Hello from Rust!");
            Ok(())
        },
        Handler::Forbidden => {
            connection.response =
            response(
                403,
                Some("No permissions".to_string()),
                "You have no permissions to access this page",
            );
            Ok(())
        },
        Handler::Layered => {
            connection.response =
            response(200, Some("OK".to_string()), "Middleware2 handler called");
            Ok(())
        },
        Handler::Boo | Handler::Panic => vstd::pervasive::unreached(),
    }
}

/// Passes what came from behind a middleware through it. An error is in the words of
/// the server.
pub fn pass(
    layer: Middleware,
    connection: &mut Connection,
    result: Result<(), String>,
) -> (passed: Result<(), String>)
    ensures
        served_view(*final(connection), passed) == through(
            layer,
            served_view(*old(connection), result),
        ),
{
    match layer {
        Middleware::Sample2 => result,
        Middleware::Sample => match result {
            Ok(()) => Ok(()),
            Err(error) => {
                if connection.response.is_some() {
                    Err(error)
                } else {
                    let body = text::joined("ERROR: ", error.as_str());
                    connection.response = Some(Response { status: 500, message: None, body });
                    Ok(())
                }
            },
        },
    }
}

/// Serves a fresh connection: runs the handler of a route, and passes what it did
/// through the route's middlewares, from the inside out. `words` is how the server
/// shows what the handler failed with.
pub fn serve(route: &Route, words: &str, connection: &mut Connection) -> (result: Result<
    (),
    String,
>)
    requires
        route.handler != Handler::Panic,
        old(connection).response is None,
    ensures
        served_view(*final(connection), result) == served(
            route.layers@,
            route.handler,
            words@,
        ),
{
    let mut result = match handle(route.handler, connection) {
        Ok(()) => Ok(()),
        Err(_) => Err(words.to_string()),
    };
    let mut i: usize = route.layers.len();
    assert(route.layers@.skip(i as int) =~= Seq::empty());
    while i > 0
        invariant
            i <= route.layers@.len(),
            served_view(*connection, result) == served(
                route.layers@.skip(i as int),
                route.handler,
                words@,
            ),
        decreases i,
    {
        i -= 1;
        assert(route.layers@.skip(i as int).drop_first() =~= route.layers@.skip(i + 1));
        result = pass(route.layers[i], connection, result);
    }
    assert(route.layers@.skip(0) =~= route.layers@);
    result
}

/// A sample middleware answers for a handler that failed before it answered, with
/// status 500 and the error in the body, and the server sees no error.
pub proof fn failures_are_answered(error: Seq<char>)
    ensures
        through(Middleware::Sample, Served { response: None, error: Some(error) }) == answered(
            500,
            None,
            "ERROR: "@ + error,
        ),
{
}

/// No middleware changes an answer that was begun, and an error that came after it
/// is handed on.
pub proof fn begun_answers_stay(layer: Middleware, served: Served)
    requires
        served.response is Some,
    ensures
        through(layer, served) == served,
{
}

/// The second sample middleware hands everything on, and the first is at peace with
/// itself: what passed it once passes it again unchanged.
pub proof fn middleware_settles(served: Served)
    ensures
        through(Middleware::Sample2, served) == served,
        through(Middleware::Sample, through(Middleware::Sample, served)) == through(
            Middleware::Sample,
            served,
        ),
{
}

/// Behind a sample middleware, wherever it stands in the stack, no handler leaves a
/// connection without an answer, and none of their errors reaches the server.
pub proof fn sample_always_answers(
    layers: Seq<Middleware>,
    handler: Handler,
    words: Seq<char>,
)
    requires
        layers.contains(Middleware::Sample),
        handler != Handler::Panic,
    ensures
        served(layers, handler, words).response is Some,
        served(layers, handler, words).error is None,
    decreases layers.len(),
{
    if layers[0] == Middleware::Sample {
        answer_or_error(layers.drop_first(), handler, words);
    } else {
        let i = choose|i: int| 0 <= i < layers.len() && layers[i] == Middleware::Sample;
        assert(layers.drop_first()[i - 1] == Middleware::Sample);
        sample_always_answers(layers.drop_first(), handler, words);
    }
}

/// Every request ends either with an answer or with an error for the server, and
/// never with both.
pub proof fn answer_or_error(layers: Seq<Middleware>, handler: Handler, words: Seq<char>)
    requires
        handler != Handler::Panic,
    ensures
        served(layers, handler, words).response is Some <==> served(layers, handler, words).error is None,
    decreases layers.len(),
{
    if layers.len() > 0 {
        answer_or_error(layers.drop_first(), handler, words);
    }
}

/// No two routes share a path, every route is for GET, and the experimental server
/// keeps the paths of the other one, in their order.
pub proof fn paths_differ(experimental: bool)
    ensures
        forall|i: int, j: int|
            0 <= i < j < table(experimental).len() ==> (#[trigger] table(experimental)[i]).uri != (
            #[trigger] table(experimental)[j]).uri,
        forall|i: int|
            0 <= i < table(experimental).len() ==> (#[trigger] table(experimental)[i]).method
                == Method::Get,
        table(false).len() <= table(experimental).len(),
        forall|i: int|
            0 <= i < table(false).len() ==> (#[trigger] table(experimental)[i]).uri == table(
                false,
            )[i].uri,
{
    reveal_strlit("/");
    reveal_strlit("/foo");
    reveal_strlit("/bar");
    reveal_strlit("/panic");
    reveal_strlit("/middleware");
    reveal_strlit("/middleware2");
    assert("/foo"@[1] == 'f' && "/bar"@[1] == 'b');
    let lengths: Seq<nat> = seq![1, 4, 4, 6, 11, 12];
    assert forall|i: int| 0 <= i < table(experimental).len() implies (#[trigger] table(
        experimental,
    )[i]).uri.len() == lengths[i] by {
        assert(i == 0 || i == 1 || i == 2 || i == 3 || i == 4 || i == 5);
    }
    assert forall|i: int, j: int| 0 <= i < j < table(experimental).len() implies (
    #[trigger] table(experimental)[i]).uri != (#[trigger] table(experimental)[j]).uri by {
        assert(lengths[i] != lengths[j] || (i == 1 && j == 2));
    }
}

/// What each path of the server answers, whichever server it is. Only the reason
/// phrase of the root differs. `words` is how the server shows a handler's failure.
pub proof fn paths_answer(experimental: bool, words: Seq<char>)
    ensures
        table(experimental).len() == if experimental {
            6int
        } else {
            4int
        },
        forall|i: int|
            0 <= i < table(experimental).len() ==> (#[trigger] table(experimental)[i]).method is Get,
        ({
            let root = table(experimental)[0];
            let answer = served(root.layers, root.handler, words);
            &&& root.uri == "/"@
            &&& root.layers.len() == 0
            &&& !(root.handler is Panic)
            &&& answer.error is None
            &&& answer.response matches Some(response)
            &&& response.status == 200
            &&& response.message == if experimental {
                Some("OK"@)
            } else {
                None
            }
            &&& response.body == "Hello from Rust!"@
        }),
        ({
            let foo = table(experimental)[1];
            let answer = served(foo.layers, foo.handler, words);
            &&& foo.uri == "/foo"@
            &&& foo.layers.len() == 0
            &&& !(foo.handler is Panic)
            &&& handled(foo.handler).error == Some("Boo, something happened!"@)
            &&& handled(foo.handler).response is None
            &&& answer.error == Some(words)
            &&& answer.response is None
        }),
        ({
            let bar = table(experimental)[2];
            let answer = served(bar.layers, bar.handler, words);
            &&& bar.uri == "/bar"@
            &&& bar.layers.len() == 0
            &&& !(bar.handler is Panic)
            &&& answer.error is None
            &&& answer.response matches Some(response)
            &&& response.status == 403
            &&& response.message == Some("No permissions"@)
            &&& response.body == "You have no permissions to access this page"@
        }),
        ({
            let panic = table(experimental)[3];
            &&& panic.uri == "/panic"@
            &&& panic.layers.len() == 0
            &&& panic.handler is Panic
        }),
{
}

/// What the two further paths of the experimental server answer: the first turns the
/// failure of its handler into an answer, the second answers through two middlewares.
pub proof fn middleware_paths_answer(words: Seq<char>)
    ensures
        ({
            let one = table(true)[4];
            let answer = served(one.layers, one.handler, words);
            &&& one.uri == "/middleware"@
            &&& one.layers == seq![Middleware::Sample]
            &&& handled(one.handler).error == Some("Boo, something happened!"@)
            &&& answer.error is None
            &&& answer.response matches Some(response)
            &&& response.status == 500
            &&& response.message is None
            &&& response.body == "ERROR: "@ + words
        }),
        ({
            let two = table(true)[5];
            let answer = served(two.layers, two.handler, words);
            &&& two.uri == "/middleware2"@
            &&& two.layers == seq![Middleware::Sample2, Middleware::Sample]
            &&& answer.error is None
            &&& answer.response matches Some(response)
            &&& response.status == 200
            &&& response.message == Some("OK"@)
            &&& response.body == "Middleware2 handler called"@
        }),
{
    reveal_with_fuel(served, 3);
}

/// The two servers have the same handler and the same middlewares at each path that
/// they share, but for the root.
pub proof fn servers_agree(i: int)
    requires
        1 <= i < 4,
    ensures
        table(true)[i].uri == table(false)[i].uri,
        table(true)[i].method == table(false)[i].method,
        table(true)[i].layers == table(false)[i].layers,
        table(true)[i].handler == table(false)[i].handler,
{
}

/// Stacks of middleware nest: the outermost passes what all the others made of it,
/// and without any the handler's own answer stands, with its failure as the server
/// shows it.
pub proof fn stacks_nest(
    outer: Middleware,
    layers: Seq<Middleware>,
    handler: Handler,
    words: Seq<char>,
)
    ensures
        served(seq![outer] + layers, handler, words) == through(
            outer,
            served(layers, handler, words),
        ),
        served(Seq::empty(), handler, words).response == handled(handler).response,
        served(Seq::empty(), handler, words).error == match handled(handler).error {
            Some(_) => Some(words),
            None => None,
        },
{
    assert((seq![outer] + layers).drop_first() =~= layers);
}

/// Middleware steps in only where there is an error and no answer yet, and only the
/// sample middleware does; its answer has status 500, no phrase and the error behind
/// a colon.
pub proof fn middleware_steps_in_for_failures(layer: Middleware, behind: Served)
    ensures
        layer is Sample2 || behind.response is Some || behind.error is None ==> through(
            layer,
            behind,
        ) == behind,
        layer is Sample && behind.response is None ==> (behind.error matches Some(error) ==> {
            let passed = through(layer, behind);
            &&& passed.error is None
            &&& passed.response matches Some(response)
            &&& response.status == 500
            &&& response.message is None
            &&& response.body == "ERROR: "@ + error
        }),
{
}

/// Views show every field as it is.
pub proof fn views_show_every_field(
    route: Route,
    response: Response,
    connection: Connection,
    result: Result<(), String>,
)
    ensures
        route@.uri == route.uri@,
        route@.method == route.method,
        route@.layers == route.layers@,
        route@.handler == route.handler,
        response@.status == response.status,
        response.message matches Some(message) ==> response@.message == Some(message@),
        response.message is None ==> response@.message is None,
        response@.body == response.body@,
        connection.response matches Some(begun) ==> served_view(connection, result).response
            == Some(begun@),
        connection.response is None ==> served_view(connection, result).response is None,
        result matches Err(error) ==> served_view(connection, result).error == Some(error@),
        result is Ok ==> served_view(connection, result).error is None,
{
}

/// On each server one path panics, the fourth, and says that this was asked for.
pub proof fn one_path_panics(experimental: bool, i: int)
    requires
        0 <= i < table(experimental).len(),
    ensures
        panics_with(table(experimental)[i].handler) is Some <==> i == 3,
        panics_with(table(experimental)[3].handler) == Some("User requested a panic!"@),
{
}

/// What each handler does by itself, on every server that it may be put on.
pub proof fn handlers_do_as_they_say(handler: Handler)
    ensures
        handler is Boo <==> handled(handler).error is Some,
        handler is Boo ==> handled(handler).error == Some("Boo, something happened!"@)
            && handled(handler).response is None,
        handler is Hello ==> handled(handler).response == Some(
            ResponseView { status: 200, message: None, body: "Hello from Rust!"@ },
        ),
        handler is HelloOk ==> handled(handler).response == Some(
            ResponseView { status: 200, message: Some("OK"@), body: "Hello from Rust!"@ },
        ),
        handler is Forbidden ==> handled(handler).response == Some(
            ResponseView {
                status: 403,
                message: Some("No permissions"@),
                body: "You have no permissions to access this page"@,
            },
        ),
        handler is Layered ==> handled(handler).response == Some(
            ResponseView { status: 200, message: Some("OK"@), body: "Middleware2 handler called"@ },
        ),
        panics_with(handler) is Some <==> handler is Panic,
{
}

} // verus!
