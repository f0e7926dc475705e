//! The route table and the shape of every route's answer.

pub mod json;
pub mod user;

use crate::error::{AppError, ErrorCode};
use crate::middlewares::logging_route;
use crate::routes::user::{spec_user_routes, user_routes};
use vstd::prelude::*;

verus! {

/// The envelope of a successful answer: a result code, an optional note and
/// the route's own data.
#[derive(Debug)]
pub struct RouteResponse<T> {
    pub code: ErrorCode,
    pub message: Option<String>,
    pub data: T,
}

impl<T: Default> Default for RouteResponse<T> {
    /// The envelope of an answer without a note around default data.
    fn default() -> (res: Self)
        ensures
            res.code == ErrorCode::Normal,
            res.message is None,
            call_ensures(T::default, (), res.data),
    {
        RouteResponse { code: ErrorCode::Normal, message: None, data: T::default() }
    }
}

impl<T> RouteResponse<T> {
    /// The envelope of an answer without a note around `data`.
    pub fn ok(data: T) -> (res: Self)
        ensures
            res.code == ErrorCode::Normal,
            res.message is None,
            res.data == data,
    {
        RouteResponse { code: ErrorCode::Normal, message: None, data }
    }

    /// The HTTP status an envelope is sent with.
    pub fn status(&self) -> (status: u16)
        ensures
            status == 200,
    {
        200
    }
}

/// What a route hands back: its envelope, or the error that stopped it.
pub type RouteResult<T> = Result<RouteResponse<T>, AppError>;

/// An HTTP method that a route answers.
#[derive(Clone, Copy, Debug, PartialEq, Eq, Structural)]
pub enum Method {
    Get,
    Post,
}

/// The handlers that routes lead to.
#[derive(Clone, Copy, Debug, PartialEq, Eq, Structural)]
pub enum Handler {
    Hello,
    Json,
    Text,
    Registry,
    NotFound,
}

/// The middlewares that wrap routes.
#[derive(Clone, Copy, Debug, PartialEq, Eq, Structural)]
pub enum Middleware {
    /// Adds the server's name and version to the response's headers.
    AddVersion,
    /// Lets pages of any origin call the server.
    Cors,
    /// Gives up on a request after this many seconds.
    Timeout(u64),
    /// Compresses the response's body where the client takes it.
    Compression,
    /// Records each request and its response.
    Trace,
}

/// One entry of the route table.
#[derive(Debug)]
pub struct Route {
    pub path: String,
    pub methods: Vec<Method>,
    pub handler: Handler,
    /// The middlewares around the handler, innermost first.
    pub layers: Vec<Middleware>,
}

/// A route as plain values.
pub struct RouteView {
    pub path: Seq<char>,
    pub methods: Seq<Method>,
    pub handler: Handler,
    pub layers: Seq<Middleware>,
}

impl View for Route {
    type V = RouteView;

    open spec fn view(&self) -> RouteView {
        RouteView {
            path: self.path@,
            methods: self.methods@,
            handler: self.handler,
            layers: self.layers@,
        }
    }
}

/// The route table: the routes in the order in which they were added, and
/// what answers where none of them does.
#[derive(Debug)]
pub struct Router {
    pub routes: Vec<Route>,
    pub fallback: Option<Route>,
}

/// A route table as plain values.
pub struct RouterView {
    pub routes: Seq<RouteView>,
    pub fallback: Option<RouteView>,
}

impl RouteView {
    /// The route with `prefix` before its path.
    pub open spec fn under(self, prefix: Seq<char>) -> RouteView {
        RouteView { path: prefix + self.path, ..self }
    }

    /// The route with `middleware` around what it has.
    pub open spec fn wrapped_in(self, middleware: Middleware) -> RouteView {
        RouteView { layers: self.layers.push(middleware), ..self }
    }
}

impl RouterView {
    /// The table without routes and without a fallback.
    pub open spec fn empty() -> RouterView {
        RouterView { routes: Seq::empty(), fallback: None }
    }

    /// The table with one more route, bare of middlewares.
    pub open spec fn route(self, path: Seq<char>, methods: Seq<Method>, handler: Handler) -> RouterView {
        RouterView {
            routes: self.routes.push(RouteView { path, methods, handler, layers: Seq::empty() }),
            ..self
        }
    }

    /// The table with the routes of `sub` added under `prefix`. A fallback of
    /// `sub` is not taken over.
    pub open spec fn nest(self, prefix: Seq<char>, sub: RouterView) -> RouterView {
        RouterView {
            routes: self.routes + Seq::new(sub.routes.len(), |i: int| sub.routes[i].under(prefix)),
            ..self
        }
    }

    /// The table with the routes of `other` added; its fallback is taken
    /// over where the table has none.
    pub open spec fn merge(self, other: RouterView) -> RouterView {
        RouterView {
            routes: self.routes + other.routes,
            fallback: if self.fallback is Some {
                self.fallback
            } else {
                other.fallback
            },
        }
    }

    /// The table with `middleware` around every route it holds so far, the
    /// fallback included.
    pub open spec fn layer(self, middleware: Middleware) -> RouterView {
        RouterView {
            routes: Seq::new(self.routes.len(), |i: int| self.routes[i].wrapped_in(middleware)),
            fallback: match self.fallback {
                Some(route) => Some(route.wrapped_in(middleware)),
                None => None,
            },
        }
    }

    /// The table with `handler`, bare of middlewares, as its fallback.
    pub open spec fn fallback(self, handler: Handler) -> RouterView {
        RouterView {
            fallback: Some(
                RouteView {
                    path: Seq::empty(),
                    methods: Seq::empty(),
                    handler,
                    layers: Seq::empty(),
                },
            ),
            ..self
        }
    }
}

impl View for Router {
    type V = RouterView;

    open spec fn view(&self) -> RouterView {
        RouterView {
            routes: Seq::new(self.routes@.len(), |i: int| self.routes@[i]@),
            fallback: match self.fallback {
                Some(route) => Some(route@),
                None => None,
            },
        }
    }
}

impl Router {
    /// A table without routes and without a fallback.
    pub fn new() -> (router: Self)
        ensures
            router@ == RouterView::empty(),
    {
        let router = Router { routes: Vec::new(), fallback: None };
        assert(router@.routes =~= Seq::empty());
        router
    }

    /// Adds a route, bare of middlewares.
    pub fn route(self, path: &str, methods: Vec<Method>, handler: Handler) -> (router: Self)
        ensures
            router@ == self@.route(path@, methods@, handler),
    {
        let mut router = self;
        router.routes.push(
            Route { path: String::from_str(path), methods, handler, layers: Vec::new() },
        );
        assert(router@.routes =~= self@.route(path@, methods@, handler).routes);
        router
    }

    /// Adds the routes of `sub` under `prefix`.
    pub fn nest(self, prefix: &str, sub: Router) -> (router: Self)
        ensures
            router@ == self@.nest(prefix@, sub@),
    {
        let mut router = self;
        let mut rest = sub.routes;
        let ghost all = sub@.routes;
        let ghost goal = self@.nest(prefix@, sub@);
        let mut moved: Vec<Route> = Vec::new();
        // Routes come off the end of `rest`; `moved` holds them last first.
        while rest.len() > 0
            invariant
                rest@.len() + moved@.len() == all.len(),
                forall|i: int| 0 <= i < rest@.len() ==> (#[trigger] rest@[i])@ == all[i],
                forall|i: int|
                    0 <= i < moved@.len() ==> (#[trigger] moved@[i])@ == all[all.len() - 1
                        - i].under(prefix@),
            decreases rest.len(),
        {
            let route = rest.pop().unwrap();
            let path = String::from_str(prefix).concat(route.path.as_str());
            moved.push(
                Route { path, methods: route.methods, handler: route.handler, layers: route.layers },
            );
        }
        while moved.len() > 0
            invariant
                router@.fallback == self@.fallback,
                router@.routes.len() + moved@.len() == goal.routes.len(),
                goal.routes.len() == self@.routes.len() + all.len(),
                forall|i: int| 0 <= i < router@.routes.len() ==> router@.routes[i] == goal.routes[i],
                forall|i: int|
                    0 <= i < moved@.len() ==> (#[trigger] moved@[i])@ == goal.routes[goal.routes.len()
                        - 1 - i],
            decreases moved.len(),
        {
            let route = moved.pop().unwrap();
            router.routes.push(route);
        }
        assert(router@.routes =~= goal.routes);
        router
    }

    /// Adds the routes of `other`, and takes over its fallback where the
    /// table has none.
    pub fn merge(self, other: Router) -> (router: Self)
        ensures
            router@ == self@.merge(other@),
    {
        let mut router = self;
        let mut other = other;
        let ghost goal = self@.merge(other@);
        router.routes.append(&mut other.routes);
        if router.fallback.is_none() {
            router.fallback = other.fallback;
        }
        assert(router@.routes =~= goal.routes);
        router
    }

    /// Puts `middleware` around every route held so far, the fallback
    /// included.
    pub fn layer(self, middleware: Middleware) -> (router: Self)
        ensures
            router@ == self@.layer(middleware),
    {
        let ghost goal = self@.layer(middleware);
        let mut rest = self.routes;
        let mut turned: Vec<Route> = Vec::new();
        let ghost all = self@.routes;
        while rest.len() > 0
            invariant
                rest@.len() + turned@.len() == all.len(),
                forall|i: int| 0 <= i < rest@.len() ==> (#[trigger] rest@[i])@ == all[i],
                forall|i: int|
                    0 <= i < turned@.len() ==> (#[trigger] turned@[i])@ == all[all.len() - 1
                        - i].wrapped_in(middleware),
            decreases rest.len(),
        {
            let mut route = rest.pop().unwrap();
            route.layers.push(middleware);
            turned.push(route);
        }
        let mut routes: Vec<Route> = Vec::new();
        while turned.len() > 0
            invariant
                routes@.len() + turned@.len() == all.len(),
                forall|i: int|
                    0 <= i < routes@.len() ==> (#[trigger] routes@[i])@ == all[i].wrapped_in(
                        middleware,
                    ),
                forall|i: int|
                    0 <= i < turned@.len() ==> (#[trigger] turned@[i])@ == all[all.len() - 1
                        - i].wrapped_in(middleware),
            decreases turned.len(),
        {
            let route = turned.pop().unwrap();
            routes.push(route);
        }
        let fallback = match self.fallback {
            Some(route) => {
                let mut route = route;
                route.layers.push(middleware);
                Some(route)
            },
            None => None,
        };
        let router = Router { routes, fallback };
        assert(router@.routes =~= goal.routes);
        router
    }

    /// Makes `handler`, bare of middlewares, the fallback.
    pub fn fallback(self, handler: Handler) -> (router: Self)
        ensures
            router@ == self@.fallback(handler),
    {
        let mut router = self;
        router.fallback = Some(
            Route { path: String::new(), methods: Vec::new(), handler, layers: Vec::new() },
        );
        router
    }
}

/// Seconds after which a request is given up.
pub const REQUEST_TIMEOUT: u64 = 15;

/// The route table of the server. Every route answers `GET` and `POST`
/// except the registry; each is wrapped, from the inside out, in the
/// timeout, the version headers and the recording of requests. What no
/// route answers goes to the fallback, which only the recording wraps.
pub open spec fn spec_routes() -> RouterView {
    RouterView::empty().route("/"@, seq![Method::Get, Method::Post], Handler::Hello).route(
        "/json"@,
        seq![Method::Get, Method::Post],
        Handler::Json,
    ).route("/text"@, seq![Method::Get, Method::Post], Handler::Text).nest(
        "/user"@,
        spec_user_routes(),
    ).layer(Middleware::Timeout(REQUEST_TIMEOUT)).layer(Middleware::AddVersion).fallback(
        Handler::NotFound,
    ).layer(Middleware::Trace)
}

/// The methods `GET` and `POST`.
fn get_and_post() -> (methods: Vec<Method>)
    ensures
        methods@ == seq![Method::Get, Method::Post],
{
    let mut methods: Vec<Method> = Vec::new();
    methods.push(Method::Get);
    methods.push(Method::Post);
    methods
}

/// The route table of the server.
pub fn routes() -> (router: Router)
    ensures
        router@ == spec_routes(),
{
    let router = Router::new().route("/", get_and_post(), Handler::Hello).route(
        "/json",
        get_and_post(),
        Handler::Json,
    ).route("/text", get_and_post(), Handler::Text).nest("/user", user_routes()).layer(
        Middleware::Timeout(REQUEST_TIMEOUT),
    ).layer(Middleware::AddVersion).fallback(Handler::NotFound);
    logging_route(router)
}

/// The greeting of the root route, for the package of the given name.
pub fn hello(package: &str) -> (greeting: String)
    ensures
        greeting@ == "hello "@ + package@,
{
    String::from_str("hello ").concat(package)
}

/// The answer to a request that no route answers, whatever its address:
/// status 404 and a short note.
pub fn fallback(uri: &str) -> (answer: (u16, String))
    ensures
        answer.0 == 404,
        answer.1@ == "Not found"@,
{
    (404, String::from_str("Not found"))
}

/// A version of the interface, as named in a request's path.
#[derive(Clone, Copy, Debug, PartialEq, Eq, Structural)]
pub enum Version {
    V1,
    V2,
    V3,
}

/// Why a request names no version.
#[derive(Clone, Copy, Debug, PartialEq, Eq, Structural)]
pub enum VersionRejection {
    /// The path holds no version.
    Missing,
    /// The path holds a version that does not exist.
    Unknown,
}

impl VersionRejection {
    /// What a client is told: status 404 and the reason.
    pub fn into_response(self) -> (answer: (u16, String))
        ensures
            answer.0 == 404,
            answer.1@ == match self {
                VersionRejection::Missing => "version param missing"@,
                VersionRejection::Unknown => "unknown version"@,
            },
    {
        match self {
            VersionRejection::Missing => (404, String::from_str("version param missing")),
            VersionRejection::Unknown => (404, String::from_str("unknown version")),
        }
    }
}

impl Version {
    /// The version that a text names.
    pub open spec fn named(text: Seq<char>) -> Option<Version> {
        if text == "v1"@ {
            Some(Version::V1)
        } else if text == "v2"@ {
            Some(Version::V2)
        } else if text == "v3"@ {
            Some(Version::V3)
        } else {
            None
        }
    }

    /// The version that a request names. `param` holds the `version` part of
    /// the request's path, if the path has one.
    pub fn from_request_parts(param: Option<&str>) -> (out: Result<Version, VersionRejection>)
        ensures
            out == match param {
                None => Err::<Version, VersionRejection>(VersionRejection::Missing),
                Some(text) => match Version::named(text@) {
                    Some(version) => Ok(version),
                    None => Err(VersionRejection::Unknown),
                },
            },
    {
        match param {
            None => Err(VersionRejection::Missing),
            Some(text) => {
                if same_text(text, "v1") {
                    Ok(Version::V1)
                } else if same_text(text, "v2") {
                    Ok(Version::V2)
                } else if same_text(text, "v3") {
                    Ok(Version::V3)
                } else {
                    Err(VersionRejection::Unknown)
                }
            },
        }
    }
}

/// Tells whether two texts are the same.
fn same_text(a: &str, b: &str) -> (same: bool)
    ensures
        same == (a@ == b@),
{
    let n = a.unicode_len();
    if n != b.unicode_len() {
        return false;
    }
    let mut i: usize = 0;
    while i < n
        invariant
            i <= n,
            n == a@.len(),
            n == b@.len(),
            forall|j: int| 0 <= j < i ==> a@[j] == b@[j],
        decreases n - i,
    {
        if a.get_char(i) != b.get_char(i) {
            return false;
        }
        i += 1;
    }
    assert(a@ =~= b@);
    true
}

} // verus!
