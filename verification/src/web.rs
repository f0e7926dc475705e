//! The route table of the web front.

use crate::routes::{
    Handler, Method, Middleware, Router, RouterView, REQUEST_TIMEOUT,
};
use vstd::prelude::*;

verus! {

/// The route table of the web front: the greeting at the root answers `GET`
/// and `POST` and is wrapped, from the inside out, in compression, the
/// timeout, the headers for other origins, the version headers and the
/// recording of requests. What no route answers goes to the fallback, which
/// only the recording wraps.
pub open spec fn spec_routes() -> RouterView {
    RouterView::empty().route("/"@, seq![Method::Get, Method::Post], Handler::Hello).layer(
        Middleware::Compression,
    ).layer(Middleware::Timeout(REQUEST_TIMEOUT)).layer(Middleware::Cors).layer(
        Middleware::AddVersion,
    ).fallback(Handler::NotFound).layer(Middleware::Trace)
}

/// The route table of the web front.
pub fn routes() -> (router: Router)
    ensures
        router@ == spec_routes(),
{
    let mut methods: Vec<Method> = Vec::new();
    methods.push(Method::Get);
    methods.push(Method::Post);
    assert(methods@ =~= seq![Method::Get, Method::Post]);
    Router::new().route("/", methods, Handler::Hello).layer(Middleware::Compression).layer(
        Middleware::Timeout(REQUEST_TIMEOUT),
    ).layer(Middleware::Cors).layer(Middleware::AddVersion).fallback(Handler::NotFound).layer(
        Middleware::Trace,
    )
}

} // verus!
