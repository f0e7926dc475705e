//! Middlewares around the routes.

use crate::routes::{Middleware, Router};
use crate::tower_compat::message::{header_views, ResponseHead};
use vstd::prelude::*;

verus! {

/// Adds the server's name and version to a response's headers, behind the
/// headers that the route wrote.
pub fn add_version(head: &mut ResponseHead, name: &str, version: &str)
    ensures
        final(head).status == old(head).status,
        header_views(final(head).headers@) == header_views(old(head).headers@).push(
            ("Server"@, name@),
        ).push(("Phthonus-Version"@, version@)),
{
    head.append("Server", name);
    head.append("Phthonus-Version", version);
}

/// Puts the recording of requests around every route of the table, the
/// fallback included.
pub fn logging_route(router: Router) -> (out: Router)
    ensures
        out@ == router@.layer(Middleware::Trace),
{
    router.layer(Middleware::Trace)
}

} // verus!
