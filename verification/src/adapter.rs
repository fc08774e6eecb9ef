//! The method override adapter itself.
//!
//! The adapter wraps a downstream handler. On each request it decides
//! whether to rewrite the method — only a POST whose query string
//! carries a recognized `_method` directive is rewritten — and then
//! hands the request on. It mutates at most the method field; body,
//! path and query string pass through untouched, and it never inspects
//! or alters the downstream result.

use crate::method::Method;
use crate::query::{directive_of_query, form_pairs_of, override_directive};
use vstd::prelude::*;

verus! {

/// What the adapter sees of an incoming HTTP request: a method, the
/// URI's path, its optional query string, and the rest of the message
/// (body, headers, ...) as an opaque remainder that the adapter never
/// reads.
pub struct Request<B> {
    pub method: Method,
    pub path: String,
    pub query: Option<String>,
    pub body: B,
}

/// The query pairs of a request: those of its query string, or none
/// where the URI has no query component.
pub open spec fn request_pairs(q: Option<String>) -> Seq<(Seq<char>, Seq<char>)> {
    match q {
        Some(s) => form_pairs_of(s@),
        None => Seq::empty(),
    }
}

/// The override that a request asks for: one exists only when the
/// method is exactly POST and the query pairs carry a recognized
/// directive.
pub open spec fn spec_override_method(m: Method, pairs: Seq<(Seq<char>, Seq<char>)>) -> Option<
    Method,
> {
    if m == Method::Post {
        override_directive(pairs)
    } else {
        None
    }
}

/// The method the wrapped handler observes: the directed verb where an
/// override applies, the original method everywhere else.
pub open spec fn method_after_override(m: Method, pairs: Seq<(Seq<char>, Seq<char>)>) -> Method {
    match spec_override_method(m, pairs) {
        Some(v) => v,
        None => m,
    }
}

/// The request the wrapped handler observes: at most the method field
/// differs from the incoming request.
pub open spec fn spec_rewrite<B>(req: Request<B>) -> Request<B> {
    Request {
        method: method_after_override(req.method, request_pairs(req.query)),
        ..req
    }
}

/// The override verb a request asks for, if any: `Some` exactly for a
/// POST whose query string names PUT, PATCH or DELETE in its first
/// `_method` parameter.
pub fn override_method<B>(req: &Request<B>) -> (r: Option<Method>)
    ensures
        r == spec_override_method(req.method, request_pairs(req.query)),
{
    if !matches!(req.method, Method::Post) {
        return None;
    }
    match &req.query {
        Some(q) => directive_of_query(q.as_str()),
        None => None,
    }
}

/// A middleware that wraps a downstream handler and rewrites the
/// method of each POST request that asks for an override before the
/// handler sees it. It holds no state of its own beyond the wrapped
/// handler, so readiness and results pass through unchanged.
#[derive(Debug, Clone)]
pub struct MethodOverrideMiddleware<T> {
    inner_service: T,
}

impl<T> MethodOverrideMiddleware<T> {
    /// The wrapped handler.
    pub closed spec fn inner(&self) -> T {
        self.inner_service
    }

    /// Wrap a downstream handler.
    pub fn new(inner_service: T) -> (r: Self)
        ensures
            r.inner() == inner_service,
    {
        Self { inner_service }
    }

    /// Rewrite a request as the wrapped handler will observe it: the
    /// method is replaced exactly when the request asks for an
    /// override; path, query string and body are never altered.
    pub fn rewrite_request<B>(&self, req: &mut Request<B>)
        ensures
            *final(req) == spec_rewrite(*old(req)),
            final(req).method == method_after_override(
                old(req).method,
                request_pairs(old(req).query),
            ),
            final(req).path == old(req).path,
            final(req).query == old(req).query,
            final(req).body == old(req).body,
    {
        if let Some(new_method) = override_method(req) {
            req.method = new_method;
        }
    }
}

} // verus!
