//! Request specifications: what is handed to a transport.

use vstd::prelude::*;
use vstd::string::*;

use crate::params::PatchStrategy;
use crate::query::well_separated;

verus! {

/// The HTTP method of a request.
#[derive(Clone, Copy, Debug, PartialEq, Eq, Structural)]
pub enum Method {
    Get,
    Post,
    Put,
    Patch,
    Delete,
}

impl Method {
    /// The method as it is written on the wire.
    pub open spec fn name(self) -> Seq<char> {
        match self {
            Method::Get => "GET"@,
            Method::Post => "POST"@,
            Method::Put => "PUT"@,
            Method::Patch => "PATCH"@,
            Method::Delete => "DELETE"@,
        }
    }

    /// The method as it is written on the wire.
    pub fn as_str(&self) -> (r: &'static str)
        ensures
            r@ == self.name(),
    {
        match self {
            Method::Get => "GET",
            Method::Post => "POST",
            Method::Put => "PUT",
            Method::Patch => "PATCH",
            Method::Delete => "DELETE",
        }
    }
}

/// Why no request could be made.
#[derive(Clone, Copy, Debug, PartialEq, Eq, Structural)]
pub enum RequestError {
    /// A verb that addresses one object was given an empty name.
    MissingName,
}

impl RequestError {
    /// A sentence that describes the error.
    pub fn message(&self) -> (r: &'static str)
        ensures
            r@ == "a verb that addresses one object needs the object's name"@,
    {
        match self {
            RequestError::MissingName => "a verb that addresses one object needs the object's name",
        }
    }
}

/// The mathematical content of a request.
pub struct RequestView {
    pub method: Method,
    pub path: Seq<char>,
    pub query: Seq<char>,
    pub patch_strategy: Option<PatchStrategy>,
    pub body: Option<Seq<u8>>,
}

impl RequestView {
    /// The request target: the path alone where the query is empty, and
    /// otherwise the path, a `?`, and the query.
    pub open spec fn uri(self) -> Seq<char> {
        if self.query.len() == 0 {
            self.path
        } else {
            self.path + "?"@ + self.query
        }
    }

    /// The content type of the body, which only a patch announces.
    pub open spec fn content_type(self) -> Option<Seq<char>> {
        match self.patch_strategy {
            Some(strategy) => Some(strategy.content_type()),
            None => None,
        }
    }
}

/// The request target of a request whose query has no stray separator has
/// none either, beyond what the path holds: with an empty query it is the
/// path; otherwise one `?` follows the path, the query follows that `?` and
/// does not start with `&`, and the target ends neither in `?` nor in `&`.
pub proof fn lemma_uri_has_no_stray_separator(request: RequestView)
    requires
        well_separated(request.query),
    ensures
        request.query.len() == 0 ==> request.uri() == request.path,
        request.query.len() > 0 ==> {
            let uri = request.uri();
            let mark = request.path.len() as int;
            &&& uri.len() == mark + 1 + request.query.len()
            &&& uri.subrange(0, mark) == request.path
            &&& uri[mark] == '?'
            &&& uri.subrange(mark + 1, uri.len() as int) == request.query
            &&& uri[mark + 1] != '&'
            &&& uri.last() != '?'
            &&& uri.last() != '&'
        },
{
    reveal_strlit("?");
    if request.query.len() > 0 {
        let uri = request.uri();
        let mark = request.path.len() as int;
        assert(uri[mark + 1] == request.query[0]);
        assert(uri.last() == request.query.last());
        assert(request.query.last() == request.query[request.query.len() - 1]);
    }
}

/// The mathematical content of an optional body.
pub open spec fn body_view(body: Option<Vec<u8>>) -> Option<Seq<u8>> {
    match body {
        Some(bytes) => Some(bytes@),
        None => None,
    }
}

/// One request, ready for a transport: method, path, query and, for the verbs
/// that submit something, a body.
#[derive(Debug)]
pub struct RequestSpec {
    method: Method,
    path: String,
    query: String,
    patch_strategy: Option<PatchStrategy>,
    body: Option<Vec<u8>>,
}

impl View for RequestSpec {
    type V = RequestView;

    closed spec fn view(&self) -> RequestView {
        RequestView {
            method: self.method,
            path: self.path@,
            query: self.query@,
            patch_strategy: self.patch_strategy,
            body: body_view(self.body),
        }
    }
}

impl RequestSpec {
    /// A request of the given parts.
    pub fn new(
        method: Method,
        path: String,
        query: String,
        patch_strategy: Option<PatchStrategy>,
        body: Option<Vec<u8>>,
    ) -> (r: Self)
        ensures
            r@ == (RequestView {
                method,
                path: path@,
                query: query@,
                patch_strategy,
                body: body_view(body),
            }),
    {
        RequestSpec { method, path, query, patch_strategy, body }
    }

    /// The HTTP method, as it is written on the wire.
    pub fn method(&self) -> (r: &'static str)
        ensures
            r@ == self@.method.name(),
    {
        self.method.as_str()
    }

    /// The HTTP method.
    pub fn http_method(&self) -> (r: Method)
        ensures
            r == self@.method,
    {
        self.method
    }

    /// The absolute path.
    pub fn path(&self) -> (r: &str)
        ensures
            r@ == self@.path,
    {
        self.path.as_str()
    }

    /// The query string, without the `?` that introduces it.
    pub fn query(&self) -> (r: &str)
        ensures
            r@ == self@.query,
    {
        self.query.as_str()
    }

    /// The request target: the path alone where the query is empty, and
    /// otherwise the path, a `?`, and the query.
    pub fn uri(&self) -> (r: String)
        ensures
            r@ == self@.uri(),
    {
        let mut target = self.path.clone();
        if !self.query.as_str().is_empty() {
            target.append("?");
            target.append(self.query.as_str());
        }
        target
    }

    /// The content type of the body, which only a patch announces.
    pub fn content_type(&self) -> (r: Option<&'static str>)
        ensures
            r.deep_view() == self@.content_type(),
    {
        match &self.patch_strategy {
            Some(strategy) => Some(strategy.as_str()),
            None => None,
        }
    }

    /// The body, if the verb submits one.
    pub fn body(&self) -> (r: &Option<Vec<u8>>)
        ensures
            body_view(*r) == self@.body,
    {
        &self.body
    }
}

} // verus!
