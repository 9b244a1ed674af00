//! Request synthesis: from a resource identity, a verb and its parameters to
//! a request specification.
//!
//! Resources of the core group, whose name is empty, live under `/api`, all
//! others under `/apis`. Below that comes the `apiVersion`, then, for a
//! namespaced resource, `namespaces/` and the namespace, then the resource
//! name: the plural of the lower-cased kind. Verbs on the collection address
//! that path, verbs on one object the object's name below it.

use std::marker::PhantomData;
use vstd::prelude::*;
use vstd::string::*;

use crate::crds::{api_version_of, valid_kind, ResourceId};
use crate::params::{
    ListOptions, ListParams, PatchOptions, PatchParams, PatchStrategy, PostOptions, PostParams,
};
use crate::query::{
    lemma_query_empty_iff_no_pairs, lemma_query_well_separated, query_of, well_separated,
    QueryPairs,
};
use crate::request::{
    body_view, lemma_uri_has_no_stray_separator, Method, RequestError, RequestSpec, RequestView,
};
use crate::text::{collection_name, pluralize_kind};

verus! {

/// The root under which a group is served.
pub open spec fn api_root(group: Seq<char>) -> Seq<char> {
    if group.len() == 0 {
        "/api"@
    } else {
        "/apis"@
    }
}

/// The path segments that confine a path to a namespace: none at cluster
/// scope.
pub open spec fn namespace_segment(namespace: Option<Seq<char>>) -> Seq<char> {
    match namespace {
        Some(ns) => "namespaces/"@ + ns + "/"@,
        None => Seq::empty(),
    }
}

/// The path of the collection of an identity whose resource name is
/// `resource`.
pub open spec fn collection_path(id: ResourceId, resource: Seq<char>) -> Seq<char> {
    api_root(id.group) + "/"@ + id.api_version() + "/"@ + namespace_segment(id.namespace)
        + resource
}

impl ResourceId {
    /// The name of the collection in paths: the plural of the lower-cased
    /// kind.
    pub open spec fn resource_name(self) -> Seq<char> {
        collection_name(self.kind)
    }

    /// The path of the collection.
    pub open spec fn base_path(self) -> Seq<char> {
        collection_path(self, self.resource_name())
    }

    /// The path of the object called `name`.
    pub open spec fn item_path(self, name: Seq<char>) -> Seq<char> {
        self.base_path() + "/"@ + name
    }
}

/// A verb with its parameters.
#[allow(inconsistent_fields)]
pub enum Call {
    /// Submit a new object.
    Create { options: PostOptions, body: Seq<u8> },
    /// Read one object.
    Get { name: Seq<char> },
    /// Read the collection.
    List { options: ListOptions },
    /// Follow the changes of the collection.
    Watch { options: ListOptions },
    /// Follow the changes of one object.
    WatchItem { name: Seq<char>, options: ListOptions },
    /// Change one object by a patch.
    Patch { name: Seq<char>, options: PatchOptions, body: Seq<u8> },
    /// Put a whole object in the place of one.
    Replace { name: Seq<char>, options: PostOptions, body: Seq<u8> },
    /// Remove one object.
    Delete { name: Seq<char> },
}

impl Call {
    /// The HTTP method of the verb.
    pub open spec fn method(self) -> Method {
        match self {
            Call::Create { .. } => Method::Post,
            Call::Get { .. } => Method::Get,
            Call::List { .. } => Method::Get,
            Call::Watch { .. } => Method::Get,
            Call::WatchItem { .. } => Method::Get,
            Call::Patch { .. } => Method::Patch,
            Call::Replace { .. } => Method::Put,
            Call::Delete { .. } => Method::Delete,
        }
    }

    /// The name of the object that the verb addresses; none for a verb on
    /// the collection.
    pub open spec fn item(self) -> Option<Seq<char>> {
        match self {
            Call::Create { .. } => None,
            Call::Get { name } => Some(name),
            Call::List { .. } => None,
            Call::Watch { .. } => None,
            Call::WatchItem { name, .. } => Some(name),
            Call::Patch { name, .. } => Some(name),
            Call::Replace { name, .. } => Some(name),
            Call::Delete { name } => Some(name),
        }
    }

    /// The query pairs of the verb's options.
    pub open spec fn pairs(self) -> QueryPairs {
        match self {
            Call::Create { options, .. } => options.pairs(),
            Call::Get { .. } => Seq::empty(),
            Call::List { options } => options.pairs(),
            Call::Watch { options } => options.watch_pairs(),
            Call::WatchItem { options, .. } => options.watch_pairs(),
            Call::Patch { options, .. } => options.pairs(),
            Call::Replace { options, .. } => options.pairs(),
            Call::Delete { .. } => Seq::empty(),
        }
    }

    /// The strategy that a patch announces; none for every other verb.
    pub open spec fn patch_strategy(self) -> Option<PatchStrategy> {
        match self {
            Call::Patch { options, .. } => Some(options.patch_strategy),
            _ => None,
        }
    }

    /// The body that the verb submits, unchanged; none for a verb that
    /// submits nothing.
    pub open spec fn body(self) -> Option<Seq<u8>> {
        match self {
            Call::Create { body, .. } => Some(body),
            Call::Patch { body, .. } => Some(body),
            Call::Replace { body, .. } => Some(body),
            _ => None,
        }
    }
}

/// The path that a verb addresses: the collection, or the object below it.
pub open spec fn target_path(id: ResourceId, item: Option<Seq<char>>) -> Seq<char> {
    match item {
        Some(name) => id.item_path(name),
        None => id.base_path(),
    }
}

/// The request that a verb on a resource comes to. A verb that addresses one
/// object and names none is refused; every other call gives a request.
pub open spec fn request_for(id: ResourceId, call: Call) -> Result<RequestView, RequestError> {
    if call.item() matches Some(name) && name.len() == 0 {
        Err(RequestError::MissingName)
    } else {
        Ok(
            RequestView {
                method: call.method(),
                path: target_path(id, call.item()),
                query: query_of(call.pairs()),
                patch_strategy: call.patch_strategy(),
                body: call.body(),
            },
        )
    }
}

/// Whatever the resource and the verb, a request that is made has an
/// absolute path, has a query without stray separators, which is empty
/// exactly if the verb's options come to no pair, has the path alone as its
/// target where the query is empty and otherwise a target that ends neither
/// in `?` nor in `&`, carries a body exactly for create, patch and replace,
/// and announces a patch strategy exactly for patch.
pub proof fn lemma_request_shape(id: ResourceId, call: Call)
    ensures
        request_for(id, call) matches Ok(request) ==> {
            &&& request.path.len() > 0 && request.path[0] == '/'
            &&& well_separated(request.query)
            &&& request.query.len() == 0 <==> call.pairs().len() == 0
            &&& call.pairs().len() == 0 ==> request.uri() == request.path
            &&& call.pairs().len() > 0 ==> request.uri() == request.path + "?"@ + request.query
                && request.uri().last() != '?' && request.uri().last() != '&'
            &&& request.body is Some <==> call is Create || call is Patch || call is Replace
            &&& request.patch_strategy is Some <==> call is Patch
        },
        request_for(id, call) is Err <==> (call.item() matches Some(name) && name.len() == 0),
{
    reveal_strlit("/api");
    reveal_strlit("/apis");
    lemma_query_well_separated(call.pairs());
    lemma_query_empty_iff_no_pairs(call.pairs());
    if let Ok(request) = request_for(id, call) {
        lemma_uri_has_no_stray_separator(request);
    }
}

/// The path of every request runs through the collection, and so, for a
/// namespaced resource, through its namespace: it starts with the root, the
/// `apiVersion`, for a namespaced resource `namespaces` and the namespace,
/// and the resource name.
pub proof fn lemma_path_runs_through_namespace(id: ResourceId, call: Call)
    ensures
        request_for(id, call) matches Ok(request) ==> match id.namespace {
            Some(ns) => (api_root(id.group) + "/"@ + id.api_version() + "/namespaces/"@ + ns
                + "/"@ + id.resource_name()).is_prefix_of(request.path),
            None => (api_root(id.group) + "/"@ + id.api_version() + "/"@
                + id.resource_name()).is_prefix_of(request.path),
        },
{
    reveal_strlit("/");
    reveal_strlit("namespaces/");
    reveal_strlit("/namespaces/");
}

/// The mathematical content of the outcome of a synthesis.
pub open spec fn outcome(r: Result<RequestSpec, RequestError>) -> Result<
    RequestView,
    RequestError,
> {
    match r {
        Ok(request) => Ok(request@),
        Err(e) => Err(e),
    }
}

/// The path of the collection named `resource`, of the resource with the
/// given group, `apiVersion` and namespace.
pub fn route(group: &str, api_version: &str, namespace: Option<&str>, resource: &str) -> (path:
    String)
    ensures
        path@ == api_root(group@) + "/"@ + api_version@ + "/"@ + namespace_segment(
            namespace.deep_view(),
        ) + resource@,
{
    let mut path = if group.is_empty() {
        String::from_str("/api")
    } else {
        String::from_str("/apis")
    };
    path.append("/");
    path.append(api_version);
    path.append("/");
    match namespace {
        Some(ns) => {
            path.append("namespaces/");
            path.append(ns);
            path.append("/");
        },
        None => {},
    }
    assert(path@ =~= api_root(group@) + "/"@ + api_version@ + "/"@ + namespace_segment(
        namespace.deep_view(),
    ));
    path.append(resource);
    path
}

/// A resource descriptor bound to the type `K` of the objects it describes,
/// from which requests are made.
pub struct RawApi<K> {
    pub(crate) api_version: String,
    pub(crate) group: String,
    pub(crate) kind: String,
    pub(crate) version: String,
    pub(crate) namespace: Option<String>,
    pub(crate) phantom: PhantomData<K>,
}

impl<K> View for RawApi<K> {
    type V = ResourceId;

    closed spec fn view(&self) -> ResourceId {
        ResourceId {
            kind: self.kind@,
            group: self.group@,
            version: self.version@,
            namespace: self.namespace.deep_view(),
        }
    }
}

impl<K> RawApi<K> {
    #[verifier::type_invariant]
    pub(crate) closed spec fn well_formed(&self) -> bool {
        &&& valid_kind(self.kind@)
        &&& self.api_version@ == api_version_of(self.group@, self.version@)
    }

    /// The descriptor of the given parts.
    pub(crate) fn from_parts(
        kind: String,
        group: String,
        version: String,
        api_version: String,
        namespace: Option<String>,
    ) -> (api: Self)
        requires
            valid_kind(kind@),
            api_version@ == api_version_of(group@, version@),
        ensures
            api == (RawApi::<K> {
                api_version,
                group,
                kind,
                version,
                namespace,
                phantom: PhantomData,
            }),
            api@ == (ResourceId {
                kind: kind@,
                group: group@,
                version: version@,
                namespace: namespace.deep_view(),
            }),
    {
        RawApi { api_version, group, kind, version, namespace, phantom: PhantomData }
    }

    /// The path of the collection if its resource name were `resource`.
    pub fn url_for(&self, resource: &str) -> (path: String)
        ensures
            path@ == collection_path(self@, resource@),
    {
        proof {
            use_type_invariant(self);
        }
        let namespace: Option<&str> = match &self.namespace {
            Some(ns) => Some(ns.as_str()),
            None => None,
        };
        route(self.group.as_str(), self.api_version.as_str(), namespace, resource)
    }

    /// The `apiVersion` that group and version determine, as it was carried
    /// over from the descriptor.
    pub fn api_version(&self) -> (r: &str)
        ensures
            r@ == self@.api_version(),
    {
        proof {
            use_type_invariant(self);
        }
        self.api_version.as_str()
    }

    /// The name of the collection in paths: the plural of the lower-cased
    /// kind.
    pub fn resource_name(&self) -> (name: String)
        ensures
            name@ == self@.resource_name(),
    {
        pluralize_kind(self.kind.as_str())
    }

    /// The path of the collection.
    pub fn make_url(&self) -> (path: String)
        ensures
            path@ == self@.base_path(),
    {
        let resource = self.resource_name();
        self.url_for(resource.as_str())
    }

    /// The request of a verb, from its parts.
    fn request(
        &self,
        method: Method,
        name: Option<&str>,
        query: String,
        patch_strategy: Option<PatchStrategy>,
        body: Option<Vec<u8>>,
        Ghost(call): Ghost<Call>,
    ) -> (r: Result<RequestSpec, RequestError>)
        requires
            method == call.method(),
            name.deep_view() == call.item(),
            query@ == query_of(call.pairs()),
            patch_strategy == call.patch_strategy(),
            body_view(body) == call.body(),
        ensures
            outcome(r) == request_for(self@, call),
    {
        let mut path = self.make_url();
        match name {
            Some(name) => {
                if name.is_empty() {
                    return Err(RequestError::MissingName);
                }
                path.append("/");
                path.append(name);
            },
            None => {},
        }
        Ok(RequestSpec::new(method, path, query, patch_strategy, body))
    }

    /// Submits a new object to the collection: a `POST` there, with the
    /// object as body.
    pub fn create(&self, pp: &PostParams, data: Vec<u8>) -> (r: Result<RequestSpec, RequestError>)
        ensures
            r is Ok,
            outcome(r) == request_for(self@, Call::Create { options: pp@, body: data@ }),
    {
        let ghost call = Call::Create { options: pp@, body: data@ };
        self.request(Method::Post, None, pp.query(), None, Some(data), Ghost(call))
    }

    /// Reads the object called `name`: a `GET` on the object.
    pub fn get(&self, name: &str) -> (r: Result<RequestSpec, RequestError>)
        ensures
            r is Err <==> name@.len() == 0,
            outcome(r) == request_for(self@, Call::Get { name: name@ }),
    {
        let ghost call = Call::Get { name: name@ };
        self.request(Method::Get, Some(name), String::new(), None, None, Ghost(call))
    }

    /// Reads the collection: a `GET` there.
    pub fn list(&self, lp: &ListParams) -> (r: Result<RequestSpec, RequestError>)
        ensures
            r is Ok,
            outcome(r) == request_for(self@, Call::List { options: lp@ }),
    {
        let ghost call = Call::List { options: lp@ };
        self.request(Method::Get, None, lp.query(), None, None, Ghost(call))
    }

    /// Follows the changes of the collection: a `GET` there that asks for a
    /// watch.
    pub fn watch(&self, lp: &ListParams) -> (r: Result<RequestSpec, RequestError>)
        ensures
            r is Ok,
            outcome(r) == request_for(self@, Call::Watch { options: lp@ }),
    {
        let ghost call = Call::Watch { options: lp@ };
        self.request(Method::Get, None, lp.watch_query(), None, None, Ghost(call))
    }

    /// Follows the changes of the object called `name`: a `GET` on the object
    /// that asks for a watch.
    pub fn watch_item(&self, name: &str, lp: &ListParams) -> (r: Result<
        RequestSpec,
        RequestError,
    >)
        ensures
            r is Err <==> name@.len() == 0,
            outcome(r) == request_for(self@, Call::WatchItem { name: name@, options: lp@ }),
    {
        let ghost call = Call::WatchItem { name: name@, options: lp@ };
        self.request(Method::Get, Some(name), lp.watch_query(), None, None, Ghost(call))
    }

    /// Changes the object called `name` by a patch: a `PATCH` on the object,
    /// with the patch as body, passed through as it is.
    pub fn patch(&self, name: &str, pp: &PatchParams, patch: Vec<u8>) -> (r: Result<
        RequestSpec,
        RequestError,
    >)
        ensures
            r is Err <==> name@.len() == 0,
            outcome(r) == request_for(
                self@,
                Call::Patch { name: name@, options: pp@, body: patch@ },
            ),
    {
        let ghost call = Call::Patch { name: name@, options: pp@, body: patch@ };
        self.request(
            Method::Patch,
            Some(name),
            pp.query(),
            Some(pp.patch_strategy),
            Some(patch),
            Ghost(call),
        )
    }

    /// Puts a whole object in the place of the one called `name`: a `PUT` on
    /// the object, with the new object as body.
    pub fn replace(&self, name: &str, pp: &PostParams, data: Vec<u8>) -> (r: Result<
        RequestSpec,
        RequestError,
    >)
        ensures
            r is Err <==> name@.len() == 0,
            outcome(r) == request_for(
                self@,
                Call::Replace { name: name@, options: pp@, body: data@ },
            ),
    {
        let ghost call = Call::Replace { name: name@, options: pp@, body: data@ };
        self.request(Method::Put, Some(name), pp.query(), None, Some(data), Ghost(call))
    }

    /// Removes the object called `name`: a `DELETE` on the object.
    pub fn delete(&self, name: &str) -> (r: Result<RequestSpec, RequestError>)
        ensures
            r is Err <==> name@.len() == 0,
            outcome(r) == request_for(self@, Call::Delete { name: name@ }),
    {
        let ghost call = Call::Delete { name: name@ };
        self.request(Method::Delete, Some(name), String::new(), None, None, Ghost(call))
    }
}

} // verus!
